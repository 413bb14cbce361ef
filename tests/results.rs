use eth_game::{
    new, AccountInfo, Address, CallResult, CreateResult, DatabaseCommit, EVMError, Env, Eval,
    ExecutionResult, Gas, Halt, InstructionResult, InvalidTransaction, Log, OutOfGasError, Output,
    ResultAndState, State, TransactTo, B256, EVM, U256,
};

fn call_output(data: Vec<u8>) -> Output<u32> {
    Output::Call(CallResult { result: InstructionResult::Return, gas: Gas::new(0), return_value: data })
}

fn log(topic: u8, data: Vec<u8>) -> Log {
    Log { address: Address::zero(), topics: vec![B256 { bytes: [topic; 32] }], data }
}

fn success(data: Vec<u8>) -> ExecutionResult<u32> {
    ExecutionResult::Success {
        reason: Eval::Return,
        gas_used: 21000,
        gas_refunded: 5,
        logs: vec![log(1, vec![1, 2]), log(2, vec![])],
        output: call_output(data),
    }
}

#[test]
fn output_data_of_call_and_create() {
    let o = call_output(vec![1, 2, 3]);
    assert_eq!(o.data(), &vec![1, 2, 3]);
    assert_eq!(o.into_data(), vec![1, 2, 3]);
    let c: Output<u32> = Output::Create(CreateResult {
        result: InstructionResult::Return,
        created_address: Some(Address::zero()),
        gas: Gas::new(10),
        return_value: vec![7],
    });
    assert_eq!(c.data(), &vec![7]);
    assert_eq!(c.into_data(), vec![7]);
}

#[test]
fn success_reports_everything() {
    let s = success(vec![4, 5]);
    assert!(s.is_success());
    assert_eq!(s.gas_used(), 21000);
    let logs = s.logs();
    assert_eq!(logs.len(), 2);
    assert_eq!(logs[0].data, vec![1, 2]);
    assert_eq!(logs[1].topics[0].bytes, [2u8; 32]);
    assert_eq!(s.output(), Some(&vec![4, 5]));
    assert_eq!(s.into_output(), Some(vec![4, 5]));
    let logs = success(vec![]).into_logs();
    assert_eq!(logs.len(), 2);
    assert_eq!(logs[0].topics[0].bytes, [1u8; 32]);
}

#[test]
fn revert_has_output_and_no_logs() {
    let r: ExecutionResult<u32> = ExecutionResult::Revert { gas_used: 300, output: vec![9] };
    assert!(!r.is_success());
    assert_eq!(r.gas_used(), 300);
    assert!(r.logs().is_empty());
    assert_eq!(r.output(), Some(&vec![9]));
    assert_eq!(r.into_output(), Some(vec![9]));
    let r: ExecutionResult<u32> = ExecutionResult::Revert { gas_used: 300, output: vec![9] };
    assert!(r.into_logs().is_empty());
}

#[test]
fn halt_has_no_output() {
    let h: ExecutionResult<u32> = ExecutionResult::Halt { reason: Halt::OutOfGas(OutOfGasError::Memory), gas_used: 1000 };
    assert!(!h.is_success());
    assert_eq!(h.gas_used(), 1000);
    assert_eq!(h.output(), None);
    assert!(h.logs().is_empty());
    assert_eq!(h.into_output(), None);
}

#[test]
fn stuck_is_not_success() {
    let s: ExecutionResult<u32> = ExecutionResult::Stuck { interpreter: 1 };
    assert!(!s.is_success());
    assert_eq!(s.output(), None);
    assert!(s.logs().is_empty());
}

#[derive(Debug, Default)]
struct MemDb {
    written: Vec<(Address, AccountInfo)>,
}

impl DatabaseCommit for MemDb {
    fn commit(&mut self, changes: State) {
        self.written.extend(changes);
    }
}

fn info(balance: u64) -> AccountInfo {
    AccountInfo { balance: U256::from_u64(balance), nonce: 2, code_hash: B256 { bytes: [0; 32] } }
}

#[test]
fn evm_starts_with_default_env_and_no_db() {
    let mut evm: EVM<MemDb> = new();
    assert!(evm.db.is_none());
    assert!(evm.db().is_none());
    assert_eq!(evm.env.tx.caller, Address::zero());
    assert_eq!(evm.env.tx.transact_to, TransactTo::Call(Address::zero()));
    assert_eq!(evm.env.tx.value, U256::zero());
    assert!(evm.env.tx.data.is_empty());
    let other: EVM<MemDb> = EVM::with_env(Env::default());
    assert!(other.db.is_none());
}

#[test]
fn evm_database_round_trip() {
    let mut evm: EVM<MemDb> = EVM::new();
    evm.database(MemDb::default());
    evm.db().unwrap().written.push((Address::zero(), info(1)));
    let db = evm.take_db();
    assert_eq!(db.written.len(), 1);
    assert!(evm.db.is_none());
}

#[test]
fn transact_commit_writes_changes() {
    let mut evm: EVM<MemDb> = EVM::new();
    evm.database(MemDb::default());
    let outcome = Ok(ResultAndState { result: success(vec![1]), state: vec![(Address::zero(), info(50))] });
    let r = evm.transact_commit::<u32, ()>(outcome).unwrap();
    assert!(r.is_success());
    assert_eq!(evm.db.as_ref().unwrap().written, vec![(Address::zero(), info(50))]);
}

#[test]
fn transact_commit_passes_errors_on() {
    let mut evm: EVM<MemDb> = EVM::new();
    evm.database(MemDb::default());
    let e: EVMError<u8> = EVMError::from(InvalidTransaction::NonceTooLow { tx: 1, state: 2 });
    let r = evm.transact_commit::<u32, u8>(Err(e));
    assert!(matches!(r, Err(EVMError::Transaction(InvalidTransaction::NonceTooLow { tx: 1, state: 2 }))));
    assert!(matches!(evm.transact_commit::<u32, u8>(Err(EVMError::PrevrandaoNotSet)), Err(EVMError::PrevrandaoNotSet)));
    assert!(matches!(evm.transact_commit::<u32, u8>(Err(EVMError::Database(3))), Err(EVMError::Database(3))));
    assert!(evm.db.as_ref().unwrap().written.is_empty());
}
