use eth_game::{
    Address, CallContext, CallInputs, CallResult, CallScheme, CreateScheme, EngineOutcome,
    GameEnvironment, Gas, InstructionResult, StuckState, Transfer, Unwound, U256,
};

fn addr(last: u8) -> Address {
    let mut bytes = [0u8; 20];
    bytes[0] = 0xaa;
    bytes[19] = last;
    Address { bytes }
}

fn hex_bytes(s: &str) -> Vec<u8> {
    (0..s.len()).step_by(2).map(|i| u8::from_str_radix(&s[i..i + 2], 16).unwrap()).collect()
}

const DEPOSIT: [u8; 4] = [0xd0, 0xe3, 0x0d, 0xb0];
const WITHDRAW: [u8; 4] = [0x3c, 0xcf, 0xd6, 0x0b];

fn call(from: Address, to: Address, input: Vec<u8>, value: u64) -> CallInputs {
    let value = U256::from_u64(value);
    CallInputs {
        contract: to,
        transfer: Transfer { source: from, target: to, value },
        input,
        gas_limit: 50000,
        context: CallContext { caller: from, address: to, code_address: to, apparent_value: value, scheme: CallScheme::Call },
        is_static: false,
    }
}

fn finished(result: InstructionResult, used: u64, data: Vec<u8>) -> CallResult {
    CallResult { result, gas: Gas { limit: 1000000, used, refunded: 0 }, return_value: data }
}

fn game() -> GameEnvironment<u32> {
    GameEnvironment::new(addr(1), U256::from_u64(10000), vec![0x60, 0x80, 0x60, 0x40])
}

#[test]
fn setup_derives_defender_from_bootstrap_nonce() {
    let g = game();
    assert_eq!(g.defender_account().bytes.to_vec(), hex_bytes("5a443704dd4b594b382c22a083e2bd3090a6fef3"));
    assert_eq!(g.attacker_account(), addr(1));
    assert!(matches!(g.stuck_state(), StuckState::MoveAttacker));
    assert_eq!(g.depth(), 0);
    let plan = g.setup();
    assert_eq!(plan.deployment.caller, Address::zero());
    assert_eq!(plan.deployment.scheme, CreateScheme::Create);
    assert_eq!(plan.deployment.init_code, vec![0x60, 0x80, 0x60, 0x40]);
    assert_eq!(plan.deployment.gas_limit, 1000000);
    assert_eq!(plan.accounts.len(), 2);
    let empty_hash = hex_bytes("c5d2460186f7233c927e7db2dcc703c0e500b653ca82273b7bfad8045d85a470");
    assert_eq!(plan.accounts[0].0, Address::zero());
    assert_eq!(plan.accounts[0].1.nonce, 1);
    assert_eq!(plan.accounts[0].1.balance.limbs, [u64::MAX, u64::MAX, u64::MAX, u64::MAX >> 1]);
    assert_eq!(plan.accounts[0].1.code_hash.bytes.to_vec(), empty_hash);
    assert_eq!(plan.accounts[1].0, addr(1));
    assert_eq!(plan.accounts[1].1.balance, U256::from_u64(10000));
    assert_eq!(plan.accounts[1].1.nonce, 1);
    assert_eq!(plan.accounts[1].1.code_hash.bytes.to_vec(), empty_hash);
}

#[test]
fn setup_is_deterministic() {
    let g1: GameEnvironment<u32> = GameEnvironment::new(addr(1), U256::from_u64(10000), vec![1, 2, 3]);
    let g2: GameEnvironment<u32> = GameEnvironment::new(addr(9), U256::from_u64(10000), vec![1, 2, 3]);
    assert_eq!(g1.defender_account(), g2.defender_account());
}

#[test]
fn attacker_move_builds_call_to_defender() {
    let mut g = game();
    let defender = g.defender_account();
    g.attacker_move(DEPOSIT.to_vec(), U256::from_u64(100), 1000000);
    match g.stuck_state() {
        StuckState::CallDefender { call_inputs, return_len, return_offset } => {
            assert_eq!((*return_len, *return_offset), (0, 0));
            assert_eq!(call_inputs.contract, defender);
            assert_eq!(call_inputs.input, DEPOSIT.to_vec());
            assert_eq!(call_inputs.gas_limit, 1000000);
            assert_eq!(call_inputs.transfer, Transfer { source: addr(1), target: defender, value: U256::from_u64(100) });
            assert_eq!(call_inputs.context.caller, addr(1));
            assert_eq!(call_inputs.context.address, defender);
            assert_eq!(call_inputs.context.code_address, defender);
            assert_eq!(call_inputs.context.scheme, CallScheme::CallCode);
            assert!(!call_inputs.is_static);
        }
        other => panic!("unexpected state {:?}", other),
    }
    assert_eq!(g.depth(), 0);
}

#[test]
fn declined_call_reverts_without_gas() {
    let mut g = game();
    g.attacker_move(DEPOSIT.to_vec(), U256::from_u64(100), 1000000);
    g.defender_call(false);
    match g.stuck_state() {
        StuckState::SomeoneReturn { result, return_len, return_offset } => {
            assert_eq!(result.result, InstructionResult::Revert);
            assert_eq!(result.gas, Gas::new(0));
            assert!(result.return_value.is_empty());
            assert_eq!((*return_len, *return_offset), (0, 0));
        }
        other => panic!("unexpected state {:?}", other),
    }
    match g.pop_return() {
        Unwound::Finished(r) => assert_eq!(r.result, InstructionResult::Revert),
        other => panic!("unexpected unwind {:?}", other),
    }
    assert!(matches!(g.stuck_state(), StuckState::MoveAttacker));
}

#[test]
fn deposit_completes_without_reentrant_frames() {
    let mut g = game();
    g.attacker_move(DEPOSIT.to_vec(), U256::from_u64(100), 1000000);
    g.defender_call(true);
    match g.stuck_state() {
        StuckState::Executing { call_inputs, return_len, return_offset } => {
            assert_eq!(call_inputs.input, DEPOSIT.to_vec());
            assert_eq!((*return_len, *return_offset), (0, 0));
        }
        other => panic!("unexpected state {:?}", other),
    }
    g.engine_returned(EngineOutcome::Completed(finished(InstructionResult::Return, 22000, vec![])));
    assert_eq!(g.depth(), 0);
    match g.pop_return() {
        Unwound::Finished(r) => {
            assert_eq!(r.result, InstructionResult::Return);
            assert_eq!(r.gas.used, 22000);
        }
        other => panic!("unexpected unwind {:?}", other),
    }
    assert_eq!(g.depth(), 0);
    assert!(matches!(g.stuck_state(), StuckState::MoveAttacker));
}

#[test]
fn nested_call_to_other_account_is_executed() {
    let mut g = game();
    let defender = g.defender_account();
    g.attacker_move(DEPOSIT.to_vec(), U256::zero(), 1000000);
    g.defender_call(true);
    g.engine_returned(EngineOutcome::Suspended {
        interpreter: 3,
        call_inputs: call(defender, addr(2), vec![9], 0),
        return_len: 32,
        return_offset: 64,
    });
    assert_eq!(g.depth(), 1);
    match g.stuck_state() {
        StuckState::CallDefender { call_inputs, return_len, return_offset } => {
            assert_eq!(call_inputs.contract, addr(2));
            assert_eq!((*return_len, *return_offset), (32, 64));
        }
        other => panic!("unexpected state {:?}", other),
    }
    g.defender_call(true);
    g.engine_returned(EngineOutcome::Completed(finished(InstructionResult::Stop, 100, vec![5])));
    match g.pop_return() {
        Unwound::Resume(res) => {
            assert_eq!(res.interpreter, 3);
            assert_eq!(res.result.result, InstructionResult::Stop);
            assert_eq!(res.result.return_value, vec![5]);
            assert_eq!((res.return_len, res.return_offset), (32, 64));
        }
        other => panic!("unexpected unwind {:?}", other),
    }
    assert_eq!(g.depth(), 0);
    match g.stuck_state() {
        StuckState::Executing { call_inputs, return_len, return_offset } => {
            assert_eq!(call_inputs.contract, defender);
            assert_eq!((*return_len, *return_offset), (0, 0));
        }
        other => panic!("unexpected state {:?}", other),
    }
}

#[test]
fn attacker_returns_at_once() {
    let mut g = game();
    let defender = g.defender_account();
    g.attacker_move(WITHDRAW.to_vec(), U256::zero(), 1000000);
    g.defender_call(true);
    g.engine_returned(EngineOutcome::Suspended {
        interpreter: 4,
        call_inputs: call(defender, addr(1), vec![], 100),
        return_len: 0,
        return_offset: 96,
    });
    assert!(matches!(g.stuck_state(), StuckState::CallAttacker { .. }));
    g.attacker_call(None);
    assert!(matches!(g.stuck_state(), StuckState::PrepareAttackerReturn { return_len: 0, return_offset: 96, .. }));
    g.attacker_prepare_return();
    match g.stuck_state() {
        StuckState::SomeoneReturn { result, return_len, return_offset } => {
            assert_eq!(result.result, InstructionResult::Return);
            assert_eq!(result.gas, Gas::new(0));
            assert!(result.return_value.is_empty());
            assert_eq!((*return_len, *return_offset), (0, 96));
        }
        other => panic!("unexpected state {:?}", other),
    }
    assert!(matches!(g.pop_return(), Unwound::Resume(_)));
    assert_eq!(g.depth(), 0);
}

#[test]
fn reentrant_withdrawal_resumes_outer_frame_once() {
    let mut g = game();
    let defender = g.defender_account();
    let attacker = g.attacker_account();
    g.attacker_move(WITHDRAW.to_vec(), U256::zero(), 1000000);
    g.defender_call(true);
    // the defender pays the attacker mid-execution
    g.engine_returned(EngineOutcome::Suspended {
        interpreter: 7,
        call_inputs: call(defender, attacker, vec![], 100),
        return_len: 0,
        return_offset: 128,
    });
    assert_eq!(g.depth(), 1);
    match g.stuck_state() {
        StuckState::CallAttacker { call_inputs, return_len, return_offset } => {
            assert_eq!(call_inputs.contract, attacker);
            assert_eq!((*return_len, *return_offset), (0, 128));
        }
        other => panic!("unexpected state {:?}", other),
    }
    // the attacker withdraws again before returning
    g.attacker_call(Some(call(attacker, defender, WITHDRAW.to_vec(), 0)));
    assert_eq!(g.depth(), 2);
    match g.stuck_state() {
        StuckState::CallDefender { call_inputs, return_len, return_offset } => {
            assert_eq!(call_inputs.input, WITHDRAW.to_vec());
            assert_eq!((*return_len, *return_offset), (0, 0));
        }
        other => panic!("unexpected state {:?}", other),
    }
    g.defender_call(true);
    g.engine_returned(EngineOutcome::Completed(finished(InstructionResult::Stop, 3000, vec![])));
    assert!(matches!(g.pop_return(), Unwound::AttackerReturn));
    assert_eq!(g.depth(), 1);
    assert!(matches!(g.stuck_state(), StuckState::PrepareAttackerReturn { return_len: 0, return_offset: 128, .. }));
    g.attacker_prepare_return();
    let resumed = match g.pop_return() {
        Unwound::Resume(res) => res,
        other => panic!("unexpected unwind {:?}", other),
    };
    assert_eq!(resumed.interpreter, 7);
    assert_eq!(resumed.result.result, InstructionResult::Return);
    assert_eq!((resumed.return_len, resumed.return_offset), (0, 128));
    assert_eq!(g.depth(), 0);
    match g.stuck_state() {
        StuckState::Executing { call_inputs, return_len, return_offset } => {
            assert_eq!(call_inputs.input, WITHDRAW.to_vec());
            assert_eq!((*return_len, *return_offset), (0, 0));
        }
        other => panic!("unexpected state {:?}", other),
    }
    g.engine_returned(EngineOutcome::Completed(finished(InstructionResult::Stop, 40000, vec![])));
    match g.pop_return() {
        Unwound::Finished(r) => assert_eq!(r.gas.used, 40000),
        other => panic!("unexpected unwind {:?}", other),
    }
    assert!(matches!(g.stuck_state(), StuckState::MoveAttacker));
}
