//! Plain-value primitives: account addresses, 256-bit words, and the
//! status enums that describe how an execution ended.
use vstd::prelude::*;

verus! {

/// A 160-bit account address, as its twenty big-endian bytes.
#[derive(Clone, Copy, Debug, Eq)]
pub struct Address {
    pub bytes: [u8; 20],
}

impl Address {
    /// The all-zero address.
    /// The bytes of the all-zero address.
    pub open spec fn zero_bytes() -> Seq<u8> {
        Seq::new(20, |i: int| 0u8)
    }

    pub fn zero() -> (r: Address)
        ensures
            r.bytes@ == Address::zero_bytes(),
    {
        let r = Address { bytes: [0u8; 20] };
        assert(r.bytes@ =~= Address::zero_bytes());
        r
    }

    /// True when both addresses hold the same bytes.
    pub fn same_as(&self, other: &Address) -> (r: bool)
        ensures
            r == (self.bytes@ == other.bytes@),
    {
        let mut i: usize = 0;
        while i < 20
            invariant
                0 <= i <= 20,
                self.bytes@.len() == 20,
                other.bytes@.len() == 20,
                forall|j: int| 0 <= j < i ==> self.bytes@[j] == other.bytes@[j],
            decreases 20 - i,
        {
            if self.bytes[i] != other.bytes[i] {
                return false;
            }
            i = i + 1;
        }
        assert(self.bytes@ =~= other.bytes@);
        true
    }
}

impl PartialEq for Address {
    fn eq(&self, other: &Address) -> (r: bool) {
        self.same_as(other)
    }
}

impl vstd::std_specs::cmp::PartialEqSpecImpl for Address {
    open spec fn obeys_eq_spec() -> bool {
        true
    }

    open spec fn eq_spec(&self, other: &Address) -> bool {
        self.bytes@ == other.bytes@
    }
}

/// A 256-bit unsigned word, as four 64-bit limbs, least significant first.
#[derive(Clone, Copy, Debug, PartialEq, Eq)]
pub struct U256 {
    pub limbs: [u64; 4],
}

impl U256 {
    /// The limbs of zero.
    pub open spec fn zero_limbs() -> Seq<u64> {
        seq![0u64, 0u64, 0u64, 0u64]
    }

    /// The limbs of half the largest word, rounded down.
    pub open spec fn half_max_limbs() -> Seq<u64> {
        seq![u64::MAX, u64::MAX, u64::MAX, 0x7fff_ffff_ffff_ffffu64]
    }

    /// The word zero.
    pub fn zero() -> (r: U256)
        ensures
            r.limbs@ == U256::zero_limbs(),
    {
        let r = U256 { limbs: [0u64; 4] };
        assert(r.limbs@ =~= seq![0u64, 0u64, 0u64, 0u64]);
        r
    }

    /// The word whose value is `v`.
    pub fn from_u64(v: u64) -> (r: U256)
        ensures
            r.limbs@ == seq![v, 0u64, 0u64, 0u64],
    {
        let r = U256 { limbs: [v, 0u64, 0u64, 0u64] };
        assert(r.limbs@ =~= seq![v, 0u64, 0u64, 0u64]);
        r
    }

    /// Half of the largest word, rounded down: every bit set but the top one.
    pub fn half_max() -> (r: U256)
        ensures
            r.limbs@ == U256::half_max_limbs(),
    {
        let r = U256 { limbs: [u64::MAX, u64::MAX, u64::MAX, 0x7fff_ffff_ffff_ffffu64] };
        assert(r.limbs@ =~= seq![u64::MAX, u64::MAX, u64::MAX, 0x7fff_ffff_ffff_ffffu64]);
        r
    }
}

/// A 256-bit hash or log topic, as its thirty-two bytes.
#[derive(Clone, Copy, Debug, PartialEq, Eq)]
pub struct B256 {
    pub bytes: [u8; 32],
}

/// What an account holds: its balance, its nonce and the hash of its code.
#[derive(Clone, Copy, Debug, PartialEq, Eq)]
pub struct AccountInfo {
    pub balance: U256,
    pub nonce: u64,
    pub code_hash: B256,
}

/// The accounts that a transaction changed, with what each holds afterwards.
pub type State = Vec<(Address, AccountInfo)>;

/// A log entry emitted by a contract.
#[derive(Debug)]
pub struct Log {
    pub address: Address,
    pub topics: Vec<B256>,
    pub data: Vec<u8>,
}

/// True when two log entries hold the same address, topics and data.
pub open spec fn same_log(a: Log, b: Log) -> bool {
    &&& a.address == b.address
    &&& a.topics@ == b.topics@
    &&& a.data@ == b.data@
}

impl Log {
    /// A copy of this entry.
    pub fn duplicate(&self) -> (r: Log)
        ensures
            same_log(r, *self),
    {
        let mut topics: Vec<B256> = Vec::new();
        let mut i: usize = 0;
        while i < self.topics.len()
            invariant
                0 <= i <= self.topics@.len(),
                topics@ == self.topics@.subrange(0, i as int),
            decreases self.topics@.len() - i,
        {
            topics.push(self.topics[i]);
            i = i + 1;
            assert(topics@ =~= self.topics@.subrange(0, i as int));
        }
        assert(topics@ =~= self.topics@);
        let mut data: Vec<u8> = Vec::new();
        let mut j: usize = 0;
        while j < self.data.len()
            invariant
                0 <= j <= self.data@.len(),
                data@ == self.data@.subrange(0, j as int),
            decreases self.data@.len() - j,
        {
            data.push(self.data[j]);
            j = j + 1;
            assert(data@ =~= self.data@.subrange(0, j as int));
        }
        assert(data@ =~= self.data@);
        Log { address: self.address, topics, data }
    }
}

/// How a successful execution ended.
#[derive(Clone, Copy, Debug, PartialEq, Eq, Structural)]
pub enum Eval {
    Stop,
    Return,
    SelfDestruct,
}

/// Which kind of gas exhaustion stopped an execution.
#[derive(Clone, Copy, Debug, PartialEq, Eq, Structural)]
pub enum OutOfGasError {
    /// Plain exhaustion.
    BasicOutOfGas,
    /// Memory would grow past the engine's limit.
    MemoryLimit,
    /// Exhaustion while paying for memory growth.
    Memory,
    /// A precompile ran out of gas.
    Precompile,
    /// A 256-bit operand did not fit the 64 bits it was narrowed to.
    InvalidOperand,
}

/// An exceptional halt: execution ended and all its gas was consumed.
#[derive(Clone, Copy, Debug, PartialEq, Eq, Structural)]
pub enum Halt {
    OutOfGas(OutOfGasError),
    OpcodeNotFound,
    InvalidFEOpcode,
    InvalidJump,
    NotActivated,
    StackUnderflow,
    StackOverflow,
    OutOfOffset,
    CreateCollision,
    PrecompileError,
    NonceOverflow,
    /// Created contract code exceeds the size limit.
    CreateContractSizeLimit,
    /// Created contract code begins with the byte 0xEF.
    CreateContractStartingWithEF,
    /// Init code exceeds the size limit.
    CreateInitcodeSizeLimit,
    OverflowPayment,
    StateChangeDuringStaticCall,
    CallNotAllowedInsideStatic,
    OutOfFund,
    CallTooDeep,
}

/// Why a transaction was refused before it ran.
#[derive(Clone, Copy, Debug, PartialEq, Eq)]
pub enum InvalidTransaction {
    GasMaxFeeGreaterThanPriorityFee,
    GasPriceLessThanBasefee,
    CallerGasLimitMoreThanBlock,
    CallGasCostMoreThanGasLimit,
    /// The sender has deployed code.
    RejectCallerWithCode,
    /// The sender cannot cover the transferred value and the maximal fee.
    LackOfFundForMaxFee { fee: u64, balance: U256 },
    OverflowPaymentInTransaction,
    NonceOverflowInTransaction,
    NonceTooHigh { tx: u64, state: u64 },
    NonceTooLow { tx: u64, state: u64 },
    CreateInitcodeSizeLimit,
    InvalidChainId,
    /// Access lists are not supported before the Berlin fork.
    AccessListNotSupported,
}

/// Why a transaction could not be executed.
#[derive(Clone, Copy, Debug, PartialEq, Eq)]
pub enum EVMError<DBError> {
    Transaction(InvalidTransaction),
    /// The block environment lacks the randomness beacon value.
    PrevrandaoNotSet,
    Database(DBError),
}

impl<DBError> From<InvalidTransaction> for EVMError<DBError> {
    fn from(invalid: InvalidTransaction) -> (r: Self) {
        EVMError::Transaction(invalid)
    }
}

impl<DBError> vstd::std_specs::convert::FromSpecImpl<InvalidTransaction> for EVMError<DBError> {
    open spec fn obeys_from_spec() -> bool {
        true
    }

    open spec fn from_spec(invalid: InvalidTransaction) -> Self {
        EVMError::Transaction(invalid)
    }
}

} // verus!
