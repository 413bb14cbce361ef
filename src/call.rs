//! Descriptions of one call, of its outcome, and of a contract creation.
use vstd::prelude::*;
use crate::primitives::{Address, Halt, U256};

verus! {

/// How a call binds caller, storage and code.
#[derive(Clone, Copy, Debug, PartialEq, Eq, Structural)]
pub enum CallScheme {
    Call,
    CallCode,
    DelegateCall,
    StaticCall,
}

/// The context a call executes in.
#[derive(Clone, Copy, Debug, PartialEq, Eq)]
pub struct CallContext {
    /// The account that issues the call.
    pub caller: Address,
    /// The account whose storage the call runs against.
    pub address: Address,
    /// The account whose code is executed.
    pub code_address: Address,
    /// The value the callee observes as transferred.
    pub apparent_value: U256,
    pub scheme: CallScheme,
}

/// A value transfer that accompanies a call.
#[derive(Clone, Copy, Debug, PartialEq, Eq)]
pub struct Transfer {
    pub source: Address,
    pub target: Address,
    pub value: U256,
}

/// Everything needed to issue one call.
#[derive(Debug)]
pub struct CallInputs {
    /// The callee.
    pub contract: Address,
    pub transfer: Transfer,
    pub input: Vec<u8>,
    pub gas_limit: u64,
    pub context: CallContext,
    pub is_static: bool,
}

/// Gas accounting of a finished call.
#[derive(Clone, Copy, Debug, PartialEq, Eq)]
pub struct Gas {
    pub limit: u64,
    pub used: u64,
    pub refunded: i64,
}

impl Gas {
    /// A fresh account of `limit` gas: nothing used or refunded.
    pub open spec fn new_spec(limit: u64) -> Gas {
        Gas { limit, used: 0, refunded: 0 }
    }

    /// A fresh account of `limit` gas, nothing used or refunded.
    pub fn new(limit: u64) -> (r: Gas)
        ensures
            r == Gas::new_spec(limit),
    {
        Gas { limit, used: 0, refunded: 0 }
    }
}

/// The status a finished call ended with.
#[derive(Clone, Copy, Debug, PartialEq, Eq, Structural)]
pub enum InstructionResult {
    Stop,
    Return,
    SelfDestruct,
    Revert,
    Halt(Halt),
}

/// The outcome of a completed call.
#[derive(Debug)]
pub struct CallResult {
    pub result: InstructionResult,
    pub gas: Gas,
    pub return_value: Vec<u8>,
}

impl CallResult {
    /// A revert that consumed no gas and returned nothing: the outcome of a
    /// call that was declined without running it.
    pub fn declined() -> (r: CallResult)
        ensures
            r.result == InstructionResult::Revert,
            r.gas == Gas::new_spec(0),
            r.return_value@.len() == 0,
    {
        CallResult { result: InstructionResult::Revert, gas: Gas::new(0), return_value: Vec::new() }
    }

    /// An explicit return that consumed no gas and returned nothing: the
    /// outcome of the attacker's contract, whose body is never executed.
    pub fn attacker_return() -> (r: CallResult)
        ensures
            r.result == InstructionResult::Return,
            r.gas == Gas::new_spec(0),
            r.return_value@.len() == 0,
    {
        CallResult { result: InstructionResult::Return, gas: Gas::new(0), return_value: Vec::new() }
    }
}

/// How a creation derives the new contract's address.
#[derive(Clone, Copy, Debug, PartialEq, Eq)]
pub enum CreateScheme {
    /// From the creator's address and nonce.
    Create,
    /// From the creator's address, a salt and the init code's hash.
    Create2 { salt: U256 },
}

/// Everything needed to create a contract.
#[derive(Debug)]
pub struct CreateInputs {
    pub caller: Address,
    pub scheme: CreateScheme,
    pub value: U256,
    pub init_code: Vec<u8>,
    pub gas_limit: u64,
}

/// The outcome of a contract creation.
#[derive(Debug)]
pub struct CreateResult {
    pub result: InstructionResult,
    pub created_address: Option<Address>,
    pub gas: Gas,
    pub return_value: Vec<u8>,
}

} // verus!
