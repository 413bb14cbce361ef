//! A harness for a turn-based reentrancy game between an attacker account
//! and a defender contract on a bytecode engine. Calls that would enter the
//! attacker's account pause the transaction and wait for an outside
//! decision; a frame stack lets a transaction pause and resume any number of
//! times, across reentrant call chains of any depth.
use vstd::prelude::*;

pub mod primitives;
pub mod call;
pub mod create;
pub mod game;
pub mod result;
pub mod evm;

pub use call::{
    CallContext, CallInputs, CallResult, CallScheme, CreateInputs, CreateResult, CreateScheme, Gas,
    InstructionResult, Transfer,
};
pub use create::create_address;
pub use evm::{new, DatabaseCommit, Env, TransactTo, TxEnv, EVM};
pub use game::{
    EngineOutcome, GameEnvironment, InterpreterSlot, Resumption, SetupPlan, StuckState, Unwound,
};
pub use primitives::{
    AccountInfo, Address, EVMError, Eval, Halt, InvalidTransaction, Log, OutOfGasError, State, B256,
    U256,
};
pub use result::{ExecutionResult, Output, ResultAndState};

verus! {

} // verus!
