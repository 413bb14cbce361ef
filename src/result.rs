//! The outcome of executing a transaction.
use vstd::prelude::*;
use crate::call::{CallResult, CreateResult};
use crate::primitives::{same_log, Eval, Halt, Log, State};

verus! {

/// A transaction's outcome together with the accounts it changed.
#[derive(Debug)]
pub struct ResultAndState<I> {
    /// How execution ended.
    pub result: ExecutionResult<I>,
    /// The accounts that changed.
    pub state: State,
}

/// What a successful execution produced. `I` is the engine's suspended
/// execution.
#[derive(Debug)]
pub enum Output<I> {
    Call(CallResult),
    Create(CreateResult),
    /// Execution was suspended on a nested call and produced nothing yet.
    Stuck(I),
}

impl<I> Output<I> {
    /// The bytes that a finished call or creation returned.
    pub open spec fn bytes(&self) -> Seq<u8>
        recommends
            self !is Stuck,
    {
        match self {
            Output::Call(c) => c.return_value@,
            Output::Create(c) => c.return_value@,
            Output::Stuck(_) => Seq::empty(),
        }
    }

    /// Consumes the output and returns the bytes it returned.
    pub fn into_data(self) -> (r: Vec<u8>)
        requires
            self !is Stuck,
        ensures
            r@ == self.bytes(),
    {
        match self {
            Output::Call(data) => data.return_value,
            Output::Create(data) => data.return_value,
            Output::Stuck(_) => {
                proof {
                    assert(false);
                }
                Vec::new()
            },
        }
    }

    /// The bytes that the call or creation returned.
    pub fn data(&self) -> (r: &Vec<u8>)
        requires
            self !is Stuck,
        ensures
            r@ == self.bytes(),
    {
        match self {
            Output::Call(data) => &data.return_value,
            Output::Create(data) => &data.return_value,
            Output::Stuck(_) => vstd::pervasive::unreached(),
        }
    }
}

/// How the execution of a transaction ended. `I` is the engine's suspended
/// execution.
#[derive(Debug)]
pub enum ExecutionResult<I> {
    /// Returned successfully.
    Success { reason: Eval, gas_used: u64, gas_refunded: u64, logs: Vec<Log>, output: Output<I> },
    /// Reverted by the REVERT opcode, which does not spend all gas.
    Revert { gas_used: u64, output: Vec<u8> },
    /// Halted exceptionally, spending all gas: `gas_used` is the gas limit.
    Halt { reason: Halt, gas_used: u64 },
    /// Suspended on a nested call.
    Stuck { interpreter: I },
}

impl<I> ExecutionResult<I> {
    /// An execution whose output, if it has one, holds bytes.
    pub open spec fn has_data(&self) -> bool {
        self matches ExecutionResult::Success { output, .. } ==> output !is Stuck
    }

    /// Whether execution succeeded.
    pub fn is_success(&self) -> (r: bool)
        ensures
            r == self is Success,
    {
        matches!(self, ExecutionResult::Success { .. })
    }

    /// A copy of the logs of a successful execution; none otherwise.
    pub fn logs(&self) -> (r: Vec<Log>)
        ensures
            match self {
                ExecutionResult::Success { logs, .. } => r@.len() == logs@.len()
                    && forall|i: int| 0 <= i < r@.len() ==> same_log(#[trigger] r@[i], logs@[i]),
                _ => r@.len() == 0,
            },
    {
        let mut r: Vec<Log> = Vec::new();
        match self {
            ExecutionResult::Success { logs, .. } => {
                let mut i: usize = 0;
                while i < logs.len()
                    invariant
                        0 <= i <= logs@.len(),
                        r@.len() == i,
                        forall|j: int| 0 <= j < i ==> same_log(#[trigger] r@[j], logs@[j]),
                    decreases logs@.len() - i,
                {
                    r.push(logs[i].duplicate());
                    i = i + 1;
                }
            },
            _ => {},
        }
        r
    }

    /// The bytes returned by a successful or reverted execution; `None`
    /// for one that halted or was suspended.
    pub fn output(&self) -> (r: Option<&Vec<u8>>)
        requires
            self.has_data(),
        ensures
            match self {
                ExecutionResult::Success { output, .. } => r matches Some(b) && b@ == output.bytes(),
                ExecutionResult::Revert { output, .. } => r == Some(output),
                _ => r is None,
            },
    {
        match self {
            ExecutionResult::Success { output, .. } => Some(output.data()),
            ExecutionResult::Revert { output, .. } => Some(output),
            _ => None,
        }
    }

    /// Consumes the result and returns the bytes of a successful or
    /// reverted execution; `None` for one that halted or was suspended.
    pub fn into_output(self) -> (r: Option<Vec<u8>>)
        requires
            self.has_data(),
        ensures
            match self {
                ExecutionResult::Success { output, .. } => r matches Some(b) && b@ == output.bytes(),
                ExecutionResult::Revert { output, .. } => r == Some(output),
                _ => r is None,
            },
    {
        match self {
            ExecutionResult::Success { output, .. } => Some(output.into_data()),
            ExecutionResult::Revert { output, .. } => Some(output),
            _ => None,
        }
    }

    /// Consumes the result and returns the logs of a successful execution;
    /// none otherwise.
    pub fn into_logs(self) -> (r: Vec<Log>)
        ensures
            match self {
                ExecutionResult::Success { logs, .. } => r == logs,
                _ => r@.len() == 0,
            },
    {
        match self {
            ExecutionResult::Success { logs, .. } => logs,
            _ => Vec::new(),
        }
    }

    /// The gas that a finished execution used.
    pub fn gas_used(&self) -> (r: u64)
        requires
            self !is Stuck,
        ensures
            match self {
                ExecutionResult::Success { gas_used, .. } => r == gas_used,
                ExecutionResult::Revert { gas_used, .. } => r == gas_used,
                ExecutionResult::Halt { gas_used, .. } => r == gas_used,
                ExecutionResult::Stuck { .. } => false,
            },
    {
        match self {
            ExecutionResult::Success { gas_used, .. } => *gas_used,
            ExecutionResult::Revert { gas_used, .. } => *gas_used,
            ExecutionResult::Halt { gas_used, .. } => *gas_used,
            ExecutionResult::Stuck { .. } => {
                proof {
                    assert(false);
                }
                0
            },
        }
    }
}

} // verus!
