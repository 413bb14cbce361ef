//! A holder of an execution environment and a database, which commits the
//! changes of an executed transaction.
use vstd::prelude::*;
use crate::call::CreateScheme;
use crate::primitives::{Address, EVMError, State, U256};
use crate::result::{ExecutionResult, ResultAndState};

verus! {

/// Where a transaction goes.
#[derive(Clone, Copy, Debug, PartialEq, Eq)]
pub enum TransactTo {
    /// A call to an existing account.
    Call(Address),
    /// The creation of a contract.
    Create(CreateScheme),
}

/// The transaction to execute.
#[derive(Debug)]
pub struct TxEnv {
    pub caller: Address,
    pub gas_limit: u64,
    pub transact_to: TransactTo,
    pub value: U256,
    pub data: Vec<u8>,
}

/// The environment a transaction executes in.
#[derive(Debug)]
pub struct Env {
    pub tx: TxEnv,
}

impl Env {
    /// The default environment: a call from the zero address to the zero
    /// address, with no value, no data and no gas.
    pub open spec fn is_default(&self) -> bool {
        &&& self.tx.caller.bytes@ == Address::zero_bytes()
        &&& self.tx.gas_limit == 0
        &&& self.tx.transact_to matches TransactTo::Call(to) && to.bytes@ == Address::zero_bytes()
        &&& self.tx.value.limbs@ == U256::zero_limbs()
        &&& self.tx.data@.len() == 0
    }
}

impl Default for Env {
    fn default() -> (r: Env)
        ensures
            r.is_default(),
    {
        Env {
            tx: TxEnv {
                caller: Address::zero(),
                gas_limit: 0,
                transact_to: TransactTo::Call(Address::zero()),
                value: U256::zero(),
                data: Vec::new(),
            },
        }
    }
}

/// A database into which the changes of a transaction are written.
pub trait DatabaseCommit {
    /// Writes `changes` into the database.
    fn commit(&mut self, changes: State);
}

/// An execution environment and, once one is given, a database.
#[derive(Debug)]
pub struct EVM<DB> {
    pub env: Env,
    pub db: Option<DB>,
}

/// An instance with the default environment and no database.
pub fn new<DB>() -> (r: EVM<DB>)
    ensures
        r.env.is_default(),
        r.db is None,
{
    EVM::new()
}

impl<DB> EVM<DB> {
    /// An instance with the default environment and no database.
    pub fn new() -> (r: Self)
        ensures
            r.env.is_default(),
            r.db is None,
    {
        Self::with_env(Env::default())
    }

    /// An instance with the environment `env` and no database.
    pub fn with_env(env: Env) -> (r: Self)
        ensures
            r.env == env,
            r.db is None,
    {
        EVM { env, db: None }
    }

    /// Sets the database to `db`.
    pub fn database(&mut self, db: DB)
        ensures
            final(self).db == Some(db),
            final(self).env == old(self).env,
    {
        self.db = Some(db);
    }

    /// The database, if one was given.
    pub fn db(&mut self) -> (r: Option<&mut DB>)
        ensures
            match old(self).db {
                None => r is None && final(self).db is None,
                Some(d) => r matches Some(m) && *m == d && final(self).db == Some(*final(m)),
            },
            final(self).env == old(self).env,
    {
        self.db.as_mut()
    }

    /// Takes the database out, leaving none.
    pub fn take_db(&mut self) -> (r: DB)
        requires
            old(self).db is Some,
        ensures
            Some(r) == old(self).db,
            final(self).db is None,
            final(self).env == old(self).env,
    {
        match self.db.take() {
            Some(db) => db,
            None => vstd::pervasive::unreached(),
        }
    }
}

impl<DB: DatabaseCommit> EVM<DB> {
    /// Takes the outcome of executing the transaction of `env` against the
    /// database, writes the changed accounts of a successful run into the
    /// database, and returns how execution ended. An error is passed on and
    /// nothing is written.
    pub fn transact_commit<I, E>(&mut self, outcome: Result<ResultAndState<I>, EVMError<E>>) -> (r: Result<ExecutionResult<I>, EVMError<E>>)
        requires
            old(self).db is Some,
        ensures
            final(self).db is Some,
            final(self).env == old(self).env,
            match outcome {
                Ok(rs) => r == Ok::<ExecutionResult<I>, EVMError<E>>(rs.result),
                Err(e) => r == Err::<ExecutionResult<I>, EVMError<E>>(e) && final(self).db == old(self).db,
            },
    {
        match outcome {
            Ok(ResultAndState { result, state }) => {
                match self.db.as_mut() {
                    Some(db) => db.commit(state),
                    None => {},
                }
                Ok(result)
            },
            Err(e) => Err(e),
        }
    }
}

} // verus!
