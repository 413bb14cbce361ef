//! The reentrancy game: a pause/resume state machine over a frame stack.
//!
//! An attacker account and a defender contract exchange calls on an engine
//! that runs bytecode. Whenever a call would enter the attacker's account,
//! the machine stops and waits for an outside decision instead of running it.
//! The engine itself stays outside: the machine says what the engine must run
//! next (a fresh call, or a suspended execution to resume) and takes back
//! what the engine reported. An engine's suspended execution is a value of
//! type `H`, which the frame stack owns while it waits.
use vstd::prelude::*;
use crate::call::{
    CallContext, CallInputs, CallResult, CallScheme, CreateInputs, CreateScheme, Gas,
    InstructionResult, Transfer,
};
use crate::create::{create_address, create_address_spec, keccak256, keccak256_of};
use crate::primitives::{AccountInfo, Address, B256, U256};

verus! {

/// A caller suspended on the stack, waiting for a child call's result.
#[derive(Debug)]
pub enum InterpreterSlot<H> {
    /// Stands for the attacker's contract, whose body is never executed:
    /// the attacker call it is handling, and where that call's result goes.
    Fake { call_inputs: CallInputs, return_len: usize, return_offset: usize },
    /// A suspended engine execution, the call that started it, and where
    /// that call's own result goes in its caller's memory.
    Interpreter { call_inputs: CallInputs, interpreter: H, return_len: usize, return_offset: usize },
}

/// What must happen next. Each operation of the game consumes one of these
/// and leaves another.
#[derive(Debug)]
pub enum StuckState {
    /// No call is in flight: the attacker's top-level move is awaited.
    MoveAttacker,
    /// A call has been routed to the attacker: a decision is awaited, to
    /// return or to call out first.
    CallAttacker { call_inputs: CallInputs, return_len: usize, return_offset: usize },
    /// The attacker's call must still be given its result.
    PrepareAttackerReturn { call_inputs: CallInputs, return_len: usize, return_offset: usize },
    /// A call is ready to be executed or declined.
    CallDefender { call_inputs: CallInputs, return_len: usize, return_offset: usize },
    /// A result must be delivered to the frame on top of the stack, if any.
    SomeoneReturn { result: CallResult, return_len: usize, return_offset: usize },
    /// The engine is running `call_inputs`; its report is awaited.
    Executing { call_inputs: CallInputs, return_len: usize, return_offset: usize },
    /// Held only while an operation runs.
    Noop,
}

/// What the engine reported after running or resuming a call.
#[derive(Debug)]
pub enum EngineOutcome<H> {
    /// The call finished, with any status.
    Completed(CallResult),
    /// The call issued a nested call and was suspended: `interpreter` is the
    /// suspended execution, `call_inputs` the nested call, and the return
    /// position is where the nested call's result goes in its memory.
    Suspended { interpreter: H, call_inputs: CallInputs, return_len: usize, return_offset: usize },
}

/// A suspended execution handed back to the engine with the answer to the
/// nested call it was waiting on.
#[derive(Debug)]
pub struct Resumption<H> {
    pub interpreter: H,
    pub result: CallResult,
    pub return_len: usize,
    pub return_offset: usize,
}

/// What delivering a result did.
#[derive(Debug)]
pub enum Unwound<H> {
    /// The stack was empty: this is the outcome of the top-level call.
    Finished(CallResult),
    /// A backcall of the attacker finished; the attacker's own call must now
    /// be given its result.
    AttackerReturn,
    /// A suspended execution must be resumed by the engine; the call it runs
    /// is the one in the `Executing` state.
    Resume(Resumption<H>),
}

/// What the engine must be given once before the game starts: accounts to
/// insert, and the creation of the defender contract.
#[derive(Debug)]
pub struct SetupPlan {
    pub accounts: Vec<(Address, AccountInfo)>,
    pub deployment: CreateInputs,
}

/// The bootstrap account's nonce when it creates the defender contract.
pub const DEPLOYER_NONCE: u64 = 1;

/// The gas given to the creation of the defender contract.
pub const DEPLOYMENT_GAS: u64 = 1000000;

/// The state a call is in right after it is discovered by the engine: it
/// waits for a decision when its callee is the attacker, else for execution.
pub open spec fn routed(call_inputs: CallInputs, return_len: usize, return_offset: usize, attacker: Address) -> StuckState {
    if call_inputs.contract.bytes@ == attacker.bytes@ {
        StuckState::CallAttacker { call_inputs, return_len, return_offset }
    } else {
        StuckState::CallDefender { call_inputs, return_len, return_offset }
    }
}

/// The call of a top-level attacker move: from the attacker to the
/// defender, run as a direct interaction initiated by the attacker.
pub open spec fn move_inputs(attacker: Address, defender: Address, data: Seq<u8>, value: U256, gas_limit: u64, c: CallInputs) -> bool {
    &&& c.contract == defender
    &&& c.transfer == (Transfer { source: attacker, target: defender, value })
    &&& c.input@ == data
    &&& c.gas_limit == gas_limit
    &&& c.context == (CallContext {
        caller: attacker,
        address: defender,
        code_address: defender,
        apparent_value: value,
        scheme: CallScheme::CallCode,
    })
    &&& !c.is_static
}

/// A declined call's result: a revert that used no gas and returned nothing.
pub open spec fn is_declined_result(r: CallResult) -> bool {
    &&& r.result == InstructionResult::Revert
    &&& r.gas == Gas::new_spec(0)
    &&& r.return_value@.len() == 0
}

/// The attacker's result: an explicit return that used no gas and returned
/// nothing.
pub open spec fn is_attacker_result(r: CallResult) -> bool {
    &&& r.result == InstructionResult::Return
    &&& r.gas == Gas::new_spec(0)
    &&& r.return_value@.len() == 0
}

/// Executing a pending call, or declining it when `pass` is false.
pub open spec fn defender_step<H>(s: StuckState, f: Seq<InterpreterSlot<H>>, pass: bool, s2: StuckState, f2: Seq<InterpreterSlot<H>>) -> bool {
    match s {
        StuckState::CallDefender { call_inputs, return_len, return_offset } => {
            &&& f2 == f
            &&& if pass {
                s2 == (StuckState::Executing { call_inputs, return_len, return_offset })
            } else {
                s2 matches StuckState::SomeoneReturn { result, return_len: l, return_offset: o }
                    && is_declined_result(result) && l == return_len && o == return_offset
            }
        },
        _ => false,
    }
}

/// Taking in the engine's report on the call being executed.
pub open spec fn engine_step<H>(s: StuckState, f: Seq<InterpreterSlot<H>>, attacker: Address, outcome: EngineOutcome<H>, s2: StuckState, f2: Seq<InterpreterSlot<H>>) -> bool {
    match s {
        StuckState::Executing { call_inputs, return_len, return_offset } => match outcome {
            EngineOutcome::Completed(result) => {
                &&& f2 == f
                &&& s2 == (StuckState::SomeoneReturn { result, return_len, return_offset })
            },
            EngineOutcome::Suspended { interpreter, call_inputs: nested, return_len: nl, return_offset: no } => {
                &&& f2 == f.push(InterpreterSlot::Interpreter { call_inputs, interpreter, return_len, return_offset })
                &&& s2 == routed(nested, nl, no, attacker)
            },
        },
        _ => false,
    }
}

/// The attacker's decision: return at once, or issue `backcall` first.
pub open spec fn attacker_step<H>(s: StuckState, f: Seq<InterpreterSlot<H>>, backcall: Option<CallInputs>, s2: StuckState, f2: Seq<InterpreterSlot<H>>) -> bool {
    match s {
        StuckState::CallAttacker { call_inputs, return_len, return_offset } => match backcall {
            None => {
                &&& f2 == f
                &&& s2 == (StuckState::PrepareAttackerReturn { call_inputs, return_len, return_offset })
            },
            Some(b) => {
                &&& f2 == f.push(InterpreterSlot::Fake { call_inputs, return_len, return_offset })
                &&& s2 == (StuckState::CallDefender { call_inputs: b, return_len: 0, return_offset: 0 })
            },
        },
        _ => false,
    }
}

/// Giving the attacker's call its result.
pub open spec fn prepare_return_step<H>(s: StuckState, f: Seq<InterpreterSlot<H>>, s2: StuckState, f2: Seq<InterpreterSlot<H>>) -> bool {
    match s {
        StuckState::PrepareAttackerReturn { return_len, return_offset, .. } => {
            &&& f2 == f
            &&& s2 matches StuckState::SomeoneReturn { result, return_len: l, return_offset: o }
                && is_attacker_result(result) && l == return_len && o == return_offset
        },
        _ => false,
    }
}

/// Delivering a result to the frame on top of the stack, which leaves it.
pub open spec fn unwind_step<H>(s: StuckState, f: Seq<InterpreterSlot<H>>, s2: StuckState, f2: Seq<InterpreterSlot<H>>, r: Unwound<H>) -> bool {
    match s {
        StuckState::SomeoneReturn { result, return_len, return_offset } => {
            if f.len() == 0 {
                &&& f2 == f
                &&& s2 == StuckState::MoveAttacker
                &&& r == Unwound::<H>::Finished(result)
            } else {
                &&& f2 == f.drop_last()
                &&& match f.last() {
                    InterpreterSlot::Fake { call_inputs, return_len: fl, return_offset: fo } => {
                        &&& s2 == (StuckState::PrepareAttackerReturn { call_inputs, return_len: fl, return_offset: fo })
                        &&& r == Unwound::<H>::AttackerReturn
                    },
                    InterpreterSlot::Interpreter { call_inputs, interpreter, return_len: fl, return_offset: fo } => {
                        &&& s2 == (StuckState::Executing { call_inputs, return_len: fl, return_offset: fo })
                        &&& r == Unwound::Resume(Resumption { interpreter, result, return_len, return_offset })
                    },
                }
            }
        },
        _ => false,
    }
}

/// The game: the frame stack, the pending state and the two players.
pub struct GameEnvironment<H> {
    interpreters: Vec<InterpreterSlot<H>>,
    stuck_state: StuckState,
    attacker_account: Address,
    defender_account: Address,
    setup: SetupPlan,
}

impl<H> GameEnvironment<H> {
    /// The frames on the stack, bottom first.
    pub closed spec fn frames(&self) -> Seq<InterpreterSlot<H>> {
        self.interpreters@
    }

    /// The pending state.
    pub closed spec fn state(&self) -> StuckState {
        self.stuck_state
    }

    /// The attacker's address.
    pub closed spec fn attacker(&self) -> Address {
        self.attacker_account
    }

    /// The defender contract's address.
    pub closed spec fn defender(&self) -> Address {
        self.defender_account
    }

    /// What the engine must be given before the first move.
    pub closed spec fn setup_plan(&self) -> SetupPlan {
        self.setup
    }

    /// No operation is half done, and no frame waits while no call is in
    /// flight.
    pub open spec fn wf(&self) -> bool {
        &&& self.state() !is Noop
        &&& self.state() is MoveAttacker ==> self.frames().len() == 0
    }

    /// The pending state, for the driver to pick the next operation.
    pub fn stuck_state(&self) -> (r: &StuckState)
        ensures
            *r == self.state(),
    {
        &self.stuck_state
    }

    /// The attacker's address.
    pub fn attacker_account(&self) -> (r: Address)
        ensures
            r == self.attacker(),
    {
        self.attacker_account
    }

    /// The defender contract's address.
    pub fn defender_account(&self) -> (r: Address)
        ensures
            r == self.defender(),
    {
        self.defender_account
    }

    /// What the engine must be given before the first move: the accounts to
    /// insert, then the creation of the defender contract, whose address
    /// must come out as `defender_account`.
    pub fn setup(&self) -> (r: &SetupPlan)
        ensures
            *r == self.setup_plan(),
    {
        &self.setup
    }

    /// The number of frames on the stack.
    pub fn depth(&self) -> (r: usize)
        ensures
            r == self.frames().len(),
    {
        self.interpreters.len()
    }

    /// A game between `attacker_account`, funded with `attacker_balance`,
    /// and the contract that `contract_deployment_code` creates. The
    /// contract is created by a bootstrap account (the zero address) with
    /// nonce one, so its address depends on nothing else.
    /// What a freshly made game holds: see `new`.
    pub open spec fn is_fresh(g: Self, attacker: Address, balance: U256, code: Seq<u8>) -> bool {
        &&& g.wf()
        &&& g.state() is MoveAttacker
        &&& g.frames().len() == 0
        &&& g.attacker() == attacker
        &&& g.defender().bytes@ == create_address_spec(Address::zero_bytes(), DEPLOYER_NONCE as nat)
        &&& g.setup_plan().deployment.caller.bytes@ == Address::zero_bytes()
        &&& g.setup_plan().deployment.scheme == CreateScheme::Create
        &&& g.setup_plan().deployment.init_code@ == code
        &&& g.setup_plan().deployment.value.limbs@ == U256::zero_limbs()
        &&& g.setup_plan().deployment.gas_limit == DEPLOYMENT_GAS
        &&& g.setup_plan().accounts@.len() == 2
        &&& g.setup_plan().accounts@[0].0.bytes@ == Address::zero_bytes()
        &&& g.setup_plan().accounts@[0].1.balance.limbs@ == U256::half_max_limbs()
        &&& g.setup_plan().accounts@[0].1.nonce == DEPLOYER_NONCE
        &&& g.setup_plan().accounts@[0].1.code_hash.bytes@ == keccak256_of(Seq::empty())
        &&& g.setup_plan().accounts@[1].0 == attacker
        &&& g.setup_plan().accounts@[1].1.balance == balance
        &&& g.setup_plan().accounts@[1].1.nonce == 1
        &&& g.setup_plan().accounts@[1].1.code_hash.bytes@ == keccak256_of(Seq::empty())
    }

    pub fn new(attacker_account: Address, attacker_balance: U256, contract_deployment_code: Vec<u8>) -> (r: Self)
        ensures
            Self::is_fresh(r, attacker_account, attacker_balance, contract_deployment_code@),
    {
        let bootstrap = Address::zero();
        let defender_account = create_address(&bootstrap, DEPLOYER_NONCE);
        let empty: Vec<u8> = Vec::new();
        let empty_hash: B256 = keccak256(&empty);
        let mut accounts: Vec<(Address, AccountInfo)> = Vec::new();
        accounts.push((bootstrap, AccountInfo { balance: U256::half_max(), nonce: DEPLOYER_NONCE, code_hash: empty_hash }));
        accounts.push((attacker_account, AccountInfo { balance: attacker_balance, nonce: 1, code_hash: empty_hash }));
        let deployment = CreateInputs {
            caller: bootstrap,
            scheme: CreateScheme::Create,
            value: U256::zero(),
            init_code: contract_deployment_code,
            gas_limit: DEPLOYMENT_GAS,
        };
        GameEnvironment {
            interpreters: Vec::new(),
            stuck_state: StuckState::MoveAttacker,
            attacker_account,
            defender_account,
            setup: SetupPlan { accounts, deployment },
        }
    }

    /// Takes the pending state out, leaving `Noop` in its place.
    fn take_state(&mut self) -> (r: StuckState)
        ensures
            r == old(self).state(),
            final(self).state() is Noop,
            final(self).frames() == old(self).frames(),
            final(self).attacker() == old(self).attacker(),
            final(self).defender() == old(self).defender(),
            final(self).setup_plan() == old(self).setup_plan(),
    {
        let mut st = StuckState::Noop;
        core::mem::swap(&mut self.stuck_state, &mut st);
        st
    }

    /// The attacker's top-level move: a call to the defender with `data`,
    /// `value` and `gas_limit`. It waits for execution, and its result goes
    /// nowhere in particular.
    pub fn attacker_move(&mut self, data: Vec<u8>, value: U256, gas_limit: u64)
        requires
            old(self).wf(),
            old(self).state() is MoveAttacker,
        ensures
            final(self).wf(),
            final(self).frames() == old(self).frames(),
            final(self).frames().len() == 0,
            final(self).attacker() == old(self).attacker(),
            final(self).defender() == old(self).defender(),
            final(self).setup_plan() == old(self).setup_plan(),
            final(self).state() matches StuckState::CallDefender { call_inputs, return_len, return_offset }
                && return_len == 0 && return_offset == 0
                && move_inputs(old(self).attacker(), old(self).defender(), data@, value, gas_limit, call_inputs),
    {
        let call_inputs = CallInputs {
            contract: self.defender_account,
            transfer: Transfer { source: self.attacker_account, target: self.defender_account, value },
            input: data,
            gas_limit,
            context: CallContext {
                caller: self.attacker_account,
                address: self.defender_account,
                code_address: self.defender_account,
                apparent_value: value,
                scheme: CallScheme::CallCode,
            },
            is_static: false,
        };
        self.stuck_state = StuckState::CallDefender { call_inputs, return_len: 0, return_offset: 0 };
    }

    /// Executes the pending call, or declines it when `pass` is false: a
    /// declined call reverts at once, using no gas, and the engine never
    /// sees it. An executed call is handed to the engine, which then runs
    /// the call in the `Executing` state from scratch.
    pub fn defender_call(&mut self, pass: bool)
        requires
            old(self).wf(),
            old(self).state() is CallDefender,
        ensures
            final(self).wf(),
            defender_step(old(self).state(), old(self).frames(), pass, final(self).state(), final(self).frames()),
            final(self).attacker() == old(self).attacker(),
            final(self).defender() == old(self).defender(),
            final(self).setup_plan() == old(self).setup_plan(),
    {
        let st = self.take_state();
        match st {
            StuckState::CallDefender { call_inputs, return_len, return_offset } => {
                if pass {
                    self.stuck_state = StuckState::Executing { call_inputs, return_len, return_offset };
                } else {
                    self.stuck_state = StuckState::SomeoneReturn { result: CallResult::declined(), return_len, return_offset };
                }
            },
            _ => {
                proof {
                    assert(false);
                }
            },
        }
    }

    /// Takes in the engine's report on the call being executed. A finished
    /// call's result must then be delivered. A suspended execution goes on
    /// the stack, and the nested call it issued is routed: to the attacker's
    /// decision when its callee is the attacker, else to execution.
    pub fn engine_returned(&mut self, outcome: EngineOutcome<H>)
        requires
            old(self).wf(),
            old(self).state() is Executing,
        ensures
            final(self).wf(),
            engine_step(old(self).state(), old(self).frames(), old(self).attacker(), outcome, final(self).state(), final(self).frames()),
            final(self).attacker() == old(self).attacker(),
            final(self).defender() == old(self).defender(),
            final(self).setup_plan() == old(self).setup_plan(),
    {
        let st = self.take_state();
        match st {
            StuckState::Executing { call_inputs, return_len, return_offset } => match outcome {
                EngineOutcome::Completed(result) => {
                    self.stuck_state = StuckState::SomeoneReturn { result, return_len, return_offset };
                },
                EngineOutcome::Suspended { interpreter, call_inputs: nested, return_len: nl, return_offset: no } => {
                    let to_attacker = nested.contract.same_as(&self.attacker_account);
                    if to_attacker {
                        self.stuck_state = StuckState::CallAttacker { call_inputs: nested, return_len: nl, return_offset: no };
                    } else {
                        self.stuck_state = StuckState::CallDefender { call_inputs: nested, return_len: nl, return_offset: no };
                    }
                    self.interpreters.push(InterpreterSlot::Interpreter { call_inputs, interpreter, return_len, return_offset });
                },
            },
            _ => {
                proof {
                    assert(false);
                }
            },
        }
    }

    /// The attacker's decision on a call routed to it. Without a backcall
    /// its contract returns at once. With one, the attacker's call waits on
    /// the stack while the backcall is made.
    pub fn attacker_call(&mut self, backcall_inputs: Option<CallInputs>)
        requires
            old(self).wf(),
            old(self).state() is CallAttacker,
        ensures
            final(self).wf(),
            attacker_step(old(self).state(), old(self).frames(), backcall_inputs, final(self).state(), final(self).frames()),
            final(self).attacker() == old(self).attacker(),
            final(self).defender() == old(self).defender(),
            final(self).setup_plan() == old(self).setup_plan(),
    {
        let st = self.take_state();
        match st {
            StuckState::CallAttacker { call_inputs, return_len, return_offset } => match backcall_inputs {
                Some(backcall) => {
                    self.interpreters.push(InterpreterSlot::Fake { call_inputs, return_len, return_offset });
                    self.stuck_state = StuckState::CallDefender { call_inputs: backcall, return_len: 0, return_offset: 0 };
                },
                None => {
                    self.stuck_state = StuckState::PrepareAttackerReturn { call_inputs, return_len, return_offset };
                },
            },
            _ => {
                proof {
                    assert(false);
                }
            },
        }
    }

    /// Gives the attacker's call its result: an explicit return that used
    /// no gas and returned nothing.
    pub fn attacker_prepare_return(&mut self)
        requires
            old(self).wf(),
            old(self).state() is PrepareAttackerReturn,
        ensures
            final(self).wf(),
            prepare_return_step(old(self).state(), old(self).frames(), final(self).state(), final(self).frames()),
            final(self).attacker() == old(self).attacker(),
            final(self).defender() == old(self).defender(),
            final(self).setup_plan() == old(self).setup_plan(),
    {
        let st = self.take_state();
        match st {
            StuckState::PrepareAttackerReturn { return_len, return_offset, .. } => {
                self.stuck_state = StuckState::SomeoneReturn { result: CallResult::attacker_return(), return_len, return_offset };
            },
            _ => {
                proof {
                    assert(false);
                }
            },
        }
    }

    /// Delivers the pending result to the frame on top of the stack, which
    /// leaves it: exactly one frame per call. With no frame, the result is
    /// the top-level call's outcome and the attacker moves next. A synthetic
    /// frame has its attacker call given a result next. A suspended
    /// execution is handed back, to be resumed with the result.
    pub fn pop_return(&mut self) -> (r: Unwound<H>)
        requires
            old(self).wf(),
            old(self).state() is SomeoneReturn,
        ensures
            final(self).wf(),
            unwind_step(old(self).state(), old(self).frames(), final(self).state(), final(self).frames(), r),
            final(self).attacker() == old(self).attacker(),
            final(self).defender() == old(self).defender(),
            final(self).setup_plan() == old(self).setup_plan(),
    {
        let st = self.take_state();
        match st {
            StuckState::SomeoneReturn { result, return_len, return_offset } => {
                let slot = self.interpreters.pop();
                match slot {
                    None => {
                        self.stuck_state = StuckState::MoveAttacker;
                        Unwound::Finished(result)
                    },
                    Some(InterpreterSlot::Fake { call_inputs, return_len: fl, return_offset: fo }) => {
                        self.stuck_state = StuckState::PrepareAttackerReturn { call_inputs, return_len: fl, return_offset: fo };
                        Unwound::AttackerReturn
                    },
                    Some(InterpreterSlot::Interpreter { call_inputs, interpreter, return_len: fl, return_offset: fo }) => {
                        self.stuck_state = StuckState::Executing { call_inputs, return_len: fl, return_offset: fo };
                        Unwound::Resume(Resumption { interpreter, result, return_len, return_offset })
                    },
                }
            },
            _ => {
                proof {
                    assert(false);
                }
                Unwound::AttackerReturn
            },
        }
    }
}


/// The stack never shrinks below empty, and each operation moves it by at
/// most one frame: executing or declining a call and giving the attacker
/// its result leave it as it is; a report of the engine or a decision of
/// the attacker adds one frame exactly when a call was suspended or a
/// backcall issued; delivering a result removes the top frame, and only on
/// an empty stack does it leave the stack as it is, ending the top-level
/// call and returning to the attacker's move.
pub proof fn lemma_frame_depth<H>(
    s: StuckState,
    f: Seq<InterpreterSlot<H>>,
    attacker: Address,
    pass: bool,
    outcome: EngineOutcome<H>,
    backcall: Option<CallInputs>,
    r: Unwound<H>,
    s2: StuckState,
    f2: Seq<InterpreterSlot<H>>,
)
    ensures
        defender_step(s, f, pass, s2, f2) ==> f2 == f,
        engine_step(s, f, attacker, outcome, s2, f2) ==> f2.len() == f.len() + (if outcome is Suspended { 1int } else { 0int })
            && f2.subrange(0, f.len() as int) == f,
        attacker_step(s, f, backcall, s2, f2) ==> f2.len() == f.len() + (if backcall is Some { 1int } else { 0int })
            && f2.subrange(0, f.len() as int) == f,
        prepare_return_step(s, f, s2, f2) ==> f2 == f,
        unwind_step(s, f, s2, f2, r) ==> if f.len() == 0 {
            &&& f2.len() == 0
            &&& s2 is MoveAttacker
            &&& r is Finished
        } else {
            &&& f2.len() + 1 == f.len()
            &&& f2 == f.subrange(0, f.len() - 1)
            &&& s2 !is MoveAttacker
            &&& r !is Finished
        },
{
    if engine_step(s, f, attacker, outcome, s2, f2) {
        assert(f2.subrange(0, f.len() as int) =~= f);
    }
    if attacker_step(s, f, backcall, s2, f2) {
        assert(f2.subrange(0, f.len() as int) =~= f);
    }
    if unwind_step(s, f, s2, f2, r) && f.len() > 0 {
        assert(f2 =~= f.subrange(0, f.len() - 1));
    }
}

/// A call that the engine discovers goes to the attacker's decision exactly
/// when its callee is the attacker, and to execution otherwise; either way
/// the suspended caller is pushed as a real frame. A finished call goes on
/// to have its result delivered.
pub proof fn lemma_routing<H>(
    s: StuckState,
    f: Seq<InterpreterSlot<H>>,
    attacker: Address,
    outcome: EngineOutcome<H>,
    s2: StuckState,
    f2: Seq<InterpreterSlot<H>>,
)
    requires
        engine_step(s, f, attacker, outcome, s2, f2),
    ensures
        outcome matches EngineOutcome::Suspended { call_inputs: nested, .. } ==> {
            &&& f2.len() == f.len() + 1
            &&& f2.last() is Interpreter
            &&& (nested.contract.bytes@ == attacker.bytes@ <==> s2 is CallAttacker)
            &&& (nested.contract.bytes@ != attacker.bytes@ <==> s2 is CallDefender)
        },
        outcome is Completed ==> f2 == f && s2 is SomeoneReturn,
{
}

/// A backcall pushes exactly one synthetic frame. Delivering a result onto
/// the stack it made pops that frame once, restores the stack as it was
/// before the backcall, and has the outer attacker call given its result
/// at the outer return position, not at the backcall's.
pub proof fn lemma_backcall_frame<H>(
    s0: StuckState,
    f0: Seq<InterpreterSlot<H>>,
    backcall: CallInputs,
    s1: StuckState,
    f1: Seq<InterpreterSlot<H>>,
    s2: StuckState,
    s3: StuckState,
    f3: Seq<InterpreterSlot<H>>,
    r: Unwound<H>,
)
    requires
        attacker_step(s0, f0, Some(backcall), s1, f1),
        unwind_step(s2, f1, s3, f3, r),
    ensures
        f1.len() == f0.len() + 1,
        f1.last() is Fake,
        f3 == f0,
        r is AttackerReturn,
        s0 matches StuckState::CallAttacker { call_inputs, return_len, return_offset }
            && s3 == (StuckState::PrepareAttackerReturn { call_inputs, return_len, return_offset }),
{
    assert(f1.drop_last() =~= f0);
}

/// Setting up is deterministic: two games made with the same deployment
/// code and attacker balance, whoever the attackers are, have the same
/// defender address and the same deployment.
pub proof fn lemma_setup_deterministic<H>(
    g1: GameEnvironment<H>,
    a1: Address,
    g2: GameEnvironment<H>,
    a2: Address,
    balance: U256,
    code: Seq<u8>,
)
    requires
        GameEnvironment::is_fresh(g1, a1, balance, code),
        GameEnvironment::is_fresh(g2, a2, balance, code),
    ensures
        g1.defender().bytes@ == g2.defender().bytes@,
        g1.setup_plan().deployment.caller.bytes@ == g2.setup_plan().deployment.caller.bytes@,
        g1.setup_plan().deployment.init_code@ == g2.setup_plan().deployment.init_code@,
        g1.setup_plan().deployment.gas_limit == g2.setup_plan().deployment.gas_limit,
{
}

} // verus!
