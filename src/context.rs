//! The build context of a configuration script: one instance per script
//! environment, bound before evaluation, found by every extension function,
//! and read-only once the environment is frozen.

use vstd::prelude::*;

verus! {

/// Holds global context for the evaluation of a build script.
pub struct TuggerContext {
    /// Handles of the code signers that the script registered, in order.
    pub code_signers: Vec<u64>,
}

impl TuggerContext {
    pub fn new() -> (r: Self)
        ensures
            r.code_signers@ == Seq::<u64>::empty(),
    {
        TuggerContext { code_signers: Vec::new() }
    }
}

/// A context as the environment holds it.
pub struct TuggerContextValue {
    inner: TuggerContext,
}

impl View for TuggerContextValue {
    type V = Seq<u64>;

    closed spec fn view(&self) -> Seq<u64> {
        self.inner.code_signers@
    }
}

impl TuggerContextValue {
    /// The context held.
    pub fn context(&self) -> (r: &TuggerContext)
        ensures
            r.code_signers@ == self@,
    {
        &self.inner
    }

    /// The values that this value owns, which freezing reaches: its code
    /// signers.
    pub fn values_for_descendant_check_and_freeze(&self) -> (r: Vec<u64>)
        ensures
            r@ == self@,
    {
        self.inner.code_signers.clone()
    }
}

/// The type under which the context is found; it owns no values.
pub struct TuggerContextHolder {}

impl TuggerContextHolder {
    pub fn new() -> (r: Self) {
        TuggerContextHolder {  }
    }

    pub fn values_for_descendant_check_and_freeze(&self) -> (r: Vec<u64>)
        ensures
            r@ == Seq::<u64>::empty(),
    {
        Vec::new()
    }
}

/// Why a context operation failed.
#[derive(Clone, Copy, Debug, PartialEq, Eq)]
pub enum ContextError {
    /// No context was bound to the environment: extension functions were
    /// set up before the context was, which is a bug of the caller.
    ContextNotFound,
    /// The environment is frozen and cannot change.
    FrozenEnvironment,
}

impl ContextError {
    /// The code under which the error is reported.
    pub fn code(&self) -> (r: &'static str)
        ensures
            r@ == "TUGGER"@,
    {
        "TUGGER"
    }

    /// The message under which the error is reported.
    pub fn message(&self) -> (r: &'static str)
        ensures
            r@ == (match self {
                ContextError::ContextNotFound => "unable to resolve context (this should never happen)"@,
                ContextError::FrozenEnvironment => "cannot mutate a frozen environment"@,
            }),
    {
        match self {
            ContextError::ContextNotFound => "unable to resolve context (this should never happen)",
            ContextError::FrozenEnvironment => "cannot mutate a frozen environment",
        }
    }
}

/// The state of a script environment as far as the context goes: the code
/// signers of the bound context, if one is bound, and whether the
/// environment is frozen.
pub struct EnvironmentState {
    pub context: Option<Seq<u64>>,
    pub frozen: bool,
}

/// A script environment, holding at most one context.
pub struct ScriptEnvironment {
    context: Option<TuggerContextValue>,
    frozen: bool,
}

impl View for ScriptEnvironment {
    type V = EnvironmentState;

    closed spec fn view(&self) -> EnvironmentState {
        EnvironmentState {
            context: match self.context {
                Some(v) => Some(v@),
                None => None,
            },
            frozen: self.frozen,
        }
    }
}

/// A new environment: no context, not frozen.
pub open spec fn fresh_state() -> EnvironmentState {
    EnvironmentState { context: None, frozen: false }
}

/// The code signers of the context that a lookup finds.
pub open spec fn resolved(s: EnvironmentState) -> Result<Seq<u64>, ContextError> {
    match s.context {
        Some(c) => Ok(c),
        None => Err(ContextError::ContextNotFound),
    }
}

/// Binding a context with code signers `c`: the new state and the outcome.
pub open spec fn after_bind(s: EnvironmentState, c: Seq<u64>) -> (
    EnvironmentState,
    Result<(), ContextError>,
) {
    if s.frozen {
        (s, Err(ContextError::FrozenEnvironment))
    } else {
        (EnvironmentState { context: Some(c), frozen: false }, Ok(()))
    }
}

/// Registering code signer `h` with the bound context: the new state and the
/// outcome.
pub open spec fn after_register(s: EnvironmentState, h: u64) -> (
    EnvironmentState,
    Result<(), ContextError>,
) {
    match s.context {
        None => (s, Err(ContextError::ContextNotFound)),
        Some(c) => if s.frozen {
            (s, Err(ContextError::FrozenEnvironment))
        } else {
            (EnvironmentState { context: Some(c.push(h)), frozen: false }, Ok(()))
        },
    }
}

impl ScriptEnvironment {
    pub fn new() -> (r: Self)
        ensures
            r@ == fresh_state(),
    {
        ScriptEnvironment { context: None, frozen: false }
    }

    pub fn is_frozen(&self) -> (r: bool)
        ensures
            r == self@.frozen,
    {
        self.frozen
    }

    /// Freezes the environment, and with it the context it holds; a frozen
    /// environment stays frozen.
    pub fn freeze(&mut self)
        ensures
            final(self)@ == (EnvironmentState { context: old(self)@.context, frozen: true }),
    {
        self.frozen = true;
    }

    /// Adds a code signer to the bound context.
    pub fn register_code_signer(&mut self, signer: u64) -> (r: Result<(), ContextError>)
        ensures
            (final(self)@, r) == after_register(old(self)@, signer),
    {
        if self.frozen {
            if self.context.is_none() {
                return Err(ContextError::ContextNotFound);
            }
            return Err(ContextError::FrozenEnvironment);
        }
        match &mut self.context {
            Some(v) => {
                v.inner.code_signers.push(signer);
                Ok(())
            },
            None => Err(ContextError::ContextNotFound),
        }
    }
}

/// Finds the context bound to `env`.
pub fn get_context_value(env: &ScriptEnvironment) -> (r: Result<&TuggerContextValue, ContextError>)
    ensures
        match r {
            Ok(v) => resolved(env@) == Ok::<Seq<u64>, ContextError>(v@),
            Err(e) => resolved(env@) == Err::<Seq<u64>, ContextError>(e),
        },
{
    match &env.context {
        Some(v) => Ok(v),
        None => Err(ContextError::ContextNotFound),
    }
}

/// Binds `context` to `env`, in place of any context bound before.
pub fn populate_environment(env: &mut ScriptEnvironment, context: TuggerContext) -> (r: Result<
    (),
    ContextError,
>)
    ensures
        (final(env)@, r) == after_bind(old(env)@, context.code_signers@),
{
    if env.frozen {
        return Err(ContextError::FrozenEnvironment);
    }
    env.context = Some(TuggerContextValue { inner: context });
    Ok(())
}

/// A lookup right after binding finds the context just bound, and what was
/// registered with it after that is seen by the next lookup.
pub proof fn lemma_resolve_after_bind(s: EnvironmentState, c: Seq<u64>, h: u64)
    requires
        !s.frozen,
    ensures
        after_bind(s, c).1 is Ok,
        resolved(after_bind(s, c).0) == Ok::<Seq<u64>, ContextError>(c),
        after_register(after_bind(s, c).0, h).1 is Ok,
        resolved(after_register(after_bind(s, c).0, h).0) == Ok::<Seq<u64>, ContextError>(c.push(h)),
{
}

/// In an environment that no context was ever bound to, frozen or not, a
/// lookup fails with `ContextNotFound`, and so does an attempt to register
/// with the context.
pub proof fn lemma_resolve_unbound(frozen: bool, h: u64)
    ensures
        resolved(EnvironmentState { frozen, ..fresh_state() }) == Err::<Seq<u64>, ContextError>(
            ContextError::ContextNotFound,
        ),
        after_register(EnvironmentState { frozen, ..fresh_state() }, h).1 == Err::<
            (),
            ContextError,
        >(ContextError::ContextNotFound),
{
}

/// Once frozen, an environment fails every change of its context with
/// `FrozenEnvironment` and stays as it was.
pub proof fn lemma_frozen_rejects_changes(s: EnvironmentState, c: Seq<u64>, h: u64)
    requires
        s.frozen,
        s.context is Some,
    ensures
        after_bind(s, c) == (s, Err::<(), ContextError>(ContextError::FrozenEnvironment)),
        after_register(s, h) == (s, Err::<(), ContextError>(ContextError::FrozenEnvironment)),
{
}

} // verus!
