//! The handler registry: a single-slot store for the application's
//! callback, the dispatch path the platform trampoline drives, and the
//! bridge from a callback's decision to the boolean the platform's
//! handler protocol expects.

use vstd::prelude::*;

use crate::event::CtrlEvent;
use crate::event::event_of_code;
use crate::event::translate;

verus! {

/// A callback's decision about an event it was invoked on.
#[derive(Clone, Copy, Debug, PartialEq, Eq, Structural)]
pub enum HandleOutcome {
    /// The event is fully handled; the default platform action is
    /// suppressed.
    Handled,
    /// The event passes through to the next handler or to the default
    /// platform action.
    Passthrough,
}

/// Why a registry operation failed.
#[derive(Clone, Copy, Debug, PartialEq, Eq, Structural)]
pub enum HandleError {
    /// The guard of the handler slot could not be acquired.
    Lock,
    /// The platform reported failure for the hook registration call.
    Os,
}

/// The result of a registry operation.
pub type HandleResult = Result<(), HandleError>;

/// Bridge a callback's decision to the boolean the platform's handler
/// protocol expects: `true` for a handled event, `false` for one that
/// passes through.
pub fn outcome_flag(outcome: HandleOutcome) -> (flag: bool)
    ensures
        flag == (outcome is Handled),
{
    match outcome {
        HandleOutcome::Handled => true,
        HandleOutcome::Passthrough => false,
    }
}

/// Interpret the raw boolean the platform's hook registration call
/// returns: any nonzero value reports success, zero reports failure.
pub fn hook_result(ret: i32) -> (r: HandleResult)
    ensures
        ret != 0 ==> r is Ok,
        ret == 0 ==> r == Err::<(), HandleError>(HandleError::Os),
{
    if ret != 0 {
        Ok(())
    } else {
        Err(HandleError::Os)
    }
}

/// The single-slot handler registry.
///
/// It stores at most one callback and records whether the platform hook
/// is active, i.e. whether the platform was last asked to route console
/// control events to the trampoline and reported success. The caller
/// owns mutual exclusion: the process-wide instance lives behind a lock,
/// and every operation here runs with that lock held. The platform hook
/// call itself is made by the caller, which passes in the outcome the
/// platform reported.
pub struct Registry<F> {
    slot: Option<F>,
    hook: bool,
}

impl<F: Fn(CtrlEvent) -> HandleOutcome> Registry<F> {
    /// The callback currently stored in the slot, if any.
    pub closed spec fn handler(self) -> Option<F> {
        self.slot
    }

    /// Whether the platform hook is active.
    pub closed spec fn hook_active(self) -> bool {
        self.hook
    }

    /// The registry is armed when a callback is stored and the platform
    /// hook is active, so that events actually reach the callback.
    pub open spec fn armed(self) -> bool {
        self.handler() is Some && self.hook_active()
    }

    /// The stored callback, if any, may be invoked on every recognized
    /// event.
    pub open spec fn callback_ready(self) -> bool {
        forall|sig: CtrlEvent|
            self.handler() is Some ==> #[trigger] call_requires(self.handler().unwrap(), (sig,))
    }

    /// What `dispatch` guarantees about the flag it reports for `raw`:
    /// passthrough for an unrecognized code or an empty slot, and
    /// otherwise the stored callback's own decision, bridged to a
    /// boolean.
    pub open spec fn dispatch_post(self, raw: u32, handled: bool) -> bool {
        &&& event_of_code(raw) is None ==> handled == false
        &&& self.handler() is None ==> handled == false
        &&& event_of_code(raw) is Some && self.handler() is Some ==> exists|outcome: HandleOutcome|
            call_ensures(self.handler().unwrap(), (event_of_code(raw).unwrap(),), outcome)
                && handled == (outcome is Handled)
    }

    /// A fresh registry: no callback stored, no platform hook active.
    pub fn new() -> (registry: Self)
        ensures
            registry.handler() is None,
            !registry.hook_active(),
    {
        Registry { slot: None, hook: false }
    }

    /// Store `callback` as the sole active handler, replacing any
    /// previously stored one, and record the outcome the platform
    /// reported for the hook registration request: success arms the
    /// registry, failure is surfaced as the platform error and leaves
    /// the hook state as it was. The callback is stored either way.
    pub fn install(&mut self, callback: F, hook_ok: bool) -> (r: HandleResult)
        ensures
            final(self).handler() == Some(callback),
            hook_ok ==> r is Ok && final(self).hook_active() && final(self).armed(),
            !hook_ok ==> r == Err::<(), HandleError>(HandleError::Os) && final(self).hook_active()
                == old(self).hook_active(),
    {
        self.slot = Some(callback);
        if hook_ok {
            self.hook = true;
            Ok(())
        } else {
            Err(HandleError::Os)
        }
    }

    /// Record the outcome the platform reported for the hook removal
    /// request: success disarms the registry, failure is surfaced as
    /// the platform error and leaves the hook state as it was. The
    /// committed policy is that a reset keeps the stored callback in
    /// place; only `clear` removes it.
    pub fn reset(&mut self, hook_ok: bool) -> (r: HandleResult)
        ensures
            final(self).handler() == old(self).handler(),
            hook_ok ==> r is Ok && !final(self).hook_active(),
            !hook_ok ==> r == Err::<(), HandleError>(HandleError::Os) && final(self).hook_active()
                == old(self).hook_active(),
    {
        if hook_ok {
            self.hook = false;
            Ok(())
        } else {
            Err(HandleError::Os)
        }
    }

    /// Remove the stored callback, leaving the hook state as it was.
    pub fn clear(&mut self)
        ensures
            final(self).handler() is None,
            final(self).hook_active() == old(self).hook_active(),
    {
        self.slot = None;
    }

    /// The dispatch path the trampoline drives. Classify `raw`; on an
    /// unrecognized code report passthrough without consulting the
    /// slot. On a recognized event invoke the stored callback, if any,
    /// and bridge its decision to the boolean the platform protocol
    /// expects; with no callback stored report passthrough.
    pub fn dispatch(&self, raw: u32) -> (handled: bool)
        requires
            self.callback_ready(),
        ensures
            self.dispatch_post(raw, handled),
    {
        let sig_opt = translate(raw);
        match sig_opt {
            Some(sig) => match &self.slot {
                Some(callback) => {
                    let outcome = (*callback)(sig);
                    outcome_flag(outcome)
                },
                None => false,
            },
            None => false,
        }
    }
}

/// On an unrecognized code, dispatch reports passthrough whatever the
/// slot holds.
pub proof fn lemma_unrecognized_is_passthrough<F: Fn(CtrlEvent) -> HandleOutcome>(
    registry: Registry<F>,
    raw: u32,
    handled: bool,
)
    requires
        event_of_code(raw) is None,
        registry.dispatch_post(raw, handled),
    ensures
        !handled,
{
}

/// With no callback stored, dispatch reports passthrough on every code,
/// recognized or not.
pub proof fn lemma_unarmed_is_passthrough<F: Fn(CtrlEvent) -> HandleOutcome>(
    registry: Registry<F>,
    raw: u32,
    handled: bool,
)
    requires
        registry.handler() is None,
        registry.dispatch_post(raw, handled),
    ensures
        !handled,
{
}

/// When the stored callback decides every invocation on the dispatched
/// event the same way, the flag dispatch reports is exactly that
/// decision bridged to a boolean: `Handled` becomes `true`,
/// `Passthrough` becomes `false`.
pub proof fn lemma_flag_matches_outcome<F: Fn(CtrlEvent) -> HandleOutcome>(
    registry: Registry<F>,
    raw: u32,
    handled: bool,
    outcome: HandleOutcome,
)
    requires
        registry.handler() is Some,
        event_of_code(raw) is Some,
        registry.dispatch_post(raw, handled),
        forall|o: HandleOutcome|
            call_ensures(registry.handler().unwrap(), (event_of_code(raw).unwrap(),), o) ==> o
                == outcome,
    ensures
        handled == (outcome is Handled),
{
}

} // verus!
