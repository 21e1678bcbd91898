//! The event translator: a total, fixed mapping from the raw integer
//! codes the platform delivers to a closed enumeration of console
//! control events.

use vstd::prelude::*;

verus! {

/// A recognized console control event.
#[derive(Clone, Copy, Debug, PartialEq, Eq, Structural)]
pub enum CtrlEvent {
    /// Interrupt from the keyboard (raw code 0).
    C,
    /// Break from the keyboard (raw code 1).
    Break,
    /// The hosting console window is closing (raw code 2).
    Close,
    /// The user is logging off (raw code 5).
    Logoff,
    /// The system is shutting down (raw code 6).
    Shutdown,
}

/// Raw platform code for a keyboard interrupt.
pub const CTRL_C_EVENT: u32 = 0;

/// Raw platform code for a keyboard break.
pub const CTRL_BREAK_EVENT: u32 = 1;

/// Raw platform code for the console window closing.
pub const CTRL_CLOSE_EVENT: u32 = 2;

/// Raw platform code for the user logging off.
pub const CTRL_LOGOFF_EVENT: u32 = 5;

/// Raw platform code for the system shutting down.
pub const CTRL_SHUTDOWN_EVENT: u32 = 6;

/// The fixed mapping from raw platform codes to events: total over the
/// five recognized codes, `None` for every other code.
pub open spec fn event_of_code(raw: u32) -> Option<CtrlEvent> {
    if raw == CTRL_C_EVENT {
        Some(CtrlEvent::C)
    } else if raw == CTRL_BREAK_EVENT {
        Some(CtrlEvent::Break)
    } else if raw == CTRL_CLOSE_EVENT {
        Some(CtrlEvent::Close)
    } else if raw == CTRL_LOGOFF_EVENT {
        Some(CtrlEvent::Logoff)
    } else if raw == CTRL_SHUTDOWN_EVENT {
        Some(CtrlEvent::Shutdown)
    } else {
        None
    }
}

/// Classify a raw platform event code. A recognized code yields its
/// event; an unrecognized code yields `None` and is never coerced into
/// a recognized event.
pub fn translate(raw: u32) -> (sig: Option<CtrlEvent>)
    ensures
        sig == event_of_code(raw),
{
    if raw == CTRL_C_EVENT {
        Some(CtrlEvent::C)
    } else if raw == CTRL_BREAK_EVENT {
        Some(CtrlEvent::Break)
    } else if raw == CTRL_CLOSE_EVENT {
        Some(CtrlEvent::Close)
    } else if raw == CTRL_LOGOFF_EVENT {
        Some(CtrlEvent::Logoff)
    } else if raw == CTRL_SHUTDOWN_EVENT {
        Some(CtrlEvent::Shutdown)
    } else {
        None
    }
}

/// Each of the five recognized codes maps to its own event, and no
/// other code ever maps to one of the five.
pub proof fn lemma_translation_exact()
    ensures
        event_of_code(CTRL_C_EVENT) == Some(CtrlEvent::C),
        event_of_code(CTRL_BREAK_EVENT) == Some(CtrlEvent::Break),
        event_of_code(CTRL_CLOSE_EVENT) == Some(CtrlEvent::Close),
        event_of_code(CTRL_LOGOFF_EVENT) == Some(CtrlEvent::Logoff),
        event_of_code(CTRL_SHUTDOWN_EVENT) == Some(CtrlEvent::Shutdown),
        forall|raw: u32|
            event_of_code(raw) is Some ==> raw == CTRL_C_EVENT || raw == CTRL_BREAK_EVENT
                || raw == CTRL_CLOSE_EVENT || raw == CTRL_LOGOFF_EVENT
                || raw == CTRL_SHUTDOWN_EVENT,
{
}

} // verus!
