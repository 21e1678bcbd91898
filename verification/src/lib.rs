//! Registration and dispatch of console control events.
//!
//! The library is the platform-independent core of a console control
//! handler: a typed event enumeration with a total mapping from raw
//! platform codes, and a single-slot handler registry that stores at most
//! one callback, invokes it on recognized events, and bridges the
//! callback's decision to the boolean the platform's handler protocol
//! expects. The platform hook itself (the OS registration call and the
//! thread it invokes the trampoline on) is an external collaborator; the
//! registry records its reported outcomes but never performs the call.

pub mod event;
pub mod registry;

pub use event::CtrlEvent;
pub use event::translate;
pub use registry::HandleError;
pub use registry::HandleOutcome;
pub use registry::HandleResult;
pub use registry::Registry;
pub use registry::hook_result;
pub use registry::outcome_flag;
