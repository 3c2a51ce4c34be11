pub mod action;
pub mod phase;
pub mod notification;
pub mod coherence;
pub mod play;

pub use action::{Action, ActionCategory};
pub use phase::{Phase, TurnPhase, DevelopmentPhase};
pub use notification::Notification;
