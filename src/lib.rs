//! Core of a regatta start-sequence controller: the countdown state machine,
//! the horn pattern, the actuator set and the button poller, each written as
//! a step function that a real-time dispatcher drives.
pub mod actuators;
pub mod random;
pub mod sequence;
pub mod horn;
pub mod countdown;

pub use actuators::{ActuatorSet, Light};
pub use countdown::{Countdown, PollAction, Poller};
pub use horn::{BeepCall, Horn};
pub use sequence::{Config, Plan, State, Step};
