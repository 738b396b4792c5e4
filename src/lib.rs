//! The decisions of a "stand up and rest" reminder: reading the duration the
//! user typed, counting it down tick by tick, and acting on the answer to the
//! dialog shown when it expires.
pub mod countdown;
pub mod duration;
pub mod session;

pub use countdown::{Countdown, Phase};
pub use duration::{InputError, MAX_MINUTES, parse_minutes};
pub use session::{Choice, Reminder, TICKS_PER_MINUTE, choices};
