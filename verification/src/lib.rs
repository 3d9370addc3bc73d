//! Scheduling core of a home-automation switch flipper.
//!
//! A day's switch toggles ("flips") are held in a queue ordered by due time.
//! A periodic tick makes the schedule keeper publish every flip that has
//! come due; a refresh signal from the message broker makes it reload the
//! day's flips and discard those already due. A supervisor routes messages
//! between the clock, the broker listener and the schedule keeper.
//!
//! The modules, from the ground up:
//!
//! - [`message`], [`error`], [`channel`], [`clock`]: what the loops send each
//!   other, how they fail, the channels between them, and the wall clock;
//! - [`decimal`]: whole numbers read from a text and written as one;
//! - [`data`]: the stored schedule, and when a time of day is due;
//! - [`queue`]: the day's pending flips and how they leave the queue;
//! - [`flipper`], [`trace`]: the schedule keeper as a state machine, and what
//!   it asks for over a whole check or refresh;
//! - [`supervisor`], [`counter`], [`mq`]: the router, the ticking clock and
//!   the broker's listener;
//! - [`daily`]: the day's sunrise and sunset, from the weather service's
//!   answer to the rows stored for them.
//!
//! Nothing here reads the database, the broker or the weather service. The
//! program around the library does, and hands over what it got.

pub mod channel;
pub mod clock;
pub mod counter;
pub mod daily;
pub mod data;
pub mod decimal;
pub mod error;
pub mod flipper;
pub mod message;
pub mod mq;
pub mod queue;
pub mod supervisor;
pub mod trace;
