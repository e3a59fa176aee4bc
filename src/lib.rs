//! Game logic of a two-team quiz buzzer: the buzzer state machine, the
//! poll-loop decisions that drive it, and the text shown on the display.

pub mod display;
pub mod game;
pub mod poll;

pub use display::LcdError;
pub use game::{ButtonLevels, Command, Contestant, Message, Rule, Status};
pub use poll::{PollLoop, REFRESH_INTERVAL};
