//! Kitty keyboard protocol negotiation for a terminal multiplexer pane: the
//! flags in force on each screen, the stack an application saves them on, the
//! escape sequences that drive them, and the mode bit they put on the screen.

pub mod mode;
pub mod writer;
pub mod kitty;
pub mod laws;
pub mod sequence;
pub mod parser;

pub use mode::{MODE_KEYS_EXTENDED, MODE_KEYS_EXTENDED_2, MODE_KEYS_KITTY};
pub use writer::{RecordingWriter, ScreenWriter};
pub use parser::InputParser;
