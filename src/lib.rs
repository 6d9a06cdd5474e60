//! Session engine of an interactive serial console: key encoding, the command
//! state machine behind the `Ctrl-A` prefix, rendering of incoming text and the
//! transient status line.

pub mod options;
pub mod keys;
pub mod clock;
pub mod text;
pub mod effects;
pub mod status;
pub mod tui;
pub mod app;
