//! Relay core for game-controller input events.
//!
//! Controller events observed by an input source are normalised, queued in
//! an ordered buffer, and handed to a transport that turns each of them into
//! one newline-terminated JSON record. Every component here is sequential and
//! free of I/O: the surrounding program owns the threads, the lock around
//! the buffer, the timer and the streams, and feeds their outcomes to the
//! functions of this crate.

pub mod event_buffer;
pub mod json;
pub mod sdl_event;
pub mod sdl_reader;
pub mod shutdown;
pub mod stdio_interface;
pub mod tcp_writer;
pub mod transport;

pub use event_buffer::EventBuffer;
pub use sdl_event::{ButtonLayout, SdlAxis, SdlButton, SdlEvent};
pub use sdl_reader::{RawEvent, SdlReader};
pub use shutdown::ShutdownToken;
pub use stdio_interface::{LineRead, StdinReader, StdoutWriter};
pub use tcp_writer::{ConnectionState, TcpWriter};
pub use transport::WriteOutcome;
