//! The decision core of a terminal user interface for an HTTP client.
//!
//! The interface is driven by messages: the view, the input loop and background tasks put
//! messages on a queue, and one controller takes them off and decides what happens next. This
//! crate is that controller. It performs no I/O but for reading the clock: it consumes what
//! happened and answers with the effects that are due, in order, and the surrounding program
//! performs them.
//!
//! - [`startup`] brings the program up, one step at a time.
//! - [`run`] is the main loop.
//! - [`tui`] is the controller that the main loop hands its messages to.
//! - [`task`] is the work that the controller sends to the background.
//! - [`watch`] and [`terminal`] decide about the collection file and the terminal.
//! - [`laws`] states what holds of all of these together.
pub mod clock;
pub mod collection;
pub mod effect;
pub mod error;
pub mod host;
pub mod laws;
pub mod message;
pub mod request;
pub mod run;
mod sharing;
pub mod startup;
pub mod task;
pub mod terminal;
pub mod tui;
mod utf8;
pub mod watch;
