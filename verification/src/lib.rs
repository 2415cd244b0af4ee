//! The core of a small terminal UI shell.
//!
//! Two state machines make up the core. The [`poller`] merges keyboard input
//! and a fixed-rate timer into one ordered stream of [`event::Event`]s; the
//! [`render_loop`] consumes that stream, draws a frame before every receive
//! and stops when the quit key arrives. Neither machine touches the terminal,
//! the clock or the channel: each one says what is to be done next and is
//! told how it went.
//!
//! [`stream`] and [`session`] hold what is proved of whole runs of the two
//! machines: the order and the spacing of what reaches the channel, and the
//! turns that draws and receives take. [`frame`] says what one frame shows
//! and where.

pub mod event;
pub mod frame;
pub mod poller;
pub mod render_loop;
pub mod session;
pub mod stream;
