//! Awaitable results for wgpu's callback-and-poll operations.
//!
//! An `AsyncDevice` wraps a `wgpu::Device`. Its `do_async` starts an
//! operation at once with a one-shot `Completer` and returns a
//! `CallbackFuture`. Each await turn of that future either hands the result
//! out, or grants the right to poll the device to one future at a time per
//! device; the caller then polls, so that pending callbacks fire, and ends
//! the turn. The turn logic (`slot`, `poll_loop`, `future`) is verified.

pub mod future;
pub mod gpu;
pub mod poll_loop;
pub mod slot;
pub mod async_device;

pub use async_device::{AsyncBuffer, AsyncDevice};
pub use future::{CallbackFuture, Completer, Step};
pub use poll_loop::PollLoop;
pub use slot::ResultSlot;
