//! Hand-off of decoded video frames from a decode pipeline to a render loop.
//!
//! A decode pipeline produces frames on threads of its own, at its own pace.
//! A render loop ticks at the pace of the display and must never wait for the
//! decoder: on each tick it takes the newest frame if it can get at it, and
//! otherwise draws what it drew before. This crate holds the rules of that
//! hand-off, each with its contract, and none of the machinery around them:
//! it neither decodes nor draws, and it starts no thread.
//!
//! - [`frame`]: a decoded frame, as pixel bytes or as the name of a texture.
//! - [`slot`]: the cell that holds the newest frame; the newest one wins.
//! - [`consumer`]: what a render tick does to the texture it draws.
//! - [`topology`]: the elements a pipeline is made of and how its sink is set.
//! - [`pipeline`]: the pipeline's lifecycle, bus messages and samples.
//! - [`gl_bridge`]: sharing the render thread's graphics context with the decoder.
//! - [`session`]: what whole runs of samples and messages do to state and slot.

pub mod consumer;
pub mod frame;
pub mod gl_bridge;
pub mod pipeline;
pub mod session;
pub mod slot;
pub mod topology;
