//! The core of a staged media-playback pipeline: a fixed-capacity hand-off
//! queue with backpressure and cooperative cancellation, the decisions of the
//! demux and decode stages, and the errors a run can end with.
//!
//! Every type here is plain state with verified transitions. Threads, locks,
//! condition variables and the codec itself belong to the program around it,
//! which performs what these decisions ask for and reports back what happened.
pub mod pipeline;
pub mod queue;
pub mod stage;
