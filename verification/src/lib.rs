//! Host-side virtual byte streams: a bounded in-process pipe, adapters for
//! asynchronous sources and sinks, and an in-memory sink, each a stream
//! endpoint with a pending buffer and a non-suspending transfer step.

pub mod bytes;
pub mod channel;
pub mod input_pipe;
pub mod memory;
pub mod output_pipe;
pub mod pipe;
pub mod pipe_model;
pub mod poll;
pub mod state;
pub mod stdio;
pub mod wrapped_read;
pub mod wrapped_write;
