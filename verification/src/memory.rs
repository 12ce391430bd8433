//! A sink that keeps everything written to it in memory.

use crate::state::StreamError;
use vstd::prelude::*;

verus! {

/// An output stream that only accumulates bytes, for looking at them later.
/// It is always ready and never fails.
#[derive(Debug)]
pub struct MemoryOutputPipe {
    buffer: Vec<u8>,
}

impl View for MemoryOutputPipe {
    type V = Seq<u8>;

    /// Everything written so far, in order.
    closed spec fn view(&self) -> Seq<u8> {
        self.buffer@
    }
}

impl MemoryOutputPipe {
    /// A sink that holds nothing yet.
    pub fn new() -> (sink: Self)
        ensures
            sink@ == Seq::<u8>::empty(),
    {
        MemoryOutputPipe { buffer: Vec::new() }
    }

    /// Appends `buf` and reports all of it as accepted.
    pub fn write(&mut self, buf: &[u8]) -> (res: Result<u64, StreamError>)
        ensures
            final(self)@ == old(self)@ + buf@,
            res == Ok::<u64, StreamError>(buf@.len() as u64),
    {
        self.buffer.extend_from_slice(buf);
        Ok(buf.len() as u64)
    }

    /// The sink is always ready: this returns at once and changes nothing.
    pub fn ready(&mut self) -> (res: Result<(), StreamError>)
        ensures
            res == Ok::<(), StreamError>(()),
            final(self)@ == old(self)@,
    {
        Ok(())
    }

    /// Everything written so far.
    pub fn contents(&self) -> (bytes: &[u8])
        ensures
            bytes@ == self@,
    {
        self.buffer.as_slice()
    }
}

} // verus!
