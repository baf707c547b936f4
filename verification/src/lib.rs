//! Poll-style readers and writers built on readers and writers whose
//! operations are asynchronous calls.
//!
//! The library holds the state machines and the buffer handling; the caller
//! creates and polls the futures between a `*_start` step and an `*_end` step.
use vstd::prelude::*;

pub mod read;
pub mod read_buf;
pub mod write;

use crate::read::PollRead;
use crate::write::PollWrite;

verus! {

/// A reader and a writer used together as one I/O object.
pub struct PollIo<R, RF, W, WF, EF> {
    read: PollRead<R, RF>,
    write: PollWrite<W, WF, EF>,
}

impl<R, RF, W, WF, EF> PollIo<R, RF, W, WF, EF> {
    /// The read half.
    pub closed spec fn read_half(&self) -> PollRead<R, RF> {
        self.read
    }

    /// The write half.
    pub closed spec fn write_half(&self) -> PollWrite<W, WF, EF> {
        self.write
    }

    /// Joins a read half and a write half.
    pub fn new(read: PollRead<R, RF>, write: PollWrite<W, WF, EF>) -> (r: Self)
        ensures
            r.read_half() == read,
            r.write_half() == write,
    {
        PollIo { read, write }
    }

    /// Parts the two halves again.
    pub fn into_split(self) -> (r: (PollRead<R, RF>, PollWrite<W, WF, EF>))
        ensures
            r.0 == self.read_half(),
            r.1 == self.write_half(),
    {
        (self.read, self.write)
    }

    /// Borrows both halves.
    pub fn split(&self) -> (r: (&PollRead<R, RF>, &PollWrite<W, WF, EF>))
        ensures
            *r.0 == self.read_half(),
            *r.1 == self.write_half(),
    {
        (&self.read, &self.write)
    }

    /// Borrows both halves mutably; what is done through them is what the
    /// joined value holds afterwards.
    pub fn split_mut(&mut self) -> (r: (&mut PollRead<R, RF>, &mut PollWrite<W, WF, EF>))
        ensures
            *r.0 == old(self).read_half(),
            *r.1 == old(self).write_half(),
            final(self).read_half() == *final(r.0),
            final(self).write_half() == *final(r.1),
    {
        (&mut self.read, &mut self.write)
    }
}

} // verus!
