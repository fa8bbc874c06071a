//! The UART device: two byte queues between the emulated program and the
//! host. The emulated program's writes land in the outbound queue through
//! the MMU; the host drains it one byte at a time.

use std::collections::VecDeque;
use vstd::prelude::*;

verus! {

/// A byte-queue UART. `from_emu_buffer` holds bytes the emulated program
/// has written, oldest first; `to_emu_buffer` is reserved for the
/// (unimplemented) read path towards the emulated program.
pub struct UART {
    from_emu_buffer: VecDeque<u8>,
    to_emu_buffer: VecDeque<u8>,
}

impl UART {
    /// The bytes the emulated program has written and the host has not yet
    /// consumed, oldest first.
    pub closed spec fn from_emu(&self) -> Seq<u8> {
        self.from_emu_buffer@
    }

    /// The bytes queued towards the emulated program.
    pub closed spec fn to_emu(&self) -> Seq<u8> {
        self.to_emu_buffer@
    }

    /// A UART with both queues empty.
    pub fn new() -> (r: UART)
        ensures
            r.from_emu() == Seq::<u8>::empty(),
            r.to_emu() == Seq::<u8>::empty(),
    {
        UART { from_emu_buffer: VecDeque::new(), to_emu_buffer: VecDeque::new() }
    }

    /// Pops the oldest outbound byte, or `None` when the queue is empty.
    pub fn try_get_byte(&mut self) -> (r: Option<u8>)
        ensures
            final(self).to_emu() == old(self).to_emu(),
            old(self).from_emu().len() == 0 ==> r is None && final(self).from_emu()
                == old(self).from_emu(),
            old(self).from_emu().len() > 0 ==> r == Some(old(self).from_emu()[0])
                && final(self).from_emu() == old(self).from_emu().drop_first(),
    {
        self.from_emu_buffer.pop_front()
    }

    /// Appends one byte written by the emulated program to the outbound
    /// queue.
    pub fn emu_push(&mut self, byte: u8)
        ensures
            final(self).from_emu() == old(self).from_emu().push(byte),
            final(self).to_emu() == old(self).to_emu(),
    {
        self.from_emu_buffer.push_back(byte)
    }
}

} // verus!
