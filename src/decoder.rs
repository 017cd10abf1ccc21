//! The interface both frame decoders share: take one byte, maybe yield a value.
use vstd::prelude::*;
use crate::receiver::{receive_step, receiver_wf, Receiver};
use crate::timesync::{sync_step, TimeSync};

verus! {

/// A byte-at-a-time frame decoder.
pub trait FrameDecoder {
    /// The decoder's state is one it can continue from.
    spec fn ready(&self) -> bool;

    /// What feeding `byte` to this decoder yields.
    spec fn yields(&self, byte: u8) -> Option<u32>;

    /// Feeds one byte; returns a value when the byte completes a frame.
    fn feed(&mut self, byte: u8) -> (r: Option<u32>)
        requires
            old(self).ready(),
        ensures
            final(self).ready(),
            r == old(self).yields(byte),
    ;
}

impl FrameDecoder for Receiver {
    open spec fn ready(&self) -> bool {
        receiver_wf(self@)
    }

    open spec fn yields(&self, byte: u8) -> Option<u32> {
        receive_step(self@, byte).1
    }

    fn feed(&mut self, byte: u8) -> (r: Option<u32>) {
        self.receive(byte)
    }
}

impl FrameDecoder for TimeSync {
    open spec fn ready(&self) -> bool {
        true
    }

    open spec fn yields(&self, byte: u8) -> Option<u32> {
        sync_step(self@, byte).1
    }

    fn feed(&mut self, byte: u8) -> (r: Option<u32>) {
        self.receive_word(byte)
    }
}

} // verus!
