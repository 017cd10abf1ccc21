//! Decoder of the fixed-width frame: `'S'`, `'b'`, then four payload bytes,
//! least significant first.
use vstd::prelude::*;

verus! {

/// Where the fixed-width decoder stands in a frame.
#[derive(Clone, Copy, PartialEq, Eq, Debug, Structural)]
pub enum ReceiverState {
    Idle,
    ReceivedS,
    ReceivedB,
    Received1,
    Received2,
    Received3,
}

/// The decoder's state and the payload bytes gathered so far.
pub struct ReceiverModel {
    pub state: ReceiverState,
    pub value: u32,
}

/// The accumulator holds exactly the payload bytes received so far.
pub open spec fn receiver_wf(m: ReceiverModel) -> bool {
    match m.state {
        ReceiverState::Received1 => m.value < 0x100,
        ReceiverState::Received2 => m.value < 0x1_0000,
        ReceiverState::Received3 => m.value < 0x100_0000,
        _ => true,
    }
}

/// One byte through the decoder: the next model and the value it completes, if any.
pub open spec fn receive_step(m: ReceiverModel, byte: u8) -> (ReceiverModel, Option<u32>) {
    match m.state {
        ReceiverState::Idle => (
            ReceiverModel {
                state: if byte == 0x53 { ReceiverState::ReceivedS } else { ReceiverState::Idle },
                value: m.value,
            },
            None,
        ),
        ReceiverState::ReceivedS => (
            ReceiverModel {
                state: if byte == 0x62 { ReceiverState::ReceivedB } else { ReceiverState::Idle },
                value: m.value,
            },
            None,
        ),
        ReceiverState::ReceivedB => (
            ReceiverModel { state: ReceiverState::Received1, value: byte as u32 },
            None,
        ),
        ReceiverState::Received1 => (
            ReceiverModel {
                state: ReceiverState::Received2,
                value: (m.value + byte * 0x100) as u32,
            },
            None,
        ),
        ReceiverState::Received2 => (
            ReceiverModel {
                state: ReceiverState::Received3,
                value: (m.value + byte * 0x1_0000) as u32,
            },
            None,
        ),
        ReceiverState::Received3 => (
            ReceiverModel { state: ReceiverState::Idle, value: (m.value + byte * 0x100_0000) as u32 },
            Some((m.value + byte * 0x100_0000) as u32),
        ),
    }
}

/// Feeds `bytes` in order: the final model and what each byte returned.
pub open spec fn receive_all(m: ReceiverModel, bytes: Seq<u8>) -> (ReceiverModel, Seq<Option<u32>>)
    decreases bytes.len(),
{
    if bytes.len() == 0 {
        (m, Seq::empty())
    } else {
        let (before, outs) = receive_all(m, bytes.drop_last());
        let (after, out) = receive_step(before, bytes.last());
        (after, outs.push(out))
    }
}

/// The number whose little-endian bytes are `b0`, `b1`, `b2`, `b3`.
pub open spec fn le_value(b0: u8, b1: u8, b2: u8, b3: u8) -> int {
    b0 + b1 * 0x100 + b2 * 0x1_0000 + b3 * 0x100_0000
}

/// Any byte sequence keeps the decoder well formed: every state has a
/// successor for every byte.
pub proof fn lemma_receive_all_wf(m: ReceiverModel, bytes: Seq<u8>)
    requires
        receiver_wf(m),
    ensures
        receiver_wf(receive_all(m, bytes).0),
        receive_all(m, bytes).1.len() == bytes.len(),
    decreases bytes.len(),
{
    if bytes.len() > 0 {
        lemma_receive_all_wf(m, bytes.drop_last());
    }
}

/// A byte that breaks the two-byte prefix leaves the decoder idle, with nothing returned.
pub proof fn lemma_prefix_mismatch(m: ReceiverModel, byte: u8)
    requires
        (m.state == ReceiverState::Idle && byte != 0x53) || (m.state == ReceiverState::ReceivedS
            && byte != 0x62),
    ensures
        receive_step(m, byte).0.state == ReceiverState::Idle,
        receive_step(m, byte).1 is None,
{
}

/// From idle, the frame `'S' 'b' b0 b1 b2 b3` yields the little-endian value
/// of the four payload bytes on its last byte, nothing before, and leaves the
/// decoder idle again.
pub proof fn lemma_fixed_round_trip(m: ReceiverModel, b0: u8, b1: u8, b2: u8, b3: u8)
    requires
        m.state == ReceiverState::Idle,
    ensures
        ({
            let (after, outs) = receive_all(m, seq![0x53u8, 0x62u8, b0, b1, b2, b3]);
            &&& after.state == ReceiverState::Idle
            &&& outs =~= seq![None, None, None, None, None, Some(le_value(b0, b1, b2, b3) as u32)]
        }),
        0 <= le_value(b0, b1, b2, b3) <= u32::MAX,
{
    let bytes = seq![0x53u8, 0x62u8, b0, b1, b2, b3];
    assert(bytes.drop_last().drop_last().drop_last().drop_last().drop_last().drop_last()
        =~= Seq::<u8>::empty());
    assert(bytes.drop_last().drop_last().drop_last().drop_last().drop_last() =~= seq![0x53u8]);
    assert(bytes.drop_last().drop_last().drop_last().drop_last() =~= seq![0x53u8, 0x62u8]);
    assert(bytes.drop_last().drop_last().drop_last() =~= seq![0x53u8, 0x62u8, b0]);
    assert(bytes.drop_last().drop_last() =~= seq![0x53u8, 0x62u8, b0, b1]);
    assert(bytes.drop_last() =~= seq![0x53u8, 0x62u8, b0, b1, b2]);
    reveal_with_fuel(receive_all, 7);
}

/// Fixed-width frame decoder, fed one byte at a time.
pub struct Receiver {
    current_value: u32,
    status: ReceiverState,
}

impl View for Receiver {
    type V = ReceiverModel;

    closed spec fn view(&self) -> ReceiverModel {
        ReceiverModel { state: self.status, value: self.current_value }
    }
}

proof fn lemma_or_shifted(acc: u32, byte: u32, shift: u32, unit: u32)
    requires
        byte < 0x100,
        (shift == 8 && unit == 0x100) || (shift == 16 && unit == 0x1_0000) || (shift == 24
            && unit == 0x100_0000),
        acc < unit,
    ensures
        acc | (byte << shift) == acc + byte * unit,
        acc + byte * unit <= u32::MAX,
{
    assert(acc | (byte << shift) == acc + byte * unit && acc + byte * unit <= 0xffff_ffffu32)
        by (bit_vector)
        requires
            byte < 0x100u32,
            (shift == 8u32 && unit == 0x100u32) || (shift == 16u32 && unit == 0x1_0000u32) || (
            shift == 24u32 && unit == 0x100_0000u32),
            acc < unit,
    ;
}

impl Receiver {
    /// A decoder waiting for the start of a frame.
    pub fn new() -> (r: Self)
        ensures
            r@.state == ReceiverState::Idle,
            receiver_wf(r@),
    {
        Receiver { current_value: 0, status: ReceiverState::Idle }
    }

    /// Feeds one byte. Returns the frame's value when this byte completes it.
    pub fn receive(&mut self, val: u8) -> (r: Option<u32>)
        requires
            receiver_wf(old(self)@),
        ensures
            (final(self)@, r) == receive_step(old(self)@, val),
            receiver_wf(final(self)@),
    {
        match self.status {
            ReceiverState::Idle => {
                if val == 0x53u8 {
                    self.status = ReceiverState::ReceivedS;
                }
            },
            ReceiverState::ReceivedS => {
                if val == 0x62u8 {
                    self.status = ReceiverState::ReceivedB;
                } else {
                    self.status = ReceiverState::Idle;
                }
            },
            ReceiverState::ReceivedB => {
                self.status = ReceiverState::Received1;
                self.current_value = val as u32;
            },
            ReceiverState::Received1 => {
                proof {
                    lemma_or_shifted(self.current_value, val as u32, 8, 0x100);
                }
                self.status = ReceiverState::Received2;
                self.current_value = self.current_value | ((val as u32) << 8);
            },
            ReceiverState::Received2 => {
                proof {
                    lemma_or_shifted(self.current_value, val as u32, 16, 0x1_0000);
                }
                self.status = ReceiverState::Received3;
                self.current_value = self.current_value | ((val as u32) << 16);
            },
            ReceiverState::Received3 => {
                proof {
                    lemma_or_shifted(self.current_value, val as u32, 24, 0x100_0000);
                }
                self.status = ReceiverState::Idle;
                self.current_value = self.current_value | ((val as u32) << 24);
                return Some(self.current_value);
            },
        }
        None
    }
}

} // verus!
