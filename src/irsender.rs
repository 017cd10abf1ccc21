//! Tick-driven pulse-distance encoder for a 24-bit payload.
use vstd::prelude::*;

verus! {

/// A protocol's phase table: each phase holds a level for a number of ticks
/// and names the phase that follows it.
pub trait Status: Copy + Sized {
    /// Ticks the phase lasts (`None`: the encoder is idle) and its output level.
    spec fn value_spec(self) -> (Option<u32>, bool);

    /// The phase after `self` while `value` is being sent.
    spec fn next_spec(self, value: u32) -> Self;

    /// The phase entered when a new payload preempts `self`.
    spec fn interrupt_spec(self) -> Self;

    /// The phase of a freshly built encoder.
    spec fn initial_spec() -> Self;

    fn initial() -> (r: Self)
        ensures
            r == Self::initial_spec(),
    ;

    fn status_value(self) -> (r: (Option<u32>, bool))
        ensures
            r == self.value_spec(),
    ;

    fn next_status(self, value: u32) -> (r: Self)
        ensures
            r == self.next_spec(value),
    ;

    fn interrupt_status(self) -> (r: Self)
        ensures
            r == self.interrupt_spec(),
    ;
}

/// Phases of the two-frame TCL remote-control protocol.
#[derive(Clone, Copy, Debug, PartialEq, Eq, Structural)]
pub enum TCLIRSenderStatus {
    /// Idle: nothing to send.
    Standby,
    /// Low guard gap of the trailer's length, followed by the preamble.
    WaitForNext,
    /// Preamble mark of the first frame.
    BeginSignal,
    /// Preamble gap of the first frame.
    BeginSignalWait,
    /// Mark before payload bit `loc` (0 is the most significant).
    SendingBitHigh(u32),
    /// Gap carrying payload bit `loc`, whose value is the second field.
    SendingBitLow(u32, bool),
    /// Trailer mark of the first frame.
    EndSignalHigh,
    /// Trailer gap of the first frame.
    EndSignalLow,
    /// The second frame, phase by phase as the first.
    BeginSignal2,
    BeginSignalWait2,
    SendingBitHigh2(u32),
    SendingBitLow2(u32, bool),
    EndSignalHigh2,
    EndSignalLow2,
}

/// Preamble mark, in ticks.
pub const LENGTH_B: u32 = 8;

/// Preamble gap, in ticks.
pub const LENGTH_BW: u32 = 8;

/// Trailer gap, in ticks.
pub const LENGTH_E: u32 = 16;

/// Every bit mark and the trailer mark, in ticks.
pub const LENGTH_H: u32 = 1;

/// Gap after the mark of a 0 bit, in ticks.
pub const LENGTH_0: u32 = 2;

/// Gap after the mark of a 1 bit, in ticks.
pub const LENGTH_1: u32 = 4;

/// Number of payload bits in a frame.
pub const PAYLOAD_BITS: u32 = 24;

/// Bit `loc` of the 24-bit payload, counting from its most significant bit.
pub open spec fn payload_bit(value: u32, loc: u32) -> bool {
    loc < 24 && (value >> ((23 - loc) as u32)) & 1u32 == 1u32
}

/// Gap length that carries `bit`.
pub open spec fn gap_length(bit: bool) -> u32 {
    if bit {
        LENGTH_1
    } else {
        LENGTH_0
    }
}

fn read_payload_bit(value: u32, loc: u32) -> (r: bool)
    ensures
        r == payload_bit(value, loc),
{
    if loc < PAYLOAD_BITS {
        (value >> (23 - loc)) & 1 == 1
    } else {
        false
    }
}

impl Default for TCLIRSenderStatus {
    fn default() -> (r: Self)
        ensures
            r == TCLIRSenderStatus::Standby,
    {
        TCLIRSenderStatus::Standby
    }
}

impl Status for TCLIRSenderStatus {
    open spec fn value_spec(self) -> (Option<u32>, bool) {
        match self {
            TCLIRSenderStatus::Standby => (None, false),
            TCLIRSenderStatus::WaitForNext => (Some(LENGTH_E), false),
            TCLIRSenderStatus::BeginSignal => (Some(LENGTH_B), true),
            TCLIRSenderStatus::BeginSignalWait => (Some(LENGTH_BW), false),
            TCLIRSenderStatus::SendingBitHigh(_) => (Some(LENGTH_H), true),
            TCLIRSenderStatus::SendingBitLow(_, bit) => (Some(gap_length(bit)), false),
            TCLIRSenderStatus::EndSignalHigh => (Some(LENGTH_H), true),
            TCLIRSenderStatus::EndSignalLow => (Some(LENGTH_E), false),
            TCLIRSenderStatus::BeginSignal2 => (Some(LENGTH_B), true),
            TCLIRSenderStatus::BeginSignalWait2 => (Some(LENGTH_BW), false),
            TCLIRSenderStatus::SendingBitHigh2(_) => (Some(LENGTH_H), true),
            TCLIRSenderStatus::SendingBitLow2(_, bit) => (Some(gap_length(bit)), false),
            TCLIRSenderStatus::EndSignalHigh2 => (Some(LENGTH_H), true),
            TCLIRSenderStatus::EndSignalLow2 => (Some(LENGTH_E), false),
        }
    }

    open spec fn next_spec(self, value: u32) -> Self {
        match self {
            TCLIRSenderStatus::Standby => TCLIRSenderStatus::Standby,
            TCLIRSenderStatus::WaitForNext => TCLIRSenderStatus::BeginSignal,
            TCLIRSenderStatus::BeginSignal => TCLIRSenderStatus::BeginSignalWait,
            TCLIRSenderStatus::BeginSignalWait => TCLIRSenderStatus::SendingBitHigh(0),
            TCLIRSenderStatus::SendingBitHigh(loc) => TCLIRSenderStatus::SendingBitLow(
                loc,
                payload_bit(value, loc),
            ),
            TCLIRSenderStatus::SendingBitLow(loc, _) => if loc < 23 {
                TCLIRSenderStatus::SendingBitHigh((loc + 1) as u32)
            } else {
                TCLIRSenderStatus::EndSignalHigh
            },
            TCLIRSenderStatus::EndSignalHigh => TCLIRSenderStatus::EndSignalLow,
            TCLIRSenderStatus::EndSignalLow => TCLIRSenderStatus::BeginSignal2,
            TCLIRSenderStatus::BeginSignal2 => TCLIRSenderStatus::BeginSignalWait2,
            TCLIRSenderStatus::BeginSignalWait2 => TCLIRSenderStatus::SendingBitHigh2(0),
            TCLIRSenderStatus::SendingBitHigh2(loc) => TCLIRSenderStatus::SendingBitLow2(
                loc,
                payload_bit(value, loc),
            ),
            TCLIRSenderStatus::SendingBitLow2(loc, _) => if loc < 23 {
                TCLIRSenderStatus::SendingBitHigh2((loc + 1) as u32)
            } else {
                TCLIRSenderStatus::EndSignalHigh2
            },
            TCLIRSenderStatus::EndSignalHigh2 => TCLIRSenderStatus::EndSignalLow2,
            TCLIRSenderStatus::EndSignalLow2 => TCLIRSenderStatus::Standby,
        }
    }

    open spec fn interrupt_spec(self) -> Self {
        TCLIRSenderStatus::BeginSignal
    }

    open spec fn initial_spec() -> Self {
        TCLIRSenderStatus::Standby
    }

    fn initial() -> (r: Self) {
        TCLIRSenderStatus::Standby
    }

    fn status_value(self) -> (r: (Option<u32>, bool)) {
        match self {
            TCLIRSenderStatus::Standby => (None, false),
            TCLIRSenderStatus::WaitForNext => (Some(LENGTH_E), false),
            TCLIRSenderStatus::BeginSignal => (Some(LENGTH_B), true),
            TCLIRSenderStatus::BeginSignalWait => (Some(LENGTH_BW), false),
            TCLIRSenderStatus::SendingBitHigh(_) => (Some(LENGTH_H), true),
            TCLIRSenderStatus::SendingBitLow(_, bit) => (
                Some(if bit { LENGTH_1 } else { LENGTH_0 }),
                false,
            ),
            TCLIRSenderStatus::EndSignalHigh => (Some(LENGTH_H), true),
            TCLIRSenderStatus::EndSignalLow => (Some(LENGTH_E), false),
            TCLIRSenderStatus::BeginSignal2 => (Some(LENGTH_B), true),
            TCLIRSenderStatus::BeginSignalWait2 => (Some(LENGTH_BW), false),
            TCLIRSenderStatus::SendingBitHigh2(_) => (Some(LENGTH_H), true),
            TCLIRSenderStatus::SendingBitLow2(_, bit) => (
                Some(if bit { LENGTH_1 } else { LENGTH_0 }),
                false,
            ),
            TCLIRSenderStatus::EndSignalHigh2 => (Some(LENGTH_H), true),
            TCLIRSenderStatus::EndSignalLow2 => (Some(LENGTH_E), false),
        }
    }

    fn next_status(self, value: u32) -> (r: Self) {
        match self {
            TCLIRSenderStatus::Standby => TCLIRSenderStatus::Standby,
            TCLIRSenderStatus::WaitForNext => TCLIRSenderStatus::BeginSignal,
            TCLIRSenderStatus::BeginSignal => TCLIRSenderStatus::BeginSignalWait,
            TCLIRSenderStatus::BeginSignalWait => TCLIRSenderStatus::SendingBitHigh(0),
            TCLIRSenderStatus::SendingBitHigh(loc) => TCLIRSenderStatus::SendingBitLow(
                loc,
                read_payload_bit(value, loc),
            ),
            TCLIRSenderStatus::SendingBitLow(loc, _) => {
                if loc < 23 {
                    TCLIRSenderStatus::SendingBitHigh(loc + 1)
                } else {
                    TCLIRSenderStatus::EndSignalHigh
                }
            },
            TCLIRSenderStatus::EndSignalHigh => TCLIRSenderStatus::EndSignalLow,
            TCLIRSenderStatus::EndSignalLow => TCLIRSenderStatus::BeginSignal2,
            TCLIRSenderStatus::BeginSignal2 => TCLIRSenderStatus::BeginSignalWait2,
            TCLIRSenderStatus::BeginSignalWait2 => TCLIRSenderStatus::SendingBitHigh2(0),
            TCLIRSenderStatus::SendingBitHigh2(loc) => TCLIRSenderStatus::SendingBitLow2(
                loc,
                read_payload_bit(value, loc),
            ),
            TCLIRSenderStatus::SendingBitLow2(loc, _) => {
                if loc < 23 {
                    TCLIRSenderStatus::SendingBitHigh2(loc + 1)
                } else {
                    TCLIRSenderStatus::EndSignalHigh2
                }
            },
            TCLIRSenderStatus::EndSignalHigh2 => TCLIRSenderStatus::EndSignalLow2,
            TCLIRSenderStatus::EndSignalLow2 => TCLIRSenderStatus::Standby,
        }
    }

    fn interrupt_status(self) -> (r: Self) {
        TCLIRSenderStatus::BeginSignal
    }
}

/// What an encoder holds: its phase, the ticks left in it, and the payload.
pub struct SenderModel<S> {
    pub phase: S,
    pub remaining: Option<u32>,
    pub payload: u32,
}

/// The model entered on leaving `m.phase` once its ticks are used up.
pub open spec fn advance<S: Status>(m: SenderModel<S>) -> SenderModel<S> {
    let phase = m.phase.next_spec(m.payload);
    SenderModel { phase, remaining: phase.value_spec().0, payload: m.payload }
}

/// One tick: the next model and the level change it asks for, if any.
pub open spec fn tick_model<S: Status>(m: SenderModel<S>) -> (SenderModel<S>, Option<bool>) {
    match m.remaining {
        None => (m, None),
        Some(n) => if n > 1 {
            (SenderModel { phase: m.phase, remaining: Some((n - 1) as u32), payload: m.payload }, None)
        } else {
            let a = advance(m);
            (a, Some(a.phase.value_spec().1))
        },
    }
}

/// The model after a new payload preempts `m`.
pub open spec fn preempt_model<S: Status>(m: SenderModel<S>, value: u32) -> SenderModel<S> {
    let phase = m.phase.interrupt_spec();
    SenderModel { phase, remaining: phase.value_spec().0, payload: value }
}

/// The model after `n` ticks.
pub open spec fn ticks<S: Status>(m: SenderModel<S>, n: nat) -> SenderModel<S>
    decreases n,
{
    if n == 0 {
        m
    } else {
        tick_model(ticks(m, (n - 1) as nat)).0
    }
}

/// The level change asked for by tick number `n` (counting from 0).
pub open spec fn tick_output<S: Status>(m: SenderModel<S>, n: nat) -> Option<bool> {
    tick_model(ticks(m, n)).1
}

/// The model after `k` phase changes, skipping the ticks in between.
pub open spec fn phases_after<S: Status>(m: SenderModel<S>, k: nat) -> SenderModel<S>
    decreases k,
{
    if k == 0 {
        m
    } else {
        advance(phases_after(m, (k - 1) as nat))
    }
}

/// Phase number `k` of a TCL transmission of `value`, counted from the
/// preamble mark: preamble mark and gap, 24 bit marks each followed by its
/// gap, trailer mark and gap, the same again, then standby.
pub open spec fn tcl_frame_phase(value: u32, k: nat) -> TCLIRSenderStatus {
    if k == 0 {
        TCLIRSenderStatus::BeginSignal
    } else if k == 1 {
        TCLIRSenderStatus::BeginSignalWait
    } else if k < 50 {
        let loc = ((k - 2) / 2) as u32;
        if k % 2 == 0 {
            TCLIRSenderStatus::SendingBitHigh(loc)
        } else {
            TCLIRSenderStatus::SendingBitLow(loc, payload_bit(value, loc))
        }
    } else if k == 50 {
        TCLIRSenderStatus::EndSignalHigh
    } else if k == 51 {
        TCLIRSenderStatus::EndSignalLow
    } else if k == 52 {
        TCLIRSenderStatus::BeginSignal2
    } else if k == 53 {
        TCLIRSenderStatus::BeginSignalWait2
    } else if k < 102 {
        let loc = ((k - 54) / 2) as u32;
        if k % 2 == 0 {
            TCLIRSenderStatus::SendingBitHigh2(loc)
        } else {
            TCLIRSenderStatus::SendingBitLow2(loc, payload_bit(value, loc))
        }
    } else if k == 102 {
        TCLIRSenderStatus::EndSignalHigh2
    } else if k == 103 {
        TCLIRSenderStatus::EndSignalLow2
    } else {
        TCLIRSenderStatus::Standby
    }
}

/// A phase whose ticks are not used up changes nothing but its count; after
/// exactly `d` ticks, where `d` is what is left of it, the next phase starts,
/// and that last tick alone asks for a level change, the next phase's level.
pub proof fn lemma_phase_lasts<S: Status>(m: SenderModel<S>, d: u32)
    requires
        m.remaining == Some(d),
        d >= 1,
    ensures
        forall|j: nat| j < d ==> #[trigger] ticks(m, j) == (SenderModel {
            phase: m.phase,
            remaining: Some((d - j) as u32),
            payload: m.payload,
        }),
        forall|j: nat| j + 1 < d ==> #[trigger] tick_output(m, j) is None,
        tick_output(m, (d - 1) as nat) == Some(advance(m).phase.value_spec().1),
        ticks(m, d as nat) == advance(m),
{
    assert forall|j: nat| j < d implies #[trigger] ticks(m, j) == (SenderModel {
        phase: m.phase,
        remaining: Some((d - j) as u32),
        payload: m.payload,
    }) by {
        lemma_ticks_within_phase(m, d, j);
    }
    lemma_ticks_within_phase(m, d, (d - 1) as nat);
    assert(ticks(m, d as nat) == tick_model(ticks(m, (d - 1) as nat)).0);
}

proof fn lemma_ticks_within_phase<S: Status>(m: SenderModel<S>, d: u32, j: nat)
    requires
        m.remaining == Some(d),
        j < d,
    ensures
        ticks(m, j) == (SenderModel {
            phase: m.phase,
            remaining: Some((d - j) as u32),
            payload: m.payload,
        }),
    decreases j,
{
    if j > 0 {
        lemma_ticks_within_phase(m, d, (j - 1) as nat);
    }
}

/// After a TCL encoder is handed `value`, whatever it was doing before, it
/// passes through the phases of `tcl_frame_phase(value, _)` in order, each
/// lasting its table length, and ends idle after 104 phase changes.
pub proof fn lemma_tcl_schedule(m: SenderModel<TCLIRSenderStatus>, value: u32, k: nat)
    requires
        k <= 104,
    ensures
        phases_after(preempt_model(m, value), k).phase == tcl_frame_phase(value, k),
        phases_after(preempt_model(m, value), k).payload == value,
        phases_after(preempt_model(m, value), k).remaining
            == tcl_frame_phase(value, k).value_spec().0,
        k < 104 ==> phases_after(preempt_model(m, value), k).remaining is Some,
        k < 104 ==> phases_after(preempt_model(m, value), k).remaining->0 >= 1,
        k == 104 ==> phases_after(preempt_model(m, value), k).remaining is None,
    decreases k,
{
    if k > 0 {
        lemma_tcl_schedule(m, value, (k - 1) as nat);
    }
}

/// Pulse-distance reading of a TCL transmission gives back the payload: in
/// each of the two frames, bit `loc` (most significant first) is sent as a
/// mark of `LENGTH_H` ticks followed by a gap that is long (`LENGTH_1`) when
/// the bit is 1 and short (`LENGTH_0`) when it is 0.
pub proof fn lemma_tcl_bits_recoverable(m: SenderModel<TCLIRSenderStatus>, value: u32, loc: u32)
    requires
        loc < 24,
    ensures
        ({
            let start = preempt_model(m, value);
            let k = 2 + 2 * loc;
            &&& phases_after(start, k as nat).phase.value_spec() == (Some(LENGTH_H), true)
            &&& phases_after(start, (k + 1) as nat).phase.value_spec() == (
                Some(gap_length(payload_bit(value, loc))),
                false,
            )
            &&& phases_after(start, (k + 52) as nat).phase.value_spec() == (Some(LENGTH_H), true)
            &&& phases_after(start, (k + 53) as nat).phase.value_spec() == (
                Some(gap_length(payload_bit(value, loc))),
                false,
            )
        }),
        gap_length(payload_bit(value, loc)) == LENGTH_1 <==> (value >> ((23 - loc) as u32)) & 1u32
            == 1u32,
        gap_length(payload_bit(value, loc)) == LENGTH_0 <==> (value >> ((23 - loc) as u32)) & 1u32
            == 0u32,
{
    let k = 2 + 2 * loc;
    lemma_tcl_schedule(m, value, k as nat);
    lemma_tcl_schedule(m, value, (k + 1) as nat);
    lemma_tcl_schedule(m, value, (k + 52) as nat);
    lemma_tcl_schedule(m, value, (k + 53) as nat);
    let x = value >> ((23 - loc) as u32);
    assert(x & 1u32 == 1u32 || x & 1u32 == 0u32) by (bit_vector);
}

/// A new payload discards everything of the frame in progress: two encoders
/// handed the same payload are in the same state, at the preamble mark,
/// whatever each was doing before.
pub proof fn lemma_tcl_preemption(
    a: SenderModel<TCLIRSenderStatus>,
    b: SenderModel<TCLIRSenderStatus>,
    value: u32,
)
    ensures
        preempt_model(a, value) == preempt_model(b, value),
        preempt_model(a, value).phase == TCLIRSenderStatus::BeginSignal,
        preempt_model(a, value).remaining == Some(LENGTH_B),
        preempt_model(a, value).payload == value,
{
}

/// Encoder that turns a payload into one level decision per tick.
pub struct IRSender<TStatus> where TStatus: Status {
    status: TStatus,
    remaining_length: Option<u32>,
    sending_value: u32,
}

impl<TStatus> View for IRSender<TStatus> where TStatus: Status {
    type V = SenderModel<TStatus>;

    closed spec fn view(&self) -> SenderModel<TStatus> {
        SenderModel {
            phase: self.status,
            remaining: self.remaining_length,
            payload: self.sending_value,
        }
    }
}

impl<TStatus> IRSender<TStatus> where TStatus: Status {
    /// An idle encoder in the protocol's initial phase.
    pub fn new() -> (r: Self)
        ensures
            r@ == (SenderModel {
                phase: TStatus::initial_spec(),
                remaining: None,
                payload: 0,
            }),
    {
        IRSender { status: TStatus::initial(), remaining_length: None, sending_value: 0 }
    }

    /// Called once per timer tick. Returns the level to switch to when the
    /// current phase ends on this tick, and `None` to hold the present level.
    pub fn next(&mut self) -> (r: Option<bool>)
        ensures
            (final(self)@, r) == tick_model(old(self)@),
    {
        match self.remaining_length {
            None => None,
            Some(remaining_length) => {
                if remaining_length > 1 {
                    self.remaining_length = Some(remaining_length - 1);
                    None
                } else {
                    let next_status = self.status.next_status(self.sending_value);
                    let (remaining_length, value) = next_status.status_value();
                    self.status = next_status;
                    self.remaining_length = remaining_length;
                    Some(value)
                }
            },
        }
    }

    /// Starts sending `value`, dropping whatever frame was in progress.
    /// Returns the level to apply at once.
    pub fn set_value(&mut self, value: u32) -> (r: bool)
        ensures
            final(self)@ == preempt_model(old(self)@, value),
            r == old(self)@.phase.interrupt_spec().value_spec().1,
    {
        self.sending_value = value;
        let next_status = self.status.interrupt_status();
        let (remaining_length, level) = next_status.status_value();
        self.status = next_status;
        self.remaining_length = remaining_length;
        level
    }
}

/// The encoder of the TCL protocol.
pub type TCLIRSender = IRSender<TCLIRSenderStatus>;

} // verus!
