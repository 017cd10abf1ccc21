//! Decoder of the self-delimited time frame: `'S'`, `'b'`, any number of
//! 7-bit chunks with the top bit set (most significant first), then `'c'`.
use vstd::prelude::*;

verus! {

/// Where the continuation decoder stands in a frame.
#[derive(Clone, Copy, PartialEq, Eq, Debug, Structural)]
pub enum TimeSyncState {
    Begin,
    Magic1,
    Receiving,
}

/// The decoder's state and its accumulator.
pub struct TimeSyncModel {
    pub state: TimeSyncState,
    pub value: u32,
}

/// `value` with one more 7-bit chunk, taken from the low bits of `byte`, shifted in.
pub open spec fn push_chunk(value: u32, byte: u8) -> u32 {
    (value << 7u32) | ((byte & 0x7fu8) as u32)
}

/// Shifting a chunk in multiplies by 128 and adds the chunk, modulo 2^32.
pub proof fn lemma_push_chunk_arith(value: u32, byte: u8)
    ensures
        push_chunk(value, byte) == (value * 128 + byte % 128) % 0x1_0000_0000,
{
    let c = byte & 0x7fu8;
    assert(c == byte % 128u8) by (bit_vector)
        requires
            c == byte & 0x7fu8,
    ;
    let lo = value & 0x1ff_ffffu32;
    let z = c as u32;
    assert(lo == value % 0x200_0000u32) by (bit_vector)
        requires
            lo == value & 0x1ff_ffffu32,
    ;
    assert((value << 7u32) | z == (lo << 7u32) | z) by (bit_vector)
        requires
            lo == value & 0x1ff_ffffu32,
    ;
    assert((lo << 7u32) | z == lo * 128 + z) by (bit_vector)
        requires
            z < 0x80u32,
            lo < 0x200_0000u32,
    ;
    assert((value % 0x200_0000) * 128 + z == (value * 128 + z) % 0x1_0000_0000) by (nonlinear_arith)
        requires
            z < 128,
    ;
}

/// Whether `byte` is what the decoder in state `s` may receive.
pub open spec fn expected(s: TimeSyncState, byte: u8) -> bool {
    if byte < 0x80 {
        byte == 0x53 || (byte == 0x62 && s == TimeSyncState::Magic1) || (byte == 0x63 && s
            == TimeSyncState::Receiving)
    } else {
        s == TimeSyncState::Receiving
    }
}

/// One byte through the decoder: the next model and the value it completes, if any.
/// A byte that is not expected resets the decoder to `Begin`.
pub open spec fn sync_step(m: TimeSyncModel, byte: u8) -> (TimeSyncModel, Option<u32>) {
    if !expected(m.state, byte) {
        (TimeSyncModel { state: TimeSyncState::Begin, value: m.value }, None)
    } else if byte == 0x53 {
        (TimeSyncModel { state: TimeSyncState::Magic1, value: m.value }, None)
    } else if byte == 0x62 {
        (TimeSyncModel { state: TimeSyncState::Receiving, value: 0 }, None)
    } else if byte == 0x63 {
        (TimeSyncModel { state: TimeSyncState::Begin, value: m.value }, Some(m.value))
    } else {
        (TimeSyncModel { state: TimeSyncState::Receiving, value: push_chunk(m.value, byte) }, None)
    }
}

/// Feeds `bytes` in order: the final model and what each byte returned.
pub open spec fn sync_all(m: TimeSyncModel, bytes: Seq<u8>) -> (TimeSyncModel, Seq<Option<u32>>)
    decreases bytes.len(),
{
    if bytes.len() == 0 {
        (m, Seq::empty())
    } else {
        let (before, outs) = sync_all(m, bytes.drop_last());
        let (after, out) = sync_step(before, bytes.last());
        (after, outs.push(out))
    }
}

/// One more than the largest value that `n` chunks of 7 bits can carry.
pub open spec fn chunk_limit(n: nat) -> nat
    decreases n,
{
    if n == 0 {
        1
    } else {
        128 * chunk_limit((n - 1) as nat)
    }
}

/// `v` as `n` chunks of 7 bits, most significant first, each with its top bit set.
pub open spec fn chunks_of(v: nat, n: nat) -> Seq<u8>
    decreases n,
{
    if n == 0 {
        Seq::empty()
    } else {
        chunks_of(v / 128, (n - 1) as nat).push((v % 128 + 128) as u8)
    }
}

/// The complete frame that carries `v` in `n` chunks.
pub open spec fn continuation_frame(v: nat, n: nat) -> Seq<u8> {
    seq![0x53u8, 0x62u8] + chunks_of(v, n) + seq![0x63u8]
}

/// `n` answers of `None`.
pub open spec fn nones(n: nat) -> Seq<Option<u32>> {
    Seq::new(n, |i: int| None::<u32>)
}

proof fn lemma_chunk_bits(x: u32, y: u8)
    requires
        x < 0x200_0000,
        y < 0x80,
    ensures
        ((y + 0x80) as u8) >= 0x80,
        push_chunk(x, (y + 0x80) as u8) == x * 128 + y,
{
    let c = (y + 0x80) as u8;
    assert(c & 0x7fu8 == y && c >= 0x80u8) by (bit_vector)
        requires
            y < 0x80u8,
            c == (y + 0x80u8) as u8,
    ;
    let z = y as u32;
    assert((x << 7u32) | z == x * 128 + z) by (bit_vector)
        requires
            x < 0x200_0000u32,
            z < 0x80u32,
    ;
}

proof fn lemma_chunks_accumulate(m: TimeSyncModel, v: nat, n: nat)
    requires
        v < chunk_limit(n),
        v <= u32::MAX,
    ensures
        sync_all(m, seq![0x53u8, 0x62u8] + chunks_of(v, n)) == (TimeSyncModel {
            state: TimeSyncState::Receiving,
            value: v as u32,
        }, nones(n + 2)),
    decreases n,
{
    let prefix = seq![0x53u8, 0x62u8];
    if n == 0 {
        assert(prefix + chunks_of(v, n) =~= prefix);
        assert(prefix.drop_last() =~= seq![0x53u8]);
        assert(prefix.drop_last().drop_last() =~= Seq::<u8>::empty());
        reveal_with_fuel(sync_all, 3);
        assert(sync_all(m, prefix).1 =~= nones(2));
    } else {
        let hi = v / 128;
        let lo = v % 128;
        assert(hi < chunk_limit((n - 1) as nat));
        lemma_chunks_accumulate(m, hi, (n - 1) as nat);
        let bytes = prefix + chunks_of(v, n);
        assert(bytes.drop_last() =~= prefix + chunks_of(hi, (n - 1) as nat));
        assert(bytes.last() == (lo + 128) as u8);
        lemma_chunk_bits(hi as u32, lo as u8);
        assert(sync_all(m, bytes).1 =~= nones(n + 2));
    }
}

/// A value sent as a continuation frame comes back exactly: whatever state the
/// decoder is in, `'S' 'b'`, the chunks of `v` and `'c'` yield `v` on the
/// final byte, nothing before, and leave the decoder at `Begin`.
pub proof fn lemma_continuation_round_trip(m: TimeSyncModel, v: u32, n: nat)
    requires
        v < chunk_limit(n),
    ensures
        sync_all(m, continuation_frame(v as nat, n)) == (TimeSyncModel {
            state: TimeSyncState::Begin,
            value: v,
        }, nones(n + 2).push(Some(v))),
{
    let body = seq![0x53u8, 0x62u8] + chunks_of(v as nat, n);
    lemma_chunks_accumulate(m, v as nat, n);
    let frame = continuation_frame(v as nat, n);
    assert(frame.drop_last() =~= body);
}

/// Five chunks carry every 32-bit value.
pub proof fn lemma_five_chunks_suffice(v: u32)
    ensures
        (v as nat) < chunk_limit(5),
{
    reveal_with_fuel(chunk_limit, 6);
}

/// A byte that the decoder's state does not expect is a framing error: the
/// decoder returns to `Begin` and yields nothing.
pub proof fn lemma_framing_error_resets(m: TimeSyncModel, byte: u8)
    requires
        !expected(m.state, byte),
    ensures
        sync_step(m, byte).0.state == TimeSyncState::Begin,
        sync_step(m, byte).1 is None,
{
}

/// A value is yielded only by an end marker received while accumulating.
pub proof fn lemma_yield_only_on_end(m: TimeSyncModel, byte: u8)
    requires
        sync_step(m, byte).1 is Some,
    ensures
        byte == 0x63,
        m.state == TimeSyncState::Receiving,
        sync_step(m, byte).1 == Some(m.value),
{
}

/// Continuation decoder, fed one byte at a time.
pub struct TimeSync {
    state: TimeSyncState,
    value: u32,
}

impl View for TimeSync {
    type V = TimeSyncModel;

    closed spec fn view(&self) -> TimeSyncModel {
        TimeSyncModel { state: self.state, value: self.value }
    }
}

impl TimeSync {
    /// A decoder waiting for the start of a frame.
    pub fn new() -> (r: TimeSync)
        ensures
            r@ == (TimeSyncModel { state: TimeSyncState::Begin, value: 0 }),
    {
        TimeSync { state: TimeSyncState::Begin, value: 0 }
    }

    /// Feeds one byte. Returns the accumulated value when this byte ends a frame.
    pub fn receive_word(&mut self, val: u8) -> (r: Option<u32>)
        ensures
            (final(self)@, r) == sync_step(old(self)@, val),
    {
        let mut success = false;
        let mut result = None;
        assert((val & 0x80u8 == 0u8) == (val < 0x80u8)) by (bit_vector);

        if (val & 0x80) == 0 {
            if val == 0x53u8 {
                self.state = TimeSyncState::Magic1;
                success = true;
            } else if val == 0x62u8 {
                if self.state == TimeSyncState::Magic1 {
                    self.state = TimeSyncState::Receiving;
                    self.value = 0;
                    success = true;
                }
            } else if val == 0x63u8 {
                if self.state == TimeSyncState::Receiving {
                    self.state = TimeSyncState::Begin;
                    result = Some(self.value);
                    success = true;
                }
            }
        } else {
            if self.state == TimeSyncState::Receiving {
                let chunk: u32 = (val & 0x7f) as u32;
                self.value = (self.value << 7) | chunk;
                success = true;
            }
        }

        if !success {
            self.state = TimeSyncState::Begin;
        }

        result
    }
}

} // verus!
