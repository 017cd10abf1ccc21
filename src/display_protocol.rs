//! Frames of the serial display protocol: fixed-width ASCII, each opened by
//! `$001,` and closed by `#` or `%`.
use vstd::prelude::*;
use crate::timewriter::{tens_char, to_digits, units_char, DayTime};

verus! {

/// The opening every frame shares: `$001,`.
pub open spec fn frame_head() -> Seq<u8> {
    seq![0x24u8, 0x30u8, 0x30u8, 0x31u8, 0x2cu8]
}

fn push_head(out: &mut Vec<u8>)
    ensures
        final(out)@ == old(out)@ + frame_head(),
{
    out.push(0x24);
    out.push(0x30);
    out.push(0x30);
    out.push(0x31);
    out.push(0x2c);
}

/// `$001,HH.MM.SS#` for `time`.
pub fn time_frame(time: DayTime) -> (r: Vec<u8>)
    ensures
        r@ == frame_head() + seq![
            tens_char(time.hour),
            units_char(time.hour),
            0x2eu8,
            tens_char(time.minute),
            units_char(time.minute),
            0x2eu8,
            tens_char(time.second),
            units_char(time.second),
            0x23u8,
        ],
{
    let mut out: Vec<u8> = Vec::new();
    push_head(&mut out);
    let (h1, h2) = to_digits(time.hour);
    let (m1, m2) = to_digits(time.minute);
    let (s1, s2) = to_digits(time.second);
    out.push(h1);
    out.push(h2);
    out.push(0x2e);
    out.push(m1);
    out.push(m2);
    out.push(0x2e);
    out.push(s1);
    out.push(s2);
    out.push(0x23);
    assert(out@ =~= frame_head() + seq![h1, h2, 0x2eu8, m1, m2, 0x2eu8, s1, s2, 0x23u8]);
    out
}

/// `$001,#`: the display shows nothing.
pub fn hidden_frame() -> (r: Vec<u8>)
    ensures
        r@ == frame_head().push(0x23u8),
{
    let mut out: Vec<u8> = Vec::new();
    push_head(&mut out);
    out.push(0x23);
    out
}

/// `$001,B%`, where `B` is the brightness step as one ASCII digit.
pub fn brightness_frame(level: u8) -> (r: Vec<u8>)
    requires
        level <= 7,
    ensures
        r@ == frame_head() + seq![(0x30 + level) as u8, 0x25u8],
{
    let mut out: Vec<u8> = Vec::new();
    push_head(&mut out);
    out.push(0x30 + level);
    out.push(0x25);
    assert(out@ =~= frame_head() + seq![(0x30 + level) as u8, 0x25u8]);
    out
}

} // verus!
