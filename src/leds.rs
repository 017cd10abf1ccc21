//! Seven-segment glyphs and the interfaces of the display's digits.
use vstd::prelude::*;

verus! {

/// A character that no digit of the display can show.
#[derive(Clone, Copy, Debug, PartialEq, Eq, Structural)]
pub struct DigitInvalidCharError;

/// State of one LED segment: lit (`Y`) or dark (`N`).
#[derive(Clone, Copy, Debug, PartialEq, Eq, Structural)]
pub enum LEDState {
    Y,
    N,
}

/// The characters a digit can show: a space and the decimal digits.
pub open spec fn is_showable(c: u8) -> bool {
    c == 0x20 || (0x30 <= c && c <= 0x39)
}

/// Segment pattern of a showable character, segments one to seven, one
/// letter per segment (`Y` lit).
pub open spec fn glyph_pattern(c: u8) -> Seq<char> {
    if c == 0x20 {
        seq!['N', 'N', 'N', 'N', 'N', 'N', 'N']
    } else if c == 0x30 {
        seq!['Y', 'Y', 'Y', 'N', 'Y', 'Y', 'Y']
    } else if c == 0x31 {
        seq!['N', 'Y', 'N', 'N', 'Y', 'N', 'N']
    } else if c == 0x32 {
        seq!['Y', 'Y', 'N', 'Y', 'N', 'Y', 'Y']
    } else if c == 0x33 {
        seq!['Y', 'Y', 'N', 'Y', 'Y', 'N', 'Y']
    } else if c == 0x34 {
        seq!['N', 'Y', 'Y', 'Y', 'Y', 'N', 'Y']
    } else if c == 0x35 {
        seq!['Y', 'N', 'Y', 'Y', 'Y', 'N', 'Y']
    } else if c == 0x36 {
        seq!['Y', 'N', 'Y', 'Y', 'Y', 'Y', 'Y']
    } else if c == 0x37 {
        seq!['Y', 'Y', 'N', 'N', 'Y', 'N', 'N']
    } else if c == 0x38 {
        seq!['Y', 'Y', 'Y', 'Y', 'Y', 'Y', 'Y']
    } else {
        seq!['Y', 'Y', 'Y', 'Y', 'Y', 'N', 'Y']
    }
}

/// Whether `segments` show `pattern`.
pub open spec fn shows(segments: Seq<LEDState>, pattern: Seq<char>) -> bool {
    &&& segments.len() == pattern.len()
    &&& forall|i: int|
        0 <= i < segments.len() ==> (#[trigger] segments[i] == LEDState::Y) == (pattern[i]
            == 'Y')
}

fn pattern(p: [bool; 7]) -> (r: [LEDState; 7])
    ensures
        forall|i: int| 0 <= i < 7 ==> (#[trigger] r@[i] == LEDState::Y) == p@[i],
{
    let mut r = [LEDState::N; 7];
    let mut i: usize = 0;
    while i < 7
        invariant
            0 <= i <= 7,
            forall|j: int| 0 <= j < i ==> (#[trigger] r@[j] == LEDState::Y) == p@[j],
        decreases 7 - i,
    {
        r[i] = if p[i] { LEDState::Y } else { LEDState::N };
        i = i + 1;
    }
    r
}

/// Segments that show `c`, or an error when no digit can show it.
pub fn glyph(c: u8) -> (r: Result<[LEDState; 7], DigitInvalidCharError>)
    ensures
        r is Ok <==> is_showable(c),
        r matches Ok(g) ==> shows(g@, glyph_pattern(c)),
{
    let (on, off) = (true, false);
    let p = match c {
        0x20 => [off, off, off, off, off, off, off],
        0x30 => [on, on, on, off, on, on, on],
        0x31 => [off, on, off, off, on, off, off],
        0x32 => [on, on, off, on, off, on, on],
        0x33 => [on, on, off, on, on, off, on],
        0x34 => [off, on, on, on, on, off, on],
        0x35 => [on, off, on, on, on, off, on],
        0x36 => [on, off, on, on, on, on, on],
        0x37 => [on, on, off, off, on, off, off],
        0x38 => [on, on, on, on, on, on, on],
        0x39 => [on, on, on, on, on, off, on],
        _ => {
            return Err(DigitInvalidCharError);
        },
    };
    let g = pattern(p);
    assert(shows(g@, glyph_pattern(c)));
    Ok(g)
}

/// One digit of the display: seven segments that can be set together.
pub trait Digit {
    fn set_digit(&mut self, segments: [LEDState; 7]);
}

/// A digit that can be set to a character.
pub trait DigitSetChar {
    fn set_chr(&mut self, c: u8) -> (r: Result<(), DigitInvalidCharError>)
        ensures
            r is Ok <==> is_showable(c),
    ;
}

impl<T: Digit> DigitSetChar for T {
    fn set_chr(&mut self, c: u8) -> (r: Result<(), DigitInvalidCharError>) {
        match glyph(c) {
            Ok(segments) => {
                self.set_digit(segments);
                Ok(())
            },
            Err(e) => Err(e),
        }
    }
}

/// The colon between hours and minutes.
pub trait Colon {
    fn set_colon(self, state: LEDState);
}

} // verus!
