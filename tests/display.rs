use ir_clock::display_protocol::{brightness_frame, hidden_frame, time_frame};
use ir_clock::leds::{glyph, Digit, DigitInvalidCharError, DigitSetChar, LEDState};
use ir_clock::timewriter::{
    brightness_duty, brightness_for, clock_face, to_digits, to_time, Brightness, DayTime,
    DisplaySettings,
};

struct Recorder {
    shown: Vec<[LEDState; 7]>,
}

impl Digit for Recorder {
    fn set_digit(&mut self, segments: [LEDState; 7]) {
        self.shown.push(segments);
    }
}

use LEDState::{N, Y};

#[test]
fn glyphs_of_digits() {
    assert_eq!(glyph(b' '), Ok([N, N, N, N, N, N, N]));
    assert_eq!(glyph(b'0'), Ok([Y, Y, Y, N, Y, Y, Y]));
    assert_eq!(glyph(b'1'), Ok([N, Y, N, N, Y, N, N]));
    assert_eq!(glyph(b'8'), Ok([Y, Y, Y, Y, Y, Y, Y]));
    assert_eq!(glyph(b'9'), Ok([Y, Y, Y, Y, Y, N, Y]));
}

#[test]
fn glyph_rejects_other_characters() {
    for c in [b'a', b'/', b':', 0u8, 0xff] {
        assert_eq!(glyph(c), Err(DigitInvalidCharError));
    }
}

#[test]
fn set_chr_drives_digit() {
    let mut d = Recorder { shown: Vec::new() };
    assert_eq!(d.set_chr(b'7'), Ok(()));
    assert_eq!(d.set_chr(b'x'), Err(DigitInvalidCharError));
    assert_eq!(d.shown, vec![[Y, Y, N, N, Y, N, N]]);
}

#[test]
fn time_of_day() {
    assert_eq!(to_time(0), DayTime { hour: 0, minute: 0, second: 0 });
    assert_eq!(to_time(86_399), DayTime { hour: 23, minute: 59, second: 59 });
    assert_eq!(to_time(86_400 + 3_725), DayTime { hour: 1, minute: 2, second: 5 });
    assert_eq!(to_time(u32::MAX), DayTime { hour: 6, minute: 28, second: 15 });
}

#[test]
fn digits_with_clamp() {
    assert_eq!(to_digits(7), (b'0', b'7'));
    assert_eq!(to_digits(42), (b'4', b'2'));
    assert_eq!(to_digits(99), (b'9', b'9'));
    assert_eq!(to_digits(255), (b'9', b'5'));
}

#[test]
fn clock_face_shows_hours_and_minutes() {
    let f = clock_face(13 * 3600 + 7 * 60 + 4);
    assert_eq!((f.hour_tens, f.hour_units, f.minute_tens, f.minute_units), (b'1', b'3', b'0', b'7'));
    assert_eq!(f.colon, Y);
    assert_eq!(clock_face(1).colon, N);
}

#[test]
fn brightness_steps() {
    assert_eq!(brightness_for(0), Brightness::B0);
    assert_eq!(brightness_for(99), Brightness::B0);
    assert_eq!(brightness_for(100), Brightness::B1);
    assert_eq!(brightness_for(999), Brightness::B1);
    assert_eq!(brightness_for(1000), Brightness::B2);
    assert_eq!(brightness_for(u16::MAX), Brightness::B2);
}

#[test]
fn brightness_duties() {
    assert_eq!(brightness_duty(65535, Brightness::B2), 59035);
    assert_eq!(brightness_duty(65535, Brightness::B1), 63585);
    assert_eq!(brightness_duty(65535, Brightness::B0), 65210);
    assert_eq!(brightness_duty(999, Brightness::B2), 999);
}

#[test]
fn display_settings_follow_light() {
    let mut s = DisplaySettings::new();
    assert_eq!(s.brightness(), Brightness::B2);
    assert!(s.brightness_pending());
    assert!(!s.update_brightness(5000));
    assert!(s.update_brightness(50));
    assert_eq!(s.brightness(), Brightness::B0);
    assert!(!s.update_brightness(60));
    assert!(s.update_brightness(500));
    assert_eq!(s.brightness(), Brightness::B1);
}

#[test]
fn display_frames() {
    let t = DayTime { hour: 9, minute: 5, second: 30 };
    assert_eq!(time_frame(t), b"$001,09.05.30#".to_vec());
    assert_eq!(hidden_frame(), b"$001,#".to_vec());
    assert_eq!(brightness_frame(3), b"$001,3%".to_vec());
    assert_eq!(brightness_frame(0), b"$001,0%".to_vec());
}
