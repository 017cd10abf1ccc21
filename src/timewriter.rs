//! What the clock face shows: the time of day as four digit characters and a
//! blinking colon, and a brightness that follows the ambient light.
use vstd::prelude::*;
use crate::leds::{is_showable, LEDState};

verus! {

pub const MINUTE_LENGTH: u32 = 60;

pub const HOUR_LENGTH: u32 = MINUTE_LENGTH * 60;

pub const DAY_LENGTH: u32 = HOUR_LENGTH * 24;

/// Time of day.
#[derive(Clone, Copy, Debug, PartialEq, Eq, Structural)]
pub struct DayTime {
    pub hour: u8,
    pub minute: u8,
    pub second: u8,
}

proof fn lemma_day_split(t: int)
    requires
        0 <= t,
    ensures
        (t % 86400) % 3600 == t % 3600,
        (t % 3600) % 60 == t % 60,
        (t % 86400) / 3600 < 24,
        (t % 3600) / 60 < 60,
{
    vstd::arithmetic::div_mod::lemma_mod_mod(t, 3600, 24);
    vstd::arithmetic::div_mod::lemma_mod_mod(t, 60, 60);
}

/// The time of day at `timestamp`, a count of seconds.
pub fn to_time(timestamp: u32) -> (r: DayTime)
    ensures
        r.hour == (timestamp % DAY_LENGTH) / HOUR_LENGTH,
        r.minute == (timestamp % HOUR_LENGTH) / MINUTE_LENGTH,
        r.second == timestamp % MINUTE_LENGTH,
{
    assert(DAY_LENGTH == 86400 && HOUR_LENGTH == 3600 && MINUTE_LENGTH == 60);
    let day = timestamp % DAY_LENGTH;
    let hour = day / HOUR_LENGTH;
    let rest = day % HOUR_LENGTH;
    let minute = rest / MINUTE_LENGTH;
    let second = rest % MINUTE_LENGTH;
    proof {
        lemma_day_split(timestamp as int);
        assert(rest == timestamp % 3600);
        assert(second == timestamp % 60);
    }
    DayTime { hour: hour as u8, minute: minute as u8, second: second as u8 }
}

/// ASCII character of the tens digit of `val`, shown as 9 from 100 up.
pub open spec fn tens_char(val: u8) -> u8 {
    (0x30 + if val / 10 >= 10 {
        9
    } else {
        val / 10
    }) as u8
}

/// ASCII character of the units digit of `val`.
pub open spec fn units_char(val: u8) -> u8 {
    (0x30 + val % 10) as u8
}

/// The two ASCII digits of `val`, tens first.
pub fn to_digits(val: u8) -> (r: (u8, u8))
    ensures
        r == (tens_char(val), units_char(val)),
        is_showable(r.0),
        is_showable(r.1),
{
    let mut tens = val / 10;
    if tens >= 10 {
        tens = 9;
    }
    let units = val % 10;
    (tens + 0x30, units + 0x30)
}

/// What the four digits and the colon show.
#[derive(Clone, Copy, Debug, PartialEq, Eq, Structural)]
pub struct ClockFace {
    pub hour_tens: u8,
    pub hour_units: u8,
    pub minute_tens: u8,
    pub minute_units: u8,
    pub colon: LEDState,
}

/// The face for `timestamp`: hours and minutes of the day, the colon lit on
/// even seconds.
pub fn clock_face(timestamp: u32) -> (r: ClockFace)
    ensures
        ({
            let hour = ((timestamp % DAY_LENGTH) / HOUR_LENGTH) as u8;
            let minute = ((timestamp % HOUR_LENGTH) / MINUTE_LENGTH) as u8;
            r == (ClockFace {
                hour_tens: tens_char(hour),
                hour_units: units_char(hour),
                minute_tens: tens_char(minute),
                minute_units: units_char(minute),
                colon: if timestamp % 2 == 0 {
                    LEDState::Y
                } else {
                    LEDState::N
                },
            })
        }),
        is_showable(r.hour_tens),
        is_showable(r.hour_units),
        is_showable(r.minute_tens),
        is_showable(r.minute_units),
{
    let time = to_time(timestamp);
    let (hour_tens, hour_units) = to_digits(time.hour);
    let (minute_tens, minute_units) = to_digits(time.minute);
    ClockFace {
        hour_tens,
        hour_units,
        minute_tens,
        minute_units,
        colon: if timestamp % 2 == 0 {
            LEDState::Y
        } else {
            LEDState::N
        },
    }
}

/// Brightness steps of the display.
#[derive(Clone, Copy, Debug, PartialEq, Eq, Structural)]
pub enum Brightness {
    /// Dark surroundings.
    B0,
    /// Dim surroundings.
    B1,
    /// Bright surroundings.
    B2,
}

/// Per-mille of the PWM range that a step takes off the dark duty.
pub open spec fn brightness_factor(b: Brightness) -> u16 {
    match b {
        Brightness::B0 => 5,
        Brightness::B1 => 30,
        Brightness::B2 => 100,
    }
}

impl Brightness {
    pub fn factor(self) -> (r: u16)
        ensures
            r == brightness_factor(self),
    {
        match self {
            Brightness::B0 => 5,
            Brightness::B1 => 30,
            Brightness::B2 => 100,
        }
    }
}

/// The step for a light-sensor reading.
pub fn brightness_for(light: u16) -> (r: Brightness)
    ensures
        light < 100 ==> r == Brightness::B0,
        100 <= light < 1000 ==> r == Brightness::B1,
        1000 <= light ==> r == Brightness::B2,
{
    if light < 100 {
        Brightness::B0
    } else if light < 1000 {
        Brightness::B1
    } else {
        Brightness::B2
    }
}

/// PWM duty of the display's dimming output for step `b`.
pub fn brightness_duty(max_duty: u16, b: Brightness) -> (r: u16)
    ensures
        r == max_duty - max_duty / 1000 * brightness_factor(b),
{
    let f = b.factor();
    let unit = max_duty / 1000;
    assert(unit * f <= max_duty) by (nonlinear_arith)
        requires
            unit == max_duty / 1000,
            f <= 100,
    ;
    max_duty - unit * f
}

/// The display's settings apart from its pins: the current brightness step,
/// and whether the dimming output is written on every time update.
pub struct DisplaySettings {
    brightness: Brightness,
    first_run: bool,
}

/// What the settings hold.
pub struct DisplayModel {
    pub brightness: Brightness,
    pub first_run: bool,
}

impl View for DisplaySettings {
    type V = DisplayModel;

    closed spec fn view(&self) -> DisplayModel {
        DisplayModel { brightness: self.brightness, first_run: self.first_run }
    }
}

impl DisplaySettings {
    /// Full brightness, dimming output still to be written.
    pub fn new() -> (r: Self)
        ensures
            r@ == (DisplayModel { brightness: Brightness::B2, first_run: true }),
    {
        DisplaySettings { brightness: Brightness::B2, first_run: true }
    }

    pub fn brightness(&self) -> (r: Brightness)
        ensures
            r == self@.brightness,
    {
        self.brightness
    }

    /// Whether a time update must write the dimming output too.
    pub fn brightness_pending(&self) -> (r: bool)
        ensures
            r == self@.first_run,
    {
        self.first_run
    }

    /// Takes a light-sensor reading. Returns whether the step changed, in
    /// which case the dimming output must be written again.
    pub fn update_brightness(&mut self, light: u16) -> (r: bool)
        ensures
            final(self)@.first_run == old(self)@.first_run,
            light < 100 ==> final(self)@.brightness == Brightness::B0,
            100 <= light < 1000 ==> final(self)@.brightness == Brightness::B1,
            1000 <= light ==> final(self)@.brightness == Brightness::B2,
            r == (final(self)@.brightness != old(self)@.brightness),
    {
        let new_brightness = brightness_for(light);
        if self.brightness != new_brightness {
            self.brightness = new_brightness;
            true
        } else {
            false
        }
    }
}

} // verus!
