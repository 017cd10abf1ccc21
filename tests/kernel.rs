use ir_clock::dispatch::{pwm_duty, Controller};
use ir_clock::logger::{LoggerGuard, LoggerReentrance};

#[test]
fn serial_frame_starts_transmission() {
    let mut c = Controller::new();
    for b in [b'S', b'b', 0x56, 0x34] {
        assert_eq!(c.on_serial_byte(b), None);
    }
    assert_eq!(c.on_tick(), None);
    assert_eq!(c.on_serial_byte(0x12), None);
    assert_eq!(c.on_serial_byte(0x00), Some(true));
    let mut changes = 0;
    for _ in 0..1000 {
        if c.on_tick().is_some() {
            changes += 1;
        }
    }
    assert_eq!(changes, 104);
}

#[test]
fn idle_ticks_change_nothing() {
    let mut c = Controller::new();
    for _ in 0..50 {
        assert_eq!(c.on_tick(), None);
    }
}

#[test]
fn pwm_duty_levels() {
    assert_eq!(pwm_duty(true, 1000), 250);
    assert_eq!(pwm_duty(true, 65535), 16383);
    assert_eq!(pwm_duty(false, 65535), 0);
    assert_eq!(pwm_duty(true, 0), 0);
}

#[test]
fn logger_reentrance_detected() {
    let mut g = LoggerGuard::new();
    assert_eq!(g.acquire(), Ok(()));
    assert_eq!(g.acquire(), Err(LoggerReentrance));
    assert_eq!(g.acquire(), Err(LoggerReentrance));
}

#[test]
fn logger_release_allows_next_writer() {
    let mut g = LoggerGuard::new();
    assert_eq!(g.acquire(), Ok(()));
    g.release();
    assert_eq!(g.acquire(), Ok(()));
    g.release();
}

#[test]
fn logger_panic_mode_lets_every_writer_through() {
    let mut g = LoggerGuard::new();
    assert_eq!(g.acquire(), Ok(()));
    g.panic_acquire();
    assert_eq!(g.acquire(), Ok(()));
    assert_eq!(g.acquire(), Ok(()));
}
