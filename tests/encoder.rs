use ir_clock::irsender::{
    Status, TCLIRSender, TCLIRSenderStatus, LENGTH_0, LENGTH_1, LENGTH_B, LENGTH_BW, LENGTH_E,
    LENGTH_H,
};

/// Level changes after `set_value`, each with the number of ticks it was held.
fn run(sender: &mut TCLIRSender, first: bool) -> Vec<(bool, u32)> {
    let mut phases = Vec::new();
    let mut level = first;
    let mut held: u32 = 0;
    for _ in 0..10_000 {
        held += 1;
        if let Some(next) = sender.next() {
            phases.push((level, held));
            level = next;
            held = 0;
        }
    }
    phases
}

fn decode_frame(phases: &[(bool, u32)]) -> u32 {
    let mut v: u32 = 0;
    for i in 0..24 {
        let (mark_level, mark_len) = phases[2 + 2 * i];
        assert!(mark_level);
        assert_eq!(mark_len, LENGTH_H);
        let (gap_level, gap_len) = phases[3 + 2 * i];
        assert!(!gap_level);
        let bit = match gap_len {
            LENGTH_0 => 0,
            LENGTH_1 => 1,
            other => panic!("gap of {} ticks", other),
        };
        v = (v << 1) | bit;
    }
    v
}

#[test]
fn new_sender_is_silent() {
    let mut s = TCLIRSender::new();
    for _ in 0..100 {
        assert_eq!(s.next(), None);
    }
}

#[test]
fn set_value_starts_with_preamble_mark() {
    let mut s = TCLIRSender::new();
    assert!(s.set_value(0x123456));
    for _ in 0..LENGTH_B - 1 {
        assert_eq!(s.next(), None);
    }
    assert_eq!(s.next(), Some(false));
}

#[test]
fn full_transmission_of_0x123456() {
    let mut s = TCLIRSender::new();
    let first = s.set_value(0x123456);
    let phases = run(&mut s, first);
    // every phase up to the final return to standby is one level change
    assert_eq!(phases.len(), 104);
    assert_eq!(phases[0], (true, LENGTH_B));
    assert_eq!(phases[1], (false, LENGTH_BW));
    assert_eq!(phases[50], (true, LENGTH_H));
    assert_eq!(phases[51], (false, LENGTH_E));
    assert_eq!(phases[102], (true, LENGTH_H));
    assert_eq!(phases[103], (false, LENGTH_E));
    assert_eq!(decode_frame(&phases[..52]), 0b0001_0010_0011_0100_0101_0110);
    assert_eq!(decode_frame(&phases[52..]), 0x123456);
}

#[test]
fn bits_recovered_for_several_payloads() {
    for v in [0u32, 1, 0x800000, 0xFFFFFF, 0xA5A5A5, 0x5A5A5A] {
        let mut s = TCLIRSender::new();
        let first = s.set_value(v);
        let phases = run(&mut s, first);
        assert_eq!(decode_frame(&phases[..52]), v);
        assert_eq!(decode_frame(&phases[52..]), v);
    }
}

#[test]
fn only_low_24_bits_are_sent() {
    let mut s = TCLIRSender::new();
    let first = s.set_value(0xAB12_3456);
    let phases = run(&mut s, first);
    assert_eq!(decode_frame(&phases[..52]), 0x12_3456);
}

#[test]
fn frame_duration_in_ticks() {
    let mut s = TCLIRSender::new();
    let first = s.set_value(0);
    let phases = run(&mut s, first);
    let total: u32 = phases.iter().map(|p| p.1).sum();
    let frame = LENGTH_B + LENGTH_BW + 24 * (LENGTH_H + LENGTH_0) + LENGTH_H + LENGTH_E;
    assert_eq!(total, 2 * frame);
}

#[test]
fn preemption_restarts_cleanly() {
    let mut fresh = TCLIRSender::new();
    let first_fresh = fresh.set_value(0x0F0F0F);
    let expected = run(&mut fresh, first_fresh);

    for progress in [1usize, 9, 17, 40, 120, 200] {
        let mut s = TCLIRSender::new();
        s.set_value(0xFFFFFF);
        for _ in 0..progress {
            s.next();
        }
        let first = s.set_value(0x0F0F0F);
        assert!(first);
        assert_eq!(run(&mut s, first), expected);
    }
}

#[test]
fn phase_table_lengths() {
    assert_eq!(TCLIRSenderStatus::Standby.status_value(), (None, false));
    assert_eq!(TCLIRSenderStatus::WaitForNext.status_value(), (Some(LENGTH_E), false));
    assert_eq!(TCLIRSenderStatus::BeginSignal.status_value(), (Some(LENGTH_B), true));
    assert_eq!(TCLIRSenderStatus::SendingBitLow(3, true).status_value(), (Some(LENGTH_1), false));
    assert_eq!(TCLIRSenderStatus::SendingBitLow2(3, false).status_value(), (Some(LENGTH_0), false));
    assert_eq!(TCLIRSenderStatus::EndSignalLow2.next_status(0), TCLIRSenderStatus::Standby);
    assert_eq!(TCLIRSenderStatus::WaitForNext.next_status(0), TCLIRSenderStatus::BeginSignal);
    assert_eq!(TCLIRSenderStatus::Standby.interrupt_status(), TCLIRSenderStatus::BeginSignal);
    assert_eq!(TCLIRSenderStatus::default(), TCLIRSenderStatus::Standby);
}

#[test]
fn bit_phases_follow_payload_msb_first() {
    let v = 0x800001;
    assert_eq!(
        TCLIRSenderStatus::SendingBitHigh(0).next_status(v),
        TCLIRSenderStatus::SendingBitLow(0, true)
    );
    assert_eq!(
        TCLIRSenderStatus::SendingBitHigh(1).next_status(v),
        TCLIRSenderStatus::SendingBitLow(1, false)
    );
    assert_eq!(
        TCLIRSenderStatus::SendingBitHigh2(23).next_status(v),
        TCLIRSenderStatus::SendingBitLow2(23, true)
    );
    assert_eq!(
        TCLIRSenderStatus::SendingBitLow(23, true).next_status(v),
        TCLIRSenderStatus::EndSignalHigh
    );
    assert_eq!(
        TCLIRSenderStatus::SendingBitLow2(5, true).next_status(v),
        TCLIRSenderStatus::SendingBitHigh2(6)
    );
}

#[test]
fn out_of_range_bit_index_is_total() {
    assert_eq!(
        TCLIRSenderStatus::SendingBitHigh(1000).next_status(u32::MAX),
        TCLIRSenderStatus::SendingBitLow(1000, false)
    );
    assert_eq!(
        TCLIRSenderStatus::SendingBitLow(1000, false).next_status(0),
        TCLIRSenderStatus::EndSignalHigh
    );
}
