use versaclock::calibration::{BusOperation, CalEvent, CalState, CalibrationSequencer};
use versaclock::driver::{Pll5p49v, PllError};

#[test]
fn calibration_success_sequence() {
    // A fault-free handshake: exactly five transactions, in order
    // read, write, write, write, read, with the calibration bit pulsed
    // clear -> set -> clear on the byte read back.
    let pll = Pll5p49v::new();
    let mut seq = pll.calibrate_vco();
    let control: u8 = 0x5C;
    let status: u8 = 0xC8;

    assert_eq!(seq.pending_operation(), Some(BusOperation::Read { register: 0x1C }));
    seq.step(CalEvent::ReadOk { value: control });

    assert_eq!(
        seq.pending_operation(),
        Some(BusOperation::Write { register: 0x1C, value: 0x5C, settle_millis: 1 })
    );
    seq.step(CalEvent::WriteOk);

    assert_eq!(
        seq.pending_operation(),
        Some(BusOperation::Write { register: 0x1C, value: 0xDC, settle_millis: 1 })
    );
    seq.step(CalEvent::WriteOk);

    assert_eq!(
        seq.pending_operation(),
        Some(BusOperation::Write { register: 0x1C, value: 0x5C, settle_millis: 1 })
    );
    seq.step(CalEvent::WriteOk);

    assert_eq!(seq.pending_operation(), Some(BusOperation::Read { register: 0x99 }));
    seq.step(CalEvent::ReadOk { value: status });

    assert_eq!(seq.pending_operation(), None);
    assert_eq!(seq.state, CalState::Done { vco_band: 0x19 });
    assert_eq!(seq.vco_band(), Some(25));
}

#[test]
fn calibration_pulses_only_the_top_bit() {
    // The three written values differ from the byte read back only in
    // bit 7, whatever that byte was.
    for control in [0x00u8, 0x7F, 0x80, 0xFF, 0x5A] {
        let mut seq = CalibrationSequencer::new();
        seq.step(CalEvent::ReadOk { value: control });
        let mut written: Vec<u8> = Vec::new();
        for _ in 0..3 {
            match seq.pending_operation() {
                Some(BusOperation::Write { register, value, settle_millis }) => {
                    assert_eq!(register, 0x1C);
                    assert_eq!(settle_millis, 1);
                    written.push(value);
                }
                other => panic!("expected a write, got {:?}", other),
            }
            seq.step(CalEvent::WriteOk);
        }
        assert_eq!(written, vec![control & 0x7F, control | 0x80, control & 0x7F]);
    }
}

#[test]
fn calibration_failure_on_first_read() {
    // A transport failure on the very first transaction fails fast:
    // no further operation is ever requested.
    let mut seq = CalibrationSequencer::new();
    seq.step(CalEvent::BusFailed);
    assert_eq!(seq.state, CalState::Failed);
    assert_eq!(seq.pending_operation(), None);
    assert_eq!(seq.vco_band(), None);

    // no later event revives a failed handshake
    seq.step(CalEvent::WriteOk);
    assert_eq!(seq.state, CalState::Failed);
    assert_eq!(seq.pending_operation(), None);
}

#[test]
fn calibration_failure_mid_sequence() {
    let mut seq = CalibrationSequencer::new();
    seq.step(CalEvent::ReadOk { value: 0x12 });
    seq.step(CalEvent::WriteOk);
    // the transport fails on the second write
    seq.step(CalEvent::BusFailed);
    assert_eq!(seq.state, CalState::Failed);
    assert_eq!(seq.pending_operation(), None);
}

#[test]
fn calibration_rejects_mismatched_outcome() {
    // A write acknowledgement when a read was pending is a protocol
    // violation and halts the handshake.
    let mut seq = CalibrationSequencer::new();
    seq.step(CalEvent::WriteOk);
    assert_eq!(seq.state, CalState::Failed);
    assert_eq!(seq.pending_operation(), None);
}

#[test]
fn vco_band_is_top_five_status_bits() {
    let mut seq = CalibrationSequencer::new();
    seq.step(CalEvent::ReadOk { value: 0x00 });
    seq.step(CalEvent::WriteOk);
    seq.step(CalEvent::WriteOk);
    seq.step(CalEvent::WriteOk);
    seq.step(CalEvent::ReadOk { value: 0xFF });
    assert_eq!(seq.state, CalState::Done { vco_band: 0x1F });
    assert_eq!(seq.vco_band(), Some(0x1F));
}

#[test]
fn zero_frequencies_are_domain_errors() {
    let pll = Pll5p49v::new();
    let inputs: [[u32; 6]; 6] = [
        [0, 2_700_000_000, 40_000_000, 25_000_000, 24_000_000, 28_800_000],
        [10_000_000, 0, 40_000_000, 25_000_000, 24_000_000, 28_800_000],
        [10_000_000, 2_700_000_000, 0, 25_000_000, 24_000_000, 28_800_000],
        [10_000_000, 2_700_000_000, 40_000_000, 0, 24_000_000, 28_800_000],
        [10_000_000, 2_700_000_000, 40_000_000, 25_000_000, 0, 28_800_000],
        [10_000_000, 2_700_000_000, 40_000_000, 25_000_000, 24_000_000, 0],
    ];
    for [reference, vco, o1, o2, o3, o4] in inputs {
        let r = pll.write_config(reference, vco, o1, o2, o3, o4);
        assert_eq!(r, Err(PllError::Domain));
    }
}
