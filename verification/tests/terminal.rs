//! Tests of the EL2522 channel abstraction: staging, unit conversion, the
//! toggle-gated decode pass and the counter-reset handshake.

use ethercat_hal::el2522::{EL2522, EL2522Port};
use ethercat_hal::pulse_train_output::{
    hz_of_raw_frequency, raw_frequency_of_hz, PulseTrainOutputDevice, PulseTrainOutputOutput,
};

fn rest_output() -> PulseTrainOutputOutput {
    PulseTrainOutputOutput {
        disable_ramp: false,
        frequency_select: false,
        go_counter: false,
        frequency_value: 0,
        target_counter_value: 0,
        set_counter: false,
        set_counter_value: 0,
    }
}

#[test]
fn frequency_conversion_exact() {
    // 250 Hz encodes to 25000 raw 0.01 Hz counts and decodes back exactly.
    assert_eq!(raw_frequency_of_hz(250), 25000);
    assert_eq!(hz_of_raw_frequency(25000), 250);
    assert_eq!(raw_frequency_of_hz(-250), -25000);
    assert_eq!(hz_of_raw_frequency(-25000), -250);
    assert_eq!(raw_frequency_of_hz(0), 0);
    assert_eq!(hz_of_raw_frequency(0), 0);
    assert_eq!(raw_frequency_of_hz(327), 32700);
    assert_eq!(raw_frequency_of_hz(-327), -32700);
}

#[test]
fn new_terminal_at_rest() {
    let t = EL2522::new();
    for port in [EL2522Port::PTO1, EL2522Port::PTO2] {
        let o = t.get_output(port);
        assert_eq!(o, rest_output());
        let i = t.get_input(port);
        assert!(!i.ramp_active);
        assert!(!i.error);
        assert!(!i.txpdo_toggle);
        assert!(!i.set_counter_done);
        assert_eq!(i.counter_value, 0);
    }
}

#[test]
fn set_output_stages_per_port() {
    let mut t = EL2522::new();
    let mut cmd = rest_output();
    cmd.go_counter = true;
    cmd.frequency_value = 100;
    cmd.target_counter_value = 4000;
    t.set_output(EL2522Port::PTO2, cmd);
    assert_eq!(t.get_output(EL2522Port::PTO2), cmd);
    assert_eq!(t.get_output(EL2522Port::PTO1), rest_output());
}

#[test]
fn set_counter_handshake_deasserts_on_ack() {
    let mut t = EL2522::new();
    let mut cmd = rest_output();
    cmd.set_counter = true;
    cmd.set_counter_value = 0;
    t.set_output(EL2522Port::PTO1, cmd);
    assert!(t.get_output(EL2522Port::PTO1).set_counter);

    // The terminal acknowledges: encoder status with set_counter_done and a
    // fresh toggle.  The very next staged command has set_counter clear.
    t.cycle_input(EL2522Port::PTO1, &[0x00, 0x80], &[0x04, 0x80, 0, 0, 0, 0]);
    assert!(t.get_input(EL2522Port::PTO1).set_counter_done);
    assert!(!t.get_output(EL2522Port::PTO1).set_counter);

    // Everything else of the staged command is kept.
    let staged = t.get_output(EL2522Port::PTO1);
    assert_eq!(staged.set_counter_value, cmd.set_counter_value);
    assert_eq!(staged.go_counter, cmd.go_counter);
    assert_eq!(staged.frequency_value, cmd.frequency_value);
}

#[test]
fn set_counter_kept_until_acknowledged() {
    let mut t = EL2522::new();
    let mut cmd = rest_output();
    cmd.set_counter = true;
    t.set_output(EL2522Port::PTO2, cmd);

    // Fresh decode without the done bit: the request stays asserted.
    t.cycle_input(EL2522Port::PTO2, &[0x00, 0x80], &[0x00, 0x80, 0, 0, 0, 0]);
    assert!(t.get_output(EL2522Port::PTO2).set_counter);

    // Stale decode: the request stays asserted too.
    t.cycle_input(EL2522Port::PTO2, &[0x00, 0x00], &[0x04, 0x00, 0, 0, 0, 0]);
    assert!(t.get_output(EL2522Port::PTO2).set_counter);
}

#[test]
fn handshake_on_one_port_leaves_the_other() {
    let mut t = EL2522::new();
    let mut cmd = rest_output();
    cmd.set_counter = true;
    t.set_output(EL2522Port::PTO1, cmd);
    t.set_output(EL2522Port::PTO2, cmd);

    t.cycle_input(EL2522Port::PTO1, &[0x00, 0x80], &[0x04, 0x80, 0, 0, 0, 0]);
    assert!(!t.get_output(EL2522Port::PTO1).set_counter);
    assert!(t.get_output(EL2522Port::PTO2).set_counter);
}

#[test]
fn update_required_cases() {
    let staged = rest_output();
    let mut same = staged;
    assert!(!staged.update_required(&same));

    let mut new_target = staged;
    new_target.target_counter_value = 10;
    assert!(staged.update_required(&new_target));

    let mut new_frequency = staged;
    new_frequency.frequency_value = 5;
    assert!(staged.update_required(&new_frequency));

    let mut go = staged;
    go.go_counter = true;
    assert!(staged.update_required(&go));

    // A fresh set-counter request forces re-staging even if nothing else
    // changed, and a sticky asserted bit does too.
    same.set_counter = true;
    assert!(staged.update_required(&same));
    let mut sticky = staged;
    sticky.set_counter = true;
    assert!(sticky.update_required(&staged));
}

#[test]
fn end_to_end_motion_command() {
    // Terminal at rest; the caller commands 10000 pulses at 100 Hz.
    let mut t = EL2522::new();
    let mut cmd = rest_output();
    cmd.target_counter_value = 10000;
    cmd.frequency_value = 100;
    cmd.go_counter = true;
    cmd.frequency_select = true;
    t.set_output(EL2522Port::PTO2, cmd);

    let mut control = vec![0u8; 4];
    let mut target = vec![0u8; 4];
    let mut enc_control = vec![0u8; 6];
    t.cycle_output(EL2522Port::PTO2, &mut control, &mut target, &mut enc_control);

    // Raw frequency field: 100 Hz -> 10000 counts of 0.01 Hz, little-endian.
    assert_eq!(&control[2..4], &[0x10, 0x27]);
    // go_counter at bit 0, frequency_select at bit 9.
    assert_eq!(control[0] & 0x01, 0x01);
    assert_eq!(control[1] & 0x02, 0x02);
    // Raw target field: 10000 pulses, little-endian over the whole window.
    assert_eq!(target, vec![0x10, 0x27, 0x00, 0x00]);
    // No counter force-load was requested.
    assert_eq!(enc_control, vec![0x00; 6]);

    // A later decode reports the ramp running; the snapshot reflects it
    // without the caller having changed the staged command.
    t.cycle_input(EL2522Port::PTO2, &[0x02, 0x80], &[0x00, 0x80, 0, 0, 0, 0]);
    assert!(t.get_input(EL2522Port::PTO2).ramp_active);
    assert_eq!(t.get_output(EL2522Port::PTO2), cmd);
}

#[test]
fn input_reflects_decoded_counter() {
    let mut t = EL2522::new();
    t.cycle_input(EL2522Port::PTO1, &[0x00, 0x80], &[0x00, 0x80, 0x39, 0x30, 0x00, 0x00]);
    assert_eq!(t.get_input(EL2522Port::PTO1).counter_value, 12345);
}
