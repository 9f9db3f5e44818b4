//! Tests of the five process-data objects: bit layouts, toggle gating and
//! encode/decode round trips on concrete windows.

use ethercat_hal::el252x::{EncControl, EncStatus, PtoControl, PtoStatus, PtoTarget};
use ethercat_hal::pdo::{RxPdoObject, TxPdoObject};

fn pto_status_zero() -> PtoStatus {
    PtoStatus::default()
}

fn enc_status_zero() -> EncStatus {
    EncStatus::default()
}

#[test]
fn pto_status_decode_fresh() {
    // Byte 0: bits 0, 1, 5, 6 set; byte 1: bits 5 and 7 (toggle) set.
    let mut s = pto_status_zero();
    s.read(&[0x63, 0xA0]);
    assert!(s.txpdo_toggle);
    assert!(s.select_end_counter);
    assert!(s.ramp_active);
    assert!(!s.input_t);
    assert!(s.input_z);
    assert!(s.error);
    assert!(s.sync_error);
}

#[test]
fn pto_status_stale_decode_keeps_fields() {
    let mut s = pto_status_zero();
    s.read(&[0x63, 0xA0]);
    let fresh = s.clone();
    // Same region re-read with the toggle bit clear: whatever the payload
    // bits hold now, every non-toggle field keeps its value.
    s.read(&[0x00, 0x00]);
    assert!(!s.txpdo_toggle);
    assert_eq!(s.select_end_counter, fresh.select_end_counter);
    assert_eq!(s.ramp_active, fresh.ramp_active);
    assert_eq!(s.input_t, fresh.input_t);
    assert_eq!(s.input_z, fresh.input_z);
    assert_eq!(s.error, fresh.error);
    assert_eq!(s.sync_error, fresh.sync_error);
}

#[test]
fn enc_status_decode_fresh() {
    // Byte 0: bits 2, 3, 4 set; byte 1: toggle; bytes 2..6: counter.
    let mut s = enc_status_zero();
    s.read(&[0x1C, 0x80, 0xEF, 0xBE, 0xAD, 0xDE]);
    assert!(s.txpdo_toggle);
    assert!(s.set_counter_done);
    assert!(s.counter_underflow);
    assert!(s.counter_overflow);
    assert!(!s.sync_error);
    assert_eq!(s.counter_value, 0xDEADBEEF);
}

#[test]
fn enc_status_underflow_bit_isolation() {
    // The underflow flag follows bit 3 alone, whatever the unrelated bits
    // and the counter hold.
    let mut noisy = enc_status_zero();
    noisy.read(&[0xFF, 0xFF, 0x12, 0x34, 0x56, 0x78]);
    assert!(noisy.counter_underflow);

    let mut bare = enc_status_zero();
    bare.read(&[0x08, 0x80, 0x00, 0x00, 0x00, 0x00]);
    assert!(bare.counter_underflow);
    assert!(!bare.set_counter_done);
    assert!(!bare.counter_overflow);

    let mut clear = enc_status_zero();
    clear.read(&[0xF7, 0xFF, 0x12, 0x34, 0x56, 0x78]);
    assert!(!clear.counter_underflow);
}

#[test]
fn enc_status_stale_decode_keeps_counter() {
    let mut s = enc_status_zero();
    s.read(&[0x1C, 0x80, 0xEF, 0xBE, 0xAD, 0xDE]);
    s.read(&[0x00, 0x00, 0x11, 0x22, 0x33, 0x44]);
    assert!(!s.txpdo_toggle);
    assert_eq!(s.counter_value, 0xDEADBEEF);
    assert!(s.set_counter_done);
    assert!(s.counter_underflow);
    assert!(s.counter_overflow);
}

#[test]
fn pto_control_encode_layout() {
    let c = PtoControl {
        go_counter: true,
        stop_counter: false,
        set_counter: false,
        reset_counter: false,
        select_end_counter: false,
        input_z_logic: false,
        reset: false,
        input_t_logic: false,
        disable_ramp: true,
        frequency_select: true,
        control_toggle: true,
        frequency_value: -1,
    };
    let mut buffer = vec![0u8; 4];
    c.write(&mut buffer);
    assert_eq!(buffer, vec![0x01, 0x83, 0xFF, 0xFF]);
}

#[test]
fn pto_control_encode_all_flags() {
    let c = PtoControl {
        go_counter: true,
        stop_counter: true,
        set_counter: true,
        reset_counter: true,
        select_end_counter: true,
        input_z_logic: true,
        reset: true,
        input_t_logic: true,
        disable_ramp: false,
        frequency_select: false,
        control_toggle: false,
        frequency_value: 25000,
    };
    let mut buffer = vec![0u8; 4];
    c.write(&mut buffer);
    assert_eq!(buffer, vec![0xFF, 0x00, 0xA8, 0x61]);
}

#[test]
fn pto_target_encode_layout() {
    let t = PtoTarget { target_counter_value: 0xDEADBEEF };
    let mut buffer = vec![0u8; 4];
    t.write(&mut buffer);
    assert_eq!(buffer, vec![0xEF, 0xBE, 0xAD, 0xDE]);
}

#[test]
fn pto_target_round_trip() {
    // The single field covers the whole window: reassembling the encoded
    // bytes gives the target back.
    let t = PtoTarget { target_counter_value: 1234567891 };
    let mut buffer = vec![0u8; 4];
    t.write(&mut buffer);
    let back = (buffer[0] as u32)
        | ((buffer[1] as u32) << 8)
        | ((buffer[2] as u32) << 16)
        | ((buffer[3] as u32) << 24);
    assert_eq!(back, t.target_counter_value);
}

#[test]
fn enc_control_encode_layout() {
    let c = EncControl { set_counter: true, set_counter_value: 0x01020304 };
    let mut buffer = vec![0u8; 6];
    c.write(&mut buffer);
    assert_eq!(buffer, vec![0x04, 0x00, 0x04, 0x03, 0x02, 0x01]);
}

#[test]
fn enc_control_round_trip() {
    // Decoding the used bits of an encoded command gives the command back.
    let c = EncControl { set_counter: true, set_counter_value: 4000000000 };
    let mut buffer = vec![0u8; 6];
    c.write(&mut buffer);
    let set_counter = (buffer[0] >> 2) & 1 == 1;
    let value = (buffer[2] as u32)
        | ((buffer[3] as u32) << 8)
        | ((buffer[4] as u32) << 16)
        | ((buffer[5] as u32) << 24);
    assert_eq!(set_counter, c.set_counter);
    assert_eq!(value, c.set_counter_value);
}

#[test]
fn encode_leaves_uncovered_bits_zero() {
    // A dirty window is fully overwritten; bits without a named field end
    // at zero.
    let c = PtoControl::default();
    let mut buffer = vec![0xFFu8; 4];
    c.write(&mut buffer);
    assert_eq!(buffer, vec![0x00, 0x00, 0x00, 0x00]);

    let e = EncControl::default();
    let mut buffer = vec![0xFFu8; 6];
    e.write(&mut buffer);
    assert_eq!(buffer, vec![0x00; 6]);
}
