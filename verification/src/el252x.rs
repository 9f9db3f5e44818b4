//! Process-data objects of the EL252x pulse-train-output terminals.
//!
//! Five fixed-layout objects make up one channel's process image: two status
//! objects decoded from the inbound image and three control objects encoded
//! into the outbound image.  All numeric fields are little-endian; every
//! boolean flag sits at a fixed bit offset.

use vstd::prelude::*;

use crate::bits::{
    bit_u8, get_bit, pack8, pack_bits, u16_from_i16, u16_le_byte, u16_of_i16, u16_to_le, u32_from_le,
    u32_le, u32_le_byte, u32_to_le,
};
use crate::pdo::{RxPdoObject, TxPdoObject};

verus! {

/// Declared width of the PTO status object.
pub const PTO_STATUS_BITS: u64 = 16;

/// Declared width of the encoder status object.
pub const ENC_STATUS_BITS: u64 = 48;

/// Declared width of the PTO control object.
pub const PTO_CONTROL_BITS: u64 = 32;

/// Declared width of the PTO target object.
pub const PTO_TARGET_BITS: u64 = 32;

/// Declared width of the encoder control object.
pub const ENC_CONTROL_BITS: u64 = 48;

/// "PTO Status": status information about the pulse train output.
///
/// Decoded from a 16-bit inbound window.  The toggle bit at bit 15 gates
/// every other field: when it is clear the decode keeps the previous values.
#[derive(Debug, Clone, Copy, PartialEq, Eq, Structural)]
pub struct PtoStatus {
    /// Bit 0: the end counter is selected.
    pub select_end_counter: bool,
    /// Bit 1: the frequency ramp is currently shaping output pulses.
    pub ramp_active: bool,
    /// Bit 4: state of the T input line.
    pub input_t: bool,
    /// Bit 5: state of the Z input line.
    pub input_z: bool,
    /// Bit 6: the terminal reports a fault; cleared only by a `reset` command.
    pub error: bool,
    /// Bit 13: synchronization error of the cyclic exchange.
    pub sync_error: bool,
    /// Bit 15: flipped by the terminal whenever the payload holds a new
    /// sample.
    pub txpdo_toggle: bool,
}

impl Default for PtoStatus {
    /// The at-rest status: every flag clear.
    fn default() -> (r: Self)
        ensures
            r == (PtoStatus {
                select_end_counter: false,
                ramp_active: false,
                input_t: false,
                input_z: false,
                error: false,
                sync_error: false,
                txpdo_toggle: false,
            }),
    {
        PtoStatus {
            select_end_counter: false,
            ramp_active: false,
            input_t: false,
            input_z: false,
            error: false,
            sync_error: false,
            txpdo_toggle: false,
        }
    }
}

impl TxPdoObject for PtoStatus {
    open spec fn width_bits() -> nat {
        PTO_STATUS_BITS as nat
    }

    open spec fn spec_read(pre: Self, bits: Seq<u8>) -> Self {
        if !bit_u8(bits[1], 7) {
            PtoStatus {
                select_end_counter: pre.select_end_counter,
                ramp_active: pre.ramp_active,
                input_t: pre.input_t,
                input_z: pre.input_z,
                error: pre.error,
                sync_error: pre.sync_error,
                txpdo_toggle: false,
            }
        } else {
            PtoStatus {
                select_end_counter: bit_u8(bits[0], 0),
                ramp_active: bit_u8(bits[0], 1),
                input_t: bit_u8(bits[0], 4),
                input_z: bit_u8(bits[0], 5),
                error: bit_u8(bits[0], 6),
                sync_error: bit_u8(bits[1], 5),
                txpdo_toggle: true,
            }
        }
    }

    fn read(&mut self, bits: &[u8]) {
        // Extract the toggle bit first: a clear toggle means the producer has
        // not sampled anew, and the remaining fields must keep their values.
        self.txpdo_toggle = get_bit(bits[1], 7);
        if !self.txpdo_toggle {
            return;
        }

        self.select_end_counter = get_bit(bits[0], 0);
        self.ramp_active = get_bit(bits[0], 1);
        self.input_t = get_bit(bits[0], 4);
        self.input_z = get_bit(bits[0], 5);
        self.error = get_bit(bits[0], 6);

        self.sync_error = get_bit(bits[1], 5);
    }
}

/// "Encoder Status": the encoder's status information and live counter.
///
/// Decoded from a 48-bit inbound window.  The toggle bit at bit 15 gates
/// every other field, including the 32-bit counter at bits 16..48.
#[derive(Debug, Clone, Copy, PartialEq, Eq, Structural)]
pub struct EncStatus {
    /// Bit 2: acknowledges the set-counter command of a previous cycle.
    pub set_counter_done: bool,
    /// Bit 3: the counter wrapped below zero.
    pub counter_underflow: bool,
    /// Bit 4: the counter wrapped above its maximum.
    pub counter_overflow: bool,
    /// Bit 13: synchronization error of the cyclic exchange.
    pub sync_error: bool,
    /// Bit 15: flipped by the terminal whenever the payload holds a new
    /// sample.
    pub txpdo_toggle: bool,
    /// Bits 16..48: the position counted by the encoder, in pulses.
    pub counter_value: u32,
}

impl Default for EncStatus {
    /// The at-rest status: every flag clear, counter at zero.
    fn default() -> (r: Self)
        ensures
            r == (EncStatus {
                set_counter_done: false,
                counter_underflow: false,
                counter_overflow: false,
                sync_error: false,
                txpdo_toggle: false,
                counter_value: 0,
            }),
    {
        EncStatus {
            set_counter_done: false,
            counter_underflow: false,
            counter_overflow: false,
            sync_error: false,
            txpdo_toggle: false,
            counter_value: 0,
        }
    }
}

impl TxPdoObject for EncStatus {
    open spec fn width_bits() -> nat {
        ENC_STATUS_BITS as nat
    }

    open spec fn spec_read(pre: Self, bits: Seq<u8>) -> Self {
        if !bit_u8(bits[1], 7) {
            EncStatus {
                set_counter_done: pre.set_counter_done,
                counter_underflow: pre.counter_underflow,
                counter_overflow: pre.counter_overflow,
                sync_error: pre.sync_error,
                txpdo_toggle: false,
                counter_value: pre.counter_value,
            }
        } else {
            EncStatus {
                set_counter_done: bit_u8(bits[0], 2),
                counter_underflow: bit_u8(bits[0], 3),
                counter_overflow: bit_u8(bits[0], 4),
                sync_error: bit_u8(bits[1], 5),
                txpdo_toggle: true,
                counter_value: u32_le(bits[2], bits[3], bits[4], bits[5]),
            }
        }
    }

    fn read(&mut self, bits: &[u8]) {
        // Extract the toggle bit first: a clear toggle means the producer has
        // not sampled anew, and the remaining fields must keep their values.
        self.txpdo_toggle = get_bit(bits[1], 7);
        if !self.txpdo_toggle {
            return;
        }

        self.set_counter_done = get_bit(bits[0], 2);
        self.counter_underflow = get_bit(bits[0], 3);
        self.counter_overflow = get_bit(bits[0], 4);
        self.sync_error = get_bit(bits[1], 5);
        self.counter_value = u32_from_le(bits[2], bits[3], bits[4], bits[5]);
    }
}

/// "PTO Control": commands the pulse train output.
///
/// Encoded into a 32-bit outbound window.  The raw frequency field is a
/// signed 16-bit value in units of 0.01 Hz at bits 16..32.
#[derive(Debug, Clone, Copy, PartialEq, Eq, Structural)]
pub struct PtoControl {
    /// Bit 0: start pulse generation toward the target counter value.
    pub go_counter: bool,
    /// Bit 1: stop pulse generation.
    pub stop_counter: bool,
    /// Bit 2: load the PTO's own counter.
    pub set_counter: bool,
    /// Bit 3: reset the PTO's own counter.
    pub reset_counter: bool,
    /// Bit 4: select the end counter.
    pub select_end_counter: bool,
    /// Bit 5: logic level for the Z input.
    pub input_z_logic: bool,
    /// Bit 6: clear a latched terminal fault.
    pub reset: bool,
    /// Bit 7: logic level for the T input.
    pub input_t_logic: bool,
    /// Bit 8: bypass acceleration ramp shaping.
    pub disable_ramp: bool,
    /// Bit 9: interpret this object's frequency field instead of a statically
    /// configured profile.
    pub frequency_select: bool,
    /// Bit 15: outbound toggle.
    pub control_toggle: bool,
    /// Bits 16..32: pulse frequency in 0.01 Hz units, signed.
    pub frequency_value: i16,
}

impl Default for PtoControl {
    /// The at-rest command: every flag clear, frequency zero.
    fn default() -> (r: Self)
        ensures
            r == (PtoControl {
                go_counter: false,
                stop_counter: false,
                set_counter: false,
                reset_counter: false,
                select_end_counter: false,
                input_z_logic: false,
                reset: false,
                input_t_logic: false,
                disable_ramp: false,
                frequency_select: false,
                control_toggle: false,
                frequency_value: 0,
            }),
    {
        PtoControl {
            go_counter: false,
            stop_counter: false,
            set_counter: false,
            reset_counter: false,
            select_end_counter: false,
            input_z_logic: false,
            reset: false,
            input_t_logic: false,
            disable_ramp: false,
            frequency_select: false,
            control_toggle: false,
            frequency_value: 0,
        }
    }
}

impl RxPdoObject for PtoControl {
    open spec fn width_bits() -> nat {
        PTO_CONTROL_BITS as nat
    }

    open spec fn spec_write(self) -> Seq<u8> {
        seq![
            pack8(
                self.go_counter,
                self.stop_counter,
                self.set_counter,
                self.reset_counter,
                self.select_end_counter,
                self.input_z_logic,
                self.reset,
                self.input_t_logic,
            ),
            pack8(
                self.disable_ramp,
                self.frequency_select,
                false,
                false,
                false,
                false,
                false,
                self.control_toggle,
            ),
            u16_le_byte(u16_of_i16(self.frequency_value), 0),
            u16_le_byte(u16_of_i16(self.frequency_value), 1),
        ]
    }

    fn write(&self, buffer: &mut Vec<u8>) {
        let b0 = pack_bits(
            self.go_counter,
            self.stop_counter,
            self.set_counter,
            self.reset_counter,
            self.select_end_counter,
            self.input_z_logic,
            self.reset,
            self.input_t_logic,
        );
        let b1 = pack_bits(
            self.disable_ramp,
            self.frequency_select,
            false,
            false,
            false,
            false,
            false,
            self.control_toggle,
        );
        let f = u16_from_i16(self.frequency_value);
        let (f0, f1) = u16_to_le(f);
        buffer[0] = b0;
        buffer[1] = b1;
        buffer[2] = f0;
        buffer[3] = f1;
        proof {
            assert(buffer@ =~= self.spec_write());
        }
    }
}

/// "PTO Target": the target position of the pulse train output.
///
/// Encoded into a 32-bit outbound window that the single field fills whole.
#[derive(Debug, Clone, Copy, PartialEq, Eq, Structural)]
pub struct PtoTarget {
    /// Bits 0..32: target position in pulses; the goal of
    /// [`EncStatus::counter_value`].
    pub target_counter_value: u32,
}

impl Default for PtoTarget {
    /// The at-rest target: zero pulses.
    fn default() -> (r: Self)
        ensures
            r == (PtoTarget { target_counter_value: 0 }),
    {
        PtoTarget { target_counter_value: 0 }
    }
}

impl RxPdoObject for PtoTarget {
    open spec fn width_bits() -> nat {
        PTO_TARGET_BITS as nat
    }

    open spec fn spec_write(self) -> Seq<u8> {
        seq![
            u32_le_byte(self.target_counter_value, 0),
            u32_le_byte(self.target_counter_value, 1),
            u32_le_byte(self.target_counter_value, 2),
            u32_le_byte(self.target_counter_value, 3),
        ]
    }

    fn write(&self, buffer: &mut Vec<u8>) {
        let (t0, t1, t2, t3) = u32_to_le(self.target_counter_value);
        buffer[0] = t0;
        buffer[1] = t1;
        buffer[2] = t2;
        buffer[3] = t3;
        proof {
            assert(buffer@ =~= self.spec_write());
        }
    }
}

/// "Encoder Control": commands the encoder, in particular force-loading the
/// position counter.
///
/// Encoded into a 48-bit outbound window; the bits not covered by a named
/// field stay zero.
#[derive(Debug, Clone, Copy, PartialEq, Eq, Structural)]
pub struct EncControl {
    /// Bit 2: level-triggered request to override the encoder position.
    pub set_counter: bool,
    /// Bits 16..48: the value to load into the counter.
    pub set_counter_value: u32,
}

impl Default for EncControl {
    /// The at-rest command: no request, value zero.
    fn default() -> (r: Self)
        ensures
            r == (EncControl { set_counter: false, set_counter_value: 0 }),
    {
        EncControl { set_counter: false, set_counter_value: 0 }
    }
}

impl RxPdoObject for EncControl {
    open spec fn width_bits() -> nat {
        ENC_CONTROL_BITS as nat
    }

    open spec fn spec_write(self) -> Seq<u8> {
        seq![
            pack8(false, false, self.set_counter, false, false, false, false, false),
            0u8,
            u32_le_byte(self.set_counter_value, 0),
            u32_le_byte(self.set_counter_value, 1),
            u32_le_byte(self.set_counter_value, 2),
            u32_le_byte(self.set_counter_value, 3),
        ]
    }

    fn write(&self, buffer: &mut Vec<u8>) {
        let b0 = pack_bits(false, false, self.set_counter, false, false, false, false, false);
        let (v0, v1, v2, v3) = u32_to_le(self.set_counter_value);
        buffer[0] = b0;
        buffer[1] = 0;
        buffer[2] = v0;
        buffer[3] = v1;
        buffer[4] = v2;
        buffer[5] = v3;
        proof {
            assert(buffer@ =~= self.spec_write());
        }
    }
}

/// Each control object encodes to exactly its declared window: the byte
/// count of the encoding matches the declared bit width, whatever the
/// object's fields hold.
pub proof fn lemma_encode_covers_declared_width(c: PtoControl, t: PtoTarget, e: EncControl)
    ensures
        c.spec_write().len() * 8 == PtoControl::width_bits(),
        t.spec_write().len() * 8 == PtoTarget::width_bits(),
        e.spec_write().len() * 8 == EncControl::width_bits(),
{
}

/// The fields a PTO target window decodes back to.  The single field covers
/// the whole window, so this inverts the encode exactly.
pub open spec fn spec_pto_target_decode(b: Seq<u8>) -> PtoTarget {
    PtoTarget { target_counter_value: u32_le(b[0], b[1], b[2], b[3]) }
}

/// The used fields an encoder control window decodes back to.
pub open spec fn spec_enc_control_decode(b: Seq<u8>) -> EncControl {
    EncControl { set_counter: bit_u8(b[0], 2), set_counter_value: u32_le(b[2], b[3], b[4], b[5]) }
}

/// Encode/decode round trip for the PTO target object: decoding an encoded
/// target yields the target back, for every value.
pub proof fn lemma_pto_target_round_trip(x: PtoTarget)
    ensures
        spec_pto_target_decode(x.spec_write()) == x,
{
    crate::bits::lemma_u32_le_round_trip(x.target_counter_value);
}

/// Encode/decode round trip for the encoder control object's used bits:
/// decoding an encoded command yields the command back, for every value.
pub proof fn lemma_enc_control_round_trip(x: EncControl)
    ensures
        spec_enc_control_decode(x.spec_write()) == x,
{
    crate::bits::lemma_pack8_bits(false, false, x.set_counter, false, false, false, false, false);
    crate::bits::lemma_u32_le_round_trip(x.set_counter_value);
}

/// Toggle gating of the PTO status object: a decode of a window whose
/// toggle bit is clear keeps every non-toggle field, so a second decode of
/// the same stale window changes nothing beyond the toggle bit itself.
pub proof fn lemma_pto_status_stale_decode(pre: PtoStatus, bits: Seq<u8>)
    requires
        !bit_u8(bits[1], 7),
    ensures
        PtoStatus::spec_read(pre, bits) == (PtoStatus {
            select_end_counter: pre.select_end_counter,
            ramp_active: pre.ramp_active,
            input_t: pre.input_t,
            input_z: pre.input_z,
            error: pre.error,
            sync_error: pre.sync_error,
            txpdo_toggle: false,
        }),
{
}

/// Toggle gating of the encoder status object: a decode of a window whose
/// toggle bit is clear keeps every non-toggle field, the counter included.
pub proof fn lemma_enc_status_stale_decode(pre: EncStatus, bits: Seq<u8>)
    requires
        !bit_u8(bits[1], 7),
    ensures
        EncStatus::spec_read(pre, bits) == (EncStatus {
            set_counter_done: pre.set_counter_done,
            counter_underflow: pre.counter_underflow,
            counter_overflow: pre.counter_overflow,
            sync_error: pre.sync_error,
            txpdo_toggle: false,
            counter_value: pre.counter_value,
        }),
{
}

/// Bit isolation of the underflow flag: any fresh window with the underflow
/// bit set decodes to `counter_underflow == true`, whatever every other bit
/// holds.
pub proof fn lemma_underflow_bit_isolation(pre: EncStatus, bits: Seq<u8>)
    requires
        bit_u8(bits[1], 7),
        bit_u8(bits[0], 3),
    ensures
        EncStatus::spec_read(pre, bits).counter_underflow,
{
}

} // verus!
