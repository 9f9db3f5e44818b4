//! The pulse-train-output channel abstraction.
//!
//! A device exposes one command snapshot ([`PulseTrainOutputOutput`]) and one
//! status snapshot ([`PulseTrainOutputInput`]) per logical port.  Snapshots
//! are unit-normalized: callers reason in whole hertz while the raw frequency
//! register counts 0.01 Hz, and in raw pulse counts for every position.

use vstd::prelude::*;

use vstd::arithmetic::div_mod::lemma_div_multiples_vanish;

verus! {

/// Raw frequency register counts per hertz: the register is in 0.01 Hz units.
pub const RAW_PER_HZ: i32 = 100;

/// The raw 0.01 Hz register value that a frequency in hertz encodes to.
pub open spec fn spec_raw_frequency(hz: int) -> int {
    100 * hz
}

/// The frequency in whole hertz that a raw 0.01 Hz register value decodes
/// to, rounding toward zero.
pub open spec fn spec_hz_of_raw(raw: int) -> int {
    if raw >= 0 {
        raw / 100
    } else {
        -((-raw) / 100)
    }
}

/// Whether a frequency in hertz fits the signed 16-bit raw register.
pub open spec fn frequency_in_range(hz: int) -> bool {
    i16::MIN <= spec_raw_frequency(hz) <= i16::MAX
}

/// Converts a frequency in hertz to the raw 0.01 Hz register value.
pub fn raw_frequency_of_hz(hz: i32) -> (r: i16)
    requires
        frequency_in_range(hz as int),
    ensures
        r as int == spec_raw_frequency(hz as int),
{
    (hz * RAW_PER_HZ) as i16
}

/// Converts a raw 0.01 Hz register value to whole hertz, rounding toward
/// zero.
pub fn hz_of_raw_frequency(raw: i16) -> (r: i32)
    ensures
        r as int == spec_hz_of_raw(raw as int),
{
    if raw >= 0 {
        let q: u16 = (raw as u16) / 100;
        q as i32
    } else {
        let mag: u32 = (-(raw as i32)) as u32;
        let q: u32 = mag / 100;
        -(q as i32)
    }
}

/// Unit conversion loses nothing: a frequency in whole hertz that fits the
/// raw register decodes back from its raw value exactly.
pub proof fn lemma_frequency_round_trip(hz: int)
    requires
        frequency_in_range(hz),
    ensures
        spec_hz_of_raw(spec_raw_frequency(hz)) == hz,
{
    if hz >= 0 {
        lemma_div_multiples_vanish(hz, 100);
    } else {
        lemma_div_multiples_vanish(-hz, 100);
        assert(-spec_raw_frequency(hz) == 100 * (-hz));
    }
}

/// The most recent decoded status snapshot of one pulse-train port.
///
/// Every flag surfaces verbatim from the status objects; freshness is gated
/// by the toggle handshake, so fields may lag the true device state while
/// the terminal produces no new samples.
#[derive(Debug, Clone, Copy, PartialEq, Eq, Structural)]
pub struct PulseTrainOutputInput {
    /// The end counter is selected.
    pub select_end_counter: bool,
    /// The frequency ramp is currently shaping output pulses.
    pub ramp_active: bool,
    /// State of the T input line.
    pub input_t: bool,
    /// State of the Z input line.
    pub input_z: bool,
    /// The terminal reports a fault; never cleared by this layer.
    pub error: bool,
    /// Synchronization error of the cyclic exchange.
    pub sync_error: bool,
    /// Freshness flag of the PTO status object's last decode.
    pub txpdo_toggle: bool,
    /// The terminal consumed a set-counter command.
    pub set_counter_done: bool,
    /// The position counter wrapped below zero.
    pub counter_underflow: bool,
    /// The position counter wrapped above its maximum.
    pub counter_overflow: bool,
    /// The position counted by the encoder, in pulses.
    pub counter_value: u32,
}

/// A pending command snapshot for one pulse-train port.
///
/// Staged by `set_output` and encoded whole into the outbound image each
/// cycle; it never decays between calls.
#[derive(Debug, Clone, Copy, PartialEq, Eq, Structural)]
pub struct PulseTrainOutputOutput {
    /// Bypass acceleration ramp shaping.
    pub disable_ramp: bool,
    /// Interpret the command's frequency instead of a configured profile.
    pub frequency_select: bool,
    /// Start pulse generation toward the target counter value.
    pub go_counter: bool,
    /// Pulse frequency in whole hertz, signed; the sign encodes direction.
    pub frequency_value: i32,
    /// Target position in pulses.
    pub target_counter_value: u32,
    /// Level-triggered request to force-load the position counter; the
    /// channel abstraction deasserts it once the terminal acknowledges.
    pub set_counter: bool,
    /// The value to force-load into the position counter.
    pub set_counter_value: u32,
}

impl PulseTrainOutputOutput {
    /// A command the device can encode: its frequency fits the raw register.
    pub open spec fn wf(self) -> bool {
        frequency_in_range(self.frequency_value as int)
    }
}

/// Whether a newly computed command differs from the staged one in a way
/// that calls for re-staging: a changed target, frequency or go flag, a new
/// set-counter request, or a sticky set-counter bit still to be cleared.
pub open spec fn spec_update_required(
    current: PulseTrainOutputOutput,
    desired: PulseTrainOutputOutput,
) -> bool {
    ||| current.target_counter_value != desired.target_counter_value
    ||| current.frequency_value != desired.frequency_value
    ||| current.go_counter != desired.go_counter
    ||| desired.set_counter
    ||| current.set_counter
}

impl PulseTrainOutputOutput {
    /// Compares this staged command against a newly computed one, so a
    /// caller can avoid re-staging an unchanged command every cycle.
    pub fn update_required(&self, desired: &PulseTrainOutputOutput) -> (r: bool)
        ensures
            r == spec_update_required(*self, *desired),
    {
        self.target_counter_value != desired.target_counter_value
            || self.frequency_value != desired.frequency_value
            || self.go_counter != desired.go_counter
            || desired.set_counter
            || self.set_counter
    }
}

/// The capability interface of a pulse-train-output device, addressed by
/// logical port.
///
/// `set_output` only stages a command: transmission happens on the device's
/// next encode pass.  `get_input` returns the last decoded snapshot, which
/// may lag the true device state under the toggle handshake.
pub trait PulseTrainOutputDevice<Port>: Sized {
    /// The command snapshot currently staged for a port.
    spec fn spec_output(self, port: Port) -> PulseTrainOutputOutput;

    /// The status snapshot most recently decoded for a port.
    spec fn spec_input(self, port: Port) -> PulseTrainOutputInput;

    /// Stages `value` as the port's pending command; every other port and
    /// all decoded status is untouched.
    fn set_output(&mut self, port: Port, value: PulseTrainOutputOutput)
        requires
            value.wf(),
        ensures
            final(self).spec_output(port) == value,
            forall|p: Port|
                p != port ==> #[trigger] final(self).spec_output(p) == old(self).spec_output(p),
            forall|p: Port| #[trigger] final(self).spec_input(p) == old(self).spec_input(p),
    ;

    /// Returns the staged command: the controller's intent, not a
    /// device-confirmed value.
    fn get_output(&self, port: Port) -> (r: PulseTrainOutputOutput)
        ensures
            r == self.spec_output(port),
    ;

    /// Returns the most recent decoded status snapshot.
    fn get_input(&self, port: Port) -> (r: PulseTrainOutputInput)
        ensures
            r == self.spec_input(port),
    ;
}

} // verus!
