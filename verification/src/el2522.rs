//! The EL2522 two-port pulse-train-output terminal.
//!
//! The terminal multiplexes two logical ports onto one physical process-data
//! image.  Each port owns two decoded status objects and one pending command
//! snapshot.  Once per bus cycle the caller runs the decode pass
//! ([`EL2522::cycle_input`]) over the port's inbound windows and the encode
//! pass ([`EL2522::cycle_output`]) into its outbound windows; in between,
//! application logic reads `get_input` and stages commands with `set_output`.
//!
//! The decode pass also enforces the counter-reset handshake: `set_counter`
//! is a level-triggered command, and leaving it asserted after the terminal
//! acknowledged would re-load the counter every cycle.  The pass therefore
//! deasserts the staged `set_counter` as soon as a decode reports
//! `set_counter_done`.

use vstd::prelude::*;

use crate::el252x::{
    EncControl, EncStatus, PtoControl, PtoStatus, PtoTarget, ENC_CONTROL_BITS, ENC_STATUS_BITS,
    PTO_CONTROL_BITS, PTO_STATUS_BITS, PTO_TARGET_BITS,
};
use crate::pdo::{RxPdoObject, TxPdoObject};
use crate::pulse_train_output::{
    raw_frequency_of_hz, spec_raw_frequency, PulseTrainOutputDevice, PulseTrainOutputInput,
    PulseTrainOutputOutput,
};

verus! {

/// One of the terminal's two statically known pulse-train ports.
#[derive(Debug, Clone, Copy, PartialEq, Eq, Structural)]
pub enum EL2522Port {
    /// The first pulse-train port.
    PTO1,
    /// The second pulse-train port.
    PTO2,
}

/// The per-port state: the two decoded status objects and the pending
/// command snapshot.
#[derive(Debug, Clone, Copy, PartialEq, Eq, Structural)]
pub struct El2522Channel {
    /// The PTO status decoded on the most recent cycle that sampled anew.
    pub pto_status: PtoStatus,
    /// The encoder status decoded on the most recent cycle that sampled
    /// anew.
    pub enc_status: EncStatus,
    /// The staged command; stable across cycles until replaced or until the
    /// set-counter handshake deasserts its request bit.
    pub output: PulseTrainOutputOutput,
}

/// The EL2522 terminal instance: two pulse-train channels.
#[derive(Debug, Clone, Copy, PartialEq, Eq, Structural)]
pub struct EL2522 {
    /// State of [`EL2522Port::PTO1`].
    pub port1: El2522Channel,
    /// State of [`EL2522Port::PTO2`].
    pub port2: El2522Channel,
}

/// The control object a staged command maps to.
///
/// Fields without a counterpart in the command snapshot stay clear; the
/// counter force-load goes through the encoder control object instead, since
/// the encoder status carries its acknowledgement.
pub open spec fn spec_control_of(o: PulseTrainOutputOutput) -> PtoControl {
    PtoControl {
        go_counter: o.go_counter,
        stop_counter: false,
        set_counter: false,
        reset_counter: false,
        select_end_counter: false,
        input_z_logic: false,
        reset: false,
        input_t_logic: false,
        disable_ramp: o.disable_ramp,
        frequency_select: o.frequency_select,
        control_toggle: false,
        frequency_value: spec_raw_frequency(o.frequency_value as int) as i16,
    }
}

/// The target object a staged command maps to.
pub open spec fn spec_target_of(o: PulseTrainOutputOutput) -> PtoTarget {
    PtoTarget { target_counter_value: o.target_counter_value }
}

/// The encoder control object a staged command maps to.
pub open spec fn spec_enc_control_of(o: PulseTrainOutputOutput) -> EncControl {
    EncControl { set_counter: o.set_counter, set_counter_value: o.set_counter_value }
}

/// The status snapshot a channel's decoded objects present: every flag
/// verbatim, the PTO-side freshness and synchronization flags from the PTO
/// status object, the counter flags and value from the encoder status.
pub open spec fn spec_input_of(ch: El2522Channel) -> PulseTrainOutputInput {
    PulseTrainOutputInput {
        select_end_counter: ch.pto_status.select_end_counter,
        ramp_active: ch.pto_status.ramp_active,
        input_t: ch.pto_status.input_t,
        input_z: ch.pto_status.input_z,
        error: ch.pto_status.error,
        sync_error: ch.pto_status.sync_error,
        txpdo_toggle: ch.pto_status.txpdo_toggle,
        set_counter_done: ch.enc_status.set_counter_done,
        counter_underflow: ch.enc_status.counter_underflow,
        counter_overflow: ch.enc_status.counter_overflow,
        counter_value: ch.enc_status.counter_value,
    }
}

/// A staged command with its set-counter request deasserted and everything
/// else kept.
pub open spec fn spec_clear_set_counter(o: PulseTrainOutputOutput) -> PulseTrainOutputOutput {
    PulseTrainOutputOutput {
        disable_ramp: o.disable_ramp,
        frequency_select: o.frequency_select,
        go_counter: o.go_counter,
        frequency_value: o.frequency_value,
        target_counter_value: o.target_counter_value,
        set_counter: false,
        set_counter_value: o.set_counter_value,
    }
}

/// What one decode pass does to a channel: both status objects take one
/// toggle-gated decode step, and the staged set-counter request is
/// deasserted as soon as the decoded encoder status acknowledges it.
pub open spec fn spec_channel_cycle_input(
    ch: El2522Channel,
    pto_bits: Seq<u8>,
    enc_bits: Seq<u8>,
) -> El2522Channel {
    let pto_status = PtoStatus::spec_read(ch.pto_status, pto_bits);
    let enc_status = EncStatus::spec_read(ch.enc_status, enc_bits);
    El2522Channel {
        pto_status,
        enc_status,
        output: if enc_status.set_counter_done {
            spec_clear_set_counter(ch.output)
        } else {
            ch.output
        },
    }
}

/// What one decode pass does to the terminal: the addressed port's channel
/// takes a decode step, the other port is untouched.
pub open spec fn spec_cycle_input(
    t: EL2522,
    port: EL2522Port,
    pto_bits: Seq<u8>,
    enc_bits: Seq<u8>,
) -> EL2522 {
    match port {
        EL2522Port::PTO1 => EL2522 {
            port1: spec_channel_cycle_input(t.port1, pto_bits, enc_bits),
            port2: t.port2,
        },
        EL2522Port::PTO2 => EL2522 {
            port1: t.port1,
            port2: spec_channel_cycle_input(t.port2, pto_bits, enc_bits),
        },
    }
}

/// The at-rest command snapshot: nothing staged, everything zero.
pub open spec fn spec_output_at_rest() -> PulseTrainOutputOutput {
    PulseTrainOutputOutput {
        disable_ramp: false,
        frequency_select: false,
        go_counter: false,
        frequency_value: 0,
        target_counter_value: 0,
        set_counter: false,
        set_counter_value: 0,
    }
}

/// The at-rest channel: default status objects, at-rest command.
pub open spec fn spec_channel_at_rest() -> El2522Channel {
    El2522Channel {
        pto_status: PtoStatus {
            select_end_counter: false,
            ramp_active: false,
            input_t: false,
            input_z: false,
            error: false,
            sync_error: false,
            txpdo_toggle: false,
        },
        enc_status: EncStatus {
            set_counter_done: false,
            counter_underflow: false,
            counter_overflow: false,
            sync_error: false,
            txpdo_toggle: false,
            counter_value: 0,
        },
        output: spec_output_at_rest(),
    }
}

impl El2522Channel {
    /// Runs one decode pass over this channel's inbound windows.
    fn cycle_input(&mut self, pto_bits: &[u8], enc_bits: &[u8])
        requires
            pto_bits@.len() * 8 == PTO_STATUS_BITS,
            enc_bits@.len() * 8 == ENC_STATUS_BITS,
        ensures
            *final(self) == spec_channel_cycle_input(*old(self), pto_bits@, enc_bits@),
    {
        self.pto_status.read(pto_bits);
        self.enc_status.read(enc_bits);
        if self.enc_status.set_counter_done {
            // The set-counter command is level-triggered: once the terminal
            // acknowledges, the request must be deasserted or the counter
            // would be re-loaded every following cycle.
            self.output.set_counter = false;
        }
    }
}

impl EL2522 {
    /// The channel a port addresses.
    pub open spec fn spec_channel(self, port: EL2522Port) -> El2522Channel {
        match port {
            EL2522Port::PTO1 => self.port1,
            EL2522Port::PTO2 => self.port2,
        }
    }

    /// Both staged commands fit the raw registers they encode into.
    pub open spec fn wf(self) -> bool {
        self.port1.output.wf() && self.port2.output.wf()
    }

    /// A terminal at rest: no command staged, no status decoded yet.
    pub fn new() -> (r: EL2522)
        ensures
            r == (EL2522 { port1: spec_channel_at_rest(), port2: spec_channel_at_rest() }),
            r.wf(),
    {
        let channel = El2522Channel {
            pto_status: PtoStatus::default(),
            enc_status: EncStatus::default(),
            output: PulseTrainOutputOutput {
                disable_ramp: false,
                frequency_select: false,
                go_counter: false,
                frequency_value: 0,
                target_counter_value: 0,
                set_counter: false,
                set_counter_value: 0,
            },
        };
        EL2522 { port1: channel, port2: channel }
    }

    /// Runs the decode pass for one port: decodes both status windows under
    /// the toggle handshake and deasserts an acknowledged set-counter
    /// request.  The other port is untouched.
    pub fn cycle_input(&mut self, port: EL2522Port, pto_bits: &[u8], enc_bits: &[u8])
        requires
            pto_bits@.len() * 8 == PTO_STATUS_BITS,
            enc_bits@.len() * 8 == ENC_STATUS_BITS,
        ensures
            *final(self) == spec_cycle_input(*old(self), port, pto_bits@, enc_bits@),
            old(self).wf() ==> final(self).wf(),
    {
        match port {
            EL2522Port::PTO1 => self.port1.cycle_input(pto_bits, enc_bits),
            EL2522Port::PTO2 => self.port2.cycle_input(pto_bits, enc_bits),
        }
    }

    /// Runs the encode pass for one port: maps the staged command onto the
    /// three control objects and writes each into its outbound window.
    pub fn cycle_output(
        &self,
        port: EL2522Port,
        control_bits: &mut Vec<u8>,
        target_bits: &mut Vec<u8>,
        enc_control_bits: &mut Vec<u8>,
    )
        requires
            self.spec_channel(port).output.wf(),
            old(control_bits)@.len() * 8 == PTO_CONTROL_BITS,
            old(target_bits)@.len() * 8 == PTO_TARGET_BITS,
            old(enc_control_bits)@.len() * 8 == ENC_CONTROL_BITS,
        ensures
            final(control_bits)@ == spec_control_of(self.spec_channel(port).output).spec_write(),
            final(target_bits)@ == spec_target_of(self.spec_channel(port).output).spec_write(),
            final(enc_control_bits)@ == spec_enc_control_of(
                self.spec_channel(port).output,
            ).spec_write(),
    {
        let output = self.get_output(port);
        control_of(&output).write(control_bits);
        target_of(&output).write(target_bits);
        enc_control_of(&output).write(enc_control_bits);
    }
}

/// Maps a staged command onto the PTO control object, converting the
/// frequency from hertz to the raw 0.01 Hz register value.
pub fn control_of(o: &PulseTrainOutputOutput) -> (r: PtoControl)
    requires
        o.wf(),
    ensures
        r == spec_control_of(*o),
{
    PtoControl {
        go_counter: o.go_counter,
        stop_counter: false,
        set_counter: false,
        reset_counter: false,
        select_end_counter: false,
        input_z_logic: false,
        reset: false,
        input_t_logic: false,
        disable_ramp: o.disable_ramp,
        frequency_select: o.frequency_select,
        control_toggle: false,
        frequency_value: raw_frequency_of_hz(o.frequency_value),
    }
}

/// Maps a staged command onto the PTO target object.
pub fn target_of(o: &PulseTrainOutputOutput) -> (r: PtoTarget)
    ensures
        r == spec_target_of(*o),
{
    PtoTarget { target_counter_value: o.target_counter_value }
}

/// Maps a staged command onto the encoder control object.
pub fn enc_control_of(o: &PulseTrainOutputOutput) -> (r: EncControl)
    ensures
        r == spec_enc_control_of(*o),
{
    EncControl { set_counter: o.set_counter, set_counter_value: o.set_counter_value }
}

impl PulseTrainOutputDevice<EL2522Port> for EL2522 {
    open spec fn spec_output(self, port: EL2522Port) -> PulseTrainOutputOutput {
        self.spec_channel(port).output
    }

    open spec fn spec_input(self, port: EL2522Port) -> PulseTrainOutputInput {
        spec_input_of(self.spec_channel(port))
    }

    fn set_output(&mut self, port: EL2522Port, value: PulseTrainOutputOutput) {
        match port {
            EL2522Port::PTO1 => self.port1.output = value,
            EL2522Port::PTO2 => self.port2.output = value,
        }
    }

    fn get_output(&self, port: EL2522Port) -> (r: PulseTrainOutputOutput) {
        match port {
            EL2522Port::PTO1 => self.port1.output,
            EL2522Port::PTO2 => self.port2.output,
        }
    }

    fn get_input(&self, port: EL2522Port) -> (r: PulseTrainOutputInput) {
        let ch = match port {
            EL2522Port::PTO1 => &self.port1,
            EL2522Port::PTO2 => &self.port2,
        };
        PulseTrainOutputInput {
            select_end_counter: ch.pto_status.select_end_counter,
            ramp_active: ch.pto_status.ramp_active,
            input_t: ch.pto_status.input_t,
            input_z: ch.pto_status.input_z,
            error: ch.pto_status.error,
            sync_error: ch.pto_status.sync_error,
            txpdo_toggle: ch.pto_status.txpdo_toggle,
            set_counter_done: ch.enc_status.set_counter_done,
            counter_underflow: ch.enc_status.counter_underflow,
            counter_overflow: ch.enc_status.counter_overflow,
            counter_value: ch.enc_status.counter_value,
        }
    }
}

/// The counter-reset handshake deasserts on acknowledgement: whatever
/// command is staged, a decode pass whose decoded encoder status reports
/// `set_counter_done` leaves the port's staged command with `set_counter`
/// clear, so the next encoded encoder control object carries no further
/// force-load request.
pub proof fn lemma_set_counter_deasserted(
    t: EL2522,
    port: EL2522Port,
    pto_bits: Seq<u8>,
    enc_bits: Seq<u8>,
)
    requires
        EncStatus::spec_read(t.spec_channel(port).enc_status, enc_bits).set_counter_done,
    ensures
        !spec_cycle_input(t, port, pto_bits, enc_bits).spec_channel(port).output.set_counter,
        !spec_enc_control_of(
            spec_cycle_input(t, port, pto_bits, enc_bits).spec_channel(port).output,
        ).set_counter,
{
}

} // verus!
