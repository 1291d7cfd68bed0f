//! The panel driver: control-word serialization and the frame/row
//! sequencing state machine for the ED047TC1 electrophoretic panel.

use vstd::prelude::*;

use crate::Action;
use crate::Error;
use crate::rmt::Rmt;
use crate::rmt::PulseOutcome;
use crate::rmt::outcome_ok;
use crate::rmt::pulse_actions;
use crate::rmt::pulse_present_after;
use crate::rmt::pulse_result;

verus! {

/// The capacity of the row buffer: one row's worth of panel bytes.
pub const DMA_BUFFER_SIZE: usize = 240;

/// Settling delay, in cycles, after switching the power-enable signal or
/// one of the rails on.
pub const DELAY_SETTLE: u32 = 100 * 240;

/// Longer settling delay, in cycles, after the negative rail comes on.
pub const DELAY_NEG_SETTLE: u32 = 500 * 240;

/// Short delay, in cycles, after releasing power enable and the positive
/// rail on power-down.
pub const DELAY_RELEASE: u32 = 10 * 240;

/// The 8-bit panel configuration word. Each field is one bit of the
/// serial shift register; the serialization order is fixed by the wiring
/// and given by [`write_actions`]. Power-up defaults: `power_disable` and
/// `stv` set, everything else clear.
#[derive(Clone, Copy, PartialEq, Eq, Structural, Debug)]
pub struct ConfigRegister {
    pub latch_enable: bool,
    pub power_disable: bool,
    pub pos_power_enable: bool,
    pub neg_power_enable: bool,
    /// Start-of-frame (scan direction) signal.
    pub stv: bool,
    pub power_enable: bool,
    pub mode: bool,
    pub output_enable: bool,
}

impl ConfigRegister {
    /// The power-up configuration: panel held in power-down, start-of-frame
    /// asserted, everything else clear.
    pub open spec fn default_spec() -> ConfigRegister {
        ConfigRegister {
            latch_enable: false,
            power_disable: true,
            pos_power_enable: false,
            neg_power_enable: false,
            stv: true,
            power_enable: false,
            mode: false,
            output_enable: false,
        }
    }
}

impl Default for ConfigRegister {
    /// The power-up configuration.
    fn default() -> (r: ConfigRegister)
        ensures
            r == ConfigRegister::default_spec(),
    {
        ConfigRegister {
            latch_enable: false,
            power_disable: true,
            pos_power_enable: false,
            neg_power_enable: false,
            stv: true,
            power_enable: false,
            mode: false,
            output_enable: false,
        }
    }
}

/// The three line toggles that shift one bit into the register: clock
/// low, data to the bit's value, clock high.
pub open spec fn shift_bit_actions(v: bool) -> Seq<Action> {
    seq![Action::SetClk(false), Action::SetData(v), Action::SetClk(true)]
}

/// The full serialization of one configuration word: latch low, the 8
/// fields shifted in fixed order (from last-shifted to first-shifted:
/// output_enable, mode, power_enable, stv, neg_power_enable,
/// pos_power_enable, power_disable, latch_enable), latch high.
pub open spec fn write_actions(c: ConfigRegister) -> Seq<Action> {
    seq![Action::SetLatch(false)]
        + shift_bit_actions(c.output_enable)
        + shift_bit_actions(c.mode)
        + shift_bit_actions(c.power_enable)
        + shift_bit_actions(c.stv)
        + shift_bit_actions(c.neg_power_enable)
        + shift_bit_actions(c.pos_power_enable)
        + shift_bit_actions(c.power_disable)
        + shift_bit_actions(c.latch_enable)
        + seq![Action::SetLatch(true)]
}

/// The control-word writer: holds the current configuration word and
/// serializes it over the 3-wire (data/clock/latch) bus on every `write`.
pub struct ConfigWriter {
    pub config: ConfigRegister,
}

impl ConfigWriter {
    /// A fresh writer holding the power-up configuration.
    pub fn new() -> (r: ConfigWriter)
        ensures
            r.config == ConfigRegister::default_spec(),
    {
        ConfigWriter { config: ConfigRegister::default() }
    }

    /// Shift one bit: clock low, data line to the bit, clock high.
    fn write_bool(v: bool, trace: &mut Vec<Action>)
        ensures
            final(trace)@ == old(trace)@ + shift_bit_actions(v),
    {
        trace.push(Action::SetClk(false));
        trace.push(Action::SetData(v));
        trace.push(Action::SetClk(true));
        proof {
            assert(final(trace)@ =~= old(trace)@ + shift_bit_actions(v));
        }
    }

    /// Serialize the current configuration word: exactly the toggle
    /// sequence of [`write_actions`], with no other bus traffic
    /// interleaved. Cannot fail.
    pub fn write(&self, trace: &mut Vec<Action>)
        ensures
            final(trace)@ == old(trace)@ + write_actions(self.config),
    {
        let c = self.config;
        let ghost t0 = trace@;
        let ghost q1 = seq![Action::SetLatch(false)];
        trace.push(Action::SetLatch(false));
        proof {
            crate::lemma_push_concat(t0, Action::SetLatch(false));
        }
        let ghost q2 = q1 + shift_bit_actions(c.output_enable);
        ConfigWriter::write_bool(c.output_enable, trace);
        proof {
            crate::lemma_concat_assoc(t0, q1, shift_bit_actions(c.output_enable));
        }
        let ghost q3 = q2 + shift_bit_actions(c.mode);
        ConfigWriter::write_bool(c.mode, trace);
        proof {
            crate::lemma_concat_assoc(t0, q2, shift_bit_actions(c.mode));
        }
        let ghost q4 = q3 + shift_bit_actions(c.power_enable);
        ConfigWriter::write_bool(c.power_enable, trace);
        proof {
            crate::lemma_concat_assoc(t0, q3, shift_bit_actions(c.power_enable));
        }
        let ghost q5 = q4 + shift_bit_actions(c.stv);
        ConfigWriter::write_bool(c.stv, trace);
        proof {
            crate::lemma_concat_assoc(t0, q4, shift_bit_actions(c.stv));
        }
        let ghost q6 = q5 + shift_bit_actions(c.neg_power_enable);
        ConfigWriter::write_bool(c.neg_power_enable, trace);
        proof {
            crate::lemma_concat_assoc(t0, q5, shift_bit_actions(c.neg_power_enable));
        }
        let ghost q7 = q6 + shift_bit_actions(c.pos_power_enable);
        ConfigWriter::write_bool(c.pos_power_enable, trace);
        proof {
            crate::lemma_concat_assoc(t0, q6, shift_bit_actions(c.pos_power_enable));
        }
        let ghost q8 = q7 + shift_bit_actions(c.power_disable);
        ConfigWriter::write_bool(c.power_disable, trace);
        proof {
            crate::lemma_concat_assoc(t0, q7, shift_bit_actions(c.power_disable));
        }
        let ghost q9 = q8 + shift_bit_actions(c.latch_enable);
        ConfigWriter::write_bool(c.latch_enable, trace);
        proof {
            crate::lemma_concat_assoc(t0, q8, shift_bit_actions(c.latch_enable));
        }
        let ghost q10 = q9 + seq![Action::SetLatch(true)];
        trace.push(Action::SetLatch(true));
        proof {
            crate::lemma_push_concat(t0 + q9, Action::SetLatch(true));
            crate::lemma_concat_assoc(t0, q9, seq![Action::SetLatch(true)]);
            assert(q10 == write_actions(c));
        }
    }
}

/// Compute the cycle count a busy-wait delay spins until: the current
/// counter reading plus the requested number of cycles. The caller reads
/// the counter and spins while it is below the returned target.
pub fn busy_delay(now: u64, wait_cycles: u32) -> (target: u64)
    requires
        now + wait_cycles <= u64::MAX,
    ensures
        target == now + wait_cycles,
{
    now + wait_cycles as u64
}

/// Whether a busy-wait delay with the given target is over at the given
/// counter reading.
pub fn delay_elapsed(now: u64, target: u64) -> (r: bool)
    ensures
        r == (now >= target),
{
    now >= target
}

/// One row's worth of panel bytes, owned by exactly one component at a
/// time: the driver between transfers, the transfer engine during one.
pub struct RowBuffer {
    pub data: Vec<u8>,
}

/// The outcome of the hardware side of one row transfer, handed in by the
/// caller: whether the transfer was issued, and whether it ran to
/// completion.
#[derive(Clone, Copy, PartialEq, Eq, Structural, Debug)]
pub struct TransferOutcome {
    /// The transfer request was accepted by the parallel-bus engine.
    pub issue_ok: bool,
    /// The transfer ran to completion.
    pub complete_ok: bool,
}

/// A row image of capacity `cap`: the given bytes in the prefix (cut to
/// the capacity) and zeroes in the rest.
pub open spec fn filled_row(cap: nat, data: Seq<u8>) -> Seq<u8> {
    Seq::new(cap, |i: int| if i < data.len() { data[i] } else { 0u8 })
}

/// Build a row image of capacity `cap`: `data` in the prefix, zeroes
/// after it; bytes of `data` beyond the capacity are dropped.
fn fill_row(cap: usize, data: &[u8]) -> (out: Vec<u8>)
    ensures
        out@ == filled_row(cap as nat, data@),
{
    let mut out: Vec<u8> = Vec::new();
    let mut i: usize = 0;
    while i < cap
        invariant
            i <= cap,
            out@.len() == i,
            forall|j: int| 0 <= j < i ==> out@[j] == filled_row(cap as nat, data@)[j],
        decreases cap - i,
    {
        if i < data.len() {
            out.push(data[i]);
        } else {
            out.push(0u8);
        }
        i += 1;
    }
    proof {
        assert(out@ =~= filled_row(cap as nat, data@));
    }
    out
}

/// The configuration after the power-up sequence: both rails and the
/// power-enable signal on, power-down released, start-of-frame asserted.
pub open spec fn power_on_config(c0: ConfigRegister) -> ConfigRegister {
    ConfigRegister {
        power_enable: true,
        power_disable: false,
        neg_power_enable: true,
        pos_power_enable: true,
        stv: true,
        ..c0
    }
}

/// The serial writes and busy-wait delays of the power-up sequence, in
/// order: power on and power-down released, settle; negative rail, long
/// settle; positive rail, settle; start-of-frame.
pub open spec fn power_on_actions(c0: ConfigRegister) -> Seq<Action> {
    let c1 = ConfigRegister { power_enable: true, power_disable: false, ..c0 };
    let c2 = ConfigRegister { neg_power_enable: true, ..c1 };
    let c3 = ConfigRegister { pos_power_enable: true, ..c2 };
    let c4 = ConfigRegister { stv: true, ..c3 };
    write_actions(c1) + seq![Action::Delay(DELAY_SETTLE)]
        + write_actions(c2) + seq![Action::Delay(DELAY_NEG_SETTLE)]
        + write_actions(c3) + seq![Action::Delay(DELAY_SETTLE)]
        + write_actions(c4)
}

/// The configuration after the power-down sequence: rails and power
/// enable off, power-down asserted, mode and start-of-frame cleared.
pub open spec fn power_off_config(c0: ConfigRegister) -> ConfigRegister {
    ConfigRegister {
        power_enable: false,
        pos_power_enable: false,
        neg_power_enable: false,
        power_disable: true,
        mode: false,
        stv: false,
        ..c0
    }
}

/// The serial writes and busy-wait delays of the power-down sequence.
/// Only three writes happen: power-down assertion, mode clear and
/// start-of-frame clear are flushed together by the last one — a
/// documented asymmetry with the power-up sequence.
pub open spec fn power_off_actions(c0: ConfigRegister) -> Seq<Action> {
    let c1 = ConfigRegister { power_enable: false, pos_power_enable: false, ..c0 };
    let c2 = ConfigRegister { neg_power_enable: false, ..c1 };
    let c3 = ConfigRegister { power_disable: true, mode: false, stv: false, ..c2 };
    write_actions(c1) + seq![Action::Delay(DELAY_RELEASE)]
        + write_actions(c2) + seq![Action::Delay(DELAY_SETTLE)]
        + write_actions(c3)
}

/// The two serial writes that realize one electrical latch pulse: the
/// word with latch enable set, then the word with it clear again.
pub open spec fn latch_row_actions(c0: ConfigRegister) -> Seq<Action> {
    write_actions(ConfigRegister { latch_enable: true, ..c0 })
        + write_actions(ConfigRegister { latch_enable: false, ..c0 })
}

/// A power-up immediately followed by a power-down restores the panel to
/// its resting state: power-down asserted and start-of-frame clear, with
/// the output-enable and latch signals untouched by either sequence.
pub proof fn lemma_power_cycle(c0: ConfigRegister)
    ensures
        power_off_config(power_on_config(c0)) == (ConfigRegister {
            power_enable: false,
            pos_power_enable: false,
            neg_power_enable: false,
            power_disable: true,
            mode: false,
            stv: false,
            ..c0
        }),
        power_off_config(power_on_config(c0)).power_disable,
        !power_off_config(power_on_config(c0)).stv,
        power_off_config(power_on_config(c0)).output_enable == c0.output_enable,
        power_off_config(power_on_config(c0)).latch_enable == c0.latch_enable,
{
}


/// Everything `frame_start` does, as a function of the configuration
/// word, the channel presence and the hardware outcomes of the (up to)
/// seven pulses it issues: the result, the final configuration word, the
/// final channel presence and the emitted requests, cut short at the
/// first failing pulse.
pub open spec fn frame_start_spec(
    c0: ConfigRegister,
    p0: bool,
    hw: Seq<PulseOutcome>,
) -> (Result<(), Error>, ConfigRegister, bool, Seq<Action>) {
    let c1 = ConfigRegister { mode: true, ..c0 };
    let p1 = pulse_present_after(p0, true, hw[0]);
    let t1 = write_actions(c1) + pulse_actions(p0, 10, 10, true, hw[0]);
    if pulse_result(p0, true, hw[0]) is Err {
        (pulse_result(p0, true, hw[0]), c1, p1, t1)
    } else {
        let c2 = ConfigRegister { stv: false, ..c1 };
        let p2 = pulse_present_after(p1, false, hw[1]);
        let t2 = t1 + write_actions(c2) + pulse_actions(p1, 10000, 1000, false, hw[1]);
        if pulse_result(p1, false, hw[1]) is Err {
            (pulse_result(p1, false, hw[1]), c2, p2, t2)
        } else {
            let c3 = ConfigRegister { stv: true, ..c2 };
            let p3 = pulse_present_after(p2, true, hw[2]);
            let t3 = t2 + write_actions(c3) + pulse_actions(p2, 10, 10, true, hw[2]);
            if pulse_result(p2, true, hw[2]) is Err {
                (pulse_result(p2, true, hw[2]), c3, p3, t3)
            } else {
                let p4 = pulse_present_after(p3, true, hw[3]);
                let t4 = t3 + pulse_actions(p3, 10, 10, true, hw[3]);
                if pulse_result(p3, true, hw[3]) is Err {
                    (pulse_result(p3, true, hw[3]), c3, p4, t4)
                } else {
                    let p5 = pulse_present_after(p4, true, hw[4]);
                    let t5 = t4 + pulse_actions(p4, 10, 10, true, hw[4]);
                    if pulse_result(p4, true, hw[4]) is Err {
                        (pulse_result(p4, true, hw[4]), c3, p5, t5)
                    } else {
                        let p6 = pulse_present_after(p5, true, hw[5]);
                        let t6 = t5 + pulse_actions(p5, 10, 10, true, hw[5]);
                        if pulse_result(p5, true, hw[5]) is Err {
                            (pulse_result(p5, true, hw[5]), c3, p6, t6)
                        } else {
                            let c4 = ConfigRegister { output_enable: true, ..c3 };
                            let p7 = pulse_present_after(p6, true, hw[6]);
                            let t7 = t6 + write_actions(c4) + pulse_actions(p6, 10, 10, true, hw[6]);
                            (pulse_result(p6, true, hw[6]), c4, p7, t7)
                        }
                    }
                }
            }
        }
    }
}

/// Everything `frame_end` does, in the same shape as
/// [`frame_start_spec`]: output disabled and mode asserted (two writes),
/// then two awaited strobes.
pub open spec fn frame_end_spec(
    c0: ConfigRegister,
    p0: bool,
    hw: Seq<PulseOutcome>,
) -> (Result<(), Error>, ConfigRegister, bool, Seq<Action>) {
    let c1 = ConfigRegister { output_enable: false, ..c0 };
    let c2 = ConfigRegister { mode: true, ..c1 };
    let p1 = pulse_present_after(p0, true, hw[0]);
    let t1 = write_actions(c1) + write_actions(c2) + pulse_actions(p0, 10, 10, true, hw[0]);
    if pulse_result(p0, true, hw[0]) is Err {
        (pulse_result(p0, true, hw[0]), c2, p1, t1)
    } else {
        let p2 = pulse_present_after(p1, true, hw[1]);
        let t2 = t1 + pulse_actions(p1, 10, 10, true, hw[1]);
        (pulse_result(p1, true, hw[1]), c2, p2, t2)
    }
}

/// One frame bracket (`frame_start`, then `frame_end`, no rows output in
/// between) completes without error when the hardware is sound, and the
/// bracket is idempotent under that usage: the mode and output-enable
/// signals come out the same after every repetition of the bracket.
pub proof fn lemma_frame_bracket_idempotent(
    c0: ConfigRegister,
    p0: bool,
    hwa: Seq<PulseOutcome>,
    hwb: Seq<PulseOutcome>,
    hwc: Seq<PulseOutcome>,
    hwd: Seq<PulseOutcome>,
)
    requires
        forall|i: int| 0 <= i < 7 ==> outcome_ok(#[trigger] hwa[i]),
        forall|i: int| 0 <= i < 2 ==> outcome_ok(#[trigger] hwb[i]),
        forall|i: int| 0 <= i < 7 ==> outcome_ok(#[trigger] hwc[i]),
        forall|i: int| 0 <= i < 2 ==> outcome_ok(#[trigger] hwd[i]),
    ensures
        ({
            let (r1, c1, p1, t1) = frame_start_spec(c0, p0, hwa);
            let (r2, c2, p2, t2) = frame_end_spec(c1, p1, hwb);
            let (r3, c3, p3, t3) = frame_start_spec(c2, p2, hwc);
            let (r4, c4, p4, t4) = frame_end_spec(c3, p3, hwd);
            &&& r1 is Ok
            &&& r2 is Ok
            &&& r3 is Ok
            &&& r4 is Ok
            &&& c2.mode && !c2.output_enable
            &&& c4.mode == c2.mode
            &&& c4.output_enable == c2.output_enable
        }),
{
}

/// The panel driver: owns the control-word writer, the pulse
/// transmitter, the parallel-bus transfer engine and the row buffer, and
/// sequences them through power-up, frame brackets, row output and
/// power-down. The engine and the buffer are modeled by their presence in
/// driver storage; both are lent out for the duration of one transfer and
/// reclaimed on every exit path of a transfer that was issued.
pub struct ED047TC1 {
    pub cfg_writer: ConfigWriter,
    pub rmt: Rmt,
    /// Whether the parallel-bus transfer engine is in driver storage.
    pub i8080_present: bool,
    /// The row buffer, in driver storage between transfers.
    pub dma_buf: Option<RowBuffer>,
}

impl ED047TC1 {
    /// A fresh driver: power-up configuration word (serialized once, the
    /// only requests `new` emits), no pulse channel acquired yet, the
    /// transfer engine in storage, and a zeroed row buffer of
    /// [`DMA_BUFFER_SIZE`] bytes.
    pub fn new(trace: &mut Vec<Action>) -> (d: ED047TC1)
        ensures
            d.cfg_writer.config == ConfigRegister::default_spec(),
            !d.rmt.tx_channel_present,
            d.i8080_present,
            d.dma_buf is Some,
            d.dma_buf->Some_0.data@ == filled_row(DMA_BUFFER_SIZE as nat, Seq::<u8>::empty()),
            final(trace)@ == old(trace)@ + write_actions(ConfigRegister::default_spec()),
    {
        let cfg_writer = ConfigWriter::new();
        cfg_writer.write(trace);
        let no_data: Vec<u8> = Vec::new();
        let row = fill_row(DMA_BUFFER_SIZE, no_data.as_slice());
        ED047TC1 {
            cfg_writer,
            rmt: Rmt::new(),
            i8080_present: true,
            dma_buf: Some(RowBuffer { data: row }),
        }
    }

    /// Power the panel up: power enable on and power-down released, then
    /// the negative rail, then the positive rail, then start-of-frame,
    /// each flushed and followed by its settling delay. Cannot fail.
    pub fn power_on(&mut self, trace: &mut Vec<Action>)
        ensures
            final(self).cfg_writer.config == power_on_config(old(self).cfg_writer.config),
            final(self).rmt == old(self).rmt,
            final(self).i8080_present == old(self).i8080_present,
            final(self).dma_buf == old(self).dma_buf,
            final(trace)@ == old(trace)@ + power_on_actions(old(self).cfg_writer.config),
    {
        let ghost t0 = trace@;
        self.cfg_writer.config.power_enable = true;
        self.cfg_writer.config.power_disable = false;
        self.cfg_writer.write(trace);
        let ghost q1 = write_actions(self.cfg_writer.config);
        trace.push(Action::Delay(DELAY_SETTLE));
        proof {
            crate::lemma_push_concat(t0 + q1, Action::Delay(DELAY_SETTLE));
            crate::lemma_concat_assoc(t0, q1, seq![Action::Delay(DELAY_SETTLE)]);
        }
        let ghost q2 = q1 + seq![Action::Delay(DELAY_SETTLE)];
        self.cfg_writer.config.neg_power_enable = true;
        self.cfg_writer.write(trace);
        proof {
            crate::lemma_concat_assoc(t0, q2, write_actions(self.cfg_writer.config));
        }
        let ghost q3 = q2 + write_actions(self.cfg_writer.config);
        trace.push(Action::Delay(DELAY_NEG_SETTLE));
        proof {
            crate::lemma_push_concat(t0 + q3, Action::Delay(DELAY_NEG_SETTLE));
            crate::lemma_concat_assoc(t0, q3, seq![Action::Delay(DELAY_NEG_SETTLE)]);
        }
        let ghost q4 = q3 + seq![Action::Delay(DELAY_NEG_SETTLE)];
        self.cfg_writer.config.pos_power_enable = true;
        self.cfg_writer.write(trace);
        proof {
            crate::lemma_concat_assoc(t0, q4, write_actions(self.cfg_writer.config));
        }
        let ghost q5 = q4 + write_actions(self.cfg_writer.config);
        trace.push(Action::Delay(DELAY_SETTLE));
        proof {
            crate::lemma_push_concat(t0 + q5, Action::Delay(DELAY_SETTLE));
            crate::lemma_concat_assoc(t0, q5, seq![Action::Delay(DELAY_SETTLE)]);
        }
        let ghost q6 = q5 + seq![Action::Delay(DELAY_SETTLE)];
        self.cfg_writer.config.stv = true;
        self.cfg_writer.write(trace);
        proof {
            crate::lemma_concat_assoc(t0, q6, write_actions(self.cfg_writer.config));
        }
    }

    /// Power the panel down: power enable and the positive rail off
    /// together, settle; the negative rail off, settle; then power-down
    /// asserted with mode and start-of-frame cleared, flushed in one
    /// final write (the documented asymmetry with `power_on`). Cannot
    /// fail.
    pub fn power_off(&mut self, trace: &mut Vec<Action>)
        ensures
            final(self).cfg_writer.config == power_off_config(old(self).cfg_writer.config),
            final(self).rmt == old(self).rmt,
            final(self).i8080_present == old(self).i8080_present,
            final(self).dma_buf == old(self).dma_buf,
            final(trace)@ == old(trace)@ + power_off_actions(old(self).cfg_writer.config),
    {
        let ghost t0 = trace@;
        self.cfg_writer.config.power_enable = false;
        self.cfg_writer.config.pos_power_enable = false;
        self.cfg_writer.write(trace);
        let ghost q1 = write_actions(self.cfg_writer.config);
        trace.push(Action::Delay(DELAY_RELEASE));
        proof {
            crate::lemma_push_concat(t0 + q1, Action::Delay(DELAY_RELEASE));
            crate::lemma_concat_assoc(t0, q1, seq![Action::Delay(DELAY_RELEASE)]);
        }
        let ghost q2 = q1 + seq![Action::Delay(DELAY_RELEASE)];
        self.cfg_writer.config.neg_power_enable = false;
        self.cfg_writer.write(trace);
        proof {
            crate::lemma_concat_assoc(t0, q2, write_actions(self.cfg_writer.config));
        }
        let ghost q3 = q2 + write_actions(self.cfg_writer.config);
        trace.push(Action::Delay(DELAY_SETTLE));
        proof {
            crate::lemma_push_concat(t0 + q3, Action::Delay(DELAY_SETTLE));
            crate::lemma_concat_assoc(t0, q3, seq![Action::Delay(DELAY_SETTLE)]);
        }
        let ghost q4 = q3 + seq![Action::Delay(DELAY_SETTLE)];
        self.cfg_writer.config.power_disable = true;
        self.cfg_writer.config.mode = false;
        // The word with power-down and the cleared mode is deliberately
        // not flushed on its own: start-of-frame is cleared first and all
        // three leave with the final write.
        self.cfg_writer.config.stv = false;
        self.cfg_writer.write(trace);
        proof {
            crate::lemma_concat_assoc(t0, q4, write_actions(self.cfg_writer.config));
        }
    }

    /// Strobe the row latch: one write with latch enable set, one with it
    /// clear. Leaves latch enable clear. Cannot fail.
    pub fn latch_row(&mut self, trace: &mut Vec<Action>)
        ensures
            final(self).cfg_writer.config == (ConfigRegister {
                latch_enable: false,
                ..old(self).cfg_writer.config
            }),
            final(self).rmt == old(self).rmt,
            final(self).i8080_present == old(self).i8080_present,
            final(self).dma_buf == old(self).dma_buf,
            final(trace)@ == old(trace)@ + latch_row_actions(old(self).cfg_writer.config),
    {
        let ghost t0 = trace@;
        self.cfg_writer.config.latch_enable = true;
        self.cfg_writer.write(trace);
        let ghost q1 = write_actions(self.cfg_writer.config);
        self.cfg_writer.config.latch_enable = false;
        self.cfg_writer.write(trace);
        proof {
            crate::lemma_concat_assoc(t0, q1, write_actions(self.cfg_writer.config));
        }
    }

    /// Advance the scan position one row without transferring pixel data:
    /// a single fire-and-forget strobe of 45 ticks high, 5 low. The pulse
    /// channel is left consumed, as after any unawaited transmission.
    pub fn skip(&mut self, hw: PulseOutcome, trace: &mut Vec<Action>) -> (r: Result<(), Error>)
        ensures
            r == pulse_result(old(self).rmt.tx_channel_present, false, hw),
            final(self).rmt.tx_channel_present == pulse_present_after(
                old(self).rmt.tx_channel_present,
                false,
                hw,
            ),
            final(self).cfg_writer == old(self).cfg_writer,
            final(self).i8080_present == old(self).i8080_present,
            final(self).dma_buf == old(self).dma_buf,
            final(trace)@ == old(trace)@ + pulse_actions(
                old(self).rmt.tx_channel_present,
                45,
                5,
                false,
                hw,
            ),
    {
        match self.rmt.pulse(45, 5, false, hw, trace) {
            Err(e) => Err(e),
            Ok(()) => Ok(()),
        }
    }


    /// Open one frame: assert mode, strobe; drop start-of-frame, fire the
    /// long scan strobe without waiting; reassert start-of-frame and
    /// strobe four times; enable output and strobe once more. Each write
    /// is flushed before the strobe that follows it. Stops at the first
    /// pulse failure and propagates its error; the writes already made
    /// stay in effect. The full behaviour is [`frame_start_spec`] of the
    /// prior configuration, the prior channel presence and the seven
    /// pulse outcomes.
    #[verifier::rlimit(100)]
    pub fn frame_start(&mut self, hw: [PulseOutcome; 7], trace: &mut Vec<Action>) -> (r: Result<
        (),
        Error,
    >)
        ensures
            final(self).i8080_present == old(self).i8080_present,
            final(self).dma_buf == old(self).dma_buf,
            ({
                let (sr, sc, sp, st) = frame_start_spec(
                    old(self).cfg_writer.config,
                    old(self).rmt.tx_channel_present,
                    hw@,
                );
                &&& r == sr
                &&& final(self).cfg_writer.config == sc
                &&& final(self).rmt.tx_channel_present == sp
                &&& final(trace)@ == old(trace)@ + st
            }),
    {
        let ghost c0 = self.cfg_writer.config;
        let ghost p0 = self.rmt.tx_channel_present;
        let ghost t0 = trace@;

        self.cfg_writer.config.mode = true;
        self.cfg_writer.write(trace);
        let ghost q1 = write_actions(self.cfg_writer.config);
        let r1 = self.rmt.pulse(10, 10, true, hw[0], trace);
        proof {
            crate::lemma_concat_assoc(t0, q1, pulse_actions(p0, 10, 10, true, hw@[0]));
        }
        let ghost q2 = q1 + pulse_actions(p0, 10, 10, true, hw@[0]);
        let ghost p1 = pulse_present_after(p0, true, hw@[0]);
        match r1 {
            Err(e) => {
                return Err(e);
            },
            Ok(()) => {},
        }

        self.cfg_writer.config.stv = false;
        self.cfg_writer.write(trace);
        proof {
            crate::lemma_concat_assoc(t0, q2, write_actions(self.cfg_writer.config));
        }
        let ghost q3 = q2 + write_actions(self.cfg_writer.config);
        let r2 = self.rmt.pulse(10000, 1000, false, hw[1], trace);
        proof {
            crate::lemma_concat_assoc(t0, q3, pulse_actions(p1, 10000, 1000, false, hw@[1]));
        }
        let ghost q4 = q3 + pulse_actions(p1, 10000, 1000, false, hw@[1]);
        let ghost p2 = pulse_present_after(p1, false, hw@[1]);
        match r2 {
            Err(e) => {
                return Err(e);
            },
            Ok(()) => {},
        }

        self.cfg_writer.config.stv = true;
        self.cfg_writer.write(trace);
        proof {
            crate::lemma_concat_assoc(t0, q4, write_actions(self.cfg_writer.config));
        }
        let ghost q5 = q4 + write_actions(self.cfg_writer.config);
        let r3 = self.rmt.pulse(10, 10, true, hw[2], trace);
        proof {
            crate::lemma_concat_assoc(t0, q5, pulse_actions(p2, 10, 10, true, hw@[2]));
        }
        let ghost q6 = q5 + pulse_actions(p2, 10, 10, true, hw@[2]);
        let ghost p3 = pulse_present_after(p2, true, hw@[2]);
        match r3 {
            Err(e) => {
                return Err(e);
            },
            Ok(()) => {},
        }

        let r4 = self.rmt.pulse(10, 10, true, hw[3], trace);
        proof {
            crate::lemma_concat_assoc(t0, q6, pulse_actions(p3, 10, 10, true, hw@[3]));
        }
        let ghost q7 = q6 + pulse_actions(p3, 10, 10, true, hw@[3]);
        let ghost p4 = pulse_present_after(p3, true, hw@[3]);
        match r4 {
            Err(e) => {
                return Err(e);
            },
            Ok(()) => {},
        }

        let r5 = self.rmt.pulse(10, 10, true, hw[4], trace);
        proof {
            crate::lemma_concat_assoc(t0, q7, pulse_actions(p4, 10, 10, true, hw@[4]));
        }
        let ghost q8 = q7 + pulse_actions(p4, 10, 10, true, hw@[4]);
        let ghost p5 = pulse_present_after(p4, true, hw@[4]);
        match r5 {
            Err(e) => {
                return Err(e);
            },
            Ok(()) => {},
        }

        let r6 = self.rmt.pulse(10, 10, true, hw[5], trace);
        proof {
            crate::lemma_concat_assoc(t0, q8, pulse_actions(p5, 10, 10, true, hw@[5]));
        }
        let ghost q9 = q8 + pulse_actions(p5, 10, 10, true, hw@[5]);
        let ghost p6 = pulse_present_after(p5, true, hw@[5]);
        match r6 {
            Err(e) => {
                return Err(e);
            },
            Ok(()) => {},
        }

        self.cfg_writer.config.output_enable = true;
        self.cfg_writer.write(trace);
        proof {
            crate::lemma_concat_assoc(t0, q9, write_actions(self.cfg_writer.config));
        }
        let ghost q10 = q9 + write_actions(self.cfg_writer.config);
        let r7 = self.rmt.pulse(10, 10, true, hw[6], trace);
        proof {
            crate::lemma_concat_assoc(t0, q10, pulse_actions(p6, 10, 10, true, hw@[6]));
        }
        match r7 {
            Err(e) => Err(e),
            Ok(()) => Ok(()),
        }
    }

    /// Close one frame: disable output, assert mode (two writes), then
    /// two awaited strobes. Stops at the first pulse failure and
    /// propagates its error. The full behaviour is [`frame_end_spec`].
    pub fn frame_end(&mut self, hw: [PulseOutcome; 2], trace: &mut Vec<Action>) -> (r: Result<
        (),
        Error,
    >)
        ensures
            final(self).i8080_present == old(self).i8080_present,
            final(self).dma_buf == old(self).dma_buf,
            ({
                let (sr, sc, sp, st) = frame_end_spec(
                    old(self).cfg_writer.config,
                    old(self).rmt.tx_channel_present,
                    hw@,
                );
                &&& r == sr
                &&& final(self).cfg_writer.config == sc
                &&& final(self).rmt.tx_channel_present == sp
                &&& final(trace)@ == old(trace)@ + st
            }),
    {
        let ghost p0 = self.rmt.tx_channel_present;
        let ghost t0 = trace@;

        self.cfg_writer.config.output_enable = false;
        self.cfg_writer.write(trace);
        let ghost q1 = write_actions(self.cfg_writer.config);
        self.cfg_writer.config.mode = true;
        self.cfg_writer.write(trace);
        proof {
            crate::lemma_concat_assoc(t0, q1, write_actions(self.cfg_writer.config));
        }
        let ghost q2 = q1 + write_actions(self.cfg_writer.config);
        let r1 = self.rmt.pulse(10, 10, true, hw[0], trace);
        proof {
            crate::lemma_concat_assoc(t0, q2, pulse_actions(p0, 10, 10, true, hw@[0]));
        }
        let ghost q3 = q2 + pulse_actions(p0, 10, 10, true, hw@[0]);
        let ghost p1 = pulse_present_after(p0, true, hw@[0]);
        match r1 {
            Err(e) => {
                return Err(e);
            },
            Ok(()) => {},
        }

        let r2 = self.rmt.pulse(10, 10, true, hw[1], trace);
        proof {
            crate::lemma_concat_assoc(t0, q3, pulse_actions(p1, 10, 10, true, hw@[1]));
        }
        match r2 {
            Err(e) => Err(e),
            Ok(()) => Ok(()),
        }
    }

    /// Output one row: strobe the latch, fire the output-timing pulse
    /// without waiting, then hand the transfer engine and the row buffer
    /// to the parallel bus for one transfer and block until it completes.
    /// A transfer that could not be issued hands both resources back
    /// before its error surfaces; an issued transfer returns them on
    /// completion, successful or not. Finding the engine or the buffer
    /// missing is a caller-sequencing violation and surfaces as the
    /// internal-invariant error; whatever was already taken for the
    /// transfer goes back to driver storage before that error returns, so
    /// the driver owns exactly one engine and one buffer on every exit
    /// path.
    pub fn output_row(
        &mut self,
        output_time: u16,
        pulse_hw: PulseOutcome,
        transfer_hw: TransferOutcome,
        trace: &mut Vec<Action>,
    ) -> (r: Result<(), Error>)
        ensures
            final(self).cfg_writer.config == (ConfigRegister {
                latch_enable: false,
                ..old(self).cfg_writer.config
            }),
            final(self).rmt.tx_channel_present == pulse_present_after(
                old(self).rmt.tx_channel_present,
                false,
                pulse_hw,
            ),
            ({
                let pr = pulse_result(old(self).rmt.tx_channel_present, false, pulse_hw);
                let base = old(trace)@ + latch_row_actions(old(self).cfg_writer.config)
                    + pulse_actions(
                    old(self).rmt.tx_channel_present,
                    output_time,
                    50,
                    false,
                    pulse_hw,
                );
                if pr is Err {
                    &&& r == pr
                    &&& final(trace)@ == base
                    &&& final(self).i8080_present == old(self).i8080_present
                    &&& final(self).dma_buf == old(self).dma_buf
                } else if !old(self).i8080_present {
                    &&& r == Err::<(), Error>(Error::Internal)
                    &&& final(trace)@ == base
                    &&& !final(self).i8080_present
                    &&& final(self).dma_buf == old(self).dma_buf
                } else if old(self).dma_buf is None {
                    &&& r == Err::<(), Error>(Error::Internal)
                    &&& final(trace)@ == base
                    &&& final(self).i8080_present == old(self).i8080_present
                    &&& final(self).dma_buf is None
                } else if !transfer_hw.issue_ok {
                    &&& r == Err::<(), Error>(Error::Transfer)
                    &&& final(trace)@ == base + seq![Action::SendRow]
                    &&& final(self).i8080_present
                    &&& final(self).dma_buf == old(self).dma_buf
                } else {
                    &&& r == (if transfer_hw.complete_ok {
                        Ok::<(), Error>(())
                    } else {
                        Err::<(), Error>(Error::Transfer)
                    })
                    &&& final(trace)@ == base + seq![Action::SendRow] + seq![Action::AwaitTransfer]
                    &&& final(self).i8080_present
                    &&& final(self).dma_buf == old(self).dma_buf
                }
            }),
    {
        let ghost c0 = self.cfg_writer.config;
        let ghost p0 = self.rmt.tx_channel_present;
        let ghost t0 = trace@;

        self.latch_row(trace);
        match self.rmt.pulse(output_time, 50, false, pulse_hw, trace) {
            Err(e) => {
                return Err(e);
            },
            Ok(()) => {},
        }
        let ghost base = t0 + latch_row_actions(c0) + pulse_actions(
            p0,
            output_time,
            50,
            false,
            pulse_hw,
        );

        if !self.i8080_present {
            return Err(Error::Internal);
        }
        // The engine leaves driver storage for the duration of the
        // transfer.
        self.i8080_present = false;
        let mut row_opt: Option<RowBuffer> = None;
        core::mem::swap(&mut row_opt, &mut self.dma_buf);
        let row = match row_opt {
            None => {
                // The engine was already taken for the transfer; it goes
                // back to driver storage before the error surfaces.
                self.i8080_present = true;
                return Err(Error::Internal);
            },
            Some(b) => b,
        };

        trace.push(Action::SendRow);
        proof {
            crate::lemma_push_concat(base, Action::SendRow);
        }
        if !transfer_hw.issue_ok {
            // A transfer that was never issued returns the engine and the
            // buffer with the error: no resource leaks on failure.
            self.i8080_present = true;
            self.dma_buf = Some(row);
            return Err(Error::Transfer);
        }

        trace.push(Action::AwaitTransfer);
        proof {
            crate::lemma_push_concat(base + seq![Action::SendRow], Action::AwaitTransfer);
        }
        // The blocking wait hands the engine and the buffer back whether
        // the transfer completed cleanly or not.
        self.i8080_present = true;
        self.dma_buf = Some(row);
        if !transfer_hw.complete_ok {
            return Err(Error::Transfer);
        }
        Ok(())
    }

    /// Fill the row buffer for the next transfer: zero it, then copy
    /// `data` into its prefix. Bytes of `data` beyond the buffer capacity
    /// are dropped. Fails with the internal-invariant error, changing
    /// nothing, when the buffer is not in driver storage — a sequencing
    /// violation by the caller.
    pub fn set_buffer(&mut self, data: &[u8]) -> (r: Result<(), Error>)
        ensures
            final(self).cfg_writer == old(self).cfg_writer,
            final(self).rmt == old(self).rmt,
            final(self).i8080_present == old(self).i8080_present,
            old(self).dma_buf is None ==> {
                &&& r == Err::<(), Error>(Error::Internal)
                &&& final(self).dma_buf is None
            },
            old(self).dma_buf is Some ==> {
                &&& r == Ok::<(), Error>(())
                &&& final(self).dma_buf is Some
                &&& final(self).dma_buf->Some_0.data@ == filled_row(
                    old(self).dma_buf->Some_0.data@.len(),
                    data@,
                )
            },
    {
        match &mut self.dma_buf {
            None => Err(Error::Internal),
            Some(buf) => {
                let cap = buf.data.len();
                buf.data = fill_row(cap, data);
                Ok(())
            },
        }
    }
}

} // verus!
