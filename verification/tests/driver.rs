use ed047tc1::ed047tc1::busy_delay;
use ed047tc1::ed047tc1::delay_elapsed;
use ed047tc1::ed047tc1::ConfigRegister;
use ed047tc1::ed047tc1::ConfigWriter;
use ed047tc1::ed047tc1::TransferOutcome;
use ed047tc1::ed047tc1::ED047TC1;
use ed047tc1::ed047tc1::DMA_BUFFER_SIZE;
use ed047tc1::rmt::PulseOutcome;
use ed047tc1::rmt::Rmt;
use ed047tc1::Action;
use ed047tc1::Error;

fn sound() -> PulseOutcome {
    PulseOutcome { acquire_ok: true, issue_ok: true, complete_ok: true }
}

fn serialization(word: [bool; 8]) -> Vec<Action> {
    let mut out = vec![Action::SetLatch(false)];
    for v in word {
        out.push(Action::SetClk(false));
        out.push(Action::SetData(v));
        out.push(Action::SetClk(true));
    }
    out.push(Action::SetLatch(true));
    out
}

#[test]
fn write_emits_fixed_bit_order() {
    let mut trace: Vec<Action> = Vec::new();
    let mut w = ConfigWriter::new();
    w.write(&mut trace);
    // default word in wire order: output_enable, mode, power_enable, stv,
    // neg_power_enable, pos_power_enable, power_disable, latch_enable
    let expected = serialization([false, false, false, true, false, false, true, false]);
    assert_eq!(trace, expected);

    trace.clear();
    w.config.mode = true;
    w.config.latch_enable = true;
    w.write(&mut trace);
    let expected = serialization([false, true, false, true, false, false, true, true]);
    assert_eq!(trace, expected);
}

#[test]
fn default_word_is_power_down_with_stv() {
    let c = ConfigRegister::default();
    assert!(c.power_disable && c.stv);
    assert!(
        !c.latch_enable
            && !c.pos_power_enable
            && !c.neg_power_enable
            && !c.power_enable
            && !c.mode
            && !c.output_enable
    );
}

#[test]
fn power_cycle_restores_resting_state() {
    let mut trace: Vec<Action> = Vec::new();
    let mut d = ED047TC1::new(&mut trace);
    d.power_on(&mut trace);
    assert!(d.cfg_writer.config.power_enable);
    assert!(d.cfg_writer.config.pos_power_enable);
    assert!(d.cfg_writer.config.neg_power_enable);
    assert!(!d.cfg_writer.config.power_disable);
    d.power_off(&mut trace);
    assert!(d.cfg_writer.config.power_disable);
    assert!(!d.cfg_writer.config.stv);
    assert!(!d.cfg_writer.config.output_enable);
    assert!(!d.cfg_writer.config.latch_enable);
}

#[test]
fn power_on_emits_writes_and_delays() {
    let mut trace: Vec<Action> = Vec::new();
    let mut d = ED047TC1::new(&mut trace);
    trace.clear();
    d.power_on(&mut trace);
    // four serializations of 26 actions each, three delays between them
    assert_eq!(trace.len(), 4 * 26 + 3);
    assert_eq!(trace[26], Action::Delay(100 * 240));
    assert_eq!(trace[26 + 1 + 26], Action::Delay(500 * 240));
    assert_eq!(trace[26 + 1 + 26 + 1 + 26], Action::Delay(100 * 240));
}

#[test]
fn power_off_emits_three_writes() {
    let mut trace: Vec<Action> = Vec::new();
    let mut d = ED047TC1::new(&mut trace);
    d.power_on(&mut trace);
    trace.clear();
    d.power_off(&mut trace);
    // three serializations, two delays: the final word (power_disable,
    // mode, stv) leaves in a single flush
    assert_eq!(trace.len(), 3 * 26 + 2);
    assert_eq!(trace[26], Action::Delay(10 * 240));
    assert_eq!(trace[26 + 1 + 26], Action::Delay(100 * 240));
}

#[test]
fn set_buffer_copies_prefix_and_zero_fills() {
    let mut trace: Vec<Action> = Vec::new();
    let mut d = ED047TC1::new(&mut trace);
    let r = d.set_buffer(&[0xAB, 0xCD]);
    assert_eq!(r, Ok(()));
    let buf = d.dma_buf.as_ref().unwrap();
    assert_eq!(buf.data.len(), DMA_BUFFER_SIZE);
    assert_eq!(buf.data[0], 0xAB);
    assert_eq!(buf.data[1], 0xCD);
    for i in 2..buf.data.len() {
        assert_eq!(buf.data[i], 0);
    }
}

#[test]
fn set_buffer_truncates_overlong_data() {
    let mut trace: Vec<Action> = Vec::new();
    let mut d = ED047TC1::new(&mut trace);
    let long: Vec<u8> = (0..300).map(|i| (i % 251) as u8).collect();
    let r = d.set_buffer(&long);
    assert_eq!(r, Ok(()));
    let buf = d.dma_buf.as_ref().unwrap();
    assert_eq!(buf.data.len(), DMA_BUFFER_SIZE);
    assert_eq!(buf.data[0], 0);
    assert_eq!(buf.data[239], 239 % 251);
}

#[test]
fn set_buffer_without_buffer_is_internal_error() {
    let mut trace: Vec<Action> = Vec::new();
    let mut d = ED047TC1::new(&mut trace);
    d.dma_buf = None;
    let r = d.set_buffer(&[1, 2, 3]);
    assert_eq!(r, Err(Error::Internal));
    assert!(d.dma_buf.is_none());
}

#[test]
fn output_row_returns_engine_and_buffer_on_success() {
    let mut trace: Vec<Action> = Vec::new();
    let mut d = ED047TC1::new(&mut trace);
    trace.clear();
    let r = d.output_row(30, sound(), TransferOutcome { issue_ok: true, complete_ok: true }, &mut trace);
    assert_eq!(r, Ok(()));
    assert!(d.i8080_present);
    assert!(d.dma_buf.is_some());
    // two latch serializations, channel acquisition, the strobe, the
    // transfer issue and its completion wait
    assert_eq!(trace.len(), 2 * 26 + 2 + 2);
    assert_eq!(trace[52], Action::AcquireChannel);
    assert_eq!(trace[53], Action::Transmit { high_ticks: 30, low_ticks: 50 });
    assert_eq!(trace[54], Action::SendRow);
    assert_eq!(trace[55], Action::AwaitTransfer);
}

#[test]
fn output_row_returns_engine_and_buffer_on_issue_failure() {
    let mut trace: Vec<Action> = Vec::new();
    let mut d = ED047TC1::new(&mut trace);
    let r = d.output_row(30, sound(), TransferOutcome { issue_ok: false, complete_ok: true }, &mut trace);
    assert_eq!(r, Err(Error::Transfer));
    assert!(d.i8080_present);
    assert!(d.dma_buf.is_some());
    assert_eq!(trace.last(), Some(&Action::SendRow));
}

#[test]
fn output_row_returns_engine_and_buffer_on_completion_failure() {
    let mut trace: Vec<Action> = Vec::new();
    let mut d = ED047TC1::new(&mut trace);
    let r = d.output_row(30, sound(), TransferOutcome { issue_ok: true, complete_ok: false }, &mut trace);
    assert_eq!(r, Err(Error::Transfer));
    assert!(d.i8080_present);
    assert!(d.dma_buf.is_some());
    assert_eq!(trace.last(), Some(&Action::AwaitTransfer));
}

#[test]
fn output_row_without_engine_is_internal_error() {
    let mut trace: Vec<Action> = Vec::new();
    let mut d = ED047TC1::new(&mut trace);
    d.i8080_present = false;
    let r = d.output_row(30, sound(), TransferOutcome { issue_ok: true, complete_ok: true }, &mut trace);
    assert_eq!(r, Err(Error::Internal));
    assert!(d.dma_buf.is_some());
}

#[test]
fn output_row_without_buffer_is_internal_error() {
    let mut trace: Vec<Action> = Vec::new();
    let mut d = ED047TC1::new(&mut trace);
    d.dma_buf = None;
    let r = d.output_row(30, sound(), TransferOutcome { issue_ok: true, complete_ok: true }, &mut trace);
    assert_eq!(r, Err(Error::Internal));
    // the engine, taken for the transfer, is back in driver storage
    assert!(d.i8080_present);
}

#[test]
fn pulse_zero_high_is_single_phase() {
    let mut trace: Vec<Action> = Vec::new();
    let mut r = Rmt::new();
    let res = r.pulse(0, 100, true, sound(), &mut trace);
    assert_eq!(res, Ok(()));
    assert_eq!(
        trace,
        vec![
            Action::AcquireChannel,
            Action::Transmit { high_ticks: 100, low_ticks: 0 },
            Action::AwaitTransmit,
        ]
    );
    let transmits = trace
        .iter()
        .filter(|a| matches!(a, Action::Transmit { .. }))
        .count();
    assert_eq!(transmits, 1);
}

#[test]
fn pulse_after_unawaited_pulse_reacquires_channel() {
    let mut trace: Vec<Action> = Vec::new();
    let mut r = Rmt::new();
    let r1 = r.pulse(45, 5, false, sound(), &mut trace);
    assert_eq!(r1, Ok(()));
    assert!(!r.tx_channel_present);
    let before = trace.len();
    let r2 = r.pulse(10, 10, true, sound(), &mut trace);
    assert_eq!(r2, Ok(()));
    assert_eq!(trace[before], Action::AcquireChannel);
    assert!(r.tx_channel_present);
}

#[test]
fn pulse_acquire_failure_is_pulse_init_error() {
    let mut trace: Vec<Action> = Vec::new();
    let mut r = Rmt::new();
    let bad = PulseOutcome { acquire_ok: false, issue_ok: true, complete_ok: true };
    assert_eq!(r.pulse(10, 10, true, bad, &mut trace), Err(Error::PulseInit));
    assert!(!r.tx_channel_present);
}

#[test]
fn pulse_issue_and_completion_failures_are_pulse_errors() {
    let mut trace: Vec<Action> = Vec::new();
    let mut r = Rmt::new();
    let bad_issue = PulseOutcome { acquire_ok: true, issue_ok: false, complete_ok: true };
    assert_eq!(r.pulse(10, 10, true, bad_issue, &mut trace), Err(Error::Pulse));
    assert!(!r.tx_channel_present);
    let bad_completion = PulseOutcome { acquire_ok: true, issue_ok: true, complete_ok: false };
    assert_eq!(r.pulse(10, 10, true, bad_completion, &mut trace), Err(Error::Pulse));
    // a failed awaited transmission does not hand the channel back
    assert!(!r.tx_channel_present);
}

#[test]
fn ensure_channel_is_idempotent_once_held() {
    let mut trace: Vec<Action> = Vec::new();
    let mut r = Rmt::new();
    assert_eq!(r.ensure_channel(false, &mut trace), Err(Error::PulseInit));
    assert_eq!(r.ensure_channel(true, &mut trace), Ok(()));
    assert!(r.tx_channel_present);
    let n = trace.len();
    assert_eq!(r.ensure_channel(true, &mut trace), Ok(()));
    assert_eq!(trace.len(), n);
}

#[test]
fn frame_bracket_completes_and_is_idempotent() {
    let mut trace: Vec<Action> = Vec::new();
    let mut d = ED047TC1::new(&mut trace);
    d.power_on(&mut trace);

    assert_eq!(d.frame_start([sound(); 7], &mut trace), Ok(()));
    assert!(d.cfg_writer.config.mode);
    assert!(d.cfg_writer.config.stv);
    assert!(d.cfg_writer.config.output_enable);
    assert_eq!(d.frame_end([sound(); 2], &mut trace), Ok(()));
    let first = (d.cfg_writer.config.mode, d.cfg_writer.config.output_enable);
    assert_eq!(first, (true, false));

    assert_eq!(d.frame_start([sound(); 7], &mut trace), Ok(()));
    assert_eq!(d.frame_end([sound(); 2], &mut trace), Ok(()));
    let second = (d.cfg_writer.config.mode, d.cfg_writer.config.output_enable);
    assert_eq!(first, second);
}

#[test]
fn frame_start_stops_at_first_failing_pulse() {
    let mut trace: Vec<Action> = Vec::new();
    let mut d = ED047TC1::new(&mut trace);
    d.power_on(&mut trace);
    let mut hw = [sound(); 7];
    hw[3] = PulseOutcome { acquire_ok: true, issue_ok: false, complete_ok: true };
    let r = d.frame_start(hw, &mut trace);
    assert_eq!(r, Err(Error::Pulse));
    // the writes before the failing strobe stay in effect
    assert!(d.cfg_writer.config.mode);
    assert!(d.cfg_writer.config.stv);
    assert!(!d.cfg_writer.config.output_enable);
    assert!(!d.rmt.tx_channel_present);
}

#[test]
fn skip_fires_one_unawaited_strobe() {
    let mut trace: Vec<Action> = Vec::new();
    let mut d = ED047TC1::new(&mut trace);
    trace.clear();
    assert_eq!(d.skip(sound(), &mut trace), Ok(()));
    assert_eq!(
        trace,
        vec![Action::AcquireChannel, Action::Transmit { high_ticks: 45, low_ticks: 5 }]
    );
    assert!(!d.rmt.tx_channel_present);
}

#[test]
fn latch_row_toggles_latch_in_two_writes() {
    let mut trace: Vec<Action> = Vec::new();
    let mut d = ED047TC1::new(&mut trace);
    trace.clear();
    d.latch_row(&mut trace);
    assert_eq!(trace.len(), 2 * 26);
    // latch_enable is the last bit shifted: its data set is 3rd from the end
    assert_eq!(trace[23], Action::SetData(true));
    assert_eq!(trace[26 + 23], Action::SetData(false));
    assert!(!d.cfg_writer.config.latch_enable);
}

#[test]
fn busy_delay_computes_cycle_target() {
    assert_eq!(busy_delay(1000, 2400), 3400);
    assert!(!delay_elapsed(3399, 3400));
    assert!(delay_elapsed(3400, 3400));
    assert!(delay_elapsed(5000, 3400));
}
