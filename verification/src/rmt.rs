//! The pulse transmitter: a timed high/low waveform generator on one
//! output line, with an exclusively owned, lazily (re)acquired channel.
//!
//! A transmission consumes the channel. It is reclaimed only when the
//! caller waits for completion; a fire-and-forget transmission leaves the
//! channel unreclaimed, and the next request must reacquire it from
//! scratch. That discipline is the whole point of this module: the
//! presence flag below models exactly who holds the channel, and every
//! contract says how a call moves it.

use vstd::prelude::*;

use crate::Action;
use crate::Error;

verus! {

/// The outcome of the hardware side of one pulse request, handed in by
/// the caller: whether channel (re)initialization, transmission issue,
/// and transmission completion each succeeded. A field is only consulted
/// when the protocol reaches the step it describes.
#[derive(Clone, Copy, PartialEq, Eq, Structural, Debug)]
pub struct PulseOutcome {
    /// The channel was configured successfully (consulted only when the
    /// channel is absent and must be reacquired).
    pub acquire_ok: bool,
    /// The transmission request was accepted.
    pub issue_ok: bool,
    /// The transmission ran to completion (consulted only when the caller
    /// waits).
    pub complete_ok: bool,
}

/// The waveform one pulse request puts on the line: a high phase of
/// `high_ticks`, then a low phase of `low_ticks`. A request with a zero
/// high duration degenerates to a single high phase of the requested low
/// duration followed by a zero-length low phase.
pub open spec fn waveform_high_ticks(high: u16, low: u16) -> u16 {
    if high > 0 {
        high
    } else {
        low
    }
}

/// The low phase of the waveform; zero in the degenerate single-phase case.
pub open spec fn waveform_low_ticks(high: u16, low: u16) -> u16 {
    if high > 0 {
        low
    } else {
        0
    }
}

/// Sound hardware for one pulse request: acquisition, issue and
/// completion all succeed.
pub open spec fn outcome_ok(hw: PulseOutcome) -> bool {
    hw.acquire_ok && hw.issue_ok && hw.complete_ok
}

/// The pulse transmitter. The real channel handle lives with the
/// unverified shell; `tx_channel_present` says whether the driver
/// currently holds it.
pub struct Rmt {
    /// Whether the transmission channel is held and ready, as opposed to
    /// consumed by an unawaited or failed transmission (or never yet
    /// acquired).
    pub tx_channel_present: bool,
}

/// The result `pulse` returns, given whether the channel was present
/// before the call and how the hardware responded.
pub open spec fn pulse_result(present: bool, wait: bool, hw: PulseOutcome) -> Result<(), Error> {
    if !present && !hw.acquire_ok {
        Err(Error::PulseInit)
    } else if !hw.issue_ok {
        Err(Error::Pulse)
    } else if wait && !hw.complete_ok {
        Err(Error::Pulse)
    } else {
        Ok(())
    }
}

/// Whether the channel is held after a `pulse` call: reclaimed only by a
/// successful awaited transmission; lost to a failed or unawaited one.
pub open spec fn pulse_present_after(present: bool, wait: bool, hw: PulseOutcome) -> bool {
    if !present && !hw.acquire_ok {
        false
    } else if !hw.issue_ok {
        false
    } else if wait {
        hw.complete_ok
    } else {
        false
    }
}

/// The hardware requests one `pulse` call emits, cut short at the first
/// failing step.
pub open spec fn pulse_actions(present: bool, high: u16, low: u16, wait: bool, hw: PulseOutcome) -> Seq<Action> {
    let acquire: Seq<Action> = if !present {
        seq![Action::AcquireChannel]
    } else {
        seq![]
    };
    if !present && !hw.acquire_ok {
        acquire
    } else {
        let issued = acquire + seq![
            Action::Transmit {
                high_ticks: waveform_high_ticks(high, low),
                low_ticks: waveform_low_ticks(high, low),
            },
        ];
        if !hw.issue_ok || !wait {
            issued
        } else {
            issued + seq![Action::AwaitTransmit]
        }
    }
}

impl Rmt {
    /// A fresh transmitter: no channel has been acquired yet.
    pub fn new() -> (r: Rmt)
        ensures
            !r.tx_channel_present,
    {
        Rmt { tx_channel_present: false }
    }

    /// Make sure the transmission channel is held, reacquiring it from the
    /// raw peripheral when it was consumed. Does nothing when it is
    /// already held; otherwise emits one acquisition request whose outcome
    /// `acquire_ok` reports.
    pub fn ensure_channel(&mut self, acquire_ok: bool, trace: &mut Vec<Action>) -> (r: Result<(), Error>)
        ensures
            old(self).tx_channel_present ==> {
                &&& r == Ok::<(), Error>(())
                &&& *final(self) == *old(self)
                &&& final(trace)@ == old(trace)@
            },
            !old(self).tx_channel_present ==> {
                &&& final(trace)@ == old(trace)@ + seq![Action::AcquireChannel]
                &&& final(self).tx_channel_present == acquire_ok
                &&& r == (if acquire_ok {
                    Ok::<(), Error>(())
                } else {
                    Err::<(), Error>(Error::PulseInit)
                })
            },
    {
        if self.tx_channel_present {
            return Ok(());
        }
        trace.push(Action::AcquireChannel);
        if !acquire_ok {
            return Err(Error::PulseInit);
        }
        self.tx_channel_present = true;
        Ok(())
    }

    /// Issue one timed waveform: high for `high` ticks then low for `low`
    /// ticks, or a single high phase of `low` ticks when `high` is zero.
    /// Reacquires the channel first if an earlier call consumed it. With
    /// `wait` the call blocks until the transmission completes and
    /// reclaims the channel; without it the call returns as soon as the
    /// transmission is issued and the channel stays consumed.
    pub fn pulse(
        &mut self,
        high: u16,
        low: u16,
        wait: bool,
        hw: PulseOutcome,
        trace: &mut Vec<Action>,
    ) -> (r: Result<(), Error>)
        ensures
            r == pulse_result(old(self).tx_channel_present, wait, hw),
            final(self).tx_channel_present == pulse_present_after(
                old(self).tx_channel_present,
                wait,
                hw,
            ),
            final(trace)@ == old(trace)@ + pulse_actions(
                old(self).tx_channel_present,
                high,
                low,
                wait,
                hw,
            ),
    {
        self.ensure_channel(hw.acquire_ok, trace)?;
        // The channel is consumed by the transmission; it comes back only
        // through a successful awaited completion below.
        self.tx_channel_present = false;
        let (high_ticks, low_ticks): (u16, u16) = if high > 0 {
            (high, low)
        } else {
            (low, 0)
        };
        trace.push(Action::Transmit { high_ticks, low_ticks });
        if !hw.issue_ok {
            return Err(Error::Pulse);
        }
        if wait {
            trace.push(Action::AwaitTransmit);
            if !hw.complete_ok {
                return Err(Error::Pulse);
            }
            self.tx_channel_present = true;
        }
        Ok(())
    }
}

/// A fire-and-forget transmission always leaves the channel consumed, and
/// the pulse request that follows copes with that on its own: its first
/// hardware request is the channel acquisition, and with sound hardware
/// an awaited follow-up succeeds and reclaims the channel. No request
/// ever finds the transmitter in a state it cannot proceed from.
pub proof fn lemma_pulse_after_no_wait(
    p0: bool,
    hw1: PulseOutcome,
    hw2: PulseOutcome,
    high: u16,
    low: u16,
)
    requires
        outcome_ok(hw2),
    ensures
        !pulse_present_after(p0, false, hw1),
        pulse_actions(false, high, low, true, hw2)[0] == Action::AcquireChannel,
        pulse_result(false, true, hw2) == Ok::<(), Error>(()),
        pulse_present_after(false, true, hw2),
{
    assert(pulse_actions(false, high, low, true, hw2)[0] == Action::AcquireChannel);
}

} // verus!
