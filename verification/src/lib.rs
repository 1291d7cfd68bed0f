//! Drive-protocol engine for a row-scanned electrophoretic display panel.
//!
//! The panel is driven through three hardware channels: a 3-wire serial
//! shift register carrying an 8-bit control word (power rails, output
//! enable, latch, scan mode, start-of-frame), a single-wire pulse generator
//! supplying timed strobes, and a parallel bus moving one row of pixel
//! bytes at a time. This crate holds the protocol itself — the control-word
//! serialization, the pulse-channel ownership discipline, and the
//! frame/row state machine — as verified code. Every interaction with the
//! hardware is emitted as an [`Action`] value, and the outcome of each
//! fallible hardware operation is handed back in as a plain value, so the
//! sequencing logic is proved for every outcome the hardware can produce.
//! A thin unverified shell owns the peripherals and plays the actions
//! against them.

use vstd::prelude::*;

pub mod ed047tc1;
pub mod rmt;

verus! {

/// One elementary hardware request emitted by the protocol engine, in the
/// exact order the hardware must see them.
#[derive(Clone, Copy, PartialEq, Eq, Structural, Debug)]
pub enum Action {
    /// Drive the shift-register data line (`true` = high).
    SetData(bool),
    /// Drive the shift-register clock line (`true` = high).
    SetClk(bool),
    /// Drive the shift-register latch (strobe) line (`true` = high).
    SetLatch(bool),
    /// Busy-wait for the given number of clock cycles.
    Delay(u32),
    /// (Re)initialize the pulse-transmission channel from the raw
    /// peripheral; fallible.
    AcquireChannel,
    /// Issue one waveform on the pulse line: high for `high_ticks`, then
    /// low for `low_ticks`; fallible. Consumes the channel.
    Transmit { high_ticks: u16, low_ticks: u16 },
    /// Block until the in-flight transmission completes, reclaiming the
    /// channel on success; fallible.
    AwaitTransmit,
    /// Hand the row buffer to the parallel-bus engine and issue the
    /// transfer, tagged with command code 0; fallible.
    SendRow,
    /// Block until the in-flight row transfer completes; fallible.
    AwaitTransfer,
}

/// Everything that can go wrong while driving the panel.
#[derive(Clone, Copy, PartialEq, Eq, Structural, Debug)]
pub enum Error {
    /// The pulse-transmission channel could not be (re)initialized.
    PulseInit,
    /// A pulse transmission failed, at issue or at completion.
    Pulse,
    /// A row transfer failed, at issue or at completion.
    Transfer,
    /// An owned resource (row buffer or transfer engine) was absent when
    /// it had to be present: the caller broke the sequencing discipline.
    Internal,
}

/// Pushing one element is the same as concatenating a singleton: the step
/// that connects an executable trace push to the concatenation-shaped
/// trace contracts of this crate.
pub proof fn lemma_push_concat<A>(s: Seq<A>, x: A)
    ensures
        s.push(x) == s + seq![x],
{
    assert(s.push(x) =~= s + seq![x]);
}

/// Concatenation of action sequences is associative: lets a trace built
/// one hardware request at a time be read against a contract that groups
/// the requests by protocol step.
pub proof fn lemma_concat_assoc<A>(a: Seq<A>, b: Seq<A>, c: Seq<A>)
    ensures
        (a + b) + c == a + (b + c),
{
    assert((a + b) + c =~= a + (b + c));
}

} // verus!
