//! The coordination loop's state: sequence counter and last-known
//! temperature.
//!
//! Each iteration samples the supply voltage, encodes a payload from the
//! sequence counter, the fresh voltage, and the last-known temperature,
//! then races one broadcast window against the arrival of a new sample in
//! the mailbox. If a fresh sample wins, the in-flight broadcast is
//! abandoned and the new temperature takes effect immediately; if the
//! broadcast window completes first, the temperature is kept. Either way
//! the sequence counter advances by exactly one, wrapping at 256, so a
//! listener can detect lost or duplicated broadcasts. The racing itself —
//! radio transmission and mailbox wait — is the scheduler's part; its
//! winner is reported here as a plain value.

use crate::encoder;
use vstd::arithmetic::div_mod::{lemma_add_mod_noop, lemma_small_mod};
use vstd::prelude::*;

verus! {

/// Which arm of an iteration's race finished first.
#[derive(Clone, Copy, Debug, PartialEq, Eq, Structural)]
pub enum RaceOutcome {
    /// The broadcast window completed; the temperature is unchanged.
    BroadcastCompleted,
    /// The mailbox produced a new sample mid-broadcast; the in-flight
    /// broadcast was abandoned in its favor.
    FreshSample(i16),
}

/// The sequence counter after `iterations` further iterations, wrapping
/// at 256.
pub open spec fn sequence_after(start: u8, iterations: nat) -> int {
    (start + iterations) % 256
}

/// The coordination loop's own state. The loop is the counter's sole
/// writer and the mailbox's sole reader.
#[derive(Clone, Copy, Debug, PartialEq, Eq, Structural)]
pub struct Coordinator {
    /// Sequence counter of the next broadcast; advances once per
    /// iteration, wrapping on overflow.
    pub sequence: u8,
    /// Temperature of the next broadcast, in hundredths of a degree: the
    /// most recent sample taken from the mailbox.
    pub temperature: i16,
}

/// The coordinator after one iteration whose race ended in `outcome`.
pub open spec fn iteration_step(state: Coordinator, outcome: RaceOutcome) -> Coordinator {
    Coordinator {
        sequence: sequence_after(state.sequence, 1) as u8,
        temperature: match outcome {
            RaceOutcome::BroadcastCompleted => state.temperature,
            RaceOutcome::FreshSample(sample) => sample,
        },
    }
}

impl Coordinator {
    /// A coordinator about to run its first iteration, holding the first
    /// temperature sample ever taken from the mailbox.
    pub fn new(initial_temperature: i16) -> (state: Coordinator)
        ensures
            state.sequence == 0,
            state.temperature == initial_temperature,
    {
        Coordinator { sequence: 0, temperature: initial_temperature }
    }

    /// The payload this iteration broadcasts, from the freshly sampled
    /// voltage and the last-known temperature.
    pub fn payload(&self, voltage: i16) -> (payload: Vec<u8>)
        ensures
            payload@ == encoder::payload_bytes(self.sequence, voltage, self.temperature),
    {
        encoder::encode(self.sequence, voltage, self.temperature)
    }

    /// Ends one iteration: adopts the fresh temperature if the mailbox
    /// won the race, and advances the sequence counter by exactly one,
    /// wrapping at 256, whichever arm won.
    pub fn complete_iteration(&mut self, outcome: RaceOutcome)
        ensures
            *final(self) == iteration_step(*old(self), outcome),
            final(self).sequence as int == sequence_after(old(self).sequence, 1),
    {
        proof {
            lemma_sequence_counter_wraps(self.sequence);
        }
        self.sequence = self.sequence.wrapping_add(1);
        match outcome {
            RaceOutcome::BroadcastCompleted => {},
            RaceOutcome::FreshSample(sample) => {
                self.temperature = sample;
            },
        }
    }
}

/// Wrapping addition of one is exactly the counter arithmetic modulo 256.
proof fn lemma_sequence_counter_wraps(sequence: u8)
    ensures
        sequence.wrapping_add(1) as int == sequence_after(sequence, 1),
{
    assert(sequence.wrapping_add(1) as int == (sequence + 1) % 256) by (bit_vector);
}

/// The sequence counter advances by exactly one per iteration, modulo
/// 256, regardless of which arm of the race won.
pub proof fn lemma_sequence_advances_once(state: Coordinator, outcome: RaceOutcome)
    ensures
        iteration_step(state, outcome).sequence as int == sequence_after(state.sequence, 1),
{
}

/// Running iterations one at a time adds up: `m` iterations followed by
/// `n` more advance the counter as `m + n` iterations do.
pub proof fn lemma_sequence_after_adds(start: u8, m: nat, n: nat)
    ensures
        sequence_after((sequence_after(start, m) as u8), n) == sequence_after(start, m + n),
{
    let mid = sequence_after(start, m);
    lemma_small_mod(mid as nat, 256);
    lemma_add_mod_noop(start + m, n as int, 256);
    lemma_small_mod(n % 256, 256);
    lemma_add_mod_noop(start + m, (n % 256) as int, 256);
}

/// After 256 iterations the sequence counter returns to its initial
/// value.
pub proof fn lemma_sequence_counter_period(start: u8)
    ensures
        sequence_after(start, 256) == start,
{
    lemma_small_mod(start as nat, 256);
    assert((start + 256) % 256 == start as int % 256) by {
        vstd::arithmetic::div_mod::lemma_mod_add_multiples_vanish(start as int, 256);
    }
}

/// When the mailbox produces a new temperature mid-broadcast, the next
/// iteration's payload reflects the new temperature, and the sequence
/// counter still advances by exactly one for that iteration — not two.
pub proof fn lemma_fresh_sample_next_payload(
    state: Coordinator,
    sample: i16,
    voltage: i16,
)
    ensures
        ({
            let next = iteration_step(state, RaceOutcome::FreshSample(sample));
            let payload = encoder::payload_bytes(next.sequence, voltage, next.temperature);
            payload[6] == encoder::be_high(sample) && payload[7] == encoder::be_low(sample)
                && payload[3] as int == sequence_after(state.sequence, 1)
        }),
{
    lemma_sequence_advances_once(state, RaceOutcome::FreshSample(sample));
}

} // verus!
