//! Phase durations in whole milliseconds, derived from readings of one
//! monotonic clock.
//!
//! A reading is the number of nanoseconds that the clock showed when it was
//! read. The caller reads the clock around each piece of work; this module
//! turns the readings into the durations that a run reports.

use vstd::prelude::*;

verus! {

/// Nanoseconds in one millisecond.
pub const NANOS_PER_MILLI: u128 = 1_000_000;

/// One more than the largest millisecond count that a report can hold.
pub open spec fn millis_modulus() -> int {
    0x1_0000_0000_0000_0000
}

/// Whole milliseconds between two clock readings; zero where the second
/// reading lies before the first.
pub open spec fn whole_millis(begun: u128, ended: u128) -> int {
    if ended >= begun {
        (ended - begun) / 1_000_000
    } else {
        0
    }
}

/// The millisecond count as it is reported: the whole milliseconds, reduced to
/// 64 bits.
pub open spec fn reported_millis(begun: u128, ended: u128) -> int {
    whole_millis(begun, ended) % millis_modulus()
}

/// Milliseconds elapsed between two readings of the clock.
pub fn elapsed_millis(begun: u128, ended: u128) -> (ms: u64)
    ensures
        ms == reported_millis(begun, ended),
{
    let nanos: u128 = if ended >= begun {
        ended - begun
    } else {
        0
    };
    let millis: u128 = nanos / NANOS_PER_MILLI;
    let low: u128 = millis % 0x1_0000_0000_0000_0000;
    low as u64
}

/// The clock readings taken just before and just after one piece of work.
#[derive(Debug, Clone, Copy, PartialEq, Eq, Structural)]
pub struct Span {
    pub begun: u128,
    pub ended: u128,
}

impl Span {
    /// The duration of the span as it is reported.
    pub open spec fn millis(self) -> int {
        reported_millis(self.begun, self.ended)
    }

    /// Milliseconds that the work took.
    pub fn elapsed(&self) -> (ms: u64)
        ensures
            ms == self.millis(),
    {
        elapsed_millis(self.begun, self.ended)
    }
}

/// How long each phase of a run took, in whole milliseconds.
#[derive(Debug, Clone, Copy, PartialEq, Eq, Structural)]
pub struct PhaseTimings {
    /// Acquiring and loading the model.
    pub model_load: u64,
    /// Embedding the batch.
    pub embed: u64,
    /// Scoring the two vectors.
    pub similarity: u64,
    /// The whole run, measured from its start to its end and not added up
    /// from the phases.
    pub total: u64,
}

/// The readings were taken in this order from a clock that does not run
/// backwards.
pub open spec fn readings_ordered(
    started: u128,
    model_load: Span,
    embed: Span,
    similarity: Span,
    finished: u128,
) -> bool {
    &&& started <= model_load.begun <= model_load.ended
    &&& model_load.ended <= embed.begun <= embed.ended
    &&& embed.ended <= similarity.begun <= similarity.ended
    &&& similarity.ended <= finished
}

/// The timings that a run reports for the given readings.
pub open spec fn timings_of(
    started: u128,
    model_load: Span,
    embed: Span,
    similarity: Span,
    finished: u128,
) -> PhaseTimings {
    PhaseTimings {
        model_load: model_load.millis() as u64,
        embed: embed.millis() as u64,
        similarity: similarity.millis() as u64,
        total: reported_millis(started, finished) as u64,
    }
}

/// Turns the readings of a run into its reported timings. The total is taken
/// from the first and the last reading alone.
pub fn measure(
    started: u128,
    model_load: &Span,
    embed: &Span,
    similarity: &Span,
    finished: u128,
) -> (timings: PhaseTimings)
    ensures
        timings == timings_of(started, *model_load, *embed, *similarity, finished),
        readings_ordered(started, *model_load, *embed, *similarity, finished) && whole_millis(
            started,
            finished,
        ) < millis_modulus() ==> timings.total >= timings.model_load + timings.embed
            + timings.similarity,
{
    proof {
        if readings_ordered(started, *model_load, *embed, *similarity, finished) && whole_millis(
            started,
            finished,
        ) < millis_modulus() {
            lemma_total_covers_phases(started, *model_load, *embed, *similarity, finished);
        }
    }
    PhaseTimings {
        model_load: model_load.elapsed(),
        embed: embed.elapsed(),
        similarity: similarity.elapsed(),
        total: elapsed_millis(started, finished),
    }
}

/// A later reading never gives a shorter duration: while the count fits in 64
/// bits, the reported milliseconds do not decrease as the clock advances.
pub proof fn lemma_elapsed_monotone(begun: u128, earlier: u128, later: u128)
    requires
        earlier <= later,
        whole_millis(begun, later) < millis_modulus(),
    ensures
        0 <= reported_millis(begun, earlier) <= reported_millis(begun, later),
{
}

/// Where the readings are ordered and the run is short enough for its
/// milliseconds to fit in 64 bits, the reported total is at least the sum of
/// the three phases, and so at least each of them.
pub proof fn lemma_total_covers_phases(
    started: u128,
    model_load: Span,
    embed: Span,
    similarity: Span,
    finished: u128,
)
    requires
        readings_ordered(started, model_load, embed, similarity, finished),
        whole_millis(started, finished) < millis_modulus(),
    ensures
        ({
            let t = timings_of(started, model_load, embed, similarity, finished);
            &&& t.total >= t.model_load + t.embed + t.similarity
            &&& t.total >= t.model_load
            &&& t.total >= t.embed
            &&& t.total >= t.similarity
        }),
{
}

} // verus!
