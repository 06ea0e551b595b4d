use vstd::prelude::*;

use crate::lifecycle::FetchError;

verus! {

/// Completion of a transfer as the ratio `received / total` of two byte counts.
///
/// A well-formed value has `0 < total` and `received <= total`, so the ratio
/// lies in `[0, 1]`.
#[derive(Debug, Clone, Copy, PartialEq, Eq, Structural)]
pub struct Progress {
    pub received: u64,
    pub total: u64,
}

impl Progress {
    pub open spec fn wf(self) -> bool {
        0 < self.total && self.received <= self.total
    }

    /// `self` denotes a fraction no larger than `other`'s.
    pub open spec fn le(self, other: Progress) -> bool {
        self.received * other.total <= other.received * self.total
    }

    pub open spec fn spec_zero() -> Progress {
        Progress { received: 0, total: 1 }
    }

    /// The fraction 0: nothing received yet.
    pub fn zero() -> (r: Progress)
        ensures
            r == Progress::spec_zero(),
            r.wf(),
    {
        Progress { received: 0, total: 1 }
    }

    /// Whether `self` denotes a fraction no larger than `other`'s.
    pub fn at_most(&self, other: &Progress) -> (r: bool)
        ensures
            r == self.le(*other),
    {
        let a: u128 = self.received as u128;
        let b: u128 = other.total as u128;
        let c: u128 = other.received as u128;
        let d: u128 = self.total as u128;
        proof {
            lemma_product_fits(a, b);
            lemma_product_fits(c, d);
        }
        a * b <= c * d
    }
}

proof fn lemma_product_fits(a: u128, b: u128)
    requires
        a <= u64::MAX,
        b <= u64::MAX,
    ensures
        a * b <= u128::MAX,
{
    assert(a * b <= (u64::MAX as int) * (u64::MAX as int)) by (nonlinear_arith)
        requires a <= u64::MAX, b <= u64::MAX, 0 <= a, 0 <= b;
}

/// The progress reported for a chunk boundary: `current_chunk` bytes received so
/// far out of `content_length`, if that is known. An unknown or zero total
/// gives `ProgressUnavailable`; a count past the total is capped at the total.
pub open spec fn chunk_progress_spec(current_chunk: nat, content_length: Option<u64>) -> Result<Progress, FetchError> {
    match content_length {
        Some(total) => if total > 0 {
            Ok(Progress { received: if current_chunk < total { current_chunk as u64 } else { total }, total })
        } else {
            Err(FetchError::ProgressUnavailable)
        },
        None => Err(FetchError::ProgressUnavailable),
    }
}

/// Turns a chunk-boundary report of the fetch collaborator into the progress
/// value to publish, or `ProgressUnavailable` when nothing can be published for
/// this chunk; the transfer goes on either way.
pub fn chunk_progress(current_chunk: usize, content_length: Option<u64>) -> (r: Result<Progress, FetchError>)
    ensures
        r == chunk_progress_spec(current_chunk as nat, content_length),
        r is Ok ==> r->Ok_0.wf(),
        r is Err <==> (content_length is None || content_length == Some(0u64)),
{
    match content_length {
        Some(total) => {
            if total > 0 {
                let current: u64 = current_chunk as u64;
                let received: u64 = if current < total { current } else { total };
                Ok(Progress { received, total })
            } else {
                Err(FetchError::ProgressUnavailable)
            }
        },
        None => Err(FetchError::ProgressUnavailable),
    }
}

/// For one known total, a larger byte count never gives a smaller fraction.
pub proof fn lemma_chunk_progress_monotone(a: nat, b: nat, total: u64)
    requires
        a <= b,
        0 < total,
    ensures
        chunk_progress_spec(a, Some(total))->Ok_0.le(chunk_progress_spec(b, Some(total))->Ok_0),
{
    let pa = chunk_progress_spec(a, Some(total))->Ok_0;
    let pb = chunk_progress_spec(b, Some(total))->Ok_0;
    assert(pa.received <= pb.received);
    assert(pa.received * total <= pb.received * total) by (nonlinear_arith)
        requires pa.received <= pb.received;
}

/// What the relay task learned from the progress channel.
#[derive(Debug, Clone, Copy, PartialEq, Eq, Structural)]
pub enum RelayEvent {
    /// A new value was published.
    Changed(Progress),
    /// The producer is gone.
    Closed,
}

/// What the relay task does next.
#[derive(Debug, Clone, Copy, PartialEq, Eq, Structural)]
pub enum RelayAction {
    /// The shared value changed: request a redraw and keep waiting.
    Repaint,
    /// Stop relaying.
    Stop,
}

/// The UI-visible progress of the current download attempt, tagged with that
/// attempt so that a relay of an earlier attempt cannot write into it.
#[derive(Debug, Clone, Copy, PartialEq, Eq, Structural)]
pub struct ProgressCell {
    pub attempt: u64,
    pub progress: Progress,
}

impl ProgressCell {
    /// The cell after a value of `attempt` is relayed into it: written when the
    /// tag matches the current attempt, else left as it was.
    pub open spec fn relayed(self, attempt: u64, value: Progress) -> ProgressCell {
        if attempt == self.attempt {
            ProgressCell { attempt, progress: value }
        } else {
            self
        }
    }

    /// The cell after relaying every value of `values`, in order, for `attempt`.
    pub open spec fn relayed_all(self, attempt: u64, values: Seq<Progress>) -> ProgressCell
        decreases values.len(),
    {
        if values.len() == 0 {
            self
        } else {
            self.relayed_all(attempt, values.drop_last()).relayed(attempt, values.last())
        }
    }

    pub open spec fn begun(attempt: u64) -> ProgressCell {
        ProgressCell { attempt, progress: Progress::spec_zero() }
    }

    /// A cell before any attempt: attempt 0, nothing received.
    pub fn new() -> (r: ProgressCell)
        ensures
            r == ProgressCell::begun(0),
    {
        ProgressCell { attempt: 0, progress: Progress::zero() }
    }

    /// Starts showing `attempt`, from zero progress.
    pub fn begin(&mut self, attempt: u64)
        ensures
            *final(self) == ProgressCell::begun(attempt),
    {
        self.attempt = attempt;
        self.progress = Progress::zero();
    }

    /// The progress shown.
    pub fn progress(&self) -> (r: Progress)
        ensures
            r == self.progress,
    {
        self.progress
    }

    /// One step of the relay task of `attempt`: a changed value of the current
    /// attempt is written and asks for a redraw; a value of a superseded attempt
    /// is discarded and ends that relay, as does a closed channel.
    pub fn relay(&mut self, attempt: u64, event: RelayEvent) -> (r: RelayAction)
        ensures
            match event {
                RelayEvent::Changed(v) => {
                    &&& *final(self) == old(self).relayed(attempt, v)
                    &&& (r == RelayAction::Repaint <==> attempt == old(self).attempt)
                },
                RelayEvent::Closed => *final(self) == *old(self) && r == RelayAction::Stop,
            },
    {
        match event {
            RelayEvent::Changed(v) => {
                if attempt == self.attempt {
                    self.progress = v;
                    RelayAction::Repaint
                } else {
                    RelayAction::Stop
                }
            },
            RelayEvent::Closed => RelayAction::Stop,
        }
    }
}

/// Relaying a nonempty sequence of values of the current attempt leaves the
/// cell showing the last value of the sequence: nothing is reordered.
pub proof fn lemma_relay_keeps_last(cell: ProgressCell, values: Seq<Progress>)
    requires
        values.len() > 0,
    ensures
        cell.relayed_all(cell.attempt, values) == (ProgressCell { attempt: cell.attempt, progress: values.last() }),
    decreases values.len(),
{
    lemma_relay_keeps_attempt(cell, values.drop_last());
}

/// Relaying values of the current attempt never changes the attempt shown.
pub proof fn lemma_relay_keeps_attempt(cell: ProgressCell, values: Seq<Progress>)
    ensures
        cell.relayed_all(cell.attempt, values).attempt == cell.attempt,
    decreases values.len(),
{
    if values.len() > 0 {
        lemma_relay_keeps_attempt(cell, values.drop_last());
    }
}

/// Values relayed for any attempt other than the one shown leave the cell
/// unchanged; in particular, once a new attempt has begun, values of the
/// earlier one cannot overwrite its zero start.
pub proof fn lemma_stale_relay_ignored(cell: ProgressCell, stale: u64, values: Seq<Progress>)
    requires
        stale != cell.attempt,
    ensures
        cell.relayed_all(stale, values) == cell,
    decreases values.len(),
{
    if values.len() > 0 {
        lemma_stale_relay_ignored(cell, stale, values.drop_last());
    }
}

} // verus!
