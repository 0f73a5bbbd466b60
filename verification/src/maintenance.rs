//! Measuring files that were transcoded before their quality was.
use vstd::prelude::*;

use crate::binary::Binary64;

verus! {

/// A pass over files that lack a score, one after the other.
#[derive(Clone, Copy, Debug, PartialEq, Eq, Structural)]
pub struct BackfillRun {
    pub total: usize,
    pub next: usize,
}

/// What is to be done next.
#[derive(Clone, Copy, Debug, PartialEq, Eq, Structural)]
pub enum BackfillStep {
    /// The file of that position is to be measured.
    Measure(usize),
    /// The pass was cancelled after so many files.
    Cancelled(usize),
    Done,
}

/// Begins a pass over so many files.
pub fn run_vmaf_backfill(total: usize) -> (r: BackfillRun)
    ensures
        r == (BackfillRun { total, next: 0 }),
{
    BackfillRun { total, next: 0 }
}

impl BackfillRun {
    /// What is to be done next. A cancellation takes effect between two files.
    pub fn step(&self, cancelled: bool) -> (r: BackfillStep)
        ensures
            r == (if self.next >= self.total {
                BackfillStep::Done
            } else if cancelled {
                BackfillStep::Cancelled(self.next)
            } else {
                BackfillStep::Measure(self.next)
            }),
    {
        if self.next >= self.total {
            BackfillStep::Done
        } else if cancelled {
            BackfillStep::Cancelled(self.next)
        } else {
            BackfillStep::Measure(self.next)
        }
    }

    /// Takes a measurement and says which score is to be recorded. A file that
    /// could not be measured is passed over.
    pub fn advance(&mut self, score: Option<Binary64>) -> (r: Option<Binary64>)
        ensures
            final(self).total == old(self).total,
            final(self).next == (if old(self).next < old(self).total {
                old(self).next + 1
            } else {
                old(self).next as int
            }),
            r == score,
    {
        if self.next < self.total {
            self.next = self.next + 1;
        }
        score
    }
}

/// A pass measures the files from the first to the last, each once: it begins
/// with the first, goes on to the next after each, whether or not it could be
/// measured, and ends behind the last. A cancellation ends it before, with the
/// number of files that were dealt with. A score is recorded as it was
/// measured.
pub proof fn law_files_are_measured_in_order(
    total: usize,
    first: BackfillRun,
    run: BackfillRun,
    cancelled: bool,
    r: BackfillStep,
    moved: &mut BackfillRun,
    score: Option<Binary64>,
    recorded: Option<Binary64>,
)
    requires
        call_ensures(run_vmaf_backfill, (total,), first),
        call_ensures(BackfillRun::step, (&run, cancelled), r),
        call_ensures(BackfillRun::advance, (moved, score), recorded),
    ensures
        first.next == 0 && first.total == total,
        r is Done <==> run.next >= run.total,
        r is Measure <==> run.next < run.total && !cancelled,
        r is Cancelled <==> run.next < run.total && cancelled,
        r matches BackfillStep::Measure(i) ==> i == run.next,
        r matches BackfillStep::Cancelled(n) ==> n == run.next,
        final(moved).total == old(moved).total,
        old(moved).next < old(moved).total ==> final(moved).next == old(moved).next + 1,
        old(moved).next >= old(moved).total ==> final(moved).next == old(moved).next,
        recorded == score,
{
}

} // verus!
