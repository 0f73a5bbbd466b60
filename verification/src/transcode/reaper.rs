//! Removing originals whose retention has run out.
use vstd::prelude::*;
use vstd::string::*;

use crate::models::library::RetentionFileId;

verus! {

/// An original whose retention has run out.
#[derive(Debug)]
pub struct ExpiredFile {
    pub id: RetentionFileId,
    pub path: String,
}

/// What came of removing a file.
#[derive(Clone, Copy, Debug, PartialEq, Eq, Structural)]
pub enum Removal {
    Removed,
    AlreadyGone,
    Failed,
}

/// What is to be done next.
#[derive(Debug)]
pub enum ReapStep {
    RemoveFile(String),
    /// The record of the file is to be deleted.
    DeleteRow(RetentionFileId),
    Done,
}

/// What was done.
#[derive(Clone, Copy, Debug, PartialEq, Eq, Structural)]
pub enum ReapEvent {
    Removed(Removal),
    /// Whether the record was deleted.
    Deleted(bool),
}

/// A pass over the originals whose retention has run out.
#[derive(Debug)]
pub struct ReapRun {
    pub files: Vec<ExpiredFile>,
    pub next: usize,
    /// Whether the current file was dealt with and its record is left.
    pub row_left: bool,
    /// Whether a record could not be deleted, which ends the pass.
    pub failed: bool,
}

/// Begins a pass.
pub fn reap(files: Vec<ExpiredFile>) -> (r: ReapRun)
    ensures
        r.files == files,
        r.next == 0,
        !r.row_left,
        !r.failed,
{
    ReapRun { files, next: 0, row_left: false, failed: false }
}

/// A pass after something was done. The record of a file is deleted whatever
/// came of removing the file; a record that cannot be deleted ends the pass.
/// What was not asked for changes nothing.
pub open spec fn reap_next(run: ReapRun, event: ReapEvent) -> ReapRun {
    if !run.active() {
        run
    } else {
        match event {
            ReapEvent::Removed(_) => if run.row_left {
                run
            } else {
                ReapRun { row_left: true, ..run }
            },
            ReapEvent::Deleted(ok) => if !run.row_left {
                run
            } else if ok {
                ReapRun { row_left: false, next: (run.next + 1) as usize, ..run }
            } else {
                ReapRun { failed: true, ..run }
            },
        }
    }
}

impl ReapRun {
    /// Whether the pass goes on.
    pub open spec fn active(self) -> bool {
        !self.failed && self.next < self.files@.len()
    }

    /// What is to be done next: each file is removed, and then its record.
    pub fn step(&self) -> (r: ReapStep)
        ensures
            if !self.active() {
                r is Done
            } else if self.row_left {
                r == ReapStep::DeleteRow(self.files@[self.next as int].id)
            } else {
                r matches ReapStep::RemoveFile(p) && p@ == self.files@[self.next as int].path@
            },
    {
        if self.failed || self.next >= self.files.len() {
            ReapStep::Done
        } else if self.row_left {
            ReapStep::DeleteRow(self.files[self.next].id)
        } else {
            ReapStep::RemoveFile(self.files[self.next].path.clone())
        }
    }

    /// Takes what was done.
    pub fn advance(&mut self, event: ReapEvent)
        ensures
            *final(self) == reap_next(*old(self), event),
    {
        if self.failed || self.next >= self.files.len() {
            return ;
        }
        match event {
            ReapEvent::Removed(_) => {
                if !self.row_left {
                    self.row_left = true;
                }
            },
            ReapEvent::Deleted(ok) => {
                if self.row_left {
                    if ok {
                        self.row_left = false;
                        self.next = self.next + 1;
                    } else {
                        self.failed = true;
                    }
                }
            },
        }
    }
}

/// A pass after its first files were dealt with, where `outcomes` says what
/// came of removing each, and each record was deleted.
pub open spec fn reaped(run: ReapRun, outcomes: Seq<Removal>) -> ReapRun
    decreases outcomes.len(),
{
    if outcomes.len() == 0 {
        run
    } else {
        reap_next(
            reap_next(
                reaped(run, outcomes.drop_last()),
                ReapEvent::Removed(outcomes.last()),
            ),
            ReapEvent::Deleted(true),
        )
    }
}

/// A pass whose records can all be deleted deals with every file, in order and
/// once each, whatever came of removing the files, and then ends.
pub proof fn law_every_expired_file_is_dealt_with(run: ReapRun, outcomes: Seq<Removal>)
    requires
        run.next == 0,
        !run.row_left,
        !run.failed,
        outcomes.len() <= run.files@.len() <= usize::MAX,
    ensures
        reaped(run, outcomes) == (ReapRun { next: outcomes.len() as usize, ..run }),
        reaped(run, outcomes).active() <==> outcomes.len() < run.files@.len(),
    decreases outcomes.len(),
{
    if outcomes.len() > 0 {
        law_every_expired_file_is_dealt_with(run, outcomes.drop_last());
    }
}

/// A pass takes the files in order from the first: it asks for a file to be
/// removed, then for the record of that same file to be deleted, and is done
/// where no file is left or a record could not be deleted.
pub proof fn law_what_a_pass_asks(files: Vec<ExpiredFile>, first: ReapRun, run: ReapRun, r: ReapStep)
    requires
        call_ensures(reap, (files,), first),
        call_ensures(ReapRun::step, (&run,), r),
    ensures
        first.files == files && first.next == 0 && !first.row_left && !first.failed,
        r is Done <==> run.failed || run.next >= run.files@.len(),
        !(r is Done) && !run.row_left ==> (r matches ReapStep::RemoveFile(p) && p@
            == run.files@[run.next as int].path@),
        !(r is Done) && run.row_left ==> r == ReapStep::DeleteRow(run.files@[run.next as int].id),
{
}

/// How a pass goes on: once a file was dealt with, whatever came of it, its
/// record is due; once the record was deleted, the next file is; a record that
/// cannot be deleted ends the pass; and what was not asked for changes nothing.
pub proof fn law_how_a_pass_goes_on(run: &mut ReapRun, event: ReapEvent, done: ())
    requires
        call_ensures(ReapRun::advance, (run, event), done),
    ensures
        final(run).files == old(run).files,
        old(run).failed || old(run).next >= old(run).files@.len() ==> *final(run) == *old(run),
        ({
            let on = !old(run).failed && old(run).next < old(run).files@.len();
            &&& on && event is Removed && !old(run).row_left ==> final(run).row_left && final(run).next == old(run).next && !final(run).failed
            &&& on && event == ReapEvent::Deleted(true) && old(run).row_left ==> !final(run).row_left && final(run).next == old(run).next + 1 && !final(run).failed
            &&& on && event == ReapEvent::Deleted(false) && old(run).row_left ==> final(run).failed
                && final(run).next == old(run).next
            &&& (event is Removed) == old(run).row_left ==> *final(run) == *old(run)
        }),
{
    assert(old(run).files.len() == old(run).files@.len());
}

} // verus!
