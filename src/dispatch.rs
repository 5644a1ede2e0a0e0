//! Bookkeeping of the loop that consumes scan outcomes: how many probes were
//! submitted and processed, and when the run stops.
use vstd::prelude::*;

verus! {

/// What the consuming loop does with one outcome.
#[derive(Clone, Copy, Debug, PartialEq, Eq, Structural)]
pub enum Action {
    /// A response arrived: classify it and keep it if the filters allow.
    Handle,
    /// A transport error that the run tolerates: report it and go on.
    Skip,
    /// A transport error that ends the run.
    Abort,
}

/// The live counters of one run. Every probe handed to the workers is
/// counted once in `submitted`; every outcome taken from the result channel
/// once in `processed`.
pub struct Dispatch {
    pub submitted: u64,
    pub processed: u64,
    pub stopped: bool,
    pub exit_on_connection_errors: bool,
}

impl Dispatch {
    pub open spec fn wf(&self) -> bool {
        self.processed <= self.submitted
    }

    /// Probes submitted whose outcome has not been processed yet.
    pub open spec fn outstanding_spec(&self) -> int {
        self.submitted - self.processed
    }

    pub open spec fn finished_spec(&self) -> bool {
        self.stopped || self.processed == self.submitted
    }

    pub fn new(exit_on_connection_errors: bool) -> (r: Dispatch)
        ensures
            r.wf(),
            r.submitted == 0,
            r.processed == 0,
            !r.stopped,
            r.exit_on_connection_errors == exit_on_connection_errors,
    {
        Dispatch { submitted: 0, processed: 0, stopped: false, exit_on_connection_errors }
    }

    /// Counts `n` more probes handed to the workers.
    pub fn submit(&mut self, n: u64)
        requires
            old(self).wf(),
            old(self).submitted + n <= u64::MAX,
        ensures
            final(self).wf(),
            final(self).submitted == old(self).submitted + n,
            final(self).processed == old(self).processed,
            final(self).stopped == old(self).stopped,
            final(self).exit_on_connection_errors == old(self).exit_on_connection_errors,
    {
        self.submitted = self.submitted + n;
    }

    /// Counts one processed outcome and decides what the loop does with it.
    /// A transport error ends the run when it is the first outcome of the
    /// run, or when the run was asked to stop on any connection error.
    pub fn record(&mut self, is_error: bool) -> (act: Action)
        requires
            old(self).wf(),
            !old(self).finished_spec(),
        ensures
            final(self).wf(),
            final(self).processed == old(self).processed + 1,
            final(self).submitted == old(self).submitted,
            final(self).exit_on_connection_errors == old(self).exit_on_connection_errors,
            final(self).stopped == (is_error && (final(self).processed == 1
                || old(self).exit_on_connection_errors)),
            act == (if !is_error {
                Action::Handle
            } else if final(self).stopped {
                Action::Abort
            } else {
                Action::Skip
            }),
    {
        self.processed = self.processed + 1;
        if !is_error {
            Action::Handle
        } else if self.processed == 1 || self.exit_on_connection_errors {
            self.stopped = true;
            Action::Abort
        } else {
            Action::Skip
        }
    }

    pub fn outstanding(&self) -> (r: u64)
        requires
            self.wf(),
        ensures
            r == self.outstanding_spec(),
    {
        self.submitted - self.processed
    }

    /// Whether the loop ends: it was aborted, or every submitted probe has
    /// had its outcome processed.
    pub fn is_finished(&self) -> (r: bool)
        ensures
            r == self.finished_spec(),
    {
        self.stopped || self.processed == self.submitted
    }
}

/// Every probe ever submitted is either processed or still outstanding, and a
/// run that was not aborted is finished exactly when the number of processed
/// outcomes equals the number of submitted probes, that is when nothing is
/// outstanding.
pub proof fn lemma_outstanding_counter(d: Dispatch)
    requires
        d.wf(),
    ensures
        d.processed + d.outstanding_spec() == d.submitted,
        !d.stopped ==> (d.finished_spec() <==> d.processed == d.submitted),
        !d.stopped ==> (d.finished_spec() <==> d.outstanding_spec() == 0),
{
}


/// The tabs that align a result line after a status of `status_len`
/// characters, in columns of eight.
pub open spec fn tab_count_spec(status_len: nat) -> nat {
    let cols = status_len / 8;
    if cols == 0 {
        4
    } else if cols == 1 {
        3
    } else if cols == 2 {
        2
    } else if cols == 3 {
        1
    } else {
        0
    }
}

pub fn tab_count(status_len: usize) -> (n: usize)
    ensures
        n == tab_count_spec(status_len as nat),
{
    match status_len / 8 {
        0 => 4,
        1 => 3,
        2 => 2,
        3 => 1,
        _ => 0,
    }
}

} // verus!
