//! The delivery dispatcher: which recipient is sent to next, what a dry run
//! suppresses, and how a failed send aborts the rest of a site's delivery.

use vstd::prelude::*;

use crate::error::AppError;

verus! {

/// The state of one site's delivery: the same message goes to each recipient
/// in list order, one send per recipient, unless the run is dry or an earlier
/// send failed.
#[derive(Clone, Copy, PartialEq, Eq, Structural, Debug)]
pub struct Dispatch {
    pub dry_run: bool,
    pub total: usize,
    pub next: usize,
    pub failed: bool,
}

impl Dispatch {
    /// The cursor never passes the recipient count.
    pub open spec fn wf(&self) -> bool {
        self.next <= self.total
    }

    /// The recipient to attempt next: none in a dry run, none after a
    /// failure, none once every recipient was sent to.
    pub open spec fn spec_next_recipient(&self) -> Option<usize> {
        if self.dry_run || self.failed || self.next >= self.total {
            None
        } else {
            Some(self.next)
        }
    }

    /// Starts a delivery over `total` recipients.
    pub fn new(dry_run: bool, total: usize) -> (d: Dispatch)
        ensures
            d.wf(),
            d.dry_run == dry_run,
            d.total == total,
            d.next == 0,
            !d.failed,
    {
        Dispatch { dry_run, total, next: 0, failed: false }
    }

    /// The index of the recipient to attempt next, if any is due.
    pub fn next_recipient(&self) -> (r: Option<usize>)
        ensures
            r == self.spec_next_recipient(),
    {
        if self.dry_run || self.failed || self.next >= self.total {
            None
        } else {
            Some(self.next)
        }
    }

    /// Records the outcome of the send that was due: on success the cursor
    /// advances; on failure the dispatch aborts and no further recipient is
    /// attempted.
    pub fn record_attempt(&mut self, ok: bool)
        requires
            old(self).wf(),
            old(self).spec_next_recipient() is Some,
        ensures
            final(self).wf(),
            final(self).dry_run == old(self).dry_run,
            final(self).total == old(self).total,
            ok ==> final(self).next == old(self).next + 1 && !final(self).failed,
            !ok ==> final(self).failed && final(self).next == old(self).next,
            !ok ==> final(self).spec_next_recipient() is None,
    {
        if ok {
            self.next = self.next + 1;
        } else {
            self.failed = true;
        }
    }

    /// The delivery's result once no recipient is due: success exactly when
    /// no send failed.
    pub fn outcome(&self) -> (r: Result<(), AppError>)
        requires
            self.spec_next_recipient() is None,
        ensures
            r is Ok <==> !self.failed,
            r matches Err(e) ==> e is Smtp,
    {
        if self.failed {
            Err(AppError::Smtp("Failed to send email".to_owned()))
        } else {
            Ok(())
        }
    }
}

/// Law: in dry-run mode the dispatcher never yields a recipient — the mailer
/// is never invoked — and the delivery still reports success.
pub proof fn lemma_dry_run_dispatch(d: Dispatch)
    requires
        d.wf(),
        d.dry_run,
        !d.failed,
    ensures
        d.spec_next_recipient() is None,
{
}

/// Law: after a failed send no further recipient of that site is attempted,
/// and the delivery reports failure.
pub proof fn lemma_failed_send_aborts(d: Dispatch)
    requires
        d.wf(),
        d.failed,
    ensures
        d.spec_next_recipient() is None,
{
}

} // verus!
