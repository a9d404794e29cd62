//! The poller's decision core and the single-slot outbox between the
//! background poller and the display consumer.
//!
//! The outbox is last-write-wins with at most one unread value: a publish
//! overwrites whatever was not yet consumed, and the consumer's read is a
//! non-blocking take. When cycles overlap, whichever publish lands last
//! wins, even if it carries the older result; the slot itself does no
//! reconciliation.

use vstd::prelude::*;

use crate::error::JenkinsError;
use crate::status::{aggregate_status, copy_status, spec_reduce, JenkinsStatus, Job};

verus! {

/// What one fetch-and-reduce cycle makes of its fetch: a successful fetch
/// reduces to the aggregate status, a failed one yields nothing — the
/// failure is not fatal and the previous display value stays in effect.
pub fn cycle_status(fetch: Result<Vec<Job>, JenkinsError>) -> (r: Option<JenkinsStatus>)
    ensures
        fetch matches Ok(jobs) ==> r == Some(spec_reduce(jobs@)),
        fetch is Err ==> r is None,
{
    match fetch {
        Ok(jobs) => Some(aggregate_status(jobs)),
        Err(_) => None,
    }
}

/// The single-slot handoff: holds the freshest aggregate status until the
/// display consumer takes it.
pub struct Outbox {
    slot: Option<JenkinsStatus>,
}

impl View for Outbox {
    type V = Option<JenkinsStatus>;

    closed spec fn view(&self) -> Option<JenkinsStatus> {
        self.slot
    }
}

impl Outbox {
    /// A fresh outbox holds nothing.
    pub fn new() -> (r: Outbox)
        ensures
            r@ is None,
    {
        Outbox { slot: None }
    }

    /// Publish a status, overwriting any unconsumed value: older unread
    /// results are discarded, not queued.
    pub fn publish(&mut self, status: JenkinsStatus)
        ensures
            final(self)@ == Some(status),
    {
        self.slot = Some(status);
    }

    /// The consumer's non-blocking read: whatever the slot held, which it
    /// leaves empty.
    pub fn latest(&mut self) -> (r: Option<JenkinsStatus>)
        ensures
            r == old(self)@,
            final(self)@ is None,
    {
        let r = match &self.slot {
            Some(s) => Some(copy_status(s)),
            None => None,
        };
        self.slot = None;
        r
    }

    /// Apply one cycle's fetch to the outbox: a successful fetch publishes
    /// its reduction, a failed one leaves the slot untouched.
    pub fn apply_cycle(&mut self, fetch: Result<Vec<Job>, JenkinsError>)
        ensures
            fetch matches Ok(jobs) ==> final(self)@ == Some(spec_reduce(jobs@)),
            fetch is Err ==> final(self)@ == old(self)@,
    {
        match cycle_status(fetch) {
            Some(status) => self.publish(status),
            None => (),
        }
    }
}

} // verus!
