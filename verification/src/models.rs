//! The record that is kept of a run that failed.

use vstd::prelude::*;

verus! {

/// A failure, ready to be stored.
#[derive(Clone, Debug, PartialEq, Eq)]
pub struct NewReachabilityError {
    pub job: String,
    pub operator: String,
    /// The address that was resolved, empty if none was.
    pub ip: String,
    /// The cause, in words.
    pub error: String,
    /// When the record was made, in seconds since the Unix epoch.
    pub timestamp: i64,
}

/// The mathematical content of a [`NewReachabilityError`].
pub ghost struct FailureRecord {
    pub job: Seq<char>,
    pub operator: Seq<char>,
    pub ip: Seq<char>,
    pub error: Seq<char>,
    pub timestamp: i64,
}

impl View for NewReachabilityError {
    type V = FailureRecord;

    open spec fn view(&self) -> FailureRecord {
        FailureRecord {
            job: self.job@,
            operator: self.operator@,
            ip: self.ip@,
            error: self.error@,
            timestamp: self.timestamp,
        }
    }
}

impl NewReachabilityError {
    /// A record made at `timestamp`.
    pub fn new(
        job: String,
        operator: String,
        ip: String,
        error: String,
        timestamp: i64,
    ) -> (record: Self)
        ensures
            record@ == (FailureRecord {
                job: job@,
                operator: operator@,
                ip: ip@,
                error: error@,
                timestamp,
            }),
    {
        NewReachabilityError { job, operator, ip, error, timestamp }
    }
}

} // verus!
