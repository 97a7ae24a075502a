//! The identity that an envelope is sealed under, and what inspecting an
//! envelope reports of it.

use vstd::prelude::*;
use crate::error::SealError;

verus! {

/// The number of milliseconds in a second.
pub const MILLIS_PER_SECOND: u64 = 1000;

/// What `extract_timestamp` reports where the header could not be read.
pub const NO_TIMESTAMP: i128 = -1;

/// What an identity is, as plain values.
pub struct IdentityView {
    /// Seconds since the epoch.
    pub timestamp: nat,
    /// The kind of attribute that names the recipient.
    pub attribute_type: Seq<char>,
    /// The attribute's value, where one is given.
    pub recipient: Option<Seq<char>>,
}

/// The identity that an envelope is sealed under.
#[derive(Clone, Debug, PartialEq, Eq)]
pub struct Identity {
    /// Seconds since the epoch, at the moment of sealing.
    pub timestamp: u64,
    /// The kind of attribute that names the recipient.
    pub attribute_type: String,
    /// The attribute's value, where one is given.
    pub recipient: Option<String>,
}

impl View for Identity {
    type V = IdentityView;

    open spec fn view(&self) -> IdentityView {
        IdentityView {
            timestamp: self.timestamp as nat,
            attribute_type: self.attribute_type@,
            recipient: match self.recipient {
                Some(r) => Some(r@),
                None => None,
            },
        }
    }
}

/// The whole seconds in `millis` milliseconds.
pub open spec fn whole_seconds(millis: nat) -> nat {
    millis / (MILLIS_PER_SECOND as nat)
}

/// The characters of an optional string.
pub open spec fn optional_text(s: Option<&str>) -> Option<Seq<char>> {
    match s {
        Some(r) => Some(r@),
        None => None,
    }
}

/// Turns a clock reading in milliseconds into seconds, dropping the
/// fraction.
pub fn seconds_from_millis(millis: u64) -> (seconds: u64)
    ensures
        seconds == whole_seconds(millis as nat),
{
    millis / MILLIS_PER_SECOND
}

impl Identity {
    /// The identity for a recipient at the time `now_millis`, a clock reading
    /// in milliseconds since the epoch. The timestamp is that reading in
    /// whole seconds; the two texts are taken as they are.
    pub fn new(now_millis: u64, attribute_type: &str, recipient: Option<&str>) -> (id: Identity)
        ensures
            id@ == (IdentityView {
                timestamp: whole_seconds(now_millis as nat),
                attribute_type: attribute_type@,
                recipient: optional_text(recipient),
            }),
    {
        let recipient = match recipient {
            Some(r) => Some(r.to_owned()),
            None => None,
        };
        Identity {
            timestamp: seconds_from_millis(now_millis),
            attribute_type: attribute_type.to_owned(),
            recipient,
        }
    }
}

/// What inspecting an envelope reports, given the outcome of reading its
/// header: the timestamp, or `NO_TIMESTAMP` for every failure.
pub open spec fn reported_timestamp(header: Result<Identity, SealError>) -> int {
    match header {
        Ok(identity) => identity.timestamp as int,
        Err(_) => NO_TIMESTAMP as int,
    }
}

/// Reports the timestamp of an envelope whose header was read with the
/// outcome `header`. Every failure, whatever its kind, gives `NO_TIMESTAMP`
/// and no error. The outcome is only read.
pub fn extract_timestamp(header: &Result<Identity, SealError>) -> (reported: i128)
    ensures
        reported == reported_timestamp(*header),
        header is Err <==> reported == NO_TIMESTAMP,
        header is Ok ==> 0 <= reported <= u64::MAX,
{
    match header {
        Ok(identity) => identity.timestamp as i128,
        Err(_) => NO_TIMESTAMP,
    }
}

/// The timestamp lags the clock reading by less than a second: it is the
/// largest number of whole seconds that the reading holds.
pub proof fn lemma_timestamp_within_a_second(now_millis: nat)
    ensures
        whole_seconds(now_millis) * 1000 <= now_millis < (whole_seconds(now_millis) + 1) * 1000,
{
}

/// A later clock reading never gives an earlier timestamp.
pub proof fn lemma_timestamp_monotonic(earlier: nat, later: nat)
    requires
        earlier <= later,
    ensures
        whole_seconds(earlier) <= whole_seconds(later),
{
}

/// Every failure to read a header is reported as -1, and nothing else is:
/// the sentinel cannot be taken for a timestamp.
pub proof fn lemma_sentinel_on_failure(header: Result<Identity, SealError>)
    ensures
        header is Err <==> reported_timestamp(header) == -1,
        header is Ok ==> 0 <= reported_timestamp(header) <= u64::MAX,
{
}

/// Inspecting twice gives the same report: what is reported depends on the
/// outcome of reading the header alone, and on nothing of it but the
/// timestamp.
pub proof fn lemma_inspection_repeats(
    first: Result<Identity, SealError>,
    second: Result<Identity, SealError>,
)
    requires
        first is Ok <==> second is Ok,
        first is Ok ==> first->Ok_0.timestamp == second->Ok_0.timestamp,
    ensures
        reported_timestamp(first) == reported_timestamp(second),
{
}

} // verus!
