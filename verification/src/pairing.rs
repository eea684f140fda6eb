//! A group of members introduced to each other, as it is recorded.

use vstd::prelude::*;
use crate::status::MeetingStatus;

verus! {

/// A recorded group: the direct message channel opened for it, the round of
/// introductions it belongs to, where its meeting stands and who is in it.
#[derive(Debug)]
pub struct Pairing {
    pub group_channel_id: String,
    pub round: i32,
    pub meeting_status: MeetingStatus,
    pub names: Vec<String>,
}

/// The latest recorded round, given the greatest round in the table; an
/// empty table counts as round 0.
pub fn latest_round(max_recorded: Option<i32>) -> (r: i32)
    ensures
        r == match max_recorded {
            Some(n) => n,
            None => 0,
        },
{
    match max_recorded {
        Some(n) => n,
        None => 0,
    }
}

/// The round that follows `latest`, which must not be the greatest `i32`.
pub fn round_after(latest: i32) -> (r: i32)
    requires
        latest < i32::MAX,
    ensures
        r == latest + 1,
{
    latest + 1
}

impl Pairing {
    /// A group just introduced: its meeting is open.
    pub fn introduced(group_channel_id: String, round: i32, names: Vec<String>) -> (p: Pairing)
        ensures
            p.group_channel_id == group_channel_id,
            p.round == round,
            p.meeting_status == MeetingStatus::Open,
            p.names == names,
    {
        Pairing { group_channel_id, round, meeting_status: MeetingStatus::Open, names }
    }
}

} // verus!
