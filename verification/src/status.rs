//! The life cycle of a meeting between paired members, and the text under
//! which each status is stored.

use vstd::prelude::*;
use crate::text::str_eq;

verus! {

/// How a meeting ended.
#[derive(Debug, Clone, Copy, PartialEq, Eq, Structural)]
pub enum FinalStatus {
    /// The pair met.
    Met,
    /// The pair did not meet.
    Fail,
    /// The meeting was scheduled but never happened.
    ScheduleFail,
    /// Nobody answered.
    Stale,
}

/// Where a meeting stands.
#[derive(Debug, Clone, Copy, PartialEq, Eq, Structural)]
pub enum MeetingStatus {
    Open,
    Scheduled,
    Closed(FinalStatus),
}

/// The stored text of a status.
pub open spec fn status_text(s: MeetingStatus) -> Seq<char> {
    match s {
        MeetingStatus::Open => "open"@,
        MeetingStatus::Scheduled => "scheduled"@,
        MeetingStatus::Closed(FinalStatus::Met) => "closed_met"@,
        MeetingStatus::Closed(FinalStatus::Fail) => "closed_no"@,
        MeetingStatus::Closed(FinalStatus::ScheduleFail) => "closed_scheduled"@,
        MeetingStatus::Closed(FinalStatus::Stale) => "closed_stale"@,
    }
}

/// The status stored under a text, if any.
pub open spec fn status_of_text(t: Seq<char>) -> Option<MeetingStatus> {
    if t == "open"@ {
        Some(MeetingStatus::Open)
    } else if t == "scheduled"@ {
        Some(MeetingStatus::Scheduled)
    } else if t == "closed_met"@ {
        Some(MeetingStatus::Closed(FinalStatus::Met))
    } else if t == "closed_no"@ {
        Some(MeetingStatus::Closed(FinalStatus::Fail))
    } else if t == "closed_scheduled"@ {
        Some(MeetingStatus::Closed(FinalStatus::ScheduleFail))
    } else if t == "closed_stale"@ {
        Some(MeetingStatus::Closed(FinalStatus::Stale))
    } else {
        None
    }
}

impl MeetingStatus {
    /// The text under which this status is stored.
    pub fn db_text(&self) -> (r: &'static str)
        ensures
            r@ == status_text(*self),
    {
        match self {
            MeetingStatus::Open => "open",
            MeetingStatus::Scheduled => "scheduled",
            MeetingStatus::Closed(FinalStatus::Met) => "closed_met",
            MeetingStatus::Closed(FinalStatus::Fail) => "closed_no",
            MeetingStatus::Closed(FinalStatus::ScheduleFail) => "closed_scheduled",
            MeetingStatus::Closed(FinalStatus::Stale) => "closed_stale",
        }
    }

    /// Reads a stored status; `None` for a text that names no status.
    pub fn from_db_text(text: &str) -> (r: Option<MeetingStatus>)
        ensures
            r == status_of_text(text@),
    {
        if str_eq(text, "open") {
            Some(MeetingStatus::Open)
        } else if str_eq(text, "scheduled") {
            Some(MeetingStatus::Scheduled)
        } else if str_eq(text, "closed_met") {
            Some(MeetingStatus::Closed(FinalStatus::Met))
        } else if str_eq(text, "closed_no") {
            Some(MeetingStatus::Closed(FinalStatus::Fail))
        } else if str_eq(text, "closed_scheduled") {
            Some(MeetingStatus::Closed(FinalStatus::ScheduleFail))
        } else if str_eq(text, "closed_stale") {
            Some(MeetingStatus::Closed(FinalStatus::Stale))
        } else {
            None
        }
    }
}

/// Reading back the stored text of a status gives that status.
pub proof fn lemma_status_text_round_trip(s: MeetingStatus)
    ensures
        status_of_text(status_text(s)) == Some(s),
{
    reveal_strlit("open");
    reveal_strlit("scheduled");
    reveal_strlit("closed_met");
    reveal_strlit("closed_no");
    reveal_strlit("closed_scheduled");
    reveal_strlit("closed_stale");
    assert("open"@.len() == 4);
    assert("scheduled"@.len() == 9);
    assert("closed_met"@.len() == 10);
    assert("closed_no"@.len() == 9);
    assert("closed_scheduled"@.len() == 16);
    assert("closed_stale"@.len() == 12);
    assert("scheduled"@[0] != "closed_no"@[0]);
}

/// A text that reads as a status is exactly the stored text of that status.
pub proof fn lemma_text_status_round_trip(t: Seq<char>)
    ensures
        status_of_text(t) matches Some(s) ==> status_text(s) == t,
{
}

/// Distinct statuses are stored under distinct texts.
pub proof fn lemma_status_text_injective(a: MeetingStatus, b: MeetingStatus)
    ensures
        status_text(a) == status_text(b) ==> a == b,
{
    lemma_status_text_round_trip(a);
    lemma_status_text_round_trip(b);
}

} // verus!
