//! The administrator's entry point: which task a request launches, and who may
//! launch one.

use vstd::prelude::*;
use crate::api_error::{accept_payload, APIError, Received};
use crate::text::str_eq;

verus! {

/// A task that the administrator can launch.
#[derive(Debug, Clone, Copy, PartialEq, Eq, Structural)]
pub enum Action {
    LaunchIntros,
    LaunchMidpoint,
    LaunchClosing,
    TestGenPairs,
    TestCurRound,
}

/// The name under which a request asks for each task.
pub open spec fn action_name(a: Action) -> Seq<char> {
    match a {
        Action::LaunchIntros => "launch_intro"@,
        Action::LaunchMidpoint => "launch_midpoint"@,
        Action::LaunchClosing => "launch_closing"@,
        Action::TestGenPairs => "test_gen_pairs"@,
        Action::TestCurRound => "test_cur_round"@,
    }
}

/// The task asked for under a name, if any.
pub open spec fn action_named(t: Seq<char>) -> Option<Action> {
    if t == "launch_intro"@ {
        Some(Action::LaunchIntros)
    } else if t == "launch_midpoint"@ {
        Some(Action::LaunchMidpoint)
    } else if t == "launch_closing"@ {
        Some(Action::LaunchClosing)
    } else if t == "test_gen_pairs"@ {
        Some(Action::TestGenPairs)
    } else if t == "test_cur_round"@ {
        Some(Action::TestCurRound)
    } else {
        None
    }
}

impl Action {
    /// Reads the name of a task; an unknown name gives the error text
    /// `invalid option`.
    pub fn parse(s: &str) -> (r: Result<Action, String>)
        ensures
            r matches Ok(a) ==> action_named(s@) == Some(a),
            r matches Err(e) ==> action_named(s@) is None && e@ == "invalid option"@,
    {
        if str_eq(s, "launch_intro") {
            Ok(Action::LaunchIntros)
        } else if str_eq(s, "launch_midpoint") {
            Ok(Action::LaunchMidpoint)
        } else if str_eq(s, "launch_closing") {
            Ok(Action::LaunchClosing)
        } else if str_eq(s, "test_gen_pairs") {
            Ok(Action::TestGenPairs)
        } else if str_eq(s, "test_cur_round") {
            Ok(Action::TestCurRound)
        } else {
            Err("invalid option".to_string())
        }
    }

    /// The message that answers a launched task; the test tasks answer with
    /// data instead, and have none.
    pub fn done_message(&self) -> (r: Option<&'static str>)
        ensures
            *self == Action::LaunchIntros ==> (r matches Some(m) && m@ == "intros sent successfully"@),
            *self == Action::LaunchMidpoint ==> (r matches Some(m) && m@ == "midpoints sent successfully"@),
            *self == Action::LaunchClosing ==> (r matches Some(m) && m@ == "closings set up successfully"@),
            (*self == Action::TestGenPairs || *self == Action::TestCurRound) ==> r is None,
    {
        match self {
            Action::LaunchIntros => Some("intros sent successfully"),
            Action::LaunchMidpoint => Some("midpoints sent successfully"),
            Action::LaunchClosing => Some("closings set up successfully"),
            Action::TestGenPairs => None,
            Action::TestCurRound => None,
        }
    }
}

impl std::str::FromStr for Action {
    type Err = String;

    fn from_str(s: &str) -> (r: Result<Action, String>)
        ensures
            r matches Ok(a) ==> action_named(s@) == Some(a),
            r matches Err(e) ==> action_named(s@) is None && e@ == "invalid option"@,
    {
        Action::parse(s)
    }
}

/// What a launch request carries.
#[derive(Debug)]
pub struct LaunchPayload {
    pub action: String,
    pub api_key: String,
}

/// What to do with a launch request.
#[derive(Debug)]
pub enum LaunchDecision {
    /// Answer the request as a bad request with this error.
    Refuse(APIError),
    /// Fail the request with this error text.
    Fail(String),
    /// Run the chosen job.
    Run(Action),
}

/// Decides on a launch request, given the administrator key: a readable
/// payload with the right key and a known task name runs that task.
pub fn plan_launch(received: Received<LaunchPayload>, admin_key: &str) -> (r: LaunchDecision)
    ensures
        received is Invalid ==> (r matches LaunchDecision::Refuse(e) && e.code@ == "invalid_payload"@
            && e.message@ == "Invalid payload"@),
        received is Missing ==> (r matches LaunchDecision::Refuse(e) && e.code@ == "no_payload"@
            && e.message@ == "No payload"@),
        received matches Received::Present(p) ==> (if admin_key@ != p.api_key@ {
            r matches LaunchDecision::Refuse(e) && e.code@ == "no_authorization"@ && e.message@
                == "Missing api key"@
        } else if action_named(p.action@) is None {
            r matches LaunchDecision::Fail(t) && t@ == "invalid option"@
        } else {
            r == LaunchDecision::Run(action_named(p.action@).unwrap())
        }),
        r matches LaunchDecision::Run(_) ==> (received matches Received::Present(p) && p.api_key@
            == admin_key@),
{
    let payload = match accept_payload(received) {
        Ok(p) => p,
        Err(e) => {
            return LaunchDecision::Refuse(e);
        },
    };
    if !str_eq(admin_key, payload.api_key.as_str()) {
        return LaunchDecision::Refuse(APIError::no_authorization());
    }
    match Action::parse(payload.action.as_str()) {
        Ok(a) => LaunchDecision::Run(a),
        Err(e) => LaunchDecision::Fail(e),
    }
}

/// Every task name reads back as its task.
pub proof fn lemma_action_name_round_trip(a: Action)
    ensures
        action_named(action_name(a)) == Some(a),
{
    reveal_strlit("launch_intro");
    reveal_strlit("launch_midpoint");
    reveal_strlit("launch_closing");
    reveal_strlit("test_gen_pairs");
    reveal_strlit("test_cur_round");
    assert("launch_intro"@.len() == 12);
    assert("launch_midpoint"@.len() == 15);
    assert("launch_closing"@.len() == 14);
    assert("test_gen_pairs"@.len() == 14);
    assert("test_cur_round"@.len() == 14);
    assert("launch_closing"@[0] != "test_gen_pairs"@[0]);
    assert("launch_closing"@[0] != "test_cur_round"@[0]);
    assert("test_gen_pairs"@[5] != "test_cur_round"@[5]);
}

} // verus!
