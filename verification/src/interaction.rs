//! Answers to the buttons that members press on the check-in messages.

use vstd::prelude::*;
use crate::api_error::APIError;
use crate::json::{json_accepts, json_model, read_reply, Json};
use crate::status::{FinalStatus, MeetingStatus};
use crate::text::str_eq;

verus! {

/// A button of the check-in messages.
#[derive(Debug, Clone, Copy, PartialEq, Eq, Structural)]
pub enum ButtonAction {
    /// Midpoint check-in: the pair met.
    MidYes,
    /// Midpoint check-in: not scheduled yet.
    MidNo,
    /// Midpoint check-in: the meeting is scheduled.
    MidScheduled,
    /// Closing survey: the pair met.
    CloseYes,
    /// Closing survey: the pair did not meet.
    CloseNo,
}

/// The value that a button sends.
pub open spec fn button_value(a: ButtonAction) -> Seq<char> {
    match a {
        ButtonAction::MidYes => "mid_yes"@,
        ButtonAction::MidNo => "mid_no"@,
        ButtonAction::MidScheduled => "mid_scheduled"@,
        ButtonAction::CloseYes => "close_yes"@,
        ButtonAction::CloseNo => "close_no"@,
    }
}

/// The button that sends a value, if any.
pub open spec fn button_of_value(v: Seq<char>) -> Option<ButtonAction> {
    if v == "mid_yes"@ {
        Some(ButtonAction::MidYes)
    } else if v == "mid_no"@ {
        Some(ButtonAction::MidNo)
    } else if v == "mid_scheduled"@ {
        Some(ButtonAction::MidScheduled)
    } else if v == "close_yes"@ {
        Some(ButtonAction::CloseYes)
    } else if v == "close_no"@ {
        Some(ButtonAction::CloseNo)
    } else {
        None
    }
}

/// The text of the answer before the mention of the member who pressed.
pub open spec fn reply_head(a: ButtonAction) -> Seq<char> {
    match a {
        ButtonAction::MidYes => "It's time for a midpoint checkin!\n\n *Did you get a chance to meet?*\n\n✅ <@"@,
        ButtonAction::MidNo => "It's time for a midpoint checkin!\n\n *Did you get a chance to meet?*\n\n*:C* <@"@,
        ButtonAction::MidScheduled => "It's time for a midpoint checkin!\n\n *Did you get a chance to meet?*\n\n📅 <@"@,
        ButtonAction::CloseYes => "Checking in! Did you guys get a chance to connect?\n\n🥳<@"@,
        ButtonAction::CloseNo => "Checking in! Did you guys get a chance to connect?\n\n😶‍🌫️<@"@,
    }
}

/// The text of the answer after the mention of the member who pressed.
pub open spec fn reply_tail(a: ButtonAction) -> Seq<char> {
    match a {
        ButtonAction::MidYes => "> said that you've met!"@,
        ButtonAction::MidNo => "> said that you have not scheduled yet."@,
        ButtonAction::MidScheduled => "> said that your meeting is scheduled!"@,
        ButtonAction::CloseYes => "> said that you met! Great!"@,
        ButtonAction::CloseNo => "> said no. Better luck next time!"@,
    }
}

/// The status that a button records for the meeting; `None` leaves it as it is.
pub open spec fn recorded_status(a: ButtonAction) -> Option<MeetingStatus> {
    match a {
        ButtonAction::MidYes => Some(MeetingStatus::Closed(FinalStatus::Met)),
        ButtonAction::MidNo => None,
        ButtonAction::MidScheduled => Some(MeetingStatus::Scheduled),
        ButtonAction::CloseYes => Some(MeetingStatus::Closed(FinalStatus::Met)),
        ButtonAction::CloseNo => Some(MeetingStatus::Closed(FinalStatus::Fail)),
    }
}

impl ButtonAction {
    /// Reads the value that a button sent; `None` for a value of no button.
    pub fn from_value(value: &str) -> (r: Option<ButtonAction>)
        ensures
            r == button_of_value(value@),
    {
        if str_eq(value, "mid_yes") {
            Some(ButtonAction::MidYes)
        } else if str_eq(value, "mid_no") {
            Some(ButtonAction::MidNo)
        } else if str_eq(value, "mid_scheduled") {
            Some(ButtonAction::MidScheduled)
        } else if str_eq(value, "close_yes") {
            Some(ButtonAction::CloseYes)
        } else if str_eq(value, "close_no") {
            Some(ButtonAction::CloseNo)
        } else {
            None
        }
    }

    /// The value that this button sends.
    pub fn value(&self) -> (r: &'static str)
        ensures
            r@ == button_value(*self),
    {
        match self {
            ButtonAction::MidYes => "mid_yes",
            ButtonAction::MidNo => "mid_no",
            ButtonAction::MidScheduled => "mid_scheduled",
            ButtonAction::CloseYes => "close_yes",
            ButtonAction::CloseNo => "close_no",
        }
    }

    /// The text that replaces the check-in message once `user_id` pressed this
    /// button; it mentions that member.
    pub fn reply_text(&self, user_id: &str) -> (r: String)
        ensures
            r@ == reply_head(*self) + user_id@ + reply_tail(*self),
    {
        let (head, tail) = match self {
            ButtonAction::MidYes => (
                "It's time for a midpoint checkin!\n\n *Did you get a chance to meet?*\n\n✅ <@",
                "> said that you've met!",
            ),
            ButtonAction::MidNo => (
                "It's time for a midpoint checkin!\n\n *Did you get a chance to meet?*\n\n*:C* <@",
                "> said that you have not scheduled yet.",
            ),
            ButtonAction::MidScheduled => (
                "It's time for a midpoint checkin!\n\n *Did you get a chance to meet?*\n\n📅 <@",
                "> said that your meeting is scheduled!",
            ),
            ButtonAction::CloseYes => (
                "Checking in! Did you guys get a chance to connect?\n\n🥳<@",
                "> said that you met! Great!",
            ),
            ButtonAction::CloseNo => (
                "Checking in! Did you guys get a chance to connect?\n\n😶‍🌫️<@",
                "> said no. Better luck next time!",
            ),
        };
        let mut r = head.to_string();
        r.append(user_id);
        r.append(tail);
        r
    }

    /// The status to record for the meeting; `None` leaves it unchanged.
    pub fn new_status(&self) -> (r: Option<MeetingStatus>)
        ensures
            r == recorded_status(*self),
    {
        match self {
            ButtonAction::MidYes => Some(MeetingStatus::Closed(FinalStatus::Met)),
            ButtonAction::MidNo => None,
            ButtonAction::MidScheduled => Some(MeetingStatus::Scheduled),
            ButtonAction::CloseYes => Some(MeetingStatus::Closed(FinalStatus::Met)),
            ButtonAction::CloseNo => Some(MeetingStatus::Closed(FinalStatus::Fail)),
        }
    }
}

/// Every button value reads back as its button.
pub proof fn lemma_button_value_round_trip(a: ButtonAction)
    ensures
        button_of_value(button_value(a)) == Some(a),
{
    reveal_strlit("mid_yes");
    reveal_strlit("mid_no");
    reveal_strlit("mid_scheduled");
    reveal_strlit("close_yes");
    reveal_strlit("close_no");
    assert("mid_yes"@.len() == 7);
    assert("mid_no"@.len() == 6);
    assert("mid_scheduled"@.len() == 13);
    assert("close_yes"@.len() == 9);
    assert("close_no"@.len() == 8);
}

/// No button moves a meeting back to `Open`: a recorded status is
/// `Scheduled` or closed.
pub proof fn lemma_buttons_never_reopen(a: ButtonAction)
    ensures
        recorded_status(a) != Some(MeetingStatus::Open),
{
}

/// Whether the payload carries both `response_url` and `actions`.
pub open spec fn carries_interaction(payload: Json) -> bool {
    payload.member("response_url"@) is Some && payload.member("actions"@) is Some
}

/// An interaction payload that carries `response_url` and `actions` holds, as
/// strings, the value of its first action (a value of a known button), the
/// presser's `user.id`, the `channel.id` and the `response_url`; a payload of
/// another shape is refused.
pub open spec fn interaction_shaped(payload: Json) -> bool {
    carries_interaction(payload) ==> {
        &&& payload.field("actions"@).item(0).member("value"@) matches Some(v)
        &&& v.text() matches Some(t)
        &&& button_of_value(t) is Some
        &&& payload.field("user"@).field("id"@).text() is Some
        &&& payload.field("channel"@).field("id"@).text() is Some
        &&& payload.member("response_url"@).unwrap().text() is Some
    }
}

/// A press of any button of the check-in messages is answered with that
/// button: a payload that carries `response_url` and `actions`, whose first
/// action's value is the value of button `a`, and that holds the presser, the
/// channel and the address as strings, has the shape that is read, and is read
/// as a press of `a`, whatever status `a` records.
pub proof fn lemma_every_button_press_is_answered(payload: Json, a: ButtonAction)
    requires
        payload.member("response_url"@) matches Some(Json::Str(_)),
        payload.member("actions"@) is Some,
        payload.field("actions"@).item(0).member("value"@) matches Some(Json::Str(t)) && t@ == button_value(a),
        payload.field("user"@).field("id"@) is Str,
        payload.field("channel"@).field("id"@) is Str,
    ensures
        interaction_shaped(payload),
        carries_interaction(payload),
        button_of_value(payload.field("actions"@).item(0).member("value"@).unwrap().text().unwrap()) == Some(a),
{
    lemma_button_value_round_trip(a);
}

/// The text of a string value reached by `get`, if it is a string.
fn text_of(node: Option<&Json>) -> (r: Option<&String>)
    ensures
        r matches Some(s) ==> node matches Some(v) && v.text() == Some(s@),
        r is None ==> !(node matches Some(v) && v.text() is Some),
{
    match node {
        Some(v) => v.as_text(),
        None => None,
    }
}

/// The member `key` of `node`, where `node` may be missing.
fn member_of<'a>(node: Option<&'a Json>, key: &str) -> (r: Option<&'a Json>)
    ensures
        r matches Some(v) ==> node matches Some(n) && n.member(key@) == Some(*v),
        r is None ==> (node matches Some(n) ==> n.member(key@) is None),
{
    match node {
        Some(n) => n.get(key),
        None => None,
    }
}

/// Tells whether an interaction payload has the shape that
/// `read_interaction` needs.
pub fn interaction_acceptable(payload: &Json) -> (r: bool)
    ensures
        r == interaction_shaped(*payload),
{
    let response_url = payload.get("response_url");
    let actions = payload.get("actions");
    if response_url.is_none() || actions.is_none() {
        return true;
    }
    let first = match actions {
        Some(a) => a.at(0),
        None => None,
    };
    let value = text_of(member_of(first, "value"));
    let known = match value {
        Some(v) => ButtonAction::from_value(v.as_str()).is_some(),
        None => false,
    };
    let user = text_of(member_of(payload.get("user"), "id"));
    let channel = text_of(member_of(payload.get("channel"), "id"));
    let url = text_of(response_url);
    known && user.is_some() && channel.is_some() && url.is_some()
}

/// What to do with an interaction payload.
#[derive(Debug)]
pub enum InteractionPlan {
    /// Answer the request as a bad request with this error.
    Refuse(APIError),
    /// Fail the request with this error.
    Fail(APIError),
    /// The payload carries an interaction but lacks, as strings, the value of
    /// a known button, the presser, the channel or the address to answer; no
    /// answer can be given.
    Unanswerable,
    /// Answer the button press.
    Answer {
        action: ButtonAction,
        user_id: String,
        channel_id: String,
        response_url: String,
    },
}

/// The answer to a payload that carries an interaction: the button of the
/// first action's value, the presser, the channel and the address to answer.
pub open spec fn answers(plan: InteractionPlan, p: Json) -> bool {
    match plan {
        InteractionPlan::Answer { action, user_id, channel_id, response_url } => {
            &&& Some(action) == button_of_value(
                p.field("actions"@).item(0).member("value"@).unwrap().text().unwrap(),
            )
            &&& user_id@ == p.field("user"@).field("id"@).text().unwrap()
            &&& channel_id@ == p.field("channel"@).field("id"@).text().unwrap()
            &&& response_url@ == p.member("response_url"@).unwrap().text().unwrap()
        },
        _ => false,
    }
}

/// Decides on an interaction payload; `None` stands for a payload text that is
/// no JSON document.
pub fn read_interaction(parsed: Option<&Json>) -> (r: InteractionPlan)
    requires
        parsed matches Some(p) ==> interaction_shaped(*p),
    ensures
        parsed is None ==> (r matches InteractionPlan::Fail(e) && e.code@ == "json_parse_error"@
            && e.message@ == "could not parse JSON successfully"@),
        parsed is Some && !carries_interaction(*parsed.unwrap()) ==> (r matches InteractionPlan::Refuse(e)
            && e.code@ == "invalid_structure"@ && e.message@ == "Invalid payload structure"@),
        parsed is Some && carries_interaction(*parsed.unwrap()) ==> answers(r, *parsed.unwrap()),
{
    let payload = match parsed {
        Some(p) => p,
        None => {
            return InteractionPlan::Fail(APIError::json_parse_error());
        },
    };
    let response_url = payload.get("response_url");
    let actions = payload.get("actions");
    if response_url.is_none() || actions.is_none() {
        return InteractionPlan::Refuse(APIError::invalid_structure());
    }
    let first = match actions {
        Some(a) => a.at(0),
        None => None,
    };
    let value = text_of(member_of(first, "value"));
    let user = text_of(member_of(payload.get("user"), "id"));
    let channel = text_of(member_of(payload.get("channel"), "id"));
    let url = text_of(response_url);
    match (value, user, channel, url) {
        (Some(v), Some(u), Some(c), Some(w)) => {
            match ButtonAction::from_value(v.as_str()) {
                Some(action) => InteractionPlan::Answer {
                    action,
                    user_id: u.clone(),
                    channel_id: c.clone(),
                    response_url: w.clone(),
                },
                None => InteractionPlan::Refuse(APIError::invalid_structure()),
            }
        },
        _ => InteractionPlan::Refuse(APIError::invalid_structure()),
    }
}

/// Decides on the text of an interaction payload: a text that is no JSON
/// document fails the request; a document is read as `read_interaction` reads
/// it, except that one of the wrong shape is unanswerable.
pub fn read_interaction_text(payload: &str) -> (r: InteractionPlan)
    ensures
        !json_accepts(payload@) ==> (r matches InteractionPlan::Fail(e) && e.code@ == "json_parse_error"@
            && e.message@ == "could not parse JSON successfully"@),
        json_accepts(payload@) && !interaction_shaped(json_model(payload@)) ==> r is Unanswerable,
        json_accepts(payload@) && interaction_shaped(json_model(payload@)) && !carries_interaction(
            json_model(payload@),
        ) ==> (r matches InteractionPlan::Refuse(e) && e.code@ == "invalid_structure"@ && e.message@
            == "Invalid payload structure"@),
        json_accepts(payload@) && interaction_shaped(json_model(payload@)) && carries_interaction(
            json_model(payload@),
        ) ==> answers(r, json_model(payload@)),
{
    match read_reply(payload) {
        None => read_interaction(None),
        Some(j) => {
            if !interaction_acceptable(&j) {
                InteractionPlan::Unanswerable
            } else {
                read_interaction(Some(&j))
            }
        },
    }
}

} // verus!
