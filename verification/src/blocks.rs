//! The message layouts that the bot posts, and the introduction message built
//! from its layout.

use vstd::prelude::*;
use crate::json::{json_accepts, json_model, read_reply, Json};
use crate::text::{replace_all, replaced};

verus! {

/// A message layout in the block format of the chat service.
pub const INTRO_BLOCK: &'static str = r#"
[
    {
        "type": "section",
        "text": {
            "type": "mrkdwn",
            "text": ":wave: <@userid1>, <@userid2>.\n\n It's time to get to know your teammates better! Donut intros people in <#channel> every 2 weeks. \n\n Now that you're here, schedule a time to meet for coffee :coffee:, lunch :sandwich:, or donuts :doughnut:!"
        }
    }
]"#;

/// A message layout in the block format of the chat service.
pub const MIDPOINT_BLOCK: &'static str = r#"
[
    {
        "type": "section",
        "text": {
            "type": "mrkdwn",
            "text": "It's time for a midpoint checkin!\n\n *Did you get a chance to meet?*"
        }
    },
    {
        "type": "actions",
        "elements": [
            {
                "type": "button",
                "text": {
                    "type": "plain_text",
                    "text": "✅ Yes!",
                    "emoji": true
                },
                "value": "mid_yes"
            },
            {
                "type": "button",
                "text": {
                    "type": "plain_text",
                    "text": "📅 It's scheduled",
                    "emoji": true
                },
                "value": "mid_scheduled"
            },
            {
                "type": "button",
                "text": {
                    "type": "plain_text",
                    "text": "💤 Not yet..",
                    "emoji": true
                },
                "value": "mid_no"
            }
        ]
    }
]"#;

/// A message layout in the block format of the chat service.
pub const CLOSING_BLOCK: &'static str = r#"
[
    {
        "type": "section",
        "text": {
            "type": "mrkdwn",
            "text": "Checking in! Did you guys get a chance to connect?"
        }
    },
    {
        "type": "actions",
        "elements": [
            {
                "type": "button",
                "text": {
                    "type": "plain_text",
                    "text": "✅ Yes!",
                    "emoji": true
                },
                "value": "close_yes"
            },
            {
                "type": "button",
                "text": {
                    "type": "plain_text",
                    "text": "No 😔",
                    "emoji": true
                },
                "value": "close_no"
            }
        ]
    }
]"#;

/// Why a message could not be prepared for posting.
#[derive(Debug, Clone, Copy, PartialEq, Eq, Structural)]
pub enum MessageError {
    /// The message text is no JSON document.
    NotJson,
}

/// Parses a message text as the blocks to post.
fn parse_blocks(text: &str) -> (r: Result<Json, MessageError>)
    ensures
        r is Ok <==> json_accepts(text@),
        r matches Ok(j) ==> j == json_model(text@),
        r matches Err(e) ==> e == MessageError::NotJson,
{
    match read_reply(text) {
        Some(j) => Ok(j),
        None => Err(MessageError::NotJson),
    }
}

/// The introduction text for a channel and the first two members of a group:
/// the layout with `channel`, then `userid1`, then `userid2` replaced.
pub open spec fn intro_text(channel: Seq<char>, first: Seq<char>, second: Seq<char>) -> Seq<char> {
    replaced(
        replaced(replaced(INTRO_BLOCK@, "channel"@, channel), "userid1"@, first),
        "userid2"@,
        second,
    )
}

/// Builds the introduction message for a group; the group must hold at least
/// two members, the first two of whom the message greets.
pub fn intro_message(channel: &str, group: &Vec<String>) -> (r: String)
    requires
        group.len() >= 2,
    ensures
        r@ == intro_text(channel@, group[0]@, group[1]@),
{
    proof {
        reveal_strlit("channel");
        reveal_strlit("userid1");
        reveal_strlit("userid2");
    }
    let with_channel = replace_all(INTRO_BLOCK, "channel", channel);
    let with_first = replace_all(with_channel.as_str(), "userid1", group[0].as_str());
    replace_all(with_first.as_str(), "userid2", group[1].as_str())
}

/// The introduction message for a group, parsed as the blocks to post.
pub fn intro_blocks(channel: &str, group: &Vec<String>) -> (r: Result<Json, MessageError>)
    requires
        group.len() >= 2,
    ensures
        r is Ok <==> json_accepts(intro_text(channel@, group[0]@, group[1]@)),
        r matches Ok(j) ==> j == json_model(intro_text(channel@, group[0]@, group[1]@)),
        r matches Err(e) ==> e == MessageError::NotJson,
{
    let message = intro_message(channel, group);
    parse_blocks(message.as_str())
}

/// The midpoint check-in, parsed as the blocks to post.
pub fn midpoint_blocks() -> (r: Result<Json, MessageError>)
    ensures
        r is Ok <==> json_accepts(MIDPOINT_BLOCK@),
        r matches Ok(j) ==> j == json_model(MIDPOINT_BLOCK@),
        r matches Err(e) ==> e == MessageError::NotJson,
{
    parse_blocks(MIDPOINT_BLOCK)
}

/// The closing survey, parsed as the blocks to post.
pub fn closing_blocks() -> (r: Result<Json, MessageError>)
    ensures
        r is Ok <==> json_accepts(CLOSING_BLOCK@),
        r matches Ok(j) ==> j == json_model(CLOSING_BLOCK@),
        r matches Err(e) ==> e == MessageError::NotJson,
{
    parse_blocks(CLOSING_BLOCK)
}

} // verus!
