//! What the bot asks of the chat service and how it reads the replies.

use vstd::prelude::*;
use crate::json::{json_text, plain_text, Json};
use crate::text::{inner, lemma_without_exact, join_with, joined, retain_unequal, strip_quotes, without};

verus! {

/// The calls that the bot makes on the chat service.
#[derive(Debug, Clone, Copy, PartialEq, Eq, Structural)]
pub enum Method {
    ListMembersOfChannel,
    OpenDirectMessage,
    PostMessage,
    UserIdentity,
}

/// The address of each call.
pub open spec fn endpoint_text(m: Method) -> Seq<char> {
    match m {
        Method::ListMembersOfChannel => "https://slack.com/api/conversations.members"@,
        Method::OpenDirectMessage => "https://slack.com/api/conversations.open"@,
        Method::PostMessage => "https://slack.com/api/chat.postMessage"@,
        Method::UserIdentity => "https://slack.com/api/users.profile.get"@,
    }
}

/// A parsed web address.
#[verifier::external_type_specification]
#[verifier::external_body]
pub struct ExUrl(reqwest::Url);

/// Whether `reqwest::Url::parse` accepts a text as a web address.
pub uninterp spec fn url_accepts(text: Seq<char>) -> bool;

/// The address that `reqwest::Url::parse` parses from a text.
pub uninterp spec fn url_of(text: Seq<char>) -> reqwest::Url;

/// Parses a web address with `reqwest::Url::parse`; a parse error becomes
/// `None`. The address, and whether there is one, are named by `url_of` and
/// `url_accepts`; both depend on the text alone.
#[verifier::external_body]
fn parse_url(text: &str) -> (r: Option<reqwest::Url>)
    ensures
        r is Some <==> url_accepts(text@),
        r matches Some(u) ==> u == url_of(text@),
{
    reqwest::Url::parse(text).ok()
}

impl Method {
    /// The address of the call, parsed; `None` if the parser refuses it.
    pub fn url(&self) -> (r: Option<reqwest::Url>)
        ensures
            r is Some <==> url_accepts(endpoint_text(*self)),
            r matches Some(u) ==> u == url_of(endpoint_text(*self)),
    {
        parse_url(self.endpoint())
    }

    /// The address of the call.
    pub fn endpoint(&self) -> (r: &'static str)
        ensures
            r@ == endpoint_text(*self),
    {
        match self {
            Method::ListMembersOfChannel => "https://slack.com/api/conversations.members",
            Method::OpenDirectMessage => "https://slack.com/api/conversations.open",
            Method::PostMessage => "https://slack.com/api/chat.postMessage",
            Method::UserIdentity => "https://slack.com/api/users.profile.get",
        }
    }
}

/// Whether a reply reports success: its member `ok` is `true`.
pub open spec fn reply_succeeded(reply: Json) -> bool {
    reply.member("ok"@) == Some(Json::Bool(true))
}

/// Reads the success flag of a reply.
pub fn reply_ok(reply: &Json) -> (r: bool)
    ensures
        r == reply_succeeded(*reply),
{
    match reply.get("ok") {
        Some(v) => v.is_true(),
        None => false,
    }
}

/// Whether every element is a string.
pub open spec fn all_texts(items: Seq<Json>) -> bool {
    forall|i: int| 0 <= i < items.len() ==> (#[trigger] items[i]) is Str
}

/// The texts of string elements.
pub open spec fn texts_of(items: Seq<Json>) -> Seq<Seq<char>> {
    items.map_values(|j: Json| j->Str_0@)
}

/// A member list reply lists its members as an array of strings under
/// `members`; a reply of another shape is refused.
pub open spec fn members_listed(reply: Json) -> bool {
    &&& reply.field("members"@) is Array
    &&& all_texts(reply.field("members"@)->Array_0@)
}

/// The identifiers that a member list reply lists, in order.
pub open spec fn listed_members(reply: Json) -> Seq<Seq<char>> {
    texts_of(reply.field("members"@)->Array_0@)
}

/// Tells whether a member list reply has the shape that `listed_member_ids`
/// needs.
pub fn members_acceptable(reply: &Json) -> (r: bool)
    ensures
        r == members_listed(*reply),
{
    match reply.get("members") {
        Some(Json::Array(items)) => {
            let n = items.len();
            let mut i: usize = 0;
            assert(members_listed(*reply) == all_texts(items@));
            while i < n
                invariant
                    n == items@.len(),
                    i <= n,
                    members_listed(*reply) == all_texts(items@),
                    forall|j: int| 0 <= j < i ==> (#[trigger] items@[j]) is Str,
                decreases n - i,
            {
                match &items[i] {
                    Json::Str(_) => {},
                    _ => {
                        assert(!(items@[i as int] is Str));
                        return false;
                    },
                }
                i = i + 1;
            }
            true
        },
        _ => false,
    }
}

/// Reads the member identifiers of a member list reply, in order.
pub fn listed_member_ids(reply: &Json) -> (r: Vec<String>)
    requires
        members_listed(*reply),
    ensures
        r.deep_view() == listed_members(*reply),
{
    let mut out: Vec<String> = Vec::new();
    let members = reply.get("members");
    match members {
        Some(Json::Array(items)) => {
            let n = items.len();
            let mut i: usize = 0;
            while i < n
                invariant
                    n == items@.len(),
                    all_texts(items@),
                    i <= n,
                    out.deep_view() =~= texts_of(items@).take(i as int),
                decreases n - i,
            {
                assert(items@[i as int] is Str);
                let ghost before = out.deep_view();
                assert(texts_of(items@).take(i + 1) =~= texts_of(items@).take(i as int).push(
                    items@[i as int]->Str_0@));
                match &items[i] {
                    Json::Str(s) => {
                        out.push(s.clone());
                        assert(out.deep_view() =~= before.push(s@));
                    },
                    _ => {},
                }
                i = i + 1;
            }
            assert(texts_of(items@).take(n as int) =~= texts_of(items@));
            out
        },
        _ => out,
    }
}

/// The members of a channel other than the bot itself, in the order the
/// reply lists them.
pub fn channel_member_ids(reply: &Json, bot_id: &str) -> (r: Vec<String>)
    requires
        members_listed(*reply),
    ensures
        r.deep_view() == without(listed_members(*reply), bot_id@),
        !r.deep_view().contains(bot_id@),
{
    let ids = listed_member_ids(reply);
    let r = retain_unequal(ids, bot_id);
    proof {
        lemma_without_exact(listed_members(*reply), bot_id@);
    }
    r
}

/// A direct message reply that holds a `channel` object names the channel by
/// a string `id`; a reply of another shape is refused.
pub open spec fn opened_reply_shaped(reply: Json) -> bool {
    reply.field("channel"@) is Object ==> reply.field("channel"@).member("id"@) matches Some(Json::Str(_))
}

/// Every direct message reply whose `channel` is an object with a string `id`
/// is read, whatever the text of the id, and so is every reply that holds no
/// `channel` object.
pub proof fn lemma_string_channel_ids_are_read(reply: Json)
    ensures
        reply.field("channel"@).member("id"@) matches Some(Json::Str(_)) ==> opened_reply_shaped(reply),
        !(reply.field("channel"@) is Object) ==> opened_reply_shaped(reply),
        reply.field("channel"@) is Object && reply.field("channel"@).member("id"@) is Some ==> opened_channel(
            reply,
        ) == Some(inner(json_text(reply.field("channel"@).member("id"@).unwrap()))),
{
}

/// Tells whether a direct message reply has the shape that
/// `opened_channel_id` needs.
pub fn opened_reply_acceptable(reply: &Json) -> (r: bool)
    ensures
        r == opened_reply_shaped(*reply),
        reply.field("channel"@).member("id"@) matches Some(Json::Str(_)) ==> r,
        !(reply.field("channel"@) is Object) ==> r,
{
    match reply.get("channel") {
        Some(channel) => match channel {
            Json::Object(_) => match channel.get("id") {
                Some(Json::Str(_)) => true,
                _ => false,
            },
            _ => true,
        },
        None => true,
    }
}

/// The channel that a direct message reply opened: the JSON text of its
/// identifier without the surrounding quotes; `None` when the reply holds no
/// `channel` object.
pub open spec fn opened_channel(reply: Json) -> Option<Seq<char>> {
    if reply.field("channel"@) is Object {
        Some(inner(json_text(reply.field("channel"@).field("id"@))))
    } else {
        None
    }
}

/// Reads the channel that a direct message reply opened.
pub fn opened_channel_id(reply: &Json) -> (r: Option<String>)
    requires
        opened_reply_shaped(*reply),
    ensures
        r matches Some(id) ==> opened_channel(*reply) == Some(id@),
        r is None ==> opened_channel(*reply) is None,
        r matches Some(id) ==> (plain_text(reply.field("channel"@).field("id"@)->Str_0@)
            ==> id@ == reply.field("channel"@).field("id"@)->Str_0@),
{
    match reply.get("channel") {
        Some(channel) => {
            match channel {
                Json::Object(_) => {
                    let node = channel.get("id");
                    match node {
                        Some(Json::Str(id)) => {
                            let quoted = match node {
                                Some(n) => n.to_text(),
                                None => String::new(),
                            };
                            let stripped = strip_quotes(quoted.as_str());
                            match stripped {
                                Some(t) => {
                                    proof {
                                        if plain_text(id@) {
                                            assert(inner(quoted@) =~= id@);
                                        }
                                    }
                                    Some(t)
                                },
                                None => None,
                            }
                        },
                        _ => None,
                    }
                },
                _ => None,
            }
        },
        None => None,
    }
}

/// The node under `profile.real_name` of a profile reply.
pub open spec fn real_name_node(reply: Json) -> Json {
    reply.field("profile"@).field("real_name"@)
}

/// The name that a profile reply gives: the JSON text of its
/// `profile.real_name` node (`null` where there is none), or the empty text
/// when the reply reports no success.
pub open spec fn identity_text(reply: Json) -> Seq<char> {
    if reply_succeeded(reply) {
        json_text(real_name_node(reply))
    } else {
        Seq::empty()
    }
}

/// A successful profile reply names the member by the JSON text of its
/// `profile.real_name` node, whatever else the profile holds; any other reply
/// names nobody.
pub proof fn lemma_identity_is_the_real_name(reply: Json)
    ensures
        reply.member("ok"@) == Some(Json::Bool(true)) ==> identity_text(reply) == json_text(
            reply.field("profile"@).field("real_name"@),
        ),
        reply.member("ok"@) != Some(Json::Bool(true)) ==> identity_text(reply) == Seq::<char>::empty(),
{
}

/// Reads the name in a profile reply.
pub fn profile_identity(reply: &Json) -> (r: String)
    ensures
        r@ == identity_text(*reply),
        reply_succeeded(*reply) ==> (real_name_node(*reply) matches Json::Str(s) ==> (plain_text(s@)
            ==> r@ == seq!['"'] + s@ + seq!['"'])),
        reply_succeeded(*reply) && real_name_node(*reply) == Json::Null ==> r@ == "null"@,
        reply.member("ok"@) == Some(Json::Bool(true)) ==> r@ == json_text(
            reply.field("profile"@).field("real_name"@),
        ),
        reply.member("ok"@) != Some(Json::Bool(true)) ==> r@.len() == 0,
{
    if !reply_ok(reply) {
        return String::new();
    }
    let node = match reply.get("profile") {
        Some(profile) => profile.get("real_name"),
        None => None,
    };
    match node {
        Some(n) => n.to_text(),
        None => {
            let null = Json::Null;
            null.to_text()
        },
    }
}

/// The member identifiers joined by commas, as a direct message is opened
/// with them.
pub fn direct_message_users(users: &Vec<String>) -> (r: String)
    ensures
        r@ == joined(users.deep_view(), ","@),
{
    join_with(users, ",")
}

} // verus!
