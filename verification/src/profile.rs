//! The member profile that the chat service returns.

use std::collections::HashMap;
use vstd::prelude::*;

verus! {

/// A custom profile field.
#[derive(Debug)]
pub struct ProfileField {
    pub value: String,
    pub alt: String,
}

/// A member profile.
#[derive(Debug)]
pub struct Profile {
    pub title: String,
    pub phone: String,
    pub skype: String,
    pub real_name: String,
    pub real_name_normalized: String,
    pub display_name: String,
    pub display_name_normalized: String,
    pub fields: HashMap<String, ProfileField>,
    pub status_text: String,
    pub status_emoji: String,
    pub status_emoji_display_info: Vec<String>,
    pub status_expiration: i64,
    pub avatar_hash: String,
    pub start_date: String,
    pub email: String,
    pub pronouns: String,
    pub huddle_state: String,
    pub huddle_state_expiration_ts: i64,
    pub first_name: String,
    pub last_name: String,
    pub image24: String,
    pub image32: String,
    pub image48: String,
    pub image72: String,
    pub image192: String,
    pub image512: String,
}

/// The reply to a profile request.
#[derive(Debug)]
pub struct Payload {
    pub ok: bool,
    pub profile: Profile,
}

} // verus!
