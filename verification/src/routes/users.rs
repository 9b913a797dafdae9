//! Looking users up by Twitch login or display name.
use vstd::prelude::*;

use crate::models::User;
use crate::text::{trim_seq, trim_str};
use vstd::utf8::encode_utf8;

verus! {

broadcast use vstd::string::group_string_axioms;

/// A user search: the text looked for and how many results at most.
#[derive(Debug, Clone, PartialEq, Eq)]
pub struct SearchQuery {
    pub q: Option<String>,
    pub limit: Option<u32>,
}

/// The text a search looks for: the query trimmed (empty when not given).
pub open spec fn search_text(q: SearchQuery) -> Seq<char> {
    match q.q {
        Some(s) => trim_seq(s@),
        None => Seq::empty(),
    }
}

/// How many results a search returns at most: 10 when not given, never more than 50.
pub open spec fn search_limit(q: SearchQuery) -> int {
    let l = match q.limit {
        Some(l) => l as int,
        None => 10,
    };
    if l > 50 {
        50
    } else {
        l
    }
}

impl SearchQuery {
    /// The text to look for and the number of results, or nothing to search for when the
    /// trimmed text is shorter than two bytes.
    pub fn search_params(&self) -> (r: Option<(String, i64)>)
        ensures
            encode_utf8(search_text(*self)).len() < 2 ==> r is None,
            encode_utf8(search_text(*self)).len() >= 2 ==> (r matches Some((t, l)) && t@
                == search_text(*self) && l == search_limit(*self)),
    {
        let text = match &self.q {
            Some(s) => trim_str(s.as_str()),
            None => String::new(),
        };
        if text.as_str().as_bytes().len() < 2 {
            return None;
        }
        let l: u32 = match self.limit {
            Some(l) => l,
            None => 10,
        };
        let limit: u32 = if l > 50 {
            50
        } else {
            l
        };
        Some((text, limit as i64))
    }
}

/// A user as search results show them.
#[derive(Debug, Clone, PartialEq, Eq)]
pub struct UserResponse {
    pub id: String,
    pub twitch_id: String,
    pub twitch_login: String,
    pub twitch_display_name: String,
    pub twitch_profile_image_url: Option<String>,
    pub telegram_user_id: Option<String>,
    pub telegram_username: Option<String>,
    pub telegram_photo_url: Option<String>,
}

impl From<User> for UserResponse {
    fn from(u: User) -> (r: Self) {
        UserResponse {
            id: u.id,
            twitch_id: u.twitch_id,
            twitch_login: u.twitch_login,
            twitch_display_name: u.twitch_display_name,
            twitch_profile_image_url: Some(u.twitch_profile_image_url),
            telegram_user_id: u.telegram_user_id,
            telegram_username: u.telegram_username,
            telegram_photo_url: u.telegram_photo_url,
        }
    }
}

impl vstd::std_specs::convert::FromSpecImpl<User> for UserResponse {
    open spec fn obeys_from_spec() -> bool {
        true
    }

    /// The stored profile image is always shown, empty or not.
    open spec fn from_spec(u: User) -> Self {
        UserResponse {
            id: u.id,
            twitch_id: u.twitch_id,
            twitch_login: u.twitch_login,
            twitch_display_name: u.twitch_display_name,
            twitch_profile_image_url: Some(u.twitch_profile_image_url),
            telegram_user_id: u.telegram_user_id,
            telegram_username: u.telegram_username,
            telegram_photo_url: u.telegram_photo_url,
        }
    }
}

} // verus!
