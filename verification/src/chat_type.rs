//! The kind of Telegram chat an integration posts to.
use vstd::prelude::*;

use crate::text::{all_ascii, ascii_lower, concat2, str_equal, to_lowercase, unicode_lowercase};

verus! {

broadcast use vstd::string::group_string_axioms;

/// Telegram chat kinds.
#[derive(Debug, Clone, Copy, PartialEq, Eq, Structural)]
pub enum ChatType {
    Private,
    Group,
    Supergroup,
    Channel,
}

/// The lower-case name of a chat kind.
pub open spec fn chat_type_name(t: ChatType) -> Seq<char> {
    match t {
        ChatType::Private => seq!['p', 'r', 'i', 'v', 'a', 't', 'e'],
        ChatType::Group => seq!['g', 'r', 'o', 'u', 'p'],
        ChatType::Supergroup => seq!['s', 'u', 'p', 'e', 'r', 'g', 'r', 'o', 'u', 'p'],
        ChatType::Channel => seq!['c', 'h', 'a', 'n', 'n', 'e', 'l'],
    }
}

/// The chat kind whose name is `name`, if any.
pub open spec fn chat_type_named(name: Seq<char>) -> Option<ChatType> {
    if name == chat_type_name(ChatType::Private) {
        Some(ChatType::Private)
    } else if name == chat_type_name(ChatType::Group) {
        Some(ChatType::Group)
    } else if name == chat_type_name(ChatType::Supergroup) {
        Some(ChatType::Supergroup)
    } else if name == chat_type_name(ChatType::Channel) {
        Some(ChatType::Channel)
    } else {
        None
    }
}

/// What `ChatType::from_str` returns: the kind named by the lower case of `s`.
pub open spec fn chat_type_parse(s: Seq<char>) -> Option<ChatType> {
    chat_type_named(unicode_lowercase(s))
}

/// The message of a refused conversion: `Invalid chat type: <value>`.
pub open spec fn invalid_chat_type_message(value: Seq<char>) -> Seq<char> {
    seq!['I', 'n', 'v', 'a', 'l', 'i', 'd', ' ', 'c', 'h', 'a', 't', ' ', 't', 'y', 'p', 'e', ':', ' ']
        + value
}

proof fn lemma_chat_type_literals()
    ensures
        "private"@ == chat_type_name(ChatType::Private),
        "group"@ == chat_type_name(ChatType::Group),
        "supergroup"@ == chat_type_name(ChatType::Supergroup),
        "channel"@ == chat_type_name(ChatType::Channel),
        "Invalid chat type: "@ == invalid_chat_type_message(Seq::empty()),
{
    reveal_strlit("private");
    reveal_strlit("group");
    reveal_strlit("supergroup");
    reveal_strlit("channel");
    reveal_strlit("Invalid chat type: ");
    assert("private"@ =~= chat_type_name(ChatType::Private));
    assert("group"@ =~= chat_type_name(ChatType::Group));
    assert("supergroup"@ =~= chat_type_name(ChatType::Supergroup));
    assert("channel"@ =~= chat_type_name(ChatType::Channel));
    assert("Invalid chat type: "@ =~= invalid_chat_type_message(Seq::empty()));
}

impl ChatType {
    /// Reads a chat kind from its name, ignoring case.
    pub fn from_str(s: &str) -> (r: Option<ChatType>)
        ensures
            r == chat_type_parse(s@),
            all_ascii(s@) ==> r == chat_type_named(ascii_lower(s@)),
    {
        proof {
            lemma_chat_type_literals();
        }
        let low = to_lowercase(s);
        let l = low.as_str();
        if str_equal(l, "private") {
            Some(ChatType::Private)
        } else if str_equal(l, "group") {
            Some(ChatType::Group)
        } else if str_equal(l, "supergroup") {
            Some(ChatType::Supergroup)
        } else if str_equal(l, "channel") {
            Some(ChatType::Channel)
        } else {
            None
        }
    }

    /// The lower-case name of the chat kind.
    pub fn as_str(self) -> (r: &'static str)
        ensures
            r@ == chat_type_name(self),
    {
        proof {
            lemma_chat_type_literals();
        }
        match self {
            ChatType::Private => "private",
            ChatType::Group => "group",
            ChatType::Supergroup => "supergroup",
            ChatType::Channel => "channel",
        }
    }

    /// The name as an owned string (the conversion into `String`).
    pub fn to_name(self) -> (r: String)
        ensures
            r@ == chat_type_name(self),
    {
        let s = self.as_str();
        s.to_owned()
    }

    /// Reads a chat kind, or says which value was refused
    /// (the conversion from `String` and from `&str`).
    pub fn try_from_str(value: &str) -> (r: Result<ChatType, String>)
        ensures
            chat_type_parse(value@) matches Some(t) ==> r == Ok::<ChatType, String>(t),
            chat_type_parse(value@) is None ==> (r matches Err(m) && m@
                == invalid_chat_type_message(value@)),
    {
        proof {
            lemma_chat_type_literals();
        }
        match ChatType::from_str(value) {
            Some(t) => Ok(t),
            None => Err(concat2("Invalid chat type: ", value)),
        }
    }
}

/// Reading back the name of any chat kind gives that kind.
pub proof fn law_chat_type_name_round_trip(t: ChatType)
    ensures
        all_ascii(chat_type_name(t)),
        ascii_lower(chat_type_name(t)) == chat_type_name(t),
        chat_type_named(chat_type_name(t)) == Some(t),
{
    let n = chat_type_name(t);
    assert(ascii_lower(n) =~= n);
}

} // verus!
