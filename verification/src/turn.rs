//! A single role-tagged message of the conversation. A turn holds its text
//! already escaped, so rendering can interpolate it verbatim into the JSON
//! payload for the chat endpoint. Turns are never mutated after creation.

use vstd::prelude::*;
use crate::escape::{escape_json, escape_seq};

verus! {

/// Who spoke a turn. The system prompt is not a turn: it is prepended at
/// render time and never stored.
#[derive(Clone, Copy, PartialEq, Eq, Structural, Debug)]
pub enum Role {
    User,
    Assistant,
}

/// The wire name of a role.
pub open spec fn role_str(r: Role) -> Seq<char> {
    match r {
        Role::User => "user"@,
        Role::Assistant => "assistant"@,
    }
}

/// The wire form of one message: a JSON object with `role` and `content`
/// fields, the content interpolated verbatim (it is already escaped).
pub open spec fn wire_turn(role: Seq<char>, content: Seq<char>) -> Seq<char> {
    "{\"role\": \""@ + role + "\", \"content\": \""@ + content + "\"}"@
}

/// One message of the conversation, its text already escaped.
pub struct Turn {
    pub role: Role,
    pub content: String,
}

/// The wire form of a turn.
pub open spec fn turn_wire(t: Turn) -> Seq<char> {
    wire_turn(role_str(t.role), t.content@)
}

/// Builds the wire form of one message from a role name and escaped content.
fn wire_of(role: &str, content: &str) -> (r: String)
    ensures
        r@ == wire_turn(role@, content@),
{
    let mut r = String::from_str("{\"role\": \"");
    r.append(role);
    r.append("\", \"content\": \"");
    r.append(content);
    r.append("\"}");
    proof {
        assert(r@ =~= wire_turn(role@, content@));
    }
    r
}

impl Turn {
    /// A user turn: the transcript text, escaped for storage.
    pub fn user(text: &str) -> (t: Turn)
        ensures
            t.role == Role::User,
            t.content@ == escape_seq(text@),
    {
        Turn { role: Role::User, content: escape_json(text) }
    }

    /// An assistant turn: the reply text, escaped for storage.
    pub fn assistant(text: &str) -> (t: Turn)
        ensures
            t.role == Role::Assistant,
            t.content@ == escape_seq(text@),
    {
        Turn { role: Role::Assistant, content: escape_json(text) }
    }

    /// Serializes this turn to the wire format the chat endpoint expects.
    pub fn to_wire(&self) -> (r: String)
        ensures
            r@ == turn_wire(*self),
    {
        match self.role {
            Role::User => wire_of("user", self.content.as_str()),
            Role::Assistant => wire_of("assistant", self.content.as_str()),
        }
    }
}

} // verus!
