//! The speech-synthesis request builders. The style-tag backend understands
//! an inline directive at the start of a reply — a colon, a style token with
//! no embedded space, one space, then the spoken text — and wraps the spoken
//! text in a style annotation inside a fixed SSML envelope. The plain backend
//! posts a small JSON body instead.
//!
//! Policy for a directive with no space after the token (the whole reply is
//! `:token`): the token is taken as the style and the spoken text is empty,
//! matching the lenient reading of the directive rather than rejecting it.

use vstd::prelude::*;
use crate::escape::{escape_json, escape_seq};

verus! {

/// The position of the first space in a string, or its length when it has
/// none.
pub open spec fn space_index(s: Seq<char>) -> int
    decreases s.len(),
{
    if s.len() == 0 {
        0
    } else if s[0] == ' ' {
        0
    } else {
        1 + space_index(s.drop_first())
    }
}

/// The first space really is where `space_index` says: no space stands before
/// it, and it is a space unless the string has none.
pub proof fn lemma_space_index(s: Seq<char>)
    ensures
        0 <= space_index(s) <= s.len(),
        forall|j: int| 0 <= j < space_index(s) ==> s[j] != ' ',
        space_index(s) < s.len() ==> s[space_index(s)] == ' ',
    decreases s.len(),
{
    if s.len() == 0 {
    } else if s[0] == ' ' {
    } else {
        lemma_space_index(s.drop_first());
        assert(forall|j: int| 1 <= j < space_index(s) ==> s[j] == s.drop_first()[j - 1]);
    }
}

/// Whether a reply carries a style directive: it starts with a colon.
pub open spec fn has_directive(s: Seq<char>) -> bool {
    s.len() > 0 && s[0] == ':'
}

/// The style token of a directive: what stands between the colon and the
/// first space (or everything after the colon when there is no space).
pub open spec fn style_of(s: Seq<char>) -> Seq<char>
    recommends
        has_directive(s),
{
    s.skip(1).take(space_index(s.skip(1)))
}

/// The spoken text of a reply with a directive: what follows the first space,
/// or nothing when there is no space.
pub open spec fn spoken_of(s: Seq<char>) -> Seq<char>
    recommends
        has_directive(s),
{
    let rest = s.skip(1);
    if space_index(rest) < rest.len() {
        rest.skip(space_index(rest) + 1)
    } else {
        Seq::empty()
    }
}

/// A reply split into its optional style token and its spoken text.
pub struct SpeechText {
    pub style: Option<String>,
    pub spoken: String,
}

/// Splits a reply on its inline style directive. A reply starting with a
/// colon yields the style token (up to the first space) and the text after
/// the space; with no space the whole remainder is the token and the spoken
/// text is empty. A reply with no leading colon passes through unchanged,
/// with no style.
pub fn parse_style(text: &str) -> (r: SpeechText)
    ensures
        has_directive(text@) ==> r.style is Some && (match r.style {
            Some(st) => st@ == style_of(text@),
            None => false,
        }) && r.spoken@ == spoken_of(text@),
        !has_directive(text@) ==> r.style is None && r.spoken@ == text@,
{
    let n = text.unicode_len();
    if n == 0 || text.get_char(0) != ':' {
        return SpeechText { style: None, spoken: String::from_str(text) };
    }
    let ghost rest = text@.skip(1);
    let mut i: usize = 1;
    while i < n
        invariant
            1 <= i <= n,
            n == text@.len(),
            rest == text@.skip(1),
            forall|j: int| 0 <= j < i - 1 ==> rest[j] != ' ',
        ensures
            1 <= i <= n,
            forall|j: int| 0 <= j < i - 1 ==> rest[j] != ' ',
            i < n ==> rest[i - 1] == ' ',
        decreases n - i,
    {
        if text.get_char(i) == ' ' {
            proof {
                assert(rest[i - 1] == text@[i as int]);
            }
            break ;
        }
        proof {
            assert(rest[i - 1] == text@[i as int]);
        }
        i = i + 1;
    }
    proof {
        lemma_space_index(rest);
        if i < n {
            assert(rest[i - 1] == text@[i as int]);
            assert(space_index(rest) == i - 1) by {
                assert(rest[i - 1] == ' ');
            }
        } else {
            assert(space_index(rest) == rest.len());
        }
    }
    let style = text.substring_char(1, i).to_owned();
    proof {
        assert(style@ =~= style_of(text@));
    }
    if i < n {
        let spoken = text.substring_char(i + 1, n).to_owned();
        proof {
            assert(spoken@ =~= spoken_of(text@));
        }
        SpeechText { style: Some(style), spoken }
    } else {
        let spoken = String::new();
        proof {
            assert(spoken@ =~= spoken_of(text@));
        }
        SpeechText { style: Some(style), spoken }
    }
}

/// The built-in synthesis voice used when none is configured.
pub open spec fn default_voice() -> Seq<char> {
    "en-US-JasonNeural"@
}

/// The configured voice, or the built-in one when the configuration leaves it
/// empty.
pub open spec fn voice_or_default(voice: Seq<char>) -> Seq<char> {
    if voice.len() == 0 {
        default_voice()
    } else {
        voice
    }
}

/// The inner SSML for a reply: the spoken text wrapped in a style annotation
/// when a directive is present, the whole reply verbatim otherwise.
pub open spec fn ssml_inner(reply: Seq<char>) -> Seq<char> {
    if has_directive(reply) {
        "<mstts:express-as style='"@ + style_of(reply) + "'>"@ + spoken_of(reply)
            + "</mstts:express-as>"@
    } else {
        reply
    }
}

/// The full SSML request body: the fixed envelope, the chosen voice, and the
/// inner text.
pub open spec fn ssml_body_spec(voice: Seq<char>, reply: Seq<char>) -> Seq<char> {
    " <speak version='1.0' xmlns='http://www.w3.org/2001/10/synthesis' xmlns:mstts='http://www.w3.org/2001/mstts' xml:lang='en-US'><voice name='"@
        + voice_or_default(voice) + "'>"@ + ssml_inner(reply) + "</voice></speak>"@
}

/// Builds the SSML request body for the style-tag backend: the reply's
/// directive (if any) selects an expressive style for the spoken text, and
/// the result is embedded in the fixed envelope under the configured voice
/// (or the built-in default when none is set).
pub fn styled_request(reply: &str, voice: &str) -> (r: String)
    ensures
        r@ == ssml_body_spec(voice@, reply@),
{
    let parsed = parse_style(reply);
    let mut r = String::from_str(
        " <speak version='1.0' xmlns='http://www.w3.org/2001/10/synthesis' xmlns:mstts='http://www.w3.org/2001/mstts' xml:lang='en-US'><voice name='",
    );
    if voice.unicode_len() == 0 {
        r.append("en-US-JasonNeural");
    } else {
        r.append(voice);
    }
    r.append("'>");
    match &parsed.style {
        Some(st) => {
            r.append("<mstts:express-as style='");
            r.append(st.as_str());
            r.append("'>");
            r.append(parsed.spoken.as_str());
            r.append("</mstts:express-as>");
        },
        None => {
            r.append(parsed.spoken.as_str());
        },
    }
    r.append("</voice></speak>");
    proof {
        assert(r@ =~= ssml_body_spec(voice@, reply@));
    }
    r
}

/// The JSON request body for the plain text-to-speech endpoint: the fixed
/// model, the reply (escaped for interpolation), and the chosen voice.
pub open spec fn plain_body_spec(voice: Seq<char>, reply: Seq<char>) -> Seq<char> {
    "{\"model\": \"tts-1\", \"input\": \""@ + escape_seq(reply) + "\", \"voice\": \""@
        + voice_or_default(voice) + "\"}"@
}

/// Builds the JSON request body for the plain backend; the reply is used
/// whole, with no style parsing.
pub fn plain_request(reply: &str, voice: &str) -> (r: String)
    ensures
        r@ == plain_body_spec(voice@, reply@),
{
    let escaped = escape_json(reply);
    let mut r = String::from_str("{\"model\": \"tts-1\", \"input\": \"");
    r.append(escaped.as_str());
    r.append("\", \"voice\": \"");
    if voice.unicode_len() == 0 {
        r.append("en-US-JasonNeural");
    } else {
        r.append(voice);
    }
    r.append("\"}");
    proof {
        assert(r@ =~= plain_body_spec(voice@, reply@));
    }
    r
}

} // verus!
