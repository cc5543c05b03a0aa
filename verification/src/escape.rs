//! Escaping of turn text before it is interpolated verbatim into a JSON
//! payload. The escaper covers exactly four characters — backslash, double
//! quote, newline and apostrophe — which is enough for the payloads this
//! library builds without pulling in a structured encoder.

use vstd::prelude::*;
use crate::text::push_char;

verus! {

/// How one character is escaped for embedding in a JSON string literal.
pub open spec fn escape_char(c: char) -> Seq<char> {
    if c == '\\' {
        seq!['\\', '\\']
    } else if c == '"' {
        seq!['\\', '"']
    } else if c == '\n' {
        seq!['\\', 'n']
    } else if c == '\'' {
        seq!['\\', '\'']
    } else {
        seq![c]
    }
}

/// The escaped form of a whole string.
pub open spec fn escape_seq(s: Seq<char>) -> Seq<char>
    decreases s.len(),
{
    if s.len() == 0 {
        Seq::empty()
    } else {
        escape_char(s[0]) + escape_seq(s.drop_first())
    }
}

/// The character an escape code stands for when a JSON string literal is
/// decoded: `n` names a newline, every other escaped character names itself.
pub open spec fn unescape_code(c: char) -> char {
    if c == 'n' {
        '\n'
    } else {
        c
    }
}

/// Decoding of a JSON string literal's content, for the escapes the escaper
/// produces: a backslash followed by a code decodes to one character, any
/// other character stands for itself.
pub open spec fn unescape_seq(s: Seq<char>) -> Seq<char>
    decreases s.len(),
{
    if s.len() == 0 {
        Seq::empty()
    } else if s[0] == '\\' && s.len() >= 2 {
        seq![unescape_code(s[1])] + unescape_seq(s.skip(2))
    } else {
        seq![s[0]] + unescape_seq(s.drop_first())
    }
}

/// Escaping a string one character longer extends the escaped form by that
/// character's escape.
pub proof fn lemma_escape_seq_push(s: Seq<char>, c: char)
    ensures
        escape_seq(s.push(c)) == escape_seq(s) + escape_char(c),
    decreases s.len(),
{
    if s.len() == 0 {
        assert(s.push(c)[0] == c);
        assert(s.push(c).drop_first() =~= Seq::<char>::empty());
        assert(escape_seq(s.push(c)) == escape_char(c) + escape_seq(Seq::<char>::empty()));
        assert(escape_seq(Seq::<char>::empty()) == Seq::<char>::empty());
        assert(escape_seq(s.push(c)) =~= escape_seq(s) + escape_char(c));
    } else {
        assert(s.push(c).drop_first() =~= s.drop_first().push(c));
        lemma_escape_seq_push(s.drop_first(), c);
        assert(escape_char(s[0]) + (escape_seq(s.drop_first()) + escape_char(c)) =~= (escape_char(
            s[0],
        ) + escape_seq(s.drop_first())) + escape_char(c));
        assert(s.push(c)[0] == s[0]);
    }
}

/// Escaping round-trip: the escaped form of any string, decoded as the
/// content of a JSON string literal, gives back the original string.
pub proof fn lemma_escape_round_trip(s: Seq<char>)
    ensures
        unescape_seq(escape_seq(s)) == s,
    decreases s.len(),
{
    if s.len() == 0 {
        assert(unescape_seq(escape_seq(s)) =~= s);
    } else {
        let tail = s.drop_first();
        lemma_escape_round_trip(tail);
        let e = escape_seq(s);
        if s[0] == '\\' || s[0] == '"' || s[0] == '\n' || s[0] == '\'' {
            assert(e == escape_char(s[0]) + escape_seq(tail));
            assert(e[0] == '\\');
            assert(unescape_code(e[1]) == s[0]);
            assert(e.skip(2) =~= escape_seq(tail));
            assert(unescape_seq(e) =~= seq![s[0]] + tail);
        } else {
            assert(e[0] == s[0] && s[0] != '\\');
            assert(e.drop_first() =~= escape_seq(tail));
            assert(unescape_seq(e) =~= seq![s[0]] + tail);
        }
        assert(seq![s[0]] + tail =~= s);
    }
}

/// Escapes backslash, double quote, newline and apostrophe so the result can
/// be interpolated verbatim into a JSON string literal.
pub fn escape_json(s: &str) -> (r: String)
    ensures
        r@ == escape_seq(s@),
{
    let n: usize = s.unicode_len();
    let mut r = String::new();
    let mut i: usize = 0;
    while i < n
        invariant
            n == s@.len(),
            i <= n,
            r@ == escape_seq(s@.take(i as int)),
        decreases n - i,
    {
        let c = s.get_char(i);
        if c == '\\' {
            r.append("\\\\");
            proof {
                reveal_strlit("\\\\");
                assert("\\\\"@ =~= escape_char(c));
            }
        } else if c == '"' {
            r.append("\\\"");
            proof {
                reveal_strlit("\\\"");
                assert("\\\""@ =~= escape_char(c));
            }
        } else if c == '\n' {
            r.append("\\n");
            proof {
                reveal_strlit("\\n");
                assert("\\n"@ =~= escape_char(c));
            }
        } else if c == '\'' {
            r.append("\\'");
            proof {
                reveal_strlit("\\'");
                assert("\\'"@ =~= escape_char(c));
            }
        } else {
            push_char(&mut r, c);
            proof {
                assert(r@ =~= escape_seq(s@.take(i as int)) + escape_char(c));
            }
        }
        proof {
            lemma_escape_seq_push(s@.take(i as int), c);
            assert(s@.take(i as int).push(c) =~= s@.take(i + 1 as int));
        }
        i = i + 1;
    }
    proof {
        assert(s@.take(n as int) =~= s@);
    }
    r
}

} // verus!
