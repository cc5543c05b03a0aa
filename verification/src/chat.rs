//! Building the JSON body for the chat-completion endpoint: the fixed model
//! name and the rendered messages array, comma-separated.

use vstd::prelude::*;
use crate::history::{render_spec, views_of, History};
use crate::turn::Role;

verus! {

/// A sequence of rendered items joined with commas.
pub open spec fn join_comma(items: Seq<Seq<char>>) -> Seq<char>
    decreases items.len(),
{
    if items.len() == 0 {
        Seq::empty()
    } else if items.len() == 1 {
        items[0]
    } else {
        items[0] + ","@ + join_comma(items.drop_first())
    }
}

/// Joining one more item appends a comma (unless the join was empty) and the
/// item.
proof fn lemma_join_comma_push(items: Seq<Seq<char>>, x: Seq<char>)
    ensures
        items.len() == 0 ==> join_comma(items.push(x)) == x,
        items.len() > 0 ==> join_comma(items.push(x)) == join_comma(items) + ","@ + x,
    decreases items.len(),
{
    if items.len() == 0 {
        assert(items.push(x)[0] == x);
    } else if items.len() == 1 {
        assert(items.push(x)[0] == items[0]);
        assert(items.push(x).drop_first() =~= seq![x]);
        assert(seq![x][0] == x);
        assert(join_comma(seq![x]) == x);
        assert(join_comma(items.push(x)) == items[0] + ","@ + x);
        assert(join_comma(items) == items[0]);
    } else {
        assert(items.push(x).drop_first() =~= items.drop_first().push(x));
        lemma_join_comma_push(items.drop_first(), x);
        assert(join_comma(items.push(x)) == items[0] + ","@ + (join_comma(items.drop_first())
            + ","@ + x));
        assert(items[0] + ","@ + (join_comma(items.drop_first()) + ","@ + x) =~= (items[0] + ","@
            + join_comma(items.drop_first())) + ","@ + x);
    }
}

/// The full chat-completion request body for a prompt and buffer contents.
pub open spec fn chat_body_spec(prompt: Seq<char>, ms: Seq<(Role, Seq<char>)>) -> Seq<char> {
    "{\"model\": \"gpt-4o\", \"messages\": ["@ + join_comma(render_spec(prompt, ms)) + "]}"@
}

/// Builds the chat-completion request body: the fixed model name and the
/// rendered messages (optional system turn first, then the stored turns in
/// order), joined with commas inside the `messages` array.
pub fn chat_body(prompt: &str, history: &History) -> (r: String)
    ensures
        r@ == chat_body_spec(prompt@, history.turns()),
{
    let items = history.render(prompt);
    let ghost rendered = render_spec(prompt@, history.turns());
    let mut joined = String::new();
    let mut i: usize = 0;
    let n = items.len();
    while i < n
        invariant
            i <= n,
            n == items@.len(),
            views_of(items@) == rendered,
            joined@ == join_comma(rendered.take(i as int)),
        decreases n - i,
    {
        if i > 0 {
            joined.append(",");
        }
        joined.append(items[i].as_str());
        proof {
            assert(rendered.take(i as int).push(rendered[i as int]) =~= rendered.take(
                i + 1 as int,
            ));
            lemma_join_comma_push(rendered.take(i as int), rendered[i as int]);
            assert(items@[i as int]@ == rendered[i as int]);
        }
        i = i + 1;
    }
    proof {
        assert(rendered.take(n as int) =~= rendered);
    }
    let mut r = String::from_str("{\"model\": \"gpt-4o\", \"messages\": [");
    r.append(joined.as_str());
    r.append("]}");
    proof {
        assert(r@ =~= chat_body_spec(prompt@, history.turns()));
    }
    r
}

} // verus!
