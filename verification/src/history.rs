//! The bounded conversation history: an ordered, append-only-with-eviction
//! buffer of turns. The buffer never holds more than the configured limit;
//! appending to a full buffer evicts the oldest turn first. The optional
//! system prompt is not stored here and not counted against the limit: it is
//! prepended at render time.
//!
//! Contracts speak of a turn as its mathematical model: the pair of its role
//! and its (escaped) text.

use vstd::prelude::*;
use crate::escape::{escape_json, escape_seq};
use crate::turn::{role_str, wire_turn, Role, Turn};

verus! {

/// The mathematical model of a turn: its role and its (escaped) text.
pub open spec fn turn_model(t: Turn) -> (Role, Seq<char>) {
    (t.role, t.content@)
}

/// The models of a sequence of turns, in order.
pub open spec fn turns_model(ts: Seq<Turn>) -> Seq<(Role, Seq<char>)> {
    ts.map_values(|t: Turn| turn_model(t))
}

/// What one append does to the buffer contents: push to the back, and evict
/// the front element when the limit would be exceeded.
pub open spec fn push_evict<T>(s: Seq<T>, t: T, limit: nat) -> Seq<T> {
    if s.len() < limit {
        s.push(t)
    } else {
        s.push(t).drop_first()
    }
}

/// The buffer contents after a whole sequence of appends into an initially
/// empty buffer with the given limit.
pub open spec fn buffer_after<T>(appends: Seq<T>, limit: nat) -> Seq<T>
    decreases appends.len(),
{
    if appends.len() == 0 {
        Seq::empty()
    } else {
        push_evict(buffer_after(appends.drop_last(), limit), appends.last(), limit)
    }
}

/// How many of `n` appended turns a buffer with the given limit keeps.
pub open spec fn kept_count(n: nat, limit: nat) -> nat {
    if n <= limit {
        n
    } else {
        limit
    }
}

/// History eviction law: after any sequence of appends with a configured
/// limit, the buffer never holds more than the limit, and its contents are
/// exactly the most recently appended turns, in their original order.
pub proof fn lemma_history_eviction<T>(appends: Seq<T>, limit: nat)
    ensures
        buffer_after(appends, limit).len() <= limit,
        buffer_after(appends, limit) == appends.skip(
            appends.len() - kept_count(appends.len(), limit),
        ),
    decreases appends.len(),
{
    if appends.len() == 0 {
        assert(buffer_after(appends, limit) =~= appends.skip(0));
    } else {
        let pre = appends.drop_last();
        lemma_history_eviction(pre, limit);
        let b = buffer_after(pre, limit);
        let n = appends.len();
        let k = kept_count(n, limit);
        if b.len() < limit {
            assert(b.push(appends.last()) =~= appends.skip(n - k));
        } else {
            assert(b.push(appends.last()).drop_first() =~= appends.skip(n - k));
        }
    }
}

/// The wire form of one modelled turn.
pub open spec fn wire_of_model(m: (Role, Seq<char>)) -> Seq<char> {
    wire_turn(role_str(m.0), m.1)
}

/// The wire forms of a sequence of modelled turns, in order.
pub open spec fn wire_turns_of(ms: Seq<(Role, Seq<char>)>) -> Seq<Seq<char>> {
    ms.map_values(|m: (Role, Seq<char>)| wire_of_model(m))
}

/// What `render` produces: the optional system turn (for a non-empty prompt)
/// followed by the wire form of every stored turn, in order.
pub open spec fn render_spec(prompt: Seq<char>, ms: Seq<(Role, Seq<char>)>) -> Seq<Seq<char>> {
    if prompt.len() == 0 {
        wire_turns_of(ms)
    } else {
        seq![wire_turn("system"@, escape_seq(prompt))] + wire_turns_of(ms)
    }
}

/// The views of a sequence of strings.
pub open spec fn views_of(v: Seq<String>) -> Seq<Seq<char>> {
    v.map_values(|s: String| s@)
}

/// Prompt rendering law: with an empty configured prompt the system turn is
/// omitted entirely; with a non-empty prompt the rendered sequence starts
/// with the system turn and the remaining elements are exactly the stored
/// turns, in buffer order.
pub proof fn lemma_prompt_rendering(prompt: Seq<char>, ms: Seq<(Role, Seq<char>)>)
    ensures
        prompt.len() == 0 ==> render_spec(prompt, ms) == wire_turns_of(ms),
        prompt.len() > 0 ==> render_spec(prompt, ms).len() == ms.len() + 1,
        prompt.len() > 0 ==> render_spec(prompt, ms)[0] == wire_turn(
            "system"@,
            escape_seq(prompt),
        ),
        prompt.len() > 0 ==> render_spec(prompt, ms).skip(1) == wire_turns_of(ms),
{
    if prompt.len() > 0 {
        assert(render_spec(prompt, ms).skip(1) =~= wire_turns_of(ms));
    }
}

/// Rendering one more stored turn extends the rendered sequence by that
/// turn's wire form.
proof fn lemma_render_spec_push(prompt: Seq<char>, ms: Seq<(Role, Seq<char>)>, m: (Role, Seq<char>))
    ensures
        render_spec(prompt, ms.push(m)) == render_spec(prompt, ms).push(wire_of_model(m)),
{
    assert(ms.push(m).map_values(|x: (Role, Seq<char>)| wire_of_model(x)) =~= ms.map_values(
        |x: (Role, Seq<char>)| wire_of_model(x),
    ).push(wire_of_model(m)));
    assert(render_spec(prompt, ms.push(m)) =~= render_spec(prompt, ms).push(wire_of_model(m)));
}

/// Pushing a string onto a vector pushes its view onto the sequence of views.
proof fn lemma_views_push(v: Seq<String>, s: String)
    ensures
        views_of(v.push(s)) == views_of(v).push(s@),
{
    assert(views_of(v.push(s)) =~= views_of(v).push(s@));
}

/// Idempotent rendering law: two renderings of the same prompt and the same
/// buffer contents, each meeting `render`'s contract, are identical.
pub proof fn lemma_render_idempotent(
    prompt: Seq<char>,
    ms: Seq<(Role, Seq<char>)>,
    r1: Seq<Seq<char>>,
    r2: Seq<Seq<char>>,
)
    requires
        r1 == render_spec(prompt, ms),
        r2 == render_spec(prompt, ms),
    ensures
        r1 == r2,
{
}

/// The bounded conversation history.
pub struct History {
    turns: Vec<Turn>,
    limit: usize,
}

impl History {
    /// The models of the stored turns, oldest first.
    pub closed spec fn turns(&self) -> Seq<(Role, Seq<char>)> {
        turns_model(self.turns@)
    }

    /// The configured size limit.
    pub closed spec fn limit(&self) -> nat {
        self.limit as nat
    }

    /// The buffer never holds more turns than the limit.
    pub open spec fn wf(&self) -> bool {
        self.turns().len() <= self.limit()
    }

    /// An empty history with the given limit.
    pub fn new(limit: usize) -> (h: History)
        ensures
            h.turns() == Seq::<(Role, Seq<char>)>::empty(),
            h.limit() == limit as nat,
            h.wf(),
    {
        let h = History { turns: Vec::new(), limit };
        proof {
            assert(h.turns() =~= Seq::<(Role, Seq<char>)>::empty());
        }
        h
    }

    /// How many turns are stored.
    pub fn len(&self) -> (n: usize)
        ensures
            n as nat == self.turns().len(),
    {
        self.turns.len()
    }

    /// The turn at a position, oldest first.
    pub fn turn_at(&self, i: usize) -> (t: &Turn)
        requires
            i < self.turns().len(),
        ensures
            t.role == self.turns()[i as int].0,
            t.content@ == self.turns()[i as int].1,
    {
        &self.turns[i]
    }

    /// Pushes a turn to the back; if the buffer would then exceed the limit,
    /// the oldest turn is evicted first.
    pub fn append(&mut self, t: Turn)
        requires
            old(self).wf(),
        ensures
            final(self).wf(),
            final(self).limit() == old(self).limit(),
            final(self).turns() == push_evict(
                old(self).turns(),
                (t.role, t.content@),
                old(self).limit(),
            ),
    {
        let ghost t0 = self.turns@;
        self.turns.push(t);
        if self.turns.len() > self.limit {
            self.turns.remove(0);
            proof {
                assert(self.turns@ =~= t0.push(t).drop_first());
            }
        }
        proof {
            assert(self.turns() =~= push_evict(turns_model(t0), (t.role, t.content@), self.limit as nat));
        }
    }

    /// Renders the request payload: the optional system turn (when the prompt
    /// is non-empty, its text escaped) followed by every stored turn's wire
    /// form, in buffer order.
    pub fn render(&self, prompt: &str) -> (r: Vec<String>)
        ensures
            views_of(r@) == render_spec(prompt@, self.turns()),
    {
        let mut r: Vec<String> = Vec::new();
        if prompt.unicode_len() > 0 {
            let escaped = escape_json(prompt);
            let mut sys = String::from_str("{\"role\": \"");
            sys.append("system");
            sys.append("\", \"content\": \"");
            sys.append(escaped.as_str());
            sys.append("\"}");
            proof {
                assert(sys@ =~= wire_turn("system"@, escape_seq(prompt@)));
            }
            r.push(sys);
        }
        proof {
            assert(views_of(r@) =~~= render_spec(prompt@, self.turns().take(0)));
        }
        let n = self.turns.len();
        let mut i: usize = 0;
        while i < n
            invariant
                i <= n,
                n == self.turns().len(),
                views_of(r@) == render_spec(prompt@, self.turns().take(i as int)),
            decreases n - i,
        {
            let w = self.turns[i].to_wire();
            let ghost r0 = r@;
            r.push(w);
            proof {
                assert(self.turns().take(i as int).push(self.turns()[i as int]) =~= self.turns()
                    .take(i + 1 as int));
                lemma_render_spec_push(prompt@, self.turns().take(i as int), self.turns()[i as int]);
                lemma_views_push(r0, w);
                assert(w@ == wire_of_model(self.turns()[i as int]));
            }
            i = i + 1;
        }
        proof {
            assert(self.turns().take(n as int) =~= self.turns());
        }
        r
    }
}

} // verus!
