//! The pipeline driver's state machine. One interaction cycle walks the
//! states strictly in sequence — wait for a trigger, record, transcribe, ask
//! for a reply, synthesize, play — and loops. The driver owns the history
//! buffer exclusively; a fatal outcome leaves the state and the history
//! untouched and hands the caller the diagnostic, so no turn of a failed
//! cycle is ever recorded.
//!
//! The outside work of each stage — the HTTP requests, the capture and
//! playback processes — is performed by the caller, which hands each
//! response back as a status code and a body.

use vstd::prelude::*;
use crate::chat::{chat_body, chat_body_spec};
use crate::escape::escape_seq;
use crate::history::{push_evict, History};
use crate::response::{extract_reply, extract_transcript, reply_of, transcript_of};
use crate::status::{check_status, is_success, FatalError};
use crate::style::{plain_body_spec, plain_request, ssml_body_spec, styled_request};
use crate::text::{lossy_of, utf8_lossy};
use crate::turn::{Role, Turn};

verus! {

/// Where the driver stands in the current cycle.
#[derive(Clone, Copy, PartialEq, Eq, Structural, Debug)]
pub enum PipelineState {
    WaitingForTrigger,
    Recording,
    Transcribing,
    AwaitingReply,
    Synthesizing,
    Playing,
}

/// Which speech-synthesis backend the configuration selected.
#[derive(Clone, Copy, PartialEq, Eq, Structural, Debug)]
pub enum SynthBackend {
    Plain,
    Styled,
}

/// The synthesis request body a backend builds for a reply.
pub open spec fn synth_body_spec(
    backend: SynthBackend,
    voice: Seq<char>,
    reply: Seq<char>,
) -> Seq<char> {
    match backend {
        SynthBackend::Plain => plain_body_spec(voice, reply),
        SynthBackend::Styled => ssml_body_spec(voice, reply),
    }
}

/// The pipeline driver: the current state, the history buffer it owns, and
/// the configured prompt, voice and backend.
pub struct Pipeline {
    state: PipelineState,
    history: History,
    prompt: String,
    voice: String,
    backend: SynthBackend,
}

/// The configuration of two driver values is the same.
pub open spec fn same_config(a: Pipeline, b: Pipeline) -> bool {
    a.limit() == b.limit() && a.prompt() == b.prompt() && a.voice() == b.voice() && a.backend()
        == b.backend()
}

impl Pipeline {
    /// The current state.
    pub closed spec fn state(&self) -> PipelineState {
        self.state
    }

    /// The models of the stored turns, oldest first.
    pub closed spec fn turns(&self) -> Seq<(Role, Seq<char>)> {
        self.history.turns()
    }

    /// The configured history limit.
    pub closed spec fn limit(&self) -> nat {
        self.history.limit()
    }

    /// The configured system prompt, possibly empty.
    pub closed spec fn prompt(&self) -> Seq<char> {
        self.prompt@
    }

    /// The configured synthesis voice, possibly empty.
    pub closed spec fn voice(&self) -> Seq<char> {
        self.voice@
    }

    /// The configured synthesis backend.
    pub closed spec fn backend(&self) -> SynthBackend {
        self.backend
    }

    /// The history never exceeds its limit.
    pub open spec fn wf(&self) -> bool {
        self.turns().len() <= self.limit()
    }

    /// A fresh driver: waiting for a trigger, with an empty history.
    pub fn new(prompt: String, limit: usize, voice: String, backend: SynthBackend) -> (p: Pipeline)
        ensures
            p.wf(),
            p.state() == PipelineState::WaitingForTrigger,
            p.turns() == Seq::<(Role, Seq<char>)>::empty(),
            p.limit() == limit as nat,
            p.prompt() == prompt@,
            p.voice() == voice@,
            p.backend() == backend,
    {
        Pipeline {
            state: PipelineState::WaitingForTrigger,
            history: History::new(limit),
            prompt,
            voice,
            backend,
        }
    }

    /// The current state, for the caller that performs the outside work.
    pub fn current_state(&self) -> (s: PipelineState)
        ensures
            s == self.state(),
    {
        self.state
    }

    /// How many turns the history holds.
    pub fn turn_count(&self) -> (n: usize)
        ensures
            n as nat == self.turns().len(),
    {
        self.history.len()
    }

    /// The role of the stored turn at a position, oldest first.
    pub fn turn_role(&self, i: usize) -> (r: Role)
        requires
            i < self.turns().len(),
        ensures
            r == self.turns()[i as int].0,
    {
        self.history.turn_at(i).role
    }

    /// The (escaped) text of the stored turn at a position, oldest first.
    pub fn turn_text(&self, i: usize) -> (s: String)
        requires
            i < self.turns().len(),
        ensures
            s@ == self.turns()[i as int].1,
    {
        self.history.turn_at(i).content.clone()
    }

    /// The start signal arrived: recording begins.
    pub fn on_start_signal(&mut self)
        requires
            old(self).state() == PipelineState::WaitingForTrigger,
        ensures
            final(self).state() == PipelineState::Recording,
            final(self).turns() == old(self).turns(),
            same_config(*final(self), *old(self)),
    {
        self.state = PipelineState::Recording;
    }

    /// The stop signal arrived: the capture process is shut down and the
    /// recording goes to transcription.
    pub fn on_stop_signal(&mut self)
        requires
            old(self).state() == PipelineState::Recording,
        ensures
            final(self).state() == PipelineState::Transcribing,
            final(self).turns() == old(self).turns(),
            same_config(*final(self), *old(self)),
    {
        self.state = PipelineState::Transcribing;
    }

    /// Records a successfully extracted transcript: the user turn is appended
    /// (evicting the oldest when the buffer is full) and the chat request
    /// body for the new history is built.
    pub fn accept_transcript(&mut self, text: &str) -> (body: String)
        requires
            old(self).wf(),
            old(self).state() == PipelineState::Transcribing,
        ensures
            final(self).wf(),
            same_config(*final(self), *old(self)),
            final(self).state() == PipelineState::AwaitingReply,
            final(self).turns() == push_evict(
                old(self).turns(),
                (Role::User, escape_seq(text@)),
                old(self).limit(),
            ),
            body@ == chat_body_spec(old(self).prompt(), final(self).turns()),
    {
        self.history.append(Turn::user(text));
        self.state = PipelineState::AwaitingReply;
        chat_body(self.prompt.as_str(), &self.history)
    }

    /// Handles the transcription response. A non-success status, or a body
    /// without a string `text` field, is fatal: the status and the full body
    /// are captured in the diagnostic and the history stays untouched. On
    /// success the transcript becomes a user turn and the chat request body
    /// is returned.
    pub fn on_transcription_response(&mut self, status: u16, body: &str) -> (r: Result<
        String,
        FatalError,
    >)
        requires
            old(self).wf(),
            old(self).state() == PipelineState::Transcribing,
        ensures
            final(self).wf(),
            same_config(*final(self), *old(self)),
            r is Ok <==> is_success(status) && transcript_of(body@) is Some,
            match r {
                Ok(out) => final(self).state() == PipelineState::AwaitingReply && final(self).turns() == push_evict(
                    old(self).turns(),
                    (Role::User, escape_seq(transcript_of(body@)->0)),
                    old(self).limit(),
                ) && out@ == chat_body_spec(old(self).prompt(), final(self).turns()),
                Err(e) => e.status == status && e.body@ == body@ && final(self).state() == old(
                    self,
                ).state() && final(self).turns() == old(self).turns(),
            },
    {
        match check_status(status, body) {
            Err(e) => Err(e),
            Ok(()) => match extract_transcript(body) {
                None => Err(FatalError { status, body: String::from_str(body) }),
                Some(text) => {
                    let out = self.accept_transcript(text.as_str());
                    proof {
                        assert(self.turns() == push_evict(
                            old(self).turns(),
                            (Role::User, escape_seq(text@)),
                            old(self).limit(),
                        ));
                    }
                    Ok(out)
                },
            },
        }
    }

    /// Records a successfully extracted reply: the assistant turn is appended
    /// (evicting the oldest when the buffer is full) and the synthesis
    /// request body for the configured backend is built from the reply.
    pub fn accept_reply(&mut self, text: &str) -> (body: String)
        requires
            old(self).wf(),
            old(self).state() == PipelineState::AwaitingReply,
        ensures
            final(self).wf(),
            same_config(*final(self), *old(self)),
            final(self).state() == PipelineState::Synthesizing,
            final(self).turns() == push_evict(
                old(self).turns(),
                (Role::Assistant, escape_seq(text@)),
                old(self).limit(),
            ),
            body@ == synth_body_spec(old(self).backend(), old(self).voice(), text@),
    {
        self.history.append(Turn::assistant(text));
        self.state = PipelineState::Synthesizing;
        match self.backend {
            SynthBackend::Plain => plain_request(text, self.voice.as_str()),
            SynthBackend::Styled => styled_request(text, self.voice.as_str()),
        }
    }

    /// Handles the chat-completion response. A non-success status, or a body
    /// without a string at `choices[0].message.content`, is fatal with the
    /// same body-capture policy as transcription. On success the reply
    /// becomes an assistant turn and the synthesis request body is returned.
    pub fn on_chat_response(&mut self, status: u16, body: &str) -> (r: Result<String, FatalError>)
        requires
            old(self).wf(),
            old(self).state() == PipelineState::AwaitingReply,
        ensures
            final(self).wf(),
            same_config(*final(self), *old(self)),
            r is Ok <==> is_success(status) && reply_of(body@) is Some,
            match r {
                Ok(out) => final(self).state() == PipelineState::Synthesizing && final(self).turns() == push_evict(
                    old(self).turns(),
                    (Role::Assistant, escape_seq(reply_of(body@)->0)),
                    old(self).limit(),
                ) && out@ == synth_body_spec(
                    old(self).backend(),
                    old(self).voice(),
                    reply_of(body@)->0,
                ),
                Err(e) => e.status == status && e.body@ == body@ && final(self).state() == old(
                    self,
                ).state() && final(self).turns() == old(self).turns(),
            },
    {
        match check_status(status, body) {
            Err(e) => Err(e),
            Ok(()) => match extract_reply(body) {
                None => Err(FatalError { status, body: String::from_str(body) }),
                Some(text) => {
                    let out = self.accept_reply(text.as_str());
                    proof {
                        assert(self.turns() == push_evict(
                            old(self).turns(),
                            (Role::Assistant, escape_seq(text@)),
                            old(self).limit(),
                        ) && out@ == synth_body_spec(
                            old(self).backend(),
                            old(self).voice(),
                            text@,
                        ));
                    }
                    Ok(out)
                },
            },
        }
    }

    /// Handles the synthesis response. On success the audio bytes pass
    /// through unchanged and playback begins; a non-success status is fatal,
    /// with the body decoded lossily for the diagnostic. The history is
    /// never touched here.
    pub fn on_synthesis_response(&mut self, status: u16, body: Vec<u8>) -> (r: Result<
        Vec<u8>,
        FatalError,
    >)
        requires
            old(self).wf(),
            old(self).state() == PipelineState::Synthesizing,
        ensures
            final(self).wf(),
            same_config(*final(self), *old(self)),
            final(self).turns() == old(self).turns(),
            r is Ok <==> is_success(status),
            match r {
                Ok(audio) => audio@ == body@ && final(self).state() == PipelineState::Playing,
                Err(e) => e.status == status && e.body@ == lossy_of(body@) && final(self).state()
                    == old(self).state(),
            },
    {
        if 200 <= status && status < 300 {
            self.state = PipelineState::Playing;
            Ok(body)
        } else {
            Err(FatalError { status, body: utf8_lossy(body.as_slice()) })
        }
    }

    /// Playback was started (fire-and-forget): the cycle is complete and the
    /// driver waits for the next trigger.
    pub fn on_playback_started(&mut self)
        requires
            old(self).state() == PipelineState::Playing,
        ensures
            final(self).state() == PipelineState::WaitingForTrigger,
            final(self).turns() == old(self).turns(),
            same_config(*final(self), *old(self)),
    {
        self.state = PipelineState::WaitingForTrigger;
    }

    /// Renders the current request payload without changing anything: the
    /// optional system turn followed by the stored turns' wire forms.
    pub fn render(&self) -> (r: Vec<String>)
        ensures
            crate::history::views_of(r@) == crate::history::render_spec(
                self.prompt(),
                self.turns(),
            ),
    {
        self.history.render(self.prompt.as_str())
    }
}

} // verus!
