//! The conversation loop as a state machine.
//!
//! A session waits for input, dispatches a message to the backend, renders
//! the reply and waits again. It talks to nobody: each method takes what
//! happened outside (a line was read, the backend answered, failed or was
//! interrupted) and says what the session is afterwards and what is to be
//! shown. A method called in a phase that it is not meant for changes
//! nothing.
//!
//! A turn is the user's message and the reply to it. The user's message is
//! staged while the backend works and enters the transcript together with
//! the reply, or not at all.

use crate::content::{lemma_views_push, user_message, views, Message, MessageView};
use crate::error::ProviderError;
use crate::prompt::{
    input_of, notices_of, shown, theme_after, InputType, PromptView, ReadLine, ReadLineView,
    RustylinePrompt,
};
use crate::provider::{CompletionRequest, CompletionRequestView, Usage, SYSTEM_PROMPT};
use crate::render::{DefaultRenderer, Output, OutputView, ToolRenderer};
use crate::tool::{distinct_names, ToolRegistry, ToolView};
use vstd::prelude::*;

verus! {

/// Where the conversation stands.
#[derive(Clone, Copy, Debug, PartialEq, Eq, Structural)]
pub enum Phase {
    /// Waiting for a line of input.
    AwaitingInput,
    /// A message is with the backend.
    Dispatching,
    /// A reply has come and is to be shown.
    Rendering,
    /// The session is over.
    Exiting,
}

/// The view of a [`Session`].
pub struct SessionView<R> {
    pub phase: Phase,
    pub prompt: PromptView<R>,
    pub model: Seq<char>,
    pub tools: Seq<ToolView>,
    pub transcript: Seq<MessageView>,
    pub staged: Option<MessageView>,
    pub usage: Option<Usage>,
}

impl<R> SessionView<R> {
    /// What holds of every session: the registries are in order, a message is
    /// staged exactly while the backend works, the busy indicator is on
    /// exactly then, and there is a reply to show while rendering.
    pub open spec fn consistent(self) -> bool {
        &&& self.prompt.renderers.contains_key("default"@)
        &&& distinct_names(self.tools)
        &&& self.staged is Some <==> self.phase == Phase::Dispatching
        &&& self.prompt.busy <==> self.phase == Phase::Dispatching
        &&& self.phase == Phase::Rendering ==> self.transcript.len() > 0
    }

    /// The session after a read at the prompt. A command is carried out; a
    /// message is staged and the backend is to be asked.
    pub open spec fn after_read(self, read: ReadLineView) -> Self {
        if self.phase != Phase::AwaitingInput {
            self
        } else {
            let input = input_of(read);
            let prompt = PromptView { theme: theme_after(self.prompt.theme, read), ..self.prompt };
            match input.input_type {
                InputType::Exit => SessionView { phase: Phase::Exiting, prompt, ..self },
                InputType::AskAgain => SessionView { prompt, ..self },
                InputType::Message => SessionView {
                    phase: Phase::Dispatching,
                    prompt: PromptView { busy: true, ..prompt },
                    staged: Some(user_message(input.content->0)),
                    ..self
                },
            }
        }
    }

    /// The session after the backend answered: the staged message and the
    /// reply enter the transcript together.
    pub open spec fn after_completion(self, reply: MessageView, usage: Usage) -> Self {
        if self.phase == Phase::Dispatching && self.staged is Some {
            SessionView {
                phase: Phase::Rendering,
                prompt: PromptView { busy: false, ..self.prompt },
                transcript: self.transcript.push(self.staged->0).push(reply),
                staged: None,
                usage: Some(usage),
                ..self
            }
        } else {
            self
        }
    }

    /// The session after the turn was given up, because the backend failed
    /// or the user interrupted it: the staged message is dropped.
    pub open spec fn after_abandon(self) -> Self {
        if self.phase == Phase::Dispatching {
            SessionView {
                phase: Phase::AwaitingInput,
                prompt: PromptView { busy: false, ..self.prompt },
                staged: None,
                ..self
            }
        } else {
            self
        }
    }

    /// The session after the reply was shown.
    pub open spec fn after_render(self) -> Self {
        if self.phase == Phase::Rendering {
            SessionView { phase: Phase::AwaitingInput, ..self }
        } else {
            self
        }
    }

    /// What is handed to the backend while a message is staged: the whole
    /// transcript, then the staged message; every tool; the fixed system
    /// prompt; no limit on the length of the reply.
    pub open spec fn request(self) -> Option<CompletionRequestView> {
        if self.phase == Phase::Dispatching && self.staged is Some {
            Some(
                CompletionRequestView {
                    model: self.model,
                    system: SYSTEM_PROMPT@,
                    messages: self.transcript.push(self.staged->0),
                    tools: self.tools,
                    max_tokens: None,
                },
            )
        } else {
            None
        }
    }
}

/// `outputs` is what is shown when the reply of a session is rendered: the
/// last message of the transcript, as the prompt shows it; nothing, unless
/// a reply is waiting to be shown.
pub open spec fn reply_shown<R: ToolRenderer>(
    session: SessionView<R>,
    outputs: Seq<OutputView>,
) -> bool {
    if session.phase == Phase::Rendering && session.transcript.len() > 0 {
        shown(session.prompt, session.transcript.last().content, outputs)
    } else {
        outputs == Seq::<OutputView>::empty()
    }
}

/// What is shown when the backend fails with `error`.
pub open spec fn failure_shown<R>(session: SessionView<R>, error: Seq<char>) -> Seq<OutputView> {
    if session.phase == Phase::Dispatching {
        seq![OutputView::ErrorLine { text: error }]
    } else {
        Seq::empty()
    }
}

/// What is shown in answer to a read.
pub open spec fn read_shown<R>(session: SessionView<R>, read: ReadLineView) -> Seq<OutputView> {
    if session.phase == Phase::AwaitingInput {
        notices_of(session.prompt.theme, read)
    } else {
        Seq::empty()
    }
}

/// A conversation: the prompt, the tools, the transcript so far, and the
/// message of the turn in progress.
#[verifier::reject_recursive_types(R)]
pub struct Session<R: ToolRenderer = DefaultRenderer> {
    prompt: RustylinePrompt<R>,
    tools: ToolRegistry,
    model: String,
    transcript: Vec<Message>,
    staged: Option<Message>,
    usage: Option<Usage>,
    phase: Phase,
}

impl<R: ToolRenderer> View for Session<R> {
    type V = SessionView<R>;

    closed spec fn view(&self) -> SessionView<R> {
        SessionView {
            phase: self.phase,
            prompt: self.prompt@,
            model: self.model@,
            tools: self.tools@,
            transcript: views(self.transcript@),
            staged: match self.staged {
                Some(message) => Some(message@),
                None => None,
            },
            usage: self.usage,
        }
    }
}

impl<R: ToolRenderer> Session<R> {
    /// The session is consistent.
    pub open spec fn wf(&self) -> bool {
        self@.consistent()
    }

    /// A session that waits for its first line of input.
    pub fn new(prompt: RustylinePrompt<R>, tools: ToolRegistry, model: &str) -> (session: Self)
        requires
            prompt.wf(),
            tools.wf(),
        ensures
            session.wf(),
            session@ == (SessionView {
                phase: Phase::AwaitingInput,
                prompt: PromptView { busy: false, ..prompt@ },
                model: model@,
                tools: tools@,
                transcript: Seq::<MessageView>::empty(),
                staged: None,
                usage: None,
            }),
    {
        let mut prompt = prompt;
        prompt.hide_busy();
        let session = Session {
            prompt,
            tools,
            model: String::from_str(model),
            transcript: Vec::new(),
            staged: None,
            usage: None,
            phase: Phase::AwaitingInput,
        };
        assert(session@.transcript =~= Seq::<MessageView>::empty());
        session
    }

    /// Where the conversation stands.
    pub fn phase(&self) -> (phase: Phase)
        ensures
            phase == self@.phase,
    {
        self.phase
    }

    /// The prompt.
    pub fn prompt(&self) -> (prompt: &RustylinePrompt<R>)
        ensures
            prompt@ == self@.prompt,
    {
        &self.prompt
    }

    /// The tools.
    pub fn tools(&self) -> (tools: &ToolRegistry)
        ensures
            tools@ == self@.tools,
    {
        &self.tools
    }

    /// The messages exchanged so far.
    pub fn transcript(&self) -> (transcript: &Vec<Message>)
        ensures
            views(transcript@) == self@.transcript,
    {
        &self.transcript
    }

    /// The accounting of the last completed turn.
    pub fn usage(&self) -> (usage: Option<Usage>)
        ensures
            usage == self@.usage,
    {
        self.usage
    }

    /// Takes what was read at the prompt. Hands back what is to be shown.
    pub fn handle_input(&mut self, read: ReadLine) -> (outputs: Vec<Output>)
        requires
            old(self).wf(),
        ensures
            final(self).wf(),
            final(self)@ == old(self)@.after_read(read@),
            views(outputs@) == read_shown(old(self)@, read@),
    {
        match self.phase {
            Phase::AwaitingInput => {},
            _ => {
                let outputs: Vec<Output> = Vec::new();
                assert(views(outputs@) =~= Seq::<OutputView>::empty());
                return outputs;
            },
        }
        let (input, outputs) = self.prompt.get_input(read);
        match input.input_type {
            InputType::Exit => {
                self.phase = Phase::Exiting;
            },
            InputType::AskAgain => {},
            InputType::Message => {
                match input.content {
                    Some(text) => {
                        self.staged = Some(Message::user(text.as_str()));
                        self.prompt.show_busy();
                        self.phase = Phase::Dispatching;
                    },
                    None => {},
                }
            },
        }
        outputs
    }

    /// What is to be handed to the backend, while a message is staged.
    pub fn request(&self) -> (request: Option<CompletionRequest<'_>>)
        requires
            self.wf(),
        ensures
            match self@.request() {
                Some(wanted) => request matches Some(r) && r@ == wanted,
                None => request is None,
            },
    {
        match self.phase {
            Phase::Dispatching => {},
            _ => {
                return None;
            },
        }
        match &self.staged {
            Some(staged) => {
                let mut messages: Vec<&Message> = Vec::new();
                let mut i: usize = 0;
                while i < self.transcript.len()
                    invariant
                        i <= self.transcript.len(),
                        messages.len() == i,
                        forall|k: int| 0 <= k < i ==> *(#[trigger] messages@[k]) == self.transcript@[k],
                    decreases self.transcript.len() - i,
                {
                    messages.push(&self.transcript[i]);
                    i += 1;
                }
                messages.push(staged);
                proof {
                    let wanted = views(self.transcript@).push(staged@);
                    assert(views(messages@).len() == wanted.len());
                    assert forall|k: int| 0 <= k < wanted.len() implies views(messages@)[k]
                        == wanted[k] by {
                        assert(views(messages@)[k] == messages@[k]@);
                        if k < self.transcript.len() {
                            assert(*messages@[k] == self.transcript@[k]);
                        }
                    }
                    assert(views(messages@) =~= wanted);
                }
                Some(
                    CompletionRequest {
                        model: self.model.as_str(),
                        system: SYSTEM_PROMPT,
                        messages,
                        tools: self.tools.tools(),
                        max_tokens: None,
                    },
                )
            },
            None => None,
        }
    }

    /// Takes the reply of the backend: the turn is complete.
    pub fn complete(&mut self, reply: Message, usage: Usage)
        requires
            old(self).wf(),
        ensures
            final(self).wf(),
            final(self)@ == old(self)@.after_completion(reply@, usage),
    {
        match self.phase {
            Phase::Dispatching => {},
            _ => {
                return ;
            },
        }
        match self.staged.take() {
            Some(staged) => {
                proof {
                    lemma_views_push(self.transcript@, staged);
                    lemma_views_push(self.transcript@.push(staged), reply);
                }
                self.transcript.push(staged);
                self.transcript.push(reply);
                self.usage = Some(usage);
                self.prompt.hide_busy();
                self.phase = Phase::Rendering;
            },
            None => {},
        }
    }

    /// Takes the failure of the backend: the turn is given up and the error
    /// is to be shown.
    pub fn fail(&mut self, error: ProviderError) -> (outputs: Vec<Output>)
        requires
            old(self).wf(),
        ensures
            final(self).wf(),
            final(self)@ == old(self)@.after_abandon(),
            views(outputs@) == failure_shown(old(self)@, error@),
    {
        let mut outputs: Vec<Output> = Vec::new();
        assert(views(outputs@) =~= Seq::<OutputView>::empty());
        match self.phase {
            Phase::Dispatching => {
                self.abandon();
                outputs.push(Output::ErrorLine { text: error.message });
                assert(views(outputs@) =~= failure_shown(old(self)@, error@));
            },
            _ => {},
        }
        outputs
    }

    /// Takes what the backend returned for the request: a reply completes
    /// the turn, an error gives it up. The error is handed back to be shown,
    /// as it came.
    pub fn settle(&mut self, outcome: Result<(Message, Usage), ProviderError>) -> (outputs: Vec<
        Output,
    >)
        requires
            old(self).wf(),
        ensures
            final(self).wf(),
            match outcome {
                Ok(reply) => final(self)@ == old(self)@.after_completion(reply.0@, reply.1)
                    && views(outputs@) == Seq::<OutputView>::empty(),
                Err(error) => final(self)@ == old(self)@.after_abandon() && views(outputs@)
                    == failure_shown(old(self)@, error@),
            },
    {
        match outcome {
            Ok((reply, usage)) => {
                self.complete(reply, usage);
                let outputs: Vec<Output> = Vec::new();
                assert(views(outputs@) =~= Seq::<OutputView>::empty());
                outputs
            },
            Err(error) => self.fail(error),
        }
    }

    /// Takes an interrupt: the turn in progress, if any, is given up.
    pub fn interrupt(&mut self)
        requires
            old(self).wf(),
        ensures
            final(self).wf(),
            final(self)@ == old(self)@.after_abandon(),
    {
        match self.phase {
            Phase::Dispatching => {
                self.abandon();
            },
            _ => {},
        }
    }

    /// Drops the staged message and goes back to waiting for input.
    fn abandon(&mut self)
        requires
            old(self).wf(),
            old(self)@.phase == Phase::Dispatching,
        ensures
            final(self).wf(),
            final(self)@ == old(self)@.after_abandon(),
    {
        self.staged = None;
        self.prompt.hide_busy();
        self.phase = Phase::AwaitingInput;
    }

    /// What is to be shown for the reply that has come. The session then
    /// waits for input again.
    pub fn render(&mut self) -> (outputs: Vec<Output>)
        requires
            old(self).wf(),
        ensures
            final(self).wf(),
            final(self)@ == old(self)@.after_render(),
            reply_shown(old(self)@, views(outputs@)),
    {
        match self.phase {
            Phase::Rendering => {},
            _ => {
                let outputs: Vec<Output> = Vec::new();
                assert(views(outputs@) =~= Seq::<OutputView>::empty());
                return outputs;
            },
        }
        let last = self.transcript.len() - 1;
        let outputs = self.prompt.render(&self.transcript[last]);
        self.phase = Phase::AwaitingInput;
        outputs
    }
}

/// Every step keeps a session consistent.
pub proof fn lemma_steps_keep_consistency<R>(
    session: SessionView<R>,
    read: ReadLineView,
    reply: MessageView,
    usage: Usage,
)
    requires
        session.consistent(),
    ensures
        session.after_read(read).consistent(),
        session.after_completion(reply, usage).consistent(),
        session.after_abandon().consistent(),
        session.after_render().consistent(),
{
}

/// Only a completed turn changes the transcript: a read, an abandoned turn
/// and a rendering leave it as it is.
pub proof fn lemma_transcript_changes_only_on_completion<R>(
    session: SessionView<R>,
    read: ReadLineView,
)
    ensures
        session.after_read(read).transcript == session.transcript,
        session.after_abandon().transcript == session.transcript,
        session.after_render().transcript == session.transcript,
{
}

/// A turn that is interrupted, or that the backend fails, leaves no trace:
/// if a message is staged from a session that waits for input and the turn
/// is then given up, the session is what it was before the message was
/// read, transcript included.
pub proof fn lemma_abandoned_turn_is_rolled_back<R>(session: SessionView<R>, read: ReadLineView)
    requires
        session.consistent(),
        session.phase == Phase::AwaitingInput,
        input_of(read).input_type == InputType::Message,
    ensures
        session.after_read(read).phase == Phase::Dispatching,
        session.after_read(read).after_abandon() == session,
{
}

/// A turn enters the transcript whole: after a message was read and the
/// backend answered, the transcript is the earlier one followed by the
/// user's message and the reply, in that order.
pub proof fn lemma_completed_turn_is_appended_whole<R>(
    session: SessionView<R>,
    read: ReadLineView,
    reply: MessageView,
    usage: Usage,
)
    requires
        session.consistent(),
        session.phase == Phase::AwaitingInput,
        input_of(read).input_type == InputType::Message,
    ensures
        session.after_read(read).after_completion(reply, usage).transcript
            == session.transcript.push(user_message(input_of(read).content->0)).push(reply),
        session.after_read(read).after_completion(reply, usage).phase == Phase::Rendering,
{
}

/// Commands never reach the backend: after a read that is not a message,
/// nothing is staged and there is nothing to request.
pub proof fn lemma_commands_stay_local<R>(session: SessionView<R>, read: ReadLineView)
    requires
        session.consistent(),
        session.phase == Phase::AwaitingInput,
        input_of(read).input_type != InputType::Message,
    ensures
        session.after_read(read).staged is None,
        session.after_read(read).request() is None,
        session.after_read(read).phase == Phase::AwaitingInput || session.after_read(read).phase
            == Phase::Exiting,
{
}

} // verus!
