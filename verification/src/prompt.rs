//! The prompt: what a line of input means, and how a message is shown.
//!
//! The prompt owns the display theme, the busy flag and the renderers. It
//! reads nothing and prints nothing: it is handed what was read and hands
//! back what is to be shown.

use crate::content::{views, ContentBlockView, Message};
use crate::render::{
    blank_line, blocks_rendered, print_newline, registered, render_blocks, DefaultRenderer,
    Output, OutputView, RendererRegistry, Theme, ToolRenderer,
};
use crate::text::{concat, eq_ignore_ascii_case, eq_ignoring_ascii_case, trim, trimmed};
use vstd::prelude::*;

verus! {

/// What a line of input asks for.
#[derive(Clone, Copy, Debug, PartialEq, Eq, Structural)]
pub enum Command {
    /// `/exit` or `/quit`: end the session.
    Exit,
    /// `/t`: switch between the light and the dark theme.
    ToggleTheme,
    /// `/?` or `/help`: show the commands.
    Help,
    /// Anything else: a message for the backend.
    Message,
}

/// The command that a line of input is, once trimmed: commands are matched
/// whole, whatever the case of their letters.
pub open spec fn command_of(line: Seq<char>) -> Command {
    if eq_ignoring_ascii_case(line, "/exit"@) || eq_ignoring_ascii_case(line, "/quit"@) {
        Command::Exit
    } else if eq_ignoring_ascii_case(line, "/t"@) {
        Command::ToggleTheme
    } else if eq_ignoring_ascii_case(line, "/?"@) || eq_ignoring_ascii_case(line, "/help"@) {
        Command::Help
    } else {
        Command::Message
    }
}

/// The command that a line of input is. Whitespace around it is ignored.
pub open spec fn classify(line: Seq<char>) -> Command {
    command_of(trimmed(line))
}

/// Executable form of [`command_of`].
pub fn parse_command(line: &str) -> (command: Command)
    ensures
        command == command_of(line@),
{
    if eq_ignore_ascii_case(line, "/exit") || eq_ignore_ascii_case(line, "/quit") {
        Command::Exit
    } else if eq_ignore_ascii_case(line, "/t") {
        Command::ToggleTheme
    } else if eq_ignore_ascii_case(line, "/?") || eq_ignore_ascii_case(line, "/help") {
        Command::Help
    } else {
        Command::Message
    }
}

/// Executable form of [`classify`].
pub fn classify_line(line: &str) -> (command: Command)
    ensures
        command == classify(line@),
{
    let text = trim(line);
    parse_command(text.as_str())
}

/// What the caller is to do after a line of input.
#[derive(Clone, Copy, Debug, PartialEq, Eq, Structural)]
pub enum InputType {
    /// Ask for another line.
    AskAgain,
    /// Send the content to the backend.
    Message,
    /// End the session.
    Exit,
}

/// A line of input, interpreted.
#[derive(Debug, PartialEq, Eq)]
pub struct Input {
    pub input_type: InputType,
    pub content: Option<String>,
}

/// The view of an [`Input`].
pub struct InputView {
    pub input_type: InputType,
    pub content: Option<Seq<char>>,
}

impl View for Input {
    type V = InputView;

    open spec fn view(&self) -> InputView {
        InputView {
            input_type: self.input_type,
            content: match self.content {
                Some(text) => Some(text@),
                None => None,
            },
        }
    }
}

/// How an attempt to read a line ended.
#[derive(Debug, PartialEq, Eq)]
pub enum ReadLine {
    /// A line was read.
    Line(String),
    /// The user interrupted the prompt.
    Interrupted,
    /// Reading failed for the reason given.
    Failed(String),
}

/// The view of a [`ReadLine`].
pub enum ReadLineView {
    Line(Seq<char>),
    Interrupted,
    Failed(Seq<char>),
}

impl View for ReadLine {
    type V = ReadLineView;

    open spec fn view(&self) -> ReadLineView {
        match self {
            ReadLine::Line(text) => ReadLineView::Line(text@),
            ReadLine::Interrupted => ReadLineView::Interrupted,
            ReadLine::Failed(reason) => ReadLineView::Failed(reason@),
        }
    }
}

/// The lines of the command summary.
pub open spec fn help_lines() -> Seq<OutputView> {
    seq![
        OutputView::Line { text: "Commands:"@ },
        OutputView::Line { text: "/exit - Exit the session"@ },
        OutputView::Line { text: "/t - Toggle Light/Dark theme"@ },
        OutputView::Line { text: "/? | /help - Display this help message"@ },
        OutputView::Line {
            text: "Ctrl+C - Interrupt goose (resets the interaction to before the interrupted user request)"@,
        },
    ]
}

/// How a read is interpreted.
pub open spec fn input_of(read: ReadLineView) -> InputView {
    match read {
        ReadLineView::Line(line) => match classify(line) {
            Command::Exit => InputView { input_type: InputType::Exit, content: None },
            Command::ToggleTheme | Command::Help => InputView {
                input_type: InputType::AskAgain,
                content: None,
            },
            Command::Message => InputView {
                input_type: InputType::Message,
                content: Some(trimmed(line)),
            },
        },
        _ => InputView { input_type: InputType::Exit, content: None },
    }
}

/// The theme after a read, given the theme before it.
pub open spec fn theme_after(theme: Theme, read: ReadLineView) -> Theme {
    match read {
        ReadLineView::Line(line) => if classify(line) == Command::ToggleTheme {
            theme.spec_toggled()
        } else {
            theme
        },
        _ => theme,
    }
}

/// What is shown in answer to a read, given the theme before it.
pub open spec fn notices_of(theme: Theme, read: ReadLineView) -> Seq<OutputView> {
    match read {
        ReadLineView::Line(line) => match classify(line) {
            Command::ToggleTheme => seq![
                OutputView::Line { text: theme.spec_toggled().spec_announcement() },
            ],
            Command::Help => help_lines(),
            _ => Seq::empty(),
        },
        ReadLineView::Interrupted => Seq::empty(),
        ReadLineView::Failed(reason) => seq![
            OutputView::ErrorLine { text: "Input error: "@ + reason },
        ],
    }
}

/// The command summary.
pub fn help() -> (lines: Vec<Output>)
    ensures
        views(lines@) == help_lines(),
{
    let lines = vec![
        Output::Line { text: String::from_str("Commands:") },
        Output::Line { text: String::from_str("/exit - Exit the session") },
        Output::Line { text: String::from_str("/t - Toggle Light/Dark theme") },
        Output::Line { text: String::from_str("/? | /help - Display this help message") },
        Output::Line {
            text: String::from_str(
                "Ctrl+C - Interrupt goose (resets the interaction to before the interrupted user request)",
            ),
        },
    ];
    assert(views(lines@) =~= help_lines());
    lines
}

/// The view of a [`RustylinePrompt`].
pub struct PromptView<R> {
    pub theme: Theme,
    pub busy: bool,
    pub renderers: Map<Seq<char>, R>,
}

/// The state of the prompt: the theme, whether the busy indicator is on, and
/// the renderers.
#[verifier::reject_recursive_types(R)]
pub struct RustylinePrompt<R: ToolRenderer = DefaultRenderer> {
    theme: Theme,
    busy: bool,
    renderers: RendererRegistry<R>,
}

impl<R: ToolRenderer> View for RustylinePrompt<R> {
    type V = PromptView<R>;

    closed spec fn view(&self) -> PromptView<R> {
        PromptView { theme: self.theme, busy: self.busy, renderers: self.renderers@ }
    }
}

/// `outputs` is what a prompt shows for a message made of `blocks`: one
/// output for each block in turn, then an empty line.
pub open spec fn shown<R: ToolRenderer>(
    prompt: PromptView<R>,
    blocks: Seq<ContentBlockView>,
    outputs: Seq<OutputView>,
) -> bool {
    &&& outputs.len() == blocks.len() + 1
    &&& blocks_rendered(prompt.renderers, blocks, prompt.theme, outputs.take(blocks.len() as int))
    &&& outputs.last() == blank_line()
}

impl RustylinePrompt<DefaultRenderer> {
    /// A prompt in the dark theme, idle, with the default renderer alone.
    pub fn new() -> (prompt: Self)
        ensures
            prompt.wf(),
            prompt@ == (PromptView {
                theme: Theme::Dark,
                busy: false,
                renderers: Map::<Seq<char>, DefaultRenderer>::empty().insert(
                    "default"@,
                    DefaultRenderer,
                ),
            }),
    {
        RustylinePrompt {
            theme: Theme::Dark,
            busy: false,
            renderers: RendererRegistry::new(DefaultRenderer),
        }
    }
}

impl<R: ToolRenderer> RustylinePrompt<R> {
    /// The prompt has a renderer under `"default"`.
    pub open spec fn wf(&self) -> bool {
        self@.renderers.contains_key("default"@)
    }

    /// A prompt in the dark theme, idle, with the given renderers.
    pub fn with_renderers(renderers: RendererRegistry<R>) -> (prompt: Self)
        requires
            renderers.wf(),
        ensures
            prompt.wf(),
            prompt@ == (PromptView { theme: Theme::Dark, busy: false, renderers: renderers@ }),
    {
        RustylinePrompt { theme: Theme::Dark, busy: false, renderers }
    }

    /// Registers `renderer` for its tool, in place of any renderer that the
    /// tool had.
    pub fn register(&mut self, renderer: R)
        requires
            old(self).wf(),
        ensures
            final(self).wf(),
            final(self)@.theme == old(self)@.theme,
            final(self)@.busy == old(self)@.busy,
            registered(old(self)@.renderers, renderer, final(self)@.renderers),
    {
        self.renderers.register(renderer);
    }

    /// The theme in use.
    pub fn theme(&self) -> (theme: Theme)
        ensures
            theme == self@.theme,
    {
        self.theme
    }

    /// Whether the busy indicator is on.
    pub fn is_busy(&self) -> (busy: bool)
        ensures
            busy == self@.busy,
    {
        self.busy
    }

    /// The renderers.
    pub fn renderers(&self) -> (renderers: &RendererRegistry<R>)
        ensures
            renderers@ == self@.renderers,
    {
        &self.renderers
    }

    /// What is shown for `message`: one output per block, in the order of
    /// the blocks, then an empty line.
    pub fn render(&self, message: &Message) -> (outputs: Vec<Output>)
        requires
            self.wf(),
        ensures
            outputs.len() == message.content.len() + 1,
            shown(self@, message@.content, views(outputs@)),
    {
        let mut outputs = render_blocks(&self.renderers, &message.content, self.theme);
        let ghost blocks = views(outputs@);
        outputs.push(print_newline());
        assert(views(outputs@).take(message@.content.len() as int) =~= blocks);
        outputs
    }

    /// Turns the busy indicator on.
    pub fn show_busy(&mut self)
        ensures
            final(self)@ == (PromptView { busy: true, ..old(self)@ }),
    {
        self.busy = true;
    }

    /// Turns the busy indicator off.
    pub fn hide_busy(&mut self)
        ensures
            final(self)@ == (PromptView { busy: false, ..old(self)@ }),
    {
        self.busy = false;
    }

    /// Interprets what was read at the prompt.
    ///
    /// A command is carried out here as far as it changes the prompt: `/t`
    /// switches the theme. What the command prints is handed back. A read
    /// that was interrupted or failed ends the session.
    pub fn get_input(&mut self, read: ReadLine) -> (answer: (Input, Vec<Output>))
        ensures
            answer.0@ == input_of(read@),
            views(answer.1@) == notices_of(old(self)@.theme, read@),
            final(self)@ == (PromptView { theme: theme_after(old(self)@.theme, read@), ..old(self)@ }),
    {
        let mut notices: Vec<Output> = Vec::new();
        assert(views(notices@) =~= Seq::<OutputView>::empty());
        match read {
            ReadLine::Line(line) => {
                let text = trim(line.as_str());
                match parse_command(text.as_str()) {
                    Command::Exit => (Input { input_type: InputType::Exit, content: None }, notices),
                    Command::ToggleTheme => {
                        self.theme = self.theme.toggled();
                        notices.push(
                            Output::Line { text: String::from_str(self.theme.announcement()) },
                        );
                        assert(views(notices@) =~= notices_of(old(self)@.theme, read@));
                        (Input { input_type: InputType::AskAgain, content: None }, notices)
                    },
                    Command::Help => {
                        (Input { input_type: InputType::AskAgain, content: None }, help())
                    },
                    Command::Message => {
                        (Input { input_type: InputType::Message, content: Some(text) }, notices)
                    },
                }
            },
            ReadLine::Interrupted => {
                (Input { input_type: InputType::Exit, content: None }, notices)
            },
            ReadLine::Failed(reason) => {
                notices.push(Output::ErrorLine { text: concat("Input error: ", reason.as_str()) });
                assert(views(notices@) =~= notices_of(old(self)@.theme, read@));
                (Input { input_type: InputType::Exit, content: None }, notices)
            },
        }
    }

    /// Ends the use of the prompt. Nothing is held that needs releasing.
    pub fn close(&self) {
    }
}

} // verus!
