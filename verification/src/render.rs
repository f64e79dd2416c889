//! Renderer dispatch: what is shown for each block of a message.
//!
//! Rendering computes values. Each block of a message becomes one
//! [`Output`], which says what to show and how; putting it on a terminal is
//! left to the caller. A tool request or response is formatted by the
//! renderer registered under the tool's name, or by the `"default"` renderer
//! when none is. A response carries no tool name, so it goes to the renderer
//! of the tool that was requested last in the same message.

use crate::content::{
    views, ContentBlock, ContentBlockView, Image, ImageView, ToolRequest, ToolRequestView,
    ToolResponse, ToolResponseView,
};
use crate::json::{error_text, error_to_string, pretty_text, to_string_pretty};
use crate::text::{
    concat, escape_newlines, lemma_unescape_inverts_escape, replace_escaped_newlines,
    starts_with_char, unescape_newlines, unquote, unquoted,
};
use vstd::hash_map::StringHashMap;
use vstd::prelude::*;

verus! {

/// The syntax in which a piece of output is highlighted.
#[derive(Clone, Copy, Debug, PartialEq, Eq, Structural)]
pub enum Language {
    Json,
    Markdown,
}

impl Language {
    /// The name under which a highlighter knows the syntax.
    pub open spec fn spec_name(self) -> Seq<char> {
        match self {
            Language::Json => "JSON"@,
            Language::Markdown => "Markdown"@,
        }
    }

    /// The name under which a highlighter knows the syntax.
    pub fn name(&self) -> (name: &'static str)
        ensures
            name@ == self.spec_name(),
    {
        match self {
            Language::Json => "JSON",
            Language::Markdown => "Markdown",
        }
    }
}

/// The colours in which output is shown.
#[derive(Clone, Copy, Debug, PartialEq, Eq, Structural)]
pub enum Theme {
    Light,
    Dark,
}

impl Theme {
    /// The name of the highlighting theme.
    pub open spec fn spec_name(self) -> Seq<char> {
        match self {
            Theme::Light => "GitHub"@,
            Theme::Dark => "zenburn"@,
        }
    }

    /// The other theme.
    pub open spec fn spec_toggled(self) -> Theme {
        match self {
            Theme::Light => Theme::Dark,
            Theme::Dark => Theme::Light,
        }
    }

    /// What is announced when this theme is switched to.
    pub open spec fn spec_announcement(self) -> Seq<char> {
        match self {
            Theme::Light => "Switching to Light theme"@,
            Theme::Dark => "Switching to Dark theme"@,
        }
    }

    /// The name of the highlighting theme.
    pub fn name(&self) -> (name: &'static str)
        ensures
            name@ == self.spec_name(),
    {
        match self {
            Theme::Light => "GitHub",
            Theme::Dark => "zenburn",
        }
    }

    /// The other theme.
    pub fn toggled(&self) -> (other: Theme)
        ensures
            other == self.spec_toggled(),
    {
        match self {
            Theme::Light => Theme::Dark,
            Theme::Dark => Theme::Light,
        }
    }

    /// What is announced when this theme is switched to.
    pub fn announcement(&self) -> (text: &'static str)
        ensures
            text@ == self.spec_announcement(),
    {
        match self {
            Theme::Light => "Switching to Light theme",
            Theme::Dark => "Switching to Dark theme",
        }
    }
}

/// One thing to show on the terminal.
#[derive(Debug, PartialEq, Eq)]
pub enum Output {
    /// Text to highlight as `language` in the colours of `theme`, wrapped at
    /// the character. With `framed`, it stands in a grid under a header that
    /// shows `title`.
    Highlighted { content: String, theme: String, language: Language, title: Option<String>, framed: bool },
    /// A line of plain text on standard output.
    Line { text: String },
    /// A line of plain text on standard error.
    ErrorLine { text: String },
}

/// The view of an [`Output`].
pub enum OutputView {
    Highlighted {
        content: Seq<char>,
        theme: Seq<char>,
        language: Language,
        title: Option<Seq<char>>,
        framed: bool,
    },
    Line { text: Seq<char> },
    ErrorLine { text: Seq<char> },
}

impl View for Output {
    type V = OutputView;

    open spec fn view(&self) -> OutputView {
        match self {
            Output::Highlighted { content, theme, language, title, framed } => {
                OutputView::Highlighted {
                    content: content@,
                    theme: theme@,
                    language: *language,
                    title: match title {
                        Some(title) => Some(title@),
                        None => None,
                    },
                    framed: *framed,
                }
            },
            Output::Line { text } => OutputView::Line { text: text@ },
            Output::ErrorLine { text } => OutputView::ErrorLine { text: text@ },
        }
    }
}

/// Prose without a frame.
pub open spec fn prose(content: Seq<char>, theme: Seq<char>) -> OutputView {
    OutputView::Highlighted {
        content,
        theme,
        language: Language::Markdown,
        title: None,
        framed: false,
    }
}

/// The arguments of a call to `tool_name`, framed, as JSON.
pub open spec fn request_frame(
    content: Seq<char>,
    theme: Seq<char>,
    tool_name: Seq<char>,
) -> OutputView {
    OutputView::Highlighted {
        content,
        theme,
        language: Language::Json,
        title: Some("Tool Request: "@ + tool_name),
        framed: true,
    }
}

/// The result of a tool, framed, in the given syntax.
pub open spec fn response_frame(
    content: Seq<char>,
    theme: Seq<char>,
    language: Language,
) -> OutputView {
    OutputView::Highlighted {
        content,
        theme,
        language,
        title: Some("Tool Response:"@),
        framed: true,
    }
}

/// The line shown in place of an image.
pub open spec fn image_line(image: ImageView) -> OutputView {
    OutputView::Line {
        text: "Image: [data: "@ + image.data + ", type: "@ + image.mime_type + "]"@,
    }
}

/// An empty line.
pub open spec fn blank_line() -> OutputView {
    OutputView::Line { text: Seq::<char>::empty() }
}

/// Prose without a frame, highlighted as Markdown.
pub fn print(content: &str, theme: &str) -> (out: Output)
    ensures
        out@ == prose(content@, theme@),
{
    Output::Highlighted {
        content: String::from_str(content),
        theme: String::from_str(theme),
        language: Language::Markdown,
        title: None,
        framed: false,
    }
}

/// The arguments of a tool call, framed under the tool's name.
pub fn print_tool_request(content: &str, theme: &str, tool_name: &str) -> (out: Output)
    ensures
        out@ == request_frame(content@, theme@, tool_name@),
{
    Output::Highlighted {
        content: String::from_str(content),
        theme: String::from_str(theme),
        language: Language::Json,
        title: Some(concat("Tool Request: ", tool_name)),
        framed: true,
    }
}

/// The result of a tool, framed.
pub fn print_tool_response(content: &str, theme: &str, language: Language) -> (out: Output)
    ensures
        out@ == response_frame(content@, theme@, language),
{
    Output::Highlighted {
        content: String::from_str(content),
        theme: String::from_str(theme),
        language,
        title: Some(String::from_str("Tool Response:")),
        framed: true,
    }
}

/// An empty line.
pub fn print_newline() -> (out: Output)
    ensures
        out@ == blank_line(),
{
    Output::Line { text: String::new() }
}

/// The line shown in place of an image.
pub fn print_image(image: &Image) -> (out: Output)
    ensures
        out@ == image_line(image@),
{
    let mut text = concat("Image: [data: ", image.data.as_str());
    text.append(", type: ");
    text.append(image.mime_type.as_str());
    text.append("]");
    Output::Line { text }
}

/// How the serialized result of a tool is shown. The text of a JSON string,
/// which opens with a quote, is shown without its surrounding quotes and
/// with escaped line breaks as real ones. Any other text is shown as it is.
pub open spec fn display_text(serialized: Seq<char>) -> Seq<char> {
    if serialized.len() > 0 && serialized.first() == '"' {
        unescape_newlines(unquoted(serialized))
    } else {
        serialized
    }
}

/// The syntax chosen for a tool's result: JSON when the text to show opens
/// with a brace, Markdown otherwise.
pub open spec fn display_language(shown: Seq<char>) -> Language {
    if shown.len() > 0 && shown[0] == '{' {
        Language::Json
    } else {
        Language::Markdown
    }
}

/// What the default renderer shows for a tool result whose JSON text is
/// `serialized`.
pub open spec fn result_frame(serialized: Seq<char>, theme: Seq<char>) -> OutputView {
    response_frame(display_text(serialized), theme, display_language(display_text(serialized)))
}

/// Prepares the serialized result of a tool for display.
pub fn format_tool_output(serialized: &str) -> (shown: (String, Language))
    ensures
        shown.0@ == display_text(serialized@),
        shown.1 == display_language(shown.0@),
{
    let formatted = if starts_with_char(serialized, '"') {
        replace_escaped_newlines(unquote(serialized).as_str())
    } else {
        String::from_str(serialized)
    };
    let language = if starts_with_char(formatted.as_str(), '{') {
        Language::Json
    } else {
        Language::Markdown
    };
    (formatted, language)
}

/// A string without a backslash of its own, written between quotes with its
/// line feeds escaped, is shown as itself: the quotes go and every line
/// feed is a real one again.
pub proof fn lemma_quoted_text_is_shown_as_itself(text: Seq<char>)
    requires
        forall|i: int| 0 <= i < text.len() ==> text[i] != '\\',
    ensures
        display_text(seq!['"'] + escape_newlines(text) + seq!['"']) == text,
{
    let inner = escape_newlines(text);
    let quoted = seq!['"'] + inner + seq!['"'];
    assert(quoted.first() == '"');
    let rest = quoted.drop_first();
    assert(rest =~= inner + seq!['"']);
    assert(rest.last() == '"');
    assert(rest.drop_last() =~= inner);
    lemma_unescape_inverts_escape(text);
}

/// Frames the serialized result of a tool for display.
pub fn render_tool_output(serialized: &str, theme: &str) -> (out: Output)
    ensures
        out@ == result_frame(serialized@, theme@),
{
    let (formatted, language) = format_tool_output(serialized);
    print_tool_response(formatted.as_str(), theme, language)
}

/// A display strategy for the requests and responses of one tool.
///
/// Implement it for each tool that is to be shown in a way of its own. The
/// trait asks nothing of what a renderer returns; whatever an
/// implementation promises of its methods, the dispatch hands on (see
/// [`request_rendered`] and [`response_rendered`]).
pub trait ToolRenderer {
    /// The name of the tool that this renderer is for.
    fn tool_name(&self) -> String;

    /// What is shown for a tool request.
    fn request(&self, tool_request: &ToolRequest, theme: Theme) -> Output;

    /// What is shown for a tool response.
    fn response(&self, tool_response: &ToolResponse, theme: Theme) -> Output;
}

/// `renderer` may call itself `name`: its `tool_name` can return a string
/// that reads so.
pub open spec fn named<R: ToolRenderer>(renderer: R, name: Seq<char>) -> bool {
    exists|text: String| #[trigger] text@ == name && call_ensures(R::tool_name, (&renderer,), text)
}

/// `renderer` may show `out` for `request`: its `request` method can return
/// an output that reads so, for a request that reads so.
pub open spec fn request_rendered<R: ToolRenderer>(
    renderer: R,
    request: ToolRequestView,
    theme: Theme,
    out: OutputView,
) -> bool {
    exists|asked: ToolRequest, shown: Output|
        #![trigger asked@, shown@]
        asked@ == request && shown@ == out && call_ensures(
            R::request,
            (&renderer, &asked, theme),
            shown,
        )
}

/// `renderer` may show `out` for `response`: its `response` method can
/// return an output that reads so, for a response that reads so.
pub open spec fn response_rendered<R: ToolRenderer>(
    renderer: R,
    response: ToolResponseView,
    theme: Theme,
    out: OutputView,
) -> bool {
    exists|answered: ToolResponse, shown: Output|
        #![trigger answered@, shown@]
        answered@ == response && shown@ == out && call_ensures(
            R::response,
            (&renderer, &answered, theme),
            shown,
        )
}

/// The renderer used for every tool that has none of its own.
#[derive(Clone, Copy, Debug, PartialEq, Eq, Structural)]
pub struct DefaultRenderer;

/// What the default renderer shows for a tool request: the arguments as
/// indented JSON under the tool's name; for a call that could not be
/// understood, or arguments that could not be serialized, the error as prose.
pub open spec fn default_request_output(request: ToolRequestView, theme: Theme) -> OutputView {
    match request.call {
        Ok(call) => match pretty_text(call.arguments) {
            Ok(serialized) => request_frame(serialized, theme.spec_name(), call.name),
            Err(error) => prose(error_text(error), theme.spec_name()),
        },
        Err(error) => prose(error, theme.spec_name()),
    }
}

/// What the default renderer shows for a tool response: the result as
/// [`result_frame`] has it; for a failed tool, or a result that could not be
/// serialized, the error as prose.
pub open spec fn default_response_output(response: ToolResponseView, theme: Theme) -> OutputView {
    match response.result {
        Ok(value) => match pretty_text(value) {
            Ok(serialized) => result_frame(serialized, theme.spec_name()),
            Err(error) => prose(error_text(error), theme.spec_name()),
        },
        Err(error) => prose(error, theme.spec_name()),
    }
}

impl ToolRenderer for DefaultRenderer {
    fn tool_name(&self) -> (name: String)
        ensures
            name@ == "default"@,
    {
        String::from_str("default")
    }

    fn request(&self, tool_request: &ToolRequest, theme: Theme) -> (out: Output)
        ensures
            out@ == default_request_output(tool_request@, theme),
    {
        match &tool_request.call {
            Ok(call) => match to_string_pretty(&call.arguments) {
                Ok(serialized) => print_tool_request(
                    serialized.as_str(),
                    theme.name(),
                    call.name.as_str(),
                ),
                Err(error) => print(error_to_string(&error).as_str(), theme.name()),
            },
            Err(error) => print(error.message.as_str(), theme.name()),
        }
    }

    fn response(&self, tool_response: &ToolResponse, theme: Theme) -> (out: Output)
        ensures
            out@ == default_response_output(tool_response@, theme),
    {
        match &tool_response.result {
            Ok(value) => match to_string_pretty(value) {
                Ok(serialized) => render_tool_output(serialized.as_str(), theme.name()),
                Err(error) => print(error_to_string(&error).as_str(), theme.name()),
            },
            Err(error) => print(error.message.as_str(), theme.name()),
        }
    }
}

/// What the default renderer returns is what [`default_request_output`] and
/// [`default_response_output`] say, and it calls itself `"default"`.
pub proof fn lemma_default_renderer_is_exact(
    request: ToolRequestView,
    response: ToolResponseView,
    theme: Theme,
    out: OutputView,
    name: Seq<char>,
)
    ensures
        request_rendered(DefaultRenderer, request, theme, out) ==> out == default_request_output(
            request,
            theme,
        ),
        response_rendered(DefaultRenderer, response, theme, out) ==> out
            == default_response_output(response, theme),
        named(DefaultRenderer, name) ==> name == "default"@,
{
}

/// The renderer that `renderers` yields for `name`: the one registered under
/// it, else the one registered under `"default"`.
pub open spec fn resolve<R>(renderers: Map<Seq<char>, R>, name: Seq<char>) -> R {
    if renderers.contains_key(name) {
        renderers[name]
    } else {
        renderers["default"@]
    }
}

/// `after` is `before` with `renderer` registered under a name that it
/// calls itself, in place of any renderer registered under that name.
pub open spec fn registered<R: ToolRenderer>(
    before: Map<Seq<char>, R>,
    renderer: R,
    after: Map<Seq<char>, R>,
) -> bool {
    exists|name: Seq<char>| #[trigger] named(renderer, name) && after == before.insert(name, renderer)
}

/// Renderers by tool name. There is always one under `"default"`.
#[verifier::reject_recursive_types(R)]
pub struct RendererRegistry<R: ToolRenderer> {
    entries: StringHashMap<R>,
}

impl<R: ToolRenderer> View for RendererRegistry<R> {
    type V = Map<Seq<char>, R>;

    closed spec fn view(&self) -> Map<Seq<char>, R> {
        self.entries@
    }
}

impl<R: ToolRenderer> RendererRegistry<R> {
    /// The registry has its `"default"` entry.
    pub open spec fn wf(&self) -> bool {
        self@.contains_key("default"@)
    }

    /// A registry whose only entry is `fallback`, under `"default"`.
    pub fn new(fallback: R) -> (registry: Self)
        ensures
            registry.wf(),
            registry@ == Map::<Seq<char>, R>::empty().insert("default"@, fallback),
    {
        let mut entries: StringHashMap<R> = StringHashMap::new();
        entries.insert(String::from_str("default"), fallback);
        RendererRegistry { entries }
    }

    /// Registers `renderer` under the name of its tool, in place of any
    /// renderer registered under that name before.
    pub fn register(&mut self, renderer: R)
        requires
            old(self).wf(),
        ensures
            final(self).wf(),
            registered(old(self)@, renderer, final(self)@),
    {
        let name = renderer.tool_name();
        assert(named(renderer, name@));
        self.entries.insert(name, renderer);
    }

    /// Whether a renderer is registered under `name`.
    pub fn contains(&self, name: &str) -> (found: bool)
        ensures
            found == self@.contains_key(name@),
    {
        self.entries.contains_key(name)
    }

    /// The renderer for `name`, falling back to the default one.
    pub fn lookup(&self, name: &str) -> (renderer: &R)
        requires
            self.wf(),
        ensures
            *renderer == resolve(self@, name@),
    {
        match self.entries.get(name) {
            Some(renderer) => renderer,
            None => match self.entries.get("default") {
                Some(renderer) => renderer,
                None => vstd::pervasive::unreached(),
            },
        }
    }
}

/// The tool name carried on from a block: that of the call, for a tool
/// request that was understood; otherwise the one carried so far.
pub open spec fn tool_after(last: Seq<char>, block: ContentBlockView) -> Seq<char> {
    match block {
        ContentBlockView::ToolRequest(request) => match request.call {
            Ok(call) => call.name,
            Err(_) => last,
        },
        _ => last,
    }
}

/// The tool name in force after `blocks` have been rendered, starting from
/// `"default"`.
pub open spec fn last_tool_name(blocks: Seq<ContentBlockView>) -> Seq<char>
    decreases blocks.len(),
{
    if blocks.len() == 0 {
        "default"@
    } else {
        tool_after(last_tool_name(blocks.drop_last()), blocks.last())
    }
}

/// `out` is what is shown for `block`, given the tool name in force before
/// it. Text, images and calls that were not understood have one possible
/// output. A request goes to the renderer of the tool that it calls, a
/// response to the renderer of the tool in force.
pub open spec fn block_rendered<R: ToolRenderer>(
    renderers: Map<Seq<char>, R>,
    last_tool: Seq<char>,
    block: ContentBlockView,
    theme: Theme,
    out: OutputView,
) -> bool {
    match block {
        ContentBlockView::Text(text) => out == prose(text, theme.spec_name()),
        ContentBlockView::ToolRequest(request) => match request.call {
            Ok(call) => request_rendered(resolve(renderers, call.name), request, theme, out),
            Err(error) => out == prose(error, theme.spec_name()),
        },
        ContentBlockView::ToolResponse(response) => response_rendered(
            resolve(renderers, last_tool),
            response,
            theme,
            out,
        ),
        ContentBlockView::Image(image) => out == image_line(image),
    }
}

/// `outputs` is what is shown for `blocks`: one output per block, in order,
/// each under the tool name left by the blocks before it.
pub open spec fn blocks_rendered<R: ToolRenderer>(
    renderers: Map<Seq<char>, R>,
    blocks: Seq<ContentBlockView>,
    theme: Theme,
    outputs: Seq<OutputView>,
) -> bool {
    &&& outputs.len() == blocks.len()
    &&& forall|i: int|
        0 <= i < blocks.len() ==> block_rendered(
            renderers,
            last_tool_name(blocks.take(i)),
            blocks[i],
            theme,
            #[trigger] outputs[i],
        )
}

/// The tool name to carry on after `block`.
pub fn next_tool_name<'a>(last: &'a str, block: &'a ContentBlock) -> (next: &'a str)
    ensures
        next@ == tool_after(last@, block@),
{
    match block {
        ContentBlock::ToolRequest(request) => match &request.call {
            Ok(call) => call.name.as_str(),
            Err(_) => last,
        },
        _ => last,
    }
}

/// Renders one block under the tool name in force before it.
pub fn render_block<R: ToolRenderer>(
    registry: &RendererRegistry<R>,
    last_tool: &str,
    block: &ContentBlock,
    theme: Theme,
) -> (out: Output)
    requires
        registry.wf(),
    ensures
        block_rendered(registry@, last_tool@, block@, theme, out@),
{
    match block {
        ContentBlock::Text(text) => print(text.text.as_str(), theme.name()),
        ContentBlock::ToolRequest(request) => match &request.call {
            Ok(call) => {
                let renderer = registry.lookup(call.name.as_str());
                let out = renderer.request(request, theme);
                assert(request_rendered(*renderer, request@, theme, out@));
                out
            },
            Err(error) => print(error.message.as_str(), theme.name()),
        },
        ContentBlock::ToolResponse(response) => {
            let renderer = registry.lookup(last_tool);
            let out = renderer.response(response, theme);
            assert(response_rendered(*renderer, response@, theme, out@));
            out
        },
        ContentBlock::Image(image) => print_image(image),
    }
}

/// Renders the blocks of a message from first to last.
///
/// Every block yields exactly one output, at the block's own position.
pub fn render_blocks<R: ToolRenderer>(
    registry: &RendererRegistry<R>,
    blocks: &Vec<ContentBlock>,
    theme: Theme,
) -> (outputs: Vec<Output>)
    requires
        registry.wf(),
    ensures
        outputs.len() == blocks.len(),
        blocks_rendered(registry@, views(blocks@), theme, views(outputs@)),
{
    let mut outputs: Vec<Output> = Vec::new();
    let mut last_tool: &str = "default";
    let mut i: usize = 0;
    assert(views(blocks@).take(0) =~= Seq::<ContentBlockView>::empty());
    while i < blocks.len()
        invariant
            registry.wf(),
            i <= blocks.len(),
            outputs.len() == i,
            last_tool@ == last_tool_name(views(blocks@).take(i as int)),
            forall|k: int|
                0 <= k < i ==> block_rendered(
                    registry@,
                    last_tool_name(views(blocks@).take(k)),
                    views(blocks@)[k],
                    theme,
                    (#[trigger] outputs@[k])@,
                ),
        decreases blocks.len() - i,
    {
        let block = &blocks[i];
        let out = render_block(registry, last_tool, block, theme);
        last_tool = next_tool_name(last_tool, block);
        outputs.push(out);
        proof {
            let all = views(blocks@);
            assert(all.take(i + 1).drop_last() =~= all.take(i as int));
            assert(all.take(i + 1).last() == block@);
        }
        i += 1;
    }
    proof {
        let shown = views(outputs@);
        assert forall|k: int| 0 <= k < blocks.len() implies block_rendered(
            registry@,
            last_tool_name(views(blocks@).take(k)),
            views(blocks@)[k],
            theme,
            #[trigger] shown[k],
        ) by {
            assert(shown[k] == outputs@[k]@);
        }
    }
    outputs
}

/// A tool request that was understood sets the tool name in force to the
/// name of its call; one that was not leaves it as it was; so does every
/// block of another kind.
pub proof fn lemma_last_tool_name_step(blocks: Seq<ContentBlockView>, i: int)
    requires
        0 <= i < blocks.len(),
    ensures
        match blocks[i] {
            ContentBlockView::ToolRequest(request) => match request.call {
                Ok(call) => last_tool_name(blocks.take(i + 1)) == call.name,
                Err(_) => last_tool_name(blocks.take(i + 1)) == last_tool_name(blocks.take(i)),
            },
            _ => last_tool_name(blocks.take(i + 1)) == last_tool_name(blocks.take(i)),
        },
{
    assert(blocks.take(i + 1).drop_last() =~= blocks.take(i));
    assert(blocks.take(i + 1).last() == blocks[i]);
}

/// Whether `block` is a tool request whose call was understood.
pub open spec fn names_a_tool(block: ContentBlockView) -> bool {
    block matches ContentBlockView::ToolRequest(request) && request.call is Ok
}

/// A block is rendered under the name of the tool requested last before it:
/// if the request at `i` was understood and none between `i` and `j` was,
/// the tool name in force at `j` is the one called at `i`.
pub proof fn lemma_response_pairs_with_latest_request(
    blocks: Seq<ContentBlockView>,
    i: int,
    j: int,
)
    requires
        0 <= i < j <= blocks.len(),
        names_a_tool(blocks[i]),
        forall|k: int| i < k < j ==> !names_a_tool(#[trigger] blocks[k]),
    ensures
        blocks[i] matches ContentBlockView::ToolRequest(request) && request.call matches Ok(call)
            && last_tool_name(blocks.take(j)) == call.name,
    decreases j - i,
{
    if j == i + 1 {
        lemma_last_tool_name_step(blocks, i);
    } else {
        lemma_response_pairs_with_latest_request(blocks, i, j - 1);
        lemma_last_tool_name_step(blocks, j - 1);
    }
}

/// Before any tool request that was understood, the tool name in force is
/// `"default"`.
pub proof fn lemma_last_tool_name_starts_at_default(blocks: Seq<ContentBlockView>, j: int)
    requires
        0 <= j <= blocks.len(),
        forall|k: int| 0 <= k < j ==> !names_a_tool(#[trigger] blocks[k]),
    ensures
        last_tool_name(blocks.take(j)) == "default"@,
    decreases j,
{
    if j == 0 {
        assert(blocks.take(0) =~= Seq::<ContentBlockView>::empty());
    } else {
        lemma_last_tool_name_starts_at_default(blocks, j - 1);
        lemma_last_tool_name_step(blocks, j - 1);
    }
}

} // verus!
