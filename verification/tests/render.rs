use goose_cli::content::{
    ContentBlock, Image, Message, Role, Text, ToolCall, ToolCallError, ToolError, ToolRequest,
    ToolResponse,
};
use goose_cli::prompt::RustylinePrompt;
use goose_cli::render::{
    format_tool_output, next_tool_name, print, print_image, print_newline, print_tool_request,
    print_tool_response, render_block, render_blocks, render_tool_output, DefaultRenderer,
    Language, Output, RendererRegistry, Theme, ToolRenderer,
};
use serde_json::Value;

/// A renderer that shows who it is and what it was asked for.
enum Tagging {
    Builtin(DefaultRenderer),
    Tag(String),
}

impl ToolRenderer for Tagging {
    fn tool_name(&self) -> String {
        match self {
            Tagging::Builtin(inner) => inner.tool_name(),
            Tagging::Tag(name) => name.clone(),
        }
    }

    fn request(&self, tool_request: &ToolRequest, theme: Theme) -> Output {
        match self {
            Tagging::Builtin(inner) => inner.request(tool_request, theme),
            Tagging::Tag(name) => Output::Line { text: format!("{} request {}", name, tool_request.id) },
        }
    }

    fn response(&self, tool_response: &ToolResponse, theme: Theme) -> Output {
        match self {
            Tagging::Builtin(inner) => inner.response(tool_response, theme),
            Tagging::Tag(name) => Output::Line { text: format!("{} response {}", name, tool_response.id) },
        }
    }
}

fn arguments(text: &str) -> Value {
    let mut map = serde_json::Map::new();
    map.insert("text".to_string(), Value::String(text.to_string()));
    Value::Object(map)
}

fn request(id: &str, name: &str, text: &str) -> ToolRequest {
    ToolRequest {
        id: id.to_string(),
        call: Ok(ToolCall { name: name.to_string(), arguments: arguments(text) }),
    }
}

fn bad_request(id: &str, why: &str) -> ToolRequest {
    ToolRequest { id: id.to_string(), call: Err(ToolCallError { message: why.to_string() }) }
}

fn response(id: &str, value: Value) -> ToolResponse {
    ToolResponse { id: id.to_string(), result: Ok(value) }
}

fn highlighted(content: &str, theme: &str, language: Language, title: Option<&str>, framed: bool) -> Output {
    Output::Highlighted {
        content: content.to_string(),
        theme: theme.to_string(),
        language,
        title: title.map(|t| t.to_string()),
        framed,
    }
}

#[test]
fn print_is_unframed_markdown() {
    assert_eq!(print("hello", "zenburn"), highlighted("hello", "zenburn", Language::Markdown, None, false));
}

#[test]
fn print_tool_request_frames_json_under_the_tool_name() {
    assert_eq!(
        print_tool_request("{}", "GitHub", "count_words"),
        highlighted("{}", "GitHub", Language::Json, Some("Tool Request: count_words"), true)
    );
}

#[test]
fn print_tool_response_frames_in_the_given_language() {
    assert_eq!(
        print_tool_response("4", "zenburn", Language::Markdown),
        highlighted("4", "zenburn", Language::Markdown, Some("Tool Response:"), true)
    );
}

#[test]
fn print_newline_is_an_empty_line() {
    assert_eq!(print_newline(), Output::Line { text: String::new() });
}

#[test]
fn print_image_names_data_and_type() {
    let image = Image { data: "aGk=".to_string(), mime_type: "image/png".to_string() };
    assert_eq!(print_image(&image), Output::Line { text: "Image: [data: aGk=, type: image/png]".to_string() });
}

#[test]
fn theme_names_are_what_the_highlighter_expects() {
    assert_eq!(Theme::Light.name(), "GitHub");
    assert_eq!(Theme::Dark.name(), "zenburn");
    assert_eq!(Theme::Light.toggled(), Theme::Dark);
    assert_eq!(Theme::Dark.toggled(), Theme::Light);
    assert_eq!(Theme::Light.announcement(), "Switching to Light theme");
    assert_eq!(Theme::Dark.announcement(), "Switching to Dark theme");
}

#[test]
fn language_names_are_what_the_highlighter_expects() {
    assert_eq!(Language::Json.name(), "JSON");
    assert_eq!(Language::Markdown.name(), "Markdown");
}

#[test]
fn string_payload_is_shown_as_literal_lines_without_quotes() {
    let out = DefaultRenderer.response(&response("1", Value::String("line one\nline two".to_string())), Theme::Dark);
    match out {
        Output::Highlighted { content, language, title, framed, theme } => {
            assert_eq!(content, "line one\nline two");
            assert_eq!(content.lines().count(), 2);
            assert!(!content.contains('"'));
            assert_eq!(language, Language::Markdown);
            assert_eq!(title, Some("Tool Response:".to_string()));
            assert!(framed);
            assert_eq!(theme, "zenburn");
        }
        other => panic!("unexpected output {:?}", other),
    }
}

#[test]
fn format_tool_output_strips_quotes_and_unescapes_newlines() {
    assert_eq!(
        format_tool_output("\"line one\\nline two\""),
        ("line one\nline two".to_string(), Language::Markdown)
    );
    assert_eq!(format_tool_output("4"), ("4".to_string(), Language::Markdown));
    assert_eq!(format_tool_output("{\n  \"a\": 1\n}"), ("{\n  \"a\": 1\n}".to_string(), Language::Json));
    assert_eq!(format_tool_output("[\n  1\n]"), ("[\n  1\n]".to_string(), Language::Markdown));
    assert_eq!(format_tool_output("\"{not json}\""), ("{not json}".to_string(), Language::Json));
    assert_eq!(format_tool_output("\"\""), (String::new(), Language::Markdown));
}

#[test]
fn only_a_quoted_text_is_unquoted_and_unescaped() {
    assert_eq!(
        format_tool_output("{\n  \"text\": \"a\\nb\"\n}"),
        ("{\n  \"text\": \"a\\nb\"\n}".to_string(), Language::Json)
    );
    assert_eq!(format_tool_output("[\n  \"a\"\n]"), ("[\n  \"a\"\n]".to_string(), Language::Markdown));
    assert_eq!(format_tool_output("a\\nb"), ("a\\nb".to_string(), Language::Markdown));
    assert_eq!(
        format_tool_output("\"say \\\"hi\\\"\""),
        ("say \\\"hi\\\"".to_string(), Language::Markdown)
    );
    assert_eq!(format_tool_output(""), (String::new(), Language::Markdown));
}

#[test]
fn object_holding_an_escaped_line_feed_is_shown_unbroken() {
    let mut fields = serde_json::Map::new();
    fields.insert("text".to_string(), Value::String("a\nb".to_string()));
    let out = DefaultRenderer.response(&response("1", Value::Object(fields)), Theme::Dark);
    assert_eq!(
        out,
        highlighted("{\n  \"text\": \"a\\nb\"\n}", "zenburn", Language::Json, Some("Tool Response:"), true)
    );
}

#[test]
fn string_of_several_lines_is_shown_line_by_line() {
    let payload = "one\ntwo\n\nfour";
    let out = DefaultRenderer.response(&response("1", Value::String(payload.to_string())), Theme::Light);
    assert_eq!(out, highlighted(payload, "GitHub", Language::Markdown, Some("Tool Response:"), true));
    match out {
        Output::Highlighted { content, .. } => assert_eq!(content.split('\n').count(), 4),
        other => panic!("unexpected output {:?}", other),
    }
}

#[test]
fn render_tool_output_frames_what_format_tool_output_gives() {
    assert_eq!(
        render_tool_output("\"a\\nb\"", "GitHub"),
        highlighted("a\nb", "GitHub", Language::Markdown, Some("Tool Response:"), true)
    );
}

#[test]
fn object_payload_is_shown_as_json() {
    let out = DefaultRenderer.response(&response("1", arguments("hi")), Theme::Dark);
    assert_eq!(
        out,
        highlighted("{\n  \"text\": \"hi\"\n}", "zenburn", Language::Json, Some("Tool Response:"), true)
    );
}

#[test]
fn number_payload_is_shown_as_prose() {
    let out = DefaultRenderer.response(&response("1", Value::from(4)), Theme::Light);
    assert_eq!(out, highlighted("4", "GitHub", Language::Markdown, Some("Tool Response:"), true));
}

#[test]
fn failed_tool_is_shown_as_its_error() {
    let failed = ToolResponse { id: "1".to_string(), result: Err(ToolError { message: "no such file".to_string() }) };
    assert_eq!(DefaultRenderer.response(&failed, Theme::Dark), print("no such file", "zenburn"));
}

#[test]
fn default_request_shows_pretty_arguments_under_the_tool_name() {
    let out = DefaultRenderer.request(&request("1", "count_words", "a b"), Theme::Dark);
    assert_eq!(
        out,
        highlighted("{\n  \"text\": \"a b\"\n}", "zenburn", Language::Json, Some("Tool Request: count_words"), true)
    );
}

#[test]
fn default_request_shows_a_call_error_as_prose() {
    let out = DefaultRenderer.request(&bad_request("1", "not a tool call"), Theme::Dark);
    assert_eq!(out, print("not a tool call", "zenburn"));
}

#[test]
fn default_renderer_is_called_default() {
    assert_eq!(DefaultRenderer.tool_name(), "default");
}

#[test]
fn registry_falls_back_to_default_and_replaces_on_register() {
    let mut registry = RendererRegistry::new(Tagging::Builtin(DefaultRenderer));
    assert!(registry.contains("default"));
    assert!(!registry.contains("count_words"));
    assert_eq!(registry.lookup("count_words").tool_name(), "default");
    registry.register(Tagging::Tag("count_words".to_string()));
    assert!(registry.contains("count_words"));
    assert_eq!(registry.lookup("count_words").tool_name(), "count_words");
    assert_eq!(registry.lookup("other").tool_name(), "default");
    registry.register(Tagging::Tag("default".to_string()));
    assert_eq!(
        registry.lookup("other").response(&response("9", Value::Null), Theme::Light),
        Output::Line { text: "default response 9".to_string() }
    );
    assert!(registry.contains("default"));
}

#[test]
fn tool_name_follows_understood_requests_only() {
    let ok = ContentBlock::ToolRequest(request("1", "count_words", "x"));
    let bad = ContentBlock::ToolRequest(bad_request("2", "garbled"));
    let text = ContentBlock::Text(Text { text: "hi".to_string() });
    let resp = ContentBlock::ToolResponse(response("1", Value::Null));
    let image = ContentBlock::Image(Image { data: String::new(), mime_type: String::new() });
    assert_eq!(next_tool_name("default", &ok), "count_words");
    assert_eq!(next_tool_name("count_words", &bad), "count_words");
    assert_eq!(next_tool_name("default", &bad), "default");
    assert_eq!(next_tool_name("count_words", &text), "count_words");
    assert_eq!(next_tool_name("count_words", &resp), "count_words");
    assert_eq!(next_tool_name("count_words", &image), "count_words");
}

#[test]
fn response_goes_to_the_renderer_of_the_requested_tool() {
    let mut registry = RendererRegistry::new(Tagging::Builtin(DefaultRenderer));
    registry.register(Tagging::Tag("count_words".to_string()));
    let blocks = vec![
        ContentBlock::ToolRequest(request("a", "count_words", "one two three four")),
        ContentBlock::ToolResponse(response("a", Value::from(4))),
    ];
    let outputs = render_blocks(&registry, &blocks, Theme::Dark);
    assert_eq!(
        outputs,
        vec![
            Output::Line { text: "count_words request a".to_string() },
            Output::Line { text: "count_words response a".to_string() },
        ]
    );
}

#[test]
fn response_goes_to_default_when_the_tool_has_no_renderer() {
    let registry = RendererRegistry::new(Tagging::Builtin(DefaultRenderer));
    let blocks = vec![
        ContentBlock::ToolRequest(request("a", "count_words", "one two three four")),
        ContentBlock::ToolResponse(response("a", Value::from(4))),
    ];
    let outputs = render_blocks(&registry, &blocks, Theme::Dark);
    assert_eq!(
        outputs,
        vec![
            highlighted(
                "{\n  \"text\": \"one two three four\"\n}",
                "zenburn",
                Language::Json,
                Some("Tool Request: count_words"),
                true
            ),
            highlighted("4", "zenburn", Language::Markdown, Some("Tool Response:"), true),
        ]
    );
}

#[test]
fn response_before_any_request_goes_to_default() {
    let mut registry = RendererRegistry::new(Tagging::Builtin(DefaultRenderer));
    registry.register(Tagging::Tag("count_words".to_string()));
    let out = render_block(&registry, "default", &ContentBlock::ToolResponse(response("a", Value::from(4))), Theme::Light);
    assert_eq!(out, highlighted("4", "GitHub", Language::Markdown, Some("Tool Response:"), true));
}

#[test]
fn failed_request_does_not_steal_the_pairing() {
    let mut registry = RendererRegistry::new(Tagging::Builtin(DefaultRenderer));
    registry.register(Tagging::Tag("count_words".to_string()));
    registry.register(Tagging::Tag("shell".to_string()));
    let blocks = vec![
        ContentBlock::ToolRequest(request("a", "count_words", "x")),
        ContentBlock::ToolRequest(bad_request("b", "garbled")),
        ContentBlock::ToolResponse(response("a", Value::Null)),
        ContentBlock::ToolRequest(request("c", "shell", "ls")),
        ContentBlock::ToolResponse(response("c", Value::Null)),
    ];
    let outputs = render_blocks(&registry, &blocks, Theme::Dark);
    assert_eq!(
        outputs,
        vec![
            Output::Line { text: "count_words request a".to_string() },
            print("garbled", "zenburn"),
            Output::Line { text: "count_words response a".to_string() },
            Output::Line { text: "shell request c".to_string() },
            Output::Line { text: "shell response c".to_string() },
        ]
    );
}

#[test]
fn every_block_is_shown_once_and_in_order() {
    let prompt = RustylinePrompt::new();
    let message = Message {
        role: Role::Assistant,
        content: vec![
            ContentBlock::Text(Text { text: "first".to_string() }),
            ContentBlock::Image(Image { data: "ZGF0YQ==".to_string(), mime_type: "image/jpeg".to_string() }),
            ContentBlock::ToolRequest(request("a", "count_words", "x y")),
            ContentBlock::ToolResponse(response("a", Value::from(2))),
            ContentBlock::Text(Text { text: "last".to_string() }),
        ],
    };
    let outputs = prompt.render(&message);
    assert_eq!(
        outputs,
        vec![
            print("first", "zenburn"),
            Output::Line { text: "Image: [data: ZGF0YQ==, type: image/jpeg]".to_string() },
            highlighted("{\n  \"text\": \"x y\"\n}", "zenburn", Language::Json, Some("Tool Request: count_words"), true),
            highlighted("2", "zenburn", Language::Markdown, Some("Tool Response:"), true),
            print("last", "zenburn"),
            print_newline(),
        ]
    );
}

#[test]
fn empty_message_shows_only_the_closing_line() {
    let prompt = RustylinePrompt::new();
    let message = Message { role: Role::Assistant, content: Vec::new() };
    assert_eq!(prompt.render(&message), vec![print_newline()]);
}
