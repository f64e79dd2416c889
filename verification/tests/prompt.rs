use goose_cli::prompt::{
    classify_line, help, parse_command, Command, Input, InputType, ReadLine, RustylinePrompt,
};
use goose_cli::render::{DefaultRenderer, Output, RendererRegistry, Theme};

fn line(text: &str) -> Output {
    Output::Line { text: text.to_string() }
}

fn read(text: &str) -> ReadLine {
    ReadLine::Line(text.to_string())
}

#[test]
fn exit_is_matched_whatever_the_case_and_the_padding() {
    assert_eq!(classify_line("/EXIT"), Command::Exit);
    assert_eq!(classify_line(" /exit "), Command::Exit);
    assert_eq!(classify_line("/exit"), Command::Exit);
    assert_eq!(classify_line("/exitnow"), Command::Message);
}

#[test]
fn every_command_is_recognised() {
    assert_eq!(classify_line("/quit"), Command::Exit);
    assert_eq!(classify_line("\t/Quit\n"), Command::Exit);
    assert_eq!(classify_line("/t"), Command::ToggleTheme);
    assert_eq!(classify_line(" /T"), Command::ToggleTheme);
    assert_eq!(classify_line("/?"), Command::Help);
    assert_eq!(classify_line("/help"), Command::Help);
    assert_eq!(classify_line("/HeLp  "), Command::Help);
}

#[test]
fn anything_else_is_a_message() {
    assert_eq!(classify_line("exit"), Command::Message);
    assert_eq!(classify_line("/ exit"), Command::Message);
    assert_eq!(classify_line("/exit now"), Command::Message);
    assert_eq!(classify_line("please /exit"), Command::Message);
    assert_eq!(classify_line("/tt"), Command::Message);
    assert_eq!(classify_line("hello"), Command::Message);
    assert_eq!(classify_line(""), Command::Message);
    assert_eq!(classify_line("   "), Command::Message);
}

#[test]
fn parse_command_does_not_trim() {
    assert_eq!(parse_command("/exit"), Command::Exit);
    assert_eq!(parse_command(" /exit"), Command::Message);
    assert_eq!(parse_command("/exit "), Command::Message);
}

#[test]
fn new_prompt_is_dark_idle_and_has_the_default_renderer() {
    let prompt = RustylinePrompt::new();
    assert_eq!(prompt.theme(), Theme::Dark);
    assert!(!prompt.is_busy());
    assert!(prompt.renderers().contains("default"));
    assert!(!prompt.renderers().contains("count_words"));
    prompt.close();
}

#[test]
fn prompt_can_be_built_from_a_registry() {
    let prompt = RustylinePrompt::with_renderers(RendererRegistry::new(DefaultRenderer));
    assert_eq!(prompt.theme(), Theme::Dark);
    assert!(prompt.renderers().contains("default"));
}

#[test]
fn registering_a_renderer_keeps_theme_and_busy() {
    let mut prompt = RustylinePrompt::new();
    prompt.show_busy();
    prompt.register(DefaultRenderer);
    assert!(prompt.is_busy());
    assert_eq!(prompt.theme(), Theme::Dark);
    assert!(prompt.renderers().contains("default"));
}

#[test]
fn busy_flag_follows_show_and_hide() {
    let mut prompt = RustylinePrompt::new();
    prompt.show_busy();
    assert!(prompt.is_busy());
    prompt.show_busy();
    assert!(prompt.is_busy());
    prompt.hide_busy();
    assert!(!prompt.is_busy());
    assert_eq!(prompt.theme(), Theme::Dark);
}

#[test]
fn exit_command_ends_the_session_silently() {
    let mut prompt = RustylinePrompt::new();
    let (input, notices) = prompt.get_input(read("  /QUIT "));
    assert_eq!(input, Input { input_type: InputType::Exit, content: None });
    assert_eq!(notices, Vec::new());
    assert_eq!(prompt.theme(), Theme::Dark);
}

#[test]
fn toggle_switches_the_theme_and_says_so() {
    let mut prompt = RustylinePrompt::new();
    let (input, notices) = prompt.get_input(read("/t"));
    assert_eq!(input, Input { input_type: InputType::AskAgain, content: None });
    assert_eq!(notices, vec![line("Switching to Light theme")]);
    assert_eq!(prompt.theme(), Theme::Light);
    let (input, notices) = prompt.get_input(read(" /T "));
    assert_eq!(input, Input { input_type: InputType::AskAgain, content: None });
    assert_eq!(notices, vec![line("Switching to Dark theme")]);
    assert_eq!(prompt.theme(), Theme::Dark);
}

#[test]
fn help_prints_the_command_summary() {
    let mut prompt = RustylinePrompt::new();
    let (input, notices) = prompt.get_input(read("/?"));
    assert_eq!(input, Input { input_type: InputType::AskAgain, content: None });
    assert_eq!(
        notices,
        vec![
            line("Commands:"),
            line("/exit - Exit the session"),
            line("/t - Toggle Light/Dark theme"),
            line("/? | /help - Display this help message"),
            line("Ctrl+C - Interrupt goose (resets the interaction to before the interrupted user request)"),
        ]
    );
    assert_eq!(notices, help());
    assert_eq!(prompt.theme(), Theme::Dark);
}

#[test]
fn a_message_is_handed_on_trimmed() {
    let mut prompt = RustylinePrompt::new();
    let (input, notices) = prompt.get_input(read("  hello  world \n"));
    assert_eq!(input, Input { input_type: InputType::Message, content: Some("hello  world".to_string()) });
    assert_eq!(notices, Vec::new());
}

#[test]
fn an_empty_line_is_an_empty_message() {
    let mut prompt = RustylinePrompt::new();
    let (input, _) = prompt.get_input(read("   "));
    assert_eq!(input, Input { input_type: InputType::Message, content: Some(String::new()) });
}

#[test]
fn an_interrupted_read_ends_the_session_silently() {
    let mut prompt = RustylinePrompt::new();
    let (input, notices) = prompt.get_input(ReadLine::Interrupted);
    assert_eq!(input, Input { input_type: InputType::Exit, content: None });
    assert_eq!(notices, Vec::new());
}

#[test]
fn a_failed_read_ends_the_session_and_reports_why() {
    let mut prompt = RustylinePrompt::new();
    let (input, notices) = prompt.get_input(ReadLine::Failed("broken pipe".to_string()));
    assert_eq!(input, Input { input_type: InputType::Exit, content: None });
    assert_eq!(notices, vec![Output::ErrorLine { text: "Input error: broken pipe".to_string() }]);
    assert_eq!(prompt.theme(), Theme::Dark);
}
