use ftctui::command::{command_action, named_command_action, parse_command_arguments, CommandAction};

fn action(line: &str) -> CommandAction {
    command_action(&parse_command_arguments(line))
}

#[test]
fn splits_on_whitespace() {
    assert_eq!(parse_command_arguments("  initopmode   Robot "), vec!["initopmode", "Robot"]);
    assert_eq!(parse_command_arguments("a\tb"), vec!["a", "b"]);
}

#[test]
fn quotes_keep_spaces() {
    assert_eq!(
        parse_command_arguments("echo \"hello world\" 'it''s'"),
        vec!["echo", "hello world", "it", "s"]
    );
    assert_eq!(parse_command_arguments("a\"b c\"d"), vec!["a", "b c", "d"]);
    assert_eq!(parse_command_arguments("x 'unclosed quote"), vec!["x", "unclosed quote"]);
    assert_eq!(parse_command_arguments("\"\""), vec![""]);
}

#[test]
fn empty_line_has_no_arguments() {
    assert!(parse_command_arguments("   ").is_empty());
}

#[test]
fn quit_commands() {
    for c in ["quit", "q", "q!", "wq", "wqa", "QUIT"] {
        assert_eq!(action(c), CommandAction::Quit);
    }
}

#[test]
fn echo_shows_arguments() {
    assert_eq!(action("echo hello there"), CommandAction::ShowToast(String::from("hello there ")));
    assert_eq!(action("showtoast"), CommandAction::ShowToast(String::new()));
}

#[test]
fn opmode_commands() {
    assert_eq!(action("initopmode Robot"), CommandAction::InitOpMode(String::from("Robot")));
    assert_eq!(action("StartOpMode 'My Auto'"), CommandAction::StartOpMode(String::from("My Auto")));
    assert_eq!(action("stop"), CommandAction::StopOpMode);
    assert_eq!(action("stopopmode"), CommandAction::StopOpMode);
}

#[test]
fn missing_opmode_names_are_reported() {
    assert_eq!(
        action("initopmode"),
        CommandAction::ShowToast(String::from("Expected name of opmode to initialize"))
    );
    assert_eq!(
        action("startopmode"),
        CommandAction::ShowToast(String::from("Expected name of opmode to start"))
    );
}

#[test]
fn unknown_commands_are_reported() {
    assert_eq!(
        action("Dance now"),
        CommandAction::ShowToast(String::from("Invalid or incomplete command dance"))
    );
}

#[test]
fn the_lowercased_name_decides() {
    let args = vec![String::from("ECHO"), String::from("Hi")];
    assert_eq!(named_command_action("echo", &args), CommandAction::ShowToast(String::from("Hi ")));
    assert_eq!(named_command_action("stop", &args), CommandAction::StopOpMode);
    assert_eq!(
        named_command_action("initopmode", &vec![String::from("initOpMode")]),
        CommandAction::ShowToast(String::from("Expected name of opmode to initialize"))
    );
}
