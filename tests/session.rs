use edamame_cli::session::{
    call_line, check_command, interpret_line, session_step, space_char, trimmed, words,
    SessionAction, SessionState,
};

fn strings(items: &[&str]) -> Vec<String> {
    items.iter().map(|s| s.to_string()).collect()
}

#[test]
fn exit_terminates() {
    for line in ["exit", "exit\n", "   exit  \n"] {
        let (state, action) = session_step(SessionState::Prompting, line);
        assert_eq!(state, SessionState::Terminated);
        assert!(matches!(action, SessionAction::Stop));
    }
}

#[test]
fn exit_must_be_the_whole_line() {
    let (state, action) = session_step(SessionState::Prompting, "exit now\n");
    assert_eq!(state, SessionState::Prompting);
    assert!(matches!(action, SessionAction::Check { ref command, ref args }
        if command == "exit" && *args == strings(&["now"])));
}

#[test]
fn empty_line_reprompts() {
    for line in ["", "\n", "   \t \n"] {
        let (state, action) = session_step(SessionState::Prompting, line);
        assert_eq!(state, SessionState::Prompting);
        assert!(matches!(action, SessionAction::Reprompt));
    }
}

#[test]
fn command_and_arguments_split_on_whitespace() {
    let (state, action) = session_step(SessionState::Prompting, "  get_score  a   b\tc \n");
    assert_eq!(state, SessionState::Prompting);
    match action {
        SessionAction::Check { command, args } => {
            assert_eq!(command, "get_score");
            assert_eq!(args, strings(&["a", "b", "c"]));
        }
        _ => panic!("expected a command"),
    }
}

#[test]
fn terminated_stays_terminated() {
    let (state, action) = interpret_line(SessionState::Terminated, "ping", &strings(&["ping"]));
    assert_eq!(state, SessionState::Terminated);
    assert!(matches!(action, SessionAction::Stop));
}

#[test]
fn commands_checked_against_method_list() {
    let methods = Ok(strings(&["ping", "get_score"]));
    assert_eq!(check_command(&"ping".to_string(), &methods), Ok(()));
    assert_eq!(
        check_command(&"pnig".to_string(), &methods),
        Err(">>>> Invalid command".to_string())
    );
    assert_eq!(
        check_command(&"ping".to_string(), &Err("down".to_string())),
        Err(">>>> Error getting API methods: down".to_string())
    );
}

#[test]
fn call_lines() {
    assert_eq!(call_line(&Ok("42".to_string())), Ok("Result: \"42\"".to_string()));
    assert_eq!(
        call_line(&Err("boom".to_string())),
        Err(">>>> Error calling RPC method: boom".to_string())
    );
}

#[test]
fn trim_and_words_agree_with_std() {
    let samples = [
        "",
        "   ",
        "a",
        "  a b  ",
        "\u{3000}get\u{A0}x\u{2009}y\n",
        "\t\u{85}one\u{1680}two\u{202F}\u{205F}three\u{2028}",
        "no_space",
        "é  ü",
    ];
    for text in samples {
        assert_eq!(trimmed(text), text.trim());
        let expected: Vec<String> = text.split_whitespace().map(|w| w.to_string()).collect();
        assert_eq!(words(text), expected);
    }
}

#[test]
fn whitespace_characters() {
    for c in ['\t', '\n', '\u{B}', '\u{C}', '\r', ' ', '\u{85}', '\u{A0}', '\u{1680}', '\u{2000}', '\u{200A}', '\u{2028}', '\u{2029}', '\u{202F}', '\u{205F}', '\u{3000}'] {
        assert!(space_char(c));
        assert!(c.is_whitespace());
    }
    for c in ['a', '\u{200B}', '\u{180E}', '\u{FEFF}', '_', '\u{8}'] {
        assert_eq!(space_char(c), c.is_whitespace());
    }
}
