use audio2text::input::{InputMethod, Invocation, TextInputHandler};

fn run(program: &str, args: &[&str], stdin: Option<&str>, check_status: bool) -> Invocation {
    Invocation {
        program: program.to_string(),
        args: args.iter().map(|a| a.to_string()).collect(),
        stdin: stdin.map(|s| s.to_string()),
        check_status,
    }
}

fn wtype_backspace() -> Invocation {
    run("wtype", &["-k", "BackSpace"], None, false)
}

#[test]
fn method_follows_the_installed_programs() {
    assert_eq!(TextInputHandler::new(true, true).method(), InputMethod::Wtype);
    assert_eq!(TextInputHandler::new(true, false).method(), InputMethod::Wtype);
    assert_eq!(TextInputHandler::new(false, true).method(), InputMethod::Ydotool);
    assert_eq!(TextInputHandler::new(false, false).method(), InputMethod::WlCopy);
}

#[test]
fn typing_nothing_runs_nothing() {
    assert_eq!(TextInputHandler::new(true, true).type_text(""), None);
    assert_eq!(TextInputHandler::new(false, false).type_text(""), None);
}

#[test]
fn typing_runs_the_program_of_the_method() {
    assert_eq!(
        TextInputHandler::new(true, false).type_text("hi there"),
        Some(run("wtype", &["--", "hi there"], None, true))
    );
    assert_eq!(
        TextInputHandler::new(false, true).type_text("-x"),
        Some(run("ydotool", &["type", "--", "-x"], None, true))
    );
    assert_eq!(
        TextInputHandler::new(false, false).type_text("copy me"),
        Some(run("wl-copy", &[], Some("copy me"), false))
    );
}

#[test]
fn deleting_presses_backspace_once_per_character() {
    let wtype = TextInputHandler::new(true, false);
    assert_eq!(wtype.delete_chars(0), Vec::<Invocation>::new());
    assert_eq!(wtype.delete_chars(3), vec![wtype_backspace(), wtype_backspace(), wtype_backspace()]);
    let ydotool = TextInputHandler::new(false, true);
    assert_eq!(
        ydotool.delete_chars(2),
        vec![
            run("ydotool", &["key", "14:1", "14:0"], None, false),
            run("ydotool", &["key", "14:1", "14:0"], None, false),
        ]
    );
    assert_eq!(TextInputHandler::new(false, false).delete_chars(5), Vec::<Invocation>::new());
}

#[test]
fn update_to_the_same_text_runs_nothing() {
    let handler = TextInputHandler::new(true, false);
    assert_eq!(handler.update_text("same", "same"), Vec::<Invocation>::new());
    assert_eq!(handler.update_text("", ""), Vec::<Invocation>::new());
}

#[test]
fn update_types_what_was_appended() {
    let handler = TextInputHandler::new(true, false);
    assert_eq!(handler.update_text("hello", "hello world"), vec![run("wtype", &["--", " world"], None, true)]);
    assert_eq!(handler.update_text("", "abc"), vec![run("wtype", &["--", "abc"], None, true)]);
}

#[test]
fn update_deletes_after_the_common_prefix_then_types() {
    let handler = TextInputHandler::new(true, false);
    assert_eq!(
        handler.update_text("hello wold", "hello world"),
        vec![wtype_backspace(), wtype_backspace(), run("wtype", &["--", "rld"], None, true)]
    );
    assert_eq!(handler.update_text("abc", "ab"), vec![wtype_backspace()]);
    assert_eq!(
        handler.update_text("abc", "xyz"),
        vec![
            wtype_backspace(),
            wtype_backspace(),
            wtype_backspace(),
            run("wtype", &["--", "xyz"], None, true),
        ]
    );
    assert_eq!(handler.update_text("abc", ""), vec![wtype_backspace(), wtype_backspace(), wtype_backspace()]);
}

#[test]
fn update_counts_characters_not_bytes() {
    let handler = TextInputHandler::new(true, false);
    assert_eq!(
        handler.update_text("caf\u{e9}s", "caf\u{e8}"),
        vec![wtype_backspace(), wtype_backspace(), run("wtype", &["--", "\u{e8}"], None, true)]
    );
    assert_eq!(
        handler.update_text("\u{4f60}\u{597d}", "\u{4f60}\u{597d}\u{5417}"),
        vec![run("wtype", &["--", "\u{5417}"], None, true)]
    );
}

#[test]
fn update_by_clipboard_copies_the_new_tail() {
    let handler = TextInputHandler::new(false, false);
    assert_eq!(handler.update_text("abc", "abd"), vec![run("wl-copy", &[], Some("d"), false)]);
    assert_eq!(handler.update_text("abc", "ab"), Vec::<Invocation>::new());
}
