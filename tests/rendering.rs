use clint::{
    Config, Key, KeyEvent, Output, exit_on_key, output_on_info, output_on_key, output_prompt,
    output_with_prompt, println_clint,
};

fn text(s: &str) -> Output {
    Output::Text(s.to_string())
}

#[test]
fn default_config() {
    let c = Config::default();
    assert_eq!(c.input_prompt.as_deref(), Some("Input>"));
    assert_eq!(c.output_prompt.as_deref(), Some("Output>"));
    assert_eq!(c.exit_command.as_deref(), Some("exit"));
    assert!(c.exit_on_esc);
    assert!(c.exit_on_ctrl_c);
}

#[test]
fn prompt_gets_a_space() {
    assert_eq!(output_prompt(&Some("Input>".to_string())), vec![text("Input> ")]);
    assert!(output_prompt(&None).is_empty());
}

#[test]
fn line_with_and_without_prompt() {
    let p = Some("P>".to_string());
    assert_eq!(output_with_prompt(&p, "abc", true), vec![Output::ClearLine, text("P> abc\n")]);
    assert_eq!(output_with_prompt(&p, "abc", false), vec![Output::ClearLine, text("P> abc")]);
    assert_eq!(output_with_prompt(&None, "abc", true), vec![Output::ClearLine, text("abc\n")]);
    assert_eq!(output_with_prompt(&None, "", false), vec![Output::ClearLine, text("")]);
}

#[test]
fn info_uses_both_prompts() {
    let c = Config::default();
    assert_eq!(
        output_on_info(&c, "hello", "par"),
        vec![Output::ClearLine, text("Output> hello\n"), Output::ClearLine, text("Input> par")]
    );
}

#[test]
fn clint_line() {
    assert_eq!(
        println_clint("done"),
        vec![Output::ClearLine, text("done\n"), Output::ClearLine]
    );
}

#[test]
fn exit_policy_by_key() {
    let c = Config::default();
    assert!(exit_on_key(&c, &KeyEvent::plain(Key::Esc)));
    assert!(exit_on_key(&c, &KeyEvent::with_control(Key::Esc)));
    assert!(exit_on_key(&c, &KeyEvent::with_control(Key::Char('c'))));
    assert!(exit_on_key(&c, &KeyEvent::with_control(Key::Char('C'))));
    assert!(!exit_on_key(&c, &KeyEvent::plain(Key::Char('c'))));
    assert!(!exit_on_key(&c, &KeyEvent::with_control(Key::Char('d'))));
    assert!(!exit_on_key(&c, &KeyEvent::plain(Key::Enter)));
}

#[test]
fn key_edits_line() {
    let c = Config::default();
    let mut cmd = String::from("ab");
    let r = output_on_key(&c, &KeyEvent::plain(Key::Char('é')), &mut cmd);
    assert_eq!(cmd, "abé");
    assert_eq!(r.output, vec![text("é")]);
    let r = output_on_key(&c, &KeyEvent::plain(Key::Backspace), &mut cmd);
    assert_eq!(cmd, "ab");
    assert_eq!(r.output, vec![Output::ClearLine, Output::ClearLine, text("Input> ab")]);
    let r = output_on_key(&c, &KeyEvent::plain(Key::Enter), &mut cmd);
    assert_eq!(cmd, "");
    assert_eq!(r.command.as_deref(), Some("ab"));
    assert_eq!(r.output, vec![text("\r\n")]);
    assert_eq!(r.after, vec![text("Input> ")]);
    let mut cmd = String::from("exit");
    let r = output_on_key(&c, &KeyEvent::plain(Key::Enter), &mut cmd);
    assert_eq!(r.command, None);
    assert!(r.exit.is_some());
    assert_eq!(cmd, "exit");
}
