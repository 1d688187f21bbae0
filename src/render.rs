use vstd::prelude::*;

use crate::config::{Config, opt_text};
use crate::text::push_char;

verus! {

/// One write to the terminal. Each write is flushed at once.
#[derive(Clone, Debug, PartialEq, Eq)]
pub enum Output {
    /// Clear the current line and move the cursor to its first column.
    ClearLine,
    /// Write this text.
    Text(String),
}

/// What a write does, in terms of characters.
pub enum OutputView {
    ClearLine,
    Text(Seq<char>),
}

impl View for Output {
    type V = OutputView;

    open spec fn view(&self) -> OutputView {
        match self {
            Output::ClearLine => OutputView::ClearLine,
            Output::Text(s) => OutputView::Text(s@),
        }
    }
}

/// The writes of a list, in order.
pub open spec fn ops_view(v: Seq<Output>) -> Seq<OutputView> {
    v.map_values(|o: Output| o@)
}

/// Carriage return and line feed: ends a line in raw mode.
pub open spec fn crlf() -> Seq<char> {
    seq!['\r', '\n']
}

/// A prompt followed by a space, or nothing when there is no prompt.
pub open spec fn prompt_ops(prompt: Option<Seq<char>>) -> Seq<OutputView> {
    match prompt {
        Some(p) => seq![OutputView::Text(p.push(' '))],
        None => seq![],
    }
}

/// The prompt, a space and the content, or the bare content without a
/// prompt, with a line feed when `newline` is set.
pub open spec fn line_text(prompt: Option<Seq<char>>, content: Seq<char>, newline: bool) -> Seq<
    char,
> {
    let body = match prompt {
        Some(p) => p.push(' ') + content,
        None => content,
    };
    if newline {
        body.push('\n')
    } else {
        body
    }
}

/// A line drawn afresh: the current line is cleared first.
pub open spec fn line_ops(prompt: Option<Seq<char>>, content: Seq<char>, newline: bool) -> Seq<
    OutputView,
> {
    seq![OutputView::ClearLine, OutputView::Text(line_text(prompt, content, newline))]
}

/// An info message on a line of its own after the output prompt, then the
/// input prompt with the unsent line, so that typing goes on where it was.
pub open spec fn info_ops(cfg: Config, info: Seq<char>, pending: Seq<char>) -> Seq<OutputView> {
    line_ops(opt_text(cfg.output_prompt), info, true) + line_ops(
        opt_text(cfg.input_prompt),
        pending,
        false,
    )
}

/// A message on a line of its own, with the line cleared before and after.
pub open spec fn clint_ops(info: Seq<char>) -> Seq<OutputView> {
    seq![OutputView::ClearLine, OutputView::Text(info.push('\n')), OutputView::ClearLine]
}

pub proof fn lemma_ops_view_concat(a: Seq<Output>, b: Seq<Output>)
    ensures
        ops_view(a + b) == ops_view(a) + ops_view(b),
{
    assert(ops_view(a + b) =~= ops_view(a) + ops_view(b));
}

/// Writes the prompt followed by a space; nothing when there is no prompt.
pub fn output_prompt(prompt: &Option<String>) -> (r: Vec<Output>)
    ensures
        ops_view(r@) == prompt_ops(opt_text(*prompt)),
{
    let mut r: Vec<Output> = Vec::new();
    if let Some(s) = prompt {
        let mut t = s.clone();
        push_char(&mut t, ' ');
        r.push(Output::Text(t));
    }
    assert(ops_view(r@) =~= prompt_ops(opt_text(*prompt)));
    r
}

/// Clears the current line and writes the prompt and `command` on it, ending
/// the line when `newline` is set.
pub fn output_with_prompt(prompt: &Option<String>, command: &str, newline: bool) -> (r: Vec<
    Output,
>)
    ensures
        ops_view(r@) == line_ops(opt_text(*prompt), command@, newline),
{
    let mut t = match prompt {
        Some(s) => {
            let mut t = s.clone();
            push_char(&mut t, ' ');
            t.append(command);
            t
        },
        None => String::from_str(command),
    };
    if newline {
        push_char(&mut t, '\n');
    }
    let r = vec![Output::ClearLine, Output::Text(t)];
    assert(ops_view(r@) =~= line_ops(opt_text(*prompt), command@, newline));
    r
}

/// Shows an info message and then restores the line being typed.
pub fn output_on_info(config: &Config, info: &str, cmd: &str) -> (r: Vec<Output>)
    ensures
        ops_view(r@) == info_ops(*config, info@, cmd@),
{
    let mut r = output_with_prompt(&config.output_prompt, info, true);
    let mut rest = output_with_prompt(&config.input_prompt, cmd, false);
    proof {
        lemma_ops_view_concat(r@, rest@);
    }
    r.append(&mut rest);
    r
}

/// Writes a message on a line of its own, clearing the line before and after.
pub fn println_clint(info: &str) -> (r: Vec<Output>)
    ensures
        ops_view(r@) == clint_ops(info@),
{
    let mut t = String::from_str(info);
    push_char(&mut t, '\n');
    let r = vec![Output::ClearLine, Output::Text(t), Output::ClearLine];
    assert(ops_view(r@) =~= clint_ops(info@));
    r
}

/// A text of one character.
pub fn char_text(c: char) -> (r: String)
    ensures
        r@ == seq![c],
{
    let mut t = String::new();
    push_char(&mut t, c);
    assert(t@ =~= seq![c]);
    t
}

/// Carriage return and line feed.
pub fn crlf_text() -> (r: String)
    ensures
        r@ == crlf(),
{
    let mut t = String::new();
    push_char(&mut t, '\r');
    push_char(&mut t, '\n');
    assert(t@ =~= crlf());
    t
}

} // verus!
