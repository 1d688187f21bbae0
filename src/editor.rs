use vstd::prelude::*;

use crate::config::{Config, is_exit_command, opt_text};
use crate::key::{Key, KeyEvent};
use crate::render::{
    Output, OutputView, ops_view, crlf, prompt_ops, line_ops, lemma_ops_view_concat, output_prompt,
    output_with_prompt, char_text, crlf_text,
};
use crate::text::{push_char, pop_char};

verus! {

/// How the loop ended.
#[derive(Clone, Copy, Debug, PartialEq, Eq, Structural)]
pub enum Exit {
    /// An exit key or the exit command, or the keyboard stream closed.
    Normal,
    /// The keyboard source failed and the loop gives up.
    Error,
}

/// What the loop does when the keyboard source reports an error.
#[derive(Clone, Copy, Debug, PartialEq, Eq, Structural)]
pub enum KeyboardErrorPolicy {
    /// End the loop and hand the error to the caller.
    Abort,
    /// Write the error and go on.
    Continue,
}

/// What woke the loop.
#[derive(Clone, Debug, PartialEq, Eq)]
pub enum LoopEvent {
    /// A key was pressed.
    Key(KeyEvent),
    /// An info message arrived.
    Info(String),
    /// Nothing arrived within the wait.
    Tick,
    /// The keyboard source failed; the text describes the failure.
    KeyboardError(String),
    /// The keyboard source has ended.
    KeyboardClosed,
}

/// The loop's answer to one event. The caller writes `output`, then hands
/// `command`, if any, to the dispatcher, then writes `after`, and stops when
/// `exit` is set.
#[derive(Clone, Debug, PartialEq, Eq)]
pub struct Reaction {
    pub output: Vec<Output>,
    pub command: Option<String>,
    pub after: Vec<Output>,
    pub exit: Option<Exit>,
}

/// A reaction in terms of characters.
pub struct ReactionView {
    pub output: Seq<OutputView>,
    pub command: Option<Seq<char>>,
    pub after: Seq<OutputView>,
    pub exit: Option<Exit>,
}

impl View for Reaction {
    type V = ReactionView;

    open spec fn view(&self) -> ReactionView {
        ReactionView {
            output: ops_view(self.output@),
            command: opt_text(self.command),
            after: ops_view(self.after@),
            exit: self.exit,
        }
    }
}

/// A reaction that only writes.
pub open spec fn writes(output: Seq<OutputView>) -> ReactionView {
    ReactionView { output, command: None, after: seq![], exit: None }
}

/// A reaction that writes and then ends the loop.
pub open spec fn ends(output: Seq<OutputView>, exit: Exit) -> ReactionView {
    ReactionView { output, command: None, after: seq![], exit: Some(exit) }
}

/// The line being typed after a key that does not end the loop.
pub open spec fn key_buffer(cfg: Config, code: Key, buf: Seq<char>) -> Seq<char> {
    match code {
        Key::Enter => if buf.len() > 0 && !is_exit_command(cfg, buf) {
            seq![]
        } else {
            buf
        },
        Key::Backspace => if buf.len() > 0 {
            buf.drop_last()
        } else {
            buf
        },
        Key::Char(c) => buf.push(c),
        _ => buf,
    }
}

/// The reaction to a key that does not end the loop by itself. Enter on an
/// empty line redraws the prompt; on the exit command it ends the loop; on
/// any other line it hands the line to the dispatcher and then redraws the
/// prompt. Backspace redraws the shortened line, and a character is echoed.
pub open spec fn key_reaction(cfg: Config, code: Key, buf: Seq<char>) -> ReactionView {
    match code {
        Key::Enter => if buf.len() == 0 {
            writes(seq![OutputView::Text(crlf())] + prompt_ops(opt_text(cfg.input_prompt)))
        } else if is_exit_command(cfg, buf) {
            ends(seq![OutputView::Text(crlf())], Exit::Normal)
        } else {
            ReactionView {
                output: seq![OutputView::Text(crlf())],
                command: Some(buf),
                after: prompt_ops(opt_text(cfg.input_prompt)),
                exit: None,
            }
        },
        Key::Backspace => writes(
            seq![OutputView::ClearLine] + line_ops(
                opt_text(cfg.input_prompt),
                key_buffer(cfg, code, buf),
                false,
            ),
        ),
        Key::Char(c) => writes(seq![OutputView::Text(seq![c])]),
        _ => writes(seq![]),
    }
}

/// Handles a key that did not end the loop by itself: edits `cmd`, the line
/// being typed, and says what to write and what to dispatch.
pub fn output_on_key(cfg: &Config, evt: &KeyEvent, cmd: &mut String) -> (r: Reaction)
    ensures
        final(cmd)@ == key_buffer(*cfg, evt.code, old(cmd)@),
        r@ == key_reaction(*cfg, evt.code, old(cmd)@),
{
    match evt.code {
        Key::Enter => {
            let mut output = vec![Output::Text(crlf_text())];
            if cmd.as_str().is_empty() {
                let mut prompt = output_prompt(&cfg.input_prompt);
                proof {
                    lemma_ops_view_concat(output@, prompt@);
                }
                output.append(&mut prompt);
                assert(ops_view(output@) =~= seq![OutputView::Text(crlf())] + prompt_ops(
                    opt_text(cfg.input_prompt),
                ));
                let after: Vec<Output> = Vec::new();
                assert(ops_view(after@) =~= seq![]);
                return Reaction { output, command: None, after, exit: None };
            }
            let is_exit = match &cfg.exit_command {
                Some(e) => *cmd == *e,
                None => false,
            };
            assert(ops_view(output@) =~= seq![OutputView::Text(crlf())]);
            if is_exit {
                let after: Vec<Output> = Vec::new();
                assert(ops_view(after@) =~= seq![]);
                Reaction { output, command: None, after, exit: Some(Exit::Normal) }
            } else {
                let line = cmd.clone();
                *cmd = String::new();
                let after = output_prompt(&cfg.input_prompt);
                Reaction { output, command: Some(line), after, exit: None }
            }
        },
        Key::Backspace => {
            let _ = pop_char(cmd);
            let mut output = vec![Output::ClearLine];
            let mut line = output_with_prompt(&cfg.input_prompt, cmd.as_str(), false);
            proof {
                lemma_ops_view_concat(output@, line@);
            }
            output.append(&mut line);
            assert(ops_view(output@) =~= seq![OutputView::ClearLine] + line_ops(
                opt_text(cfg.input_prompt),
                cmd@,
                false,
            ));
            let after: Vec<Output> = Vec::new();
            assert(ops_view(after@) =~= seq![]);
            Reaction { output, command: None, after, exit: None }
        },
        Key::Char(c) => {
            push_char(cmd, c);
            let output = vec![Output::Text(char_text(c))];
            assert(ops_view(output@) =~= seq![OutputView::Text(seq![c])]);
            let after: Vec<Output> = Vec::new();
            assert(ops_view(after@) =~= seq![]);
            Reaction { output, command: None, after, exit: None }
        },
        _ => {
            let output: Vec<Output> = Vec::new();
            let after: Vec<Output> = Vec::new();
            assert(ops_view(output@) =~= seq![]);
            assert(ops_view(after@) =~= seq![]);
            Reaction { output, command: None, after, exit: None }
        },
    }
}

} // verus!
