use vstd::prelude::*;

use crate::config::{Config, opt_text};
use crate::editor::{
    Exit, KeyboardErrorPolicy, LoopEvent, Reaction, ReactionView, writes, ends, key_buffer,
    key_reaction, output_on_key,
};
use crate::key::{exit_on_key, exit_on_key_spec};
use crate::render::{
    Output, OutputView, ops_view, crlf, prompt_ops, info_ops, lemma_ops_view_concat,
    output_prompt, output_on_info, crlf_text,
};
use crate::text::push_char;

verus! {

/// The line written when the keyboard source fails and the loop goes on.
pub open spec fn error_text(description: Seq<char>) -> Seq<char> {
    "Error: "@ + description + crlf()
}

/// The line being typed after an event.
pub open spec fn step_buffer(cfg: Config, event: LoopEvent, buf: Seq<char>) -> Seq<char> {
    match event {
        LoopEvent::Key(k) => if exit_on_key_spec(cfg, k) {
            buf
        } else {
            key_buffer(cfg, k.code, buf)
        },
        _ => buf,
    }
}

/// The loop's reaction to an event. An exit key ends the line and the loop.
/// An info message is shown and the line being typed is restored. A closed
/// keyboard source ends the loop; a failing one ends it or is reported,
/// as the policy says.
pub open spec fn step_reaction(
    cfg: Config,
    policy: KeyboardErrorPolicy,
    event: LoopEvent,
    buf: Seq<char>,
) -> ReactionView {
    match event {
        LoopEvent::Key(k) => if exit_on_key_spec(cfg, k) {
            ends(seq![OutputView::Text(crlf())], Exit::Normal)
        } else {
            key_reaction(cfg, k.code, buf)
        },
        LoopEvent::Info(info) => writes(info_ops(cfg, info@, buf)),
        LoopEvent::Tick => writes(seq![]),
        LoopEvent::KeyboardError(d) => match policy {
            KeyboardErrorPolicy::Abort => ends(seq![], Exit::Error),
            KeyboardErrorPolicy::Continue => writes(seq![OutputView::Text(error_text(d@))]),
        },
        LoopEvent::KeyboardClosed => ends(seq![], Exit::Normal),
    }
}

/// What the loop writes when it starts: a fresh line and the input prompt.
pub open spec fn start_ops(cfg: Config) -> Seq<OutputView> {
    seq![OutputView::Text(crlf())] + prompt_ops(opt_text(cfg.input_prompt))
}

/// The state of a running loop: its settings and the line being typed.
pub struct EventLoop {
    config: Config,
    on_keyboard_error: KeyboardErrorPolicy,
    cmd: String,
}

impl EventLoop {
    /// The loop's settings.
    pub closed spec fn cfg(&self) -> Config {
        self.config
    }

    /// What the loop does when the keyboard source fails.
    pub closed spec fn policy(&self) -> KeyboardErrorPolicy {
        self.on_keyboard_error
    }

    /// The line typed and not yet submitted.
    pub closed spec fn buffer(&self) -> Seq<char> {
        self.cmd@
    }

    /// A loop with an empty line.
    pub fn new(config: Config, on_keyboard_error: KeyboardErrorPolicy) -> (r: EventLoop)
        ensures
            r.cfg() == config,
            r.policy() == on_keyboard_error,
            r.buffer() == Seq::<char>::empty(),
    {
        EventLoop { config, on_keyboard_error, cmd: String::new() }
    }

    /// The loop's settings.
    pub fn config(&self) -> (r: &Config)
        ensures
            *r == self.cfg(),
    {
        &self.config
    }

    /// What the loop does when the keyboard source fails.
    pub fn on_keyboard_error(&self) -> (r: KeyboardErrorPolicy)
        ensures
            r == self.policy(),
    {
        self.on_keyboard_error
    }

    /// The line typed and not yet submitted.
    pub fn pending(&self) -> (r: &str)
        ensures
            r@ == self.buffer(),
    {
        self.cmd.as_str()
    }

    /// What to write when the loop starts.
    pub fn start(&self) -> (r: Vec<Output>)
        ensures
            ops_view(r@) == start_ops(self.cfg()),
    {
        let mut r = vec![Output::Text(crlf_text())];
        let mut prompt = output_prompt(&self.config.input_prompt);
        proof {
            lemma_ops_view_concat(r@, prompt@);
        }
        r.append(&mut prompt);
        assert(ops_view(r@) =~= start_ops(self.config));
        r
    }

    /// Handles one event: updates the line being typed and says what to
    /// write, what to dispatch and whether the loop ends.
    pub fn step(&mut self, event: &LoopEvent) -> (r: Reaction)
        ensures
            final(self).cfg() == old(self).cfg(),
            final(self).policy() == old(self).policy(),
            final(self).buffer() == step_buffer(old(self).cfg(), *event, old(self).buffer()),
            r@ == step_reaction(
                old(self).cfg(),
                old(self).policy(),
                *event,
                old(self).buffer(),
            ),
    {
        let mut output: Vec<Output> = Vec::new();
        let after: Vec<Output> = Vec::new();
        assert(ops_view(after@) =~= seq![]);
        match event {
            LoopEvent::Key(k) => {
                if exit_on_key(&self.config, k) {
                    output.push(Output::Text(crlf_text()));
                    assert(ops_view(output@) =~= seq![OutputView::Text(crlf())]);
                    Reaction { output, command: None, after, exit: Some(Exit::Normal) }
                } else {
                    output_on_key(&self.config, k, &mut self.cmd)
                }
            },
            LoopEvent::Info(info) => {
                let output = output_on_info(&self.config, info.as_str(), self.cmd.as_str());
                Reaction { output, command: None, after, exit: None }
            },
            LoopEvent::Tick => {
                assert(ops_view(output@) =~= seq![]);
                Reaction { output, command: None, after, exit: None }
            },
            LoopEvent::KeyboardError(d) => {
                match self.on_keyboard_error {
                    KeyboardErrorPolicy::Abort => {
                        assert(ops_view(output@) =~= seq![]);
                        Reaction { output, command: None, after, exit: Some(Exit::Error) }
                    },
                    KeyboardErrorPolicy::Continue => {
                        let mut t = String::from_str("Error: ");
                        t.append(d.as_str());
                        push_char(&mut t, '\r');
                        push_char(&mut t, '\n');
                        assert(t@ =~= error_text(d@));
                        output.push(Output::Text(t));
                        assert(ops_view(output@) =~= seq![OutputView::Text(error_text(d@))]);
                        Reaction { output, command: None, after, exit: None }
                    },
                }
            },
            LoopEvent::KeyboardClosed => {
                assert(ops_view(output@) =~= seq![]);
                Reaction { output, command: None, after, exit: Some(Exit::Normal) }
            },
        }
    }
}

} // verus!
