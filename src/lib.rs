//! A line-editing terminal loop, as a verified state machine.
//!
//! The library decides, for every keyboard event or info message, how the
//! line being typed changes, what is written to the terminal and whether a
//! command is handed to the dispatcher or the loop ends. Writing to the
//! terminal, raw mode and waiting for events are left to the caller.
mod config;
mod editor;
mod event_loop;
mod key;
mod laws;
mod render;
mod text;

pub use config::{Config, opt_text, is_exit_command};
pub use editor::{
    Exit, KeyboardErrorPolicy, LoopEvent, Reaction, ReactionView, writes, ends, key_buffer,
    key_reaction, output_on_key,
};
pub use event_loop::{EventLoop, error_text, step_buffer, step_reaction, start_ops};
pub use key::{Key, KeyEvent, exit_on_key, exit_on_key_spec};
pub use laws::{
    buffer_after_keys, is_typing, typed_chars, lemma_typing_appends, lemma_backspace_on_empty,
    lemma_exit_command_ends, lemma_submit_dispatches, lemma_empty_submit_is_quiet, lemma_exit_keys,
    lemma_info_restores_line,
};
pub use render::{
    Output, OutputView, ops_view, crlf, prompt_ops, line_text, line_ops, info_ops, clint_ops,
    lemma_ops_view_concat, output_prompt, output_with_prompt, output_on_info, println_clint,
    char_text, crlf_text,
};
