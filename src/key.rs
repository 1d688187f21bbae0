use vstd::prelude::*;

use crate::config::Config;

verus! {

/// The key of a keyboard event, as far as the loop tells keys apart.
#[derive(Clone, Copy, Debug, PartialEq, Eq, Structural)]
pub enum Key {
    /// A printable character.
    Char(char),
    Enter,
    Backspace,
    Esc,
    /// Any other key: the loop ignores it.
    Other,
}

/// A key press, with whether the Control modifier was held.
#[derive(Clone, Copy, Debug, PartialEq, Eq, Structural)]
pub struct KeyEvent {
    pub code: Key,
    pub control: bool,
}

impl KeyEvent {
    /// A key pressed without Control.
    pub fn plain(code: Key) -> (r: KeyEvent)
        ensures
            r == (KeyEvent { code, control: false }),
    {
        KeyEvent { code, control: false }
    }

    /// A key pressed with Control held.
    pub fn with_control(code: Key) -> (r: KeyEvent)
        ensures
            r == (KeyEvent { code, control: true }),
    {
        KeyEvent { code, control: true }
    }
}

/// Whether a key ends the loop: Escape when `exit_on_esc` is set, and `c` or
/// `C` with Control when `exit_on_ctrl_c` is set.
pub open spec fn exit_on_key_spec(cfg: Config, event: KeyEvent) -> bool {
    match event.code {
        Key::Esc => cfg.exit_on_esc,
        Key::Char(c) => (c == 'c' || c == 'C') && event.control && cfg.exit_on_ctrl_c,
        _ => false,
    }
}

/// Decides whether `event` ends the loop under `config`.
pub fn exit_on_key(config: &Config, event: &KeyEvent) -> (r: bool)
    ensures
        r == exit_on_key_spec(*config, *event),
{
    match event.code {
        Key::Esc => config.exit_on_esc,
        Key::Char(c) => (c == 'c' || c == 'C') && event.control && config.exit_on_ctrl_c,
        _ => false,
    }
}

} // verus!
