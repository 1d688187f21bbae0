use vstd::prelude::*;

use crate::config::{Config, is_exit_command, opt_text};
use crate::editor::{Exit, KeyboardErrorPolicy, LoopEvent, writes};
use crate::event_loop::{step_buffer, step_reaction};
use crate::key::{Key, KeyEvent, exit_on_key_spec};
use crate::render::{OutputView, line_ops};

verus! {

/// The line after the loop has handled `keys`, one after the other.
pub open spec fn buffer_after_keys(cfg: Config, buf: Seq<char>, keys: Seq<KeyEvent>) -> Seq<char>
    decreases keys.len(),
{
    if keys.len() == 0 {
        buf
    } else {
        buffer_after_keys(cfg, step_buffer(cfg, LoopEvent::Key(keys[0]), buf), keys.drop_first())
    }
}

/// A printable character that is no exit key under `cfg`.
pub open spec fn is_typing(cfg: Config, k: KeyEvent) -> bool {
    k.code is Char && !exit_on_key_spec(cfg, k)
}

/// The characters of a run of character keys.
pub open spec fn typed_chars(keys: Seq<KeyEvent>) -> Seq<char> {
    keys.map_values(|k: KeyEvent| k.code->Char_0)
}

/// Typing characters that are no exit keys appends them to the line in the
/// order typed; none of them dispatches a command or ends the loop.
pub proof fn lemma_typing_appends(
    cfg: Config,
    policy: KeyboardErrorPolicy,
    buf: Seq<char>,
    keys: Seq<KeyEvent>,
)
    requires
        forall|i: int| 0 <= i < keys.len() ==> is_typing(cfg, #[trigger] keys[i]),
    ensures
        buffer_after_keys(cfg, buf, keys) == buf + typed_chars(keys),
        forall|i: int, b: Seq<char>|
            0 <= i < keys.len() ==> {
                let r = #[trigger] step_reaction(cfg, policy, LoopEvent::Key(keys[i]), b);
                r.command is None && r.exit is None
            },
    decreases keys.len(),
{
    if keys.len() == 0 {
        assert(buf + typed_chars(keys) =~= buf);
    } else {
        let rest = keys.drop_first();
        let c = keys[0].code->Char_0;
        assert(is_typing(cfg, keys[0]));
        assert forall|i: int| 0 <= i < rest.len() implies is_typing(cfg, #[trigger] rest[i]) by {
            assert(rest[i] == keys[i + 1]);
        }
        lemma_typing_appends(cfg, policy, buf.push(c), rest);
        assert(typed_chars(keys) =~= seq![c] + typed_chars(rest));
        assert(buf.push(c) + typed_chars(rest) =~= buf + typed_chars(keys));
    }
    assert forall|i: int, b: Seq<char>| 0 <= i < keys.len() implies {
        let r = #[trigger] step_reaction(cfg, policy, LoopEvent::Key(keys[i]), b);
        r.command is None && r.exit is None
    } by {
        assert(is_typing(cfg, keys[i]));
    }
}

/// Backspace on an empty line leaves it empty: the line is redrawn with the
/// same empty content, nothing is dispatched and the loop goes on.
pub proof fn lemma_backspace_on_empty(cfg: Config, policy: KeyboardErrorPolicy, control: bool)
    ensures
        step_buffer(cfg, LoopEvent::Key(KeyEvent { code: Key::Backspace, control }), seq![])
            == Seq::<char>::empty(),
        step_reaction(
            cfg,
            policy,
            LoopEvent::Key(KeyEvent { code: Key::Backspace, control }),
            seq![],
        ) == writes(
            seq![OutputView::ClearLine] + line_ops(opt_text(cfg.input_prompt), seq![], false),
        ),
{
}

/// Enter on a line equal to a configured, non-empty exit command ends the
/// loop normally and dispatches nothing.
pub proof fn lemma_exit_command_ends(
    cfg: Config,
    policy: KeyboardErrorPolicy,
    control: bool,
    buf: Seq<char>,
)
    requires
        opt_text(cfg.exit_command) == Some(buf),
        buf.len() > 0,
    ensures
        ({
            let r = step_reaction(
                cfg,
                policy,
                LoopEvent::Key(KeyEvent { code: Key::Enter, control }),
                buf,
            );
            r.exit == Some(Exit::Normal) && r.command is None
        }),
{
}

/// Enter on a non-empty line that is not the exit command dispatches that
/// line exactly once, empties the line and keeps the loop running.
pub proof fn lemma_submit_dispatches(
    cfg: Config,
    policy: KeyboardErrorPolicy,
    control: bool,
    buf: Seq<char>,
)
    requires
        buf.len() > 0,
        !is_exit_command(cfg, buf),
    ensures
        step_buffer(cfg, LoopEvent::Key(KeyEvent { code: Key::Enter, control }), buf)
            == Seq::<char>::empty(),
        ({
            let r = step_reaction(
                cfg,
                policy,
                LoopEvent::Key(KeyEvent { code: Key::Enter, control }),
                buf,
            );
            r.command == Some(buf) && r.exit is None
        }),
{
    assert(step_buffer(cfg, LoopEvent::Key(KeyEvent { code: Key::Enter, control }), buf)
        =~= Seq::<char>::empty());
}

/// Enter on an empty line dispatches nothing and keeps the loop running.
pub proof fn lemma_empty_submit_is_quiet(cfg: Config, policy: KeyboardErrorPolicy, control: bool)
    ensures
        step_buffer(cfg, LoopEvent::Key(KeyEvent { code: Key::Enter, control }), seq![])
            == Seq::<char>::empty(),
        ({
            let r = step_reaction(
                cfg,
                policy,
                LoopEvent::Key(KeyEvent { code: Key::Enter, control }),
                seq![],
            );
            r.command is None && r.exit is None
        }),
{
}

/// Escape ends the loop exactly when `exit_on_esc` is set, and Ctrl+C (with
/// `c` or `C`) exactly when `exit_on_ctrl_c` is set; neither dispatches.
pub proof fn lemma_exit_keys(
    cfg: Config,
    policy: KeyboardErrorPolicy,
    control: bool,
    buf: Seq<char>,
)
    ensures
        ({
            let r = step_reaction(
                cfg,
                policy,
                LoopEvent::Key(KeyEvent { code: Key::Esc, control }),
                buf,
            );
            (r.exit == Some(Exit::Normal) <==> cfg.exit_on_esc) && (r.exit is None
                <==> !cfg.exit_on_esc) && r.command is None
        }),
        forall|c: char|
            c == 'c' || c == 'C' ==> {
                let r = #[trigger] step_reaction(
                    cfg,
                    policy,
                    LoopEvent::Key(KeyEvent { code: Key::Char(c), control: true }),
                    buf,
                );
                (r.exit == Some(Exit::Normal) <==> cfg.exit_on_ctrl_c) && (r.exit is None
                    <==> !cfg.exit_on_ctrl_c) && r.command is None
            },
{
}

/// An info message leaves the line being typed as it is; it is shown after
/// the output prompt and then the input prompt and the unsent line are drawn
/// again.
pub proof fn lemma_info_restores_line(
    cfg: Config,
    policy: KeyboardErrorPolicy,
    info: String,
    buf: Seq<char>,
)
    ensures
        step_buffer(cfg, LoopEvent::Info(info), buf) == buf,
        step_reaction(cfg, policy, LoopEvent::Info(info), buf) == writes(
            line_ops(opt_text(cfg.output_prompt), info@, true) + line_ops(
                opt_text(cfg.input_prompt),
                buf,
                false,
            ),
        ),
{
}

} // verus!
