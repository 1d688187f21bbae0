use vstd::prelude::*;

verus! {

/// Settings of one loop: its prompts and the ways in which it may end.
#[derive(Clone, Debug)]
pub struct Config {
    /// Written before the line that the user types.
    pub input_prompt: Option<String>,
    /// Written before each info message.
    pub output_prompt: Option<String>,
    /// A submitted line equal to this ends the loop.
    pub exit_command: Option<String>,
    /// Escape ends the loop.
    pub exit_on_esc: bool,
    /// Ctrl+C ends the loop.
    pub exit_on_ctrl_c: bool,
}

/// The characters of an optional text.
pub open spec fn opt_text(o: Option<String>) -> Option<Seq<char>> {
    match o {
        Some(s) => Some(s@),
        None => None,
    }
}

/// A submitted line ends the loop: it is not empty and equals the configured
/// exit command verbatim.
pub open spec fn is_exit_command(cfg: Config, line: Seq<char>) -> bool {
    &&& line.len() > 0
    &&& opt_text(cfg.exit_command) == Some(line)
}

impl Default for Config {
    /// Prompts `Input>` and `Output>`, exit command `exit`, and both exit keys on.
    fn default() -> (r: Config)
        ensures
            opt_text(r.input_prompt) == Some("Input>"@),
            opt_text(r.output_prompt) == Some("Output>"@),
            opt_text(r.exit_command) == Some("exit"@),
            r.exit_on_esc,
            r.exit_on_ctrl_c,
    {
        Config {
            input_prompt: Some(String::from_str("Input>")),
            output_prompt: Some(String::from_str("Output>")),
            exit_command: Some(String::from_str("exit")),
            exit_on_esc: true,
            exit_on_ctrl_c: true,
        }
    }
}

} // verus!
