use vstd::prelude::*;

verus! {

/// The shell that is started when neither the caller nor the environment names one.
pub const FALLBACK_SHELL: &'static str = "/bin/sh";

/// The shell path a session spawns: the caller's override if given, else the
/// environment's configured shell, else the fixed fallback.
pub open spec fn shell_choice(over: Option<Seq<char>>, env: Option<Seq<char>>) -> Seq<char> {
    match over {
        Some(s) => s,
        None => match env {
            Some(s) => s,
            None => FALLBACK_SHELL@,
        },
    }
}

/// Picks the shell path to spawn from an optional override and the value of
/// the environment's shell variable, if set.
pub fn resolve_shell(shell_override: Option<&str>, env_shell: Option<&str>) -> (r: String)
    ensures
        r@ == shell_choice(
            match shell_override { Some(s) => Some(s@), None => None },
            match env_shell { Some(s) => Some(s@), None => None },
        ),
{
    match shell_override {
        Some(s) => s.to_owned(),
        None => match env_shell {
            Some(s) => s.to_owned(),
            None => FALLBACK_SHELL.to_owned(),
        },
    }
}

} // verus!
