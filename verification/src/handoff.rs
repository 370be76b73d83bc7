//! The final handoff: what the process image is replaced with.
//!
//! On success the launcher never resumes; control passes permanently
//! to the real executable.  The exec primitive itself lives outside
//! this crate; here stands the plan it is given: which file to run,
//! the preserved invocation name, the arguments forwarded unmodified,
//! and the environment overlay applied before the replacement.

use vstd::prelude::*;

verus! {

/// Everything the process-replacement call needs.  The wrapped tool
/// sees the caller's own `argv0`, so it cannot tell being launched
/// through the wrapper from being launched directly.
pub struct HandoffPlan {
    /// The file whose image replaces this process: the redirection
    /// link, which resolves to the real executable.
    pub executable: String,
    /// The original invocation name, preserved as handed in.
    pub argv0: String,
    /// The remaining arguments, forwarded unmodified and in order.
    pub args: Vec<String>,
}

/// The environment overlay applied before the handoff: the wrapped
/// tool sees a normalized home directory and cache root.  Modelled as
/// an explicit value rather than a process-wide mutation.
pub fn handoff_environment() -> (env: Vec<(String, String)>)
    ensures
        env@.len() == 2,
        env@[0].0@ == "HOME"@,
        env@[0].1@ == "/home/linuxbrew"@,
        env@[1].0@ == "XDG_CACHE_HOME"@,
        env@[1].1@ == "/home/linuxbrew/.cache"@,
{
    let mut env: Vec<(String, String)> = Vec::new();
    env.push(("HOME".to_owned(), "/home/linuxbrew".to_owned()));
    env.push(("XDG_CACHE_HOME".to_owned(), "/home/linuxbrew/.cache".to_owned()));
    env
}

/// Builds the handoff plan: run the redirection link, keep the
/// caller's invocation name, forward every argument unchanged.
pub fn handoff_plan(argv0: String, args: Vec<String>) -> (plan: HandoffPlan)
    ensures
        plan.executable@ == "/home/linuxbrew/.linuxbrew/.sandbox/brew-unsandboxed"@,
        plan.argv0 == argv0,
        plan.args == args,
{
    HandoffPlan {
        executable: crate::redirect::redirection_link_path().to_owned(),
        argv0,
        args,
    }
}

} // verus!
