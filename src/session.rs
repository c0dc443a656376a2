//! How the process ends: the shutdown policy that replaces process-wide
//! flags, and the recognition of broken-pipe panics.
use vstd::prelude::*;
use crate::text::{contains_text, has_substring};

verus! {

/// What happens on interruption and at exit, set by the commands as they run.
#[derive(Clone, Copy, Debug, PartialEq, Eq, Structural)]
pub struct ShutdownPolicy {
    /// Ask for a key press before exiting.
    pub show_continue_prompt: bool,
    /// Leave Ctrl-C to the running command instead of exiting.
    pub ctrlc_disabled: bool,
}

/// The exit code after Ctrl-C: 128 plus the signal number of SIGINT.
pub const INTERRUPT_EXIT_CODE: i32 = 130;

impl ShutdownPolicy {
    pub fn new() -> (r: ShutdownPolicy)
        ensures
            !r.show_continue_prompt,
            !r.ctrlc_disabled,
    {
        ShutdownPolicy { show_continue_prompt: false, ctrlc_disabled: false }
    }

    /// Changes the shutdown behavior to request a continue prompt.
    pub fn request_continue_prompt(&mut self)
        ensures
            final(self).show_continue_prompt,
            final(self).ctrlc_disabled == old(self).ctrlc_disabled,
    {
        self.show_continue_prompt = true;
    }

    /// Disables the Ctrl-C handler.
    pub fn disable_ctrlc_handler(&mut self)
        ensures
            final(self).ctrlc_disabled,
            final(self).show_continue_prompt == old(self).show_continue_prompt,
    {
        self.ctrlc_disabled = true;
    }

    /// The exit code on Ctrl-C, or `None` where the handler is disabled.
    pub fn interrupt_exit_code(&self) -> (r: Option<i32>)
        ensures
            r == (if self.ctrlc_disabled { None } else { Some(INTERRUPT_EXIT_CODE) }),
    {
        if self.ctrlc_disabled {
            None
        } else {
            Some(INTERRUPT_EXIT_CODE)
        }
    }
}

/// What the standard library's panic says when printing to a closed stdout fails.
pub open spec fn bad_pipe_marker() -> Seq<char> {
    "failed printing to stdout: "@
}

/// Whether a panic message comes from printing to a closed stdout.
pub fn is_bad_pipe(message: &str) -> (r: bool)
    ensures
        r == has_substring(message@, bad_pipe_marker()),
{
    contains_text(message, "failed printing to stdout: ")
}

} // verus!
