use vstd::prelude::*;

use crate::context::Context;
use crate::error::ExecError;

verus! {

/// Running commands, alone or as a pipeline, each in its own context.
///
/// Running one command is running a pipeline of that one stage.
pub trait Exec {
    /// Runs `command` with `args` in `context` (directly where there is
    /// none) and returns its standard output as text.
    fn exec<'a>(
        &mut self,
        command: &str,
        args: &[&'a str],
        context: Option<&'a Context>,
    ) -> Result<String, ExecError>;

    /// Runs `commands` as a pipeline, the standard output of each feeding
    /// the standard input of the next, and returns the standard output of
    /// the last as text.
    fn exec_piped<'a>(
        &mut self,
        commands: &[(&'a str, &'a [&'a str], Option<&'a Context>)],
    ) -> Result<String, ExecError>;
}

} // verus!
