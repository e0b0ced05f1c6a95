//! The command descriptor and the startup errors.

use vstd::prelude::*;

verus! {

/// Why the watcher refused to start.
#[derive(Clone, Copy, Debug, PartialEq, Eq, Structural)]
pub enum WatchError {
    /// The command argument list was empty.
    NoCommand,
    /// The watch root does not exist.
    PathNotFound,
}

/// An immutable command line: the program to run and its arguments,
/// built once from the raw tokens and reused for every spawn.
#[derive(Debug)]
pub struct CommandSpec {
    pub program: String,
    pub args: Vec<String>,
}

/// Build the command descriptor from the raw argument tokens: the first
/// token names the program, the remaining tokens are its arguments, in
/// order. An empty token list is a configuration error, and nothing may
/// be spawned from it.
pub fn build_command(tokens: Vec<String>) -> (r: Result<CommandSpec, WatchError>)
    ensures
        tokens@.len() == 0 ==> r == Err::<CommandSpec, WatchError>(WatchError::NoCommand),
        tokens@.len() > 0 ==> r is Ok && r->Ok_0.program == tokens@[0] && r->Ok_0.args@
            == tokens@.subrange(1, tokens@.len() as int),
{
    let mut rest = tokens;
    if rest.len() == 0 {
        return Err(WatchError::NoCommand);
    }
    let program = rest.remove(0);
    Ok(CommandSpec { program, args: rest })
}

} // verus!
