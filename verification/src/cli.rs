use vstd::prelude::*;

verus! {

/// The subcommands the program accepts: create a configuration, deploy the
/// described resources, or tear them down.
#[derive(Clone, Copy, PartialEq, Eq, Structural, Debug)]
pub enum Command {
    Init,
    Deploy,
    Destroy,
}

/// A parsed invocation: the chosen subcommand, if one was passed.
pub struct Args {
    pub command: Option<Command>,
}

impl Args {
    /// An invocation that names no subcommand.
    pub fn none() -> (r: Self)
        ensures
            r.command is None,
    {
        Args { command: None }
    }
}

} // verus!
