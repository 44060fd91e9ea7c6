use vstd::prelude::*;

pub mod bq;
pub mod cli;
pub mod crj;
pub mod deploy;
pub mod manifest;
pub mod naming;
pub mod node;
pub mod vector_config;

verus! {

/// The two external command-line tools the orchestrator drives: the generic
/// cloud-resource tool and the data-warehouse tool.
#[derive(Clone, Copy, PartialEq, Eq, Structural, Debug)]
pub enum Tool {
    Gcloud,
    Bq,
}

/// A single external command invocation: which tool to run and its arguments.
/// The library decides the commands; running them is the caller's part.
pub struct CommandSpec {
    pub tool: Tool,
    pub args: Vec<String>,
}

pub open spec fn args_view(args: Seq<String>) -> Seq<Seq<char>> {
    Seq::new(args.len(), |i: int| args[i]@)
}

/// The command runs the given tool with exactly the given arguments.
pub open spec fn cmd_is(c: CommandSpec, tool: Tool, args: Seq<Seq<char>>) -> bool {
    c.tool == tool && args_view(c.args@) == args
}

/// The per-deployment settings every external command carries.
pub struct Config {
    pub project_id: String,
    pub region: String,
}

pub open spec fn config_args(c: Config) -> Seq<Seq<char>> {
    seq!["--project"@, c.project_id@, "--region"@, c.region@]
}

impl Config {
    /// The settings as trailing command-line arguments.
    pub fn flatten(&self) -> (r: Vec<String>)
        ensures
            args_view(r@) == config_args(*self),
    {
        let mut args: Vec<String> = Vec::new();
        args.push("--project".to_owned());
        args.push(self.project_id.clone());
        args.push("--region".to_owned());
        args.push(self.region.clone());
        proof {
            assert(args_view(args@) =~= config_args(*self));
        }
        args
    }
}

} // verus!
