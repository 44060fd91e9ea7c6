use vstd::prelude::*;

use crate::{args_view, cmd_is, config_args, CommandSpec, Config, Tool};

verus! {

/// Arguments of the command that deletes a compute job.
pub open spec fn delete_args(job: Seq<char>, c: Config) -> Seq<Seq<char>> {
    seq!["run"@, "jobs"@, "delete"@, job] + config_args(c)
}

/// Arguments of the command that creates the compute job from its fixed image.
pub open spec fn create_args(job: Seq<char>, c: Config) -> Seq<Seq<char>> {
    seq![
        "run"@,
        "jobs"@,
        "create"@,
        job,
        "--image"@,
        "docker.io/timberio/vector:latest-alpine"@,
    ] + config_args(c)
}

/// Arguments of the describe command whose captured output is the job's
/// manifest in exportable form.
pub open spec fn describe_args(job: Seq<char>, c: Config) -> Seq<Seq<char>> {
    seq!["run"@, "jobs"@, "describe"@, job, "--format"@, "export"@] + config_args(c)
}

/// Arguments of the command that resubmits a patched manifest from a file.
pub open spec fn replace_args(path: Seq<char>, c: Config) -> Seq<Seq<char>> {
    seq!["beta"@, "run"@, "jobs"@, "replace"@, path] + config_args(c)
}

/// The command that deletes the named job.
pub fn delete(job_name: &String, config: &Config) -> (r: CommandSpec)
    ensures
        cmd_is(r, Tool::Gcloud, delete_args(job_name@, *config)),
{
    let mut args: Vec<String> = Vec::new();
    args.push("run".to_owned());
    args.push("jobs".to_owned());
    args.push("delete".to_owned());
    args.push(job_name.clone());
    let mut tail = config.flatten();
    args.append(&mut tail);
    proof {
        assert(args_view(args@) =~= delete_args(job_name@, *config));
    }
    CommandSpec { tool: Tool::Gcloud, args }
}

/// The command that creates the named job on the compute platform.
pub fn create_on_gcs(job_name: &String, config: &Config) -> (r: CommandSpec)
    ensures
        cmd_is(r, Tool::Gcloud, create_args(job_name@, *config)),
{
    let mut args: Vec<String> = Vec::new();
    args.push("run".to_owned());
    args.push("jobs".to_owned());
    args.push("create".to_owned());
    args.push(job_name.clone());
    args.push("--image".to_owned());
    args.push("docker.io/timberio/vector:latest-alpine".to_owned());
    let mut tail = config.flatten();
    args.append(&mut tail);
    proof {
        assert(args_view(args@) =~= create_args(job_name@, *config));
    }
    CommandSpec { tool: Tool::Gcloud, args }
}

/// The command that fetches the named job's manifest. Its error stream being
/// non-empty is fatal to the caller; its output is the manifest to patch.
pub fn describe_formatted(job_name: &String, config: &Config) -> (r: CommandSpec)
    ensures
        cmd_is(r, Tool::Gcloud, describe_args(job_name@, *config)),
{
    let mut args: Vec<String> = Vec::new();
    args.push("run".to_owned());
    args.push("jobs".to_owned());
    args.push("describe".to_owned());
    args.push(job_name.clone());
    args.push("--format".to_owned());
    args.push("export".to_owned());
    let mut tail = config.flatten();
    args.append(&mut tail);
    proof {
        assert(args_view(args@) =~= describe_args(job_name@, *config));
    }
    CommandSpec { tool: Tool::Gcloud, args }
}

/// The command that resubmits a patched manifest written at `manifest_path`.
pub fn replace_command(manifest_path: &String, config: &Config) -> (r: CommandSpec)
    ensures
        cmd_is(r, Tool::Gcloud, replace_args(manifest_path@, *config)),
{
    let mut args: Vec<String> = Vec::new();
    args.push("beta".to_owned());
    args.push("run".to_owned());
    args.push("jobs".to_owned());
    args.push("replace".to_owned());
    args.push(manifest_path.clone());
    let mut tail = config.flatten();
    args.append(&mut tail);
    proof {
        assert(args_view(args@) =~= replace_args(manifest_path@, *config));
    }
    CommandSpec { tool: Tool::Gcloud, args }
}

/// The `CreateJob` work and the start of manifest patching: first the command
/// that creates the job, then the describe command whose captured output is
/// the manifest that `patch_manifest` rewrites before `replace_command`
/// resubmits it.
pub fn create(job_name: &String, config: &Config) -> (r: Vec<CommandSpec>)
    ensures
        r@.len() == 2,
        cmd_is(r@[0], Tool::Gcloud, create_args(job_name@, *config)),
        cmd_is(r@[1], Tool::Gcloud, describe_args(job_name@, *config)),
{
    let mut cmds: Vec<CommandSpec> = Vec::new();
    cmds.push(create_on_gcs(job_name, config));
    cmds.push(describe_formatted(job_name, config));
    cmds
}

} // verus!
