use beaver::bq::BqTable;
use beaver::crj;
use beaver::deploy::{
    deploy, CloudRunJob, GcsBucket, PubSubTopic, Resources, SchedulerJob, Stage, StageOutcome,
    StageWork,
};
use beaver::{Config, Tool};

fn strs(v: &[&str]) -> Vec<String> {
    v.iter().map(|s| s.to_string()).collect()
}

fn resolved_resources() -> Resources {
    Resources {
        table: Some(BqTable::new("proj", "ds", "tbl")),
        topic: Some(PubSubTopic { project_id: "proj".to_string(), topic_id: "top".to_string() }),
        bucket: Some(GcsBucket { bucket_name: "bkt".to_string() }),
        job: Some(CloudRunJob {
            job_name: "job".to_string(),
            image_reference: "img:latest".to_string(),
        }),
        scheduler: Some(SchedulerJob {
            schedule_expression: "0 * * * *".to_string(),
            target_job: "job".to_string(),
        }),
    }
}

#[test]
fn resolved_model_skips_every_create_stage() {
    // With every slot already resolved the run issues no resource-creation
    // work; generation, upload and the manifest patch still run.
    let mut run = deploy(resolved_resources());
    let mut skipped = Vec::new();
    let mut ran = Vec::new();
    while !run.done() {
        match run.work() {
            StageWork::Skip => skipped.push(run.stage),
            StageWork::Run => ran.push(run.stage),
        }
        run.advance(StageOutcome::Succeeded);
    }
    assert_eq!(
        skipped,
        vec![
            Stage::CreateTable,
            Stage::CreateTopic,
            Stage::CreateBucket,
            Stage::CreateJob,
            Stage::CreateScheduler,
        ]
    );
    assert!(ran.contains(&Stage::GenerateRoutingConfig));
    assert!(ran.contains(&Stage::UploadRoutingConfig));
    assert!(ran.contains(&Stage::PatchManifest));
    assert_eq!(run.stage, Stage::Deployed);
    assert!(run.failure.is_none());
}

#[test]
fn unresolved_slots_make_their_create_stages_run() {
    let mut resources = resolved_resources();
    resources.table = Some(BqTable::new("proj", "", ""));
    resources.bucket = None;
    let run = deploy(resources);
    let mut run = run;
    let mut work_by_stage = Vec::new();
    while !run.done() {
        work_by_stage.push((run.stage, run.work()));
        run.advance(StageOutcome::Succeeded);
    }
    assert!(work_by_stage.contains(&(Stage::CreateTable, StageWork::Run)));
    assert!(work_by_stage.contains(&(Stage::CreateBucket, StageWork::Run)));
    assert!(work_by_stage.contains(&(Stage::CreateTopic, StageWork::Skip)));
}

#[test]
fn a_failed_stage_ends_the_run_with_its_cause() {
    let mut run = deploy(resolved_resources());
    run.advance(StageOutcome::Succeeded);
    run.advance(StageOutcome::Succeeded);
    assert_eq!(run.stage, Stage::LoadResourceModel);
    run.advance(StageOutcome::Failed("cannot read the specification".to_string()));
    assert!(run.done());
    let failure = run.failure.expect("the run records the failure");
    assert_eq!(failure.stage, Stage::LoadResourceModel);
    assert_eq!(failure.cause, "cannot read the specification");
    assert_eq!(run.stage, Stage::LoadResourceModel);
}

#[test]
fn job_commands_carry_the_configuration_arguments() {
    let config = Config { project_id: "proj".to_string(), region: "reg".to_string() };
    let job = "job".to_string();

    let del = crj::delete(&job, &config);
    assert_eq!(del.tool, Tool::Gcloud);
    assert_eq!(
        del.args,
        strs(&["run", "jobs", "delete", "job", "--project", "proj", "--region", "reg"])
    );

    let created = crj::create(&job, &config);
    assert_eq!(created.len(), 2);
    assert_eq!(
        created[0].args,
        strs(&[
            "run",
            "jobs",
            "create",
            "job",
            "--image",
            "docker.io/timberio/vector:latest-alpine",
            "--project",
            "proj",
            "--region",
            "reg",
        ])
    );
    assert_eq!(
        created[1].args,
        strs(&[
            "run", "jobs", "describe", "job", "--format", "export", "--project", "proj",
            "--region", "reg",
        ])
    );

    let replace = crj::replace_command(&"/tmp/patched.yaml".to_string(), &config);
    assert_eq!(
        replace.args,
        strs(&[
            "beta",
            "run",
            "jobs",
            "replace",
            "/tmp/patched.yaml",
            "--project",
            "proj",
            "--region",
            "reg",
        ])
    );
}

#[test]
fn cli_arguments_carry_an_optional_subcommand() {
    let none = beaver::cli::Args::none();
    assert!(none.command.is_none());
    let some = beaver::cli::Args { command: Some(beaver::cli::Command::Deploy) };
    assert_eq!(some.command, Some(beaver::cli::Command::Deploy));
}
