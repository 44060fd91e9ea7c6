use vstd::prelude::*;

use crate::bq::BqTable;

verus! {

/// The notification-topic slot of the Resource Model.
pub struct PubSubTopic {
    pub project_id: String,
    pub topic_id: String,
}

/// The storage-bucket slot of the Resource Model.
pub struct GcsBucket {
    pub bucket_name: String,
}

/// The compute-job slot of the Resource Model.
pub struct CloudRunJob {
    pub job_name: String,
    pub image_reference: String,
}

/// The periodic-trigger slot of the Resource Model.
pub struct SchedulerJob {
    pub schedule_expression: String,
    pub target_job: String,
}

/// The Resource Model: one slot per provisionable resource, each either unset
/// or holding a descriptor. It is owned exclusively by one deployment run and
/// persisted by the caller when the run succeeds.
pub struct Resources {
    pub table: Option<BqTable>,
    pub topic: Option<PubSubTopic>,
    pub bucket: Option<GcsBucket>,
    pub job: Option<CloudRunJob>,
    pub scheduler: Option<SchedulerJob>,
}

pub open spec fn table_resolved(r: Resources) -> bool {
    match r.table {
        Some(t) => t.dataset_id@.len() > 0 && t.table_id@.len() > 0,
        None => false,
    }
}

pub open spec fn topic_resolved(r: Resources) -> bool {
    match r.topic {
        Some(t) => t.topic_id@.len() > 0,
        None => false,
    }
}

pub open spec fn bucket_resolved(r: Resources) -> bool {
    match r.bucket {
        Some(b) => b.bucket_name@.len() > 0,
        None => false,
    }
}

pub open spec fn job_resolved(r: Resources) -> bool {
    match r.job {
        Some(j) => j.job_name@.len() > 0,
        None => false,
    }
}

pub open spec fn scheduler_resolved(r: Resources) -> bool {
    match r.scheduler {
        Some(s) => s.schedule_expression@.len() > 0,
        None => false,
    }
}

pub open spec fn all_resolved(r: Resources) -> bool {
    table_resolved(r) && topic_resolved(r) && bucket_resolved(r) && job_resolved(r)
        && scheduler_resolved(r)
}

/// The provisioning stages, linear and in this order; each is a precondition
/// for the next, and `Deployed` is the successful terminal state.
#[derive(Clone, Copy, PartialEq, Eq, Structural, Debug)]
pub enum Stage {
    ValidatePath,
    CheckPrerequisites,
    LoadResourceModel,
    CreateTable,
    CreateTopic,
    GenerateRoutingConfig,
    CreateBucket,
    UploadRoutingConfig,
    CreateJob,
    PatchManifest,
    CreateScheduler,
    PersistResourceModel,
    Deployed,
}

pub open spec fn stage_index(s: Stage) -> int {
    match s {
        Stage::ValidatePath => 0,
        Stage::CheckPrerequisites => 1,
        Stage::LoadResourceModel => 2,
        Stage::CreateTable => 3,
        Stage::CreateTopic => 4,
        Stage::GenerateRoutingConfig => 5,
        Stage::CreateBucket => 6,
        Stage::UploadRoutingConfig => 7,
        Stage::CreateJob => 8,
        Stage::PatchManifest => 9,
        Stage::CreateScheduler => 10,
        Stage::PersistResourceModel => 11,
        Stage::Deployed => 12,
    }
}

/// The stage that follows `s` in the linear order.
pub fn next_stage(s: &Stage) -> (r: Stage)
    requires
        *s != Stage::Deployed,
    ensures
        stage_index(r) == stage_index(*s) + 1,
{
    match s {
        Stage::ValidatePath => Stage::CheckPrerequisites,
        Stage::CheckPrerequisites => Stage::LoadResourceModel,
        Stage::LoadResourceModel => Stage::CreateTable,
        Stage::CreateTable => Stage::CreateTopic,
        Stage::CreateTopic => Stage::GenerateRoutingConfig,
        Stage::GenerateRoutingConfig => Stage::CreateBucket,
        Stage::CreateBucket => Stage::UploadRoutingConfig,
        Stage::UploadRoutingConfig => Stage::CreateJob,
        Stage::CreateJob => Stage::PatchManifest,
        Stage::PatchManifest => Stage::CreateScheduler,
        Stage::CreateScheduler => Stage::PersistResourceModel,
        Stage::PersistResourceModel => Stage::Deployed,
        Stage::Deployed => Stage::Deployed,
    }
}

/// The stages that create a remote resource and are skipped once their slot
/// is resolved.
pub open spec fn is_create_stage(s: Stage) -> bool {
    s == Stage::CreateTable || s == Stage::CreateTopic || s == Stage::CreateBucket || s
        == Stage::CreateJob || s == Stage::CreateScheduler
}

/// Whether the slot a create stage provisions is already resolved.
pub open spec fn slot_resolved(s: Stage, r: Resources) -> bool {
    match s {
        Stage::CreateTable => table_resolved(r),
        Stage::CreateTopic => topic_resolved(r),
        Stage::CreateBucket => bucket_resolved(r),
        Stage::CreateJob => job_resolved(r),
        Stage::CreateScheduler => scheduler_resolved(r),
        _ => false,
    }
}

#[derive(Clone, Copy, PartialEq, Eq, Structural, Debug)]
pub enum StageWork {
    Run,
    Skip,
}

/// A create stage whose slot is already resolved is skipped, a no-op that
/// must not overwrite the resolved identifiers; every other stage runs.
pub open spec fn spec_stage_work(s: Stage, r: Resources) -> StageWork {
    if is_create_stage(s) && slot_resolved(s, r) {
        StageWork::Skip
    } else {
        StageWork::Run
    }
}

/// How a stage ended: the caller reports it after performing the stage's
/// external work.
pub enum StageOutcome {
    Succeeded,
    Failed(String),
}

/// The stage a run failed at, with the underlying cause.
pub struct Failure {
    pub stage: Stage,
    pub cause: String,
}

/// One deployment run: the Resource Model under exclusive ownership, the stage
/// the run stands at, and the failure that ended it, if one did.
pub struct DeployRun {
    pub resources: Resources,
    pub stage: Stage,
    pub failure: Option<Failure>,
}

/// Begins one deployment run over a loaded Resource Model. The run starts at
/// path validation and advances one stage per reported outcome; the caller
/// performs each stage's external work.
pub fn deploy(resources: Resources) -> (r: DeployRun)
    ensures
        r.stage == Stage::ValidatePath,
        r.resources == resources,
        r.failure is None,
{
    DeployRun { resources, stage: Stage::ValidatePath, failure: None }
}

impl DeployRun {
    /// Whether the stage the run stands at is to be run or skipped.
    pub fn work(&self) -> (w: StageWork)
        ensures
            w == spec_stage_work(self.stage, self.resources),
    {
        match self.stage {
            Stage::CreateTable => match &self.resources.table {
                Some(t) => if !t.dataset_id.as_str().is_empty() && !t.table_id.as_str().is_empty() {
                    StageWork::Skip
                } else {
                    StageWork::Run
                },
                None => StageWork::Run,
            },
            Stage::CreateTopic => match &self.resources.topic {
                Some(t) => if !t.topic_id.as_str().is_empty() {
                    StageWork::Skip
                } else {
                    StageWork::Run
                },
                None => StageWork::Run,
            },
            Stage::CreateBucket => match &self.resources.bucket {
                Some(b) => if !b.bucket_name.as_str().is_empty() {
                    StageWork::Skip
                } else {
                    StageWork::Run
                },
                None => StageWork::Run,
            },
            Stage::CreateJob => match &self.resources.job {
                Some(j) => if !j.job_name.as_str().is_empty() {
                    StageWork::Skip
                } else {
                    StageWork::Run
                },
                None => StageWork::Run,
            },
            Stage::CreateScheduler => match &self.resources.scheduler {
                Some(s) => if !s.schedule_expression.as_str().is_empty() {
                    StageWork::Skip
                } else {
                    StageWork::Run
                },
                None => StageWork::Run,
            },
            _ => StageWork::Run,
        }
    }

    /// Records a stage's outcome. Success advances to the next stage; failure
    /// ends the run, keeping the failing stage and its cause. No completed
    /// stage is rolled back: resources earlier stages created stay in place.
    pub fn advance(&mut self, outcome: StageOutcome)
        requires
            old(self).failure is None,
            old(self).stage != Stage::Deployed,
        ensures
            final(self).resources == old(self).resources,
            match outcome {
                StageOutcome::Succeeded => {
                    &&& final(self).failure is None
                    &&& stage_index(final(self).stage) == stage_index(old(self).stage) + 1
                },
                StageOutcome::Failed(cause) => {
                    &&& final(self).stage == old(self).stage
                    &&& match final(self).failure {
                        Some(f) => f.stage == old(self).stage && f.cause@ == cause@,
                        None => false,
                    }
                },
            },
    {
        match outcome {
            StageOutcome::Succeeded => {
                self.stage = next_stage(&self.stage);
            },
            StageOutcome::Failed(cause) => {
                self.failure = Some(Failure { stage: self.stage, cause });
            },
        }
    }

    /// Whether the run has ended, in `Deployed` or in failure.
    pub fn done(&self) -> (b: bool)
        ensures
            b == (self.stage == Stage::Deployed || self.failure is Some),
    {
        self.stage == Stage::Deployed || self.failure.is_some()
    }
}

/// Law: on a fully-resolved Resource Model every create stage is skipped,
/// while routing-configuration generation, its upload and the manifest patch
/// still run.
pub proof fn lemma_deploy_skips_resolved(r: Resources)
    requires
        all_resolved(r),
    ensures
        forall|s: Stage| is_create_stage(s) ==> spec_stage_work(s, r) == StageWork::Skip,
        spec_stage_work(Stage::GenerateRoutingConfig, r) == StageWork::Run,
        spec_stage_work(Stage::UploadRoutingConfig, r) == StageWork::Run,
        spec_stage_work(Stage::PatchManifest, r) == StageWork::Run,
{
    assert forall|s: Stage| is_create_stage(s) implies spec_stage_work(s, r) == StageWork::Skip by {
        assert(slot_resolved(s, r));
    }
}

} // verus!
