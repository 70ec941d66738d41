//! Job Orchestrator: the per-repository pipeline
//! fetch → detect → build → collect, with the skip policy in front and
//! every failure confined to its own job. `JobMachine` is the pipeline
//! as an explicit state machine: each step consumes the answer to the
//! previous external action and decides the next one, so a driver doing
//! the real I/O carries no decision of its own. `run_job` replays the
//! pipeline over recorded collaborator answers, and `run_batch` maps it
//! over a flat list of independent jobs.

use vstd::prelude::*;
use crate::compiler::build_succeeded;
use crate::compiler::fat_jar_count;
use crate::compiler::is_fat_jar;
use crate::compiler::locate_fat_jar;
use crate::compiler::detect;
use crate::compiler::spec_detect;
use crate::namer::spec_dest_path;
use crate::namer::spec_name;
use crate::namer::spec_owner;
use crate::namer::well_formed_locator;
use crate::strutil::clone_string_vec;

verus! {

/// Artifact Cache/Skip Policy: a job is skipped exactly when its output
/// artifact already exists and a rebuild is not forced. Existence alone
/// is authoritative; no content is consulted.
pub fn should_skip(dest_exists: bool, recompile: bool) -> (r: bool)
    ensures
        r == (dest_exists && !recompile),
{
    dest_exists && !recompile
}

/// The ways one job can fail; each is confined to its own job.
#[derive(Debug, PartialEq, Eq)]
pub enum JobFailure {
    /// The locator yields no identity.
    MalformedLocator,
    /// Source acquisition failed.
    Fetch,
    /// No build-system strategy matched the working directory.
    UnsupportedProjectType,
    /// The build tool exited non-zero; its full captured output.
    BuildFailed { stdout: String, stderr: String },
    /// The build reported success but no unambiguous artifact was found.
    ArtifactNotFound,
    /// Copying the artifact to its destination failed.
    Io,
}

/// The terminal state of one job.
#[derive(Debug, PartialEq, Eq)]
pub enum BuildOutcome {
    /// The output artifact already existed; nothing ran.
    Skipped,
    /// The artifact was built and copied to this destination path.
    Compiled(String),
    /// The job failed; siblings are unaffected.
    Failed(JobFailure),
}

/// Mathematical model of a `JobFailure`.
pub enum FailureModel {
    MalformedLocator,
    Fetch,
    UnsupportedProjectType,
    BuildFailed(Seq<char>, Seq<char>),
    ArtifactNotFound,
    Io,
}

/// Mathematical model of a `BuildOutcome`.
pub enum OutcomeModel {
    Skipped,
    Compiled(Seq<char>),
    Failed(FailureModel),
}

impl View for JobFailure {
    type V = FailureModel;

    open spec fn view(&self) -> FailureModel {
        match self {
            JobFailure::MalformedLocator => FailureModel::MalformedLocator,
            JobFailure::Fetch => FailureModel::Fetch,
            JobFailure::UnsupportedProjectType => FailureModel::UnsupportedProjectType,
            JobFailure::BuildFailed { stdout, stderr } => FailureModel::BuildFailed(
                stdout@,
                stderr@,
            ),
            JobFailure::ArtifactNotFound => FailureModel::ArtifactNotFound,
            JobFailure::Io => FailureModel::Io,
        }
    }
}

impl Clone for JobFailure {
    /// Clones the failure, preserving its model.
    fn clone(&self) -> (r: Self)
        ensures
            r@ == self@,
    {
        match self {
            JobFailure::MalformedLocator => JobFailure::MalformedLocator,
            JobFailure::Fetch => JobFailure::Fetch,
            JobFailure::UnsupportedProjectType => JobFailure::UnsupportedProjectType,
            JobFailure::BuildFailed { stdout, stderr } => JobFailure::BuildFailed {
                stdout: stdout.clone(),
                stderr: stderr.clone(),
            },
            JobFailure::ArtifactNotFound => JobFailure::ArtifactNotFound,
            JobFailure::Io => JobFailure::Io,
        }
    }
}

impl View for BuildOutcome {
    type V = OutcomeModel;

    open spec fn view(&self) -> OutcomeModel {
        match self {
            BuildOutcome::Skipped => OutcomeModel::Skipped,
            BuildOutcome::Compiled(dest) => OutcomeModel::Compiled(dest@),
            BuildOutcome::Failed(f) => OutcomeModel::Failed(f@),
        }
    }
}

impl Clone for BuildOutcome {
    /// Clones the outcome, preserving its model.
    fn clone(&self) -> (r: Self)
        ensures
            r@ == self@,
    {
        match self {
            BuildOutcome::Skipped => BuildOutcome::Skipped,
            BuildOutcome::Compiled(dest) => BuildOutcome::Compiled(dest.clone()),
            BuildOutcome::Failed(f) => BuildOutcome::Failed(f.clone()),
        }
    }
}

/// Recorded collaborator answers for one job: what the filesystem, the
/// fetcher and the build tool reply at each step of the pipeline.
pub struct JobWorld {
    /// Whether a file already exists at the destination path.
    pub dest_exists: bool,
    /// Whether fetching the repository succeeded.
    pub fetch_ok: bool,
    /// The immediate file entries of the fetched working directory.
    pub entries: Vec<String>,
    /// The build tool's exit code; none when it was terminated without one.
    pub exit_code: Option<i32>,
    /// The build tool's captured standard output.
    pub stdout: String,
    /// The build tool's captured standard error.
    pub stderr: String,
    /// The file entries of the build output directory.
    pub libs: Vec<String>,
    /// Whether copying the artifact to its destination succeeded.
    pub copy_ok: bool,
}

/// Mathematical model of a `JobWorld`.
pub struct WorldModel {
    pub dest_exists: bool,
    pub fetch_ok: bool,
    pub entries: Seq<Seq<char>>,
    pub exit_code: Option<i32>,
    pub stdout: Seq<char>,
    pub stderr: Seq<char>,
    pub libs: Seq<Seq<char>>,
    pub copy_ok: bool,
}

impl View for JobWorld {
    type V = WorldModel;

    open spec fn view(&self) -> WorldModel {
        WorldModel {
            dest_exists: self.dest_exists,
            fetch_ok: self.fetch_ok,
            entries: self.entries.deep_view(),
            exit_code: self.exit_code,
            stdout: self.stdout@,
            stderr: self.stderr@,
            libs: self.libs.deep_view(),
            copy_ok: self.copy_ok,
        }
    }
}

/// The outcome of one job as a function of its locator, the run
/// configuration and its collaborator answers. Each stage's failure is
/// terminal; a skipped job runs nothing after the skip check.
pub open spec fn spec_job_outcome(
    locator: Seq<char>,
    recompile: bool,
    mod_folder: Seq<char>,
    w: WorldModel,
) -> OutcomeModel {
    if !well_formed_locator(locator) {
        OutcomeModel::Failed(FailureModel::MalformedLocator)
    } else if w.dest_exists && !recompile {
        OutcomeModel::Skipped
    } else if !w.fetch_ok {
        OutcomeModel::Failed(FailureModel::Fetch)
    } else if spec_detect(w.entries) is None {
        OutcomeModel::Failed(FailureModel::UnsupportedProjectType)
    } else if !build_succeeded(w.exit_code) {
        OutcomeModel::Failed(FailureModel::BuildFailed(w.stdout, w.stderr))
    } else if fat_jar_count(w.libs) != 1 {
        OutcomeModel::Failed(FailureModel::ArtifactNotFound)
    } else if !w.copy_ok {
        OutcomeModel::Failed(FailureModel::Io)
    } else {
        OutcomeModel::Compiled(
            spec_dest_path(mod_folder, spec_owner(locator), spec_name(locator)),
        )
    }
}

/// Where one job stands in its pipeline; the name is the stage whose
/// external action is awaited. `Copying` is the second half of
/// collecting: the artifact is located and its copy is awaited.
#[derive(Debug)]
pub enum JobState {
    Pending,
    Fetching,
    Detecting,
    Building,
    Collecting,
    Copying,
    Finished(BuildOutcome),
}

/// The next external action a job's driver must perform.
#[derive(Debug)]
pub enum JobAction {
    /// Ask whether a file exists at the destination path.
    CheckDest { dest: String },
    /// Fetch the repository behind the locator into a working directory.
    Fetch { locator: String },
    /// List the immediate file entries of the working directory.
    ListWorkdir,
    /// Run the detected build tool in the working directory.
    RunBuild,
    /// List the file entries of the build output directory.
    ListLibs,
    /// Copy the named build output file to the destination path.
    CopyArtifact { artifact: String, dest: String },
    /// The job is over; report its outcome.
    Report { outcome: BuildOutcome },
}

/// The driver's answer to one external action.
#[derive(Debug)]
pub enum JobEvent {
    DestChecked { exists: bool },
    Fetched { ok: bool },
    WorkdirListed { entries: Vec<String> },
    BuildRan { exit_code: Option<i32>, stdout: String, stderr: String },
    LibsListed { entries: Vec<String> },
    Copied { ok: bool },
}

/// The event that answers each state's pending action.
pub open spec fn event_fits(state: JobState, event: JobEvent) -> bool {
    match state {
        JobState::Pending => event matches JobEvent::DestChecked { .. },
        JobState::Fetching => event matches JobEvent::Fetched { .. },
        JobState::Detecting => event matches JobEvent::WorkdirListed { .. },
        JobState::Building => event matches JobEvent::BuildRan { .. },
        JobState::Collecting => event matches JobEvent::LibsListed { .. },
        JobState::Copying => event matches JobEvent::Copied { .. },
        JobState::Finished(_) => false,
    }
}

/// One job's pipeline as a state machine. The driver alternates
/// `action()` — what to do — with `step()` — what came of it — until
/// the action is `Report`.
pub struct JobMachine {
    pub locator: String,
    pub recompile: bool,
    pub mod_folder: String,
    pub owner: String,
    pub name: String,
    pub dest: String,
    pub artifact: Option<String>,
    pub state: JobState,
}

impl JobMachine {
    /// Well-formedness: while the job runs, its identity and destination
    /// are the ones the namer derives from its locator, and a located
    /// artifact is at hand when its copy is awaited.
    pub open spec fn wf(&self) -> bool {
        &&& (!(self.state matches JobState::Finished(_)) ==> {
            &&& well_formed_locator(self.locator@)
            &&& self.owner@ == spec_owner(self.locator@)
            &&& self.name@ == spec_name(self.locator@)
            &&& self.dest@ == spec_dest_path(
                self.mod_folder@,
                spec_owner(self.locator@),
                spec_name(self.locator@),
            )
        })
        &&& (self.state matches JobState::Copying ==> self.artifact is Some)
    }

    /// Starts one job: derives the identity and destination from the
    /// locator, or finishes at once when the locator is malformed.
    pub fn new(locator: &str, recompile: bool, mod_folder: &str) -> (r: Self)
        ensures
            r.wf(),
            r.locator@ == locator@,
            r.recompile == recompile,
            r.mod_folder@ == mod_folder@,
            well_formed_locator(locator@) ==> r.state is Pending,
            !well_formed_locator(locator@) ==> (r.state matches JobState::Finished(o) && o@
                == OutcomeModel::Failed(FailureModel::MalformedLocator)),
    {
        match crate::namer::name(locator) {
            Err(_) => Self {
                locator: locator.to_owned(),
                recompile,
                mod_folder: mod_folder.to_owned(),
                owner: String::new(),
                name: String::new(),
                dest: String::new(),
                artifact: None,
                state: JobState::Finished(
                    BuildOutcome::Failed(JobFailure::MalformedLocator),
                ),
            },
            Ok(id) => {
                let dest = crate::namer::dest_path(mod_folder, &id);
                Self {
                    locator: locator.to_owned(),
                    recompile,
                    mod_folder: mod_folder.to_owned(),
                    owner: id.owner,
                    name: id.name,
                    dest,
                    artifact: None,
                    state: JobState::Pending,
                }
            },
        }
    }

    /// The external action the driver must perform next.
    pub fn action(&self) -> (a: JobAction)
        requires
            self.wf(),
        ensures
            self.state is Pending ==> (a matches JobAction::CheckDest { dest } && dest@
                == self.dest@),
            self.state is Fetching ==> (a matches JobAction::Fetch { locator } && locator@
                == self.locator@),
            self.state is Detecting ==> a is ListWorkdir,
            self.state is Building ==> a is RunBuild,
            self.state is Collecting ==> a is ListLibs,
            self.state is Copying ==> (a matches JobAction::CopyArtifact { artifact, dest }
                && dest@ == self.dest@ && (self.artifact matches Some(x) && artifact@
                == x@)),
            self.state matches JobState::Finished(o) ==> (a matches JobAction::Report {
                outcome,
            } && outcome@ == o@),
    {
        match &self.state {
            JobState::Pending => JobAction::CheckDest { dest: self.dest.clone() },
            JobState::Fetching => JobAction::Fetch { locator: self.locator.clone() },
            JobState::Detecting => JobAction::ListWorkdir,
            JobState::Building => JobAction::RunBuild,
            JobState::Collecting => JobAction::ListLibs,
            JobState::Copying => {
                let artifact = match &self.artifact {
                    Some(x) => x.clone(),
                    None => {
                        proof {
                            assert(false);
                        }
                        String::new()
                    },
                };
                JobAction::CopyArtifact { artifact, dest: self.dest.clone() }
            },
            JobState::Finished(o) => JobAction::Report { outcome: o.clone() },
        }
    }

    /// Consumes the answer to the pending action and moves the job on:
    /// the skip decision, failure confinement and stage order of the
    /// pipeline, one transition per event.
    pub fn step(&mut self, event: JobEvent)
        requires
            old(self).wf(),
            event_fits(old(self).state, event),
        ensures
            final(self).wf(),
            final(self).locator == old(self).locator,
            final(self).recompile == old(self).recompile,
            final(self).mod_folder == old(self).mod_folder,
            final(self).dest == old(self).dest,
            (event matches JobEvent::DestChecked { exists } ==> (if exists && !old(
                self,
            ).recompile {
                final(self).state matches JobState::Finished(o) && o@
                    == OutcomeModel::Skipped
            } else {
                final(self).state is Fetching
            })),
            (event matches JobEvent::Fetched { ok } ==> (if ok {
                final(self).state is Detecting
            } else {
                final(self).state matches JobState::Finished(o) && o@
                    == OutcomeModel::Failed(FailureModel::Fetch)
            })),
            (event matches JobEvent::WorkdirListed { entries } ==> (if spec_detect(
                entries.deep_view(),
            ) is Some {
                final(self).state is Building
            } else {
                final(self).state matches JobState::Finished(o) && o@
                    == OutcomeModel::Failed(FailureModel::UnsupportedProjectType)
            })),
            (event matches JobEvent::BuildRan { exit_code, stdout, stderr } ==> (
            if build_succeeded(exit_code) {
                final(self).state is Collecting
            } else {
                final(self).state matches JobState::Finished(o) && o@
                    == OutcomeModel::Failed(FailureModel::BuildFailed(stdout@, stderr@))
            })),
            (event matches JobEvent::LibsListed { entries } ==> (if fat_jar_count(
                entries.deep_view(),
            ) == 1 {
                final(self).state is Copying && (final(self).artifact matches Some(a)
                    && is_fat_jar(a@) && (exists|i: int|
                    0 <= i < entries.deep_view().len() && entries.deep_view()[i] == a@)
                    && (forall|k: int|
                    0 <= k < entries.deep_view().len() && is_fat_jar(
                        entries.deep_view()[k],
                    ) ==> entries.deep_view()[k] == a@))
            } else {
                final(self).state matches JobState::Finished(o) && o@
                    == OutcomeModel::Failed(FailureModel::ArtifactNotFound)
            })),
            (event matches JobEvent::Copied { ok } ==> (if ok {
                final(self).state matches JobState::Finished(o) && o@
                    == OutcomeModel::Compiled(old(self).dest@)
            } else {
                final(self).state matches JobState::Finished(o) && o@
                    == OutcomeModel::Failed(FailureModel::Io)
            })),
    {
        match event {
            JobEvent::DestChecked { exists } => {
                if should_skip(exists, self.recompile) {
                    self.state = JobState::Finished(BuildOutcome::Skipped);
                } else {
                    self.state = JobState::Fetching;
                }
            },
            JobEvent::Fetched { ok } => {
                if ok {
                    self.state = JobState::Detecting;
                } else {
                    self.state = JobState::Finished(BuildOutcome::Failed(JobFailure::Fetch));
                }
            },
            JobEvent::WorkdirListed { entries } => {
                match detect(&entries) {
                    Some(_) => {
                        self.state = JobState::Building;
                    },
                    None => {
                        self.state = JobState::Finished(
                            BuildOutcome::Failed(JobFailure::UnsupportedProjectType),
                        );
                    },
                }
            },
            JobEvent::BuildRan { exit_code, stdout, stderr } => {
                match crate::compiler::gradle_build_result(exit_code, stdout, stderr) {
                    Ok(()) => {
                        self.state = JobState::Collecting;
                    },
                    Err(crate::compiler::CompilerError::CompilationFailed {
                        stdout: out,
                        stderr: err,
                    }) => {
                        self.state = JobState::Finished(
                            BuildOutcome::Failed(
                                JobFailure::BuildFailed { stdout: out, stderr: err },
                            ),
                        );
                    },
                    Err(_) => {
                        proof {
                            assert(false);
                        }
                        self.state = JobState::Finished(
                            BuildOutcome::Failed(JobFailure::ArtifactNotFound),
                        );
                    },
                }
            },
            JobEvent::LibsListed { entries } => {
                match locate_fat_jar(&entries) {
                    Ok(artifact) => {
                        self.artifact = Some(artifact);
                        self.state = JobState::Copying;
                    },
                    Err(_) => {
                        self.state = JobState::Finished(
                            BuildOutcome::Failed(JobFailure::ArtifactNotFound),
                        );
                    },
                }
            },
            JobEvent::Copied { ok } => {
                if ok {
                    self.state = JobState::Finished(
                        BuildOutcome::Compiled(self.dest.clone()),
                    );
                } else {
                    self.state = JobState::Finished(BuildOutcome::Failed(JobFailure::Io));
                }
            },
        }
    }
}

/// Replays one job over recorded collaborator answers by driving the
/// job state machine from start to finish: the outcome is exactly the
/// pipeline's, for every combination of answers.
pub fn run_job(locator: &str, recompile: bool, mod_folder: &str, world: &JobWorld) -> (o:
    BuildOutcome)
    ensures
        o@ == spec_job_outcome(locator@, recompile, mod_folder@, world@),
{
    let mut m = JobMachine::new(locator, recompile, mod_folder);
    if let JobState::Finished(o) = &m.state {
        return o.clone();
    }
    m.step(JobEvent::DestChecked { exists: world.dest_exists });
    if let JobState::Finished(o) = &m.state {
        return o.clone();
    }
    m.step(JobEvent::Fetched { ok: world.fetch_ok });
    if let JobState::Finished(o) = &m.state {
        return o.clone();
    }
    m.step(JobEvent::WorkdirListed { entries: clone_string_vec(&world.entries) });
    if let JobState::Finished(o) = &m.state {
        return o.clone();
    }
    m.step(
        JobEvent::BuildRan {
            exit_code: world.exit_code,
            stdout: world.stdout.clone(),
            stderr: world.stderr.clone(),
        },
    );
    if let JobState::Finished(o) = &m.state {
        return o.clone();
    }
    m.step(JobEvent::LibsListed { entries: clone_string_vec(&world.libs) });
    if let JobState::Finished(o) = &m.state {
        return o.clone();
    }
    m.step(JobEvent::Copied { ok: world.copy_ok });
    match &m.state {
        JobState::Finished(o) => o.clone(),
        _ => {
            proof {
                assert(false);
            }
            BuildOutcome::Skipped
        },
    }
}

/// Runs a flat batch of independent jobs: one outcome per locator, each
/// exactly the job's own — no job's failure reaches a sibling.
pub fn run_batch(
    locators: &Vec<String>,
    recompile: bool,
    mod_folder: &str,
    worlds: &Vec<JobWorld>,
) -> (outcomes: Vec<BuildOutcome>)
    requires
        worlds@.len() == locators@.len(),
    ensures
        outcomes@.len() == locators@.len(),
        forall|i: int|
            0 <= i < locators@.len() ==> outcomes@[i]@ == spec_job_outcome(
                locators@[i]@,
                recompile,
                mod_folder@,
                worlds@[i]@,
            ),
{
    let mut outcomes: Vec<BuildOutcome> = Vec::new();
    let mut i: usize = 0;
    while i < locators.len()
        invariant
            locators@.len() == worlds@.len(),
            0 <= i <= locators@.len(),
            outcomes@.len() == i,
            forall|k: int|
                0 <= k < i ==> outcomes@[k]@ == spec_job_outcome(
                    locators@[k]@,
                    recompile,
                    mod_folder@,
                    worlds@[k]@,
                ),
        decreases locators@.len() - i,
    {
        let loc: &String = &locators[i];
        let w: &JobWorld = &worlds[i];
        let o = run_job(loc.as_str(), recompile, mod_folder, w);
        outcomes.push(o);
        i += 1;
    }
    outcomes
}

/// Law: jobs are isolated. A job's outcome is a function of its own
/// locator and its own collaborator answers alone, so changing one job
/// of a batch — its locator, its answers, or both, including any way it
/// fails — leaves every other job's outcome unchanged.
pub proof fn lemma_job_isolation(
    locators1: Seq<Seq<char>>,
    worlds1: Seq<WorldModel>,
    locators2: Seq<Seq<char>>,
    worlds2: Seq<WorldModel>,
    recompile: bool,
    mod_folder: Seq<char>,
    j: int,
)
    requires
        locators1.len() == locators2.len(),
        worlds1.len() == locators1.len(),
        worlds2.len() == locators1.len(),
        forall|i: int|
            0 <= i < locators1.len() && i != j ==> locators1[i] == locators2[i]
                && worlds1[i] == worlds2[i],
    ensures
        forall|i: int|
            0 <= i < locators1.len() && i != j ==> spec_job_outcome(
                locators1[i],
                recompile,
                mod_folder,
                worlds1[i],
            ) == spec_job_outcome(locators2[i], recompile, mod_folder, worlds2[i]),
{
}

} // verus!
