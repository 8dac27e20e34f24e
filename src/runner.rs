//! Decisions of the single-file run: validating the supplied path and
//! planning its one job into the file's own directory.
use vstd::prelude::*;
use crate::error::RunError;
use crate::job::{target_name_of, ConversionJob, JobAction, JobEvent, JobOutcome, JobStage, RunMode};
use crate::session::{setup_action, setup_step, SessionSetup, SetupAction, SetupEvent, SetupStage};
use crate::paths::PathStyle;
use crate::routing::spec_route;

verus! {

/// Substring, compared without regard to ASCII case, that names the process
/// hosting the `decrypt` export.
pub fn target_process_name() -> (r: &'static str)
    ensures
        r@ == seq!['q', 'q', 'm', 'u', 's', 'i', 'c'],
{
    proof {
        reveal_strlit("qqmusic");
    }
    "qqmusic"
}

/// The error that `check_source` reports for a path that is not a regular file.
pub open spec fn is_source_error(e: RunError, path: Seq<char>, exists: bool) -> bool {
    if exists {
        e is NotAFile && e->NotAFile_path@ == path
    } else {
        e is FileNotFound && e->FileNotFound_path@ == path
    }
}

pub open spec fn opt_view(o: Option<String>) -> Option<Seq<char>> {
    match o {
        Some(s) => Some(s@),
        None => None,
    }
}

pub open spec fn opt_str_view(o: Option<&str>) -> Option<Seq<char>> {
    match o {
        Some(s) => Some(s@),
        None => None,
    }
}

/// Planning a supplied file succeeds: it has a directory, a name, and an
/// eligible extension.
pub open spec fn single_plannable(name: Option<Seq<char>>, parent: Option<Seq<char>>) -> bool {
    parent is Some && name is Some && spec_route(name->Some_0) is Some
}

/// `j` is the job planned for the supplied file.
pub open spec fn is_single_plan(
    j: ConversionJob,
    path: Seq<char>,
    name: Option<Seq<char>>,
    parent: Option<Seq<char>>,
    style: PathStyle,
) -> bool {
    let f = spec_route(name->Some_0)->Some_0;
    &&& j.wf()
    &&& j.source_path@ == path
    &&& j.dest_dir@ == parent->Some_0
    &&& j.style == style
    &&& j.format == f
    &&& j.target_name@ == target_name_of(name->Some_0, f)
    &&& j.stage == JobStage::CheckTarget
}

/// `e` is the error of planning a supplied file that is not plannable.
pub open spec fn is_single_plan_error(e: RunError, path: Seq<char>, parent: Option<Seq<char>>) -> bool {
    if parent is None {
        e is DirectoryResolutionFailure && e->DirectoryResolutionFailure_path@ == path
    } else {
        e is UnsupportedExtension && e->UnsupportedExtension_path@ == path
    }
}

/// Validates the supplied path from what the file system reported of it.
pub fn check_source(path: &str, exists: bool, is_file: bool) -> (r: Result<(), RunError>)
    ensures
        exists && is_file <==> r is Ok,
        !exists ==> r is Err && r->Err_0 is FileNotFound && r->Err_0->FileNotFound_path@ == path@,
        exists && !is_file ==> r is Err && r->Err_0 is NotAFile && r->Err_0->NotAFile_path@
            == path@,
{
    if !exists {
        Err(RunError::FileNotFound { path: path.to_owned() })
    } else if !is_file {
        Err(RunError::NotAFile { path: path.to_owned() })
    } else {
        Ok(())
    }
}

/// Plans the job for a supplied file: `file_name` is its last component and
/// `parent` its directory, where the output goes. A file without a directory
/// fails with `DirectoryResolutionFailure`; one without a name or with an
/// ineligible extension fails with `UnsupportedExtension`.
pub fn plan_single(path: &str, file_name: Option<&str>, parent: Option<&str>, style: PathStyle) -> (r:
    Result<ConversionJob, RunError>)
    ensures
        r is Ok <==> single_plannable(opt_str_view(file_name), opt_str_view(parent)),
        r is Ok ==> is_single_plan(
            r->Ok_0,
            path@,
            opt_str_view(file_name),
            opt_str_view(parent),
            style,
        ),
        r is Err ==> is_single_plan_error(r->Err_0, path@, opt_str_view(parent)),
{
    let dir = match parent {
        Some(d) => d,
        None => {
            return Err(RunError::DirectoryResolutionFailure { path: path.to_owned() });
        },
    };
    let name = match file_name {
        Some(n) => n,
        None => {
            return Err(RunError::UnsupportedExtension { path: path.to_owned() });
        },
    };
    match ConversionJob::plan(path, name, dir, style, RunMode::Single) {
        Ok(Some(j)) => Ok(j),
        Ok(None) => Err(RunError::UnsupportedExtension { path: path.to_owned() }),
        Err(e) => Err(e),
    }
}

/// What a single-file run asks the caller to do.
#[derive(Debug)]
pub enum RunAction {
    /// A step of establishing the session.
    Setup(SetupAction),
    /// A step of the conversion.
    Job(JobAction),
    /// The run is over, with this result.
    Finish(Result<JobOutcome, RunError>),
}

/// What the caller observed after performing the last action.
#[derive(Clone, Debug)]
pub enum RunEvent {
    Setup(SetupEvent),
    Job(JobEvent),
}

/// A run over one supplied file: validate it, establish the session, plan
/// the job into the file's own directory, convert. The first error ends it.
pub struct SingleFileRun {
    pub path: String,
    pub exists: bool,
    pub is_file: bool,
    pub file_name: Option<String>,
    pub parent: Option<String>,
    pub style: PathStyle,
    pub setup: SessionSetup,
    /// The conversion, once the session is ready and the file was planned.
    pub job: Option<ConversionJob>,
    /// The result, once the run is over.
    pub outcome: Option<Result<JobOutcome, RunError>>,
}

impl SingleFileRun {
    /// The file is one, eligible or not.
    pub open spec fn source_ok(self) -> bool {
        self.exists && self.is_file
    }

    pub open spec fn plannable(self) -> bool {
        single_plannable(opt_view(self.file_name), opt_view(self.parent))
    }

    /// How far the run has come is consistent with what each step reported:
    /// a job exists only once the session is ready, and the run is over
    /// exactly when a step failed or the job finished.
    pub open spec fn wf(self) -> bool {
        &&& self.setup.target@ == seq!['q', 'q', 'm', 'u', 's', 'i', 'c']
        &&& !self.source_ok() ==> self.job is None && self.outcome is Some && self.outcome->Some_0 is Err
            && is_source_error(self.outcome->Some_0->Err_0, self.path@, self.exists)
        &&& self.source_ok() && self.job is None && self.outcome is None ==> !(self.setup.stage is Ready)
            && !(self.setup.stage is Failed)
        &&& self.source_ok() && self.job is None && self.outcome is Some ==> self.outcome->Some_0 is Err
            && ((self.setup.stage is Failed && self.outcome->Some_0->Err_0
            == self.setup.stage->Failed_0) || (self.setup.stage == SetupStage::Ready
            && !self.plannable() && is_single_plan_error(
            self.outcome->Some_0->Err_0,
            self.path@,
            opt_view(self.parent),
        )))
        &&& self.job is Some ==> {
            let j = self.job->Some_0;
            &&& self.source_ok()
            &&& self.setup.stage == SetupStage::Ready
            &&& self.plannable()
            &&& j.wf()
            &&& j.source_path@ == self.path@
            &&& j.dest_dir@ == self.parent->Some_0@
            &&& j.style == self.style
            &&& j.target_name@ == target_name_of(self.file_name->Some_0@, j.format)
            &&& j.format == spec_route(self.file_name->Some_0@)->Some_0
            &&& (j.stage is Done ==> self.outcome == Some(
                Ok::<JobOutcome, RunError>(j.stage->Done_0),
            ))
            &&& (j.stage is Failed ==> self.outcome == Some(
                Err::<JobOutcome, RunError>(j.stage->Failed_0),
            ))
            &&& (!(j.stage is Done) && !(j.stage is Failed) ==> self.outcome is None)
        }
    }

    /// `r` is what the run asks for next.
    pub open spec fn spec_action(self, r: RunAction) -> bool {
        match self.outcome {
            Some(res) => r == RunAction::Finish(res),
            None => match self.job {
                Some(j) => r is Job && j.spec_action(r->Job_0),
                None => r is Setup && setup_action(self.setup.stage, r->Setup_0),
            },
        }
    }

    /// Starts a run over `path`, of which the file system reported whether
    /// it exists and is a regular file, whose last component is `file_name`
    /// and whose directory is `parent`.
    pub fn start(
        path: &str,
        exists: bool,
        is_file: bool,
        file_name: Option<&str>,
        parent: Option<&str>,
        style: PathStyle,
    ) -> (r: SingleFileRun)
        ensures
            r.wf(),
            r.path@ == path@,
            r.exists == exists,
            r.is_file == is_file,
            opt_view(r.file_name) == opt_str_view(file_name),
            opt_view(r.parent) == opt_str_view(parent),
            r.style == style,
            r.job is None,
            exists && is_file ==> r.outcome is None && r.setup.stage == SetupStage::Locate,
    {
        let file_name = match file_name {
            Some(n) => Some(n.to_owned()),
            None => None,
        };
        let parent = match parent {
            Some(d) => Some(d.to_owned()),
            None => None,
        };
        let outcome = match check_source(path, exists, is_file) {
            Ok(()) => None,
            Err(e) => Some(Err(e)),
        };
        SingleFileRun {
            path: path.to_owned(),
            exists,
            is_file,
            file_name,
            parent,
            style,
            setup: SessionSetup::new(target_process_name()),
            job: None,
            outcome,
        }
    }

    fn name_str(&self) -> (r: Option<&str>)
        ensures
            opt_str_view(r) == opt_view(self.file_name),
    {
        match &self.file_name {
            Some(n) => Some(n.as_str()),
            None => None,
        }
    }

    fn parent_str(&self) -> (r: Option<&str>)
        ensures
            opt_str_view(r) == opt_view(self.parent),
    {
        match &self.parent {
            Some(n) => Some(n.as_str()),
            None => None,
        }
    }

    /// What the caller is to do next.
    pub fn next_action(&self) -> (r: RunAction)
        requires
            self.wf(),
        ensures
            self.spec_action(r),
            r is Job ==> self.setup.stage == SetupStage::Ready,
    {
        match &self.outcome {
            Some(Ok(o)) => RunAction::Finish(Ok(*o)),
            Some(Err(e)) => RunAction::Finish(Err(e.duplicate())),
            None => match &self.job {
                Some(j) => RunAction::Job(j.next_action()),
                None => RunAction::Setup(self.setup.next_action()),
            },
        }
    }

    /// Takes what the caller observed. Once the run is over, and for an
    /// event that does not answer the current action, nothing changes.
    pub fn handle(&mut self, ev: RunEvent)
        requires
            old(self).wf(),
        ensures
            final(self).wf(),
            final(self).path == old(self).path,
            final(self).exists == old(self).exists,
            final(self).is_file == old(self).is_file,
            final(self).file_name == old(self).file_name,
            final(self).parent == old(self).parent,
            final(self).style == old(self).style,
            old(self).outcome is Some ==> final(self).setup == old(self).setup && final(self).job
                == old(self).job && final(self).outcome == old(self).outcome,
            old(self).outcome is None && old(self).job is None && ev is Setup ==> final(self).setup.stage
                == setup_step(old(self).setup.stage, ev->Setup_0, old(self).setup.target) && (
            final(self).setup.stage == SetupStage::Ready ==> (final(self).job is Some
                <==> old(self).plannable())),
            old(self).outcome is None && old(self).job is Some && ev is Job ==> final(self).job is Some
                && final(self).job->Some_0.stage == old(self).job->Some_0.spec_next(ev->Job_0),
            old(self).outcome is None && (old(self).job is Some) != (ev is Job) ==> final(self).setup
                == old(self).setup && final(self).job == old(self).job && final(self).outcome
                == old(self).outcome,
    {
        if self.outcome.is_some() {
            return;
        }
        match ev {
            RunEvent::Setup(sev) => {
                if self.job.is_some() {
                    return;
                }
                self.setup.handle(sev);
                match self.setup.next_action() {
                    SetupAction::Fail(e) => {
                        self.outcome = Some(Err(e));
                    },
                    SetupAction::Ready => {
                        let planned = plan_single(
                            self.path.as_str(),
                            self.name_str(),
                            self.parent_str(),
                            self.style,
                        );
                        match planned {
                            Ok(j) => {
                                self.job = Some(j);
                            },
                            Err(e) => {
                                self.outcome = Some(Err(e));
                            },
                        }
                    },
                    _ => {},
                }
            },
            RunEvent::Job(jev) => {
                let mut j = match self.job.take() {
                    Some(j) => j,
                    None => {
                        return;
                    },
                };
                j.handle(jev);
                match j.next_action() {
                    JobAction::Finish(r) => {
                        self.outcome = Some(r);
                    },
                    _ => {},
                }
                self.job = Some(j);
            },
        }
    }
}

/// A run requests the remote `decrypt` call only once the session is ready,
/// that is, after the script was loaded with its message handler in place.
pub proof fn lemma_decrypt_only_after_load(run: SingleFileRun, r: RunAction)
    requires
        run.wf(),
        run.spec_action(r),
        r is Job && r->Job_0 is CallDecrypt,
    ensures
        run.setup.stage == SetupStage::Ready,
        run.job is Some && run.job->Some_0.stage == JobStage::Decrypt,
{
}

/// A run ends in success exactly when every step succeeded: the file was a
/// regular file, the session became ready, the file was planned, and the
/// job finished without error. Any other end carries the error of the
/// step that failed.
pub proof fn lemma_success_iff_every_step(run: SingleFileRun, o: JobOutcome)
    requires
        run.wf(),
    ensures
        run.outcome == Some(Ok::<JobOutcome, RunError>(o)) <==> run.source_ok()
            && run.setup.stage == SetupStage::Ready && run.plannable() && run.job is Some
            && run.job->Some_0.stage == JobStage::Done(o),
{
}

} // verus!
