//! One conversion: check the target, call the remote `decrypt`, publish.
//!
//! The job decides and the caller acts: `next_action` says what to do,
//! `handle` takes what happened. The result only ever appears under its
//! final name through the rename of a fully written temporary file.
use vstd::prelude::*;
use crate::error::RunError;
use crate::naming::{hex_digit, hex_lower, md5_of, temp_name, temp_name_of};
use crate::paths::{join, join_path, PathStyle};
use crate::routing::{route, spec_route, stem, stem_of, TargetFormat};

verus! {

/// How an ineligible file is treated.
#[derive(Clone, Copy, Debug, PartialEq, Eq, Structural)]
pub enum RunMode {
    /// A file the user named: an unsupported extension fails the run.
    Single,
    /// A file found by a directory scan: an unsupported extension is skipped.
    Batch,
}

/// How a finished job ended without error.
#[derive(Clone, Copy, Debug, PartialEq, Eq, Structural)]
pub enum JobOutcome {
    /// The output was produced and published.
    Converted,
    /// The output already existed; nothing was done.
    AlreadyPresent,
}

/// Where a job stands.
#[derive(Clone, Debug)]
pub enum JobStage {
    /// Waiting to learn whether the target path exists.
    CheckTarget,
    /// Waiting for the remote `decrypt` to write the temporary file.
    Decrypt,
    /// Waiting for the temporary file to be renamed to the target path.
    Publish,
    Done(JobOutcome),
    Failed(RunError),
}

/// What the caller observed after performing the last action.
#[derive(Clone, Debug)]
pub enum JobEvent {
    TargetExists(bool),
    DecryptDone,
    /// The remote call raised an error; the payload is its detail.
    DecryptFailed(String),
    Renamed,
    RenameFailed(String),
}

/// What the caller is to do next.
#[derive(Debug)]
pub enum JobAction {
    /// Find out whether `path` exists.
    CheckTarget { path: String },
    /// Call the remote export `decrypt` with the arguments `[source, temp]`.
    CallDecrypt { source: String, temp: String },
    /// Rename `from` to `to`, atomically.
    Rename { from: String, to: String },
    /// The job is over.
    Finish(Result<JobOutcome, RunError>),
}

/// A conversion of one source file into a destination directory.
pub struct ConversionJob {
    pub source_path: String,
    pub dest_dir: String,
    pub style: PathStyle,
    pub format: TargetFormat,
    /// `stem.ext` of the output.
    pub target_name: String,
    pub target_path: String,
    pub temp_path: String,
    pub stage: JobStage,
}

/// Output file name for a source file name routed to `format`.
pub open spec fn target_name_of(file_name: Seq<char>, format: TargetFormat) -> Seq<char> {
    stem_of(file_name) + seq!['.'] + format.spec_extension()
}

/// The stage reached from `stage` through the events `evs`, in order.
pub open spec fn run_from(
    stage: JobStage,
    evs: Seq<JobEvent>,
    source: String,
    target: String,
    temp: String,
) -> JobStage
    decreases evs.len(),
{
    if evs.len() == 0 {
        stage
    } else {
        run_from(step(stage, evs[0], source, target, temp), evs.drop_first(), source, target, temp)
    }
}

/// The stage after `stage` on `ev`, for a job with the given paths.
pub open spec fn step(
    stage: JobStage,
    ev: JobEvent,
    source: String,
    target: String,
    temp: String,
) -> JobStage {
    match stage {
        JobStage::CheckTarget => match ev {
            JobEvent::TargetExists(true) => JobStage::Done(JobOutcome::AlreadyPresent),
            JobEvent::TargetExists(false) => JobStage::Decrypt,
            _ => stage,
        },
        JobStage::Decrypt => match ev {
            JobEvent::DecryptDone => JobStage::Publish,
            JobEvent::DecryptFailed(d) => JobStage::Failed(
                RunError::RemoteCallFailure { source: source, temp: temp, detail: d },
            ),
            _ => stage,
        },
        JobStage::Publish => match ev {
            JobEvent::Renamed => JobStage::Done(JobOutcome::Converted),
            JobEvent::RenameFailed(d) => JobStage::Failed(
                RunError::PublishFailure { from: temp, to: target, detail: d },
            ),
            _ => stage,
        },
        _ => stage,
    }
}

impl ConversionJob {
    /// Target and temporary paths are those that the directory, the target
    /// name and the path style determine.
    pub open spec fn wf(self) -> bool {
        &&& exists|stem: Seq<char>|
            self.target_name@ == #[trigger] (stem + seq!['.']) + self.format.spec_extension()
        &&& self.target_path@ == join_path(self.dest_dir@, self.target_name@, self.style)
        &&& self.temp_path@ == join_path(
            self.dest_dir@,
            temp_name_of(self.target_name@),
            self.style,
        )
    }

    /// `r` is the action for the current stage: check the target, call
    /// `decrypt(source, temp)`, rename temp to target, or report the end.
    pub open spec fn spec_action(self, r: JobAction) -> bool {
        match self.stage {
            JobStage::CheckTarget => r == (JobAction::CheckTarget { path: self.target_path }),
            JobStage::Decrypt => r == (JobAction::CallDecrypt {
                source: self.source_path,
                temp: self.temp_path,
            }),
            JobStage::Publish => r == (JobAction::Rename {
                from: self.temp_path,
                to: self.target_path,
            }),
            JobStage::Done(o) => r == JobAction::Finish(Ok(o)),
            JobStage::Failed(e) => r == JobAction::Finish(Err(e)),
        }
    }

    /// The stage after this job's current one on `ev`.
    pub open spec fn spec_next(self, ev: JobEvent) -> JobStage {
        step(self.stage, ev, self.source_path, self.target_path, self.temp_path)
    }

    /// Plans the conversion of `source_path`, whose last component is
    /// `file_name`, into `dest_dir`. An ineligible file fails the run in
    /// `Single` mode and yields no job in `Batch` mode.
    pub fn plan(
        source_path: &str,
        file_name: &str,
        dest_dir: &str,
        style: PathStyle,
        mode: RunMode,
    ) -> (r: Result<Option<ConversionJob>, RunError>)
        ensures
            match spec_route(file_name@) {
                Some(f) => r is Ok && r->Ok_0 is Some && {
                    let j = r->Ok_0->Some_0;
                    &&& j.wf()
                    &&& j.source_path@ == source_path@
                    &&& j.dest_dir@ == dest_dir@
                    &&& j.style == style
                    &&& j.format == f
                    &&& j.target_name@ == target_name_of(file_name@, f)
                    &&& j.stage == JobStage::CheckTarget
                },
                None => match mode {
                    RunMode::Single => r is Err && r->Err_0 is UnsupportedExtension
                        && r->Err_0->UnsupportedExtension_path@ == source_path@,
                    RunMode::Batch => r is Ok && r->Ok_0 is None,
                },
            },
    {
        match route(file_name) {
            Some(f) => {
                let target_name = stem(file_name).to_owned().concat(".").concat(f.extension());
                proof {
                    reveal_strlit(".");
                    let st = stem_of(file_name@);
                    assert(target_name@ == (st + seq!['.']) + f.spec_extension());
                }
                let tmp = temp_name(target_name.as_str());
                let target_path = join(dest_dir, target_name.as_str(), style);
                let temp_path = join(dest_dir, tmp.as_str(), style);
                Ok(
                    Some(
                        ConversionJob {
                            source_path: source_path.to_owned(),
                            dest_dir: dest_dir.to_owned(),
                            style,
                            format: f,
                            target_name,
                            target_path,
                            temp_path,
                            stage: JobStage::CheckTarget,
                        },
                    ),
                )
            },
            None => match mode {
                RunMode::Single => Err(
                    RunError::UnsupportedExtension { path: source_path.to_owned() },
                ),
                RunMode::Batch => Ok(None),
            },
        }
    }

    /// What the caller is to do next.
    pub fn next_action(&self) -> (r: JobAction)
        ensures
            self.spec_action(r),
    {
        match &self.stage {
            JobStage::CheckTarget => JobAction::CheckTarget { path: self.target_path.clone() },
            JobStage::Decrypt => JobAction::CallDecrypt {
                source: self.source_path.clone(),
                temp: self.temp_path.clone(),
            },
            JobStage::Publish => JobAction::Rename {
                from: self.temp_path.clone(),
                to: self.target_path.clone(),
            },
            JobStage::Done(o) => JobAction::Finish(Ok(*o)),
            JobStage::Failed(e) => JobAction::Finish(Err(e.duplicate())),
        }
    }

    /// Takes what the caller observed. An event that does not answer the
    /// current stage leaves the job as it is.
    pub fn handle(&mut self, ev: JobEvent)
        ensures
            final(self).stage == old(self).spec_next(ev),
            final(self).source_path == old(self).source_path,
            final(self).dest_dir == old(self).dest_dir,
            final(self).style == old(self).style,
            final(self).format == old(self).format,
            final(self).target_name == old(self).target_name,
            final(self).target_path == old(self).target_path,
            final(self).temp_path == old(self).temp_path,
    {
        let next = match (&self.stage, ev) {
            (JobStage::CheckTarget, JobEvent::TargetExists(true)) => JobStage::Done(
                JobOutcome::AlreadyPresent,
            ),
            (JobStage::CheckTarget, JobEvent::TargetExists(false)) => JobStage::Decrypt,
            (JobStage::Decrypt, JobEvent::DecryptDone) => JobStage::Publish,
            (JobStage::Decrypt, JobEvent::DecryptFailed(d)) => JobStage::Failed(
                RunError::RemoteCallFailure {
                    source: self.source_path.clone(),
                    temp: self.temp_path.clone(),
                    detail: d,
                },
            ),
            (JobStage::Publish, JobEvent::Renamed) => JobStage::Done(JobOutcome::Converted),
            (JobStage::Publish, JobEvent::RenameFailed(d)) => JobStage::Failed(
                RunError::PublishFailure {
                    from: self.temp_path.clone(),
                    to: self.target_path.clone(),
                    detail: d,
                },
            ),
            _ => return,
        };
        self.stage = next;
    }

    /// Whether the job is over.
    pub fn is_finished(&self) -> (r: bool)
        ensures
            r == (self.stage is Done || self.stage is Failed),
    {
        match self.stage {
            JobStage::Done(_) | JobStage::Failed(_) => true,
            _ => false,
        }
    }
}

/// A finished stage stays as it is, whatever happens after.
proof fn lemma_finished_is_fixed(
    stage: JobStage,
    evs: Seq<JobEvent>,
    source: String,
    target: String,
    temp: String,
)
    requires
        stage is Done || stage is Failed,
    ensures
        run_from(stage, evs, source, target, temp) == stage,
    decreases evs.len(),
{
    if evs.len() > 0 {
        lemma_finished_is_fixed(stage, evs.drop_first(), source, target, temp);
    }
}

/// A job that finds its target already present finishes without error and
/// stays finished, whatever events follow: it never reaches the remote call
/// or the rename. A second run over an output the first one published is
/// therefore a no-op.
pub proof fn lemma_present_target_is_noop(j: ConversionJob, evs: Seq<JobEvent>)
    requires
        j.stage == JobStage::CheckTarget,
    ensures
        forall|k: int|
            0 <= k <= evs.len() ==> #[trigger] run_from(
                j.spec_next(JobEvent::TargetExists(true)),
                evs.take(k),
                j.source_path,
                j.target_path,
                j.temp_path,
            ) == JobStage::Done(JobOutcome::AlreadyPresent),
{
    assert forall|k: int| 0 <= k <= evs.len() implies #[trigger] run_from(
        j.spec_next(JobEvent::TargetExists(true)),
        evs.take(k),
        j.source_path,
        j.target_path,
        j.temp_path,
    ) == JobStage::Done(JobOutcome::AlreadyPresent) by {
        lemma_finished_is_fixed(
            JobStage::Done(JobOutcome::AlreadyPresent),
            evs.take(k),
            j.source_path,
            j.target_path,
            j.temp_path,
        );
    }
}

/// Two well-formed jobs with the same target name, directory and path style
/// use the same temporary path.
pub proof fn lemma_temp_path_determined(a: ConversionJob, b: ConversionJob)
    requires
        a.wf(),
        b.wf(),
        a.target_name@ == b.target_name@,
        a.dest_dir@ == b.dest_dir@,
        a.style == b.style,
    ensures
        a.temp_path@ == b.temp_path@,
{
}

proof fn lemma_hex_has_no_dot(b: Seq<u8>)
    ensures
        !hex_lower(b).contains('.'),
    decreases b.len(),
{
    reveal_strlit("0123456789abcdef");
    if b.len() > 0 {
        lemma_hex_has_no_dot(b.drop_last());
        let h = hex_lower(b);
        let p = hex_lower(b.drop_last());
        assert forall|i: int| 0 <= i < h.len() implies h[i] != '.' by {
            if i < p.len() {
                assert(h[i] == p[i]);
                assert(!p.contains('.'));
            } else {
                let v = b.last();
                assert(h[i] == hex_digit(v / 16) || h[i] == hex_digit(v % 16));
            }
        }
    }
}

/// The remote call writes to the temporary path, never to the target path:
/// until the rename, nothing appears under the target name.
pub proof fn lemma_temp_differs_from_target(j: ConversionJob)
    requires
        j.wf(),
    ensures
        j.temp_path@ != j.target_path@,
{
    let stem = choose|stem: Seq<char>|
        j.target_name@ == #[trigger] (stem + seq!['.']) + j.format.spec_extension();
    let t = j.target_name@;
    let h = temp_name_of(t);
    assert(t[stem.len() as int] == '.');
    lemma_hex_has_no_dot(md5_of(t));
    let d = j.dest_dir@;
    if j.temp_path@ == j.target_path@ {
        let pre = j.target_path@.len() - t.len();
        assert(j.target_path@.subrange(pre, j.target_path@.len() as int) == t);
        assert(j.temp_path@.subrange(pre, j.temp_path@.len() as int) == h);
        assert(h[stem.len() as int] == '.');
    }
}

/// The job reaches `Done(Converted)` only through a successful rename of the
/// temporary file while publishing.
pub proof fn lemma_converted_only_by_rename(
    stage: JobStage,
    ev: JobEvent,
    source: String,
    target: String,
    temp: String,
)
    requires
        stage != JobStage::Done(JobOutcome::Converted),
        step(stage, ev, source, target, temp) == JobStage::Done(JobOutcome::Converted),
    ensures
        stage == JobStage::Publish,
        ev == JobEvent::Renamed,
{
}

/// Once the remote call fails, the job has failed with the remote detail and
/// stays so: no rename is attempted afterwards.
pub proof fn lemma_remote_failure_is_final(j: ConversionJob, detail: String, evs: Seq<JobEvent>)
    requires
        j.stage == JobStage::Decrypt,
    ensures
        run_from(
            j.spec_next(JobEvent::DecryptFailed(detail)),
            evs,
            j.source_path,
            j.target_path,
            j.temp_path,
        ) == JobStage::Failed(
            RunError::RemoteCallFailure { source: j.source_path, temp: j.temp_path, detail },
        ),
{
    lemma_finished_is_fixed(
        j.spec_next(JobEvent::DecryptFailed(detail)),
        evs,
        j.source_path,
        j.target_path,
        j.temp_path,
    );
}

} // verus!
