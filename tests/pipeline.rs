use media_unlock::batch::plan_batch;
use media_unlock::error::RunError;
use media_unlock::job::{ConversionJob, JobAction, JobEvent, JobOutcome, JobStage, RunMode};
use media_unlock::locator::{find_target, first_match, name_matches, ProcessEntry};
use media_unlock::paths::PathStyle;
use media_unlock::routing::TargetFormat;
use media_unlock::runner::{check_source, plan_single, target_process_name, RunAction, RunEvent, SingleFileRun};
use media_unlock::session::{SessionSetup, SetupAction, SetupEvent, SetupStage};
use std::collections::HashSet;

/// A file system of paths only, and a remote side that writes or fails.
struct World {
    files: HashSet<String>,
    remote_error: Option<String>,
    remote_calls: usize,
    decrypt_args: Vec<Vec<String>>,
    renames: usize,
}

impl World {
    fn new(files: &[&str]) -> World {
        World {
            files: files.iter().map(|s| s.to_string()).collect(),
            remote_error: None,
            remote_calls: 0,
            decrypt_args: Vec::new(),
            renames: 0,
        }
    }

    /// Drives a job to its end; `stop_before_rename` interrupts it there.
    fn drive(&mut self, job: &mut ConversionJob, stop_before_rename: bool) -> Option<Result<JobOutcome, RunError>> {
        loop {
            let ev = match job.next_action() {
                JobAction::CheckTarget { path } => JobEvent::TargetExists(self.files.contains(&path)),
                JobAction::CallDecrypt { source, temp } => {
                    self.remote_calls += 1;
                    self.decrypt_args.push(vec![source.clone(), temp.clone()]);
                    match &self.remote_error {
                        Some(e) => JobEvent::DecryptFailed(e.clone()),
                        None => {
                            self.files.insert(temp);
                            JobEvent::DecryptDone
                        }
                    }
                }
                JobAction::Rename { from, to } => {
                    if stop_before_rename {
                        return None;
                    }
                    self.renames += 1;
                    if self.files.remove(&from) {
                        self.files.insert(to);
                        JobEvent::Renamed
                    } else {
                        JobEvent::RenameFailed("no such file".to_string())
                    }
                }
                JobAction::Finish(r) => return Some(r),
            };
            job.handle(ev);
        }
    }
}

fn single(path: &str, name: &str, dir: &str) -> ConversionJob {
    plan_single(path, Some(name), Some(dir), PathStyle::Unix).unwrap()
}

const SONG_TEMP: &str = "/music/72283822ec123cc5e8243383b34d169e";

#[test]
fn scenario_a_converts_and_publishes() {
    let mut job = single("/music/song.mflac", "song.mflac", "/music");
    assert_eq!(job.format, TargetFormat::Flac);
    assert_eq!(job.target_name, "song.flac");
    assert_eq!(job.target_path, "/music/song.flac");
    assert_eq!(job.temp_path, SONG_TEMP);
    let mut w = World::new(&["/music/song.mflac"]);
    let r = w.drive(&mut job, false);
    assert!(matches!(r, Some(Ok(JobOutcome::Converted))));
    assert!(w.files.contains("/music/song.flac"));
    assert!(!w.files.contains(SONG_TEMP));
    assert_eq!(w.remote_calls, 1);
    assert_eq!(w.decrypt_args, vec![vec!["/music/song.mflac".to_string(), SONG_TEMP.to_string()]]);
}

#[test]
fn scenario_a_action_sequence() {
    let mut job = single("/music/song.mflac", "song.mflac", "/music");
    assert!(matches!(job.next_action(), JobAction::CheckTarget { path } if path == "/music/song.flac"));
    job.handle(JobEvent::TargetExists(false));
    assert!(matches!(
        job.next_action(),
        JobAction::CallDecrypt { source, temp, .. } if source == "/music/song.mflac" && temp == SONG_TEMP
    ));
    job.handle(JobEvent::DecryptDone);
    assert!(matches!(
        job.next_action(),
        JobAction::Rename { from, to } if from == SONG_TEMP && to == "/music/song.flac"
    ));
    job.handle(JobEvent::Renamed);
    assert!(job.is_finished());
    assert!(matches!(job.next_action(), JobAction::Finish(Ok(JobOutcome::Converted))));
}

#[test]
fn scenario_b_existing_target_is_skipped() {
    let mut job = single("/m/track.mgg", "track.mgg", "/m");
    assert_eq!(job.target_path, "/m/track.ogg");
    let mut w = World::new(&["/m/track.mgg", "/m/track.ogg"]);
    let r = w.drive(&mut job, false);
    assert!(matches!(r, Some(Ok(JobOutcome::AlreadyPresent))));
    assert_eq!(w.remote_calls, 0);
    assert_eq!(w.renames, 0);
}

#[test]
fn scenario_c_unmapped_single_file_fails() {
    let r = plan_single("/m/clip.mp3", Some("clip.mp3"), Some("/m"), PathStyle::Unix);
    assert!(matches!(r, Err(RunError::UnsupportedExtension { path }) if path == "/m/clip.mp3"));
    let r = ConversionJob::plan("/m/clip.mp3", "clip.mp3", "/m", PathStyle::Unix, RunMode::Single);
    assert!(matches!(r, Err(RunError::UnsupportedExtension { .. })));
}

#[test]
fn scenario_c_unmapped_batch_file_is_skipped() {
    let r = ConversionJob::plan("/in/clip.mp3", "clip.mp3", "/out", PathStyle::Unix, RunMode::Batch);
    assert!(matches!(r, Ok(None)));
    let names = vec!["clip.mp3".to_string(), "song.mflac".to_string(), "b.MGG".to_string()];
    let jobs = plan_batch("/in", &names, "/out", PathStyle::Unix);
    assert_eq!(jobs.len(), 2);
    assert_eq!(jobs[0].source_path, "/in/song.mflac");
    assert_eq!(jobs[0].target_path, "/out/song.flac");
    assert_eq!(jobs[1].source_path, "/in/b.MGG");
    assert_eq!(jobs[1].target_path, "/out/b.ogg");
    let mut w = World::new(&["/in/clip.mp3", "/in/song.mflac", "/in/b.MGG"]);
    for mut j in jobs {
        assert!(matches!(w.drive(&mut j, false), Some(Ok(JobOutcome::Converted))));
    }
    assert!(w.files.contains("/out/song.flac") && w.files.contains("/out/b.ogg"));
    assert_eq!(w.files.len(), 5);
}

#[test]
fn batch_of_nothing_eligible_is_empty() {
    let names = vec!["a.mp3".to_string(), "noext".to_string()];
    assert!(plan_batch("/in", &names, "/out", PathStyle::Unix).is_empty());
    assert!(plan_batch("/in", &vec![], "/out", PathStyle::Unix).is_empty());
}

fn procs(names: &[&str]) -> Vec<ProcessEntry> {
    names
        .iter()
        .enumerate()
        .map(|(i, n)| ProcessEntry { pid: 100 + i as u32, name: n.to_string() })
        .collect()
}

#[test]
fn scenario_d_missing_target_process() {
    let mut s = SessionSetup::new(target_process_name());
    assert!(matches!(s.next_action(), SetupAction::EnumerateProcesses));
    s.handle(SetupEvent::Enumerated(procs(&["explorer.exe", "chrome.exe"])));
    match s.next_action() {
        SetupAction::Fail(e) => {
            assert!(matches!(&e, RunError::TargetNotFound { name } if name == "qqmusic"));
            assert_eq!(
                e.message(),
                "no running process matches \"qqmusic\": start the target application first"
            );
        }
        other => panic!("unexpected {:?}", other),
    }
}

#[test]
fn session_setup_registers_handler_before_load() {
    let mut s = SessionSetup::new("qqmusic");
    s.handle(SetupEvent::Enumerated(procs(&["init", "QQMusic.exe", "qqmusic_helper"])));
    assert!(matches!(s.next_action(), SetupAction::Attach { pid: 101 }));
    s.handle(SetupEvent::Succeeded);
    assert!(matches!(s.next_action(), SetupAction::CreateScript));
    s.handle(SetupEvent::Succeeded);
    assert!(matches!(s.next_action(), SetupAction::RegisterHandler));
    s.handle(SetupEvent::Succeeded);
    assert!(matches!(s.next_action(), SetupAction::Load));
    s.handle(SetupEvent::Succeeded);
    assert!(matches!(s.next_action(), SetupAction::Ready));
    assert!(matches!(s.stage, SetupStage::Ready));
}

#[test]
fn session_setup_failures() {
    let mut s = SessionSetup::new("qqmusic");
    s.handle(SetupEvent::Enumerated(procs(&["qqmusic"])));
    s.handle(SetupEvent::Failed("access denied".to_string()));
    assert!(matches!(s.next_action(), SetupAction::Fail(RunError::AttachFailure { detail }) if detail == "access denied"));
    let mut s = SessionSetup::new("qqmusic");
    s.handle(SetupEvent::Enumerated(procs(&["qqmusic"])));
    s.handle(SetupEvent::Succeeded);
    s.handle(SetupEvent::Failed("syntax".to_string()));
    assert!(matches!(s.next_action(), SetupAction::Fail(RunError::ScriptLoadFailure { detail }) if detail == "syntax"));
    let mut s = SessionSetup::new("qqmusic");
    s.handle(SetupEvent::Enumerated(procs(&["qqmusic"])));
    s.handle(SetupEvent::Succeeded);
    s.handle(SetupEvent::Succeeded);
    s.handle(SetupEvent::Succeeded);
    s.handle(SetupEvent::Failed("boom".to_string()));
    assert!(matches!(s.next_action(), SetupAction::Fail(RunError::ScriptLoadFailure { detail }) if detail == "boom"));
}

#[test]
fn scenario_e_remote_failure_stops_before_rename() {
    let mut job = single("/music/song.mflac", "song.mflac", "/music");
    let mut w = World::new(&["/music/song.mflac"]);
    w.remote_error = Some("bad key".to_string());
    let r = w.drive(&mut job, false);
    match r {
        Some(Err(RunError::RemoteCallFailure { source, temp, detail })) => {
            assert_eq!(source, "/music/song.mflac");
            assert_eq!(temp, SONG_TEMP);
            assert_eq!(detail, "bad key");
        }
        other => panic!("unexpected {:?}", other),
    }
    assert_eq!(w.renames, 0);
    assert!(!w.files.contains("/music/song.flac"));
    job.handle(JobEvent::Renamed);
    assert!(matches!(job.stage, JobStage::Failed(_)));
}

#[test]
fn running_twice_calls_remote_once() {
    let mut w = World::new(&["/music/song.mflac"]);
    let mut first = single("/music/song.mflac", "song.mflac", "/music");
    assert!(matches!(w.drive(&mut first, false), Some(Ok(JobOutcome::Converted))));
    let mut second = single("/music/song.mflac", "song.mflac", "/music");
    assert!(matches!(w.drive(&mut second, false), Some(Ok(JobOutcome::AlreadyPresent))));
    assert_eq!(w.remote_calls, 1);
}

#[test]
fn same_target_name_gives_same_temp_path() {
    let a = single("/x/song.mflac", "song.mflac", "/music");
    let b = single("/y/song.MFLAC", "song.MFLAC", "/music");
    assert_eq!(a.target_name, b.target_name);
    assert_eq!(a.temp_path, b.temp_path);
    assert_ne!(a.temp_path, a.target_path);
}

#[test]
fn interrupted_before_rename_leaves_no_target() {
    let mut job = single("/music/song.mflac", "song.mflac", "/music");
    let mut w = World::new(&["/music/song.mflac"]);
    assert!(w.drive(&mut job, true).is_none());
    assert!(w.files.contains(SONG_TEMP));
    assert!(!w.files.contains("/music/song.flac"));
}

#[test]
fn rename_failure_is_a_publish_failure() {
    let mut job = single("/music/song.mflac", "song.mflac", "/music");
    job.handle(JobEvent::TargetExists(false));
    job.handle(JobEvent::DecryptDone);
    job.handle(JobEvent::RenameFailed("denied".to_string()));
    match job.next_action() {
        JobAction::Finish(Err(e)) => {
            assert_eq!(e.message(), format!("cannot rename {} -> /music/song.flac: denied", SONG_TEMP));
        }
        other => panic!("unexpected {:?}", other),
    }
}

#[test]
fn events_out_of_turn_are_ignored() {
    let mut job = single("/music/song.mflac", "song.mflac", "/music");
    job.handle(JobEvent::Renamed);
    job.handle(JobEvent::DecryptDone);
    assert!(matches!(job.stage, JobStage::CheckTarget));
}

#[test]
fn windows_style_paths() {
    let job = plan_single("C:\\m\\song.mflac", Some("song.mflac"), Some("C:\\m"), PathStyle::Windows).unwrap();
    assert_eq!(job.target_path, "C:\\m\\song.flac");
    assert_eq!(job.temp_path, "C:\\m\\72283822ec123cc5e8243383b34d169e");
}

#[test]
fn source_checks() {
    assert!(check_source("/a", true, true).is_ok());
    assert!(matches!(check_source("/a", false, false), Err(RunError::FileNotFound { path }) if path == "/a"));
    assert!(matches!(check_source("/a", true, false), Err(RunError::NotAFile { path }) if path == "/a"));
    assert_eq!(check_source("/a", false, false).unwrap_err().message(), "file does not exist: /a");
    assert_eq!(check_source("/a", true, false).unwrap_err().message(), "not a file: /a");
}

#[test]
fn single_plan_errors() {
    let r = plan_single("/", None, None, PathStyle::Unix);
    assert!(matches!(r, Err(RunError::DirectoryResolutionFailure { path }) if path == "/"));
    let r = plan_single("/m/x", None, Some("/m"), PathStyle::Unix);
    assert!(matches!(r, Err(RunError::UnsupportedExtension { .. })));
    let r = plan_single("/m/noext", Some("noext"), Some("/m"), PathStyle::Unix);
    assert!(matches!(r, Err(RunError::UnsupportedExtension { path }) if path == "/m/noext"));
}

#[test]
fn process_selection_is_first_case_insensitive_match() {
    let ps = procs(&["init", "QQMusic.exe", "qqmusic_helper"]);
    assert_eq!(first_match(&ps, "qqmusic"), Some(1));
    let p = find_target(&ps, "qqmusic").unwrap();
    assert_eq!(p.pid, 101);
    assert_eq!(p.name, "QQMusic.exe");
    assert!(name_matches("MyQQMUSICx", "qqmusic"));
    assert!(!name_matches("qqmusi", "qqmusic"));
    assert!(name_matches("anything", ""));
    assert!(matches!(find_target(&procs(&[]), "qqmusic"), Err(RunError::TargetNotFound { .. })));
}

#[test]
fn error_messages() {
    let e = RunError::RemoteCallFailure { source: "s".to_string(), temp: "t".to_string(), detail: "d".to_string() };
    assert_eq!(e.message(), "remote decrypt failed for s -> t: d");
    assert_eq!(RunError::UnsupportedExtension { path: "p".to_string() }.message(), "unsupported extension: p");
    assert_eq!(RunError::AttachFailure { detail: "x".to_string() }.message(), "cannot attach to the target process: x");
    assert_eq!(RunError::ScriptLoadFailure { detail: "x".to_string() }.message(), "cannot load the script: x");
    assert_eq!(
        RunError::DirectoryResolutionFailure { path: "p".to_string() }.message(),
        "cannot determine the directory of p"
    );
}

/// Drives a whole single-file run against `World` and a list of processes.
fn drive_run(run: &mut SingleFileRun, w: &mut World, ps: &[&str], fail_at: Option<&str>) -> Result<JobOutcome, RunError> {
    let mut loaded = false;
    loop {
        let ev = match run.next_action() {
            RunAction::Finish(r) => return r,
            RunAction::Setup(a) => {
                let step = match &a {
                    SetupAction::EnumerateProcesses => {
                        run.handle(RunEvent::Setup(SetupEvent::Enumerated(procs(ps))));
                        continue;
                    }
                    SetupAction::Attach { .. } => "attach",
                    SetupAction::CreateScript => "create",
                    SetupAction::RegisterHandler => "register",
                    SetupAction::Load => "load",
                    other => panic!("unexpected {:?}", other),
                };
                if fail_at == Some(step) {
                    RunEvent::Setup(SetupEvent::Failed(step.to_string()))
                } else {
                    if step == "load" {
                        loaded = true;
                    }
                    RunEvent::Setup(SetupEvent::Succeeded)
                }
            }
            RunAction::Job(JobAction::CheckTarget { path }) => RunEvent::Job(JobEvent::TargetExists(w.files.contains(&path))),
            RunAction::Job(JobAction::CallDecrypt { source, temp }) => {
                assert!(loaded);
                w.remote_calls += 1;
                w.decrypt_args.push(vec![source, temp.clone()]);
                w.files.insert(temp);
                RunEvent::Job(JobEvent::DecryptDone)
            }
            RunAction::Job(JobAction::Rename { from, to }) => {
                w.files.remove(&from);
                w.files.insert(to);
                RunEvent::Job(JobEvent::Renamed)
            }
            RunAction::Job(a) => panic!("unexpected {:?}", a),
        };
        run.handle(ev);
    }
}

#[test]
fn single_file_run_converts_after_load() {
    let mut run = SingleFileRun::start("/music/song.mflac", true, true, Some("song.mflac"), Some("/music"), PathStyle::Unix);
    let mut w = World::new(&["/music/song.mflac"]);
    let r = drive_run(&mut run, &mut w, &["init", "QQMusic.exe"], None);
    assert!(matches!(r, Ok(JobOutcome::Converted)));
    assert_eq!(w.decrypt_args, vec![vec!["/music/song.mflac".to_string(), SONG_TEMP.to_string()]]);
    assert!(w.files.contains("/music/song.flac"));
    assert!(!w.files.contains(SONG_TEMP));
}

#[test]
fn single_file_run_stops_at_first_error() {
    let mut w = World::new(&["/music/song.mflac"]);
    let mut run = SingleFileRun::start("/music/song.mflac", false, false, Some("song.mflac"), Some("/music"), PathStyle::Unix);
    assert!(matches!(drive_run(&mut run, &mut w, &["qqmusic"], None), Err(RunError::FileNotFound { .. })));
    let mut run = SingleFileRun::start("/music", true, false, Some("music"), Some("/"), PathStyle::Unix);
    assert!(matches!(drive_run(&mut run, &mut w, &["qqmusic"], None), Err(RunError::NotAFile { .. })));
    let mut run = SingleFileRun::start("/music/song.mflac", true, true, Some("song.mflac"), Some("/music"), PathStyle::Unix);
    assert!(matches!(drive_run(&mut run, &mut w, &["explorer"], None), Err(RunError::TargetNotFound { .. })));
    let mut run = SingleFileRun::start("/music/song.mflac", true, true, Some("song.mflac"), Some("/music"), PathStyle::Unix);
    assert!(matches!(drive_run(&mut run, &mut w, &["qqmusic"], Some("load")), Err(RunError::ScriptLoadFailure { .. })));
    let mut run = SingleFileRun::start("/music/clip.mp3", true, true, Some("clip.mp3"), Some("/music"), PathStyle::Unix);
    assert!(matches!(drive_run(&mut run, &mut w, &["qqmusic"], None), Err(RunError::UnsupportedExtension { .. })));
    assert_eq!(w.remote_calls, 0);
    run.handle(RunEvent::Job(JobEvent::DecryptDone));
    assert!(matches!(run.next_action(), RunAction::Finish(Err(RunError::UnsupportedExtension { .. }))));
}
