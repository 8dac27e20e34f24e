//! Establishing the instrumentation session: locate the target process,
//! attach, create the script, register the message handler, activate.
//!
//! The handler is registered before the script is activated, so that no
//! early message is lost. The caller performs each action and reports back.
use vstd::prelude::*;
use crate::error::RunError;
use crate::locator::{find_target, is_first_match, ProcessEntry};

verus! {

/// Where session setup stands.
#[derive(Clone, Debug)]
pub enum SetupStage {
    /// Waiting for the list of running processes.
    Locate,
    /// Waiting for the attachment to the selected process.
    Attach(ProcessEntry),
    /// Waiting for the script to be compiled.
    CreateScript,
    /// Waiting for the message handler to be registered.
    RegisterHandler,
    /// Waiting for the script to be activated.
    Load,
    /// The script is loaded; remote calls may be made.
    Ready,
    Failed(RunError),
}

/// What the caller observed.
#[derive(Clone, Debug)]
pub enum SetupEvent {
    /// The processes of the device, in enumeration order.
    Enumerated(Vec<ProcessEntry>),
    Succeeded,
    /// The last action failed; the payload is its detail.
    Failed(String),
}

/// What the caller is to do next.
#[derive(Clone, Debug)]
pub enum SetupAction {
    EnumerateProcesses,
    Attach { pid: u32 },
    CreateScript,
    RegisterHandler,
    Load,
    Ready,
    Fail(RunError),
}

pub struct SessionSetup {
    /// Substring that selects the target process by name, ignoring ASCII case.
    pub target: String,
    pub stage: SetupStage,
}

/// The stage after `stage` on `ev`, when looking for `target`.
pub open spec fn setup_step(stage: SetupStage, ev: SetupEvent, target: String) -> SetupStage {
    match stage {
        SetupStage::Locate => match ev {
            SetupEvent::Enumerated(ps) => if exists|i: int| is_first_match(ps@, target@, i) {
                SetupStage::Attach(ps@[choose|i: int| is_first_match(ps@, target@, i)])
            } else {
                SetupStage::Failed(RunError::TargetNotFound { name: target })
            },
            _ => stage,
        },
        SetupStage::Attach(_) => match ev {
            SetupEvent::Succeeded => SetupStage::CreateScript,
            SetupEvent::Failed(d) => SetupStage::Failed(RunError::AttachFailure { detail: d }),
            _ => stage,
        },
        SetupStage::CreateScript => match ev {
            SetupEvent::Succeeded => SetupStage::RegisterHandler,
            SetupEvent::Failed(d) => SetupStage::Failed(RunError::ScriptLoadFailure { detail: d }),
            _ => stage,
        },
        SetupStage::RegisterHandler => match ev {
            SetupEvent::Succeeded => SetupStage::Load,
            SetupEvent::Failed(d) => SetupStage::Failed(RunError::ScriptLoadFailure { detail: d }),
            _ => stage,
        },
        SetupStage::Load => match ev {
            SetupEvent::Succeeded => SetupStage::Ready,
            SetupEvent::Failed(d) => SetupStage::Failed(RunError::ScriptLoadFailure { detail: d }),
            _ => stage,
        },
        _ => stage,
    }
}

/// `r` is the action that `stage` asks for.
pub open spec fn setup_action(stage: SetupStage, r: SetupAction) -> bool {
    match stage {
        SetupStage::Locate => r == SetupAction::EnumerateProcesses,
        SetupStage::Attach(p) => r == (SetupAction::Attach { pid: p.pid }),
        SetupStage::CreateScript => r == SetupAction::CreateScript,
        SetupStage::RegisterHandler => r == SetupAction::RegisterHandler,
        SetupStage::Load => r == SetupAction::Load,
        SetupStage::Ready => r == SetupAction::Ready,
        SetupStage::Failed(e) => r == SetupAction::Fail(e),
    }
}

proof fn lemma_first_match_unique(ps: Seq<ProcessEntry>, needle: Seq<char>, i: int, j: int)
    requires
        is_first_match(ps, needle, i),
        is_first_match(ps, needle, j),
    ensures
        i == j,
{
    if i < j {
        assert(!crate::locator::contains_ci(ps[i].name@, needle));
    } else if j < i {
        assert(!crate::locator::contains_ci(ps[j].name@, needle));
    }
}

impl SessionSetup {
    /// Setup of a session with the first process whose name contains `target`.
    pub fn new(target: &str) -> (r: SessionSetup)
        ensures
            r.target@ == target@,
            r.stage == SetupStage::Locate,
    {
        SessionSetup { target: target.to_owned(), stage: SetupStage::Locate }
    }

    /// What the caller is to do next.
    pub fn next_action(&self) -> (r: SetupAction)
        ensures
            setup_action(self.stage, r),
    {
        match &self.stage {
            SetupStage::Locate => SetupAction::EnumerateProcesses,
            SetupStage::Attach(p) => SetupAction::Attach { pid: p.pid },
            SetupStage::CreateScript => SetupAction::CreateScript,
            SetupStage::RegisterHandler => SetupAction::RegisterHandler,
            SetupStage::Load => SetupAction::Load,
            SetupStage::Ready => SetupAction::Ready,
            SetupStage::Failed(e) => SetupAction::Fail(e.duplicate()),
        }
    }

    /// Takes what the caller observed. An event that does not answer the
    /// current stage leaves the setup as it is.
    pub fn handle(&mut self, ev: SetupEvent)
        ensures
            final(self).stage == setup_step(old(self).stage, ev, old(self).target),
            final(self).target == old(self).target,
    {
        let next = match (&self.stage, ev) {
            (SetupStage::Locate, SetupEvent::Enumerated(ps)) => match find_target(
                &ps,
                self.target.as_str(),
            ) {
                Ok(p) => {
                    proof {
                        let i = choose|i: int| is_first_match(ps@, self.target@, i) && p == ps@[i];
                        let c = choose|i: int| is_first_match(ps@, self.target@, i);
                        lemma_first_match_unique(ps@, self.target@, i, c);
                    }
                    SetupStage::Attach(p)
                },
                Err(_) => SetupStage::Failed(RunError::TargetNotFound { name: self.target.clone() }),
            },
            (SetupStage::Attach(_), SetupEvent::Succeeded) => SetupStage::CreateScript,
            (SetupStage::Attach(_), SetupEvent::Failed(d)) => SetupStage::Failed(
                RunError::AttachFailure { detail: d },
            ),
            (SetupStage::CreateScript, SetupEvent::Succeeded) => SetupStage::RegisterHandler,
            (SetupStage::CreateScript, SetupEvent::Failed(d)) => SetupStage::Failed(
                RunError::ScriptLoadFailure { detail: d },
            ),
            (SetupStage::RegisterHandler, SetupEvent::Succeeded) => SetupStage::Load,
            (SetupStage::RegisterHandler, SetupEvent::Failed(d)) => SetupStage::Failed(
                RunError::ScriptLoadFailure { detail: d },
            ),
            (SetupStage::Load, SetupEvent::Succeeded) => SetupStage::Ready,
            (SetupStage::Load, SetupEvent::Failed(d)) => SetupStage::Failed(
                RunError::ScriptLoadFailure { detail: d },
            ),
            _ => return,
        };
        self.stage = next;
    }
}

/// The script is activated only after the message handler was registered:
/// the only step into `Load` is from `RegisterHandler`, and the only step
/// into `Ready` is from `Load`.
pub proof fn lemma_handler_before_activation(stage: SetupStage, ev: SetupEvent, target: String)
    ensures
        setup_step(stage, ev, target) == SetupStage::Load && stage != SetupStage::Load
            ==> stage == SetupStage::RegisterHandler,
        setup_step(stage, ev, target) == SetupStage::Ready && stage != SetupStage::Ready
            ==> stage == SetupStage::Load,
{
}

} // verus!
