//! Installation of one extension into a profile by the `code` command, as a
//! state machine: the caller spawns the installer, waits for it with a time
//! limit, and stops it when the limit is reached.

use vstd::prelude::*;

verus! {

/// The arguments of `code` that install extension `ext` into profile
/// `profile`, replacing any installed version.
pub open spec fn install_args(profile: Seq<char>, ext: Seq<char>) -> Seq<Seq<char>> {
    seq!["--profile"@, profile, "--install-extension"@, ext, "--force"@]
}

/// The arguments of `code` that install extension `ext` into profile
/// `profile` (see [`install_args`]).
pub fn install_command_args(profile: &str, ext: &str) -> (res: Vec<String>)
    ensures
        res.deep_view() == install_args(profile@, ext@),
{
    let mut args: Vec<String> = Vec::new();
    args.push(String::from_str("--profile"));
    args.push(String::from_str(profile));
    args.push(String::from_str("--install-extension"));
    args.push(String::from_str(ext));
    args.push(String::from_str("--force"));
    assert(args.deep_view() =~= install_args(profile@, ext@));
    args
}

/// Where an installation stands: each stage waits for the outcome of one
/// action.
#[derive(Clone, Copy, Debug, PartialEq, Eq, Structural)]
pub enum InstallStage {
    /// Waiting for the dry-run notice to be shown.
    DryRunNotice,
    /// Waiting for the installer to be spawned.
    Spawn,
    /// Waiting for the installer to exit, or for the time limit.
    Wait,
    /// Waiting for the installer to be stopped.
    Stop,
    /// The installation is over.
    Finished,
}

/// How waiting for the installer ended.
#[derive(Clone, Copy, Debug, PartialEq, Eq, Structural)]
pub enum WaitOutcome {
    /// The installer exited, successfully or not.
    Exited(bool),
    /// The time limit was reached first.
    TimedOut,
    /// Waiting itself failed.
    Failed,
}

/// Outside work that the installation asks of its caller.
#[derive(Clone, Copy, Debug, PartialEq, Eq, Structural)]
pub enum InstallAction {
    /// Show that a dry run installs nothing; answer with
    /// [`InstallEvent::Continue`].
    Notice,
    /// Spawn `code --profile <name> --install-extension <id> --force`;
    /// answer with [`InstallEvent::Spawned`].
    Spawn,
    /// Wait for the installer at most this many seconds; answer with
    /// [`InstallEvent::Waited`].
    Wait(u64),
    /// Kill the installer and wait for it; answer with
    /// [`InstallEvent::Continue`].
    Stop,
    /// The installation is over: whether it succeeded.
    Finish(bool),
}

/// The outcome of an [`InstallAction`].
#[derive(Clone, Copy, Debug, PartialEq, Eq, Structural)]
pub enum InstallEvent {
    /// The action was carried out.
    Continue,
    /// Whether the installer could be spawned.
    Spawned(bool),
    /// How waiting for the installer ended.
    Waited(WaitOutcome),
}

/// The model of an [`InstallSession`].
pub struct InstallView {
    pub stage: InstallStage,
    pub timeout_secs: u64,
}

/// Whether `e` is the outcome of the action that stage `stage` waits for.
pub open spec fn install_awaits(stage: InstallStage, e: InstallEvent) -> bool {
    match stage {
        InstallStage::DryRunNotice | InstallStage::Stop => e is Continue,
        InstallStage::Spawn => e is Spawned,
        InstallStage::Wait => e is Waited,
        InstallStage::Finished => false,
    }
}

/// How an installation with time limit `timeout_secs` begins: a dry run only
/// says so; otherwise the installer is spawned.
pub open spec fn start_install_view(timeout_secs: u64, dry_run: bool) -> (InstallView, InstallAction) {
    if dry_run {
        (InstallView { stage: InstallStage::DryRunNotice, timeout_secs }, InstallAction::Notice)
    } else {
        (InstallView { stage: InstallStage::Spawn, timeout_secs }, InstallAction::Spawn)
    }
}

/// What the installation `s` does on the outcome `e` of the action it
/// waited for. It succeeds when it is a dry run or when the installer exits
/// successfully within the time limit; an installer that outlives the limit
/// is stopped, and the installation fails.
pub open spec fn install_next(s: InstallView, e: InstallEvent) -> (InstallView, InstallAction) {
    let done = InstallView { stage: InstallStage::Finished, ..s };
    match (s.stage, e) {
        (InstallStage::DryRunNotice, InstallEvent::Continue) => (done, InstallAction::Finish(true)),
        (InstallStage::Spawn, InstallEvent::Spawned(ok)) => {
            if ok {
                (InstallView { stage: InstallStage::Wait, ..s }, InstallAction::Wait(s.timeout_secs))
            } else {
                (done, InstallAction::Finish(false))
            }
        },
        (InstallStage::Wait, InstallEvent::Waited(w)) => match w {
            WaitOutcome::Exited(success) => (done, InstallAction::Finish(success)),
            WaitOutcome::TimedOut => (InstallView { stage: InstallStage::Stop, ..s }, InstallAction::Stop),
            WaitOutcome::Failed => (done, InstallAction::Finish(false)),
        },
        (InstallStage::Stop, InstallEvent::Continue) => (done, InstallAction::Finish(false)),
        _ => (s, InstallAction::Spawn),
    }
}

/// The installation of one extension in progress. Only [`start_install`]
/// starts one.
pub struct InstallSession {
    stage: InstallStage,
    timeout_secs: u64,
}

impl View for InstallSession {
    type V = InstallView;

    closed spec fn view(&self) -> InstallView {
        InstallView { stage: self.stage, timeout_secs: self.timeout_secs }
    }
}

/// Begin an installation whose installer may run `timeout_secs` seconds; a
/// dry run installs nothing. Returns the session and the first action.
pub fn start_install(timeout_secs: u64, dry_run: bool) -> (res: (InstallSession, InstallAction))
    ensures
        (res.0@, res.1) == start_install_view(timeout_secs, dry_run),
{
    if dry_run {
        (InstallSession { stage: InstallStage::DryRunNotice, timeout_secs }, InstallAction::Notice)
    } else {
        (InstallSession { stage: InstallStage::Spawn, timeout_secs }, InstallAction::Spawn)
    }
}

impl InstallSession {
    /// Take the outcome `event` of the action the session waits for and
    /// return the next action.
    pub fn step(&mut self, event: InstallEvent) -> (action: InstallAction)
        requires
            install_awaits(old(self)@.stage, event),
        ensures
            (final(self)@, action) == install_next(old(self)@, event),
    {
        match (self.stage, event) {
            (InstallStage::DryRunNotice, InstallEvent::Continue) => {
                self.stage = InstallStage::Finished;
                InstallAction::Finish(true)
            },
            (InstallStage::Spawn, InstallEvent::Spawned(ok)) => {
                if ok {
                    self.stage = InstallStage::Wait;
                    InstallAction::Wait(self.timeout_secs)
                } else {
                    self.stage = InstallStage::Finished;
                    InstallAction::Finish(false)
                }
            },
            (InstallStage::Wait, InstallEvent::Waited(w)) => match w {
                WaitOutcome::Exited(success) => {
                    self.stage = InstallStage::Finished;
                    InstallAction::Finish(success)
                },
                WaitOutcome::TimedOut => {
                    self.stage = InstallStage::Stop;
                    InstallAction::Stop
                },
                WaitOutcome::Failed => {
                    self.stage = InstallStage::Finished;
                    InstallAction::Finish(false)
                },
            },
            (InstallStage::Stop, InstallEvent::Continue) => {
                self.stage = InstallStage::Finished;
                InstallAction::Finish(false)
            },
            _ => {
                assert(false);
                InstallAction::Spawn
            },
        }
    }

    /// The stage the session is in.
    pub fn stage(&self) -> (res: InstallStage)
        ensures
            res == self@.stage,
    {
        self.stage
    }
}

/// An installation reports success only for a dry run or for an installer
/// that exited successfully.
pub proof fn lemma_install_success_needs_clean_exit(s: InstallView, e: InstallEvent)
    requires
        install_awaits(s.stage, e),
    ensures
        install_next(s, e).1 == InstallAction::Finish(true) ==> s.stage == InstallStage::DryRunNotice
            || e == InstallEvent::Waited(WaitOutcome::Exited(true)),
{
}

/// An installer that outlives its time limit is stopped, and the
/// installation fails.
pub proof fn lemma_timed_out_installer_is_stopped(s: InstallView)
    requires
        s.stage == InstallStage::Wait,
    ensures
        install_next(s, InstallEvent::Waited(WaitOutcome::TimedOut)).1 == InstallAction::Stop,
        install_next(
            install_next(s, InstallEvent::Waited(WaitOutcome::TimedOut)).0,
            InstallEvent::Continue,
        ).1 == InstallAction::Finish(false),
{
}

} // verus!
