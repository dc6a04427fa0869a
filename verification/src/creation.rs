//! Creation of a new VS Code profile by opening a temporary window, as a
//! state machine.
//!
//! [`start_creation`] names the first piece of outside work; the caller
//! performs it (reading `storage.json`, making the temporary directory,
//! launching and stopping the window, pausing) and hands the outcome to
//! [`CreationSession::step`], until the machine finishes.

use vstd::prelude::*;
use crate::folder::{folder_name_of, make_folder_name};
use crate::storage::{profile_registered, registered_in, storage_registers};
use crate::text::{decimal, decimal_string, opt_view};

verus! {

/// Milliseconds between two looks at `storage.json` while the window opens.
pub const POLL_PAUSE_MS: u64 = 1000;

/// Milliseconds between asking the window to terminate and killing it.
pub const TERMINATE_PAUSE_MS: u64 = 500;

/// Milliseconds between two looks for processes left over by the window.
pub const LEFTOVER_PAUSE_MS: u64 = 1000;

/// How many times to look for processes left over by the window.
pub const LEFTOVER_CHECKS: u64 = 10;

/// Where a creation stands: each stage waits for the outcome of one action.
#[derive(Clone, Copy, Debug, PartialEq, Eq, Structural)]
pub enum CreationStage {
    /// Waiting for the dry-run notice to be shown.
    DryRunNotice,
    /// Waiting for `storage.json`, to see whether the profile exists.
    CheckRegistered,
    /// Waiting for the "already registered" notice to be shown.
    ExistingNotice,
    /// Waiting for the temporary directory to be made.
    MakeTempDir,
    /// Waiting for the window to be launched.
    Launch,
    /// Waiting for `storage.json` and the time spent so far.
    Poll,
    /// Waiting out the pause between two polls.
    PollPause,
    /// Waiting for the "registered" notice to be shown.
    RegisteredNotice,
    /// Waiting for the window's process group to be asked to terminate.
    Terminate,
    /// Waiting out the pause before the kill.
    TerminatePause,
    /// Waiting for the window's process group to be killed.
    KillGroup,
    /// Waiting for the window to be stopped.
    StopWindow,
    /// Waiting to learn whether processes of the window are left.
    CheckLeftovers,
    /// Waiting out the pause between two looks for leftovers.
    LeftoverPause,
    /// Waiting for the temporary directory to be removed.
    RemoveTempDir,
    /// Waiting for the window to be stopped after the time ran out.
    TimeoutStop,
    /// Waiting for the temporary directory to be removed after the time ran out.
    TimeoutRemove,
    /// The creation is over.
    Finished,
}

/// Something to tell the user.
#[derive(Clone, Copy, Debug, PartialEq, Eq, Structural)]
pub enum CreationNotice {
    /// A dry run: the window would be opened, and is not.
    DryRun,
    /// The profile exists already; nothing is created.
    AlreadyRegistered,
    /// The profile has appeared in `storage.json`.
    Registered,
}

/// A signal for the window's whole process group.
#[derive(Clone, Copy, Debug, PartialEq, Eq, Structural)]
pub enum GroupSignal {
    Terminate,
    Kill,
}

/// Outside work that the creation asks of its caller.
pub enum CreationAction {
    /// Show the notice; answer with [`CreationEvent::Continue`].
    Notice(CreationNotice),
    /// Read `storage.json`; answer with [`CreationEvent::StorageRead`].
    ReadStorage,
    /// Make a temporary directory named after this folder name; answer with
    /// [`CreationEvent::Done`].
    MakeTempDir(String),
    /// Open a window on the profile and the temporary directory, as the
    /// leader of a new process group when `new_group` holds (so that the
    /// whole group can be signalled later); answer with [`CreationEvent::Done`].
    Launch { new_group: bool },
    /// Read `storage.json` and the time since launch; answer with
    /// [`CreationEvent::Polled`].
    Poll,
    /// Wait this many milliseconds; answer with [`CreationEvent::Continue`].
    Pause(u64),
    /// Send the signal to the window's process group; answer with
    /// [`CreationEvent::Continue`].
    SignalGroup(GroupSignal),
    /// Kill the window and wait for it; answer with [`CreationEvent::Continue`].
    StopWindow,
    /// Look for processes still using the temporary directory; answer with
    /// [`CreationEvent::Leftovers`].
    CheckLeftovers,
    /// Remove the temporary directory; answer with [`CreationEvent::Continue`].
    RemoveTempDir,
    /// The creation is over, with this outcome.
    Finish(Result<(), String>),
}

/// The outcome of a [`CreationAction`].
pub enum CreationEvent {
    /// The action was carried out (its own outcome does not matter).
    Continue,
    /// The text of `storage.json`, or `None` when it could not be read.
    StorageRead(Option<String>),
    /// Success, or the error message.
    Done(Result<(), String>),
    /// The text of `storage.json` (or `None`) and the whole seconds since launch.
    Polled { storage: Option<String>, elapsed_secs: u64 },
    /// Whether processes of the window are left.
    Leftovers(bool),
}

/// The model of a [`CreationAction`].
pub enum CreationActionView {
    Notice(CreationNotice),
    ReadStorage,
    MakeTempDir(Seq<char>),
    Launch { new_group: bool },
    Poll,
    Pause(u64),
    SignalGroup(GroupSignal),
    StopWindow,
    CheckLeftovers,
    RemoveTempDir,
    Finish(Result<(), Seq<char>>),
}

/// The model of a [`CreationEvent`].
pub enum CreationEventView {
    Continue,
    StorageRead(Option<Seq<char>>),
    Done(Result<(), Seq<char>>),
    Polled { storage: Option<Seq<char>>, elapsed_secs: u64 },
    Leftovers(bool),
}

/// The model of a result that carries a message on failure.
pub open spec fn message_result(r: Result<(), String>) -> Result<(), Seq<char>> {
    match r {
        Ok(()) => Ok(()),
        Err(m) => Err(m@),
    }
}

impl View for CreationAction {
    type V = CreationActionView;

    open spec fn view(&self) -> CreationActionView {
        match self {
            CreationAction::Notice(n) => CreationActionView::Notice(*n),
            CreationAction::ReadStorage => CreationActionView::ReadStorage,
            CreationAction::MakeTempDir(f) => CreationActionView::MakeTempDir(f@),
            CreationAction::Launch { new_group } => CreationActionView::Launch { new_group: *new_group },
            CreationAction::Poll => CreationActionView::Poll,
            CreationAction::Pause(ms) => CreationActionView::Pause(*ms),
            CreationAction::SignalGroup(g) => CreationActionView::SignalGroup(*g),
            CreationAction::StopWindow => CreationActionView::StopWindow,
            CreationAction::CheckLeftovers => CreationActionView::CheckLeftovers,
            CreationAction::RemoveTempDir => CreationActionView::RemoveTempDir,
            CreationAction::Finish(r) => CreationActionView::Finish(message_result(*r)),
        }
    }
}

impl View for CreationEvent {
    type V = CreationEventView;

    open spec fn view(&self) -> CreationEventView {
        match self {
            CreationEvent::Continue => CreationEventView::Continue,
            CreationEvent::StorageRead(t) => CreationEventView::StorageRead(opt_view(*t)),
            CreationEvent::Done(r) => CreationEventView::Done(message_result(*r)),
            CreationEvent::Polled { storage, elapsed_secs } => CreationEventView::Polled {
                storage: opt_view(*storage),
                elapsed_secs: *elapsed_secs,
            },
            CreationEvent::Leftovers(b) => CreationEventView::Leftovers(*b),
        }
    }
}

/// The model of a [`CreationSession`]. Besides where it stands, it records
/// whether the window was launched, has been stopped, and whether the
/// temporary directory has been removed.
pub struct CreationView {
    pub name: Seq<char>,
    pub timeout_secs: u64,
    pub signal_group: bool,
    pub stage: CreationStage,
    pub leftover_checks: nat,
    pub launched: bool,
    pub window_stopped: bool,
    pub temp_removed: bool,
}

/// Whether `e` is the outcome of the action that stage `stage` waits for.
pub open spec fn creation_awaits(stage: CreationStage, e: CreationEventView) -> bool {
    match stage {
        CreationStage::CheckRegistered => e is StorageRead,
        CreationStage::MakeTempDir | CreationStage::Launch => e is Done,
        CreationStage::Poll => e is Polled,
        CreationStage::CheckLeftovers => e is Leftovers,
        CreationStage::Finished => false,
        _ => e is Continue,
    }
}

/// The stages in which leftovers are looked for, or have been.
pub open spec fn after_leftover_checks(stage: CreationStage) -> bool {
    stage == CreationStage::CheckLeftovers || stage == CreationStage::LeftoverPause || stage
        == CreationStage::RemoveTempDir || stage == CreationStage::Finished
}

/// The shape every creation keeps: it looks for leftovers at most
/// [`LEFTOVER_CHECKS`] times, counts no look before the looking begins, and
/// is between group signals only where it signals groups.
pub open spec fn creation_wf(s: CreationView) -> bool {
    &&& s.leftover_checks <= LEFTOVER_CHECKS
    &&& (s.stage == CreationStage::CheckLeftovers || s.stage == CreationStage::LeftoverPause)
        ==> s.leftover_checks < LEFTOVER_CHECKS
    &&& !after_leftover_checks(s.stage) ==> s.leftover_checks == 0
    &&& (s.stage == CreationStage::Terminate || s.stage == CreationStage::TerminatePause)
        ==> s.signal_group
}

/// The error of a creation whose window did not register the profile
/// within `timeout_secs` seconds.
pub open spec fn timeout_message(timeout_secs: u64, name: Seq<char>) -> Seq<char> {
    "Timed out after "@ + decimal(timeout_secs as nat) + "s waiting for profile '"@ + name
        + "' to be registered in storage.json. Make sure VS Code is installed and can open a window."@
}

/// The error of a creation whose window could not be launched.
pub open spec fn launch_failure_message(m: Seq<char>) -> Seq<char> {
    "Failed to launch VS Code: "@ + m
}

/// The creation `s` moved to stage `stage`, asking for `a`.
pub open spec fn go(s: CreationView, stage: CreationStage, a: CreationActionView) -> (CreationView, CreationActionView) {
    (CreationView { stage, ..s }, a)
}

/// The creation `s` over, with outcome `r`.
pub open spec fn creation_finish(s: CreationView, r: Result<(), Seq<char>>) -> (CreationView, CreationActionView) {
    go(s, CreationStage::Finished, CreationActionView::Finish(r))
}

/// How the creation of profile `name` begins: a dry run only says what it
/// would do; otherwise `storage.json` is read first.
pub open spec fn start_creation_view(name: Seq<char>, timeout_secs: u64, dry_run: bool, signal_group: bool) -> (CreationView, CreationActionView) {
    let s = CreationView {
        name,
        timeout_secs,
        signal_group,
        stage: CreationStage::CheckRegistered,
        leftover_checks: 0,
        launched: false,
        window_stopped: false,
        temp_removed: false,
    };
    if dry_run {
        go(s, CreationStage::DryRunNotice, CreationActionView::Notice(CreationNotice::DryRun))
    } else {
        (s, CreationActionView::ReadStorage)
    }
}

/// What the creation `s` does on the outcome `e` of the action it waited for.
///
/// A profile that exists is not created. Otherwise a temporary directory is
/// made and a window launched on it, as the leader of a new process group
/// where process groups can be signalled; `storage.json` is then read every
/// second until it registers the profile, or until the time runs out. Once
/// registered, the window's process group (where process groups can be
/// signalled) is asked to terminate and killed half a second later; the
/// window is stopped, and up to ten looks (a second apart) wait for its
/// leftover processes to go before the temporary directory is removed. When
/// the time runs out, the window is stopped and the directory removed, and
/// the creation fails.
pub open spec fn creation_next(s: CreationView, e: CreationEventView) -> (CreationView, CreationActionView) {
    match (s.stage, e) {
        (CreationStage::DryRunNotice, CreationEventView::Continue) => creation_finish(s, Ok(())),
        (CreationStage::CheckRegistered, CreationEventView::StorageRead(t)) => {
            if storage_registers(s.name, t) {
                go(s, CreationStage::ExistingNotice, CreationActionView::Notice(CreationNotice::AlreadyRegistered))
            } else {
                go(s, CreationStage::MakeTempDir, CreationActionView::MakeTempDir(folder_name_of(s.name)))
            }
        },
        (CreationStage::ExistingNotice, CreationEventView::Continue) => creation_finish(s, Ok(())),
        (CreationStage::MakeTempDir, CreationEventView::Done(r)) => match r {
            Err(m) => creation_finish(s, Err(m)),
            Ok(()) => go(
                s,
                CreationStage::Launch,
                CreationActionView::Launch { new_group: s.signal_group },
            ),
        },
        (CreationStage::Launch, CreationEventView::Done(r)) => match r {
            Err(m) => creation_finish(s, Err(launch_failure_message(m))),
            Ok(()) => go(CreationView { launched: true, ..s }, CreationStage::Poll, CreationActionView::Poll),
        },
        (CreationStage::Poll, CreationEventView::Polled { storage, elapsed_secs }) => {
            if storage_registers(s.name, storage) {
                go(s, CreationStage::RegisteredNotice, CreationActionView::Notice(CreationNotice::Registered))
            } else if elapsed_secs >= s.timeout_secs {
                go(s, CreationStage::TimeoutStop, CreationActionView::StopWindow)
            } else {
                go(s, CreationStage::PollPause, CreationActionView::Pause(POLL_PAUSE_MS))
            }
        },
        (CreationStage::PollPause, CreationEventView::Continue) => go(s, CreationStage::Poll, CreationActionView::Poll),
        (CreationStage::RegisteredNotice, CreationEventView::Continue) => {
            if s.signal_group {
                go(s, CreationStage::Terminate, CreationActionView::SignalGroup(GroupSignal::Terminate))
            } else {
                go(s, CreationStage::StopWindow, CreationActionView::StopWindow)
            }
        },
        (CreationStage::Terminate, CreationEventView::Continue) => go(
            s,
            CreationStage::TerminatePause,
            CreationActionView::Pause(TERMINATE_PAUSE_MS),
        ),
        (CreationStage::TerminatePause, CreationEventView::Continue) => go(
            s,
            CreationStage::KillGroup,
            CreationActionView::SignalGroup(GroupSignal::Kill),
        ),
        (CreationStage::KillGroup, CreationEventView::Continue) => go(s, CreationStage::StopWindow, CreationActionView::StopWindow),
        (CreationStage::StopWindow, CreationEventView::Continue) => go(
            CreationView { window_stopped: true, ..s },
            CreationStage::CheckLeftovers,
            CreationActionView::CheckLeftovers,
        ),
        (CreationStage::CheckLeftovers, CreationEventView::Leftovers(still)) => {
            if still {
                go(s, CreationStage::LeftoverPause, CreationActionView::Pause(LEFTOVER_PAUSE_MS))
            } else {
                go(s, CreationStage::RemoveTempDir, CreationActionView::RemoveTempDir)
            }
        },
        (CreationStage::LeftoverPause, CreationEventView::Continue) => {
            let s2 = CreationView { leftover_checks: s.leftover_checks + 1, ..s };
            if s2.leftover_checks < LEFTOVER_CHECKS {
                go(s2, CreationStage::CheckLeftovers, CreationActionView::CheckLeftovers)
            } else {
                go(s2, CreationStage::RemoveTempDir, CreationActionView::RemoveTempDir)
            }
        },
        (CreationStage::RemoveTempDir, CreationEventView::Continue) => creation_finish(
            CreationView { temp_removed: true, ..s },
            Ok(()),
        ),
        (CreationStage::TimeoutStop, CreationEventView::Continue) => go(
            CreationView { window_stopped: true, ..s },
            CreationStage::TimeoutRemove,
            CreationActionView::RemoveTempDir,
        ),
        (CreationStage::TimeoutRemove, CreationEventView::Continue) => creation_finish(
            CreationView { temp_removed: true, ..s },
            Err(timeout_message(s.timeout_secs, s.name)),
        ),
        _ => (s, CreationActionView::ReadStorage),
    }
}

/// What a creation has done outside, by where it stands: nothing is launched
/// before the launch succeeds; from then on the window is stopped before
/// leftovers are looked for, and the temporary directory is removed last; a
/// finished creation that launched a window has stopped it and removed the
/// directory.
pub open spec fn cleanup_state(s: CreationView) -> bool {
    match s.stage {
        CreationStage::DryRunNotice | CreationStage::CheckRegistered
        | CreationStage::ExistingNotice | CreationStage::MakeTempDir
        | CreationStage::Launch => !s.launched && !s.window_stopped && !s.temp_removed,
        CreationStage::Poll | CreationStage::PollPause | CreationStage::RegisteredNotice
        | CreationStage::Terminate | CreationStage::TerminatePause | CreationStage::KillGroup
        | CreationStage::StopWindow | CreationStage::TimeoutStop => s.launched
            && !s.window_stopped && !s.temp_removed,
        CreationStage::CheckLeftovers | CreationStage::LeftoverPause
        | CreationStage::RemoveTempDir | CreationStage::TimeoutRemove => s.launched
            && s.window_stopped && !s.temp_removed,
        CreationStage::Finished => s.launched ==> s.window_stopped && s.temp_removed,
    }
}

/// A creation begins with nothing launched.
pub proof fn lemma_creation_start_clean(name: Seq<char>, timeout_secs: u64, dry_run: bool, signal_group: bool)
    ensures
        cleanup_state(start_creation_view(name, timeout_secs, dry_run, signal_group).0),
        !start_creation_view(name, timeout_secs, dry_run, signal_group).0.launched,
{
}

/// Every step keeps [`cleanup_state`]: a creation that launched a window
/// finishes only after stopping the window and removing its temporary
/// directory.
pub proof fn lemma_creation_step_clean(s: CreationView, e: CreationEventView)
    requires
        creation_wf(s),
        cleanup_state(s),
        creation_awaits(s.stage, e),
    ensures
        cleanup_state(creation_next(s, e).0),
        creation_next(s, e).1 is Finish ==> creation_next(s, e).0.stage == CreationStage::Finished
            && (creation_next(s, e).0.launched ==> creation_next(s, e).0.window_stopped
            && creation_next(s, e).0.temp_removed),
{
}

/// A dry run only shows its notice and then succeeds: it reads nothing and
/// launches nothing.
pub proof fn lemma_dry_run_creates_nothing(name: Seq<char>, timeout_secs: u64, signal_group: bool)
    ensures
        start_creation_view(name, timeout_secs, true, signal_group).1 == CreationActionView::Notice(
            CreationNotice::DryRun,
        ),
        creation_next(start_creation_view(name, timeout_secs, true, signal_group).0, CreationEventView::Continue).1
            == CreationActionView::Finish(Ok(())),
        !creation_next(start_creation_view(name, timeout_secs, true, signal_group).0, CreationEventView::Continue).0.launched,
{
}

/// A profile that `storage.json` registers already is not created: the
/// creation says so and succeeds without launching anything.
pub proof fn lemma_existing_profile_not_created(s: CreationView, storage: Seq<char>)
    requires
        s.stage == CreationStage::CheckRegistered,
        registered_in(s.name, storage),
    ensures
        creation_next(s, CreationEventView::StorageRead(Some(storage))).1
            == CreationActionView::Notice(CreationNotice::AlreadyRegistered),
        creation_next(creation_next(s, CreationEventView::StorageRead(Some(storage))).0, CreationEventView::Continue).1
            == CreationActionView::Finish(Ok(())),
{
}

/// When the time runs out before `storage.json` registers the profile, the
/// window is stopped, the temporary directory removed, and the creation
/// fails with the timeout message.
pub proof fn lemma_timeout_fails_after_cleanup(s: CreationView, storage: Option<Seq<char>>, elapsed_secs: u64)
    requires
        s.stage == CreationStage::Poll,
        !storage_registers(s.name, storage),
        elapsed_secs >= s.timeout_secs,
    ensures
        ({
            let (s1, a1) = creation_next(s, CreationEventView::Polled { storage, elapsed_secs });
            let (s2, a2) = creation_next(s1, CreationEventView::Continue);
            let (s3, a3) = creation_next(s2, CreationEventView::Continue);
            &&& a1 == CreationActionView::StopWindow
            &&& a2 == CreationActionView::RemoveTempDir
            &&& a3 == CreationActionView::Finish(Err(timeout_message(s.timeout_secs, s.name)))
        }),
{
}

/// Process groups are signalled only where the window was launched as the
/// leader of a new group: the launch asks for a new group exactly when the
/// creation signals groups, and no signal is sent otherwise.
pub proof fn lemma_group_signals_reach_launched_group(s: CreationView, e: CreationEventView)
    requires
        creation_wf(s),
        creation_awaits(s.stage, e),
    ensures
        creation_next(s, e).1 matches CreationActionView::Launch { new_group } ==> new_group
            == s.signal_group,
        creation_next(s, e).1 is SignalGroup ==> s.signal_group,
        creation_next(s, e).0.signal_group == s.signal_group,
{
}

/// A profile creation in progress. Only [`start_creation`] starts one.
pub struct CreationSession {
    name: String,
    timeout_secs: u64,
    signal_group: bool,
    stage: CreationStage,
    leftover_checks: u64,
    launched: Ghost<bool>,
    window_stopped: Ghost<bool>,
    temp_removed: Ghost<bool>,
}

impl View for CreationSession {
    type V = CreationView;

    closed spec fn view(&self) -> CreationView {
        CreationView {
            name: self.name@,
            timeout_secs: self.timeout_secs,
            signal_group: self.signal_group,
            stage: self.stage,
            leftover_checks: self.leftover_checks as nat,
            launched: self.launched@,
            window_stopped: self.window_stopped@,
            temp_removed: self.temp_removed@,
        }
    }
}

/// Begin the creation of profile `name`, giving its window `timeout_secs`
/// seconds to register it; a dry run creates nothing. `signal_group` tells
/// whether the window's process group can be signalled on this system.
/// Returns the session and the first action for the caller to perform.
pub fn start_creation(name: String, timeout_secs: u64, dry_run: bool, signal_group: bool) -> (res: (CreationSession, CreationAction))
    ensures
        creation_wf(res.0@),
        (res.0@, res.1@) == start_creation_view(name@, timeout_secs, dry_run, signal_group),
{
    let mut session = CreationSession {
        name,
        timeout_secs,
        signal_group,
        stage: CreationStage::CheckRegistered,
        leftover_checks: 0,
        launched: Ghost(false),
        window_stopped: Ghost(false),
        temp_removed: Ghost(false),
    };
    if dry_run {
        session.stage = CreationStage::DryRunNotice;
        (session, CreationAction::Notice(CreationNotice::DryRun))
    } else {
        (session, CreationAction::ReadStorage)
    }
}

fn timeout_error(timeout_secs: u64, name: &str) -> (res: String)
    ensures
        res@ == timeout_message(timeout_secs, name@),
{
    let mut m = String::from_str("Timed out after ");
    let secs = decimal_string(timeout_secs);
    m.append(secs.as_str());
    m.append("s waiting for profile '");
    m.append(name);
    m.append("' to be registered in storage.json. Make sure VS Code is installed and can open a window.");
    m
}

impl CreationSession {
    fn go(&mut self, stage: CreationStage, a: CreationAction) -> (res: CreationAction)
        ensures
            (final(self)@, res@) == go(old(self)@, stage, a@),
    {
        self.stage = stage;
        a
    }

    /// Take the outcome `event` of the action the session waits for and
    /// return the next action.
    pub fn step(&mut self, event: CreationEvent) -> (action: CreationAction)
        requires
            creation_wf(old(self)@),
            creation_awaits(old(self)@.stage, event@),
        ensures
            creation_wf(final(self)@),
            (final(self)@, action@) == creation_next(old(self)@, event@),
    {
        match (self.stage, event) {
            (CreationStage::DryRunNotice, CreationEvent::Continue) => self.go(
                CreationStage::Finished,
                CreationAction::Finish(Ok(())),
            ),
            (CreationStage::CheckRegistered, CreationEvent::StorageRead(t)) => {
                let registered = match &t {
                    Some(x) => profile_registered(self.name.as_str(), x.as_str()),
                    None => false,
                };
                if registered {
                    self.go(
                        CreationStage::ExistingNotice,
                        CreationAction::Notice(CreationNotice::AlreadyRegistered),
                    )
                } else {
                    let folder = make_folder_name(self.name.as_str());
                    self.go(CreationStage::MakeTempDir, CreationAction::MakeTempDir(folder))
                }
            },
            (CreationStage::ExistingNotice, CreationEvent::Continue) => self.go(
                CreationStage::Finished,
                CreationAction::Finish(Ok(())),
            ),
            (CreationStage::MakeTempDir, CreationEvent::Done(r)) => match r {
                Err(m) => self.go(CreationStage::Finished, CreationAction::Finish(Err(m))),
                Ok(()) => self.go(
                    CreationStage::Launch,
                    CreationAction::Launch { new_group: self.signal_group },
                ),
            },
            (CreationStage::Launch, CreationEvent::Done(r)) => match r {
                Err(m) => {
                    let mut msg = String::from_str("Failed to launch VS Code: ");
                    msg.append(m.as_str());
                    self.go(CreationStage::Finished, CreationAction::Finish(Err(msg)))
                },
                Ok(()) => {
                    self.launched = Ghost(true);
                    self.go(CreationStage::Poll, CreationAction::Poll)
                },
            },
            (CreationStage::Poll, CreationEvent::Polled { storage, elapsed_secs }) => {
                let registered = match &storage {
                    Some(x) => profile_registered(self.name.as_str(), x.as_str()),
                    None => false,
                };
                if registered {
                    self.go(
                        CreationStage::RegisteredNotice,
                        CreationAction::Notice(CreationNotice::Registered),
                    )
                } else if elapsed_secs >= self.timeout_secs {
                    self.go(CreationStage::TimeoutStop, CreationAction::StopWindow)
                } else {
                    self.go(CreationStage::PollPause, CreationAction::Pause(POLL_PAUSE_MS))
                }
            },
            (CreationStage::PollPause, CreationEvent::Continue) => self.go(
                CreationStage::Poll,
                CreationAction::Poll,
            ),
            (CreationStage::RegisteredNotice, CreationEvent::Continue) => {
                if self.signal_group {
                    self.go(CreationStage::Terminate, CreationAction::SignalGroup(GroupSignal::Terminate))
                } else {
                    self.go(CreationStage::StopWindow, CreationAction::StopWindow)
                }
            },
            (CreationStage::Terminate, CreationEvent::Continue) => self.go(
                CreationStage::TerminatePause,
                CreationAction::Pause(TERMINATE_PAUSE_MS),
            ),
            (CreationStage::TerminatePause, CreationEvent::Continue) => self.go(
                CreationStage::KillGroup,
                CreationAction::SignalGroup(GroupSignal::Kill),
            ),
            (CreationStage::KillGroup, CreationEvent::Continue) => self.go(
                CreationStage::StopWindow,
                CreationAction::StopWindow,
            ),
            (CreationStage::StopWindow, CreationEvent::Continue) => {
                self.window_stopped = Ghost(true);
                self.go(CreationStage::CheckLeftovers, CreationAction::CheckLeftovers)
            },
            (CreationStage::CheckLeftovers, CreationEvent::Leftovers(still)) => {
                if still {
                    self.go(CreationStage::LeftoverPause, CreationAction::Pause(LEFTOVER_PAUSE_MS))
                } else {
                    self.go(CreationStage::RemoveTempDir, CreationAction::RemoveTempDir)
                }
            },
            (CreationStage::LeftoverPause, CreationEvent::Continue) => {
                self.leftover_checks = self.leftover_checks + 1;
                if self.leftover_checks < LEFTOVER_CHECKS {
                    self.go(CreationStage::CheckLeftovers, CreationAction::CheckLeftovers)
                } else {
                    self.go(CreationStage::RemoveTempDir, CreationAction::RemoveTempDir)
                }
            },
            (CreationStage::RemoveTempDir, CreationEvent::Continue) => {
                self.temp_removed = Ghost(true);
                self.go(CreationStage::Finished, CreationAction::Finish(Ok(())))
            },
            (CreationStage::TimeoutStop, CreationEvent::Continue) => {
                self.window_stopped = Ghost(true);
                self.go(CreationStage::TimeoutRemove, CreationAction::RemoveTempDir)
            },
            (CreationStage::TimeoutRemove, CreationEvent::Continue) => {
                self.temp_removed = Ghost(true);
                let msg = timeout_error(self.timeout_secs, self.name.as_str());
                self.go(CreationStage::Finished, CreationAction::Finish(Err(msg)))
            },
            _ => {
                assert(false);
                CreationAction::ReadStorage
            },
        }
    }

    /// The stage the session is in.
    pub fn stage(&self) -> (res: CreationStage)
        ensures
            res == self@.stage,
    {
        self.stage
    }
}

} // verus!
