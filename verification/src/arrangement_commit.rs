//! How a session change reaches the arrangement runtime.
//!
//! A committed change is projected unless Safe Mode is on or the change
//! touches the canonical session only. A candidate graph is prepared only
//! from the sequence the runtime was asked about. A device change is
//! validated against the runtime before it becomes canonical: a candidate
//! that the runtime rejects is never committed, a conflict is reported as it
//! came, and every other runtime or command failure first repairs the
//! previous graph and then reports what the repair achieved.

use vstd::prelude::*;
use crate::projection::RuntimeProjectionState;
use crate::shell::{AdapterError, adapter_error_text};
use crate::text::{concat2, concat3, to_string, append_str, str_eq, decimal};
use crate::transport::ProjectionKey;

verus! {

broadcast use vstd::string::group_string_axioms;

/// What became of the runtime projection of a committed change.
#[derive(Clone, Debug)]
pub enum ArrangementProjectionOutcome {
    NotRequired,
    Queued,
    Failed { message: String },
}

/// Whether a committed change is projected to the runtime at all.
#[derive(Clone, Copy, Debug, PartialEq, Eq, Structural)]
pub enum CanonicalMutationEffect {
    CanonicalOnly,
    ProjectArrangement,
}

/// A committed change is projected unless Safe Mode is on or it touches the
/// canonical session only.
pub fn projection_required(safe_mode: bool, effect: CanonicalMutationEffect) -> (r: bool)
    ensures
        r == (!safe_mode && effect == CanonicalMutationEffect::ProjectArrangement),
{
    !safe_mode && effect == CanonicalMutationEffect::ProjectArrangement
}

/// What a projection reports once it was submitted: the pipeline's last
/// error fails it; a failed pipeline without an error fails it with a
/// generic message; otherwise it is queued. The caller marks the pipeline
/// failed with the same message.
pub fn submitted_projection_outcome(last_error: Option<String>, state: RuntimeProjectionState) -> (r: ArrangementProjectionOutcome)
    ensures
        match last_error {
            Some(m) => r matches ArrangementProjectionOutcome::Failed { message } && message@ == m@,
            None => if state == RuntimeProjectionState::Failed {
                r matches ArrangementProjectionOutcome::Failed { message } && message@ == "runtime projection failed"@
            } else {
                r is Queued
            },
        },
{
    match last_error {
        Some(message) => ArrangementProjectionOutcome::Failed { message },
        None => if state == RuntimeProjectionState::Failed {
            ArrangementProjectionOutcome::Failed { message: to_string("runtime projection failed") }
        } else {
            ArrangementProjectionOutcome::Queued
        },
    }
}

/// The key under which a candidate built from sequence `expected_sequence`
/// is prepared: the next sequence, saturating. A candidate built from a
/// sequence other than the current one is a conflict.
pub fn candidate_key(expected_sequence: u64, current_sequence: u64, session_revision: u64) -> (r: Result<ProjectionKey, AdapterError>)
    ensures
        expected_sequence == current_sequence <==> r is Ok,
        r matches Ok(key) ==> key.session_revision == session_revision
            && key.sequence == (if expected_sequence == u64::MAX { u64::MAX as int } else { expected_sequence + 1 }),
        r matches Err(e) ==> e matches AdapterError::Conflict { expected_sequence: x, current_sequence: c }
            && x == expected_sequence && c == current_sequence,
{
    if current_sequence != expected_sequence {
        return Err(AdapterError::Conflict { expected_sequence, current_sequence });
    }
    Ok(ProjectionKey { sequence: expected_sequence.saturating_add(1), session_revision })
}

/// The id of the instrument device of a track: the id of the instrument it
/// has, or one derived from the track's id.
pub fn instrument_device_id(existing: Option<String>, track_id: &str) -> (id: String)
    ensures
        match existing {
            Some(e) => id@ == e@,
            None => id@ == "device:instrument:"@ + track_id@,
        },
{
    match existing {
        Some(e) => e,
        None => concat2("device:instrument:", track_id),
    }
}

/// A failure of a session operation, as values.
pub enum ErrorView {
    Conflict(u64, u64),
    ProjectConflict(Seq<char>, Seq<char>),
    Runtime(Seq<char>),
    Command(Seq<char>),
}

pub open spec fn error_view(e: AdapterError) -> ErrorView {
    match e {
        AdapterError::Conflict { expected_sequence, current_sequence } => ErrorView::Conflict(expected_sequence, current_sequence),
        AdapterError::ProjectConflict { expected_project_id, current_project_id } =>
            ErrorView::ProjectConflict(expected_project_id@, current_project_id@),
        AdapterError::RuntimeUnavailable(m) => ErrorView::Runtime(m@),
        AdapterError::CommandFailed(m) => ErrorView::Command(m@),
    }
}

/// The display text of a failure.
pub open spec fn error_view_text(e: ErrorView) -> Seq<char> {
    match e {
        ErrorView::Conflict(x, c) =>
            "canonical state changed: expected sequence "@ + decimal(x as nat) + ", current sequence "@ + decimal(c as nat),
        ErrorView::ProjectConflict(x, c) => "active project changed: expected "@ + x + ", current "@ + c,
        ErrorView::Runtime(m) => m,
        ErrorView::Command(m) => m,
    }
}

/// What a finished repair reports: a runtime or command failure carrying
/// the repair's message, or a conflict as it came.
pub enum RepairReport {
    Runtime,
    Command,
    Return(ErrorView),
}

/// Where a device change stands.
pub enum CommitStage {
    /// Waiting for the candidate to be prepared; with the project the change
    /// must still belong to, if any.
    Preparing(Option<Seq<char>>),
    EnteringGate(Seq<char>),
    ReadingProject(Seq<char>),
    Committing,
    /// Repairing after the failure with this message.
    Resetting(Seq<char>, RepairReport),
    Syncing(Seq<char>, RepairReport),
    Done,
}

/// The host's report of the work it did.
pub enum CommitEventView {
    Prepared(Option<ErrorView>),
    GateEntered(bool),
    ActiveProject(Result<Seq<char>, Seq<char>>),
    Committed(Option<ErrorView>),
    Reset(bool),
    Synced(Option<Seq<char>>),
}

/// The work the host is asked to do next.
pub enum CommitActionView {
    Prepare,
    EnterGate,
    ReadProject,
    Commit,
    Reset,
    Sync,
    Finish(Option<ErrorView>),
}

pub open spec fn reset_rejected_text(failure: Seq<char>) -> Seq<char> {
    "Arrangement Runtime rejected the instrument or device candidate and could not be reset for the canonical Session: "@ + failure
}

pub open spec fn restored_text(failure: Seq<char>) -> Seq<char> {
    "Arrangement Runtime rejected the instrument or device candidate; the canonical Session was restored: "@ + failure
}

pub open spec fn restore_failed_text(restore_error: Seq<char>, failure: Seq<char>) -> Seq<char> {
    "Arrangement Runtime rejected the instrument or device candidate and the previous graph could not be restored ("@
        + restore_error + "): "@ + failure
}

/// The failure a finished repair reports, given the repair's message.
pub open spec fn repaired(report: RepairReport, message: Seq<char>) -> ErrorView {
    match report {
        RepairReport::Runtime => ErrorView::Runtime(message),
        RepairReport::Command => ErrorView::Command(message),
        RepairReport::Return(e) => e,
    }
}

/// How a failure of preparing or committing is handled: conflicts and
/// project conflicts end the change at once; other failures repair first.
pub open spec fn on_failure(e: ErrorView, repair_conflicts: bool) -> (CommitStage, CommitActionView) {
    match e {
        ErrorView::Runtime(m) => (CommitStage::Resetting(m, RepairReport::Runtime), CommitActionView::Reset),
        ErrorView::Command(m) => (CommitStage::Resetting(m, RepairReport::Command), CommitActionView::Reset),
        ErrorView::Conflict(_, _) => if repair_conflicts {
            (CommitStage::Resetting(error_view_text(e), RepairReport::Return(e)), CommitActionView::Reset)
        } else {
            (CommitStage::Done, CommitActionView::Finish(Some(e)))
        },
        ErrorView::ProjectConflict(_, _) => (CommitStage::Done, CommitActionView::Finish(Some(e))),
    }
}

/// Whether the change is waiting for this kind of report.
pub open spec fn commit_accepts(s: CommitStage, e: CommitEventView) -> bool {
    match s {
        CommitStage::Preparing(_) => e is Prepared,
        CommitStage::EnteringGate(_) => e is GateEntered,
        CommitStage::ReadingProject(_) => e is ActiveProject,
        CommitStage::Committing => e is Committed,
        CommitStage::Resetting(_, _) => e is Reset,
        CommitStage::Syncing(_, _) => e is Synced,
        CommitStage::Done => false,
    }
}

/// One step of a device change.
pub open spec fn commit_step(s: CommitStage, e: CommitEventView) -> (CommitStage, CommitActionView) {
    match (s, e) {
        (CommitStage::Preparing(project), CommitEventView::Prepared(result)) => match result {
            None => match project {
                Some(p) => (CommitStage::EnteringGate(p), CommitActionView::EnterGate),
                None => (CommitStage::Committing, CommitActionView::Commit),
            },
            Some(err) => on_failure(err, false),
        },
        (CommitStage::EnteringGate(p), CommitEventView::GateEntered(entered)) => if entered {
            (CommitStage::ReadingProject(p), CommitActionView::ReadProject)
        } else {
            (CommitStage::Done, CommitActionView::Finish(Some(ErrorView::Command("Host command gate was poisoned"@))))
        },
        (CommitStage::ReadingProject(p), CommitEventView::ActiveProject(read)) => match read {
            Err(m) => (CommitStage::Done, CommitActionView::Finish(Some(ErrorView::Command(m)))),
            Ok(current) => if current == p {
                (CommitStage::Committing, CommitActionView::Commit)
            } else {
                (CommitStage::Done, CommitActionView::Finish(Some(ErrorView::ProjectConflict(p, current))))
            },
        },
        (CommitStage::Committing, CommitEventView::Committed(result)) => match result {
            None => (CommitStage::Done, CommitActionView::Finish(None)),
            Some(err) => on_failure(err, true),
        },
        (CommitStage::Resetting(failure, report), CommitEventView::Reset(reset)) => if reset {
            (CommitStage::Syncing(failure, report), CommitActionView::Sync)
        } else {
            (CommitStage::Done, CommitActionView::Finish(Some(repaired(report, reset_rejected_text(failure)))))
        },
        (CommitStage::Syncing(failure, report), CommitEventView::Synced(result)) => {
            let message = match result {
                None => restored_text(failure),
                Some(restore_error) => restore_failed_text(restore_error, failure),
            };
            (CommitStage::Done, CommitActionView::Finish(Some(repaired(report, message))))
        },
        _ => (s, CommitActionView::Finish(None)),
    }
}

/// How far a change is from its end; every step lowers it.
pub open spec fn commit_rank(s: CommitStage) -> nat {
    match s {
        CommitStage::Preparing(_) => 6,
        CommitStage::EnteringGate(_) => 5,
        CommitStage::ReadingProject(_) => 4,
        CommitStage::Committing => 3,
        CommitStage::Resetting(_, _) => 2,
        CommitStage::Syncing(_, _) => 1,
        CommitStage::Done => 0,
    }
}

/// What a failure after the candidate was prepared reports.
#[derive(Debug)]
enum AfterRepair {
    Runtime,
    Command,
    Return(AdapterError),
}

#[derive(Debug)]
enum Stage {
    Preparing(Option<String>),
    EnteringGate(String),
    ReadingProject(String),
    Committing,
    Resetting(String, AfterRepair),
    Syncing(String, AfterRepair),
    Done,
}

/// The host's report of the work it did for a device change.
#[derive(Debug)]
pub enum CommitEvent {
    /// The candidate graph was prepared in the runtime (or why not).
    Prepared(Result<(), AdapterError>),
    /// The host command gate was entered (`false`: its lock was poisoned).
    GateEntered(bool),
    /// The id of the active project (or why it could not be read).
    ActiveProject(Result<String, String>),
    /// The prepared session was committed through the core (or why not).
    Committed(Result<(), AdapterError>),
    /// The runtime was reset for a repair (`false`: it refused).
    Reset(bool),
    /// The canonical session was projected again (or why not).
    Synced(Result<(), String>),
}

/// The work a device change asks of the host next.
#[derive(Debug)]
pub enum CommitAction {
    PrepareCandidate,
    EnterCommandGate,
    ReadActiveProject,
    CommitPrepared,
    ResetForRepair,
    SyncArrangement,
    /// The change is over; `Ok` when it was committed.
    Finish(Result<(), AdapterError>),
}

pub open spec fn event_view(e: CommitEvent) -> CommitEventView {
    match e {
        CommitEvent::Prepared(r) => CommitEventView::Prepared(match r { Ok(()) => None, Err(x) => Some(error_view(x)) }),
        CommitEvent::GateEntered(b) => CommitEventView::GateEntered(b),
        CommitEvent::ActiveProject(r) => CommitEventView::ActiveProject(match r { Ok(p) => Ok(p@), Err(m) => Err(m@) }),
        CommitEvent::Committed(r) => CommitEventView::Committed(match r { Ok(()) => None, Err(x) => Some(error_view(x)) }),
        CommitEvent::Reset(b) => CommitEventView::Reset(b),
        CommitEvent::Synced(r) => CommitEventView::Synced(match r { Ok(()) => None, Err(m) => Some(m@) }),
    }
}

pub open spec fn action_view(a: CommitAction) -> CommitActionView {
    match a {
        CommitAction::PrepareCandidate => CommitActionView::Prepare,
        CommitAction::EnterCommandGate => CommitActionView::EnterGate,
        CommitAction::ReadActiveProject => CommitActionView::ReadProject,
        CommitAction::CommitPrepared => CommitActionView::Commit,
        CommitAction::ResetForRepair => CommitActionView::Reset,
        CommitAction::SyncArrangement => CommitActionView::Sync,
        CommitAction::Finish(r) => CommitActionView::Finish(match r { Ok(()) => None, Err(x) => Some(error_view(x)) }),
    }
}

spec fn report_view(r: AfterRepair) -> RepairReport {
    match r {
        AfterRepair::Runtime => RepairReport::Runtime,
        AfterRepair::Command => RepairReport::Command,
        AfterRepair::Return(e) => RepairReport::Return(error_view(e)),
    }
}

/// A device change that is validated against the runtime before it
/// becomes canonical.
pub struct DeviceCommit {
    stage: Stage,
}

impl View for DeviceCommit {
    type V = CommitStage;

    closed spec fn view(&self) -> CommitStage {
        match self.stage {
            Stage::Preparing(p) => CommitStage::Preparing(match p { Some(s) => Some(s@), None => None }),
            Stage::EnteringGate(p) => CommitStage::EnteringGate(p@),
            Stage::ReadingProject(p) => CommitStage::ReadingProject(p@),
            Stage::Committing => CommitStage::Committing,
            Stage::Resetting(m, r) => CommitStage::Resetting(m@, report_view(r)),
            Stage::Syncing(m, r) => CommitStage::Syncing(m@, report_view(r)),
            Stage::Done => CommitStage::Done,
        }
    }
}

proof fn lemma_error_text(e: AdapterError)
    ensures
        error_view_text(error_view(e)) == adapter_error_text(e),
{
}

fn finish_repaired(report: AfterRepair, message: String) -> (a: CommitAction)
    ensures
        action_view(a) == CommitActionView::Finish(Some(repaired(report_view(report), message@))),
{
    match report {
        AfterRepair::Runtime => CommitAction::Finish(Err(AdapterError::RuntimeUnavailable(message))),
        AfterRepair::Command => CommitAction::Finish(Err(AdapterError::CommandFailed(message))),
        AfterRepair::Return(e) => CommitAction::Finish(Err(e)),
    }
}

fn failure_step(e: AdapterError, repair_conflicts: bool) -> (r: (DeviceCommit, CommitAction))
    ensures
        (r.0@, action_view(r.1)) == on_failure(error_view(e), repair_conflicts),
{
    match e {
        AdapterError::RuntimeUnavailable(m) => (DeviceCommit { stage: Stage::Resetting(m, AfterRepair::Runtime) }, CommitAction::ResetForRepair),
        AdapterError::CommandFailed(m) => (DeviceCommit { stage: Stage::Resetting(m, AfterRepair::Command) }, CommitAction::ResetForRepair),
        AdapterError::Conflict { expected_sequence, current_sequence } => {
            let e = AdapterError::Conflict { expected_sequence, current_sequence };
            if repair_conflicts {
                let m = e.message();
                proof { lemma_error_text(e); }
                (DeviceCommit { stage: Stage::Resetting(m, AfterRepair::Return(e)) }, CommitAction::ResetForRepair)
            } else {
                (DeviceCommit { stage: Stage::Done }, CommitAction::Finish(Err(e)))
            }
        },
        AdapterError::ProjectConflict { expected_project_id, current_project_id } =>
            (DeviceCommit { stage: Stage::Done }, CommitAction::Finish(Err(AdapterError::ProjectConflict { expected_project_id, current_project_id }))),
    }
}

impl DeviceCommit {
    /// Starts a device change: prepare the candidate first. With
    /// `expected_project_id`, the change must still belong to that project
    /// when it is committed.
    pub fn new(expected_project_id: Option<String>) -> (r: (DeviceCommit, CommitAction))
        ensures
            r.0@ == CommitStage::Preparing(match expected_project_id { Some(p) => Some(p@), None => None }),
            action_view(r.1) == CommitActionView::Prepare,
    {
        (DeviceCommit { stage: Stage::Preparing(expected_project_id) }, CommitAction::PrepareCandidate)
    }

    /// Whether the change is waiting for this kind of report.
    pub fn accepts(&self, event: &CommitEvent) -> (r: bool)
        ensures
            r == commit_accepts(self@, event_view(*event)),
    {
        match (&self.stage, event) {
            (Stage::Preparing(_), CommitEvent::Prepared(_)) => true,
            (Stage::EnteringGate(_), CommitEvent::GateEntered(_)) => true,
            (Stage::ReadingProject(_), CommitEvent::ActiveProject(_)) => true,
            (Stage::Committing, CommitEvent::Committed(_)) => true,
            (Stage::Resetting(_, _), CommitEvent::Reset(_)) => true,
            (Stage::Syncing(_, _), CommitEvent::Synced(_)) => true,
            _ => false,
        }
    }

    /// Takes the host's report and decides the next work; see
    /// `commit_step`.
    pub fn step(self, event: CommitEvent) -> (r: (DeviceCommit, CommitAction))
        requires
            commit_accepts(self@, event_view(event)),
        ensures
            (r.0@, action_view(r.1)) == commit_step(self@, event_view(event)),
    {
        match (self.stage, event) {
            (Stage::Preparing(project), CommitEvent::Prepared(result)) => match result {
                Ok(()) => match project {
                    Some(p) => (DeviceCommit { stage: Stage::EnteringGate(p) }, CommitAction::EnterCommandGate),
                    None => (DeviceCommit { stage: Stage::Committing }, CommitAction::CommitPrepared),
                },
                Err(e) => failure_step(e, false),
            },
            (Stage::EnteringGate(p), CommitEvent::GateEntered(entered)) => if entered {
                (DeviceCommit { stage: Stage::ReadingProject(p) }, CommitAction::ReadActiveProject)
            } else {
                (DeviceCommit { stage: Stage::Done },
                 CommitAction::Finish(Err(AdapterError::CommandFailed(to_string("Host command gate was poisoned")))))
            },
            (Stage::ReadingProject(p), CommitEvent::ActiveProject(read)) => match read {
                Err(m) => (DeviceCommit { stage: Stage::Done }, CommitAction::Finish(Err(AdapterError::CommandFailed(m)))),
                Ok(current) => if str_eq(current.as_str(), p.as_str()) {
                    (DeviceCommit { stage: Stage::Committing }, CommitAction::CommitPrepared)
                } else {
                    (DeviceCommit { stage: Stage::Done },
                     CommitAction::Finish(Err(AdapterError::ProjectConflict { expected_project_id: p, current_project_id: current })))
                },
            },
            (Stage::Committing, CommitEvent::Committed(result)) => match result {
                Ok(()) => (DeviceCommit { stage: Stage::Done }, CommitAction::Finish(Ok(()))),
                Err(e) => failure_step(e, true),
            },
            (Stage::Resetting(failure, report), CommitEvent::Reset(reset)) => if reset {
                (DeviceCommit { stage: Stage::Syncing(failure, report) }, CommitAction::SyncArrangement)
            } else {
                let m = concat2(
                    "Arrangement Runtime rejected the instrument or device candidate and could not be reset for the canonical Session: ",
                    failure.as_str());
                (DeviceCommit { stage: Stage::Done }, finish_repaired(report, m))
            },
            (Stage::Syncing(failure, report), CommitEvent::Synced(result)) => {
                let m = match result {
                    Ok(()) => concat2(
                        "Arrangement Runtime rejected the instrument or device candidate; the canonical Session was restored: ",
                        failure.as_str()),
                    Err(restore_error) => {
                        let mut m = concat3(
                            "Arrangement Runtime rejected the instrument or device candidate and the previous graph could not be restored (",
                            restore_error.as_str(), "): ");
                        append_str(&mut m, failure.as_str());
                        m
                    },
                };
                (DeviceCommit { stage: Stage::Done }, finish_repaired(report, m))
            },
            (stage, _) => (DeviceCommit { stage }, CommitAction::Finish(Ok(()))),
        }
    }
}

/// A device change ends: every step that does not finish it moves it closer
/// to its end.
pub proof fn law_device_commit_terminates(s: CommitStage, e: CommitEventView)
    requires
        commit_accepts(s, e),
    ensures
        commit_step(s, e).1 is Finish || commit_rank(commit_step(s, e).0) < commit_rank(s),
        commit_step(s, e).1 is Finish ==> commit_step(s, e).0 is Done,
{
}

/// The prepared session is committed only right after the runtime accepted
/// the candidate and, where a project is expected, the active project was
/// read to be that project.
pub proof fn law_commit_only_after_accepted_candidate(s: CommitStage, e: CommitEventView)
    requires
        commit_accepts(s, e),
        commit_step(s, e).1 is Commit,
    ensures
        (s matches CommitStage::Preparing(p) && p is None && e == CommitEventView::Prepared(None))
            || (s matches CommitStage::ReadingProject(p) && e == CommitEventView::ActiveProject(Ok(p))),
{
}

/// A runtime or command failure of preparing or committing is never
/// reported before the previous graph was reset for repair; conflicts found
/// while preparing, and project conflicts, are reported as they came.
pub proof fn law_failures_repair_first(s: CommitStage, err: ErrorView)
    requires
        s is Preparing || s is Committing,
    ensures
        ({
            let e = if s is Preparing { CommitEventView::Prepared(Some(err)) } else { CommitEventView::Committed(Some(err)) };
            &&& (err is Runtime || err is Command) ==> commit_step(s, e).1 is Reset
            &&& err is ProjectConflict ==> commit_step(s, e).1 == CommitActionView::Finish(Some(err))
            &&& (err is Conflict && s is Preparing) ==> commit_step(s, e).1 == CommitActionView::Finish(Some(err))
        }),
{
}

/// A conflict found while committing is reported unchanged whatever the
/// repair achieves.
pub proof fn law_commit_conflict_survives_repair(x: u64, c: u64, reset: bool, synced: Option<Seq<char>>)
    ensures
        ({
            let err = ErrorView::Conflict(x, c);
            let (s1, a1) = commit_step(CommitStage::Committing, CommitEventView::Committed(Some(err)));
            let (s2, a2) = commit_step(s1, CommitEventView::Reset(reset));
            &&& a1 is Reset
            &&& !reset ==> a2 == CommitActionView::Finish(Some(err))
            &&& reset ==> a2 is Sync && commit_step(s2, CommitEventView::Synced(synced)).1 == CommitActionView::Finish(Some(err))
        }),
{
}

} // verus!
