//! The supervisor's decisions: whether a worker is attached, what a line of
//! its output does to the state, and what follows when its output ends.
//!
//! The caller owns the process and the threads. It reports what happened and
//! carries out what is decided here.

use vstd::prelude::*;
use crate::backoff::{lemma_delay_starts_at_initial, BackoffPolicy};
use crate::launch::{check_launch, launch_outcome, LaunchReport, SpawnError};
use crate::protocol::{
    byte_len, diagnostic_for, line_outcome, read_diagnostic, read_line, LineOutcome,
    LineOutcomeView, MAX_LINE_BYTES,
};
use crate::reconcile::{
    after_message, menu_refresh, no_refresh, refresh_after_message, with_status, RefreshPlan,
    STATUS_CONNECTED, WORKER_EXITED_REASON,
};
use crate::restart::{restart_after, RestartEvent, RestartPolicy, RestartView};
use crate::shutdown::{Probe, StopPlan};
use crate::text::{is_text, opt_text};
use crate::types::{AppState, AppStateView, MessageView, SidecarMessage, StatusView};

verus! {

/// View of [`SidecarManager`].
pub struct ManagerView {
    /// A worker was started and has not been handed out for termination.
    pub attached: bool,
}

/// The supervisor's record of whether a worker is attached. There is one
/// record per supervisor: it cannot be copied, so a worker is handed out for
/// termination at most once.
#[derive(Debug, PartialEq, Eq)]
pub struct SidecarManager {
    attached: bool,
}

impl View for SidecarManager {
    type V = ManagerView;

    closed spec fn view(&self) -> ManagerView {
        ManagerView { attached: self.attached }
    }
}

/// What `stop` does to the record, and what it leaves to the caller: an
/// attached worker is handed out, once.
pub open spec fn stop_of(manager: ManagerView) -> (ManagerView, StopPlan) {
    (
        ManagerView { attached: false },
        if manager.attached {
            StopPlan::Terminate
        } else {
            StopPlan::Nothing
        },
    )
}

/// Whether a worker counts as alive: one is attached and was seen running.
pub open spec fn alive(manager: ManagerView, probe: Probe) -> bool {
    manager.attached && probe == Probe::Running
}

/// The restart bookkeeping after a message: a status of `connected` starts
/// the count over, nothing else touches it.
pub open spec fn restart_after_message(policy: RestartView, message: MessageView) -> RestartView {
    match message {
        MessageView::Status { state, .. } => if state == STATUS_CONNECTED@ {
            restart_after(policy, RestartEvent::Connected)
        } else {
            policy
        },
        _ => policy,
    }
}

/// What a line of the worker's output was taken for.
#[derive(Clone, Copy, Debug, PartialEq, Eq, Structural)]
pub enum LineKind {
    /// A shutdown was requested: the line was not looked at, and the reading ends.
    Cancelled,
    Blank,
    Oversize,
    Malformed,
    /// A message, which was applied.
    Applied,
}

/// What reading a line of the worker's output came to.
#[derive(Clone, Copy, Debug, PartialEq, Eq, Structural)]
pub struct LineReport {
    pub kind: LineKind,
    pub refresh: RefreshPlan,
}

/// The message that a line brings: none once a shutdown was requested,
/// else the message that the line spells, if it spells one.
pub open spec fn accepted_message(policy: RestartView, line: Seq<char>) -> Option<MessageView> {
    if policy.shutdown_requested {
        None
    } else {
        match line_outcome(line) {
            LineOutcomeView::Message(m) => Some(m),
            _ => None,
        }
    }
}

/// The state after a line of the worker's output: the state after the
/// message it brings, or the same state where it brings none.
pub open spec fn state_after_line(
    state: AppStateView,
    policy: RestartView,
    line: Seq<char>,
    now: u64,
) -> AppStateView {
    match accepted_message(policy, line) {
        Some(m) => after_message(state, m, now),
        None => state,
    }
}

/// The restart bookkeeping after a line of the worker's output.
pub open spec fn restart_after_line(policy: RestartView, line: Seq<char>) -> RestartView {
    match accepted_message(policy, line) {
        Some(m) => restart_after_message(policy, m),
        None => policy,
    }
}

/// What a line is taken for.
pub open spec fn kind_of_line(policy: RestartView, line: Seq<char>) -> LineKind {
    if policy.shutdown_requested {
        LineKind::Cancelled
    } else {
        match line_outcome(line) {
            LineOutcomeView::Blank => LineKind::Blank,
            LineOutcomeView::Oversize => LineKind::Oversize,
            LineOutcomeView::Malformed => LineKind::Malformed,
            LineOutcomeView::Message(_) => LineKind::Applied,
        }
    }
}

/// What reading a line comes to, in a state.
pub open spec fn report_for_line(
    state: AppStateView,
    policy: RestartView,
    line: Seq<char>,
    now: u64,
) -> LineReport {
    LineReport {
        kind: kind_of_line(policy, line),
        refresh: match accepted_message(policy, line) {
            Some(m) => refresh_after_message(state, m, now),
            None => no_refresh(),
        },
    }
}

/// What to do when the worker's output has ended.
#[derive(Clone, Copy, Debug, PartialEq, Eq, Structural)]
pub struct StreamEndPlan {
    pub refresh: RefreshPlan,
    /// After how many milliseconds to start the worker again, if at all.
    pub restart_after_ms: Option<u64>,
}

/// The state after the worker's output has ended: an error status, unless
/// the end was asked for.
pub open spec fn state_after_stream_end(state: AppStateView, policy: RestartView) -> AppStateView {
    if policy.shutdown_requested {
        state
    } else {
        with_status(state, StatusView::Error(WORKER_EXITED_REASON@))
    }
}

impl SidecarManager {
    /// A supervisor without a worker.
    pub fn new() -> (manager: Self)
        ensures
            manager@ == (ManagerView { attached: false }),
    {
        SidecarManager { attached: false }
    }

    /// Whether a worker is attached.
    pub fn has_worker(&self) -> (attached: bool)
        ensures
            attached == self@.attached,
    {
        self.attached
    }

    /// Takes note of a launch. The launch counts if the process was started
    /// and its three streams were captured: then the worker is attached, and
    /// the result is the policy its tasks share. Otherwise nothing changes.
    pub fn spawn(&mut self, policy: &RestartPolicy, report: LaunchReport) -> (result: Result<
        RestartPolicy,
        SpawnError,
    >)
        ensures
            match launch_outcome(report) {
                Ok(_) => {
                    &&& result matches Ok(next)
                    &&& next@ == (RestartView { shutdown_requested: false, ..policy@ })
                    &&& final(self)@ == (ManagerView { attached: true })
                },
                Err(e) => result == Err::<RestartPolicy, SpawnError>(e) && final(self)@ == old(
                    self,
                )@,
            },
    {
        match check_launch(report) {
            Ok(_) => {
                self.attached = true;
                Ok(policy.for_new_worker())
            },
            Err(e) => Err(e),
        }
    }

    /// Whether the worker is alive, given a look at its process that the
    /// caller took without blocking. Without a worker the answer is no.
    pub fn is_running(&self, probe: Probe) -> (running: bool)
        ensures
            running == alive(self@, probe),
    {
        self.attached && probe == Probe::Running
    }

    /// Begins the shutdown: requests it of `policy` before anything else, then
    /// hands the attached worker, if there is one, to the caller to terminate.
    /// A second call finds no worker and leaves nothing to do.
    pub fn stop(&mut self, policy: &mut RestartPolicy) -> (plan: StopPlan)
        ensures
            final(policy)@ == restart_after(old(policy)@, RestartEvent::ShutdownRequested),
            (final(self)@, plan) == stop_of(old(self)@),
    {
        policy.request_shutdown();
        if self.attached {
            self.attached = false;
            StopPlan::Terminate
        } else {
            StopPlan::Nothing
        }
    }

    /// Applies a message of the worker to the state and to the restart
    /// bookkeeping.
    pub fn handle_message(
        message: SidecarMessage,
        state: &mut AppState,
        policy: &mut RestartPolicy,
        now: u64,
    ) -> (plan: RefreshPlan)
        ensures
            final(state)@ == after_message(old(state)@, message@, now),
            final(policy)@ == restart_after_message(old(policy)@, message@),
            plan == refresh_after_message(old(state)@, message@, now),
    {
        let connected = match &message {
            SidecarMessage::Status { state: keyword, .. } => is_text(keyword, STATUS_CONNECTED),
            _ => false,
        };
        if connected {
            policy.confirm_connected();
        }
        state.apply(message, now)
    }

    /// Takes one line that was read from the worker's output at `now`.
    ///
    /// Once a shutdown was requested the line is not looked at: the reading
    /// is over. Else the message that the line spells is applied; a line
    /// that spells none changes nothing, and the reading goes on after it.
    pub fn read_stdout(
        line: &str,
        state: &mut AppState,
        policy: &mut RestartPolicy,
        now: u64,
    ) -> (report: LineReport)
        ensures
            final(state)@ == state_after_line(old(state)@, old(policy)@, line@, now),
            final(policy)@ == restart_after_line(old(policy)@, line@),
            report == report_for_line(old(state)@, old(policy)@, line@, now),
    {
        if policy.is_shutdown_requested() {
            return LineReport {
                kind: LineKind::Cancelled,
                refresh: RefreshPlan { rebuild_menu: false, update_icon: false },
            };
        }
        match read_line(line) {
            LineOutcome::Blank => LineReport {
                kind: LineKind::Blank,
                refresh: RefreshPlan { rebuild_menu: false, update_icon: false },
            },
            LineOutcome::Oversize => LineReport {
                kind: LineKind::Oversize,
                refresh: RefreshPlan { rebuild_menu: false, update_icon: false },
            },
            LineOutcome::Malformed => LineReport {
                kind: LineKind::Malformed,
                refresh: RefreshPlan { rebuild_menu: false, update_icon: false },
            },
            LineOutcome::Message(message) => {
                let refresh = Self::handle_message(message, state, policy, now);
                LineReport { kind: LineKind::Applied, refresh }
            },
        }
    }

    /// Reads one line of the worker's diagnostics: the entry to log, if any.
    pub fn read_stderr(line: &str) -> (entry: Option<String>)
        ensures
            opt_text(entry) == diagnostic_for(line@),
    {
        read_diagnostic(line)
    }

    /// The worker's output has ended. Unless a shutdown was requested, the
    /// status becomes an error, the menu is rebuilt, and the worker is to be
    /// started again after the delay that the count of restarts asks for.
    pub fn on_stream_end(
        state: &mut AppState,
        policy: &RestartPolicy,
        backoff: &BackoffPolicy,
    ) -> (plan: StreamEndPlan)
        ensures
            final(state)@ == state_after_stream_end(old(state)@, policy@),
            policy@.shutdown_requested ==> plan == (StreamEndPlan {
                refresh: no_refresh(),
                restart_after_ms: None,
            }),
            !policy@.shutdown_requested ==> {
                &&& plan.refresh == menu_refresh()
                &&& plan.restart_after_ms matches Some(delay)
                &&& delay == backoff.delay_after(policy@.count)
            },
    {
        if policy.is_shutdown_requested() {
            StreamEndPlan {
                refresh: RefreshPlan { rebuild_menu: false, update_icon: false },
                restart_after_ms: None,
            }
        } else {
            let refresh = state.mark_worker_exited();
            StreamEndPlan { refresh, restart_after_ms: Some(backoff.delay(policy.count())) }
        }
    }
}

/// A line that is no message changes neither the state nor the restart
/// bookkeeping and asks for no refresh, and so does any line once a shutdown
/// was requested.
pub proof fn lemma_dropped_line_changes_nothing(
    state: AppStateView,
    policy: RestartView,
    line: Seq<char>,
    now: u64,
)
    requires
        policy.shutdown_requested || !(line_outcome(line) is Message),
    ensures
        state_after_line(state, policy, line, now) == state,
        restart_after_line(policy, line) == policy,
        report_for_line(state, policy, line, now).refresh == no_refresh(),
        report_for_line(state, policy, line, now).kind != LineKind::Applied,
{
}

/// The state and the restart bookkeeping after a run of lines, each with
/// the time at which it was read.
pub open spec fn after_lines(
    state: AppStateView,
    policy: RestartView,
    lines: Seq<(Seq<char>, u64)>,
) -> (AppStateView, RestartView)
    decreases lines.len(),
{
    if lines.len() == 0 {
        (state, policy)
    } else {
        let (s, p) = after_lines(state, policy, lines.drop_last());
        (state_after_line(s, p, lines.last().0, lines.last().1), restart_after_line(p, lines.last().0))
    }
}

/// A line that is no message leaves no trace in a stream: the lines before
/// and after it bring the state and the bookkeeping to where they would have
/// brought them without it.
pub proof fn lemma_dropped_line_leaves_no_trace(
    state: AppStateView,
    policy: RestartView,
    before: Seq<(Seq<char>, u64)>,
    dropped: (Seq<char>, u64),
    after: Seq<(Seq<char>, u64)>,
)
    requires
        !(line_outcome(dropped.0) is Message),
    ensures
        after_lines(state, policy, before + seq![dropped] + after) == after_lines(
            state,
            policy,
            before + after,
        ),
    decreases after.len(),
{
    let with = before + seq![dropped] + after;
    let without = before + after;
    if after.len() == 0 {
        assert(with.drop_last() =~= before);
    } else {
        let rest = after.drop_last();
        assert(with.drop_last() =~= before + seq![dropped] + rest);
        assert(without.drop_last() =~= before + rest);
        lemma_dropped_line_leaves_no_trace(state, policy, before, dropped, rest);
    }
}

/// A line of more than a mebibyte is dropped, whatever it holds.
pub proof fn lemma_long_line_is_dropped(line: Seq<char>)
    requires
        byte_len(line) > MAX_LINE_BYTES,
    ensures
        !(line_outcome(line) is Message),
{
}

/// A status of `connected` starts the count of restarts over, and the delay
/// before the next restart is the initial delay again.
pub proof fn lemma_connected_resets_backoff(
    policy: RestartView,
    detail: Option<Seq<char>>,
    backoff: BackoffPolicy,
)
    requires
        backoff.wf(),
    ensures
        restart_after_message(
            policy,
            MessageView::Status { state: STATUS_CONNECTED@, message: detail },
        ).count == 0,
        backoff.delay_after(
            restart_after_message(
                policy,
                MessageView::Status { state: STATUS_CONNECTED@, message: detail },
            ).count,
        ) == backoff.initial_ms,
{
    lemma_delay_starts_at_initial(backoff);
}

/// Stopping twice is stopping once: the second `stop` hands nothing out and
/// leaves the record as the first left it, and after either no worker counts
/// as alive, whatever a look at the process shows.
pub proof fn lemma_stop_is_idempotent(manager: ManagerView, probe: Probe)
    ensures
        stop_of(stop_of(manager).0) == (stop_of(manager).0, StopPlan::Nothing),
        !alive(stop_of(manager).0, probe),
        !alive(stop_of(stop_of(manager).0).0, probe),
{
}

} // verus!
