//! What the tasks of a worker share with the supervisor: the count of
//! restarts and the shutdown flag.

use vstd::prelude::*;

verus! {

/// View of [`RestartPolicy`].
pub struct RestartView {
    /// Restarts since the worker last confirmed a connection.
    pub count: nat,
    pub shutdown_requested: bool,
}

/// What the reader and restart tasks of one worker share with the supervisor:
/// the count of restarts and the shutdown flag. It holds nothing that tears a
/// worker down, so a task can use it while the supervisor stops.
///
/// No operation clears the shutdown flag once it is set.
#[derive(Clone, Copy, Debug, PartialEq, Eq)]
pub struct RestartPolicy {
    count: u32,
    shutdown_requested: bool,
}

impl View for RestartPolicy {
    type V = RestartView;

    closed spec fn view(&self) -> RestartView {
        RestartView { count: self.count as nat, shutdown_requested: self.shutdown_requested }
    }
}

/// What can happen to the restart bookkeeping.
#[derive(Clone, Copy, Debug, PartialEq, Eq, Structural)]
pub enum RestartEvent {
    /// The worker was started again.
    Restarted,
    /// The worker confirmed its connection.
    Connected,
    /// A shutdown was requested.
    ShutdownRequested,
}

/// The bookkeeping after an event: a restart is counted, up to `u32::MAX`;
/// a confirmed connection starts the count over; a shutdown, once requested,
/// stays requested.
pub open spec fn restart_after(policy: RestartView, event: RestartEvent) -> RestartView {
    match event {
        RestartEvent::Restarted => RestartView {
            count: if policy.count < u32::MAX {
                policy.count + 1
            } else {
                policy.count
            },
            ..policy
        },
        RestartEvent::Connected => RestartView { count: 0, ..policy },
        RestartEvent::ShutdownRequested => RestartView { shutdown_requested: true, ..policy },
    }
}

impl RestartPolicy {
    /// No restart counted, no shutdown requested.
    pub fn new() -> (policy: Self)
        ensures
            policy@ == (RestartView { count: 0, shutdown_requested: false }),
    {
        RestartPolicy { count: 0, shutdown_requested: false }
    }

    /// The restarts counted since the last confirmed connection.
    pub fn count(&self) -> (count: u32)
        ensures
            count == self@.count,
    {
        self.count
    }

    /// Whether a shutdown was requested.
    pub fn is_shutdown_requested(&self) -> (requested: bool)
        ensures
            requested == self@.shutdown_requested,
    {
        self.shutdown_requested
    }

    /// Requests the shutdown.
    pub fn request_shutdown(&mut self)
        ensures
            final(self)@ == restart_after(old(self)@, RestartEvent::ShutdownRequested),
    {
        self.shutdown_requested = true;
    }

    /// Counts one restart.
    pub fn record_restart(&mut self)
        ensures
            final(self)@ == restart_after(old(self)@, RestartEvent::Restarted),
    {
        if self.count < u32::MAX {
            self.count = self.count + 1;
        }
    }

    /// The worker confirmed its connection: the count starts over.
    pub fn confirm_connected(&mut self)
        ensures
            final(self)@ == restart_after(old(self)@, RestartEvent::Connected),
    {
        self.count = 0;
    }

    /// The policy that the tasks of a worker started now share: the same
    /// count, and no shutdown requested. Where a shutdown was requested of
    /// `self` it stays requested there, and the tasks of the earlier worker,
    /// which hold `self`, still see it.
    pub fn for_new_worker(&self) -> (policy: Self)
        ensures
            policy@ == (RestartView { shutdown_requested: false, ..self@ }),
    {
        RestartPolicy { count: self.count, shutdown_requested: false }
    }
}

/// No event clears a shutdown that was requested, and only a confirmed
/// connection brings the count of restarts down.
pub proof fn lemma_restart_bookkeeping(policy: RestartView, event: RestartEvent)
    ensures
        policy.shutdown_requested ==> restart_after(policy, event).shutdown_requested,
        restart_after(policy, event).count < policy.count ==> event == RestartEvent::Connected,
        event == RestartEvent::Connected ==> restart_after(policy, event).count == 0,
{
}

} // verus!
