//! The process supervisor: tracks at most one client process and applies the
//! restart policy when it exits.
//!
//! The supervisor performs no I/O itself: the driver polls the process it
//! tracks, hands the observation to `advance`, and carries out the action
//! returned (launching a replacement, or terminating the old process first).
use vstd::prelude::*;
use crate::types::RestartPolicy;

verus! {

/// What polling the tracked process showed.
#[derive(Clone, Copy, Debug, PartialEq, Eq, Structural)]
pub enum ChildStatus {
    Running,
    /// It exited, cleanly or not.
    Exited(bool),
}

/// What the supervisor reports to its caller.
#[derive(Clone, Copy, Debug, PartialEq, Eq, Structural)]
pub enum SupervisorPoll {
    Pending,
    /// A run finished (or nothing is tracked), with whether it was a success.
    Produced(bool),
}

/// What the driver has to do with the processes.
#[derive(Clone, Copy, Debug, PartialEq, Eq, Structural)]
pub enum SupervisorAction {
    Keep,
    /// Launch a replacement; terminate and reap the previous process first
    /// when it is still running.
    Launch { terminate_previous: bool },
    /// Terminate and reap the tracked process.
    Terminate,
}

/// One launched process: which launch it came from, and its exit once seen.
#[derive(Clone, Copy, Debug, PartialEq, Eq, Structural)]
pub struct TrackedProcess {
    pub generation: u64,
    pub exit: Option<bool>,
}

pub open spec fn next_generation(g: u64) -> u64 {
    if g == u64::MAX {
        0
    } else {
        (g + 1) as u64
    }
}

/// One call of `advance`: the new tracked process, the report and the action.
pub open spec fn advance_spec(
    process: Option<TrackedProcess>,
    policy: RestartPolicy,
    status: ChildStatus,
) -> (Option<TrackedProcess>, SupervisorPoll, SupervisorAction) {
    match process {
        None => (None, SupervisorPoll::Produced(true), SupervisorAction::Keep),
        Some(t) => match t.exit {
            Some(ok) => (process, SupervisorPoll::Produced(ok), SupervisorAction::Keep),
            None => match status {
                ChildStatus::Running => (process, SupervisorPoll::Pending, SupervisorAction::Keep),
                ChildStatus::Exited(ok) => match policy {
                    RestartPolicy::No => (
                        Some(TrackedProcess { generation: t.generation, exit: Some(ok) }),
                        SupervisorPoll::Produced(ok),
                        SupervisorAction::Keep,
                    ),
                    _ => (
                        Some(
                            TrackedProcess { generation: next_generation(t.generation), exit: None },
                        ),
                        SupervisorPoll::Produced(ok),
                        SupervisorAction::Launch { terminate_previous: false },
                    ),
                },
            },
        },
    }
}

pub open spec fn is_running(process: Option<TrackedProcess>) -> bool {
    process matches Some(t) && t.exit is None
}

/// Supervises the client process.
pub struct Service {
    restart_policy: RestartPolicy,
    process: Option<TrackedProcess>,
}

impl Service {
    pub closed spec fn policy(&self) -> RestartPolicy {
        self.restart_policy
    }

    pub closed spec fn current(&self) -> Option<TrackedProcess> {
        self.process
    }

    /// A supervisor around a process that the caller has just launched.
    pub fn new(restart_policy: RestartPolicy) -> (r: Service)
        ensures
            r.policy() == restart_policy,
            r.current() == Some(TrackedProcess { generation: 0, exit: None }),
    {
        Service { restart_policy, process: Some(TrackedProcess { generation: 0, exit: None }) }
    }

    pub fn current_process(&self) -> (r: Option<TrackedProcess>)
        ensures
            r == self.current(),
    {
        self.process
    }

    /// Replaces the tracked process by a fresh launch, whatever the policy.
    pub fn restart(&mut self) -> (a: SupervisorAction)
        ensures
            final(self).policy() == old(self).policy(),
            a == (SupervisorAction::Launch { terminate_previous: is_running(old(self).current()) }),
            final(self).current() == Some(
                TrackedProcess {
                    generation: match old(self).current() {
                        Some(t) => next_generation(t.generation),
                        None => 0,
                    },
                    exit: None,
                },
            ),
    {
        let (generation, running) = match self.process {
            Some(t) => (if t.generation == u64::MAX {
                0
            } else {
                t.generation + 1
            }, t.exit.is_none()),
            None => (0, false),
        };
        self.process = Some(TrackedProcess { generation, exit: None });
        SupervisorAction::Launch { terminate_previous: running }
    }

    /// Stops tracking the process, terminating it when it still runs.
    pub fn stop(&mut self) -> (a: SupervisorAction)
        ensures
            final(self).policy() == old(self).policy(),
            final(self).current() is None,
            a == (if is_running(old(self).current()) {
                SupervisorAction::Terminate
            } else {
                SupervisorAction::Keep
            }),
    {
        let running = match self.process {
            Some(t) => t.exit.is_none(),
            None => false,
        };
        self.process = None;
        if running {
            SupervisorAction::Terminate
        } else {
            SupervisorAction::Keep
        }
    }

    /// Takes what polling the tracked process showed and applies the policy.
    pub fn advance(&mut self, status: ChildStatus) -> (r: (SupervisorPoll, SupervisorAction))
        ensures
            final(self).policy() == old(self).policy(),
            (final(self).current(), r.0, r.1) == advance_spec(
                old(self).current(),
                old(self).policy(),
                status,
            ),
    {
        match self.process {
            None => (SupervisorPoll::Produced(true), SupervisorAction::Keep),
            Some(t) => match t.exit {
                Some(ok) => (SupervisorPoll::Produced(ok), SupervisorAction::Keep),
                None => match status {
                    ChildStatus::Running => (SupervisorPoll::Pending, SupervisorAction::Keep),
                    ChildStatus::Exited(ok) => match self.restart_policy {
                        RestartPolicy::No => {
                            self.process = Some(
                                TrackedProcess { generation: t.generation, exit: Some(ok) },
                            );
                            (SupervisorPoll::Produced(ok), SupervisorAction::Keep)
                        },
                        _ => {
                            self.restart();
                            (
                                SupervisorPoll::Produced(ok),
                                SupervisorAction::Launch { terminate_previous: false },
                            )
                        },
                    },
                },
            },
        }
    }
}

/// Under the policy `No`, once the tracked process has exited every later
/// call reports that same outcome again, keeps the exited process and asks
/// for no launch, whatever the observation.
pub proof fn law_no_restart_repeats_outcome(t: TrackedProcess, ok: bool, status: ChildStatus)
    requires
        t.exit == Some(ok),
    ensures
        advance_spec(Some(t), RestartPolicy::No, status) == (
            Some(t),
            SupervisorPoll::Produced(ok),
            SupervisorAction::Keep,
        ),
{
}

/// Under `Always` or `OnFailure`, the call that reports an exit has already
/// asked for the replacement and tracks it as a new, running process.
pub proof fn law_restart_before_report(t: TrackedProcess, policy: RestartPolicy, ok: bool)
    requires
        t.exit is None,
        policy != RestartPolicy::No,
    ensures
        ({
            let (p, poll, action) = advance_spec(Some(t), policy, ChildStatus::Exited(ok));
            &&& poll == SupervisorPoll::Produced(ok)
            &&& action == (SupervisorAction::Launch { terminate_previous: false })
            &&& is_running(p)
            &&& p.unwrap().generation != t.generation
        }),
{
}

} // verus!
