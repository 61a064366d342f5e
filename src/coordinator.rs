//! The coordinator: one driving step over the process supervisor and the
//! registration state machine, with the timer's ticks queued as triggers.
//!
//! The driver calls `advance` with what it observed; whenever the timer
//! fires it calls `tick` and advances again. It stops at the first `Done`.
use vstd::prelude::*;
use crate::registration::{self, Action, Progress, State};
use crate::supervisor::{
    self, advance_spec, ChildStatus, SupervisorAction, SupervisorPoll, TrackedProcess,
};

verus! {

#[derive(Clone, Copy, Debug, PartialEq, Eq, Structural)]
pub enum Outcome {
    Pending,
    /// The supervised run ended: the driver stops here.
    Done,
}

/// What one step asks of the driver.
pub struct Step {
    pub outcome: Outcome,
    pub process: SupervisorAction,
    /// The registration's action, when the registration was advanced.
    pub registration: Option<Action>,
}

pub struct Service {
    ethereum: supervisor::Service,
    bootnode: registration::Service,
}

impl Service {
    pub closed spec fn supervisor(&self) -> supervisor::Service {
        self.ethereum
    }

    pub closed spec fn registration(&self) -> registration::Service {
        self.bootnode
    }

    /// Composes the two services and queues one trigger at once, so that a
    /// first registration runs before the first tick.
    pub fn new(ethereum: supervisor::Service, bootnode: registration::Service) -> (r: Service)
        ensures
            r.supervisor() == ethereum,
            r.registration().state() == bootnode.state(),
            r.registration().client() == bootnode.client(),
            r.registration().same_setup(&bootnode),
            r.registration().pending() == if bootnode.can_queue() {
                bootnode.pending() + 1
            } else {
                bootnode.pending()
            },
    {
        let mut bootnode = bootnode;
        if bootnode.has_room() {
            bootnode.send_event();
        }
        Service { ethereum, bootnode }
    }

    pub fn registration_state(&self) -> (r: State)
        ensures
            r == self.registration().state(),
    {
        self.bootnode.current_state()
    }

    pub fn pending_triggers(&self) -> (r: u64)
        ensures
            r == self.registration().pending(),
    {
        self.bootnode.pending_events()
    }

    pub fn current_process(&self) -> (r: Option<TrackedProcess>)
        ensures
            r == self.supervisor().current(),
    {
        self.ethereum.current_process()
    }

    /// A timer tick: queues one registration trigger.
    pub fn tick(&mut self)
        ensures
            final(self).supervisor() == old(self).supervisor(),
            final(self).registration().state() == old(self).registration().state(),
            final(self).registration().client() == old(self).registration().client(),
            final(self).registration().same_setup(&old(self).registration()),
            final(self).registration().pending() == if old(self).registration().can_queue() {
                old(self).registration().pending() + 1
            } else {
                old(self).registration().pending()
            },
    {
        if self.bootnode.has_room() {
            self.bootnode.send_event();
        }
    }

    /// Checks the supervised process first: when its run ended the step is
    /// `Done` and the registration is left as it stands, mid-cycle or not.
    /// Otherwise the registration is advanced by `progress`.
    pub fn advance(&mut self, child: ChildStatus, progress: Progress) -> (r: Step)
        ensures
            ({
                let (p, poll, action) = advance_spec(
                    old(self).supervisor().current(),
                    old(self).supervisor().policy(),
                    child,
                );
                &&& final(self).supervisor().current() == p
                &&& final(self).supervisor().policy() == old(self).supervisor().policy()
                &&& r.process == action
                &&& poll is Produced ==> {
                    &&& r.outcome == Outcome::Done
                    &&& r.registration is None
                    &&& final(self).registration() == old(self).registration()
                }
                &&& poll is Pending ==> {
                    &&& r.outcome == Outcome::Pending
                    &&& r.registration matches Some(a) && registration::Service::advance_post(
                        old(self).registration(),
                        final(self).registration(),
                        progress,
                        a,
                    )
                }
            }),
    {
        let (poll, action) = self.ethereum.advance(child);
        match poll {
            SupervisorPoll::Produced(_) => {
                Step { outcome: Outcome::Done, process: action, registration: None }
            },
            SupervisorPoll::Pending => {
                let a = self.bootnode.advance(progress);
                Step { outcome: Outcome::Pending, process: action, registration: Some(a) }
            },
        }
    }
}

} // verus!
