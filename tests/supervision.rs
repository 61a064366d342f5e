use bootnode_sidecar::supervisor::{
    ChildStatus, Service, SupervisorAction, SupervisorPoll, TrackedProcess,
};
use bootnode_sidecar::types::RestartPolicy;

#[test]
fn running_process_is_pending() {
    let mut s = Service::new(RestartPolicy::Always);
    assert_eq!(s.advance(ChildStatus::Running), (SupervisorPoll::Pending, SupervisorAction::Keep));
    assert_eq!(s.current_process(), Some(TrackedProcess { generation: 0, exit: None }));
}

#[test]
fn no_restart_repeats_the_outcome() {
    let mut s = Service::new(RestartPolicy::No);
    assert_eq!(
        s.advance(ChildStatus::Exited(false)),
        (SupervisorPoll::Produced(false), SupervisorAction::Keep)
    );
    for status in [ChildStatus::Running, ChildStatus::Exited(true), ChildStatus::Exited(false)] {
        assert_eq!(s.advance(status), (SupervisorPoll::Produced(false), SupervisorAction::Keep));
        assert_eq!(s.current_process(), Some(TrackedProcess { generation: 0, exit: Some(false) }));
    }
}

#[test]
fn always_relaunches_before_reporting() {
    let mut s = Service::new(RestartPolicy::Always);
    assert_eq!(
        s.advance(ChildStatus::Exited(true)),
        (SupervisorPoll::Produced(true), SupervisorAction::Launch { terminate_previous: false })
    );
    assert_eq!(s.current_process(), Some(TrackedProcess { generation: 1, exit: None }));
    assert_eq!(s.advance(ChildStatus::Running), (SupervisorPoll::Pending, SupervisorAction::Keep));
}

#[test]
fn on_failure_relaunches_before_reporting() {
    let mut s = Service::new(RestartPolicy::OnFailure);
    assert_eq!(
        s.advance(ChildStatus::Exited(false)),
        (SupervisorPoll::Produced(false), SupervisorAction::Launch { terminate_previous: false })
    );
    assert_eq!(s.current_process(), Some(TrackedProcess { generation: 1, exit: None }));
}

#[test]
fn restart_terminates_a_running_process() {
    let mut s = Service::new(RestartPolicy::No);
    assert_eq!(s.restart(), SupervisorAction::Launch { terminate_previous: true });
    assert_eq!(s.current_process(), Some(TrackedProcess { generation: 1, exit: None }));
    s.advance(ChildStatus::Exited(true));
    assert_eq!(s.restart(), SupervisorAction::Launch { terminate_previous: false });
    assert_eq!(s.current_process(), Some(TrackedProcess { generation: 2, exit: None }));
}

#[test]
fn nothing_to_supervise_is_steady_success() {
    let mut s = Service::new(RestartPolicy::Always);
    assert_eq!(s.stop(), SupervisorAction::Terminate);
    assert_eq!(s.current_process(), None);
    assert_eq!(s.stop(), SupervisorAction::Keep);
    assert_eq!(
        s.advance(ChildStatus::Exited(false)),
        (SupervisorPoll::Produced(true), SupervisorAction::Keep)
    );
}
