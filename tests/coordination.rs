use bootnode_sidecar::coordinator::{Outcome, Service};
use bootnode_sidecar::registration::{self, Action, Progress, State};
use bootnode_sidecar::supervisor::{self, ChildStatus, SupervisorAction, TrackedProcess};
use bootnode_sidecar::types::{EthereumProgram, NodeType, RestartPolicy};

fn coordinator(policy: RestartPolicy) -> Service {
    let bootnode = registration::Service::new(
        "net".to_string(),
        EthereumProgram::Parity,
        NodeType::Transactor { miner_count: 1, sealer_mnemonic: String::new() },
        "reg".to_string(),
        80,
        "1.1.1.1".to_string(),
        "http://127.0.0.1:8545/".to_string(),
    );
    Service::new(supervisor::Service::new(policy), bootnode)
}

#[test]
fn construction_queues_one_trigger() {
    let c = coordinator(RestartPolicy::No);
    assert_eq!(c.pending_triggers(), 1);
    assert_eq!(c.registration_state(), State::Idle);
}

#[test]
fn first_step_starts_registration() {
    let mut c = coordinator(RestartPolicy::No);
    let step = c.advance(ChildStatus::Running, Progress::Nothing);
    assert_eq!(step.outcome, Outcome::Pending);
    assert!(matches!(step.registration, Some(Action::Fetch(_))));
    assert_eq!(c.registration_state(), State::FetchingEthereumNodeUrl);
}

#[test]
fn tick_queues_a_trigger() {
    let mut c = coordinator(RestartPolicy::No);
    c.tick();
    assert_eq!(c.pending_triggers(), 2);
}

#[test]
fn process_exit_ends_the_loop_mid_cycle() {
    let mut c = coordinator(RestartPolicy::No);
    c.advance(ChildStatus::Running, Progress::Nothing);
    assert_eq!(c.registration_state(), State::FetchingEthereumNodeUrl);
    let step = c.advance(ChildStatus::Exited(false), Progress::Nothing);
    assert_eq!(step.outcome, Outcome::Done);
    assert!(step.registration.is_none());
    assert_eq!(step.process, SupervisorAction::Keep);
    assert_eq!(c.registration_state(), State::FetchingEthereumNodeUrl);
}

#[test]
fn exit_under_always_relaunches_and_ends() {
    let mut c = coordinator(RestartPolicy::Always);
    let step = c.advance(ChildStatus::Exited(true), Progress::Nothing);
    assert_eq!(step.outcome, Outcome::Done);
    assert_eq!(step.process, SupervisorAction::Launch { terminate_previous: false });
    assert_eq!(c.current_process(), Some(TrackedProcess { generation: 1, exit: None }));
    assert_eq!(c.pending_triggers(), 1);
}
