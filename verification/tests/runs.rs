use agent_bridge::configuration::RunConfiguration;
use agent_bridge::id::{RunId, SessionId, SlotId};
use agent_bridge::model::ContextManifest;
use agent_bridge::run::{Run, RunEvent, RunSpec, RunStatus};

fn run() -> Run {
    Run::new(RunSpec {
        id: RunId::new("r".to_owned()).unwrap(),
        session_id: SessionId::new("s".to_owned()).unwrap(),
        slot_id: SlotId::new("slot".to_owned()).unwrap(),
        context: ContextManifest::default(),
        config: RunConfiguration::default(),
        continuation: None,
    })
}

#[test]
fn a_run_goes_from_the_queue_to_its_end() {
    let mut run = run();
    assert_eq!(run.status(), RunStatus::Queued);
    assert_eq!(run.apply(RunEvent::DispatchStarted), Ok(RunStatus::Starting));
    assert_eq!(run.apply(RunEvent::Started), Ok(RunStatus::Running));
    assert_eq!(run.apply(RunEvent::CancellationRequested), Ok(RunStatus::Cancelling));
    assert!(run.cancellation_requested());
    assert_eq!(run.apply(RunEvent::CancellationConfirmed), Ok(RunStatus::Cancelled));
    assert!(run.status().is_terminal());
}

#[test]
fn a_run_that_ended_stays_as_it_is() {
    let mut run = run();
    run.apply(RunEvent::DispatchStarted).unwrap();
    run.apply(RunEvent::Started).unwrap();
    run.apply(RunEvent::Completed).unwrap();
    let error = run.apply(RunEvent::Failed).unwrap_err();
    assert_eq!(error.status, RunStatus::Completed);
    assert_eq!(error.event, RunEvent::Failed);
    assert_eq!(run.status(), RunStatus::Completed);
    assert_eq!(error.to_string(), "cannot apply Failed to a Completed run");
}

#[test]
fn a_lost_connection_leaves_the_outcome_open() {
    let mut run = run();
    run.apply(RunEvent::DispatchStarted).unwrap();
    run.apply(RunEvent::Started).unwrap();
    assert_eq!(run.apply(RunEvent::ConnectionLost), Ok(RunStatus::Unknown));
    assert!(!run.status().is_terminal());
    assert_eq!(run.apply(RunEvent::RecoveredRunning), Ok(RunStatus::Running));
}

#[test]
fn a_queued_run_cannot_complete() {
    let mut run = run();
    assert!(run.apply(RunEvent::Completed).is_err());
    assert_eq!(run.status(), RunStatus::Queued);
    assert_eq!(run.spec().id.as_str(), "r");
}
