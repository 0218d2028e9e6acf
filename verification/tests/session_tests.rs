use harmonizer::compose::composition_result;
use harmonizer::plan::planning_result;
use harmonizer::plan::PlanningError;
use harmonizer::session::BridgeFault;
use harmonizer::session::BridgeOutcome;
use harmonizer::session::HostAction;
use harmonizer::session::Session;

fn drive_to_triggered(s: &mut Session) {
    assert_eq!(s.pending_action(), Some(HostAction::InstallCapabilities));
    s.step_ok();
    assert_eq!(s.pending_action(), Some(HostAction::RunBootstrap));
    s.step_ok();
    assert_eq!(s.pending_action(), Some(HostAction::LoadModule));
    s.step_ok();
    assert_eq!(s.pending_action(), Some(HostAction::InjectInput));
    s.step_ok();
    assert_eq!(s.pending_action(), Some(HostAction::RunDriver));
    s.step_ok();
    assert_eq!(s.pending_action(), Some(HostAction::TakeResult));
}

#[test]
fn a_fault_free_session_delivers_the_payloads_value() {
    let mut s = Session::new();
    drive_to_triggered(&mut s);
    s.resolve(Some(String::from("{\"data\":\"the sdl\"}")));
    assert_eq!(s.pending_action(), Some(HostAction::ReleaseEnvironment));
    s.close();
    assert_eq!(s.pending_action(), None);
    match s.into_outcome() {
        Some(BridgeOutcome::Success(v)) => assert_eq!(v, "the sdl"),
        _ => panic!("expected a success outcome"),
    }
}

#[test]
fn a_bootstrap_fault_closes_as_a_construction_failure() {
    let mut s = Session::new();
    s.step_ok();
    assert_eq!(s.pending_action(), Some(HostAction::RunBootstrap));
    s.step_faulted();
    assert_eq!(s.pending_action(), None);
    match s.into_outcome() {
        Some(BridgeOutcome::Fault(f)) => {
            assert_eq!(f, BridgeFault::Construction(HostAction::RunBootstrap))
        },
        _ => panic!("expected a construction fault"),
    }
}

#[test]
fn a_driver_fault_closes_as_an_execution_fault() {
    let mut s = Session::new();
    s.step_ok();
    s.step_ok();
    s.step_ok();
    s.step_ok();
    assert_eq!(s.pending_action(), Some(HostAction::RunDriver));
    s.step_faulted();
    match s.into_outcome() {
        Some(BridgeOutcome::Fault(f)) => assert_eq!(f, BridgeFault::ExecutionFault),
        _ => panic!("expected an execution fault"),
    }
}

#[test]
fn a_missing_delivery_is_its_own_fault() {
    let mut s = Session::new();
    drive_to_triggered(&mut s);
    s.resolve(None);
    s.close();
    match s.into_outcome() {
        Some(BridgeOutcome::Fault(f)) => assert_eq!(f, BridgeFault::NoResultDelivered),
        _ => panic!("expected a missing-delivery fault"),
    }
}

#[test]
fn an_undecodable_delivery_is_a_contract_violation() {
    let mut s = Session::new();
    drive_to_triggered(&mut s);
    s.resolve(Some(String::from("Garbage")));
    s.close();
    match s.into_outcome() {
        Some(BridgeOutcome::Fault(f)) => assert_eq!(f, BridgeFault::ContractViolation),
        _ => panic!("expected a contract violation"),
    }
}

#[test]
fn invalid_schema_surfaces_as_the_planners_error_list() {
    let mut s = Session::new();
    drive_to_triggered(&mut s);
    s.resolve(Some(String::from(
        "{\"errors\":[{\"message\":\"Syntax Error: Unexpected Name \\\"Garbage\\\".\",\"extensions\":null}]}",
    )));
    s.close();
    let outcome = s.into_outcome().expect("a closed session holds an outcome");
    let expected = vec![PlanningError {
        message: Some(String::from("Syntax Error: Unexpected Name \"Garbage\".")),
        extensions: None,
    }];
    match planning_result(outcome) {
        Ok(Err(errors)) => {
            assert_eq!(errors, expected);
            assert_eq!(errors[0].code(), "UNKNOWN");
        },
        _ => panic!("expected a planning error list"),
    }
}

#[test]
fn a_success_outcome_becomes_the_composers_sdl() {
    let mut s = Session::new();
    drive_to_triggered(&mut s);
    s.resolve(Some(String::from("{\"data\":\"merged schema\"}")));
    s.close();
    let outcome = s.into_outcome().expect("a closed session holds an outcome");
    match composition_result(outcome) {
        Ok(Ok(sdl)) => assert_eq!(sdl, "merged schema"),
        _ => panic!("expected a composed schema"),
    }
}

#[test]
fn identical_sessions_with_identical_payloads_agree() {
    let payload = "{\"data\":\"stable output\"}";
    let mut a = Session::new();
    drive_to_triggered(&mut a);
    a.resolve(Some(String::from(payload)));
    a.close();
    let mut b = Session::new();
    drive_to_triggered(&mut b);
    b.resolve(Some(String::from(payload)));
    b.close();
    match (a.into_outcome(), b.into_outcome()) {
        (Some(BridgeOutcome::Success(x)), Some(BridgeOutcome::Success(y))) => assert_eq!(x, y),
        _ => panic!("expected two success outcomes"),
    }
}
