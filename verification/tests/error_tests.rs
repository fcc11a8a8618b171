use devstackbox::effect::Observation;
use devstackbox::error::{ErrorKind, SupervisorError};

#[test]
fn error_keeps_kind_and_message() {
    let error = SupervisorError::new(ErrorKind::LaunchError, "could not start".to_string());
    assert_eq!(error.kind(), ErrorKind::LaunchError);
    assert_eq!(error.describe(), "could not start");
    assert_eq!(error.kind, ErrorKind::LaunchError);
    assert_eq!(error.message, "could not start");
}

#[test]
fn environment_error_carries_the_detail() {
    let error = SupervisorError::environment("No such file or directory (os error 2)");
    assert_eq!(error.kind(), ErrorKind::EnvironmentError);
    assert_eq!(error.describe(), "No such file or directory (os error 2)");
}

#[test]
fn observation_detail() {
    assert_eq!(Observation::Failed("denied".to_string()).detail(), "denied");
    assert_eq!(Observation::Done.detail(), "");
    assert_eq!(Observation::Present(true).detail(), "");
    assert_eq!(Observation::Spawned(3).detail(), "");
    assert_eq!(Observation::Text("text".to_string()).detail(), "");
}

#[test]
fn observation_kinds() {
    assert!(Observation::Present(true).affirms());
    assert!(!Observation::Present(false).affirms());
    assert!(!Observation::Done.affirms());
    assert!(Observation::Present(false).denies());
    assert!(!Observation::Present(true).denies());
    assert!(!Observation::Failed(String::new()).denies());
    assert!(Observation::Done.is_done());
    assert!(!Observation::Present(true).is_done());
    assert!(!Observation::Text(String::new()).is_done());
}
