use scanmap::orchestrator::{AttemptError, Directive, Orchestrator, UploadEvent, UploadState};

fn fresh() -> Orchestrator {
    Orchestrator::new(String::from("folder-123"))
}

#[test]
fn successful_attempt_appends_one_scan() {
    let mut orch = fresh();
    let d1 = orch.step_at(
        UploadEvent::Trigger { file_name: Some(String::from("photo.jpg")) },
        7,
    );
    assert!(matches!(d1, Directive::AcquireLocation));
    assert_eq!(orch.status, "Uploading...");
    assert_eq!(orch.registry.len(), 0);

    let d2 = orch.step_at(
        UploadEvent::LocationOutcome { coords: Some((19_076_000, 72_877_700)) },
        1_700_000_000,
    );
    match d2 {
        Directive::Dispatch { request } => {
            assert_eq!(request.object_name, "photo.jpg_1700000000");
            assert_eq!(
                request.metadata_json,
                "{\"name\":\"photo.jpg_1700000000\",\"parents\":[\"folder-123\"],\
                 \"properties\":{\"lat\":\"19.076\",\"lon\":\"72.8777\"}}"
            );
        }
        _ => panic!("location success must dispatch the upload"),
    }
    assert_eq!(orch.registry.len(), 0);

    let d3 = orch.step_at(
        UploadEvent::UploadOutcome { object_id: Some(String::from("abc123")) },
        8,
    );
    assert!(matches!(d3, Directive::NoAction));
    assert_eq!(orch.status, "Uploaded: photo.jpg");
    assert_eq!(orch.registry.len(), 1);
    let scan = orch.registry.get(0);
    assert_eq!(scan.id, "abc123");
    assert_eq!(scan.name, "photo.jpg");
    assert_eq!(scan.lat_micro, 19_076_000);
    assert_eq!(scan.lon_micro, 72_877_700);
    assert!(matches!(orch.state, UploadState::Succeeded { .. }));
}

#[test]
fn no_file_selected_does_nothing() {
    let mut orch = fresh();
    let d = orch.step_at(UploadEvent::Trigger { file_name: None }, 7);
    assert!(matches!(d, Directive::NoAction));
    assert_eq!(orch.status, "Pick a file first!");
    assert_eq!(orch.registry.len(), 0);
    assert!(matches!(orch.state, UploadState::NoFileSelected));
}

#[test]
fn location_failure_never_uploads() {
    let mut orch = fresh();
    let d1 = orch.step_at(
        UploadEvent::Trigger { file_name: Some(String::from("clip.mp4")) },
        7,
    );
    assert!(matches!(d1, Directive::AcquireLocation));
    let d2 = orch.step_at(UploadEvent::LocationOutcome { coords: None }, 8);
    assert!(matches!(d2, Directive::NoAction));
    assert_eq!(orch.status, "Enable location for geo-tagging");
    assert_eq!(orch.registry.len(), 0);
    assert!(matches!(
        orch.state,
        UploadState::Failed { error: AttemptError::LocationUnavailable }
    ));
}

#[test]
fn upload_failure_appends_nothing() {
    let mut orch = fresh();
    orch.step_at(
        UploadEvent::Trigger { file_name: Some(String::from("photo.jpg")) },
        7,
    );
    orch.step_at(
        UploadEvent::LocationOutcome { coords: Some((1_000_000, 2_000_000)) },
        7,
    );
    let d = orch.step_at(UploadEvent::UploadOutcome { object_id: None }, 7);
    assert!(matches!(d, Directive::NoAction));
    assert_eq!(orch.status, "Upload failed");
    assert_eq!(orch.registry.len(), 0);
    assert!(matches!(
        orch.state,
        UploadState::Failed { error: AttemptError::UploadFailed }
    ));
}

#[test]
fn stray_outcomes_are_ignored() {
    let mut orch = fresh();
    let d1 = orch.step_at(
        UploadEvent::LocationOutcome { coords: Some((1_000_000, 2_000_000)) },
        7,
    );
    assert!(matches!(d1, Directive::NoAction));
    assert!(matches!(orch.state, UploadState::Idle));
    assert_eq!(orch.status, "");

    let d2 = orch.step_at(
        UploadEvent::UploadOutcome { object_id: Some(String::from("zzz")) },
        7,
    );
    assert!(matches!(d2, Directive::NoAction));
    assert_eq!(orch.registry.len(), 0);
    assert!(matches!(orch.state, UploadState::Idle));
}

#[test]
fn second_attempt_starts_fresh() {
    let mut orch = fresh();
    orch.step_at(UploadEvent::Trigger { file_name: None }, 7);
    assert_eq!(orch.status, "Pick a file first!");
    let d = orch.step_at(
        UploadEvent::Trigger { file_name: Some(String::from("next.jpg")) },
        7,
    );
    assert!(matches!(d, Directive::AcquireLocation));
    assert_eq!(orch.status, "Uploading...");
    assert!(matches!(orch.state, UploadState::AwaitingLocation { .. }));
}

#[test]
fn new_attempt_keeps_earlier_scans() {
    let mut orch = fresh();
    orch.step_at(
        UploadEvent::Trigger { file_name: Some(String::from("photo.jpg")) },
        1,
    );
    orch.step_at(
        UploadEvent::LocationOutcome { coords: Some((19_076_000, 72_877_700)) },
        2,
    );
    orch.step_at(
        UploadEvent::UploadOutcome { object_id: Some(String::from("abc123")) },
        3,
    );
    assert_eq!(orch.registry.len(), 1);

    let d = orch.step_at(
        UploadEvent::Trigger { file_name: Some(String::from("next.jpg")) },
        4,
    );
    assert!(matches!(d, Directive::AcquireLocation));
    assert_eq!(orch.registry.len(), 1);
    assert_eq!(orch.registry.get(0).id, "abc123");
    orch.step_at(UploadEvent::LocationOutcome { coords: None }, 5);
    assert_eq!(orch.registry.len(), 1);
    assert_eq!(orch.status, "Enable location for geo-tagging");
}

#[test]
fn clock_step_behaves_like_explicit_timestamp() {
    let mut orch = fresh();
    let d = orch.step(UploadEvent::Trigger { file_name: None });
    assert!(matches!(d, Directive::NoAction));
    assert_eq!(orch.status, "Pick a file first!");
    assert_eq!(orch.registry.len(), 0);

    let d2 = orch.step(UploadEvent::Trigger { file_name: Some(String::from("a.jpg")) });
    assert!(matches!(d2, Directive::AcquireLocation));
    let d3 = orch.step(UploadEvent::LocationOutcome { coords: Some((0, 0)) });
    match d3 {
        Directive::Dispatch { request } => {
            assert!(request.object_name.starts_with("a.jpg_"));
        }
        _ => panic!("location success must dispatch the upload"),
    }
}
