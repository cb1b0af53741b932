use vad::errors::VadError;
use vad::registry::DetectorRegistry;

#[test]
fn handles_are_issued_in_order() {
    let mut reg = DetectorRegistry::new();
    assert_eq!(reg.create(8000, 0), Ok(0));
    assert_eq!(reg.create(16000, 1), Ok(1));
    assert_eq!(reg.create(48000, 3), Ok(2));
}

#[test]
fn create_propagates_config_errors() {
    let mut reg = DetectorRegistry::new();
    assert_eq!(reg.create(22050, 0), Err(VadError::ConfigError));
    // The failed creation issued no handle.
    assert_eq!(reg.create(8000, 0), Ok(0));
}

#[test]
fn never_issued_handles_are_rejected() {
    let mut reg = DetectorRegistry::new();
    assert_eq!(reg.classify(0, &vec![0i16; 160]), Err(VadError::StateError));
    assert_eq!(reg.reset(5), Err(VadError::StateError));
    assert_eq!(reg.set_mode(1, 2), Err(VadError::StateError));
    assert_eq!(reg.set_sample_rate(7, 8000), Err(VadError::StateError));
    assert_eq!(reg.close(0), Err(VadError::StateError));
}

#[test]
fn every_operation_on_a_destroyed_handle_fails_with_state_error() {
    let mut reg = DetectorRegistry::new();
    let h = reg.create(16000, 0).unwrap();
    assert!(reg.classify(h, &vec![0i16; 320]).is_ok());
    assert_eq!(reg.close(h), Ok(()));

    assert_eq!(reg.classify(h, &vec![0i16; 320]), Err(VadError::StateError));
    assert_eq!(reg.reset(h), Err(VadError::StateError));
    assert_eq!(reg.set_mode(h, 2), Err(VadError::StateError));
    assert_eq!(reg.set_sample_rate(h, 8000), Err(VadError::StateError));
    // Double destruction is rejected, never silently tolerated.
    assert_eq!(reg.close(h), Err(VadError::StateError));
}

#[test]
fn closing_one_handle_leaves_others_alive() {
    let mut reg = DetectorRegistry::new();
    let a = reg.create(8000, 0).unwrap();
    let b = reg.create(16000, 0).unwrap();
    assert_eq!(reg.close(a), Ok(()));
    assert!(reg.classify(b, &vec![0i16; 160]).is_ok());
    // A fresh handle never reuses the dead slot.
    let c = reg.create(32000, 0).unwrap();
    assert_ne!(c, a);
    assert_eq!(reg.classify(a, &vec![0i16; 80]), Err(VadError::StateError));
}

#[test]
fn registry_operations_mirror_the_detector_contract() {
    let mut reg = DetectorRegistry::new();
    let h = reg.create(16000, 9).unwrap();
    // The out-of-range mode fell back to quality.
    assert_eq!(reg.set_sample_rate(h, 44100), Err(VadError::ConfigError));
    assert_eq!(reg.classify(h, &vec![0i16; 100]), Err(VadError::FrameError));
    assert_eq!(reg.set_mode(h, 3), Ok(()));
    assert_eq!(reg.set_sample_rate(h, 8000), Ok(()));
    assert_eq!(reg.reset(h), Ok(()));
    assert!(reg.classify(h, &vec![0i16; 240]).is_ok());
}
