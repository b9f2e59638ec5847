use hyvolex_paradigm::config::HyvoGridConfig;
use hyvolex_paradigm::err::{ComponentError, Error, ErrorExt, ErrorManager, ResourceError};

#[test]
fn new_manager_is_empty() {
    let m = ErrorManager::default();
    assert!(!m.has_errors());
    assert!(m.get_errors().is_empty());
}

#[test]
fn reported_errors_are_kept_in_order() {
    let mut m = ErrorManager::default();
    m.report_error(Error::custom("first"));
    m.report_with_recovery(
        Error::Resource(ResourceError::LoadFailed("Materials initialized".to_string())),
        "Using default materials",
    );
    assert!(m.has_errors());
    let errors = m.get_errors();
    assert_eq!(errors.len(), 2);
    assert!(matches!(&errors[0], Error::Custom(s) if s == "first"));
    assert!(matches!(&errors[1], Error::Resource(ResourceError::LoadFailed(s)) if s == "Materials initialized"));
    // Reading the errors leaves them in place.
    assert_eq!(m.get_errors().len(), 2);
}

#[test]
fn clear_forgets_errors() {
    let mut m = ErrorManager::default();
    m.report_error(Error::custom("gone"));
    m.clear();
    assert!(!m.has_errors());
    assert!(m.get_errors().is_empty());
}

#[test]
fn ok_results_pass_through() {
    let mut m = ErrorManager::default();
    let r: Result<u32, Error> = Ok(7);
    assert_eq!(r.log_to_manager(&mut m), Some(7));
    assert!(!m.has_errors());
}

#[test]
fn err_results_are_reported() {
    let mut m = ErrorManager::default();
    let r: Result<u32, Error> =
        Err(Error::Component(ComponentError::InvalidState("Magnetic field strength must be positive".to_string())));
    assert_eq!(r.log_to_manager(&mut m), None);
    let errors = m.get_errors();
    assert_eq!(errors.len(), 1);
    assert!(matches!(&errors[0], Error::Component(ComponentError::InvalidState(_))));
}

#[test]
fn custom_error_keeps_message() {
    assert!(matches!(Error::custom("Particle emitter lifetime must be positive"),
        Error::Custom(s) if s == "Particle emitter lifetime must be positive"));
}

#[test]
fn default_config_enables_everything() {
    let c = HyvoGridConfig::default();
    assert!(c.enable_hanabi && c.enable_tweening && c.enable_outline && c.enable_camera);
    assert!(c.validate().is_ok());
    let off = HyvoGridConfig { enable_hanabi: false, enable_tweening: false, enable_outline: false, enable_camera: false };
    assert!(off.validate().is_ok());
}
