use waycap_rs::types::error::WaycapError;

#[test]
fn every_variant_has_its_own_prefix() {
    let text = || String::from("boom");
    assert_eq!(WaycapError::FFmpeg(text()).message(), "FFmpeg error: boom");
    assert_eq!(WaycapError::Egl(text()).message(), "Egl Error: boom");
    assert_eq!(WaycapError::PipeWire(text()).message(), "PipeWire error: boom");
    assert_eq!(WaycapError::Portal(text()).message(), "XDG Portal error: boom");
    assert_eq!(WaycapError::Io(text()).message(), "I/O error: boom");
    assert_eq!(WaycapError::Init(text()).message(), "Initialization error: boom");
    assert_eq!(WaycapError::Config(text()).message(), "Configuration error: boom");
    assert_eq!(WaycapError::Stream(text()).message(), "Stream error: boom");
    assert_eq!(WaycapError::Encoding(text()).message(), "Encoding error: boom");
    assert_eq!(WaycapError::Device(text()).message(), "Device error: boom");
    assert_eq!(WaycapError::Validation(text()).message(), "Validation error: boom");
    assert_eq!(WaycapError::Other(text()).message(), "Error: boom");
    assert_eq!(WaycapError::Other(String::new()).message(), "Error: ");
}

#[test]
fn errors_are_made_from_text() {
    assert!(matches!(WaycapError::init("a"), WaycapError::Init(t) if t == "a"));
    assert!(matches!(WaycapError::config("b"), WaycapError::Config(t) if t == "b"));
    assert!(matches!(WaycapError::encoding("c"), WaycapError::Encoding(t) if t == "c"));
    assert!(matches!(WaycapError::validation("d"), WaycapError::Validation(t) if t == "d"));
    assert!(matches!(WaycapError::other("e"), WaycapError::Other(t) if t == "e"));
    let from_string: WaycapError = String::from("plain").into();
    assert!(matches!(from_string, WaycapError::Other(t) if t == "plain"));
    let from_call = WaycapError::from(String::from("x"));
    assert_eq!(from_call.message(), "Error: x");
}
