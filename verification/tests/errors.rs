use russimp::utils::get_model;
use russimp::RussimpError;

#[test]
fn import_renders_its_message_verbatim() {
    let error = RussimpError::Import("bad file".into());
    assert_eq!(error.message(), "bad file");
}

#[test]
fn texture_not_found_renders_the_placeholder() {
    let error = RussimpError::TextureNotFound;
    assert_eq!(error.message(), "unknown error");
}

#[test]
fn message_bearing_variants_other_than_import_render_the_placeholder() {
    assert_eq!(RussimpError::MetadataError("meta".into()).message(), "unknown error");
    assert_eq!(RussimpError::MaterialError("material".into()).message(), "unknown error");
    assert_eq!(RussimpError::Primitive("primitive".into()).message(), "unknown error");
}

#[test]
fn utf8_failure_becomes_primitive_with_decoder_message() {
    let bytes: [u8; 2] = [0x00, 0xFF];
    let failure = std::str::from_utf8(&bytes).unwrap_err();
    let error = RussimpError::from_utf8_error(&failure);
    match error {
        RussimpError::Primitive(message) => assert_eq!(message, failure.to_string()),
        other => panic!("expected a primitive error, got {:?}", other),
    }
}

#[test]
fn model_path_joins_against_a_root() {
    assert_eq!(get_model(Some("workspace"), "models/box.obj"), "workspace/models/box.obj");
}

#[test]
fn model_path_without_a_root_is_unchanged() {
    assert_eq!(get_model(None, "models/box.obj"), "models/box.obj");
}
