use esrc_cqrs::error::{convert_store_error, from_esrc_error, Error, StoreError};

#[test]
fn from_esrc_error_keeps_each_variant() {
    assert_eq!(from_esrc_error(StoreError::Internal("io".to_string())), Error::Internal("io".to_string()));
    assert_eq!(from_esrc_error(StoreError::Format("bad".to_string())), Error::Format("bad".to_string()));
    assert_eq!(from_esrc_error(StoreError::Invalid), Error::Invalid);
    assert_eq!(from_esrc_error(StoreError::Conflict), Error::Conflict);
}

fn external(message: &str, serialized: Option<&str>) -> StoreError {
    StoreError::External { message: message.to_string(), serialized: serialized.map(|s| s.to_string()) }
}

#[test]
fn from_esrc_error_carries_the_serialized_domain_error() {
    let e = from_esrc_error(external("forced failure for testing", Some("\"ForcedFailure\"")));
    assert_eq!(e, Error::External("\"ForcedFailure\"".to_string()));
    assert_eq!(e.downcast_external::<String>(), Some("ForcedFailure".to_string()));
}

#[test]
fn from_esrc_error_falls_back_to_the_display_text_as_json_string() {
    let e = from_esrc_error(external("forced failure for testing", None));
    assert_eq!(e, Error::External("\"forced failure for testing\"".to_string()));
    let quoted = from_esrc_error(external("say \"hi\"\\", None));
    assert_eq!(quoted, Error::External("\"say \\\"hi\\\"\\\\\"".to_string()));
    let controls = from_esrc_error(external("a\nb\tc\u{1}\u{1f}\u{8}\u{c}\r\u{7f}é", None));
    assert_eq!(controls, Error::External("\"a\\nb\\tc\\u0001\\u001f\\b\\f\\r\u{7f}é\"".to_string()));
}

#[test]
fn convert_store_error_prefers_typed_external() {
    let typed = convert_store_error(
        external("forced failure for testing", None),
        Some("\"ForcedFailure\"".to_string()),
    );
    assert_eq!(typed, Error::External("\"ForcedFailure\"".to_string()));
    let untyped = convert_store_error(external("oops", None), None);
    assert_eq!(untyped, Error::External("\"oops\"".to_string()));
    let serialized = convert_store_error(external("oops", Some("{\"code\":1}")), None);
    assert_eq!(serialized, Error::External("{\"code\":1}".to_string()));
    let other = convert_store_error(StoreError::Conflict, Some("\"ignored\"".to_string()));
    assert_eq!(other, Error::Conflict);
}

#[test]
fn downcast_external_recovers_typed_error() {
    let e = Error::External("\"ForcedFailure\"".to_string());
    assert_eq!(e.downcast_external::<String>(), Some("ForcedFailure".to_string()));
    let n = Error::External("{\"code\":7}".to_string());
    assert_eq!(n.downcast_external::<std::collections::BTreeMap<String, u32>>().map(|m| m["code"]), Some(7));
}

#[test]
fn downcast_external_is_none_for_other_variants() {
    assert_eq!(Error::Internal("x".to_string()).downcast_external::<String>(), None);
    assert_eq!(Error::Format("x".to_string()).downcast_external::<String>(), None);
    assert_eq!(Error::Invalid.downcast_external::<String>(), None);
    assert_eq!(Error::Conflict.downcast_external::<String>(), None);
}

#[test]
fn error_messages() {
    assert_eq!(Error::Internal("boom".to_string()).message(), "internal error: boom");
    assert_eq!(Error::External("\"x\"".to_string()).message(), "external error: \"x\"");
    assert_eq!(Error::Format("eof".to_string()).message(), "bad envelope format: eof");
    assert_eq!(Error::Invalid.message(), "consumed invalid event in stream");
    assert_eq!(Error::Conflict.message(), "event transaction failed");
}
