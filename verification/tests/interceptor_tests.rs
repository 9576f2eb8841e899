use presigning::body::SignableBody;
use presigning::config::PresigningConfig;
use presigning::error::PresigningError;
use presigning::interceptor::PresigningInterceptor;
use presigning::settings::HeaderSerializationSettings;
use presigning::signing::{SignaturePlacement, SigningOperationConfig};
use presigning::store::{ConfigBag, ConfigEntry, ConfigKey};

fn upstream_signing_config() -> SigningOperationConfig {
    SigningOperationConfig {
        region: String::from("us-east-1"),
        service: String::from("s3"),
        double_uri_encode: true,
        expires_in: None,
        signature_placement: SignaturePlacement::Headers,
        payload_override: None,
    }
}

#[test]
fn both_hooks_produce_presigned_config() {
    // expires = 300, start_time = T0, payload_override = unsigned-marker,
    // prior config {expiry: None, placement: header-based, payload_override:
    // None, other fields: X}.
    let t0: u64 = 1_700_000_000;
    let config = PresigningConfig::new(t0, 300);
    let interceptor = PresigningInterceptor::new(config, SignableBody::UnsignedPayload);

    let mut bag = ConfigBag::new();
    bag.store_put(ConfigEntry::SigningConfig(upstream_signing_config()));

    assert!(interceptor.modify_before_serialization(&mut bag).is_ok());
    assert!(interceptor.modify_before_signing(&mut bag).is_ok());

    let expected = SigningOperationConfig {
        region: String::from("us-east-1"),
        service: String::from("s3"),
        double_uri_encode: true,
        expires_in: Some(300),
        signature_placement: SignaturePlacement::QueryParams,
        payload_override: Some(SignableBody::UnsignedPayload),
    };
    match bag.load(ConfigKey::SigningConfig) {
        Some(ConfigEntry::SigningConfig(c)) => assert_eq!(*c, expected),
        other => panic!("expected a signing config, got {:?}", other),
    }
}

#[test]
fn before_signing_keeps_bytes_payload() {
    let config = PresigningConfig::new(7, 60);
    let payload = SignableBody::Bytes(vec![1, 2, 3, 250]);
    let interceptor = PresigningInterceptor::new(config, payload.clone());

    let mut bag = ConfigBag::new();
    bag.store_put(ConfigEntry::SigningConfig(upstream_signing_config()));
    assert!(interceptor.modify_before_signing(&mut bag).is_ok());

    match bag.load(ConfigKey::SigningConfig) {
        Some(ConfigEntry::SigningConfig(c)) => {
            assert_eq!(c.payload_override, Some(payload));
            assert_eq!(c.expires_in, Some(60));
            assert_eq!(c.signature_placement, SignaturePlacement::QueryParams);
        }
        other => panic!("expected a signing config, got {:?}", other),
    }
}

#[test]
fn before_serialization_omits_default_headers() {
    let config = PresigningConfig::new(0, 1);
    let interceptor = PresigningInterceptor::new(config, SignableBody::UnsignedPayload);

    // The prior settings keep every default header; the hook must overwrite
    // them wholesale.
    let mut bag = ConfigBag::new();
    bag.store_put(ConfigEntry::HeaderSettings(HeaderSerializationSettings::new()));

    assert!(interceptor.modify_before_serialization(&mut bag).is_ok());

    match bag.load(ConfigKey::HeaderSettings) {
        Some(ConfigEntry::HeaderSettings(s)) => {
            assert!(s.omit_default_content_length);
            assert!(s.omit_default_content_type);
        }
        other => panic!("expected header settings, got {:?}", other),
    }
}

#[test]
fn before_serialization_writes_settings_into_empty_store() {
    let config = PresigningConfig::new(12, 9);
    let interceptor = PresigningInterceptor::new(config, SignableBody::StreamingUnsignedPayloadTrailer);
    let mut bag = ConfigBag::new();
    assert!(interceptor.modify_before_serialization(&mut bag).is_ok());
    let expected = HeaderSerializationSettings::new()
        .omit_default_content_length()
        .omit_default_content_type();
    match bag.load(ConfigKey::HeaderSettings) {
        Some(ConfigEntry::HeaderSettings(s)) => assert_eq!(*s, expected),
        other => panic!("expected header settings, got {:?}", other),
    }
}

#[test]
fn before_signing_without_config_fails_and_changes_nothing() {
    let config = PresigningConfig::new(55, 300);
    let interceptor = PresigningInterceptor::new(config, SignableBody::UnsignedPayload);

    let mut bag = ConfigBag::new();
    bag.store_put(ConfigEntry::HeaderSettings(HeaderSerializationSettings::new()));

    let result = interceptor.modify_before_signing(&mut bag);
    assert_eq!(result, Err(PresigningError::MissingSigningConfig));

    // The store is left as it was: no signing config appeared, and the
    // unrelated entry is untouched.
    assert!(bag.load(ConfigKey::SigningConfig).is_none());
    match bag.load(ConfigKey::HeaderSettings) {
        Some(ConfigEntry::HeaderSettings(s)) => {
            assert_eq!(*s, HeaderSerializationSettings::new())
        }
        other => panic!("expected header settings, got {:?}", other),
    }
}

#[test]
fn missing_config_error_message_names_the_prerequisite() {
    let message = PresigningError::MissingSigningConfig.message();
    assert_eq!(
        message,
        "presigning requires a signing operation config to be present in the configuration store"
    );
}

#[test]
fn hooks_preserve_unrelated_upstream_fields() {
    let config = PresigningConfig::new(3, 86_400);
    let digest = SignableBody::Precomputed(String::from("feedface"));
    let interceptor = PresigningInterceptor::new(config, digest.clone());

    let mut bag = ConfigBag::new();
    let mut upstream = upstream_signing_config();
    upstream.region = String::from("eu-west-2");
    upstream.service = String::from("dynamodb");
    upstream.double_uri_encode = false;
    bag.store_put(ConfigEntry::SigningConfig(upstream));

    assert!(interceptor.modify_before_serialization(&mut bag).is_ok());
    assert!(interceptor.modify_before_signing(&mut bag).is_ok());

    match bag.load(ConfigKey::SigningConfig) {
        Some(ConfigEntry::SigningConfig(c)) => {
            assert_eq!(c.region, "eu-west-2");
            assert_eq!(c.service, "dynamodb");
            assert!(!c.double_uri_encode);
            assert_eq!(c.expires_in, Some(86_400));
            assert_eq!(c.signature_placement, SignaturePlacement::QueryParams);
            assert_eq!(c.payload_override, Some(digest));
        }
        other => panic!("expected a signing config, got {:?}", other),
    }
}
