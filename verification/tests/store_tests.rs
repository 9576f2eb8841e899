use presigning::settings::HeaderSerializationSettings;
use presigning::signing::{SignaturePlacement, SigningOperationConfig};
use presigning::store::{
    disable_interceptor, ConfigBag, ConfigEntry, ConfigKey, DisableInterceptor, InterceptorId,
    Layer,
};

fn settings_entry(omit_len: bool, omit_type: bool) -> ConfigEntry {
    ConfigEntry::HeaderSettings(HeaderSerializationSettings {
        omit_default_content_length: omit_len,
        omit_default_content_type: omit_type,
    })
}

fn signing_entry(region: &str) -> ConfigEntry {
    ConfigEntry::SigningConfig(SigningOperationConfig {
        region: String::from(region),
        service: String::from("s3"),
        double_uri_encode: true,
        expires_in: None,
        signature_placement: SignaturePlacement::Headers,
        payload_override: None,
    })
}

#[test]
fn empty_layer_holds_nothing() {
    let layer = Layer::new("fresh");
    assert_eq!(layer.name(), "fresh");
    assert!(layer.get(ConfigKey::HeaderSettings).is_none());
    assert!(layer.get(ConfigKey::SigningConfig).is_none());
    assert!(layer.get(ConfigKey::Disabled(InterceptorId::UserAgent)).is_none());
}

#[test]
fn latest_write_wins_within_a_layer() {
    let mut layer = Layer::new("writes");
    layer.store_put(settings_entry(false, false));
    layer.store_put(settings_entry(true, false));
    layer.store_put(settings_entry(true, true));
    match layer.get(ConfigKey::HeaderSettings) {
        Some(e) => assert_eq!(*e, settings_entry(true, true)),
        None => panic!("expected the settings entry"),
    }
}

#[test]
fn entries_of_different_types_do_not_shadow_each_other() {
    let mut layer = Layer::new("mixed");
    layer.store_put(settings_entry(true, false));
    layer.store_put(signing_entry("us-east-1"));
    layer.store_put(disable_interceptor(InterceptorId::UserAgent, "quiet"));
    assert_eq!(
        layer.get(ConfigKey::HeaderSettings),
        Some(&settings_entry(true, false))
    );
    assert_eq!(
        layer.get(ConfigKey::SigningConfig),
        Some(&signing_entry("us-east-1"))
    );
    assert_eq!(
        layer.get(ConfigKey::Disabled(InterceptorId::UserAgent)),
        Some(&disable_interceptor(InterceptorId::UserAgent, "quiet"))
    );
    assert!(layer.get(ConfigKey::Disabled(InterceptorId::RequestInfo)).is_none());
}

#[test]
fn disabled_markers_are_indexed_by_target() {
    let marker = disable_interceptor(InterceptorId::RequestInfo, "presigning");
    assert_eq!(marker.key(), ConfigKey::Disabled(InterceptorId::RequestInfo));
    assert_eq!(
        marker,
        ConfigEntry::Disabled(DisableInterceptor {
            target: InterceptorId::RequestInfo,
            reason: String::from("presigning"),
        })
    );
}

#[test]
fn freezing_preserves_contents_and_name() {
    let mut layer = Layer::new("snapshot");
    layer.store_put(settings_entry(true, true));
    let frozen = layer.freeze();
    assert_eq!(frozen.name(), "snapshot");
    assert_eq!(
        frozen.get(ConfigKey::HeaderSettings),
        Some(&settings_entry(true, true))
    );
    assert!(frozen.get(ConfigKey::SigningConfig).is_none());
}

#[test]
fn store_reads_fall_through_to_merged_layers() {
    let mut layer = Layer::new("defaults");
    layer.store_put(signing_entry("ap-south-1"));
    let mut bag = ConfigBag::new();
    bag.push_layer(layer.freeze());
    assert_eq!(
        bag.load(ConfigKey::SigningConfig),
        Some(&signing_entry("ap-south-1"))
    );
    assert!(bag.load(ConfigKey::HeaderSettings).is_none());
}

#[test]
fn top_layer_writes_shadow_merged_layers() {
    let mut layer = Layer::new("defaults");
    layer.store_put(signing_entry("ap-south-1"));
    let mut bag = ConfigBag::new();
    bag.push_layer(layer.freeze());
    bag.store_put(signing_entry("eu-central-1"));
    assert_eq!(
        bag.load(ConfigKey::SigningConfig),
        Some(&signing_entry("eu-central-1"))
    );
}

#[test]
fn later_merged_layer_shadows_earlier_one() {
    let mut first = Layer::new("first");
    first.store_put(signing_entry("us-west-2"));
    first.store_put(settings_entry(false, true));
    let mut second = Layer::new("second");
    second.store_put(signing_entry("sa-east-1"));

    let mut bag = ConfigBag::new();
    bag.push_layer(first.freeze());
    bag.push_layer(second.freeze());

    // The later layer wins where both wrote; the earlier one still answers
    // for what only it wrote.
    assert_eq!(
        bag.load(ConfigKey::SigningConfig),
        Some(&signing_entry("sa-east-1"))
    );
    assert_eq!(
        bag.load(ConfigKey::HeaderSettings),
        Some(&settings_entry(false, true))
    );
}

#[test]
fn typed_reads_see_the_latest_values() {
    let mut plugin_layer = Layer::new("plugin");
    plugin_layer.store_put(disable_interceptor(InterceptorId::InvocationId, "presigning"));

    let mut bag = ConfigBag::new();
    bag.push_layer(plugin_layer.freeze());
    bag.store_put(signing_entry("ca-central-1"));
    bag.store_put(settings_entry(true, true));

    let settings = bag.header_settings().expect("settings were written");
    assert!(settings.omit_default_content_length && settings.omit_default_content_type);

    let signing = bag.signing_config().expect("a signing config was written");
    assert_eq!(signing.region, "ca-central-1");

    let marker = bag
        .interceptor_disabled(InterceptorId::InvocationId)
        .expect("the plugin layer disabled it");
    assert_eq!(marker.target, InterceptorId::InvocationId);
    assert_eq!(marker.reason, "presigning");

    assert!(bag.interceptor_disabled(InterceptorId::UserAgent).is_none());
}

#[test]
fn empty_store_answers_nothing() {
    let bag = ConfigBag::new();
    assert!(bag.load(ConfigKey::HeaderSettings).is_none());
    assert!(bag.load(ConfigKey::SigningConfig).is_none());
    assert!(bag.load(ConfigKey::Disabled(InterceptorId::InvocationId)).is_none());
}
