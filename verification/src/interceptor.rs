//! The presigning interceptor: two hooks that steer the signing step.

use vstd::prelude::*;
use crate::body::{SignableBody, SignableBodyView};
use crate::config::PresigningConfig;
use crate::error::PresigningError;
use crate::settings::HeaderSerializationSettings;
use crate::signing::{presign_update, SignaturePlacement};
use crate::store::{ConfigBag, ConfigEntry, ConfigEntryView, ConfigKey};

verus! {

/// The header-serialization settings the before-serialization hook installs:
/// no default `Content-Length`, no default `Content-Type`. A presigned
/// request must not assume a body is attached by the eventual caller, so no
/// body-derived header may be injected at serialization time.
pub open spec fn presigning_header_settings() -> HeaderSerializationSettings {
    HeaderSerializationSettings { omit_default_content_length: true, omit_default_content_type: true }
}

/// The effect of the before-serialization hook on the store: the
/// header-serialization settings are overwritten with
/// [`presigning_header_settings`], whatever they were before.
pub open spec fn before_serialization_effect(
    m: Map<ConfigKey, ConfigEntryView>,
) -> Map<ConfigKey, ConfigEntryView> {
    m.insert(
        ConfigKey::HeaderSettings,
        ConfigEntryView::HeaderSettings(presigning_header_settings()),
    )
}

/// The effect of the before-signing hook on a store that already holds a
/// signing config: that config is overwritten with its presigned edit (see
/// [`presign_update`]); nothing else changes.
pub open spec fn before_signing_effect(
    m: Map<ConfigKey, ConfigEntryView>,
    expires: u64,
    payload: SignableBodyView,
) -> Map<ConfigKey, ConfigEntryView>
    recommends
        m.contains_key(ConfigKey::SigningConfig),
        m[ConfigKey::SigningConfig] is SigningConfig,
{
    m.insert(
        ConfigKey::SigningConfig,
        ConfigEntryView::SigningConfig(
            presign_update(m[ConfigKey::SigningConfig]->SigningConfig_0, expires, payload),
        ),
    )
}

/// Hook object invoked synchronously by the host pipeline at two fixed
/// extension points of one request's processing. It rewrites shared per-call
/// configuration so that the eventual signing step produces a
/// query-parameter-embedded, time-bounded signature instead of a normal
/// header-based one. All other extension points are no-ops for it.
///
/// The interceptor holds no mutable state: it is constructed once per
/// presign operation and only read afterward.
#[derive(Debug)]
pub struct PresigningInterceptor {
    config: PresigningConfig,
    payload_override: SignableBody,
}

impl PresigningInterceptor {
    /// The presigning configuration captured at construction.
    pub closed spec fn config_spec(&self) -> PresigningConfig {
        self.config
    }

    /// The payload description captured at construction, which the signature
    /// will be computed over.
    pub closed spec fn payload_spec(&self) -> SignableBodyView {
        self.payload_override@
    }

    pub fn new(config: PresigningConfig, payload_override: SignableBody) -> (i: Self)
        ensures
            i.config_spec() == config,
            i.payload_spec() == payload_override@,
    {
        PresigningInterceptor { config, payload_override }
    }

    /// The before-serialization hook. It unconditionally overwrites the
    /// header-serialization settings so that neither a default
    /// `Content-Length` nor a default `Content-Type` header is emitted,
    /// regardless of what the settings were before. It always succeeds.
    pub fn modify_before_serialization(&self, cfg: &mut ConfigBag) -> (r: Result<
        (),
        PresigningError,
    >)
        ensures
            r is Ok,
            final(cfg)@ == before_serialization_effect(old(cfg)@),
    {
        cfg.store_put(
            ConfigEntry::HeaderSettings(
                HeaderSerializationSettings::new()
                    .omit_default_content_length()
                    .omit_default_content_type(),
            ),
        );
        Ok(())
    }

    /// The before-signing hook. It expects the upstream signing-setup stage
    /// to have placed a signing config in the store; it then overwrites that
    /// entry with a copy whose expiry is the configured one, whose signature
    /// placement is query-parameter-based and whose payload override is the
    /// captured payload description, preserving every other field. If no
    /// signing config is present, the pipeline was assembled wrongly: the
    /// hook reports the fatal error and leaves the store untouched.
    pub fn modify_before_signing(&self, cfg: &mut ConfigBag) -> (r: Result<(), PresigningError>)
        ensures
            old(cfg)@.contains_key(ConfigKey::SigningConfig) ==> {
                &&& old(cfg)@[ConfigKey::SigningConfig] is SigningConfig
                &&& r is Ok
                &&& final(cfg)@ == before_signing_effect(
                    old(cfg)@,
                    self.config_spec().spec_expires(),
                    self.payload_spec(),
                )
            },
            !old(cfg)@.contains_key(ConfigKey::SigningConfig) ==> {
                &&& r matches Err(e) && e == PresigningError::MissingSigningConfig
                &&& *final(cfg) == *old(cfg)
            },
    {
        let loaded: Option<crate::signing::SigningOperationConfig> = match cfg.load(
            ConfigKey::SigningConfig,
        ) {
            Some(ConfigEntry::SigningConfig(c)) => Some(c.dup()),
            Some(_) => {
                proof {
                    assert(false);
                }
                None
            },
            None => None,
        };
        match loaded {
            Some(mut signing_config) => {
                signing_config.expires_in = Some(self.config.expires());
                signing_config.signature_placement = SignaturePlacement::QueryParams;
                signing_config.payload_override = Some(self.payload_override.dup());
                cfg.store_put(ConfigEntry::SigningConfig(signing_config));
                Ok(())
            },
            None => Err(PresigningError::MissingSigningConfig),
        }
    }
}

/// Running the two hooks in their fixed order against a store that already
/// holds a signing config leaves a signing config whose signature placement
/// is query-parameter-based, whose expiry is the configured one and whose
/// payload override is the captured payload description, with every other
/// field preserved from the prior config; and the header-serialization
/// settings installed by the first hook still stand.
pub proof fn lemma_hooks_establish_presigned_config(
    m: Map<ConfigKey, ConfigEntryView>,
    expires: u64,
    payload: SignableBodyView,
)
    requires
        m.contains_key(ConfigKey::SigningConfig),
        m[ConfigKey::SigningConfig] is SigningConfig,
    ensures
        ({
            let prior = m[ConfigKey::SigningConfig]->SigningConfig_0;
            let after = before_signing_effect(before_serialization_effect(m), expires, payload);
            &&& after.contains_key(ConfigKey::SigningConfig)
            &&& after[ConfigKey::SigningConfig] is SigningConfig
            &&& ({
                let result = after[ConfigKey::SigningConfig]->SigningConfig_0;
                &&& result.signature_placement == SignaturePlacement::QueryParams
                &&& result.expires_in == Some(expires)
                &&& result.payload_override == Some(payload)
                &&& result.region == prior.region
                &&& result.service == prior.service
                &&& result.double_uri_encode == prior.double_uri_encode
            })
            &&& after.contains_key(ConfigKey::HeaderSettings)
            &&& after[ConfigKey::HeaderSettings] == ConfigEntryView::HeaderSettings(
                presigning_header_settings(),
            )
            &&& forall|k: ConfigKey|
                #![auto]
                m.contains_key(k) && k != ConfigKey::SigningConfig && k != ConfigKey::HeaderSettings
                    ==> after.contains_key(k) && after[k] == m[k]
        }),
{
}

} // verus!
