//! The per-operation signing configuration the presigning hooks edit.

use vstd::prelude::*;
use crate::body::{SignableBody, SignableBodyView};

verus! {

/// Where the computed signature is carried.
#[derive(Debug, Clone, Copy, PartialEq, Eq, Structural)]
pub enum SignaturePlacement {
    /// The signature travels in request headers (a normal signed call).
    Headers,
    /// The signature travels in query parameters (a presigned request).
    QueryParams,
}

/// Mathematical view of a [`SigningOperationConfig`].
pub struct SigningConfigView {
    pub region: Seq<char>,
    pub service: Seq<char>,
    pub double_uri_encode: bool,
    pub expires_in: Option<u64>,
    pub signature_placement: SignaturePlacement,
    pub payload_override: Option<SignableBodyView>,
}

/// The signing-operation configuration: a mutable entry in the configuration
/// store, created by an upstream signing-setup stage and edited by the
/// before-signing hook. The hook only touches `expires_in`,
/// `signature_placement` and `payload_override`; everything else is carried
/// through from upstream untouched.
#[derive(Debug, Clone, PartialEq, Eq)]
pub struct SigningOperationConfig {
    /// The signing region, chosen upstream.
    pub region: String,
    /// The signing service name, chosen upstream.
    pub service: String,
    /// Whether URI paths are double-encoded when canonicalized, chosen
    /// upstream.
    pub double_uri_encode: bool,
    /// How long the signature stays valid, when bounded.
    pub expires_in: Option<u64>,
    /// Where the signature is carried.
    pub signature_placement: SignaturePlacement,
    /// When present, the payload description the signature is computed over
    /// instead of the request's actual body.
    pub payload_override: Option<SignableBody>,
}

impl View for SigningOperationConfig {
    type V = SigningConfigView;

    open spec fn view(&self) -> SigningConfigView {
        SigningConfigView {
            region: self.region@,
            service: self.service@,
            double_uri_encode: self.double_uri_encode,
            expires_in: self.expires_in,
            signature_placement: self.signature_placement,
            payload_override: match self.payload_override {
                Some(b) => Some(b@),
                None => None,
            },
        }
    }
}

impl SigningOperationConfig {
    /// A copy that describes the same signing operation.
    pub fn dup(&self) -> (r: Self)
        ensures
            r@ == self@,
    {
        SigningOperationConfig {
            region: self.region.clone(),
            service: self.service.clone(),
            double_uri_encode: self.double_uri_encode,
            expires_in: self.expires_in,
            signature_placement: self.signature_placement,
            payload_override: match &self.payload_override {
                Some(b) => Some(b.dup()),
                None => None,
            },
        }
    }
}

/// The edit the before-signing hook applies to an existing signing config:
/// the validity window is bounded by `expires`, the signature moves into
/// query parameters, and the signature is computed over `payload` instead of
/// the request's body. Every other field is carried through unchanged.
pub open spec fn presign_update(
    prior: SigningConfigView,
    expires: u64,
    payload: SignableBodyView,
) -> SigningConfigView {
    SigningConfigView {
        expires_in: Some(expires),
        signature_placement: SignaturePlacement::QueryParams,
        payload_override: Some(payload),
        ..prior
    }
}

} // verus!
