//! What payload the signature is computed over.

use vstd::prelude::*;

verus! {

/// Mathematical view of a [`SignableBody`].
pub enum SignableBodyView {
    /// The signature covers these exact bytes.
    Bytes(Seq<u8>),
    /// The payload is deliberately not covered by the signature.
    UnsignedPayload,
    /// The signature covers a payload whose digest was computed elsewhere.
    Precomputed(Seq<char>),
    /// A streaming payload of unknown size, sent with trailers and not
    /// covered by the signature.
    StreamingUnsignedPayloadTrailer,
}

/// Describes what payload the signature should be computed over: the bytes
/// themselves, a marker that the payload is not covered, a precomputed
/// digest, or a streaming-with-trailers marker.
#[derive(Debug, Clone, PartialEq, Eq)]
pub enum SignableBody {
    /// The signature covers these exact bytes.
    Bytes(Vec<u8>),
    /// The payload is deliberately not covered by the signature.
    UnsignedPayload,
    /// The signature covers a payload whose digest was computed elsewhere.
    Precomputed(String),
    /// A streaming payload of unknown size, sent with trailers and not
    /// covered by the signature.
    StreamingUnsignedPayloadTrailer,
}

impl View for SignableBody {
    type V = SignableBodyView;

    open spec fn view(&self) -> SignableBodyView {
        match self {
            SignableBody::Bytes(b) => SignableBodyView::Bytes(b@),
            SignableBody::UnsignedPayload => SignableBodyView::UnsignedPayload,
            SignableBody::Precomputed(d) => SignableBodyView::Precomputed(d@),
            SignableBody::StreamingUnsignedPayloadTrailer => {
                SignableBodyView::StreamingUnsignedPayloadTrailer
            },
        }
    }
}

impl SignableBody {
    /// A copy that describes the same payload.
    pub fn dup(&self) -> (r: Self)
        ensures
            r@ == self@,
    {
        match self {
            SignableBody::Bytes(b) => SignableBody::Bytes(clone_bytes(b)),
            SignableBody::UnsignedPayload => SignableBody::UnsignedPayload,
            SignableBody::Precomputed(d) => SignableBody::Precomputed(d.clone()),
            SignableBody::StreamingUnsignedPayloadTrailer => {
                SignableBody::StreamingUnsignedPayloadTrailer
            },
        }
    }
}

fn clone_bytes(v: &Vec<u8>) -> (r: Vec<u8>)
    ensures
        r@ == v@,
{
    let mut out: Vec<u8> = Vec::new();
    let mut i: usize = 0;
    while i < v.len()
        invariant
            i <= v.len(),
            out@ == v@.take(i as int),
        decreases v.len() - i,
    {
        out.push(v[i]);
        i = i + 1;
        proof {
            assert(out@ =~= v@.take(i as int));
        }
    }
    proof {
        assert(out@ =~= v@);
    }
    out
}

} // verus!
