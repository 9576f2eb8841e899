//! Flags controlling which default headers the serializer emits.

use vstd::prelude::*;

verus! {

/// Flags read by the serializer: whether the default `Content-Length` and
/// `Content-Type` headers are suppressed. The presigning interceptor replaces
/// this entry wholesale so that no body-derived header is injected into a
/// request whose body the eventual caller attaches.
#[derive(Debug, Clone, Copy, PartialEq, Eq, Structural)]
pub struct HeaderSerializationSettings {
    /// Do not emit a default `Content-Length` header.
    pub omit_default_content_length: bool,
    /// Do not emit a default `Content-Type` header.
    pub omit_default_content_type: bool,
}

impl HeaderSerializationSettings {
    /// Settings that leave every default header in place.
    pub fn new() -> (s: Self)
        ensures
            s == (HeaderSerializationSettings {
                omit_default_content_length: false,
                omit_default_content_type: false,
            }),
    {
        HeaderSerializationSettings {
            omit_default_content_length: false,
            omit_default_content_type: false,
        }
    }

    /// The same settings, additionally suppressing the default
    /// `Content-Length` header.
    pub fn omit_default_content_length(self) -> (s: Self)
        ensures
            s == (HeaderSerializationSettings { omit_default_content_length: true, ..self }),
    {
        HeaderSerializationSettings { omit_default_content_length: true, ..self }
    }

    /// The same settings, additionally suppressing the default
    /// `Content-Type` header.
    pub fn omit_default_content_type(self) -> (s: Self)
        ensures
            s == (HeaderSerializationSettings { omit_default_content_type: true, ..self }),
    {
        HeaderSerializationSettings { omit_default_content_type: true, ..self }
    }
}

} // verus!
