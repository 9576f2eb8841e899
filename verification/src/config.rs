//! The immutable per-operation presigning configuration.

use vstd::prelude::*;

verus! {

/// Configuration for one presign operation: the instant the signature's
/// validity window is anchored at, and how long the produced request stays
/// valid. Both are counted in seconds (the anchor in seconds since an epoch).
///
/// The value is immutable after construction and its expiry is always
/// positive.
#[derive(Debug, Clone, Copy, PartialEq, Eq, Structural)]
pub struct PresigningConfig {
    start_time: u64,
    expires: u64,
}

impl PresigningConfig {
    /// The instant the validity window starts at.
    pub closed spec fn spec_start_time(&self) -> u64 {
        self.start_time
    }

    /// How long the presigned request stays valid.
    pub closed spec fn spec_expires(&self) -> u64 {
        self.expires
    }

    /// The configuration's invariant: a presigned request is valid for a
    /// positive length of time.
    pub open spec fn wf(&self) -> bool {
        self.spec_expires() > 0
    }

    pub fn new(start_time: u64, expires: u64) -> (c: Self)
        requires
            expires > 0,
        ensures
            c.spec_start_time() == start_time,
            c.spec_expires() == expires,
            c.wf(),
    {
        PresigningConfig { start_time, expires }
    }

    pub fn start_time(&self) -> (t: u64)
        ensures
            t == self.spec_start_time(),
    {
        self.start_time
    }

    pub fn expires(&self) -> (d: u64)
        ensures
            d == self.spec_expires(),
    {
        self.expires
    }
}

} // verus!
