//! The value types of the lock service.

use vstd::prelude::*;

use crate::encode::b64url_of;
use crate::encode::base64_url_encode;

verus! {

/// A single lock name, carried in URL-safe base64.
#[derive(Debug, Clone, PartialEq, Eq)]
pub struct LockName {
    /// The encoded form, as it travels on the wire.
    pub inner: String,
}

impl LockName {
    /// Wrap a name that is already encoded.
    pub fn from_encoded(inner: String) -> (r: Self)
        ensures
            r.inner == inner,
    {
        LockName { inner }
    }

    /// Encode a raw name.
    pub fn from_unencoded(raw: &str) -> (r: Self)
        ensures
            r.inner@ == b64url_of(raw@),
    {
        LockName { inner: base64_url_encode(raw) }
    }

    /// The encoded form.
    pub fn encoded(&self) -> (r: &String)
        ensures
            r == &self.inner,
    {
        &self.inner
    }
}

/// An ID of one held lock instance, carried in URL-safe base64.
#[derive(Debug, Clone, PartialEq, Eq)]
pub struct LockID {
    /// The encoded form, as it travels on the wire.
    pub inner: String,
}

impl LockID {
    /// Wrap an ID that is already encoded.
    pub fn from_encoded(inner: String) -> (r: Self)
        ensures
            r.inner == inner,
    {
        LockID { inner }
    }

    /// Encode a raw ID.
    pub fn from_unencoded(raw: &str) -> (r: Self)
        ensures
            r.inner@ == b64url_of(raw@),
    {
        LockID { inner: base64_url_encode(raw) }
    }

    /// The encoded form.
    pub fn encoded(&self) -> (r: &String)
        ensures
            r == &self.inner,
    {
        &self.inner
    }
}

/// A lock that at some point was held by this client.
/// At any point this may have lapsed.
#[derive(Debug, Clone, PartialEq, Eq)]
pub struct HeldLock {
    pub name: LockName,
    pub id: LockID,
    pub sequencer: u32,
}

impl HeldLock {
    /// Get a reference to the held lock's name.
    pub fn name(&self) -> (r: &LockName)
        ensures
            r == &self.name,
    {
        &self.name
    }

    /// Get a reference to the held lock's ID.
    pub fn id(&self) -> (r: &LockID)
        ensures
            r == &self.id,
    {
        &self.id
    }

    /// Get the held lock's sequencer.
    pub fn sequencer(&self) -> (r: u32)
        ensures
            r == self.sequencer,
    {
        self.sequencer
    }

    /// Assemble a held lock from its parts.
    pub fn new(name: LockName, id: LockID, sequencer: u32) -> (r: HeldLock)
        ensures
            r == (HeldLock { name, id, sequencer }),
    {
        HeldLock { name, id, sequencer }
    }
}

/// The target of a request, representing a single lock.
#[non_exhaustive]
#[derive(Debug)]
pub enum RequestTarget {
    SingleLock(LockName),
    HeldLock(HeldLock),
}

/// Information about an existing held lock.
#[derive(Debug, Clone, PartialEq, Eq)]
pub struct LockInfo {
    pub name: LockName,
    pub id: LockID,
    pub info: LockInfoInner,
}

/// The server-reported details of a held lock.
#[derive(Debug, Clone, PartialEq, Eq)]
pub struct LockInfoInner {
    /// The remaining time to live, in seconds.
    pub ttl: u32,
    /// The holding client's self-reported identifier.
    pub client_id: String,
    /// The holding client's IP address.
    pub ip: String,
}

} // verus!
