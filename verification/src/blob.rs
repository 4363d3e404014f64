//! Blobs: a payload published under a namespace, with the commitment that
//! identifies it.

use vstd::prelude::*;
use vstd::slice::slice_to_vec;
use crate::namespace::{bytes_equal, is_v0_namespace, Namespace};

verus! {

/// The share commitment that `celestia_types::Blob::new` computes for a
/// payload under a namespace when no signer is given, or `None` where it
/// refuses the payload. It is a Merkle hash over the shares that the payload
/// is split into; this library reads it as a value and does not restate it.
pub uninterp spec fn share_commitment(namespace: Seq<u8>, data: Seq<u8>) -> Option<Seq<u8>>;

/// Calls `celestia_types::Blob::new` with no signer, after turning the 29
/// bytes back into a `celestia_types::nmt::Namespace`, and hands back the
/// hash of the commitment it computed. The contract names that outcome and
/// claims two things of it. The same namespace and payload give the same
/// commitment, or the same refusal, every time. And with no signer the call
/// refuses a payload on one ground only, that its length does not fit the
/// 32 bits in which the first share records it: a payload whose length
/// fits is never refused.
#[verifier::external_body]
fn commitment_bytes(namespace: &[u8], data: &[u8]) -> (r: Result<Vec<u8>, celestia_types::Error>)
    requires
        is_v0_namespace(namespace@),
    ensures
        r is Ok <==> share_commitment(namespace@, data@) is Some,
        r is Ok ==> Some(r->Ok_0@) == share_commitment(namespace@, data@),
        data@.len() <= u32::MAX ==> r is Ok,
{
    let ns = celestia_types::nmt::Namespace::from_raw(namespace)?;
    let blob = celestia_types::Blob::new(ns, data.to_vec(), None)?;
    Ok(blob.commitment.hash().to_vec())
}

/// Why no blob was made.
#[derive(Clone, Copy, Debug, PartialEq, Eq, Structural)]
pub enum BlobError {
    /// The payload was refused when its commitment was computed.
    Rejected,
}

/// A payload under a namespace, together with its commitment.
///
/// A blob made by [`Blob::new`] carries the commitment computed from its
/// namespace and payload. One made by [`Blob::from_parts`] carries whatever
/// commitment it was given: that is how a blob reported by a node is held.
#[derive(Debug, PartialEq, Eq)]
pub struct Blob {
    namespace: Namespace,
    data: Vec<u8>,
    commitment: Vec<u8>,
}

impl Blob {
    /// The bytes of the blob's namespace.
    pub closed spec fn spec_namespace(&self) -> Seq<u8> {
        self.namespace@
    }

    /// The payload.
    pub closed spec fn spec_data(&self) -> Seq<u8> {
        self.data@
    }

    /// The commitment held beside the payload.
    pub closed spec fn spec_commitment(&self) -> Seq<u8> {
        self.commitment@
    }

    /// The blob holds the commitment that belongs to its namespace and payload.
    pub open spec fn is_committed(&self) -> bool {
        share_commitment(self.spec_namespace(), self.spec_data()) == Some(self.spec_commitment())
    }

    /// Puts a blob together from its three parts as they are.
    pub fn from_parts(namespace: Namespace, data: Vec<u8>, commitment: Vec<u8>) -> (r: Blob)
        ensures
            r.spec_namespace() == namespace@,
            r.spec_data() == data@,
            r.spec_commitment() == commitment@,
    {
        Blob { namespace, data, commitment }
    }

    /// Makes the blob from the outcome of computing its commitment: the blob
    /// with that commitment, or the refusal where none was computed.
    pub fn from_outcome(namespace: Namespace, data: Vec<u8>, outcome: Option<Vec<u8>>) -> (r:
        Result<Blob, BlobError>)
        ensures
            match outcome {
                Some(c) => r is Ok && r->Ok_0.spec_namespace() == namespace@
                    && r->Ok_0.spec_data() == data@ && r->Ok_0.spec_commitment() == c@,
                None => r == Err::<Blob, BlobError>(BlobError::Rejected),
            },
    {
        match outcome {
            Some(commitment) => Ok(Blob::from_parts(namespace, data, commitment)),
            None => Err(BlobError::Rejected),
        }
    }

    /// Makes the blob of `data` under `namespace`, computing its commitment.
    /// The payload is refused exactly where no commitment exists for it,
    /// which is never so for a payload whose length fits 32 bits.
    pub fn new(namespace: Namespace, data: Vec<u8>) -> (r: Result<Blob, BlobError>)
        ensures
            data@.len() <= u32::MAX ==> r is Ok,
            match share_commitment(namespace@, data@) {
                Some(c) => r is Ok && r->Ok_0.spec_namespace() == namespace@
                    && r->Ok_0.spec_data() == data@ && r->Ok_0.spec_commitment() == c
                    && r->Ok_0.is_committed(),
                None => r == Err::<Blob, BlobError>(BlobError::Rejected),
            },
    {
        let outcome = match commitment_bytes(namespace.as_bytes(), data.as_slice()) {
            Ok(c) => Some(c),
            Err(_) => None,
        };
        Blob::from_outcome(namespace, data, outcome)
    }

    /// The namespace the blob was published under.
    pub fn namespace(&self) -> (r: &Namespace)
        ensures
            r@ == self.spec_namespace(),
    {
        &self.namespace
    }

    /// The payload.
    pub fn data(&self) -> (r: &[u8])
        ensures
            r@ == self.spec_data(),
    {
        self.data.as_slice()
    }

    /// The commitment.
    pub fn commitment(&self) -> (r: &[u8])
        ensures
            r@ == self.spec_commitment(),
    {
        self.commitment.as_slice()
    }

    /// Whether the payload is `data`.
    pub fn has_data(&self, data: &[u8]) -> (r: bool)
        ensures
            r == (self.spec_data() == data@),
    {
        bytes_equal(self.data.as_slice(), data)
    }

    /// Whether the commitment is `commitment`.
    pub fn has_commitment(&self, commitment: &[u8]) -> (r: bool)
        ensures
            r == (self.spec_commitment() == commitment@),
    {
        bytes_equal(self.commitment.as_slice(), commitment)
    }
}

impl Clone for Blob {
    /// A second value with the same namespace, payload and commitment.
    fn clone(&self) -> (r: Blob)
        ensures
            r.spec_namespace() == self.spec_namespace(),
            r.spec_data() == self.spec_data(),
            r.spec_commitment() == self.spec_commitment(),
    {
        Blob {
            namespace: self.namespace.clone(),
            data: slice_to_vec(self.data.as_slice()),
            commitment: slice_to_vec(self.commitment.as_slice()),
        }
    }
}

} // verus!
