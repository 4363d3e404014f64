//! Namespace identifiers: one version byte followed by a 28-byte id.

use vstd::prelude::*;
use vstd::slice::{slice_subrange, slice_to_vec};

verus! {

/// Length in bytes of a namespace id.
pub const NS_ID_SIZE: usize = 28;

/// Length in bytes of a whole namespace: the version byte and the id.
pub const NS_SIZE: usize = 29;

/// Longest user-chosen suffix of a version-0 id.
pub const NS_ID_V0_SIZE: usize = 10;

/// Number of leading zero bytes in every version-0 id.
pub const NS_V0_PREFIX_SIZE: usize = 18;

/// Why an id was refused as a version-0 namespace id.
#[derive(Clone, Copy, Debug, PartialEq, Eq, Structural)]
pub enum NamespaceError {
    /// The id is neither at most 10 bytes nor exactly 28 bytes long.
    InvalidSize,
    /// The id is 28 bytes long and one of its first 18 bytes is not zero.
    InvalidPrefix,
}

/// The error type of the `celestia-types` crate, carried through unread.
#[verifier::external_type_specification]
#[verifier::external_body]
pub struct ExCelestiaTypesError(celestia_types::Error);

/// An id has a length that version 0 admits: a suffix of at most 10 bytes,
/// or a full id of 28 bytes.
pub open spec fn v0_id_size_ok(id: Seq<u8>) -> bool {
    id.len() <= NS_ID_V0_SIZE || id.len() == NS_ID_SIZE
}

/// A full 28-byte id starts with the 18 zero bytes that version 0 demands.
/// Shorter ids carry no prefix and pass.
pub open spec fn v0_prefix_ok(id: Seq<u8>) -> bool {
    id.len() == NS_ID_SIZE ==> forall|i: int| 0 <= i < NS_V0_PREFIX_SIZE ==> id[i] == 0u8
}

/// An id from which a version-0 namespace can be made.
pub open spec fn valid_v0_id(id: Seq<u8>) -> bool {
    v0_id_size_ok(id) && v0_prefix_ok(id)
}

/// The user-chosen part of an id: the last 10 bytes of a full id, or the
/// whole of a shorter one.
pub open spec fn v0_suffix(id: Seq<u8>) -> Seq<u8> {
    if id.len() == NS_ID_SIZE {
        id.subrange(NS_V0_PREFIX_SIZE as int, NS_ID_SIZE as int)
    } else {
        id
    }
}

/// The 29 bytes of the version-0 namespace made from `id`: zero bytes, then
/// the suffix, right-aligned.
pub open spec fn v0_bytes(id: Seq<u8>) -> Seq<u8> {
    Seq::new((NS_SIZE - v0_suffix(id).len()) as nat, |i: int| 0u8) + v0_suffix(id)
}

/// 29 bytes that form a version-0 namespace.
pub open spec fn is_v0_namespace(bytes: Seq<u8>) -> bool {
    &&& bytes.len() == NS_SIZE
    &&& forall|i: int| 0 <= i <= NS_V0_PREFIX_SIZE ==> bytes[i] == 0u8
}

/// Calls `celestia_types::nmt::Namespace::new_v0` and hands back the bytes
/// of the namespace it made. The contract restates what that function does:
/// it accepts an id of at most 10 bytes, or one of 28 bytes whose first 18
/// are zero, and lays the user-chosen bytes at the end of 29 zero bytes.
#[verifier::external_body]
fn new_v0_bytes(id: &[u8]) -> (r: Result<Vec<u8>, celestia_types::Error>)
    ensures
        r is Ok <==> valid_v0_id(id@),
        r is Ok ==> r->Ok_0@ == v0_bytes(id@),
{
    match celestia_types::nmt::Namespace::new_v0(id) {
        Ok(ns) => Ok(ns.as_bytes().to_vec()),
        Err(e) => Err(e),
    }
}

/// A namespace: the tag under which blobs are published and found again.
///
/// Every value is a version-0 namespace: 29 bytes, of which the version byte
/// and the 18 bytes after it are zero and the last 10 are chosen by the user.
#[derive(Debug, PartialEq, Eq)]
pub struct Namespace {
    bytes: Vec<u8>,
}

impl View for Namespace {
    type V = Seq<u8>;

    closed spec fn view(&self) -> Seq<u8> {
        self.bytes@
    }
}

impl Namespace {
    #[verifier::type_invariant]
    spec fn inv(&self) -> bool {
        is_v0_namespace(self.bytes@)
    }

    /// Makes the version-0 namespace of `id`, or says why `id` is refused.
    pub fn new_v0(id: &[u8]) -> (r: Result<Namespace, NamespaceError>)
        ensures
            valid_v0_id(id@) ==> r is Ok && r->Ok_0@ == v0_bytes(id@),
            !v0_id_size_ok(id@) ==> r == Err::<Namespace, NamespaceError>(
                NamespaceError::InvalidSize,
            ),
            v0_id_size_ok(id@) && !v0_prefix_ok(id@) ==> r == Err::<Namespace, NamespaceError>(
                NamespaceError::InvalidPrefix,
            ),
    {
        match new_v0_bytes(id) {
            Ok(bytes) => {
                proof {
                    lemma_v0_bytes_is_namespace(id@);
                }
                Ok(Namespace { bytes })
            },
            Err(_) => {
                if id.len() == NS_ID_SIZE {
                    Err(NamespaceError::InvalidPrefix)
                } else {
                    Err(NamespaceError::InvalidSize)
                }
            },
        }
    }

    /// The 29 bytes of the namespace.
    pub fn as_bytes(&self) -> (r: &[u8])
        ensures
            r@ == self@,
            is_v0_namespace(self@),
    {
        proof {
            use_type_invariant(self);
        }
        self.bytes.as_slice()
    }

    /// The version byte, which is zero.
    pub fn version(&self) -> (r: u8)
        ensures
            r == self@[0],
            r == 0,
    {
        proof {
            use_type_invariant(self);
        }
        self.bytes[0]
    }

    /// The 28 bytes after the version byte.
    pub fn id(&self) -> (r: Vec<u8>)
        ensures
            r@ == self@.subrange(1, NS_SIZE as int),
    {
        proof {
            use_type_invariant(self);
        }
        slice_to_vec(slice_subrange(self.bytes.as_slice(), 1, NS_SIZE))
    }

    /// Whether two namespaces hold the same bytes.
    pub fn same_as(&self, other: &Namespace) -> (r: bool)
        ensures
            r == (self@ == other@),
    {
        bytes_equal(self.bytes.as_slice(), other.bytes.as_slice())
    }
}

impl Clone for Namespace {
    /// A second value of the same namespace.
    fn clone(&self) -> (r: Namespace)
        ensures
            r@ == self@,
    {
        proof {
            use_type_invariant(self);
        }
        Namespace { bytes: slice_to_vec(self.bytes.as_slice()) }
    }
}

/// The application's id: the four bytes `DE AD BE EF`.
pub open spec fn app_id() -> Seq<u8> {
    seq![0xDEu8, 0xADu8, 0xBEu8, 0xEFu8]
}

/// The namespace that the client publishes under and filters by: version 0
/// with the id `DE AD BE EF`.
pub fn app_namespace() -> (r: Namespace)
    ensures
        r@ == v0_bytes(app_id()),
{
    let id: Vec<u8> = vec![0xDEu8, 0xADu8, 0xBEu8, 0xEFu8];
    assert(id@ =~= app_id());
    assert(valid_v0_id(id@));
    match Namespace::new_v0(id.as_slice()) {
        Ok(ns) => ns,
        Err(_) => vstd::pervasive::unreached(),
    }
}

/// Whether two byte strings are equal.
pub fn bytes_equal(a: &[u8], b: &[u8]) -> (r: bool)
    ensures
        r == (a@ == b@),
{
    if a.len() != b.len() {
        return false;
    }
    let mut i: usize = 0;
    while i < a.len()
        invariant
            a@.len() == b@.len(),
            i <= a@.len(),
            forall|j: int| 0 <= j < i ==> a@[j] == b@[j],
        decreases a@.len() - i,
    {
        if a[i] != b[i] {
            return false;
        }
        i += 1;
    }
    assert(a@ =~= b@);
    true
}

/// The bytes made from a valid id form a version-0 namespace.
pub proof fn lemma_v0_bytes_is_namespace(id: Seq<u8>)
    requires
        valid_v0_id(id),
    ensures
        is_v0_namespace(v0_bytes(id)),
        v0_bytes(id).subrange(NS_SIZE - v0_suffix(id).len(), NS_SIZE as int) == v0_suffix(id),
{
    let b = v0_bytes(id);
    let s = v0_suffix(id);
    assert(b.len() == NS_SIZE);
    assert(b.subrange(NS_SIZE - s.len(), NS_SIZE as int) =~= s);
}

} // verus!
