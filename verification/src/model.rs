//! Plain-value models of the ledger's basic notions: object identifiers,
//! account addresses, object digests, versioned object references, ownership
//! and type tags.

use vstd::prelude::*;

verus! {

/// A ledger object identifier: an opaque byte string that names exactly one
/// object. The logic only ever compares identifiers for equality.
#[derive(Debug)]
pub struct ObjectId {
    pub bytes: Vec<u8>,
}

impl View for ObjectId {
    type V = Seq<u8>;

    open spec fn view(&self) -> Seq<u8> {
        self.bytes@
    }
}

impl ObjectId {
    pub fn new(bytes: Vec<u8>) -> (r: ObjectId)
        ensures
            r@ == bytes@,
    {
        ObjectId { bytes }
    }

    /// A fresh value holding the same identifier.
    pub fn duplicate(&self) -> (r: ObjectId)
        ensures
            r@ == self@,
    {
        ObjectId { bytes: copy_bytes(&self.bytes) }
    }

    /// Identifier equality: the byte strings are the same.
    pub fn matches(&self, other: &ObjectId) -> (r: bool)
        ensures
            r == (self@ == other@),
    {
        bytes_equal(&self.bytes, &other.bytes)
    }
}

/// An account address on the ledger, also an opaque byte string.
#[derive(Debug)]
pub struct Address {
    pub bytes: Vec<u8>,
}

impl View for Address {
    type V = Seq<u8>;

    open spec fn view(&self) -> Seq<u8> {
        self.bytes@
    }
}

impl Address {
    pub fn new(bytes: Vec<u8>) -> (r: Address)
        ensures
            r@ == bytes@,
    {
        Address { bytes }
    }

    pub fn duplicate(&self) -> (r: Address)
        ensures
            r@ == self@,
    {
        Address { bytes: copy_bytes(&self.bytes) }
    }
}

/// The digest of one version of an object, an opaque byte string.
#[derive(Debug)]
pub struct Digest {
    pub bytes: Vec<u8>,
}

impl View for Digest {
    type V = Seq<u8>;

    open spec fn view(&self) -> Seq<u8> {
        self.bytes@
    }
}

impl Digest {
    pub fn new(bytes: Vec<u8>) -> (r: Digest)
        ensures
            r@ == bytes@,
    {
        Digest { bytes }
    }

    pub fn duplicate(&self) -> (r: Digest)
        ensures
            r@ == self@,
    {
        Digest { bytes: copy_bytes(&self.bytes) }
    }
}

/// An immutable pointer to a specific version of an object:
/// `(id, version, digest)`.
#[derive(Debug)]
pub struct ObjectRef {
    pub id: ObjectId,
    pub version: u64,
    pub digest: Digest,
}

impl ObjectRef {
    pub fn duplicate(&self) -> (r: ObjectRef)
        ensures
            r.id@ == self.id@,
            r.version == self.version,
            r.digest@ == self.digest@,
    {
        ObjectRef {
            id: self.id.duplicate(),
            version: self.version,
            digest: self.digest.duplicate(),
        }
    }
}

/// How an object is held on the ledger, which decides how it must be passed
/// as a transaction input: owned objects by exact reference, shared objects
/// by id plus their initial shared version.
#[derive(Debug)]
pub enum Ownership {
    Owned { owner: Address },
    Shared { initial_shared_version: u64 },
    Immutable,
}

/// The declared type of a ledger object: the package that defines it, the
/// module within the package, and the type's name.
#[derive(Debug)]
pub struct TypeTag {
    pub package: ObjectId,
    pub module: String,
    pub name: String,
}

/// Copies a byte vector.
pub fn copy_bytes(v: &Vec<u8>) -> (r: Vec<u8>)
    ensures
        r@ == v@,
{
    let mut r: Vec<u8> = Vec::new();
    let mut i: usize = 0;
    while i < v.len()
        invariant
            i <= v.len(),
            r@ == v@.subrange(0, i as int),
        decreases v.len() - i,
    {
        r.push(v[i]);
        assert(r@ =~= v@.subrange(0, i + 1 as int));
        i = i + 1;
    }
    assert(r@ =~= v@);
    r
}

/// Byte-string equality.
pub fn bytes_equal(a: &Vec<u8>, b: &Vec<u8>) -> (r: bool)
    ensures
        r == (a@ == b@),
{
    if a.len() != b.len() {
        assert(a@ != b@) by {
            assert(a@.len() != b@.len());
        }
        return false;
    }
    let mut i: usize = 0;
    while i < a.len()
        invariant
            i <= a.len(),
            a@.len() == b@.len(),
            forall|j: int| 0 <= j < i ==> a@[j] == b@[j],
        decreases a.len() - i,
    {
        if a[i] != b[i] {
            return false;
        }
        i = i + 1;
    }
    assert(a@ =~= b@);
    true
}

} // verus!
