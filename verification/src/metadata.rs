//! The data model of the refresh protocol: roles, version selectors,
//! descriptors, key sets, and the signed envelope a source hands back.
//!
//! The byte-level encoding of a metadata document belongs to a decode
//! collaborator outside this core; an envelope therefore carries the
//! decoded fields the protocol reads (declared version, key sets, the
//! descriptor of the next document) next to the raw payload bytes.

use vstd::prelude::*;

use crate::error::Error;

verus! {

/// The four top-level trust roles of the update framework.
#[derive(Clone, Copy, Debug, PartialEq, Eq, Structural)]
pub enum Role {
    Root,
    Timestamp,
    Snapshot,
    Targets,
}

/// Which edition of a role's document a fetch asks for: the newest one
/// the source has, or one exact version.
#[derive(Clone, Copy, Debug, PartialEq, Eq, Structural)]
pub enum MetadataVersion {
    Latest,
    Number(u32),
}

/// A digest algorithm the metadata format can name.
#[derive(Clone, Copy, Debug, PartialEq, Eq, Structural)]
pub enum HashAlgorithm {
    Sha256,
    Sha512,
}

/// One content digest: an algorithm and the digest bytes it yielded.
#[derive(Debug)]
pub struct HashEntry {
    pub algorithm: HashAlgorithm,
    pub digest: Vec<u8>,
}

/// A length-and-digest record inside one trusted document that
/// authenticates the next, lower-level document before it is fetched.
#[derive(Debug)]
pub struct Descriptor {
    pub length: Option<usize>,
    pub hashes: Option<Vec<HashEntry>>,
}

/// The key ids authorized for one role, and how many of them must sign.
#[derive(Debug)]
pub struct RoleKeys {
    pub keys: Vec<u64>,
    pub threshold: u32,
}

/// The per-role key sets a root document delegates.
#[derive(Debug)]
pub struct RootKeys {
    pub root: RoleKeys,
    pub timestamp: RoleKeys,
    pub snapshot: RoleKeys,
    pub targets: RoleKeys,
}

/// A fetched, not yet trusted metadata document: its raw payload, the
/// ids of the keys that signed it, the digests of its content, and the
/// decoded fields the protocol reads before and during adoption.
#[derive(Debug)]
pub struct SignedEnvelope {
    pub role: Role,
    pub version: u32,
    pub payload: Vec<u8>,
    pub signatures: Vec<u64>,
    pub digests: Vec<HashEntry>,
    /// Present on root documents: the key sets the document delegates.
    pub root_keys: Option<RootKeys>,
    /// Present on timestamp and snapshot documents: the descriptor of
    /// the next document in the chain.
    pub meta: Option<Descriptor>,
}

/// Two digest entries agree on algorithm and digest bytes.
pub open spec fn entry_eqv(a: HashEntry, b: HashEntry) -> bool {
    a.algorithm == b.algorithm && a.digest@ == b.digest@
}

/// Two digest lists agree entry by entry.
pub open spec fn entries_eqv(a: Seq<HashEntry>, b: Seq<HashEntry>) -> bool {
    a.len() == b.len() && forall|i: int| 0 <= i < a.len() ==> entry_eqv(#[trigger] a[i], b[i])
}

/// Two optional digest lists agree.
pub open spec fn hashes_eqv(a: Option<Vec<HashEntry>>, b: Option<Vec<HashEntry>>) -> bool {
    match (a, b) {
        (Option::None, Option::None) => true,
        (Option::Some(x), Option::Some(y)) => entries_eqv(x@, y@),
        _ => false,
    }
}

/// Two descriptors record the same length bound and the same digests.
pub open spec fn desc_eqv(a: Descriptor, b: Descriptor) -> bool {
    a.length == b.length && hashes_eqv(a.hashes, b.hashes)
}

/// The digest list `ds` records `digest` under `algorithm`.
pub open spec fn lists_digest(ds: Seq<HashEntry>, algorithm: HashAlgorithm, digest: Seq<u8>) -> bool {
    exists|i: int|
        0 <= i < ds.len() && (#[trigger] ds[i]).algorithm == algorithm && ds[i].digest@ == digest
}

/// The envelope stays inside the descriptor's length bound and carries
/// one of the digests the descriptor records.
pub open spec fn satisfies_descriptor(env: SignedEnvelope, d: Descriptor) -> bool {
    &&& (d.length matches Some(l) ==> env.payload@.len() <= l)
    &&& (d.hashes matches Some(hs) ==> exists|j: int|
        0 <= j < hs@.len() && lists_digest(
            env.digests@,
            (#[trigger] hs@[j]).algorithm,
            hs@[j].digest@,
        ))
}

/// Some entry of `hs` uses algorithm `a`.
pub open spec fn has_algorithm(hs: Seq<HashEntry>, a: HashAlgorithm) -> bool {
    exists|i: int| 0 <= i < hs.len() && (#[trigger] hs[i]).algorithm == a
}

/// Two envelopes agree on every field the protocol reads.
pub open spec fn role_keys_eqv(a: RoleKeys, b: RoleKeys) -> bool {
    a.keys@ == b.keys@ && a.threshold == b.threshold
}

/// Two delegations agree role by role.
pub open spec fn root_keys_eqv(a: RootKeys, b: RootKeys) -> bool {
    &&& role_keys_eqv(a.root, b.root)
    &&& role_keys_eqv(a.timestamp, b.timestamp)
    &&& role_keys_eqv(a.snapshot, b.snapshot)
    &&& role_keys_eqv(a.targets, b.targets)
}

/// Two optional delegations agree.
pub open spec fn opt_root_keys_eqv(a: Option<RootKeys>, b: Option<RootKeys>) -> bool {
    match (a, b) {
        (Option::None, Option::None) => true,
        (Option::Some(x), Option::Some(y)) => root_keys_eqv(x, y),
        _ => false,
    }
}

/// Two optional descriptors agree.
pub open spec fn opt_desc_eqv(a: Option<Descriptor>, b: Option<Descriptor>) -> bool {
    match (a, b) {
        (Option::None, Option::None) => true,
        (Option::Some(x), Option::Some(y)) => desc_eqv(x, y),
        _ => false,
    }
}

/// Two envelopes agree on every field.
pub open spec fn env_eqv(a: SignedEnvelope, b: SignedEnvelope) -> bool {
    &&& a.role == b.role
    &&& a.version == b.version
    &&& a.payload@ == b.payload@
    &&& a.signatures@ == b.signatures@
    &&& entries_eqv(a.digests@, b.digests@)
    &&& opt_root_keys_eqv(a.root_keys, b.root_keys)
    &&& opt_desc_eqv(a.meta, b.meta)
}

/// Entry-by-entry equal digest lists record the same digests.
pub proof fn lemma_lists_digest_eqv(
    a: Seq<HashEntry>,
    b: Seq<HashEntry>,
    algorithm: HashAlgorithm,
    digest: Seq<u8>,
)
    requires
        entries_eqv(a, b),
    ensures
        lists_digest(a, algorithm, digest) == lists_digest(b, algorithm, digest),
{
    if lists_digest(a, algorithm, digest) {
        let i: int = choose|i: int|
            0 <= i < a.len() && (#[trigger] a[i]).algorithm == algorithm && a[i].digest@ == digest;
        assert(entry_eqv(a[i], b[i]));
        assert(b[i].algorithm == algorithm && b[i].digest@ == digest);
    }
    if lists_digest(b, algorithm, digest) {
        let i: int = choose|i: int|
            0 <= i < b.len() && (#[trigger] b[i]).algorithm == algorithm && b[i].digest@ == digest;
        assert(entry_eqv(a[i], b[i]));
        assert(a[i].algorithm == algorithm && a[i].digest@ == digest);
    }
}

/// Entry-by-entry equal digest lists name the same algorithms.
pub proof fn lemma_has_algorithm_eqv(a: Seq<HashEntry>, b: Seq<HashEntry>, alg: HashAlgorithm)
    requires
        entries_eqv(a, b),
    ensures
        has_algorithm(a, alg) == has_algorithm(b, alg),
{
    if has_algorithm(a, alg) {
        let i: int = choose|i: int| 0 <= i < a.len() && (#[trigger] a[i]).algorithm == alg;
        assert(entry_eqv(a[i], b[i]));
        assert(b[i].algorithm == alg);
    }
    if has_algorithm(b, alg) {
        let i: int = choose|i: int| 0 <= i < b.len() && (#[trigger] b[i]).algorithm == alg;
        assert(entry_eqv(a[i], b[i]));
        assert(a[i].algorithm == alg);
    }
}

/// Byte-for-byte equality of two byte vectors.
pub fn bytes_eq(a: &Vec<u8>, b: &Vec<u8>) -> (r: bool)
    ensures
        r == (a@ == b@),
{
    if a.len() != b.len() {
        return false;
    }
    let mut i: usize = 0;
    while i < a.len()
        invariant
            a@.len() == b@.len(),
            i <= a@.len(),
            forall|k: int| 0 <= k < i ==> a@[k] == b@[k],
        decreases a@.len() - i,
    {
        if a[i] != b[i] {
            return false;
        }
        i = i + 1;
    }
    proof {
        assert(a@ =~= b@);
    }
    true
}

/// Copy of a byte vector.
pub fn clone_bytes(v: &Vec<u8>) -> (r: Vec<u8>)
    ensures
        r@ == v@,
{
    let mut r: Vec<u8> = Vec::new();
    let mut i: usize = 0;
    while i < v.len()
        invariant
            i <= v@.len(),
            r@ == v@.take(i as int),
        decreases v@.len() - i,
    {
        r.push(v[i]);
        proof {
            assert(v@.take(i + 1 as int) =~= v@.take(i as int).push(v@[i as int]));
        }
        i = i + 1;
    }
    proof {
        assert(v@.take(v@.len() as int) =~= v@);
    }
    r
}

/// Copy of a key id vector.
pub fn clone_key_ids(v: &Vec<u64>) -> (r: Vec<u64>)
    ensures
        r@ == v@,
{
    let mut r: Vec<u64> = Vec::new();
    let mut i: usize = 0;
    while i < v.len()
        invariant
            i <= v@.len(),
            r@ == v@.take(i as int),
        decreases v@.len() - i,
    {
        r.push(v[i]);
        proof {
            assert(v@.take(i + 1 as int) =~= v@.take(i as int).push(v@[i as int]));
        }
        i = i + 1;
    }
    proof {
        assert(v@.take(v@.len() as int) =~= v@);
    }
    r
}

/// Copy of a digest entry.
pub fn clone_entry(e: &HashEntry) -> (r: HashEntry)
    ensures
        entry_eqv(r, *e),
{
    HashEntry { algorithm: e.algorithm, digest: clone_bytes(&e.digest) }
}

/// Copy of a digest list.
pub fn clone_entries(v: &Vec<HashEntry>) -> (r: Vec<HashEntry>)
    ensures
        entries_eqv(r@, v@),
{
    let mut r: Vec<HashEntry> = Vec::new();
    let mut i: usize = 0;
    while i < v.len()
        invariant
            i <= v@.len(),
            r@.len() == i,
            forall|k: int| 0 <= k < i ==> entry_eqv(#[trigger] r@[k], v@[k]),
        decreases v@.len() - i,
    {
        r.push(clone_entry(&v[i]));
        i = i + 1;
    }
    r
}

/// Copy of a descriptor.
pub fn clone_descriptor(d: &Descriptor) -> (r: Descriptor)
    ensures
        desc_eqv(r, *d),
{
    let hashes = match &d.hashes {
        Some(hs) => Some(clone_entries(hs)),
        None => None,
    };
    Descriptor { length: d.length, hashes }
}

/// Copy of one role's key set.
pub fn clone_role_keys(k: &RoleKeys) -> (r: RoleKeys)
    ensures
        role_keys_eqv(r, *k),
{
    RoleKeys { keys: clone_key_ids(&k.keys), threshold: k.threshold }
}

/// Copy of a root document's delegations.
pub fn clone_root_keys(k: &RootKeys) -> (r: RootKeys)
    ensures
        root_keys_eqv(r, *k),
{
    RootKeys {
        root: clone_role_keys(&k.root),
        timestamp: clone_role_keys(&k.timestamp),
        snapshot: clone_role_keys(&k.snapshot),
        targets: clone_role_keys(&k.targets),
    }
}

/// Copy of a signed envelope.
pub fn clone_envelope(e: &SignedEnvelope) -> (r: SignedEnvelope)
    ensures
        env_eqv(r, *e),
{
    let root_keys = match &e.root_keys {
        Some(k) => Some(clone_root_keys(k)),
        None => None,
    };
    let meta = match &e.meta {
        Some(d) => Some(clone_descriptor(d)),
        None => None,
    };
    SignedEnvelope {
        role: e.role,
        version: e.version,
        payload: clone_bytes(&e.payload),
        signatures: clone_key_ids(&e.signatures),
        digests: clone_entries(&e.digests),
        root_keys,
        meta,
    }
}

/// First entry of `hs` that uses algorithm `a`, if any.
fn find_algorithm(hs: &Vec<HashEntry>, a: HashAlgorithm) -> (r: Option<HashEntry>)
    ensures
        r is Some <==> has_algorithm(hs@, a),
        r matches Some(h) ==> h.algorithm == a,
        r matches Some(h) ==> exists|j: int| 0 <= j < hs@.len() && entry_eqv(h, #[trigger] hs@[j]),
{
    let mut i: usize = 0;
    while i < hs.len()
        invariant
            i <= hs@.len(),
            forall|k: int| 0 <= k < i ==> (#[trigger] hs@[k]).algorithm != a,
        decreases hs@.len() - i,
    {
        if hs[i].algorithm == a {
            let h = clone_entry(&hs[i]);
            return Some(h);
        }
        i = i + 1;
    }
    None
}

/// Select, by a fixed preference order, the digest entry a fetch must be
/// checked against. Fails with a verification error when none of the
/// listed algorithms is supported.
pub fn hash_preference(hs: &Vec<HashEntry>) -> (r: Result<HashEntry, Error>)
    ensures
        r is Ok <==> (has_algorithm(hs@, HashAlgorithm::Sha512) || has_algorithm(
            hs@,
            HashAlgorithm::Sha256,
        )),
        r matches Err(e) ==> e == Error::VerificationFailure,
        r matches Ok(h) ==> exists|j: int| 0 <= j < hs@.len() && entry_eqv(h, #[trigger] hs@[j]),
        r matches Ok(h) ==> h.algorithm == (if has_algorithm(hs@, HashAlgorithm::Sha512) {
            HashAlgorithm::Sha512
        } else {
            HashAlgorithm::Sha256
        }),
{
    match find_algorithm(hs, HashAlgorithm::Sha512) {
        Some(h) => Ok(h),
        None => match find_algorithm(hs, HashAlgorithm::Sha256) {
            Some(h) => Ok(h),
            None => Err(Error::VerificationFailure),
        },
    }
}

/// The digest list records `h`'s digest under `h`'s algorithm.
pub fn has_digest(ds: &Vec<HashEntry>, h: &HashEntry) -> (r: bool)
    ensures
        r == lists_digest(ds@, h.algorithm, h.digest@),
{
    let mut i: usize = 0;
    while i < ds.len()
        invariant
            i <= ds@.len(),
            forall|k: int| 0 <= k < i ==> !((#[trigger] ds@[k]).algorithm == h.algorithm
                && ds@[k].digest@ == h.digest@),
        decreases ds@.len() - i,
    {
        if ds[i].algorithm == h.algorithm && bytes_eq(&ds[i].digest, &h.digest) {
            return true;
        }
        i = i + 1;
    }
    false
}

} // verus!
