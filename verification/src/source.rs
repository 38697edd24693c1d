//! The source a refresh fetches from: a single-method capability
//! interface for a bounded, optionally digest-checked fetch of one
//! metadata document, and a verified in-memory implementation.

use vstd::prelude::*;

use crate::error::Error;
use crate::metadata::{
    clone_envelope, has_digest, lemma_lists_digest_eqv, lists_digest, env_eqv, HashEntry,
    MetadataVersion, Role, SignedEnvelope,
};

verus! {

/// The envelope stays inside the length bound, when one is given.
pub open spec fn within_length(env: SignedEnvelope, max_length: Option<usize>) -> bool {
    max_length matches Some(m) ==> env.payload@.len() <= m
}

/// The envelope carries the requested digest, when one is given.
pub open spec fn carries_digest(env: SignedEnvelope, hash: Option<HashEntry>) -> bool {
    hash matches Some(h) ==> lists_digest(env.digests@, h.algorithm, h.digest@)
}

/// What a successful fetch guarantees: the document answers the
/// requested role, stays inside the length bound when one is given, and
/// carries the requested digest when one is given. Content that breaks
/// a bound is rejected by the source before any signature is examined.
pub open spec fn fetch_ok(
    role: Role,
    max_length: Option<usize>,
    hash: Option<HashEntry>,
    env: SignedEnvelope,
) -> bool {
    &&& env.role == role
    &&& within_length(env, max_length)
    &&& carries_digest(env, hash)
}

/// The document answers the request: right role, and the exact version
/// where one is named.
pub open spec fn matches_query(env: SignedEnvelope, role: Role, version: MetadataVersion) -> bool {
    env.role == role && (version matches MetadataVersion::Number(n) ==> env.version == n)
}

/// The document list holds an entry answering the role, and the exact
/// version where one is requested.
pub open spec fn source_has(docs: Seq<SignedEnvelope>, role: Role, version: MetadataVersion) -> bool {
    exists|i: int| 0 <= i < docs.len() && matches_query(#[trigger] docs[i], role, version)
}

/// The index of the document an in-memory fetch serves: for `Latest`,
/// the highest-version match (the earliest of equally high ones); for
/// an exact version, the last match in insertion order.
pub open spec fn served(docs: Seq<SignedEnvelope>, role: Role, version: MetadataVersion) -> Option<
    int,
>
    decreases docs.len(),
{
    if docs.len() == 0 {
        Option::None
    } else {
        let prev = served(docs.drop_last(), role, version);
        let last: int = docs.len() - 1;
        if !matches_query(docs[last], role, version) {
            prev
        } else {
            match version {
                MetadataVersion::Latest => match prev {
                    Option::Some(p) => if docs[p].version < docs[last].version {
                        Option::Some(last)
                    } else {
                        prev
                    },
                    Option::None => Option::Some(last),
                },
                MetadataVersion::Number(_) => Option::Some(last),
            }
        }
    }
}

/// An in-memory fetch succeeds: a document is served and it passes the
/// length and digest checks.
pub open spec fn serves_ok(
    docs: Seq<SignedEnvelope>,
    role: Role,
    version: MetadataVersion,
    max_length: Option<usize>,
    hash: Option<HashEntry>,
) -> bool {
    match served(docs, role, version) {
        Option::Some(j) => within_length(docs[j], max_length) && carries_digest(docs[j], hash),
        Option::None => false,
    }
}

/// A store of metadata documents, local cache or remote repository
/// alike: one operation, a bounded and optionally digest-checked fetch
/// of one document by role and version.
pub trait MetadataSource {
    /// Fetch one metadata document. A document over the length bound or
    /// without the requested digest must be rejected, never returned.
    fn fetch(
        &mut self,
        role: Role,
        version: MetadataVersion,
        max_length: Option<usize>,
        hash: Option<HashEntry>,
    ) -> (r: Result<SignedEnvelope, Error>)
        ensures
            r matches Ok(env) ==> fetch_ok(role, max_length, hash, env),
    ;
}

/// An in-memory source: the documents it will serve, in insertion
/// order.
pub struct InMemorySource {
    pub docs: Vec<SignedEnvelope>,
}

impl InMemorySource {
    /// An empty source.
    pub fn new() -> (r: Self)
        ensures
            r.docs@.len() == 0,
    {
        InMemorySource { docs: Vec::new() }
    }

    /// Add one document for the source to serve.
    pub fn add(&mut self, env: SignedEnvelope)
        ensures
            final(self).docs@ == old(self).docs@.push(env),
    {
        self.docs.push(env);
    }
}

impl MetadataSource for InMemorySource {
    fn fetch(
        &mut self,
        role: Role,
        version: MetadataVersion,
        max_length: Option<usize>,
        hash: Option<HashEntry>,
    ) -> (r: Result<SignedEnvelope, Error>)
        ensures
            final(self).docs@ == old(self).docs@,
            r is Ok <==> serves_ok(old(self).docs@, role, version, max_length, hash),
            r matches Ok(env) ==> (served(old(self).docs@, role, version) matches Some(j)
                && env_eqv(env, old(self).docs@[j])),
            r matches Ok(env) ==> (version matches MetadataVersion::Number(n) ==> env.version
                == n),
            r matches Ok(env) ==> (version is Latest ==> forall|k: int|
                0 <= k < old(self).docs@.len() && (#[trigger] old(self).docs@[k]).role == role
                    ==> old(self).docs@[k].version <= env.version),
            (served(old(self).docs@, role, version) matches Some(j) && !(within_length(
                old(self).docs@[j],
                max_length,
            ) && carries_digest(old(self).docs@[j], hash))) ==> r == Err::<SignedEnvelope, Error>(
                Error::VerificationFailure,
            ),
            r == Err::<SignedEnvelope, Error>(Error::NotFound) <==> !source_has(
                old(self).docs@,
                role,
                version,
            ),
    {
        let mut found: Option<usize> = None;
        let mut i: usize = 0;
        while i < self.docs.len()
            invariant
                i <= self.docs@.len(),
                found matches Some(j) ==> j < i && served(
                    self.docs@.take(i as int),
                    role,
                    version,
                ) == Some(j as int),
                found matches Some(j) ==> matches_query(self.docs@[j as int], role, version),
                found is None ==> served(self.docs@.take(i as int), role, version) is None,
                found is None ==> forall|k: int|
                    0 <= k < i ==> !matches_query(#[trigger] self.docs@[k], role, version),
                found matches Some(j) ==> (version is Latest ==> forall|k: int|
                    0 <= k < i && (#[trigger] self.docs@[k]).role == role ==> self.docs@[k].version
                        <= self.docs@[j as int].version),
            decreases self.docs@.len() - i,
        {
            if self.docs[i].role == role {
                let take = match version {
                    MetadataVersion::Latest => match found {
                        Some(j) => self.docs[j].version < self.docs[i].version,
                        None => true,
                    },
                    MetadataVersion::Number(n) => self.docs[i].version == n,
                };
                if take {
                    found = Some(i);
                }
            }
            proof {
                assert(self.docs@.take(i + 1 as int).drop_last() =~= self.docs@.take(i as int));
                assert(self.docs@.take(i + 1 as int).last() == self.docs@[i as int]);
            }
            i = i + 1;
        }
        proof {
            assert(self.docs@.take(self.docs@.len() as int) =~= self.docs@);
        }
        let idx = match found {
            Some(j) => j,
            None => {
                return Err(Error::NotFound);
            },
        };
        proof {
            assert(source_has(self.docs@, role, version));
        }
        let env = clone_envelope(&self.docs[idx]);
        match max_length {
            Some(m) => {
                if env.payload.len() > m {
                    return Err(Error::VerificationFailure);
                }
            },
            None => {},
        }
        match &hash {
            Some(h) => {
                proof {
                    lemma_lists_digest_eqv(
                        env.digests@,
                        self.docs@[idx as int].digests@,
                        h.algorithm,
                        h.digest@,
                    );
                }
                if !has_digest(&env.digests, h) {
                    return Err(Error::VerificationFailure);
                }
            },
            None => {},
        }
        Ok(env)
    }
}

} // verus!
