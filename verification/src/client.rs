//! The update orchestrator: drives the four-stage refresh (root,
//! timestamp, snapshot, targets) against a chosen source and reports
//! whether any trusted state advanced, with a per-source failure
//! isolation policy.

use vstd::prelude::*;

use crate::error::Error;
use crate::metadata::{
    clone_descriptor, clone_root_keys, desc_eqv, entry_eqv, entries_eqv, has_algorithm,
    hash_preference, lemma_has_algorithm_eqv, satisfies_descriptor, HashAlgorithm,
    MetadataVersion, Role, SignedEnvelope,
};
use crate::source::{fetch_ok, MetadataSource};
use crate::trust::{
    root_adoptable, snapshot_adoptable, snapshot_sigs_ok, targets_adoptable, targets_sigs_ok,
    threshold_met, timestamp_adoptable, timestamp_sigs_ok, TrustStore,
};

verus! {

/// The new store trusts a newer timestamp than the old one did (or a
/// first one where none was trusted).
pub open spec fn timestamp_advanced(a: TrustStore, b: TrustStore) -> bool {
    b.timestamp matches Some(t) && (match a.timestamp {
        Option::Some(c) => t.version > c.version,
        Option::None => true,
    })
}

/// The new store trusts a newer snapshot than the old one did.
pub open spec fn snapshot_advanced(a: TrustStore, b: TrustStore) -> bool {
    b.snapshot matches Some(t) && (match a.snapshot {
        Option::Some(c) => t.version > c.version,
        Option::None => true,
    })
}

/// The new store trusts a newer targets document than the old one did.
pub open spec fn targets_advanced(a: TrustStore, b: TrustStore) -> bool {
    b.targets matches Some(t) && (match a.targets {
        Option::Some(c) => t.version > c.version,
        Option::None => true,
    })
}

/// Nothing trusted is ever deleted or rolled back: every role's version
/// is monotonically non-decreasing across a refresh.
pub open spec fn store_advances(a: TrustStore, b: TrustStore) -> bool {
    &&& b.root_version >= a.root_version
    &&& (a.timestamp matches Some(c) ==> b.timestamp matches Some(t) && t.version >= c.version)
    &&& (a.snapshot matches Some(c) ==> b.snapshot matches Some(t) && t.version >= c.version)
    &&& (a.targets matches Some(c) ==> b.targets matches Some(t) && t.version >= c.version)
}

/// Read the version number an unverified document declares for itself.
/// A pure read: decodability is not trust, and only the trust store's
/// adoption operations may mark a document trusted.
pub fn peek_version(env: &SignedEnvelope) -> (v: u32)
    ensures
        v == env.version,
{
    env.version
}

/// Step the trusted root up to the already fetched `latest` document:
/// compare its declared version `L` with the trusted version `C`, and
/// for `L > C` fetch and adopt every intermediate version `C+1..L-1` in
/// order before adopting `latest` itself.
///
/// An offer of `L < C` is a rollback attempt and fails with a
/// verification error; `L == C` is a no-op reported as `false`. The
/// rotation is all-or-nothing: the chain is adopted on a staged copy of
/// the root state, committed only once every version through `L` has
/// been adopted, so on success the trusted version is exactly `L` and
/// on any failure the store is exactly as it was. No version is ever
/// skipped, because adoption itself only accepts `current + 1`.
pub fn adopt_offered_root<T: MetadataSource>(
    tuf: &mut TrustStore,
    repo: &mut T,
    max_root_size: Option<usize>,
    latest: SignedEnvelope,
) -> (r: Result<bool, Error>)
    ensures
        final(tuf).timestamp == old(tuf).timestamp,
        final(tuf).snapshot == old(tuf).snapshot,
        final(tuf).targets == old(tuf).targets,
        final(tuf).root_version >= old(tuf).root_version,
        latest.version < old(tuf).root_version ==> r == Err::<bool, Error>(
            Error::VerificationFailure,
        ),
        latest.version == old(tuf).root_version ==> r == Ok::<bool, Error>(false),
        root_adoptable(*old(tuf), latest) ==> r == Ok::<bool, Error>(true),
        r matches Ok(true) ==> final(tuf).root_version == latest.version && latest.version > old(
            tuf,
        ).root_version,
        r matches Ok(true) ==> (latest.root_keys matches Some(k) && final(tuf).root_keys == k
            && threshold_met(latest.signatures@, k.root)),
        r matches Ok(false) ==> *final(tuf) == *old(tuf) && latest.version == old(
            tuf,
        ).root_version,
        r matches Err(_) ==> *final(tuf) == *old(tuf),
{
    let latest_version = peek_version(&latest);
    let current = tuf.root_version;
    if latest_version < current {
        return Err(Error::VerificationFailure);
    }
    if latest_version == current {
        return Ok(false);
    }
    // Stage the rotation beside the store and commit only a complete
    // chain, so a failed rotation leaves the trusted root untouched.
    let mut staged = TrustStore {
        root_version: tuf.root_version,
        root_keys: clone_root_keys(&tuf.root_keys),
        timestamp: None,
        snapshot: None,
        targets: None,
    };
    proof {
        assert(root_adoptable(staged, latest) == root_adoptable(*old(tuf), latest));
    }
    let mut i: u32 = current + 1;
    while i < latest_version
        invariant
            old(tuf).root_version < i,
            i <= latest_version,
            latest_version == latest.version,
            *tuf == *old(tuf),
            staged.root_version == i - 1,
            i == old(tuf).root_version + 1 ==> root_adoptable(staged, latest) == root_adoptable(
                *old(tuf),
                latest,
            ),
        decreases latest_version - i,
    {
        let signed = match repo.fetch(
            Role::Root,
            MetadataVersion::Number(i),
            max_root_size,
            None,
        ) {
            Ok(env) => env,
            Err(e) => {
                return Err(e);
            },
        };
        match staged.try_adopt_root(signed) {
            Ok(true) => {},
            Ok(false) => {
                return Err(Error::Generic);
            },
            Err(e) => {
                return Err(e);
            },
        }
        i = i + 1;
    }
    match staged.try_adopt_root(latest) {
        Ok(true) => {
            tuf.root_version = staged.root_version;
            tuf.root_keys = staged.root_keys;
            Ok(true)
        },
        Ok(false) => Err(Error::Generic),
        Err(e) => Err(e),
    }
}

/// Refresh the trusted root from `repo`: fetch the newest root document
/// within `max_root_size` (no digest is known yet for an unseen root),
/// peek its declared version, and step the trusted root up to it.
pub fn update_root<T: MetadataSource>(
    tuf: &mut TrustStore,
    repo: &mut T,
    max_root_size: Option<usize>,
) -> (r: Result<bool, Error>)
    ensures
        final(tuf).timestamp == old(tuf).timestamp,
        final(tuf).snapshot == old(tuf).snapshot,
        final(tuf).targets == old(tuf).targets,
        final(tuf).root_version >= old(tuf).root_version,
        r matches Ok(false) ==> *final(tuf) == *old(tuf),
        r matches Ok(true) ==> final(tuf).root_version > old(tuf).root_version,
        r matches Err(_) ==> *final(tuf) == *old(tuf),
{
    let latest = match repo.fetch(Role::Root, MetadataVersion::Latest, max_root_size, None) {
        Ok(env) => env,
        Err(e) => {
            return Err(e);
        },
    };
    adopt_offered_root(tuf, repo, max_root_size, latest)
}

/// Refresh the trusted timestamp from `repo`: fetch the newest
/// timestamp document within `max_timestamp_size` (timestamps have no
/// intermediate chain) and submit it for adoption.
pub fn update_timestamp<T: MetadataSource>(
    tuf: &mut TrustStore,
    repo: &mut T,
    max_timestamp_size: Option<usize>,
) -> (r: Result<bool, Error>)
    ensures
        final(tuf).root_version == old(tuf).root_version,
        final(tuf).root_keys == old(tuf).root_keys,
        final(tuf).snapshot == old(tuf).snapshot,
        final(tuf).targets == old(tuf).targets,
        r matches Ok(false) ==> *final(tuf) == *old(tuf),
        r matches Err(_) ==> *final(tuf) == *old(tuf),
        r matches Ok(true) ==> timestamp_advanced(*old(tuf), *final(tuf)),
        r matches Ok(true) ==> (final(tuf).timestamp matches Some(t) && timestamp_adoptable(
            *old(tuf),
            t,
        )),
        r matches Ok(true) ==> (final(tuf).timestamp matches Some(t) && (max_timestamp_size
            matches Some(m) ==> t.payload@.len() <= m)),
{
    let ts = match repo.fetch(
        Role::Timestamp,
        MetadataVersion::Latest,
        max_timestamp_size,
        None,
    ) {
        Ok(env) => env,
        Err(e) => {
            return Err(e);
        },
    };
    tuf.try_adopt_timestamp(ts)
}

/// Refresh the trusted snapshot from `repo`. Requires a trusted
/// timestamp, whose embedded descriptor supplies the exact length bound
/// and digest the snapshot fetch must be checked against.
pub fn update_snapshot<T: MetadataSource>(tuf: &mut TrustStore, repo: &mut T) -> (r: Result<
    bool,
    Error,
>)
    ensures
        final(tuf).root_version == old(tuf).root_version,
        final(tuf).root_keys == old(tuf).root_keys,
        final(tuf).timestamp == old(tuf).timestamp,
        final(tuf).targets == old(tuf).targets,
        old(tuf).timestamp is None ==> r == Err::<bool, Error>(
            Error::MissingMetadata(Role::Timestamp),
        ),
        (old(tuf).timestamp matches Some(ts) && ts.meta is None) ==> r == Err::<bool, Error>(
            Error::VerificationFailure,
        ),
        (old(tuf).timestamp matches Some(ts) && ts.meta matches Some(d) && d.hashes matches Some(
            hs,
        ) && !has_algorithm(hs@, HashAlgorithm::Sha512) && !has_algorithm(
            hs@,
            HashAlgorithm::Sha256,
        )) ==> r == Err::<bool, Error>(Error::VerificationFailure),
        r matches Ok(false) ==> *final(tuf) == *old(tuf),
        r matches Err(_) ==> *final(tuf) == *old(tuf),
        r matches Ok(true) ==> snapshot_advanced(*old(tuf), *final(tuf)),
        r matches Ok(true) ==> (final(tuf).snapshot matches Some(s) && snapshot_adoptable(
            *old(tuf),
            s,
        )),
        r matches Ok(true) ==> (old(tuf).timestamp matches Some(ts) && ts.meta matches Some(d)
            && final(tuf).snapshot matches Some(s) && satisfies_descriptor(s, d)),
{
    let desc = match &tuf.timestamp {
        Some(ts) => match &ts.meta {
            Some(d) => clone_descriptor(d),
            None => {
                return Err(Error::VerificationFailure);
            },
        },
        None => {
            return Err(Error::MissingMetadata(Role::Timestamp));
        },
    };
    let hash = match &desc.hashes {
        Some(hs) => match hash_preference(hs) {
            Ok(h) => Some(h),
            Err(e) => {
                return Err(e);
            },
        },
        None => None,
    };
    proof {
        lemma_descriptor_algorithms(*old(tuf), desc, true);
    }
    let ghost g_hash = hash;
    let snap = match repo.fetch(Role::Snapshot, MetadataVersion::Latest, desc.length, hash) {
        Ok(env) => env,
        Err(e) => {
            return Err(e);
        },
    };
    proof {
        lemma_fetched_satisfies(*old(tuf), desc, g_hash, snap, true);
    }
    tuf.try_adopt_snapshot(snap)
}

/// Refresh the trusted targets document from `repo`. Requires a trusted
/// snapshot, whose embedded descriptor supplies the exact length bound
/// and digest the targets fetch must be checked against.
pub fn update_targets<T: MetadataSource>(tuf: &mut TrustStore, repo: &mut T) -> (r: Result<
    bool,
    Error,
>)
    ensures
        final(tuf).root_version == old(tuf).root_version,
        final(tuf).root_keys == old(tuf).root_keys,
        final(tuf).timestamp == old(tuf).timestamp,
        final(tuf).snapshot == old(tuf).snapshot,
        old(tuf).snapshot is None ==> r == Err::<bool, Error>(
            Error::MissingMetadata(Role::Snapshot),
        ),
        (old(tuf).snapshot matches Some(sn) && sn.meta is None) ==> r == Err::<bool, Error>(
            Error::VerificationFailure,
        ),
        (old(tuf).snapshot matches Some(sn) && sn.meta matches Some(d) && d.hashes matches Some(
            hs,
        ) && !has_algorithm(hs@, HashAlgorithm::Sha512) && !has_algorithm(
            hs@,
            HashAlgorithm::Sha256,
        )) ==> r == Err::<bool, Error>(Error::VerificationFailure),
        r matches Ok(false) ==> *final(tuf) == *old(tuf),
        r matches Err(_) ==> *final(tuf) == *old(tuf),
        r matches Ok(true) ==> targets_advanced(*old(tuf), *final(tuf)),
        r matches Ok(true) ==> (final(tuf).targets matches Some(t) && targets_adoptable(
            *old(tuf),
            t,
        )),
        r matches Ok(true) ==> (old(tuf).snapshot matches Some(sn) && sn.meta matches Some(d)
            && final(tuf).targets matches Some(t) && satisfies_descriptor(t, d)),
{
    let desc = match &tuf.snapshot {
        Some(sn) => match &sn.meta {
            Some(d) => clone_descriptor(d),
            None => {
                return Err(Error::VerificationFailure);
            },
        },
        None => {
            return Err(Error::MissingMetadata(Role::Snapshot));
        },
    };
    let hash = match &desc.hashes {
        Some(hs) => match hash_preference(hs) {
            Ok(h) => Some(h),
            Err(e) => {
                return Err(e);
            },
        },
        None => None,
    };
    proof {
        lemma_descriptor_algorithms(*old(tuf), desc, false);
    }
    let ghost g_hash = hash;
    let targets = match repo.fetch(Role::Targets, MetadataVersion::Latest, desc.length, hash) {
        Ok(env) => env,
        Err(e) => {
            return Err(e);
        },
    };
    proof {
        lemma_fetched_satisfies(*old(tuf), desc, g_hash, targets, false);
    }
    tuf.try_adopt_targets(targets)
}

/// A fetch checked against a copy of a trusted descriptor satisfies the
/// descriptor itself: the copy records the same length and digests, and
/// the digest the fetch was checked against is one the descriptor
/// records.
proof fn lemma_fetched_satisfies(
    s: TrustStore,
    desc: crate::metadata::Descriptor,
    hash: Option<crate::metadata::HashEntry>,
    env: SignedEnvelope,
    from_timestamp: bool,
)
    requires
        (if from_timestamp {
            s.timestamp matches Some(doc) && doc.meta matches Some(d) && desc_eqv(desc, d)
        } else {
            s.snapshot matches Some(doc) && doc.meta matches Some(d) && desc_eqv(desc, d)
        }),
        desc.hashes matches Some(hs) ==> hash matches Some(h) && exists|j: int|
            0 <= j < hs@.len() && entry_eqv(h, #[trigger] hs@[j]),
        desc.hashes is None ==> hash is None,
        fetch_ok(env.role, desc.length, hash, env),
    ensures
        (if from_timestamp {
            s.timestamp matches Some(doc) && doc.meta matches Some(d) && satisfies_descriptor(
                env,
                d,
            )
        } else {
            s.snapshot matches Some(doc) && doc.meta matches Some(d) && satisfies_descriptor(
                env,
                d,
            )
        }),
{
    let d = if from_timestamp {
        s.timestamp->Some_0.meta->Some_0
    } else {
        s.snapshot->Some_0.meta->Some_0
    };
    assert(desc.length == d.length);
    match d.hashes {
        Option::Some(hs_d) => {
            match desc.hashes {
                Option::Some(hs_c) => {
                    assert(entries_eqv(hs_c@, hs_d@));
                    let h = hash->Some_0;
                    let j0: int = choose|j: int| 0 <= j < hs_c@.len() && entry_eqv(
                        h,
                        #[trigger] hs_c@[j],
                    );
                    assert(entry_eqv(hs_c@[j0], hs_d@[j0]));
                    assert(crate::metadata::lists_digest(
                        env.digests@,
                        hs_d@[j0].algorithm,
                        hs_d@[j0].digest@,
                    ));
                    assert(0 <= j0 < hs_d@.len());
                },
                Option::None => {
                    assert(false);
                },
            }
        },
        Option::None => {},
    }
}

/// A copy of a trusted descriptor names a supported digest algorithm
/// exactly when the descriptor itself does.
proof fn lemma_descriptor_algorithms(
    s: TrustStore,
    desc: crate::metadata::Descriptor,
    from_timestamp: bool,
)
    requires
        (if from_timestamp {
            s.timestamp matches Some(doc) && doc.meta matches Some(d) && desc_eqv(desc, d)
        } else {
            s.snapshot matches Some(doc) && doc.meta matches Some(d) && desc_eqv(desc, d)
        }),
    ensures
        (if from_timestamp {
            s.timestamp matches Some(doc) && doc.meta matches Some(d) && (d.hashes matches Some(
                hd,
            ) ==> desc.hashes matches Some(hc) && has_algorithm(hc@, HashAlgorithm::Sha512)
                == has_algorithm(hd@, HashAlgorithm::Sha512) && has_algorithm(
                hc@,
                HashAlgorithm::Sha256,
            ) == has_algorithm(hd@, HashAlgorithm::Sha256))
        } else {
            s.snapshot matches Some(doc) && doc.meta matches Some(d) && (d.hashes matches Some(
                hd,
            ) ==> desc.hashes matches Some(hc) && has_algorithm(hc@, HashAlgorithm::Sha512)
                == has_algorithm(hd@, HashAlgorithm::Sha512) && has_algorithm(
                hc@,
                HashAlgorithm::Sha256,
            ) == has_algorithm(hd@, HashAlgorithm::Sha256))
        }),
{
    let d = if from_timestamp {
        s.timestamp->Some_0.meta->Some_0
    } else {
        s.snapshot->Some_0.meta->Some_0
    };
    assert(crate::metadata::hashes_eqv(desc.hashes, d.hashes));
    match (desc.hashes, d.hashes) {
        (Option::Some(hc), Option::Some(hd)) => {
            lemma_has_algorithm_eqv(hc@, hd@, HashAlgorithm::Sha512);
            lemma_has_algorithm_eqv(hc@, hd@, HashAlgorithm::Sha256);
        },
        _ => {},
    }
}

/// A client that refreshes trusted metadata from a local cache and a
/// remote repository, both behind the same source interface.
pub struct Client<L, R> where L: MetadataSource, R: MetadataSource {
    pub tuf: TrustStore,
    pub config: Config,
    pub local: L,
    pub remote: R,
}

impl<L, R> Client<L, R> where L: MetadataSource, R: MetadataSource {
    /// Create a new client from the given trust store and local and
    /// remote sources.
    pub fn new(tuf: TrustStore, config: Config, local: L, remote: R) -> (r: Self)
        ensures
            r.tuf == tuf,
            r.config == config,
            r.local == local,
            r.remote == remote,
    {
        Client { tuf, config, local, remote }
    }

    /// Update trusted metadata from the local source.
    ///
    /// A root-stage failure is fatal and propagated: proceeding past an
    /// invalid root is unsafe. A timestamp, snapshot or targets failure
    /// is suppressed and treated as "no update" for that stage, so a
    /// stale or corrupt cache entry does not block the others. Returns
    /// `Ok(true)` exactly when some stage advanced trusted state.
    pub fn update_local(&mut self) -> (r: Result<bool, Error>)
        ensures
            final(self).config == old(self).config,
            store_advances(old(self).tuf, final(self).tuf),
            r matches Err(_) ==> final(self).tuf == old(self).tuf,
            r matches Ok(true) ==> final(self).tuf != old(self).tuf,
            r matches Ok(false) ==> final(self).tuf == old(self).tuf,
            final(self).tuf.timestamp != old(self).tuf.timestamp ==> (final(self).tuf.timestamp
                matches Some(t) && timestamp_sigs_ok(final(self).tuf, t)),
            final(self).tuf.snapshot != old(self).tuf.snapshot ==> (final(self).tuf.snapshot
                matches Some(s) && snapshot_sigs_ok(final(self).tuf, s)),
            final(self).tuf.targets != old(self).tuf.targets ==> (final(self).tuf.targets
                matches Some(t) && targets_sigs_ok(final(self).tuf, t)),
    {
        let r0 = match update_root(&mut self.tuf, &mut self.local, self.config.max_root_size) {
            Ok(b) => b,
            Err(e) => {
                return Err(e);
            },
        };
        let ts = match update_timestamp(
            &mut self.tuf,
            &mut self.local,
            self.config.max_timestamp_size,
        ) {
            Ok(b) => b,
            Err(_) => false,
        };
        let sn = match update_snapshot(&mut self.tuf, &mut self.local) {
            Ok(b) => b,
            Err(_) => false,
        };
        let ta = match update_targets(&mut self.tuf, &mut self.local) {
            Ok(b) => b,
            Err(_) => false,
        };
        Ok(r0 || ts || sn || ta)
    }

    /// Update trusted metadata from the remote repository, fail-closed:
    /// the first failing stage aborts the whole call, in the order
    /// root, timestamp, snapshot, targets. Returns `Ok(true)` exactly
    /// when some stage advanced trusted state.
    ///
    /// The targets stage reads from the local source while the other
    /// three read from the remote one; this reproduces the observed
    /// behavior of the protocol as deployed, inconsistent though it
    /// looks, rather than silently changing it.
    pub fn update_remote(&mut self) -> (r: Result<bool, Error>)
        ensures
            final(self).config == old(self).config,
            store_advances(old(self).tuf, final(self).tuf),
            r matches Err(_) ==> final(self).tuf.targets == old(self).tuf.targets,
            r matches Ok(true) ==> final(self).tuf != old(self).tuf,
            r matches Ok(false) ==> final(self).tuf == old(self).tuf,
            final(self).tuf.timestamp != old(self).tuf.timestamp ==> (final(self).tuf.timestamp
                matches Some(t) && timestamp_sigs_ok(final(self).tuf, t)),
            final(self).tuf.snapshot != old(self).tuf.snapshot ==> (final(self).tuf.snapshot
                matches Some(s) && snapshot_sigs_ok(final(self).tuf, s)),
            final(self).tuf.targets != old(self).tuf.targets ==> (final(self).tuf.targets
                matches Some(t) && targets_sigs_ok(final(self).tuf, t)),
    {
        let r0 = match update_root(&mut self.tuf, &mut self.remote, self.config.max_root_size) {
            Ok(b) => b,
            Err(e) => {
                return Err(e);
            },
        };
        let ts = match update_timestamp(
            &mut self.tuf,
            &mut self.remote,
            self.config.max_timestamp_size,
        ) {
            Ok(b) => b,
            Err(e) => {
                return Err(e);
            },
        };
        let sn = match update_snapshot(&mut self.tuf, &mut self.remote) {
            Ok(b) => b,
            Err(e) => {
                return Err(e);
            },
        };
        let ta = match update_targets(&mut self.tuf, &mut self.local) {
            Ok(b) => b,
            Err(e) => {
                return Err(e);
            },
        };
        Ok(r0 || ts || sn || ta)
    }
}

/// Byte-size ceilings consulted before each root and timestamp fetch,
/// each unbounded when absent.
#[derive(Clone, Copy, Debug)]
pub struct Config {
    pub max_root_size: Option<usize>,
    pub max_timestamp_size: Option<usize>,
}

impl Config {
    /// Initialize a `ConfigBuilder` with the default values.
    pub fn build() -> (r: ConfigBuilder)
        ensures
            r.max_root_size == (Some(1048576usize)),
            r.max_timestamp_size == (Some(32768usize)),
    {
        ConfigBuilder::default()
    }
}

/// Helper for building and validating a `Config`.
#[derive(Clone, Copy, Debug, PartialEq)]
pub struct ConfigBuilder {
    pub max_root_size: Option<usize>,
    pub max_timestamp_size: Option<usize>,
}

impl ConfigBuilder {
    /// Validate this builder and return a `Config`. Validation
    /// currently accepts every combination of bounds.
    pub fn finish(self) -> (r: Result<Config, Error>)
        ensures
            r matches Ok(c) && c.max_root_size == self.max_root_size
                && c.max_timestamp_size == self.max_timestamp_size,
    {
        Ok(Config { max_root_size: self.max_root_size, max_timestamp_size: self.max_timestamp_size })
    }

    /// Set the optional maximum download size for root metadata.
    pub fn max_root_size(self, max: Option<usize>) -> (r: Self)
        ensures
            r.max_root_size == max,
            r.max_timestamp_size == self.max_timestamp_size,
    {
        ConfigBuilder { max_root_size: max, max_timestamp_size: self.max_timestamp_size }
    }

    /// Set the optional maximum download size for timestamp metadata.
    pub fn max_timestamp_size(self, max: Option<usize>) -> (r: Self)
        ensures
            r.max_root_size == self.max_root_size,
            r.max_timestamp_size == max,
    {
        ConfigBuilder { max_root_size: self.max_root_size, max_timestamp_size: max }
    }
}

impl Default for ConfigBuilder {
    /// The documented defaults: 1 MiB for root, 32 KiB for timestamp.
    fn default() -> (r: Self)
        ensures
            r.max_root_size == (Some(1048576usize)),
            r.max_timestamp_size == (Some(32768usize)),
    {
        ConfigBuilder { max_root_size: Some(1024 * 1024), max_timestamp_size: Some(32 * 1024) }
    }
}

} // verus!
