use tuf::client::{
    update_root, update_snapshot, update_targets, update_timestamp, Client, Config,
};
use tuf::error::Error;
use tuf::metadata::{
    hash_preference, Descriptor, HashAlgorithm, HashEntry, MetadataVersion, Role, RoleKeys,
    RootKeys, SignedEnvelope,
};
use tuf::source::{InMemorySource, MetadataSource};
use tuf::trust::TrustStore;

fn role_keys(keys: Vec<u64>, threshold: u32) -> RoleKeys {
    RoleKeys { keys, threshold }
}

fn delegations() -> RootKeys {
    RootKeys {
        root: role_keys(vec![1, 2, 3], 2),
        timestamp: role_keys(vec![10], 1),
        snapshot: role_keys(vec![20], 1),
        targets: role_keys(vec![30], 1),
    }
}

fn snapshot_descriptor() -> Descriptor {
    Descriptor {
        length: Some(100),
        hashes: Some(vec![HashEntry { algorithm: HashAlgorithm::Sha256, digest: vec![0xAA, 0x01] }]),
    }
}

fn targets_descriptor() -> Descriptor {
    Descriptor {
        length: Some(50),
        hashes: Some(vec![HashEntry { algorithm: HashAlgorithm::Sha512, digest: vec![0xBB, 0x02] }]),
    }
}

fn root_doc(version: u32, signatures: Vec<u64>) -> SignedEnvelope {
    SignedEnvelope {
        role: Role::Root,
        version,
        payload: vec![0; 10],
        signatures,
        digests: vec![],
        root_keys: Some(delegations()),
        meta: None,
    }
}

fn timestamp_doc(version: u32) -> SignedEnvelope {
    SignedEnvelope {
        role: Role::Timestamp,
        version,
        payload: vec![0; 8],
        signatures: vec![10],
        digests: vec![],
        root_keys: None,
        meta: Some(snapshot_descriptor()),
    }
}

fn snapshot_doc(version: u32) -> SignedEnvelope {
    SignedEnvelope {
        role: Role::Snapshot,
        version,
        payload: vec![0; 60],
        signatures: vec![20],
        digests: vec![HashEntry { algorithm: HashAlgorithm::Sha256, digest: vec![0xAA, 0x01] }],
        root_keys: None,
        meta: Some(targets_descriptor()),
    }
}

fn targets_doc(version: u32) -> SignedEnvelope {
    SignedEnvelope {
        role: Role::Targets,
        version,
        payload: vec![0; 20],
        signatures: vec![30],
        digests: vec![HashEntry { algorithm: HashAlgorithm::Sha512, digest: vec![0xBB, 0x02] }],
        root_keys: None,
        meta: None,
    }
}

fn store_v1() -> TrustStore {
    TrustStore::new(1, delegations())
}

fn full_source() -> InMemorySource {
    let mut src = InMemorySource::new();
    src.add(root_doc(1, vec![1, 2]));
    src.add(timestamp_doc(1));
    src.add(snapshot_doc(1));
    src.add(targets_doc(1));
    src
}

fn unbounded_config() -> Config {
    Config { max_root_size: None, max_timestamp_size: None }
}

/// A source whose versioned root answers declare a version other than
/// the one asked for, to exercise the orchestrator's internal-invariant
/// error path.
struct LyingSource;

impl MetadataSource for LyingSource {
    fn fetch(
        &mut self,
        role: Role,
        version: MetadataVersion,
        _max_length: Option<usize>,
        _hash: Option<HashEntry>,
    ) -> Result<SignedEnvelope, Error> {
        match version {
            MetadataVersion::Latest => Ok(root_doc(3, vec![1, 2])),
            MetadataVersion::Number(_) => {
                let mut doc = root_doc(9, vec![1, 2]);
                doc.role = role;
                Ok(doc)
            }
        }
    }
}

#[test]
fn config_builder_defaults() {
    let default = Config::build();
    assert_eq!(default.max_root_size, Some(1024 * 1024));
    assert_eq!(default.max_timestamp_size, Some(32 * 1024));
    let explicit = Config::build()
        .max_root_size(Some(1024 * 1024))
        .max_timestamp_size(Some(32 * 1024));
    assert_eq!(explicit, default);
    let config = default.finish().unwrap();
    assert_eq!(config.max_root_size, Some(1024 * 1024));
    assert_eq!(config.max_timestamp_size, Some(32 * 1024));
}

#[test]
fn config_builder_setters() {
    let config = Config::build()
        .max_root_size(None)
        .max_timestamp_size(Some(77))
        .finish()
        .unwrap();
    assert_eq!(config.max_root_size, None);
    assert_eq!(config.max_timestamp_size, Some(77));
}

#[test]
fn hash_preference_prefers_sha512() {
    let hs = vec![
        HashEntry { algorithm: HashAlgorithm::Sha256, digest: vec![1] },
        HashEntry { algorithm: HashAlgorithm::Sha512, digest: vec![2] },
    ];
    let h = hash_preference(&hs).unwrap();
    assert_eq!(h.algorithm, HashAlgorithm::Sha512);
    assert_eq!(h.digest, vec![2]);
}

#[test]
fn hash_preference_falls_back_to_sha256() {
    let hs = vec![HashEntry { algorithm: HashAlgorithm::Sha256, digest: vec![9, 9] }];
    let h = hash_preference(&hs).unwrap();
    assert_eq!(h.algorithm, HashAlgorithm::Sha256);
    assert_eq!(h.digest, vec![9, 9]);
}

#[test]
fn hash_preference_empty_fails() {
    let hs: Vec<HashEntry> = vec![];
    assert!(matches!(hash_preference(&hs), Err(Error::VerificationFailure)));
}

#[test]
fn adopt_root_requires_next_version() {
    let mut store = store_v1();
    // Two versions ahead: verified but not adopted.
    assert_eq!(store.try_adopt_root(root_doc(3, vec![1, 2])), Ok(false));
    assert_eq!(store.root_version, 1);
    // The next version in sequence is adopted.
    assert_eq!(store.try_adopt_root(root_doc(2, vec![1, 2])), Ok(true));
    assert_eq!(store.root_version, 2);
    // Re-offering the now-current version is not adopted.
    assert_eq!(store.try_adopt_root(root_doc(2, vec![1, 2])), Ok(false));
    assert_eq!(store.root_version, 2);
}

#[test]
fn adopt_root_threshold() {
    let mut store = store_v1();
    // One authorized signature where two are needed.
    assert_eq!(
        store.try_adopt_root(root_doc(2, vec![1])),
        Err(Error::VerificationFailure)
    );
    // A repeated key id counts once.
    assert_eq!(
        store.try_adopt_root(root_doc(2, vec![1, 1, 1])),
        Err(Error::VerificationFailure)
    );
    // Unauthorized ids do not count.
    assert_eq!(
        store.try_adopt_root(root_doc(2, vec![1, 77, 88])),
        Err(Error::VerificationFailure)
    );
    assert_eq!(store.root_version, 1);
    assert_eq!(store.try_adopt_root(root_doc(2, vec![3, 77, 1])), Ok(true));
    assert_eq!(store.root_version, 2);
}

#[test]
fn adopt_timestamp_monotonic() {
    let mut store = store_v1();
    assert_eq!(store.try_adopt_timestamp(timestamp_doc(2)), Ok(true));
    // Same version again: not adopted.
    assert_eq!(store.try_adopt_timestamp(timestamp_doc(2)), Ok(false));
    // Older version: not adopted.
    assert_eq!(store.try_adopt_timestamp(timestamp_doc(1)), Ok(false));
    // Wrong signer: a verification error.
    let mut bad = timestamp_doc(3);
    bad.signatures = vec![20];
    assert_eq!(store.try_adopt_timestamp(bad), Err(Error::VerificationFailure));
}

#[test]
fn source_latest_picks_highest_version() {
    let mut src = InMemorySource::new();
    src.add(root_doc(2, vec![1, 2]));
    src.add(root_doc(4, vec![1, 2]));
    src.add(root_doc(3, vec![1, 2]));
    let env = src
        .fetch(Role::Root, MetadataVersion::Latest, None, None)
        .unwrap();
    assert_eq!(env.version, 4);
    let env = src
        .fetch(Role::Root, MetadataVersion::Number(3), None, None)
        .unwrap();
    assert_eq!(env.version, 3);
    assert_eq!(
        src.fetch(Role::Timestamp, MetadataVersion::Latest, None, None)
            .err(),
        Some(Error::NotFound)
    );
}

#[test]
fn source_enforces_length_bound() {
    let mut src = full_source();
    let r = src.fetch(Role::Snapshot, MetadataVersion::Latest, Some(10), None);
    assert_eq!(r.err(), Some(Error::VerificationFailure));
    assert!(src
        .fetch(Role::Snapshot, MetadataVersion::Latest, Some(60), None)
        .is_ok());
}

#[test]
fn source_enforces_digest() {
    let mut src = full_source();
    let wrong = HashEntry { algorithm: HashAlgorithm::Sha256, digest: vec![0xAA, 0x02] };
    let r = src.fetch(Role::Snapshot, MetadataVersion::Latest, None, Some(wrong));
    assert_eq!(r.err(), Some(Error::VerificationFailure));
    let right = HashEntry { algorithm: HashAlgorithm::Sha256, digest: vec![0xAA, 0x01] };
    assert!(src
        .fetch(Role::Snapshot, MetadataVersion::Latest, None, Some(right))
        .is_ok());
}

#[test]
fn root_unchanged_is_noop() {
    let mut store = store_v1();
    let mut src = full_source();
    let r = update_root(&mut store, &mut src, None);
    assert_eq!(r, Ok(false));
    assert_eq!(store.root_version, 1);
}

#[test]
fn root_rollback_fails() {
    let mut store = store_v1();
    let mut src = InMemorySource::new();
    src.add(root_doc(0, vec![1, 2]));
    let r = update_root(&mut store, &mut src, None);
    assert_eq!(r, Err(Error::VerificationFailure));
    assert_eq!(store.root_version, 1);
}

#[test]
fn root_steps_through_intermediates() {
    let mut store = store_v1();
    let mut src = InMemorySource::new();
    src.add(root_doc(2, vec![1, 2]));
    src.add(root_doc(3, vec![2, 3]));
    let r = update_root(&mut store, &mut src, None);
    assert_eq!(r, Ok(true));
    assert_eq!(store.root_version, 3);
}

#[test]
fn root_steps_through_long_chain() {
    let mut store = store_v1();
    let mut src = InMemorySource::new();
    src.add(root_doc(2, vec![1, 2]));
    src.add(root_doc(3, vec![2, 3]));
    src.add(root_doc(4, vec![1, 3]));
    src.add(root_doc(5, vec![1, 2, 3]));
    let r = update_root(&mut store, &mut src, None);
    assert_eq!(r, Ok(true));
    assert_eq!(store.root_version, 5);
    // Rotation is all-or-nothing: offering v8 with v6 present but v7
    // missing fails, and not even v6 is kept — the trusted version
    // stays exactly where it was.
    src.add(root_doc(6, vec![1, 2]));
    src.add(root_doc(8, vec![1, 2]));
    let r = update_root(&mut store, &mut src, None);
    assert_eq!(r, Err(Error::NotFound));
    assert_eq!(store.root_version, 5);
}

#[test]
fn root_bad_intermediate_keeps_current() {
    let mut store = store_v1();
    let mut src = InMemorySource::new();
    // Version 2 fails signature verification; version 3 is valid but
    // must never be examined for adoption.
    src.add(root_doc(2, vec![1]));
    src.add(root_doc(3, vec![1, 2]));
    let r = update_root(&mut store, &mut src, None);
    assert_eq!(r, Err(Error::VerificationFailure));
    assert_eq!(store.root_version, 1);
}

#[test]
fn root_missing_intermediate_keeps_current() {
    let mut store = store_v1();
    let mut src = InMemorySource::new();
    src.add(root_doc(3, vec![1, 2]));
    let r = update_root(&mut store, &mut src, None);
    assert_eq!(r, Err(Error::NotFound));
    assert_eq!(store.root_version, 1);
}

#[test]
fn root_oversize_rejected() {
    let mut store = store_v1();
    let mut src = InMemorySource::new();
    src.add(root_doc(2, vec![1, 2]));
    let r = update_root(&mut store, &mut src, Some(5));
    assert_eq!(r, Err(Error::VerificationFailure));
    assert_eq!(store.root_version, 1);
}

#[test]
fn root_lying_source_is_internal_error() {
    let mut store = store_v1();
    let mut src = LyingSource;
    let r = update_root(&mut store, &mut src, None);
    assert_eq!(r, Err(Error::Generic));
    assert_eq!(store.root_version, 1);
}

#[test]
fn snapshot_requires_trusted_timestamp() {
    let mut store = store_v1();
    let mut src = full_source();
    let r = update_snapshot(&mut store, &mut src);
    assert_eq!(r, Err(Error::MissingMetadata(Role::Timestamp)));
    assert_eq!(store.root_version, 1);
    assert!(store.snapshot.is_none());
}

#[test]
fn targets_requires_trusted_snapshot() {
    let mut store = store_v1();
    let mut src = full_source();
    let r = update_targets(&mut store, &mut src);
    assert_eq!(r, Err(Error::MissingMetadata(Role::Snapshot)));
    assert!(store.targets.is_none());
}

#[test]
fn snapshot_needs_descriptor() {
    let mut store = store_v1();
    let mut ts = timestamp_doc(1);
    ts.meta = None;
    assert_eq!(store.try_adopt_timestamp(ts), Ok(true));
    let mut src = full_source();
    let r = update_snapshot(&mut store, &mut src);
    assert_eq!(r, Err(Error::VerificationFailure));
    assert!(store.snapshot.is_none());
}

#[test]
fn snapshot_digest_mismatch_rejected() {
    let mut store = store_v1();
    assert_eq!(store.try_adopt_timestamp(timestamp_doc(1)), Ok(true));
    let mut src = InMemorySource::new();
    let mut snap = snapshot_doc(1);
    snap.digests = vec![HashEntry { algorithm: HashAlgorithm::Sha256, digest: vec![0xFF] }];
    src.add(snap);
    let r = update_snapshot(&mut store, &mut src);
    assert_eq!(r, Err(Error::VerificationFailure));
    assert!(store.snapshot.is_none());
}

#[test]
fn snapshot_adopted_under_descriptor() {
    let mut store = store_v1();
    assert_eq!(store.try_adopt_timestamp(timestamp_doc(1)), Ok(true));
    let mut src = full_source();
    let r = update_snapshot(&mut store, &mut src);
    assert_eq!(r, Ok(true));
    let snap = store.snapshot.as_ref().unwrap();
    assert_eq!(snap.version, 1);
    assert!(snap.payload.len() <= 100);
}

#[test]
fn snapshot_fetch_checks_preferred_algorithm() {
    // The descriptor lists digests under both algorithms; the fetch is
    // checked against the preferred one (the 512-bit entry), so a
    // document carrying only the 256-bit digest is rejected and one
    // carrying the 512-bit digest is accepted.
    let two_hash_descriptor = Descriptor {
        length: None,
        hashes: Some(vec![
            HashEntry { algorithm: HashAlgorithm::Sha256, digest: vec![0x11] },
            HashEntry { algorithm: HashAlgorithm::Sha512, digest: vec![0x22] },
        ]),
    };
    let mut ts = timestamp_doc(1);
    ts.meta = Some(two_hash_descriptor);

    let mut store = store_v1();
    assert_eq!(store.try_adopt_timestamp(ts), Ok(true));

    let mut snap_256_only = snapshot_doc(1);
    snap_256_only.digests =
        vec![HashEntry { algorithm: HashAlgorithm::Sha256, digest: vec![0x11] }];
    let mut src = InMemorySource::new();
    src.add(snap_256_only);
    assert_eq!(update_snapshot(&mut store, &mut src), Err(Error::VerificationFailure));
    assert!(store.snapshot.is_none());

    let mut snap_512 = snapshot_doc(1);
    snap_512.digests = vec![HashEntry { algorithm: HashAlgorithm::Sha512, digest: vec![0x22] }];
    let mut src = InMemorySource::new();
    src.add(snap_512);
    assert_eq!(update_snapshot(&mut store, &mut src), Ok(true));
    assert_eq!(store.snapshot.as_ref().unwrap().version, 1);
}

#[test]
fn local_update_adopts_everything() {
    let config = unbounded_config();
    let mut client = Client::new(store_v1(), config, full_source(), InMemorySource::new());
    let r = client.update_local();
    assert_eq!(r, Ok(true));
    assert_eq!(client.tuf.root_version, 1);
    assert_eq!(client.tuf.timestamp.as_ref().unwrap().version, 1);
    assert_eq!(client.tuf.snapshot.as_ref().unwrap().version, 1);
    assert_eq!(client.tuf.targets.as_ref().unwrap().version, 1);
}

#[test]
fn local_update_suppresses_non_root_failures() {
    let mut src = InMemorySource::new();
    src.add(root_doc(1, vec![1, 2]));
    // Timestamp signed by the wrong key: the stage fails, but the call
    // succeeds and reports no update.
    let mut bad_ts = timestamp_doc(1);
    bad_ts.signatures = vec![99];
    src.add(bad_ts);
    let mut client = Client::new(store_v1(), unbounded_config(), src, InMemorySource::new());
    let r = client.update_local();
    assert_eq!(r, Ok(false));
    assert!(client.tuf.timestamp.is_none());
}

#[test]
fn local_update_propagates_root_failure() {
    let mut src = InMemorySource::new();
    src.add(root_doc(0, vec![1, 2]));
    src.add(timestamp_doc(1));
    let mut client = Client::new(store_v1(), unbounded_config(), src, InMemorySource::new());
    let r = client.update_local();
    assert_eq!(r, Err(Error::VerificationFailure));
    assert!(client.tuf.timestamp.is_none());
}

#[test]
fn remote_update_fails_closed() {
    // The remote source has a valid root but no timestamp document;
    // unlike the local path, the failure propagates.
    let mut remote = InMemorySource::new();
    remote.add(root_doc(1, vec![1, 2]));
    let mut client = Client::new(store_v1(), unbounded_config(), InMemorySource::new(), remote);
    let r = client.update_remote();
    assert_eq!(r, Err(Error::NotFound));
}

#[test]
fn remote_update_reads_targets_from_local() {
    // Root, timestamp and snapshot come from the remote source; the
    // targets stage reads from the local one.
    let mut remote = InMemorySource::new();
    remote.add(root_doc(1, vec![1, 2]));
    remote.add(timestamp_doc(1));
    remote.add(snapshot_doc(1));
    let mut local = InMemorySource::new();
    local.add(targets_doc(1));
    let mut client = Client::new(store_v1(), unbounded_config(), local, remote);
    let r = client.update_remote();
    assert_eq!(r, Ok(true));
    assert_eq!(client.tuf.targets.as_ref().unwrap().version, 1);

    // With the targets document only on the remote side, the targets
    // stage fails and the failure propagates.
    let mut remote = InMemorySource::new();
    remote.add(root_doc(1, vec![1, 2]));
    remote.add(timestamp_doc(1));
    remote.add(snapshot_doc(1));
    remote.add(targets_doc(1));
    let mut client =
        Client::new(store_v1(), unbounded_config(), InMemorySource::new(), remote);
    let r = client.update_remote();
    assert_eq!(r, Err(Error::NotFound));
}

#[test]
fn stage_order_root_before_timestamp() {
    // No root document at all, and a timestamp that would fail
    // verification: the error is the root stage's.
    let mut remote = InMemorySource::new();
    let mut bad_ts = timestamp_doc(1);
    bad_ts.signatures = vec![99];
    remote.add(bad_ts);
    let mut client = Client::new(store_v1(), unbounded_config(), InMemorySource::new(), remote);
    assert_eq!(client.update_remote(), Err(Error::NotFound));
}

#[test]
fn stage_order_timestamp_before_snapshot() {
    // No trusted timestamp and no timestamp document: the timestamp
    // stage's NotFound comes first, not the snapshot stage's
    // missing-prerequisite error.
    let mut remote = InMemorySource::new();
    remote.add(root_doc(1, vec![1, 2]));
    let mut client = Client::new(store_v1(), unbounded_config(), InMemorySource::new(), remote);
    assert_eq!(client.update_remote(), Err(Error::NotFound));
}

#[test]
fn stage_order_snapshot_before_targets() {
    // The trusted timestamp carries no snapshot descriptor, so the
    // snapshot stage fails with a verification error before the
    // targets stage could report its missing prerequisite.
    let mut store = store_v1();
    let mut ts = timestamp_doc(5);
    ts.meta = None;
    assert_eq!(store.try_adopt_timestamp(ts), Ok(true));
    let mut remote = InMemorySource::new();
    remote.add(root_doc(1, vec![1, 2]));
    // An older timestamp: fetched fine, not adopted, no error, so the
    // descriptor-less trusted timestamp stays in force.
    remote.add(timestamp_doc(1));
    let mut client = Client::new(store, unbounded_config(), InMemorySource::new(), remote);
    assert_eq!(client.update_remote(), Err(Error::VerificationFailure));
    assert!(client.tuf.targets.is_none());
}

#[test]
fn second_local_update_reports_no_change() {
    let mut client =
        Client::new(store_v1(), unbounded_config(), full_source(), InMemorySource::new());
    assert_eq!(client.update_local(), Ok(true));
    assert_eq!(client.update_local(), Ok(false));
}

#[test]
fn second_remote_update_reports_no_change() {
    let mut remote = InMemorySource::new();
    remote.add(root_doc(1, vec![1, 2]));
    remote.add(timestamp_doc(1));
    remote.add(snapshot_doc(1));
    let mut local = InMemorySource::new();
    local.add(targets_doc(1));
    let mut client = Client::new(store_v1(), unbounded_config(), local, remote);
    assert_eq!(client.update_remote(), Ok(true));
    assert_eq!(client.update_remote(), Ok(false));
}

#[test]
fn root_rotation_then_new_keys_govern() {
    // After rotating to version 2, the new delegations govern later
    // adoptions: version 3 signed under the old threshold set still
    // works here because the fixture keeps the same delegations.
    let mut store = store_v1();
    assert_eq!(store.try_adopt_root(root_doc(2, vec![1, 2])), Ok(true));
    let mut src = InMemorySource::new();
    src.add(root_doc(3, vec![2, 3]));
    src.add(root_doc(4, vec![1, 3]));
    let r = update_root(&mut store, &mut src, None);
    assert_eq!(r, Ok(true));
    assert_eq!(store.root_version, 4);
}

#[test]
fn timestamp_update_adopts_latest() {
    let mut store = store_v1();
    let mut src = InMemorySource::new();
    src.add(timestamp_doc(1));
    src.add(timestamp_doc(3));
    let r = update_timestamp(&mut store, &mut src, None);
    assert_eq!(r, Ok(true));
    assert_eq!(store.timestamp.as_ref().unwrap().version, 3);
    // Oversize timestamps are rejected by the bound.
    let mut store2 = store_v1();
    let r = update_timestamp(&mut store2, &mut src, Some(4));
    assert_eq!(r, Err(Error::VerificationFailure));
    assert!(store2.timestamp.is_none());
}
