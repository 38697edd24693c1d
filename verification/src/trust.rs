//! The trust store: the currently accepted root, timestamp, snapshot and
//! targets metadata, mutated only through per-role adoption operations
//! that check signature thresholds and version monotonicity.

use vstd::prelude::*;

use crate::error::Error;
use crate::metadata::{Role, RoleKeys, RootKeys, SignedEnvelope};

verus! {

/// How many distinct authorized key ids occur among the signatures.
pub open spec fn authorized_count(sigs: Seq<u64>, keys: Seq<u64>) -> nat
    decreases sigs.len(),
{
    if sigs.len() == 0 {
        0
    } else {
        authorized_count(sigs.drop_last(), keys) + (if keys.contains(sigs.last())
            && !sigs.drop_last().contains(sigs.last()) {
            1nat
        } else {
            0nat
        })
    }
}

/// The signatures meet the role's threshold: at least `threshold`
/// distinct authorized keys signed.
pub open spec fn threshold_met(sigs: Seq<u64>, rk: RoleKeys) -> bool {
    authorized_count(sigs, rk.keys@) >= rk.threshold
}

/// Whether `x` occurs in `v`.
fn key_ids_contain(v: &Vec<u64>, x: u64) -> (r: bool)
    ensures
        r == v@.contains(x),
{
    let mut i: usize = 0;
    while i < v.len()
        invariant
            i <= v@.len(),
            forall|k: int| 0 <= k < i ==> v@[k] != x,
        decreases v@.len() - i,
    {
        if v[i] == x {
            return true;
        }
        i = i + 1;
    }
    false
}

/// Whether `x` occurs among the first `n` entries of `v`.
fn key_ids_contain_prefix(v: &Vec<u64>, n: usize, x: u64) -> (r: bool)
    requires
        n <= v@.len(),
    ensures
        r == v@.take(n as int).contains(x),
{
    let mut i: usize = 0;
    while i < n
        invariant
            n <= v@.len(),
            i <= n,
            forall|k: int| 0 <= k < i ==> v@[k] != x,
        decreases n - i,
    {
        if v[i] == x {
            proof {
                assert(v@.take(n as int)[i as int] == x);
            }
            return true;
        }
        i = i + 1;
    }
    proof {
        assert forall|k: int| 0 <= k < n implies v@.take(n as int)[k] != x by {}
        assert(!v@.take(n as int).contains(x));
    }
    false
}

/// Count the distinct authorized signers and compare with the threshold.
pub fn check_threshold(sigs: &Vec<u64>, rk: &RoleKeys) -> (r: bool)
    ensures
        r == threshold_met(sigs@, *rk),
{
    let mut count: usize = 0;
    let mut i: usize = 0;
    while i < sigs.len()
        invariant
            i <= sigs@.len(),
            count <= i,
            count == authorized_count(sigs@.take(i as int), rk.keys@),
        decreases sigs@.len() - i,
    {
        let s = sigs[i];
        let fresh_authorized = key_ids_contain(&rk.keys, s) && !key_ids_contain_prefix(
            sigs,
            i,
            s,
        );
        proof {
            assert(sigs@.take(i + 1 as int).drop_last() =~= sigs@.take(i as int));
            assert(sigs@.take(i + 1 as int).last() == sigs@[i as int]);
        }
        if fresh_authorized {
            count = count + 1;
        }
        i = i + 1;
    }
    proof {
        assert(sigs@.take(sigs@.len() as int) =~= sigs@);
    }
    count >= rk.threshold as usize
}

/// The currently trusted metadata. The root is always present, taken
/// from a bootstrapped, out-of-band-trusted initial root; the other
/// three roles are absent until their first successful adoption.
pub struct TrustStore {
    pub root_version: u32,
    pub root_keys: RootKeys,
    pub timestamp: Option<SignedEnvelope>,
    pub snapshot: Option<SignedEnvelope>,
    pub targets: Option<SignedEnvelope>,
}

/// A candidate root passes verification: it is a root document carrying
/// its delegations, and it meets the root threshold both of the current
/// root and of its own declared key set.
pub open spec fn root_sigs_ok(s: TrustStore, env: SignedEnvelope) -> bool {
    match env.root_keys {
        Option::Some(k) => env.role == Role::Root && threshold_met(
            env.signatures@,
            s.root_keys.root,
        ) && threshold_met(env.signatures@, k.root),
        Option::None => false,
    }
}

/// A candidate root is adopted exactly when it passes verification and
/// carries the next version in sequence.
pub open spec fn root_adoptable(s: TrustStore, env: SignedEnvelope) -> bool {
    root_sigs_ok(s, env) && env.version == s.root_version + 1
}

/// A candidate timestamp passes verification under the trusted root's
/// delegated timestamp keys.
pub open spec fn timestamp_sigs_ok(s: TrustStore, env: SignedEnvelope) -> bool {
    env.role == Role::Timestamp && threshold_met(env.signatures@, s.root_keys.timestamp)
}

/// A candidate timestamp is adopted exactly when it passes verification
/// and is newer than the trusted one, if any.
pub open spec fn timestamp_adoptable(s: TrustStore, env: SignedEnvelope) -> bool {
    timestamp_sigs_ok(s, env) && (match s.timestamp {
        Option::Some(c) => env.version > c.version,
        Option::None => true,
    })
}

/// A candidate snapshot passes verification under the trusted root's
/// delegated snapshot keys.
pub open spec fn snapshot_sigs_ok(s: TrustStore, env: SignedEnvelope) -> bool {
    env.role == Role::Snapshot && threshold_met(env.signatures@, s.root_keys.snapshot)
}

/// A candidate snapshot is adopted exactly when it passes verification
/// and is newer than the trusted one, if any.
pub open spec fn snapshot_adoptable(s: TrustStore, env: SignedEnvelope) -> bool {
    snapshot_sigs_ok(s, env) && (match s.snapshot {
        Option::Some(c) => env.version > c.version,
        Option::None => true,
    })
}

/// A candidate targets document passes verification under the trusted
/// root's delegated targets keys.
pub open spec fn targets_sigs_ok(s: TrustStore, env: SignedEnvelope) -> bool {
    env.role == Role::Targets && threshold_met(env.signatures@, s.root_keys.targets)
}

/// A candidate targets document is adopted exactly when it passes
/// verification and is newer than the trusted one, if any.
pub open spec fn targets_adoptable(s: TrustStore, env: SignedEnvelope) -> bool {
    targets_sigs_ok(s, env) && (match s.targets {
        Option::Some(c) => env.version > c.version,
        Option::None => true,
    })
}

/// Law: an adoptable candidate root carries exactly the next version,
/// never less and never more. A rotation that completes therefore
/// passes through every intermediate version in order, and no offer
/// can move the trusted root backwards.
pub proof fn lemma_root_adoption_is_single_step(s: TrustStore, env: SignedEnvelope)
    ensures
        root_adoptable(s, env) ==> env.version == s.root_version + 1,
        env.version <= s.root_version ==> !root_adoptable(s, env),
{
}

/// Law: no candidate timestamp, snapshot or targets document whose
/// version does not exceed the trusted one is ever adoptable: replays
/// of older or current documents are refused, so trusted versions only
/// move forward.
pub proof fn lemma_no_rollback(s: TrustStore, env: SignedEnvelope)
    ensures
        (s.timestamp matches Some(c) && env.version <= c.version) ==> !timestamp_adoptable(
            s,
            env,
        ),
        (s.snapshot matches Some(c) && env.version <= c.version) ==> !snapshot_adoptable(s, env),
        (s.targets matches Some(c) && env.version <= c.version) ==> !targets_adoptable(s, env),
{
}

impl TrustStore {
    /// Start from a bootstrapped, out-of-band-trusted initial root.
    pub fn new(root_version: u32, root_keys: RootKeys) -> (r: Self)
        ensures
            r.root_version == root_version,
            r.root_keys == root_keys,
            r.timestamp is None,
            r.snapshot is None,
            r.targets is None,
    {
        TrustStore { root_version, root_keys, timestamp: None, snapshot: None, targets: None }
    }

    /// Attempt to adopt a candidate root. The candidate must meet the
    /// root signature threshold of the current root and of its own
    /// declared key set; failing that is a verification error. A
    /// verified candidate is adopted exactly when it carries the next
    /// version in sequence; any other version is reported as not
    /// adopted, without changing state.
    pub fn try_adopt_root(&mut self, env: SignedEnvelope) -> (r: Result<bool, Error>)
        ensures
            final(self).timestamp == old(self).timestamp,
            final(self).snapshot == old(self).snapshot,
            final(self).targets == old(self).targets,
            final(self).root_version >= old(self).root_version,
            r matches Ok(true) <==> root_adoptable(*old(self), env),
            r matches Ok(true) ==> final(self).root_version == env.version,
            r matches Ok(true) ==> (env.root_keys matches Some(k) ==> final(self).root_keys == k),
            !(r matches Ok(true)) ==> *final(self) == *old(self),
            r matches Err(_) <==> !root_sigs_ok(*old(self), env),
            r matches Err(e) ==> e == Error::VerificationFailure,
    {
        let keys = match env.root_keys {
            Some(k) => k,
            None => {
                return Err(Error::VerificationFailure);
            },
        };
        if env.role != Role::Root || !check_threshold(&env.signatures, &self.root_keys.root)
            || !check_threshold(&env.signatures, &keys.root) {
            return Err(Error::VerificationFailure);
        }
        if (env.version as u64) != (self.root_version as u64) + 1 {
            return Ok(false);
        }
        self.root_version = env.version;
        self.root_keys = keys;
        Ok(true)
    }

    /// Attempt to adopt a candidate timestamp. Failing the threshold
    /// under the trusted root's delegated timestamp keys is a
    /// verification error; a verified candidate is adopted exactly when
    /// it is newer than the trusted timestamp, if any.
    pub fn try_adopt_timestamp(&mut self, env: SignedEnvelope) -> (r: Result<bool, Error>)
        ensures
            final(self).root_version == old(self).root_version,
            final(self).root_keys == old(self).root_keys,
            final(self).snapshot == old(self).snapshot,
            final(self).targets == old(self).targets,
            r matches Ok(true) <==> timestamp_adoptable(*old(self), env),
            r matches Ok(true) ==> final(self).timestamp == (Some(env)),
            !(r matches Ok(true)) ==> *final(self) == *old(self),
            r matches Err(_) <==> !timestamp_sigs_ok(*old(self), env),
            r matches Err(e) ==> e == Error::VerificationFailure,
    {
        if env.role != Role::Timestamp || !check_threshold(
            &env.signatures,
            &self.root_keys.timestamp,
        ) {
            return Err(Error::VerificationFailure);
        }
        let fresh = match &self.timestamp {
            Some(c) => env.version > c.version,
            None => true,
        };
        if !fresh {
            return Ok(false);
        }
        self.timestamp = Some(env);
        Ok(true)
    }

    /// Attempt to adopt a candidate snapshot, as `try_adopt_timestamp`
    /// does, under the root's delegated snapshot keys.
    pub fn try_adopt_snapshot(&mut self, env: SignedEnvelope) -> (r: Result<bool, Error>)
        ensures
            final(self).root_version == old(self).root_version,
            final(self).root_keys == old(self).root_keys,
            final(self).timestamp == old(self).timestamp,
            final(self).targets == old(self).targets,
            r matches Ok(true) <==> snapshot_adoptable(*old(self), env),
            r matches Ok(true) ==> final(self).snapshot == (Some(env)),
            !(r matches Ok(true)) ==> *final(self) == *old(self),
            r matches Err(_) <==> !snapshot_sigs_ok(*old(self), env),
            r matches Err(e) ==> e == Error::VerificationFailure,
    {
        if env.role != Role::Snapshot || !check_threshold(
            &env.signatures,
            &self.root_keys.snapshot,
        ) {
            return Err(Error::VerificationFailure);
        }
        let fresh = match &self.snapshot {
            Some(c) => env.version > c.version,
            None => true,
        };
        if !fresh {
            return Ok(false);
        }
        self.snapshot = Some(env);
        Ok(true)
    }

    /// Attempt to adopt a candidate targets document, as
    /// `try_adopt_timestamp` does, under the root's delegated targets
    /// keys.
    pub fn try_adopt_targets(&mut self, env: SignedEnvelope) -> (r: Result<bool, Error>)
        ensures
            final(self).root_version == old(self).root_version,
            final(self).root_keys == old(self).root_keys,
            final(self).timestamp == old(self).timestamp,
            final(self).snapshot == old(self).snapshot,
            r matches Ok(true) <==> targets_adoptable(*old(self), env),
            r matches Ok(true) ==> final(self).targets == (Some(env)),
            !(r matches Ok(true)) ==> *final(self) == *old(self),
            r matches Err(_) <==> !targets_sigs_ok(*old(self), env),
            r matches Err(e) ==> e == Error::VerificationFailure,
    {
        if env.role != Role::Targets || !check_threshold(
            &env.signatures,
            &self.root_keys.targets,
        ) {
            return Err(Error::VerificationFailure);
        }
        let fresh = match &self.targets {
            Some(c) => env.version > c.version,
            None => true,
        };
        if !fresh {
            return Ok(false);
        }
        self.targets = Some(env);
        Ok(true)
    }
}

} // verus!
