//! Proof-set verification.
//!
//! From the same program and platform that drove proving, the verifier
//! rebuilds its checking context and holds an ordered proof set against the
//! expected public statement and a total cycle bound. The checks run in a
//! fixed order — chain shape first, then the committed statement, then the
//! cycle count — and each failure is reported by the check that tripped.
//! Verification never partially succeeds.

use vstd::prelude::*;

use crate::codec::SerializedStream;
use crate::platform::{Platform, Program};
use crate::prover::{
    chain_commits, chain_contiguous, chain_cycles, chain_valid, proof_views, Proof, ProofView,
};

verus! {

/// The reason a proof set failed verification.
#[derive(Clone, Copy, Debug, PartialEq, Eq, Structural)]
pub enum VerifyError {
    /// The proof set is empty, out of order, or leaves a hole in the trace.
    ProofGap,
    /// The committed public statement differs from the expected one.
    PublicIOMismatch,
    /// The committed execution is longer than the allowed cycle bound.
    CycleOverrun,
}

/// Check an ordered proof set against the expected public statement and the
/// cycle bound, under the same program and platform the proofs were made
/// with. Succeeds exactly on proof sets that cover one whole execution
/// committing that statement within the bound; each failing check names
/// itself, in checking order.
#[verifier::rlimit(100)]
pub fn verify(
    program: &Program,
    platform: &Platform,
    proofs: &Vec<Proof>,
    expected_public_io: &SerializedStream,
    cycle_limit: u64,
) -> (r: Result<(), VerifyError>)
    requires
        platform.wf(*program),
        expected_public_io@.len() <= platform.pub_io.size,
    ensures
        r is Ok <==> chain_valid(proof_views(proofs@), expected_public_io@, cycle_limit as nat),
        r == Result::<(), VerifyError>::Err(VerifyError::ProofGap) <==> !chain_contiguous(
            proof_views(proofs@),
        ),
        r == Result::<(), VerifyError>::Err(VerifyError::PublicIOMismatch) <==> chain_contiguous(
            proof_views(proofs@),
        ) && !chain_commits(proof_views(proofs@), expected_public_io@),
        r == Result::<(), VerifyError>::Err(VerifyError::CycleOverrun) <==> chain_contiguous(
            proof_views(proofs@),
        ) && chain_commits(proof_views(proofs@), expected_public_io@) && chain_cycles(
            proof_views(proofs@),
        ) > cycle_limit,
{
    let ghost ps = proof_views(proofs@);
    if proofs.len() == 0 {
        return Err(VerifyError::ProofGap);
    }
    let last = proofs.len() - 1;
    let total_committed: u128 = proofs[last].start_cycle as u128 + proofs[last].num_cycles as u128;
    proof {
        assert(chain_cycles(ps) == total_committed);
    }
    let mut i: usize = 0;
    while i < proofs.len()
        invariant
            0 <= i <= proofs@.len(),
            0 < proofs@.len(),
            ps == proof_views(proofs@),
            total_committed == chain_cycles(ps),
            forall|j: int| 0 <= j < i ==> (#[trigger] ps[j]).shard_index == j,
            forall|j: int|
                0 < j < i ==> (#[trigger] ps[j]).start_cycle == ps[j - 1].start_cycle + ps[j
                    - 1].num_cycles,
            forall|j: int| 0 <= j < i ==> (#[trigger] ps[j]).total_cycles == chain_cycles(ps),
            i > 0 ==> ps[0].start_cycle == 0,
        decreases proofs@.len() - i,
    {
        let link = &proofs[i];
        proof {
            assert(ps[i as int] == proofs@[i as int]@);
        }
        if link.shard_index as u128 != i as u128 {
            proof {
                assert(ps[i as int].shard_index != i as int);
                assert(!chain_contiguous(ps));
            }
            return Err(VerifyError::ProofGap);
        }
        if i == 0 {
            if link.start_cycle != 0 {
                return Err(VerifyError::ProofGap);
            }
        } else {
            let prev = &proofs[i - 1];
            if link.start_cycle as u128 != prev.start_cycle as u128 + prev.num_cycles as u128 {
                proof {
                    assert(ps[i as int - 1] == proofs@[i as int - 1]@);
                    assert(ps[i as int].start_cycle != ps[i as int - 1].start_cycle + ps[i as int
                        - 1].num_cycles);
                    assert(!chain_contiguous(ps));
                }
                return Err(VerifyError::ProofGap);
            }
        }
        if link.total_cycles as u128 != total_committed {
            proof {
                assert(ps[i as int].total_cycles != chain_cycles(ps));
                assert(!chain_contiguous(ps));
            }
            return Err(VerifyError::ProofGap);
        }
        i = i + 1;
    }
    proof {
        assert(chain_contiguous(ps));
    }
    let expected = expected_public_io.as_bytes();
    let mut j: usize = 0;
    while j < proofs.len()
        invariant
            0 <= j <= proofs@.len(),
            ps == proof_views(proofs@),
            chain_contiguous(ps),
            expected@ == expected_public_io@,
            total_committed == chain_cycles(ps),
            forall|m: int| 0 <= m < j ==> (#[trigger] ps[m]).committed_io == expected@,
        decreases proofs@.len() - j,
    {
        if !bytes_eq(&proofs[j].committed_io, expected) {
            proof {
                assert(ps[j as int] == proofs@[j as int]@);
                assert(ps[j as int].committed_io != expected_public_io@);
                assert(!chain_commits(ps, expected_public_io@));
            }
            return Err(VerifyError::PublicIOMismatch);
        }
        j = j + 1;
    }
    proof {
        assert(chain_commits(ps, expected_public_io@));
    }
    if total_committed > cycle_limit as u128 {
        return Err(VerifyError::CycleOverrun);
    }
    Ok(())
}

/// Verification is sound against statement tampering: a proof set that
/// passes against one statement fails against any other, however the
/// expected statement was altered.
pub proof fn lemma_statement_flip_fails(
    ps: Seq<ProofView>,
    statement: Seq<u8>,
    altered: Seq<u8>,
    cycle_limit: nat,
)
    requires
        chain_valid(ps, statement, cycle_limit),
        altered != statement,
    ensures
        !chain_valid(ps, altered, cycle_limit),
{
    assert(ps[0].committed_io == statement);
}

/// Verification is sound against commitment tampering: flipping the
/// committed statement of any single link of a passing proof set makes the
/// set fail.
pub proof fn lemma_link_flip_fails(
    ps: Seq<ProofView>,
    statement: Seq<u8>,
    cycle_limit: nat,
    i: int,
    altered: Seq<u8>,
)
    requires
        chain_valid(ps, statement, cycle_limit),
        0 <= i < ps.len(),
        altered != statement,
    ensures
        !chain_valid(
            ps.update(i, ProofView { committed_io: altered, ..ps[i] }),
            statement,
            cycle_limit,
        ),
{
    let qs = ps.update(i, ProofView { committed_io: altered, ..ps[i] });
    assert(qs[i].committed_io == altered);
}

/// Verification is sound against dropped shards: removing any shard from a
/// passing proof set makes the set fail, as long as the removed shard is not
/// a trailing empty one (a set whose trace ends in zero-cycle shards cannot
/// tell those apart).
pub proof fn lemma_drop_shard_fails(
    ps: Seq<ProofView>,
    statement: Seq<u8>,
    cycle_limit: nat,
    i: int,
)
    requires
        chain_valid(ps, statement, cycle_limit),
        0 <= i < ps.len(),
        i + 1 < ps.len() || ps[i].num_cycles > 0,
    ensures
        !chain_valid(ps.remove(i), statement, cycle_limit),
{
    let qs = ps.remove(i);
    ps.remove_ensures(i);
    let n = ps.len() as int;
    if n == 1 {
        assert(qs.len() == 0);
    } else if i + 1 < n {
        if chain_contiguous(qs) {
            assert(qs[i] == ps[i + 1]);
            assert(qs[i].shard_index == i);
            assert(ps[i + 1].shard_index == i + 1);
            assert(false);
        }
    } else {
        if chain_contiguous(qs) {
            assert(qs[n - 2] == ps[n - 2]);
            assert(qs.last() == ps[n - 2]);
            assert(ps[n - 1].start_cycle == ps[n - 2].start_cycle + ps[n - 2].num_cycles);
            assert(chain_cycles(qs) == ps[n - 1].start_cycle);
            assert(qs[0].total_cycles == chain_cycles(qs));
            assert(ps[0].total_cycles == chain_cycles(ps));
            assert(qs[0] == ps[0]);
            assert(chain_cycles(ps) == ps[n - 1].start_cycle + ps[n - 1].num_cycles);
            assert(false);
        }
    }
}

/// Whether two byte strings are equal, byte for byte.
fn bytes_eq(a: &Vec<u8>, b: &Vec<u8>) -> (r: bool)
    ensures
        r <==> a@ == b@,
{
    if a.len() != b.len() {
        proof {
            assert(a@ != b@);
        }
        return false;
    }
    let mut i: usize = 0;
    while i < a.len()
        invariant
            0 <= i <= a@.len(),
            a@.len() == b@.len(),
            forall|j: int| 0 <= j < i ==> a@[j] == b@[j],
        decreases a@.len() - i,
    {
        if a[i] != b[i] {
            proof {
                assert(a@[i as int] != b@[i as int]);
            }
            return false;
        }
        i = i + 1;
    }
    proof {
        assert(a@ =~= b@);
    }
    true
}

} // verus!
