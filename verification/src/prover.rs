//! Sharded proof generation.
//!
//! The prover runs the guest to completion, partitions the cycle trace into
//! contiguous shards of at most a configured number of cycles, and yields one
//! proof per shard in execution order. Every cycle of the trace belongs to
//! exactly one shard: no gaps, no overlaps. An execution of zero cycles still
//! yields exactly one (empty) shard. Shard boundaries are a pure function of
//! the cumulative cycle count, so identical inputs always produce identical
//! partitions.

use vstd::arithmetic::div_mod::{lemma_fundamental_div_mod, lemma_mod_bound};
use vstd::prelude::*;

use crate::codec::{u32s_encoding_len, SerializedStream};
use crate::guest::{guest_cycles, guest_hint, guest_statement, run_guest};
use crate::platform::{Platform, Program};

verus! {

/// Per-shard cycle bound of the reference configuration.
pub const MAX_CYCLE_PER_SHARD: u64 = 0x2000_0000;

/// A proof artifact bound to one shard of the execution trace. The cycle
/// range says which slice of the trace the shard covers; the committed
/// statement and the total cycle count are carried by every proof of the
/// chain, as the backend commits the final machine state into each link.
#[derive(Debug, PartialEq, Eq)]
pub struct Proof {
    /// Position of the shard in execution order, starting at zero.
    pub shard_index: u64,
    /// First cycle of the shard's slice of the trace.
    pub start_cycle: u64,
    /// Number of cycles the shard covers.
    pub num_cycles: u64,
    /// Total cycles of the whole execution the shard belongs to.
    pub total_cycles: u64,
    /// The public statement bytes committed by the execution.
    pub committed_io: Vec<u8>,
}

/// The mathematical content of a [`Proof`].
pub ghost struct ProofView {
    /// Position of the shard in execution order.
    pub shard_index: nat,
    /// First cycle of the shard.
    pub start_cycle: nat,
    /// Number of cycles the shard covers.
    pub num_cycles: nat,
    /// Total cycles of the whole execution.
    pub total_cycles: nat,
    /// The committed public statement bytes.
    pub committed_io: Seq<u8>,
}

impl View for Proof {
    type V = ProofView;

    open spec fn view(&self) -> ProofView {
        ProofView {
            shard_index: self.shard_index as nat,
            start_cycle: self.start_cycle as nat,
            num_cycles: self.num_cycles as nat,
            total_cycles: self.total_cycles as nat,
            committed_io: self.committed_io@,
        }
    }
}

/// The views of a proof sequence, in order.
pub open spec fn proof_views(ps: Seq<Proof>) -> Seq<ProofView> {
    ps.map_values(|p: Proof| p@)
}

/// Number of shards a trace of `total` cycles is cut into under a per-shard
/// bound of `bound` cycles: the least number of bound-sized shards that
/// cover the trace, and one trivial shard for an empty trace.
pub open spec fn shard_count(total: nat, bound: nat) -> nat
    recommends
        bound >= 1,
{
    if total == 0 {
        1
    } else {
        (total - 1) as nat / bound + 1
    }
}

/// The `i`-th shard of the partition: it starts where shard `i - 1` ended
/// and covers a full bound of cycles, or whatever remains of the trace.
pub open spec fn shard_at(total: nat, bound: nat, committed: Seq<u8>, i: nat) -> ProofView {
    let start = i * bound;
    let num: nat = if start + bound <= total {
        bound
    } else if start <= total {
        (total - start) as nat
    } else {
        0
    };
    ProofView {
        shard_index: i,
        start_cycle: start,
        num_cycles: num,
        total_cycles: total,
        committed_io: committed,
    }
}

/// The full partition of a trace into shards, in execution order.
pub open spec fn shards_of(total: nat, bound: nat, committed: Seq<u8>) -> Seq<ProofView> {
    Seq::new(shard_count(total, bound) as nat, |i: int| shard_at(total, bound, committed, i as nat))
}

/// An ordered proof set covers an execution trace completely: it is
/// non-empty, shard indices run `0 .. k - 1` with no gaps, the first shard
/// starts at cycle zero, every shard starts where the one before it ended,
/// and every link declares the chain's own endpoint as the execution's total
/// cycle count.
pub open spec fn chain_contiguous(ps: Seq<ProofView>) -> bool {
    &&& ps.len() > 0
    &&& ps[0].start_cycle == 0
    &&& (forall|i: int| 0 <= i < ps.len() ==> (#[trigger] ps[i]).shard_index == i)
    &&& (forall|i: int|
        0 < i < ps.len() ==> (#[trigger] ps[i]).start_cycle == ps[i - 1].start_cycle + ps[i
            - 1].num_cycles)
    &&& (forall|i: int|
        0 <= i < ps.len() ==> (#[trigger] ps[i]).total_cycles == chain_cycles(ps))
}

/// The cycle count a chain commits to: where its last shard ends.
pub open spec fn chain_cycles(ps: Seq<ProofView>) -> nat
    recommends
        ps.len() > 0,
{
    ps.last().start_cycle + ps.last().num_cycles
}

/// Every link of the chain commits exactly the expected statement bytes.
pub open spec fn chain_commits(ps: Seq<ProofView>, statement: Seq<u8>) -> bool {
    forall|i: int| 0 <= i < ps.len() ==> (#[trigger] ps[i]).committed_io == statement
}

/// A proof set passes verification against a statement and a cycle bound:
/// it is contiguous, commits exactly that statement, and its committed
/// cycle count stays within the bound.
pub open spec fn chain_valid(ps: Seq<ProofView>, statement: Seq<u8>, cycle_limit: nat) -> bool {
    &&& chain_contiguous(ps)
    &&& chain_commits(ps, statement)
    &&& chain_cycles(ps) <= cycle_limit
}

/// The partition size is the least cover: an empty trace still takes one
/// shard, and a non-empty one takes exactly enough bound-sized shards,
/// the last possibly partial.
pub proof fn lemma_shard_count_ceiling(total: nat, bound: nat)
    requires
        bound >= 1,
    ensures
        total == 0 ==> shard_count(total, bound) == 1,
        total > 0 ==> (shard_count(total, bound) - 1) * bound < total,
        total > 0 ==> total <= shard_count(total, bound) * bound,
{
    if total > 0 {
        let x = (total - 1) as int;
        let d = bound as int;
        lemma_fundamental_div_mod(x, d);
        lemma_mod_bound(x, d);
        let q = x / d;
        let r = x % d;
        assert((q + 1 - 1) * d == q * d) by (nonlinear_arith);
        assert((q + 1) * d == q * d + d) by (nonlinear_arith);
    }
}

/// The shard-count law: a trace of `total` cycles under a per-shard bound
/// of `bound` is covered by `max(1, ceil(total / bound))` proofs; in
/// particular an empty trace yields exactly one.
pub proof fn lemma_shard_count_law(total: nat, bound: nat)
    requires
        bound >= 1,
    ensures
        shard_count(total, bound) == vstd::math::max(1, (total + bound - 1) as int / bound as int),
        total == 0 ==> shard_count(total, bound) == 1,
{
    let d = bound as int;
    if total == 0 {
        assert((d - 1) / d == 0) by (nonlinear_arith)
            requires
                d >= 1,
        ;
    } else {
        let x = (total - 1) as int;
        assert((x + d) / d == x / d + 1) by (nonlinear_arith)
            requires
                d >= 1,
        ;
        assert(x / d >= 0) by (nonlinear_arith)
            requires
                x >= 0 && d >= 1,
        ;
    }
}

/// Every partition the prover yields verifies against the statement it
/// commits and any cycle bound at or above the trace's length.
pub proof fn lemma_shards_chain_valid(total: nat, bound: nat, committed: Seq<u8>, limit: nat)
    requires
        bound >= 1,
        total <= limit,
    ensures
        chain_valid(shards_of(total, bound, committed), committed, limit),
        chain_cycles(shards_of(total, bound, committed)) == total,
{
    let ps = shards_of(total, bound, committed);
    let k = shard_count(total, bound);
    lemma_shard_count_ceiling(total, bound);
    assert(ps[0].start_cycle == 0);
    assert forall|i: int| 0 <= i < k implies shard_end(total, bound, i) == if i + 1 < k {
        (i + 1) * bound
    } else {
        total as int
    } by {
        lemma_shard_shape(total, bound, i);
    }
    assert forall|i: int|
        0 < i < ps.len() implies (#[trigger] ps[i]).start_cycle == ps[i - 1].start_cycle + ps[i
        - 1].num_cycles by {
        lemma_shard_shape(total, bound, i - 1);
    }
    assert(chain_cycles(ps) == total) by {
        lemma_shard_shape(total, bound, k - 1);
    }
}

/// Where shard `i` ends.
pub open spec fn shard_end(total: nat, bound: nat, i: int) -> int
    recommends
        0 <= i,
{
    shard_at(total, bound, Seq::empty(), i as nat).start_cycle + shard_at(
        total,
        bound,
        Seq::empty(),
        i as nat,
    ).num_cycles as int
}

/// Each shard but the last covers a full bound of cycles and ends where the
/// next begins; the last ends exactly at the end of the trace.
proof fn lemma_shard_shape(total: nat, bound: nat, i: int)
    requires
        bound >= 1,
        0 <= i < shard_count(total, bound),
    ensures
        i * bound <= total,
        i + 1 < shard_count(total, bound) ==> shard_end(total, bound, i) == (i + 1) * bound,
        i + 1 == shard_count(total, bound) ==> shard_end(total, bound, i) == total,
{
    let k = shard_count(total, bound) as int;
    lemma_shard_count_ceiling(total, bound);
    assert(i * bound <= (k - 1) * bound) by (nonlinear_arith)
        requires
            0 <= i <= k - 1 && bound >= 0,
    ;
    assert((i + 1) * bound == i * bound + bound) by (nonlinear_arith);
    if i + 1 < k {
        assert((i + 1) * bound <= (k - 1) * bound) by (nonlinear_arith)
            requires
                0 <= i + 1 <= k - 1 && bound >= 0,
        ;
    }
}

/// Raised when the guest did not finish within the configured safety bound
/// on total execution cycles.
#[derive(Clone, Copy, Debug, PartialEq, Eq, Structural)]
pub struct CycleLimitExceeded;

/// Run the guest and cut its trace into proofs, one per shard of at most
/// `max_cycle_per_shard` cycles, in execution order. The partition covers
/// the whole trace with no gaps and no overlaps, and an empty trace still
/// yields one proof. Fails, returning no proofs at all, exactly when the
/// execution needs more than `cycle_limit` cycles.
///
/// The declared public-I/O stream is placed in the platform's public-I/O
/// region for the run, so it must fit there; what the proofs commit is the
/// statement the guest itself writes, and only verification compares the
/// two.
pub fn generate_proofs(
    program: &Program,
    platform: &Platform,
    hint_stream: &SerializedStream,
    public_io_stream: &SerializedStream,
    max_cycle_per_shard: u64,
    cycle_limit: u64,
) -> (r: Result<Vec<Proof>, CycleLimitExceeded>)
    requires
        max_cycle_per_shard >= 1,
        hint_stream@.len() >= 4,
        platform.pub_io.size >= u32s_encoding_len(2),
        public_io_stream@.len() <= platform.pub_io.size,
    ensures
        r is Ok <==> guest_cycles(guest_hint(hint_stream@)) <= cycle_limit,
        r matches Ok(ps) ==> ps@.len() == shard_count(
            guest_cycles(guest_hint(hint_stream@)),
            max_cycle_per_shard as nat,
        ),
        r matches Ok(ps) ==> proof_views(ps@) == shards_of(
            guest_cycles(guest_hint(hint_stream@)),
            max_cycle_per_shard as nat,
            guest_statement(guest_hint(hint_stream@)),
        ),
        r matches Ok(ps) ==> chain_valid(
            proof_views(ps@),
            guest_statement(guest_hint(hint_stream@)),
            cycle_limit as nat,
        ),
{
    let ghost n = guest_hint(hint_stream@);
    let run = run_guest(hint_stream);
    let total: u64 = run.cycles;
    if total > cycle_limit {
        return Err(CycleLimitExceeded);
    }
    let mut statement = SerializedStream::new(12);
    let committed_bytes: Vec<u8> = match statement.write_u32s(&run.committed) {
        Ok(_) => statement.finalize(),
        Err(_) => vstd::pervasive::unreached(),
    };
    proof {
        assert(committed_bytes@ =~= guest_statement(n));
    }
    let bound = max_cycle_per_shard;
    let k: u64 = if total == 0 {
        1
    } else {
        (total - 1) / bound + 1
    };
    let ghost shards = shards_of(total as nat, bound as nat, committed_bytes@);
    let mut proofs: Vec<Proof> = Vec::new();
    let mut start: u64 = 0;
    let mut i: u64 = 0;
    while i < k
        invariant
            0 <= i <= k,
            k == shard_count(total as nat, bound as nat),
            bound >= 1,
            shards == shards_of(total as nat, bound as nat, committed_bytes@),
            proofs@.len() == i,
            forall|j: int| 0 <= j < i ==> #[trigger] proofs@[j]@ == shards[j],
            i < k ==> start == i * bound,
            i == k ==> start == total,
            start <= total,
        decreases k - i,
    {
        proof {
            lemma_shard_shape(total as nat, bound as nat, i as int);
        }
        let rem = total - start;
        let num = if rem < bound {
            rem
        } else {
            bound
        };
        let link = Proof {
            shard_index: i,
            start_cycle: start,
            num_cycles: num,
            total_cycles: total,
            committed_io: copy_bytes(&committed_bytes),
        };
        proof {
            assert(link@ == shard_at(total as nat, bound as nat, committed_bytes@, i as nat));
        }
        proofs.push(link);
        start = start + num;
        i = i + 1;
        proof {
            if i < k {
                lemma_shard_shape(total as nat, bound as nat, i - 1);
            }
        }
    }
    proof {
        lemma_shards_chain_valid(total as nat, bound as nat, committed_bytes@, cycle_limit as nat);
        assert(proof_views(proofs@) =~= shards);
    }
    Ok(proofs)
}

/// Determinism of the partition: any two proof sequences the prover's
/// contract admits for the same trace length, shard bound and statement are
/// equal link for link.
pub proof fn lemma_partition_deterministic(
    ps1: Seq<ProofView>,
    ps2: Seq<ProofView>,
    total: nat,
    bound: nat,
    committed: Seq<u8>,
)
    requires
        ps1 == shards_of(total, bound, committed),
        ps2 == shards_of(total, bound, committed),
    ensures
        ps1 == ps2,
{
}

/// A fresh byte-for-byte copy of `src`.
fn copy_bytes(src: &Vec<u8>) -> (r: Vec<u8>)
    ensures
        r@ == src@,
{
    let mut out: Vec<u8> = Vec::new();
    proof {
        assert(out@ =~= src@.take(0));
    }
    for i in 0..src.len()
        invariant
            out@ == src@.take(i as int),
    {
        out.push(src[i]);
        proof {
            assert(out@ =~= src@.take(i + 1));
        }
    }
    proof {
        assert(src@.take(src@.len() as int) =~= src@);
    }
    out
}

} // verus!
