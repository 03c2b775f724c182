//! Reference model of the guest program's execution.
//!
//! The guest reads exactly one positional value from its hint stream,
//! computes the bounded-modulus recurrence on it, and commits the pair
//! `[n, result]` as its public statement. Execution progress is counted in
//! cycles: one per recurrence step plus a fixed overhead for the read, the
//! commit and the exit. Both the statement and the cycle count are functions
//! of the hint bytes alone, so every run over the same inputs produces the
//! same trace.

use vstd::prelude::*;

use crate::codec::{read_u32_at, u32_from_le, u32s_encoding, SerializedStream};
use crate::fib::{fib, fib_spec};

verus! {

/// Cycles the guest spends outside the recurrence loop: reading the hint,
/// committing the statement, and exiting.
pub const GUEST_OVERHEAD_CYCLES: u64 = 3;

/// The hint value the guest reads: the first positional word of the stream.
pub open spec fn guest_hint(hints: Seq<u8>) -> u32
    recommends
        hints.len() >= 4,
{
    u32_from_le(hints.subrange(0, 4))
}

/// Total cycles a run on hint value `n` takes: one cycle per recurrence
/// step plus the fixed overhead.
pub open spec fn guest_cycles(n: u32) -> nat {
    (n + GUEST_OVERHEAD_CYCLES) as nat
}

/// The values the guest commits as its public statement: the hint value and
/// the recurrence result, in that order.
pub open spec fn guest_committed(n: u32) -> Seq<u32> {
    seq![n, fib_spec(n as nat) as u32]
}

/// The guest's public statement on the wire: its committed values in the
/// positional encoding.
pub open spec fn guest_statement(n: u32) -> Seq<u8> {
    u32s_encoding(guest_committed(n))
}

/// What a finished guest run leaves behind: the committed statement values
/// and the length of the cycle trace.
pub struct GuestRun {
    /// The hint value the guest read.
    pub hint: u32,
    /// The values the guest committed, in commit order.
    pub committed: Vec<u32>,
    /// Total cycles of the execution trace.
    pub cycles: u64,
}

/// Run the guest to completion on its hint stream: read one positional
/// value, compute the recurrence, commit `[n, result]`.
pub fn run_guest(hint_stream: &SerializedStream) -> (r: GuestRun)
    requires
        hint_stream@.len() >= 4,
    ensures
        r.hint == guest_hint(hint_stream@),
        r.committed@ == guest_committed(guest_hint(hint_stream@)),
        r.cycles == guest_cycles(guest_hint(hint_stream@)),
{
    let n: u32 = match read_u32_at(hint_stream.as_bytes(), 0) {
        Some(p) => p.0,
        None => vstd::pervasive::unreached(),
    };
    let result = fib(n);
    let committed: Vec<u32> = vec![n, result];
    let cycles: u64 = n as u64 + GUEST_OVERHEAD_CYCLES;
    proof {
        assert(committed@ =~= guest_committed(n));
    }
    GuestRun { hint: n, committed, cycles }
}

} // verus!
