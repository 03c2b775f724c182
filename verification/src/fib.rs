//! The bounded-modulus recurrence computed by the guest program.
//!
//! Host and guest must agree exactly on this function: the host uses it to
//! build the expected public statement, the guest commits its own result.

use vstd::prelude::*;

verus! {

/// Every intermediate value of the recurrence is reduced by this modulus,
/// which keeps the running pair well below `u32::MAX`.
pub const FIB_MODULUS: u32 = 7919;

/// The pair of consecutive recurrence values after `n` steps,
/// starting from `(0, 1)`.
pub open spec fn fib_pair(n: nat) -> (nat, nat)
    decreases n,
{
    if n == 0 {
        (0, 1)
    } else {
        let p = fib_pair((n - 1) as nat);
        (p.1, (p.0 + p.1) % (FIB_MODULUS as nat))
    }
}

/// The n-th recurrence value: the first component of the running pair,
/// so that the sequence starts 0, 1, 1, 2, 3, ...
pub open spec fn fib_spec(n: nat) -> nat {
    fib_pair(n).0
}

/// Compute the n-th value of the recurrence, reducing each step by
/// [`FIB_MODULUS`] so that no addition overflows.
pub fn fib(n: u32) -> (r: u32)
    ensures
        r == fib_spec(n as nat),
        r < FIB_MODULUS,
{
    let mut a: u32 = 0;
    let mut b: u32 = 1;
    for i in 0..n
        invariant
            a == fib_pair(i as nat).0,
            b == fib_pair(i as nat).1,
            a < FIB_MODULUS,
            b < FIB_MODULUS,
    {
        let c = (a + b) % FIB_MODULUS;
        a = b;
        b = c;
    }
    a
}

} // verus!
