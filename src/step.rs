use vstd::arithmetic::div_mod::lemma_small_mod;
use vstd::prelude::*;

verus! {

/// The step relation shared by generation and verification: the state
/// `[a, b]` goes to `[b, a + b]`, enforced by the single constraint
/// `(a + b) * 1 = sum`.
#[derive(Clone, Copy, Default)]
pub struct FibStep;

/// Number of field elements in the state threaded through the relation.
pub open spec fn state_arity() -> nat {
    2
}

/// The characteristic of the scalar field of the first curve of the pair, in
/// which the state lives.
pub open spec fn field_modulus() -> nat {
    0x40000000000000000000000000000000 * 0x10000000000000000 * 0x10000000000000000
        + 0x224698fc0994a8dd8c46eb2100000001
}

/// One application of the relation to a two-element state, each element an
/// integer below the field modulus.
pub open spec fn step_state(z: (int, int)) -> (int, int) {
    (z.1, (z.0 + z.1) % (field_modulus() as int))
}

/// The state after `n` applications of the relation, starting at `[1, 1]`.
pub open spec fn state_after(n: nat) -> (int, int)
    decreases n,
{
    if n == 0 {
        (1, 1)
    } else {
        step_state(state_after((n - 1) as nat))
    }
}

impl FibStep {
    /// The fixed arity of the relation.
    pub fn arity(&self) -> (r: usize)
        ensures
            r == state_arity(),
    {
        2
    }

    /// The second state component after `n` steps from `[1, 1]`, or `None`
    /// where some component on the way does not fit in 64 bits.
    pub fn second_after(&self, n: u64) -> (r: Option<u64>)
        ensures
            r matches Some(v) ==> v == state_after(n as nat).1,
            r is None ==> exists|j: nat| j <= n && state_after(j).1 > u64::MAX,
    {
        let mut a: u64 = 1;
        let mut b: u64 = 1;
        let mut i: u64 = 0;
        while i < n
            invariant
                i <= n,
                (a as int, b as int) == state_after(i as nat),
            decreases n - i,
        {
            if b > u64::MAX - a {
                proof {
                    lemma_small_mod((a + b) as nat, field_modulus());
                    assert(state_after((i + 1) as nat).1 > u64::MAX);
                }
                return None;
            }
            let s = a + b;
            proof {
                lemma_small_mod(s as nat, field_modulus());
            }
            a = b;
            b = s;
            i = i + 1;
        }
        Some(b)
    }
}

} // verus!
