//! Flags and enumerations that the firmware writes as raw numbers.

use vstd::prelude::*;

pub mod debug_mode;
pub mod disabled_fields;
pub mod failsafe_phase;
pub mod features;
pub mod flight_mode;
pub mod pwm_protocol;
pub mod state;

pub use self::debug_mode::DebugMode;
pub use self::disabled_fields::{DisabledFields, FieldGroup};
pub use self::failsafe_phase::FailsafePhase;
pub use self::features::{Feature, FeatureSet};
pub use self::flight_mode::{FlightMode, FlightModeSet};
pub use self::pwm_protocol::PwmProtocol;
pub use self::state::{State, StateSet};

verus! {

/// Whether bit `bit` of `raw` is set.
pub open spec fn bit_set(raw: u32, bit: u32) -> bool {
    bit < 32 && (raw >> bit) & 1 == 1
}

/// The indices of the set bits of `raw` below `n`, lowest first.
pub open spec fn ones_below(raw: u32, n: nat) -> Seq<usize>
    decreases n,
{
    if n == 0 {
        seq![]
    } else {
        let rest = ones_below(raw, (n - 1) as nat);
        if bit_set(raw, (n - 1) as u32) {
            rest.push((n - 1) as usize)
        } else {
            rest
        }
    }
}

/// The indices below `n` in `ones_below` are exactly the set bits, each
/// below `n`, in increasing order.
pub proof fn lemma_ones_below(raw: u32, n: nat)
    requires
        n <= 32,
    ensures
        forall|i: int| 0 <= i < ones_below(raw, n).len() ==> ones_below(raw, n)[i] < n,
        forall|i: int|
            0 <= i < ones_below(raw, n).len() ==> bit_set(raw, #[trigger] ones_below(raw, n)[i] as u32),
        forall|i: int, j: int|
            0 <= i < j < ones_below(raw, n).len() ==> ones_below(raw, n)[i] < ones_below(raw, n)[j],
        forall|b: u32| b < n && bit_set(raw, b) ==> ones_below(raw, n).contains(b as usize),
    decreases n,
{
    if n > 0 {
        let m = (n - 1) as nat;
        lemma_ones_below(raw, m);
        let rest = ones_below(raw, m);
        assert forall|b: u32| b < n && bit_set(raw, b) implies ones_below(raw, n).contains(
            b as usize,
        ) by {
            if b < m {
                let k = choose|k: int| 0 <= k < rest.len() && rest[k] == b as usize;
                assert(ones_below(raw, n)[k] == b as usize);
            } else {
                assert(ones_below(raw, n).last() == b as usize);
            }
        }
    }
}

/// Calls `BitArray::<u32, Lsb0>::iter_ones` of `bitvec` on `raw`: the indices
/// of its set bits, lowest first (with `Lsb0`, index `i` is the bit of value
/// `1 << i`).
#[verifier::external_body]
pub(crate) fn set_bits(raw: u32) -> (bits: Vec<usize>)
    ensures
        bits@ == ones_below(raw, 32),
{
    bitvec::array::BitArray::<u32, bitvec::order::Lsb0>::new(raw).iter_ones().collect()
}

/// Indexes a `BitArray::<u32, Lsb0>` of `bitvec` holding `raw`: whether the
/// bit of value `1 << bit` is set. The index panics from 32 on.
#[verifier::external_body]
pub(crate) fn test_bit(raw: u32, bit: u32) -> (set: bool)
    requires
        bit < 32,
    ensures
        set == bit_set(raw, bit),
{
    bitvec::array::BitArray::<u32, bitvec::order::Lsb0>::new(raw)[bit as usize]
}

} // verus!
