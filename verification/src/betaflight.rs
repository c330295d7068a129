//! Flight modes and disarm reasons of Betaflight logs.

use vstd::prelude::*;
use vstd::std_specs::convert::TryFromSpecImpl;

use crate::common::DisarmReasonError;
use crate::units::{bit_set, ones_below};

verus! {

/// Why Betaflight disarmed (`flightLogDisarmReason_e` in `core.h`).
#[derive(Debug, Clone, Copy, PartialEq, Eq, Structural)]
pub enum DisarmReason {
    ArmingDisabled,
    Failsafe,
    ThrottleTimeout,
    Sticks,
    Switch,
    CrashProtection,
    RunawayTakeoff,
    GpsRescue,
    SerialCommand,
}

/// The disarm reason with number `reason`.
pub open spec fn disarm_reason_of(reason: u32) -> Option<DisarmReason> {
    match reason {
        0 => Some(DisarmReason::ArmingDisabled),
        1 => Some(DisarmReason::Failsafe),
        2 => Some(DisarmReason::ThrottleTimeout),
        3 => Some(DisarmReason::Sticks),
        4 => Some(DisarmReason::Switch),
        5 => Some(DisarmReason::CrashProtection),
        6 => Some(DisarmReason::RunawayTakeoff),
        7 => Some(DisarmReason::GpsRescue),
        8 => Some(DisarmReason::SerialCommand),
        _ => None,
    }
}

impl DisarmReason {
    /// The disarm reason with number `reason`.
    pub fn from_u32(reason: u32) -> (r: Result<Self, DisarmReasonError>)
        ensures
            match disarm_reason_of(reason) {
                Some(d) => r == Ok::<Self, DisarmReasonError>(d),
                None => r == Err::<Self, DisarmReasonError>(DisarmReasonError),
            },
    {
        match reason {
            0 => Ok(DisarmReason::ArmingDisabled),
            1 => Ok(DisarmReason::Failsafe),
            2 => Ok(DisarmReason::ThrottleTimeout),
            3 => Ok(DisarmReason::Sticks),
            4 => Ok(DisarmReason::Switch),
            5 => Ok(DisarmReason::CrashProtection),
            6 => Ok(DisarmReason::RunawayTakeoff),
            7 => Ok(DisarmReason::GpsRescue),
            8 => Ok(DisarmReason::SerialCommand),
            _ => Err(DisarmReasonError),
        }
    }
}

impl TryFrom<u32> for DisarmReason {
    type Error = DisarmReasonError;

    fn try_from(reason: u32) -> (r: Result<Self, DisarmReasonError>) {
        Self::from_u32(reason)
    }
}

impl TryFromSpecImpl<u32> for DisarmReason {
    open spec fn obeys_try_from_spec() -> bool {
        true
    }

    open spec fn try_from_spec(reason: u32) -> Result<Self, DisarmReasonError> {
        match disarm_reason_of(reason) {
            Some(d) => Ok(d),
            None => Err(DisarmReasonError),
        }
    }
}

/// A Betaflight flight mode.
#[derive(Debug, Clone, Copy, PartialEq, Eq, Hash, Structural)]
pub enum FlightMode {
    Angle,
    Horizon,
    Mag,
    Baro,
    GpsHome,
    GpsHold,
    HeadFree,
    Passthru,
    RangeFinder,
    Failsafe,
}

/// The bit of `mode` in the flight mode flags.
pub open spec fn mode_bit(mode: FlightMode) -> u32 {
    match mode {
        FlightMode::Angle => 0,
        FlightMode::Horizon => 1,
        FlightMode::Mag => 2,
        FlightMode::Baro => 3,
        FlightMode::GpsHome => 4,
        FlightMode::GpsHold => 5,
        FlightMode::HeadFree => 6,
        FlightMode::Passthru => 8,
        FlightMode::RangeFinder => 9,
        FlightMode::Failsafe => 10,
    }
}

/// All flight modes, in the order of their bits.
pub open spec fn all_modes() -> Seq<FlightMode> {
    seq![
        FlightMode::Angle,
        FlightMode::Horizon,
        FlightMode::Mag,
        FlightMode::Baro,
        FlightMode::GpsHome,
        FlightMode::GpsHold,
        FlightMode::HeadFree,
        FlightMode::Passthru,
        FlightMode::RangeFinder,
        FlightMode::Failsafe,
    ]
}

/// The modes of `modes` that are set in `flags`, in the same order.
pub open spec fn modes_set(modes: Seq<FlightMode>, flags: u32) -> Seq<FlightMode>
    decreases modes.len(),
{
    if modes.len() == 0 {
        seq![]
    } else {
        let rest = modes_set(modes.drop_last(), flags);
        if bit_set(flags, mode_bit(modes.last())) {
            rest.push(modes.last())
        } else {
            rest
        }
    }
}

impl FlightMode {
    /// The bit of this mode in the flight mode flags.
    pub fn to_bit(self) -> (bit: usize)
        ensures
            bit == mode_bit(self),
    {
        match self {
            FlightMode::Angle => 0,
            FlightMode::Horizon => 1,
            FlightMode::Mag => 2,
            FlightMode::Baro => 3,
            FlightMode::GpsHome => 4,
            FlightMode::GpsHold => 5,
            FlightMode::HeadFree => 6,
            FlightMode::Passthru => 8,
            FlightMode::RangeFinder => 9,
            FlightMode::Failsafe => 10,
        }
    }
}

/// The flight mode flags of a Betaflight log.
#[derive(Debug, Clone, Copy, PartialEq, Eq, Hash, Structural)]
pub struct FlightModeFlags(pub u32);

impl FlightModeFlags {
    /// The flags `flags`.
    pub fn new(flags: u32) -> (f: Self)
        ensures
            f.0 == flags,
    {
        FlightModeFlags(flags)
    }

    /// Whether bit `bit` is set.
    fn is_bit_set(self, bit: usize) -> (set: bool)
        requires
            bit < 32,
        ensures
            set == bit_set(self.0, bit as u32),
    {
        let b = bit as u32;
        let flags = self.0;
        let set = (flags & (1u32 << b)) > 0;
        assert(set == bit_set(flags, b)) by (bit_vector)
            requires
                b < 32,
                set == ((flags & (1u32 << b)) > 0),
        ;
        set
    }

    /// Whether `mode` is set.
    pub fn is_mode_set(self, mode: FlightMode) -> (set: bool)
        ensures
            set == bit_set(self.0, mode_bit(mode)),
    {
        self.is_bit_set(mode.to_bit())
    }

    /// Whether the angle mode is set.
    pub fn angle(self) -> (set: bool)
        ensures
            set == bit_set(self.0, 0),
    {
        self.is_mode_set(FlightMode::Angle)
    }

    /// Whether the horizon mode is set.
    pub fn horizon(self) -> (set: bool)
        ensures
            set == bit_set(self.0, 1),
    {
        self.is_mode_set(FlightMode::Horizon)
    }

    /// Whether the magnetometer mode is set.
    pub fn mag(self) -> (set: bool)
        ensures
            set == bit_set(self.0, 2),
    {
        self.is_mode_set(FlightMode::Mag)
    }

    /// Whether the barometer mode is set.
    pub fn baro(self) -> (set: bool)
        ensures
            set == bit_set(self.0, 3),
    {
        self.is_mode_set(FlightMode::Baro)
    }

    /// Whether the GPS home mode is set.
    pub fn gps_home(self) -> (set: bool)
        ensures
            set == bit_set(self.0, 4),
    {
        self.is_mode_set(FlightMode::GpsHome)
    }

    /// Whether the GPS hold mode is set.
    pub fn gps_hold(self) -> (set: bool)
        ensures
            set == bit_set(self.0, 5),
    {
        self.is_mode_set(FlightMode::GpsHold)
    }

    /// Whether the headfree mode is set.
    pub fn headfree(self) -> (set: bool)
        ensures
            set == bit_set(self.0, 6),
    {
        self.is_mode_set(FlightMode::HeadFree)
    }

    /// Whether the passthrough mode is set.
    pub fn passthru(self) -> (set: bool)
        ensures
            set == bit_set(self.0, 8),
    {
        self.is_mode_set(FlightMode::Passthru)
    }

    /// Whether the rangefinder mode is set.
    pub fn rangefinder(self) -> (set: bool)
        ensures
            set == bit_set(self.0, 9),
    {
        self.is_mode_set(FlightMode::RangeFinder)
    }

    /// Whether the failsafe mode is set.
    pub fn failsafe(self) -> (set: bool)
        ensures
            set == bit_set(self.0, 10),
    {
        self.is_mode_set(FlightMode::Failsafe)
    }

    /// The modes that are set, in the order of their bits.
    pub fn to_modes(self) -> (modes: Vec<FlightMode>)
        ensures
            modes@ == modes_set(all_modes(), self.0),
    {
        let all: [FlightMode; 10] = [
            FlightMode::Angle,
            FlightMode::Horizon,
            FlightMode::Mag,
            FlightMode::Baro,
            FlightMode::GpsHome,
            FlightMode::GpsHold,
            FlightMode::HeadFree,
            FlightMode::Passthru,
            FlightMode::RangeFinder,
            FlightMode::Failsafe,
        ];
        assert(all@ == all_modes());
        let mut modes: Vec<FlightMode> = Vec::new();
        let mut i: usize = 0;
        while i < 10
            invariant
                i <= 10,
                all@ == all_modes(),
                modes@ == modes_set(all_modes().take(i as int), self.0),
            decreases 10 - i,
        {
            let mode = all[i];
            assert(all_modes().take(i + 1).drop_last() =~= all_modes().take(i as int));
            if self.is_mode_set(mode) {
                modes.push(mode);
            }
            i += 1;
        }
        assert(all_modes().take(10) =~= all_modes());
        modes
    }
}

/// A mode is listed by `to_modes` exactly when it is set.
pub proof fn lemma_to_modes_lists_set_modes(flags: u32, mode: FlightMode)
    ensures
        modes_set(all_modes(), flags).contains(mode) <==> bit_set(flags, mode_bit(mode)),
{
    lemma_modes_set_contains(all_modes(), flags, mode);
    if bit_set(flags, mode_bit(mode)) {
        let i = match mode {
            FlightMode::Angle => 0,
            FlightMode::Horizon => 1,
            FlightMode::Mag => 2,
            FlightMode::Baro => 3,
            FlightMode::GpsHome => 4,
            FlightMode::GpsHold => 5,
            FlightMode::HeadFree => 6,
            FlightMode::Passthru => 7,
            FlightMode::RangeFinder => 8,
            FlightMode::Failsafe => 9,
        };
        assert(all_modes()[i] == mode);
    }
}

/// A mode is among those of `modes` that are set exactly when it is one of
/// `modes` and set.
proof fn lemma_modes_set_contains(modes: Seq<FlightMode>, flags: u32, mode: FlightMode)
    ensures
        modes_set(modes, flags).contains(mode) <==> modes.contains(mode) && bit_set(
            flags,
            mode_bit(mode),
        ),
    decreases modes.len(),
{
    if modes.len() > 0 {
        let init = modes.drop_last();
        lemma_modes_set_contains(init, flags, mode);
        let rest = modes_set(init, flags);
        if modes_set(modes, flags).contains(mode) {
            let k = choose|k: int| 0 <= k < modes_set(modes, flags).len() && modes_set(modes, flags)[k] == mode;
            if k < rest.len() {
                assert(rest[k] == mode);
                let j = choose|j: int| 0 <= j < init.len() && init[j] == mode;
                assert(modes[j] == mode);
            } else {
                assert(modes[modes.len() - 1] == mode);
            }
        }
        if modes.contains(mode) && bit_set(flags, mode_bit(mode)) {
            let j = choose|j: int| 0 <= j < modes.len() && modes[j] == mode;
            if j < init.len() {
                assert(init[j] == mode);
                let k = choose|k: int| 0 <= k < rest.len() && rest[k] == mode;
                assert(modes_set(modes, flags)[k] == mode);
            } else {
                assert(modes_set(modes, flags).last() == mode);
            }
        }
    }
}

/// A bit of the flags kept by the mask of the flight mode bits is the bit of
/// the flags when it is the bit of a mode, and clear otherwise.
proof fn lemma_mode_mask_bit(flags: u32, b: u32)
    by (bit_vector)
    requires
        b < 32,
    ensures
        ((flags & 0x77f) >> b) & 1 == (if b <= 6 || (8 <= b && b <= 10) {
            (flags >> b) & 1
        } else {
            0
        }),
{
}

/// No bit from 11 on is set in the masked flags, so they add no index.
proof fn lemma_masked_ones(flags: u32, n: nat)
    requires
        11 <= n <= 32,
    ensures
        ones_below(flags & 0x77f, n) == ones_below(flags & 0x77f, 11),
    decreases n,
{
    if n > 11 {
        lemma_masked_ones(flags, (n - 1) as nat);
        lemma_mode_mask_bit(flags, (n - 1) as u32);
    }
}

/// Below bit `b`, up to bit 11, the masked flags have the bits of the flags
/// but for bit 7.
proof fn lemma_mask_bits_below(flags: u32, b: u32)
    requires
        b <= 11,
    ensures
        forall|c: u32|
            c < b ==> (bit_set(flags & 0x77f, c) <==> #[trigger] bit_set(flags, c) && c != 7),
    decreases b,
{
    if b > 0 {
        lemma_mask_bits_below(flags, (b - 1) as u32);
        lemma_mode_mask_bit(flags, (b - 1) as u32);
    }
}

/// The bit past the first `j` modes: the bits of the modes are 0 to 6,
/// then 8 to 10.
spec fn bits_past(j: int) -> nat {
    (if j <= 7 {
        j
    } else {
        j + 1
    }) as nat
}

/// The first `j` modes that are set are as many as the bits of the masked
/// flags that are set below the bit past them.
proof fn lemma_modes_count_prefix(flags: u32, j: int)
    requires
        0 <= j <= 10,
    ensures
        modes_set(all_modes().take(j), flags).len() == ones_below(flags & 0x77f, bits_past(j)).len(),
    decreases j,
{
    lemma_mask_bits_below(flags, 11);
    let all = all_modes();
    if j > 0 {
        lemma_modes_count_prefix(flags, j - 1);
        assert(all.take(j).drop_last() =~= all.take(j - 1));
        assert(all.take(j).last() == all[j - 1]);
        let c = (bits_past(j) - 1) as u32;
        assert(mode_bit(all[j - 1]) == c) by {
            if j == 1 {
                assert(all[0] == FlightMode::Angle);
            } else if j == 2 {
                assert(all[1] == FlightMode::Horizon);
            } else if j == 3 {
                assert(all[2] == FlightMode::Mag);
            } else if j == 4 {
                assert(all[3] == FlightMode::Baro);
            } else if j == 5 {
                assert(all[4] == FlightMode::GpsHome);
            } else if j == 6 {
                assert(all[5] == FlightMode::GpsHold);
            } else if j == 7 {
                assert(all[6] == FlightMode::HeadFree);
            } else if j == 8 {
                assert(all[7] == FlightMode::Passthru);
            } else if j == 9 {
                assert(all[8] == FlightMode::RangeFinder);
            } else {
                assert(all[9] == FlightMode::Failsafe);
            }
        }
        assert(bit_set(flags & 0x77f, c) <==> bit_set(flags, c));
        if j == 8 {
            lemma_mode_mask_bit(flags, 7);
            assert(!bit_set(flags & 0x77f, 7));
            assert(ones_below(flags & 0x77f, 8) == ones_below(flags & 0x77f, 7));
        }
    } else {
        assert(all.take(0) =~= Seq::<FlightMode>::empty());
    }
}

/// `to_modes` lists as many modes as the flags have bits set among those of
/// the flight modes: bits 0 to 6 and 8 to 10.
pub proof fn lemma_to_modes_count(flags: u32)
    ensures
        modes_set(all_modes(), flags).len() == ones_below(flags & 0x77f, 32).len(),
{
    lemma_masked_ones(flags, 32);
    lemma_modes_count_prefix(flags, 10);
    assert(all_modes().take(10) =~= all_modes());
}

/// The disarm reasons that Betaflight writes, by number: 0 ArmingDisabled, 1
/// Failsafe, 2 ThrottleTimeout, 3 Sticks, 4 Switch, 5 CrashProtection, 6
/// RunawayTakeoff, 7 GpsRescue, 8 SerialCommand; every other number stands for
/// none.
pub proof fn lemma_disarm_reasons(n: u32)
    ensures
        disarm_reason_of(n) == (if n == 0 {
            Some(DisarmReason::ArmingDisabled)
        } else if n == 1 {
            Some(DisarmReason::Failsafe)
        } else if n == 2 {
            Some(DisarmReason::ThrottleTimeout)
        } else if n == 3 {
            Some(DisarmReason::Sticks)
        } else if n == 4 {
            Some(DisarmReason::Switch)
        } else if n == 5 {
            Some(DisarmReason::CrashProtection)
        } else if n == 6 {
            Some(DisarmReason::RunawayTakeoff)
        } else if n == 7 {
            Some(DisarmReason::GpsRescue)
        } else if n == 8 {
            Some(DisarmReason::SerialCommand)
        } else {
            None::<DisarmReason>
        }),
{
}

/// The bits of the Betaflight flight modes: Angle 0, Horizon 1, Mag 2, Baro 3,
/// GpsHome 4, GpsHold 5, HeadFree 6, Passthru 8, RangeFinder 9, Failsafe 10.
pub proof fn lemma_mode_bits()
    ensures
        mode_bit(FlightMode::Angle) == 0,
        mode_bit(FlightMode::Horizon) == 1,
        mode_bit(FlightMode::Mag) == 2,
        mode_bit(FlightMode::Baro) == 3,
        mode_bit(FlightMode::GpsHome) == 4,
        mode_bit(FlightMode::GpsHold) == 5,
        mode_bit(FlightMode::HeadFree) == 6,
        mode_bit(FlightMode::Passthru) == 8,
        mode_bit(FlightMode::RangeFinder) == 9,
        mode_bit(FlightMode::Failsafe) == 10,
{
}

} // verus!
