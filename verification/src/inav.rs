//! Flight modes and disarm reasons of INAV logs.

use vstd::prelude::*;
use vstd::std_specs::convert::TryFromSpecImpl;

use crate::common::{DisarmReasonError, FlightModeFlags};
use crate::units::bit_set;

verus! {

/// Why INAV disarmed (`disarmReason_t` in `fc_core.h`).
#[derive(Debug, Clone, Copy, PartialEq, Eq, Structural)]
pub enum DisarmReason {
    NoReason,
    Timeout,
    Sticks,
    Switch3d,
    Switch,
    Killswitch,
    Failsafe,
    Navigation,
    Landing,
}

/// The disarm reason with number `reason`.
pub open spec fn disarm_reason_of(reason: u32) -> Option<DisarmReason> {
    match reason {
        0 => Some(DisarmReason::NoReason),
        1 => Some(DisarmReason::Timeout),
        2 => Some(DisarmReason::Sticks),
        3 => Some(DisarmReason::Switch3d),
        4 => Some(DisarmReason::Switch),
        5 => Some(DisarmReason::Killswitch),
        6 => Some(DisarmReason::Failsafe),
        7 => Some(DisarmReason::Navigation),
        8 => Some(DisarmReason::Landing),
        _ => None,
    }
}

impl DisarmReason {
    /// The disarm reason with number `reason`.
    pub fn from_u32(reason: u32) -> (r: Result<Self, DisarmReasonError>)
        ensures
            match disarm_reason_of(reason) {
                Some(d) => r == Ok::<Self, DisarmReasonError>(d),
                None => r == Err::<Self, DisarmReasonError>(DisarmReasonError),
            },
    {
        match reason {
            0 => Ok(DisarmReason::NoReason),
            1 => Ok(DisarmReason::Timeout),
            2 => Ok(DisarmReason::Sticks),
            3 => Ok(DisarmReason::Switch3d),
            4 => Ok(DisarmReason::Switch),
            5 => Ok(DisarmReason::Killswitch),
            6 => Ok(DisarmReason::Failsafe),
            7 => Ok(DisarmReason::Navigation),
            8 => Ok(DisarmReason::Landing),
            _ => Err(DisarmReasonError),
        }
    }
}

impl TryFrom<u32> for DisarmReason {
    type Error = DisarmReasonError;

    fn try_from(reason: u32) -> (r: Result<Self, DisarmReasonError>) {
        Self::from_u32(reason)
    }
}

impl TryFromSpecImpl<u32> for DisarmReason {
    open spec fn obeys_try_from_spec() -> bool {
        true
    }

    open spec fn try_from_spec(reason: u32) -> Result<Self, DisarmReasonError> {
        match disarm_reason_of(reason) {
            Some(d) => Ok(d),
            None => Err(DisarmReasonError),
        }
    }
}

/// An INAV flight mode (`flightModeFlags_e` in `runtime_config.h`).
#[derive(Debug, Clone, Copy, PartialEq, Eq, Hash, Structural)]
pub enum FlightMode {
    Angle,
    Horizon,
    Heading,
    NavAltHold,
    NavRth,
    NavPoshold,
    HeadFree,
    NavLaunch,
    Manual,
    Failsafe,
    AutoTune,
    NavWp,
    NavCourseHold,
    Flaperon,
    TurnAssistant,
    Turtle,
    Soaring,
}

/// The bit of `mode` in the flight mode flags.
pub open spec fn mode_bit(mode: FlightMode) -> u32 {
    match mode {
        FlightMode::Angle => 0,
        FlightMode::Horizon => 1,
        FlightMode::Heading => 2,
        FlightMode::NavAltHold => 3,
        FlightMode::NavRth => 4,
        FlightMode::NavPoshold => 5,
        FlightMode::HeadFree => 6,
        FlightMode::NavLaunch => 7,
        FlightMode::Manual => 8,
        FlightMode::Failsafe => 9,
        FlightMode::AutoTune => 10,
        FlightMode::NavWp => 11,
        FlightMode::NavCourseHold => 12,
        FlightMode::Flaperon => 13,
        FlightMode::TurnAssistant => 14,
        FlightMode::Turtle => 15,
        FlightMode::Soaring => 16,
    }
}

/// All flight modes, in the order of their bits.
pub open spec fn all_modes() -> Seq<FlightMode> {
    seq![
        FlightMode::Angle,
        FlightMode::Horizon,
        FlightMode::Heading,
        FlightMode::NavAltHold,
        FlightMode::NavRth,
        FlightMode::NavPoshold,
        FlightMode::HeadFree,
        FlightMode::NavLaunch,
        FlightMode::Manual,
        FlightMode::Failsafe,
        FlightMode::AutoTune,
        FlightMode::NavWp,
        FlightMode::NavCourseHold,
        FlightMode::Flaperon,
        FlightMode::TurnAssistant,
        FlightMode::Turtle,
        FlightMode::Soaring,
    ]
}

/// The modes of `modes` that are set in `flags`, in the same order.
pub open spec fn modes_set(modes: Seq<FlightMode>, flags: u32) -> Seq<FlightMode>
    decreases modes.len(),
{
    if modes.len() == 0 {
        seq![]
    } else {
        let rest = modes_set(modes.drop_last(), flags);
        if bit_set(flags, mode_bit(modes.last())) {
            rest.push(modes.last())
        } else {
            rest
        }
    }
}

impl FlightMode {
    /// The bit of this mode in the flight mode flags.
    pub fn to_bit(self) -> (bit: u32)
        ensures
            bit == mode_bit(self),
    {
        match self {
            FlightMode::Angle => 0,
            FlightMode::Horizon => 1,
            FlightMode::Heading => 2,
            FlightMode::NavAltHold => 3,
            FlightMode::NavRth => 4,
            FlightMode::NavPoshold => 5,
            FlightMode::HeadFree => 6,
            FlightMode::NavLaunch => 7,
            FlightMode::Manual => 8,
            FlightMode::Failsafe => 9,
            FlightMode::AutoTune => 10,
            FlightMode::NavWp => 11,
            FlightMode::NavCourseHold => 12,
            FlightMode::Flaperon => 13,
            FlightMode::TurnAssistant => 14,
            FlightMode::Turtle => 15,
            FlightMode::Soaring => 16,
        }
    }
}

impl FlightModeFlags<FlightMode> {
    /// Whether `mode` is set.
    pub fn is_mode_set(self, mode: FlightMode) -> (set: bool)
        ensures
            set == bit_set(self.0, mode_bit(mode)),
    {
        self.is_bit_set(mode.to_bit())
    }


    /// Whether the `Angle` mode is set.
    pub fn angle(self) -> (set: bool)
        ensures
            set == bit_set(self.0, 0),
    {
        self.is_mode_set(FlightMode::Angle)
    }


    /// Whether the `Horizon` mode is set.
    pub fn horizon(self) -> (set: bool)
        ensures
            set == bit_set(self.0, 1),
    {
        self.is_mode_set(FlightMode::Horizon)
    }


    /// Whether the `Heading` mode is set.
    pub fn heading(self) -> (set: bool)
        ensures
            set == bit_set(self.0, 2),
    {
        self.is_mode_set(FlightMode::Heading)
    }


    /// Whether the `NavAltHold` mode is set.
    pub fn nav_alt_hold(self) -> (set: bool)
        ensures
            set == bit_set(self.0, 3),
    {
        self.is_mode_set(FlightMode::NavAltHold)
    }


    /// Whether the `NavRth` mode is set.
    pub fn nav_rth(self) -> (set: bool)
        ensures
            set == bit_set(self.0, 4),
    {
        self.is_mode_set(FlightMode::NavRth)
    }


    /// Whether the `NavPoshold` mode is set.
    pub fn nav_poshold(self) -> (set: bool)
        ensures
            set == bit_set(self.0, 5),
    {
        self.is_mode_set(FlightMode::NavPoshold)
    }


    /// Whether the `HeadFree` mode is set.
    pub fn head_free(self) -> (set: bool)
        ensures
            set == bit_set(self.0, 6),
    {
        self.is_mode_set(FlightMode::HeadFree)
    }


    /// Whether the `NavLaunch` mode is set.
    pub fn nav_launch(self) -> (set: bool)
        ensures
            set == bit_set(self.0, 7),
    {
        self.is_mode_set(FlightMode::NavLaunch)
    }


    /// Whether the `Manual` mode is set.
    pub fn manual(self) -> (set: bool)
        ensures
            set == bit_set(self.0, 8),
    {
        self.is_mode_set(FlightMode::Manual)
    }


    /// Whether the `Failsafe` mode is set.
    pub fn failsafe(self) -> (set: bool)
        ensures
            set == bit_set(self.0, 9),
    {
        self.is_mode_set(FlightMode::Failsafe)
    }


    /// Whether the `AutoTune` mode is set.
    pub fn auto_tune(self) -> (set: bool)
        ensures
            set == bit_set(self.0, 10),
    {
        self.is_mode_set(FlightMode::AutoTune)
    }


    /// Whether the `NavWp` mode is set.
    pub fn nav_wp(self) -> (set: bool)
        ensures
            set == bit_set(self.0, 11),
    {
        self.is_mode_set(FlightMode::NavWp)
    }


    /// Whether the `NavCourseHold` mode is set.
    pub fn nav_course_hold(self) -> (set: bool)
        ensures
            set == bit_set(self.0, 12),
    {
        self.is_mode_set(FlightMode::NavCourseHold)
    }


    /// Whether the `Flaperon` mode is set.
    pub fn flaperon(self) -> (set: bool)
        ensures
            set == bit_set(self.0, 13),
    {
        self.is_mode_set(FlightMode::Flaperon)
    }


    /// Whether the `TurnAssistant` mode is set.
    pub fn turn_assistant(self) -> (set: bool)
        ensures
            set == bit_set(self.0, 14),
    {
        self.is_mode_set(FlightMode::TurnAssistant)
    }


    /// Whether the `Turtle` mode is set.
    pub fn turtle(self) -> (set: bool)
        ensures
            set == bit_set(self.0, 15),
    {
        self.is_mode_set(FlightMode::Turtle)
    }


    /// Whether the `Soaring` mode is set.
    pub fn soaring(self) -> (set: bool)
        ensures
            set == bit_set(self.0, 16),
    {
        self.is_mode_set(FlightMode::Soaring)
    }


    /// The modes that are set, in the order of their bits.
    pub fn to_modes(self) -> (modes: Vec<FlightMode>)
        ensures
            modes@ == modes_set(all_modes(), self.0),
    {
        let all: [FlightMode; 17] = [
            FlightMode::Angle,
            FlightMode::Horizon,
            FlightMode::Heading,
            FlightMode::NavAltHold,
            FlightMode::NavRth,
            FlightMode::NavPoshold,
            FlightMode::HeadFree,
            FlightMode::NavLaunch,
            FlightMode::Manual,
            FlightMode::Failsafe,
            FlightMode::AutoTune,
            FlightMode::NavWp,
            FlightMode::NavCourseHold,
            FlightMode::Flaperon,
            FlightMode::TurnAssistant,
            FlightMode::Turtle,
            FlightMode::Soaring,
        ];
        assert(all@ == all_modes());
        let mut modes: Vec<FlightMode> = Vec::new();
        let mut i: usize = 0;
        while i < 17
            invariant
                i <= 17,
                all@ == all_modes(),
                modes@ == modes_set(all_modes().take(i as int), self.0),
            decreases 17 - i,
        {
            let mode = all[i];
            assert(all_modes().take(i + 1).drop_last() =~= all_modes().take(i as int));
            if self.is_mode_set(mode) {
                modes.push(mode);
            }
            i += 1;
        }
        assert(all_modes().take(17) =~= all_modes());
        modes
    }
}

/// A mode is listed by `to_modes` exactly when it is set.
pub proof fn lemma_to_modes_lists_set_modes(flags: u32, mode: FlightMode)
    ensures
        modes_set(all_modes(), flags).contains(mode) <==> bit_set(flags, mode_bit(mode)),
{
    lemma_modes_set_contains(all_modes(), flags, mode);
    if bit_set(flags, mode_bit(mode)) {
        assert(all_modes()[mode_bit(mode) as int] == mode);
    }
}


/// A mode is among those of `modes` that are set exactly when it is one of
/// `modes` and set.
proof fn lemma_modes_set_contains(modes: Seq<FlightMode>, flags: u32, mode: FlightMode)
    ensures
        modes_set(modes, flags).contains(mode) <==> modes.contains(mode) && bit_set(
            flags,
            mode_bit(mode),
        ),
    decreases modes.len(),
{
    if modes.len() > 0 {
        let init = modes.drop_last();
        lemma_modes_set_contains(init, flags, mode);
        let rest = modes_set(init, flags);
        if modes_set(modes, flags).contains(mode) {
            let k = choose|k: int| 0 <= k < modes_set(modes, flags).len() && modes_set(modes, flags)[k] == mode;
            if k < rest.len() {
                assert(rest[k] == mode);
                let j = choose|j: int| 0 <= j < init.len() && init[j] == mode;
                assert(modes[j] == mode);
            } else {
                assert(modes[modes.len() - 1] == mode);
            }
        }
        if modes.contains(mode) && bit_set(flags, mode_bit(mode)) {
            let j = choose|j: int| 0 <= j < modes.len() && modes[j] == mode;
            if j < init.len() {
                assert(init[j] == mode);
                let k = choose|k: int| 0 <= k < rest.len() && rest[k] == mode;
                assert(modes_set(modes, flags)[k] == mode);
            } else {
                assert(modes_set(modes, flags).last() == mode);
            }
        }
    }
}

/// The disarm reasons that INAV writes, by number: 0 NoReason, 1 Timeout, 2
/// Sticks, 3 Switch3d, 4 Switch, 5 Killswitch, 6 Failsafe, 7 Navigation, 8
/// Landing; every other number stands for none.
pub proof fn lemma_disarm_reasons(n: u32)
    ensures
        disarm_reason_of(n) == (if n == 0 {
            Some(DisarmReason::NoReason)
        } else if n == 1 {
            Some(DisarmReason::Timeout)
        } else if n == 2 {
            Some(DisarmReason::Sticks)
        } else if n == 3 {
            Some(DisarmReason::Switch3d)
        } else if n == 4 {
            Some(DisarmReason::Switch)
        } else if n == 5 {
            Some(DisarmReason::Killswitch)
        } else if n == 6 {
            Some(DisarmReason::Failsafe)
        } else if n == 7 {
            Some(DisarmReason::Navigation)
        } else if n == 8 {
            Some(DisarmReason::Landing)
        } else {
            None::<DisarmReason>
        }),
{
}

/// The bits of the INAV flight modes: Angle 0, Horizon 1, Heading 2, NavAltHold
/// 3, NavRth 4, NavPoshold 5, HeadFree 6, NavLaunch 7, Manual 8, Failsafe 9,
/// AutoTune 10, NavWp 11, NavCourseHold 12, Flaperon 13, TurnAssistant 14,
/// Turtle 15, Soaring 16.
pub proof fn lemma_mode_bits()
    ensures
        mode_bit(FlightMode::Angle) == 0,
        mode_bit(FlightMode::Horizon) == 1,
        mode_bit(FlightMode::Heading) == 2,
        mode_bit(FlightMode::NavAltHold) == 3,
        mode_bit(FlightMode::NavRth) == 4,
        mode_bit(FlightMode::NavPoshold) == 5,
        mode_bit(FlightMode::HeadFree) == 6,
        mode_bit(FlightMode::NavLaunch) == 7,
        mode_bit(FlightMode::Manual) == 8,
        mode_bit(FlightMode::Failsafe) == 9,
        mode_bit(FlightMode::AutoTune) == 10,
        mode_bit(FlightMode::NavWp) == 11,
        mode_bit(FlightMode::NavCourseHold) == 12,
        mode_bit(FlightMode::Flaperon) == 13,
        mode_bit(FlightMode::TurnAssistant) == 14,
        mode_bit(FlightMode::Turtle) == 15,
        mode_bit(FlightMode::Soaring) == 16,
{
}

} // verus!
