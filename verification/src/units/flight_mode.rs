//! All currently enabled flight modes.

use vstd::prelude::*;

use crate::headers::InternalFirmware;

use super::{bit_set, lemma_ones_below, ones_below, set_bits, test_bit};

verus! {

/// A flight mode.
#[derive(Debug, Clone, Copy, PartialEq, Eq, Hash, Structural)]
pub enum FlightMode {
    /// `ACRO TRAINER`
    AcroTrainer,
    /// `AIRMODE`
    Airmode,
    /// `ANGLE`
    Angle,
    /// `ANTI GRAVITY`
    AntiGravity,
    /// `ARM`
    Arm,
    /// `AUTOLEVEL`
    AutoLevel,
    /// `AUTOTRIM`
    AutoTrim,
    /// `AUTOTUNE`
    AutoTune,
    /// `BEEP GPS COUNT`
    BeepGpsCount,
    /// `BEEPER MUTE`
    BeeperMute,
    /// `BEEPERON`
    BeeperOn,
    /// `BLACKBOX`
    Blackbox,
    /// `BLACKBOX ERASE`
    BlackboxErase,
    /// `BRAKING`
    Braking,
    /// `CALIB`
    Calibration,
    /// `CAMSTAB`
    CamStab,
    /// `CAMERA1`
    Camera1,
    /// `CAMERA2`
    Camera2,
    /// `CAMERA3`
    Camera3,
    /// `FAILSAFE`
    Failsafe,
    /// `FLAPERON`
    Flaperon,
    /// `FPV ANGLE MIX`
    FpvAngleMix,
    /// `GCSNAV`
    GcsNav,
    /// `GPS RESCUE`
    GpsRescue,
    /// `HEADADJ`
    HeadAdjust,
    /// `HEADFREE`
    HeadFree,
    /// `HEADINGHOLD`
    HeadingHold,
    /// `HOMERESET`
    HomeReset,
    /// `HORIZON`
    Horizon,
    /// `KILLSWITCH`
    Killswitch,
    /// `LAUNCH CONTROL`
    LaunchControl,
    /// `LEDLOW`
    LedLow,
    /// `LIGHTS`
    Lights,
    /// `LOITERDIRCHN`
    LoiterChange,
    /// `MAG`
    Mag,
    /// `MANUAL`
    Manual,
    /// `MSPOVERRIDE`
    MspOverride,
    /// `MSPRCOVERRIDE`
    MspRcOverride,
    /// `NAV ALTHOLD`
    NavAltitudeHold,
    /// `NAVCOURSEHOLD`
    NavCourseHold,
    /// `NAV CRUISE`
    NavCruise,
    /// `NAV LAUNCH`
    NavLaunch,
    /// `NAV POSHOLD`
    NavPositionHold,
    /// `NAV RTH`
    NavRth,
    /// `NAV WP`
    NavWaypoint,
    /// `OSD`
    Osd,
    /// `OSDALT1`
    OsdAlt1,
    /// `OSDALT2`
    OsdAlt2,
    /// `OSDALT3`
    OsdAlt3,
    /// `PARALYZE`
    Paralyze,
    /// `PASSTHRU`
    Passthru,
    /// `PID AUDIO`
    PidAudio,
    /// `PLANWPMISSION`
    PlanWpMission,
    /// `PREARM`
    Prearm,
    /// `SERVO1`
    Servo1,
    /// `SERVO2`
    Servo2,
    /// `SERVO3`
    Servo3,
    /// `SOARING`
    Soaring,
    /// `STICK COMMAND DISABLE`
    StickCommandDisable,
    /// `SURFACE`
    Surface,
    /// `TELEMETRY`
    Telemetry,
    /// `3D`
    ThreeD,
    /// `TURNASSIST`
    TurnAssist,
    /// `TURTLE`
    Turtle,
    /// `USER1`
    User1,
    /// `USER2`
    User2,
    /// `USER3`
    User3,
    /// `USER4`
    User4,
    /// `VTX CONTROL DISABLE`
    VtxControlDisable,
    /// `VTX PIT MODE`
    VtxPitMode,
}

/// The name that the firmware gives a `FlightMode`.
pub open spec fn flight_mode_name(value: FlightMode) -> Seq<char> {
    match value {
        FlightMode::AcroTrainer => "ACRO TRAINER"@,
        FlightMode::Airmode => "AIRMODE"@,
        FlightMode::Angle => "ANGLE"@,
        FlightMode::AntiGravity => "ANTI GRAVITY"@,
        FlightMode::Arm => "ARM"@,
        FlightMode::AutoLevel => "AUTOLEVEL"@,
        FlightMode::AutoTrim => "AUTOTRIM"@,
        FlightMode::AutoTune => "AUTOTUNE"@,
        FlightMode::BeepGpsCount => "BEEP GPS COUNT"@,
        FlightMode::BeeperMute => "BEEPER MUTE"@,
        FlightMode::BeeperOn => "BEEPERON"@,
        FlightMode::Blackbox => "BLACKBOX"@,
        FlightMode::BlackboxErase => "BLACKBOX ERASE"@,
        FlightMode::Braking => "BRAKING"@,
        FlightMode::Calibration => "CALIB"@,
        FlightMode::CamStab => "CAMSTAB"@,
        FlightMode::Camera1 => "CAMERA1"@,
        FlightMode::Camera2 => "CAMERA2"@,
        FlightMode::Camera3 => "CAMERA3"@,
        FlightMode::Failsafe => "FAILSAFE"@,
        FlightMode::Flaperon => "FLAPERON"@,
        FlightMode::FpvAngleMix => "FPV ANGLE MIX"@,
        FlightMode::GcsNav => "GCSNAV"@,
        FlightMode::GpsRescue => "GPS RESCUE"@,
        FlightMode::HeadAdjust => "HEADADJ"@,
        FlightMode::HeadFree => "HEADFREE"@,
        FlightMode::HeadingHold => "HEADINGHOLD"@,
        FlightMode::HomeReset => "HOMERESET"@,
        FlightMode::Horizon => "HORIZON"@,
        FlightMode::Killswitch => "KILLSWITCH"@,
        FlightMode::LaunchControl => "LAUNCH CONTROL"@,
        FlightMode::LedLow => "LEDLOW"@,
        FlightMode::Lights => "LIGHTS"@,
        FlightMode::LoiterChange => "LOITERDIRCHN"@,
        FlightMode::Mag => "MAG"@,
        FlightMode::Manual => "MANUAL"@,
        FlightMode::MspOverride => "MSPOVERRIDE"@,
        FlightMode::MspRcOverride => "MSPRCOVERRIDE"@,
        FlightMode::NavAltitudeHold => "NAV ALTHOLD"@,
        FlightMode::NavCourseHold => "NAVCOURSEHOLD"@,
        FlightMode::NavCruise => "NAV CRUISE"@,
        FlightMode::NavLaunch => "NAV LAUNCH"@,
        FlightMode::NavPositionHold => "NAV POSHOLD"@,
        FlightMode::NavRth => "NAV RTH"@,
        FlightMode::NavWaypoint => "NAV WP"@,
        FlightMode::Osd => "OSD"@,
        FlightMode::OsdAlt1 => "OSDALT1"@,
        FlightMode::OsdAlt2 => "OSDALT2"@,
        FlightMode::OsdAlt3 => "OSDALT3"@,
        FlightMode::Paralyze => "PARALYZE"@,
        FlightMode::Passthru => "PASSTHRU"@,
        FlightMode::PidAudio => "PID AUDIO"@,
        FlightMode::PlanWpMission => "PLANWPMISSION"@,
        FlightMode::Prearm => "PREARM"@,
        FlightMode::Servo1 => "SERVO1"@,
        FlightMode::Servo2 => "SERVO2"@,
        FlightMode::Servo3 => "SERVO3"@,
        FlightMode::Soaring => "SOARING"@,
        FlightMode::StickCommandDisable => "STICK COMMAND DISABLE"@,
        FlightMode::Surface => "SURFACE"@,
        FlightMode::Telemetry => "TELEMETRY"@,
        FlightMode::ThreeD => "3D"@,
        FlightMode::TurnAssist => "TURNASSIST"@,
        FlightMode::Turtle => "TURTLE"@,
        FlightMode::User1 => "USER1"@,
        FlightMode::User2 => "USER2"@,
        FlightMode::User3 => "USER3"@,
        FlightMode::User4 => "USER4"@,
        FlightMode::VtxControlDisable => "VTX CONTROL DISABLE"@,
        FlightMode::VtxPitMode => "VTX PIT MODE"@,
    }
}

/// The bit that stands for `value` in the flags written by `fw`, if `fw`
/// has such a flag.
pub open spec fn flight_mode_bit(value: FlightMode, fw: InternalFirmware) -> Option<u32> {
    match (value, fw) {
        (FlightMode::Arm, InternalFirmware::Betaflight4_2 | InternalFirmware::Betaflight4_3 | InternalFirmware::Betaflight4_4 | InternalFirmware::Inav5) => Some(0u32),
        (FlightMode::Angle, InternalFirmware::Betaflight4_2 | InternalFirmware::Betaflight4_3 | InternalFirmware::Betaflight4_4 | InternalFirmware::Inav5) => Some(1u32),
        (FlightMode::Horizon, InternalFirmware::Betaflight4_2 | InternalFirmware::Betaflight4_3 | InternalFirmware::Betaflight4_4 | InternalFirmware::Inav5) => Some(2u32),
        (FlightMode::Mag, InternalFirmware::Betaflight4_2 | InternalFirmware::Betaflight4_3 | InternalFirmware::Betaflight4_4) => Some(3u32),
        (FlightMode::NavAltitudeHold, InternalFirmware::Inav5) => Some(3u32),
        (FlightMode::HeadFree, InternalFirmware::Betaflight4_2 | InternalFirmware::Betaflight4_3 | InternalFirmware::Betaflight4_4) => Some(4u32),
        (FlightMode::HeadingHold, InternalFirmware::Inav5) => Some(4u32),
        (FlightMode::Passthru, InternalFirmware::Betaflight4_2 | InternalFirmware::Betaflight4_3 | InternalFirmware::Betaflight4_4) => Some(5u32),
        (FlightMode::HeadFree, InternalFirmware::Inav5) => Some(5u32),
        (FlightMode::Failsafe, InternalFirmware::Betaflight4_2 | InternalFirmware::Betaflight4_3 | InternalFirmware::Betaflight4_4) => Some(6u32),
        (FlightMode::HeadAdjust, InternalFirmware::Inav5) => Some(6u32),
        (FlightMode::GpsRescue, InternalFirmware::Betaflight4_2 | InternalFirmware::Betaflight4_3 | InternalFirmware::Betaflight4_4) => Some(7u32),
        (FlightMode::CamStab, InternalFirmware::Inav5) => Some(7u32),
        (FlightMode::AntiGravity, InternalFirmware::Betaflight4_2 | InternalFirmware::Betaflight4_3 | InternalFirmware::Betaflight4_4) => Some(8u32),
        (FlightMode::NavRth, InternalFirmware::Inav5) => Some(8u32),
        (FlightMode::HeadAdjust, InternalFirmware::Betaflight4_2 | InternalFirmware::Betaflight4_3 | InternalFirmware::Betaflight4_4) => Some(9u32),
        (FlightMode::NavPositionHold, InternalFirmware::Inav5) => Some(9u32),
        (FlightMode::CamStab, InternalFirmware::Betaflight4_2 | InternalFirmware::Betaflight4_3 | InternalFirmware::Betaflight4_4) => Some(10u32),
        (FlightMode::Manual, InternalFirmware::Inav5) => Some(10u32),
        (FlightMode::BeeperOn, InternalFirmware::Betaflight4_2 | InternalFirmware::Betaflight4_3 | InternalFirmware::Betaflight4_4 | InternalFirmware::Inav5) => Some(11u32),
        (FlightMode::LedLow, InternalFirmware::Betaflight4_2 | InternalFirmware::Betaflight4_3 | InternalFirmware::Betaflight4_4 | InternalFirmware::Inav5) => Some(12u32),
        (FlightMode::Calibration, InternalFirmware::Betaflight4_2 | InternalFirmware::Betaflight4_3 | InternalFirmware::Betaflight4_4) => Some(13u32),
        (FlightMode::Lights, InternalFirmware::Inav5) => Some(13u32),
        (FlightMode::Osd, InternalFirmware::Betaflight4_2 | InternalFirmware::Betaflight4_3 | InternalFirmware::Betaflight4_4) => Some(14u32),
        (FlightMode::NavLaunch, InternalFirmware::Inav5) => Some(14u32),
        (FlightMode::Telemetry, InternalFirmware::Betaflight4_2 | InternalFirmware::Betaflight4_3 | InternalFirmware::Betaflight4_4) => Some(15u32),
        (FlightMode::Osd, InternalFirmware::Inav5) => Some(15u32),
        (FlightMode::Servo1, InternalFirmware::Betaflight4_2 | InternalFirmware::Betaflight4_3 | InternalFirmware::Betaflight4_4) => Some(16u32),
        (FlightMode::Telemetry, InternalFirmware::Inav5) => Some(16u32),
        (FlightMode::Servo2, InternalFirmware::Betaflight4_2 | InternalFirmware::Betaflight4_3 | InternalFirmware::Betaflight4_4) => Some(17u32),
        (FlightMode::Blackbox, InternalFirmware::Inav5) => Some(17u32),
        (FlightMode::Servo3, InternalFirmware::Betaflight4_2 | InternalFirmware::Betaflight4_3 | InternalFirmware::Betaflight4_4) => Some(18u32),
        (FlightMode::Failsafe, InternalFirmware::Inav5) => Some(18u32),
        (FlightMode::Blackbox, InternalFirmware::Betaflight4_2 | InternalFirmware::Betaflight4_3 | InternalFirmware::Betaflight4_4) => Some(19u32),
        (FlightMode::NavWaypoint, InternalFirmware::Inav5) => Some(19u32),
        (FlightMode::Airmode, InternalFirmware::Betaflight4_2 | InternalFirmware::Betaflight4_3 | InternalFirmware::Betaflight4_4 | InternalFirmware::Inav5) => Some(20u32),
        (FlightMode::ThreeD, InternalFirmware::Betaflight4_2 | InternalFirmware::Betaflight4_3 | InternalFirmware::Betaflight4_4) => Some(21u32),
        (FlightMode::HomeReset, InternalFirmware::Inav5) => Some(21u32),
        (FlightMode::FpvAngleMix, InternalFirmware::Betaflight4_2 | InternalFirmware::Betaflight4_3 | InternalFirmware::Betaflight4_4) => Some(22u32),
        (FlightMode::GcsNav, InternalFirmware::Inav5) => Some(22u32),
        (FlightMode::BlackboxErase, InternalFirmware::Betaflight4_2 | InternalFirmware::Betaflight4_3 | InternalFirmware::Betaflight4_4) => Some(23u32),
        (FlightMode::Killswitch, InternalFirmware::Inav5) => Some(23u32),
        (FlightMode::Camera1, InternalFirmware::Betaflight4_2 | InternalFirmware::Betaflight4_3 | InternalFirmware::Betaflight4_4) => Some(24u32),
        (FlightMode::Surface, InternalFirmware::Inav5) => Some(24u32),
        (FlightMode::Camera2, InternalFirmware::Betaflight4_2 | InternalFirmware::Betaflight4_3 | InternalFirmware::Betaflight4_4) => Some(25u32),
        (FlightMode::Flaperon, InternalFirmware::Inav5) => Some(25u32),
        (FlightMode::Camera3, InternalFirmware::Betaflight4_2 | InternalFirmware::Betaflight4_3 | InternalFirmware::Betaflight4_4) => Some(26u32),
        (FlightMode::TurnAssist, InternalFirmware::Inav5) => Some(26u32),
        (FlightMode::Turtle, InternalFirmware::Betaflight4_2 | InternalFirmware::Betaflight4_3 | InternalFirmware::Betaflight4_4) => Some(27u32),
        (FlightMode::AutoTrim, InternalFirmware::Inav5) => Some(27u32),
        (FlightMode::Prearm, InternalFirmware::Betaflight4_2 | InternalFirmware::Betaflight4_3 | InternalFirmware::Betaflight4_4) => Some(28u32),
        (FlightMode::AutoTune, InternalFirmware::Inav5) => Some(28u32),
        (FlightMode::BeepGpsCount, InternalFirmware::Betaflight4_2 | InternalFirmware::Betaflight4_3 | InternalFirmware::Betaflight4_4) => Some(29u32),
        (FlightMode::Camera1, InternalFirmware::Inav5) => Some(29u32),
        (FlightMode::VtxPitMode, InternalFirmware::Betaflight4_2 | InternalFirmware::Betaflight4_3 | InternalFirmware::Betaflight4_4) => Some(30u32),
        (FlightMode::Camera2, InternalFirmware::Inav5) => Some(30u32),
        (FlightMode::Paralyze, InternalFirmware::Betaflight4_2 | InternalFirmware::Betaflight4_3 | InternalFirmware::Betaflight4_4) => Some(31u32),
        (FlightMode::Camera3, InternalFirmware::Inav5) => Some(31u32),
        (FlightMode::User1, InternalFirmware::Betaflight4_2 | InternalFirmware::Betaflight4_3 | InternalFirmware::Betaflight4_4) => Some(32u32),
        (FlightMode::OsdAlt1, InternalFirmware::Inav5) => Some(32u32),
        (FlightMode::User2, InternalFirmware::Betaflight4_2 | InternalFirmware::Betaflight4_3 | InternalFirmware::Betaflight4_4) => Some(33u32),
        (FlightMode::OsdAlt2, InternalFirmware::Inav5) => Some(33u32),
        (FlightMode::User3, InternalFirmware::Betaflight4_2 | InternalFirmware::Betaflight4_3 | InternalFirmware::Betaflight4_4) => Some(34u32),
        (FlightMode::OsdAlt3, InternalFirmware::Inav5) => Some(34u32),
        (FlightMode::User4, InternalFirmware::Betaflight4_2 | InternalFirmware::Betaflight4_3 | InternalFirmware::Betaflight4_4) => Some(35u32),
        (FlightMode::NavCourseHold, InternalFirmware::Inav5) => Some(35u32),
        (FlightMode::PidAudio, InternalFirmware::Betaflight4_2 | InternalFirmware::Betaflight4_3 | InternalFirmware::Betaflight4_4) => Some(36u32),
        (FlightMode::Braking, InternalFirmware::Inav5) => Some(36u32),
        (FlightMode::AcroTrainer, InternalFirmware::Betaflight4_2 | InternalFirmware::Betaflight4_3 | InternalFirmware::Betaflight4_4) => Some(37u32),
        (FlightMode::User1, InternalFirmware::Inav5) => Some(37u32),
        (FlightMode::VtxControlDisable, InternalFirmware::Betaflight4_2 | InternalFirmware::Betaflight4_3 | InternalFirmware::Betaflight4_4) => Some(38u32),
        (FlightMode::User2, InternalFirmware::Inav5) => Some(38u32),
        (FlightMode::LaunchControl, InternalFirmware::Betaflight4_2 | InternalFirmware::Betaflight4_3 | InternalFirmware::Betaflight4_4) => Some(39u32),
        (FlightMode::FpvAngleMix, InternalFirmware::Inav5) => Some(39u32),
        (FlightMode::MspOverride, InternalFirmware::Betaflight4_2 | InternalFirmware::Betaflight4_3 | InternalFirmware::Betaflight4_4) => Some(40u32),
        (FlightMode::LoiterChange, InternalFirmware::Inav5) => Some(40u32),
        (FlightMode::StickCommandDisable, InternalFirmware::Betaflight4_2 | InternalFirmware::Betaflight4_3 | InternalFirmware::Betaflight4_4) => Some(41u32),
        (FlightMode::MspRcOverride, InternalFirmware::Inav5) => Some(41u32),
        (FlightMode::BeeperMute, InternalFirmware::Betaflight4_2 | InternalFirmware::Betaflight4_3 | InternalFirmware::Betaflight4_4) => Some(42u32),
        (FlightMode::Prearm, InternalFirmware::Inav5) => Some(42u32),
        (FlightMode::Turtle, InternalFirmware::Inav5) => Some(43u32),
        (FlightMode::NavCruise, InternalFirmware::Inav5) => Some(44u32),
        (FlightMode::AutoLevel, InternalFirmware::Inav5) => Some(45u32),
        (FlightMode::PlanWpMission, InternalFirmware::Inav5) => Some(46u32),
        (FlightMode::Soaring, InternalFirmware::Inav5) => Some(47u32),
        _ => None,
    }
}

/// The flag that bit `bit` stands for in the flags written by `fw`, if any.
pub open spec fn flight_mode_of_bit(bit: u32, fw: InternalFirmware) -> Option<FlightMode> {
    match (bit, fw) {
        (0u32, InternalFirmware::Betaflight4_2 | InternalFirmware::Betaflight4_3 | InternalFirmware::Betaflight4_4 | InternalFirmware::Inav5) => Some(FlightMode::Arm),
        (1u32, InternalFirmware::Betaflight4_2 | InternalFirmware::Betaflight4_3 | InternalFirmware::Betaflight4_4 | InternalFirmware::Inav5) => Some(FlightMode::Angle),
        (2u32, InternalFirmware::Betaflight4_2 | InternalFirmware::Betaflight4_3 | InternalFirmware::Betaflight4_4 | InternalFirmware::Inav5) => Some(FlightMode::Horizon),
        (3u32, InternalFirmware::Betaflight4_2 | InternalFirmware::Betaflight4_3 | InternalFirmware::Betaflight4_4) => Some(FlightMode::Mag),
        (3u32, InternalFirmware::Inav5) => Some(FlightMode::NavAltitudeHold),
        (4u32, InternalFirmware::Betaflight4_2 | InternalFirmware::Betaflight4_3 | InternalFirmware::Betaflight4_4) => Some(FlightMode::HeadFree),
        (4u32, InternalFirmware::Inav5) => Some(FlightMode::HeadingHold),
        (5u32, InternalFirmware::Betaflight4_2 | InternalFirmware::Betaflight4_3 | InternalFirmware::Betaflight4_4) => Some(FlightMode::Passthru),
        (5u32, InternalFirmware::Inav5) => Some(FlightMode::HeadFree),
        (6u32, InternalFirmware::Betaflight4_2 | InternalFirmware::Betaflight4_3 | InternalFirmware::Betaflight4_4) => Some(FlightMode::Failsafe),
        (6u32, InternalFirmware::Inav5) => Some(FlightMode::HeadAdjust),
        (7u32, InternalFirmware::Betaflight4_2 | InternalFirmware::Betaflight4_3 | InternalFirmware::Betaflight4_4) => Some(FlightMode::GpsRescue),
        (7u32, InternalFirmware::Inav5) => Some(FlightMode::CamStab),
        (8u32, InternalFirmware::Betaflight4_2 | InternalFirmware::Betaflight4_3 | InternalFirmware::Betaflight4_4) => Some(FlightMode::AntiGravity),
        (8u32, InternalFirmware::Inav5) => Some(FlightMode::NavRth),
        (9u32, InternalFirmware::Betaflight4_2 | InternalFirmware::Betaflight4_3 | InternalFirmware::Betaflight4_4) => Some(FlightMode::HeadAdjust),
        (9u32, InternalFirmware::Inav5) => Some(FlightMode::NavPositionHold),
        (10u32, InternalFirmware::Betaflight4_2 | InternalFirmware::Betaflight4_3 | InternalFirmware::Betaflight4_4) => Some(FlightMode::CamStab),
        (10u32, InternalFirmware::Inav5) => Some(FlightMode::Manual),
        (11u32, InternalFirmware::Betaflight4_2 | InternalFirmware::Betaflight4_3 | InternalFirmware::Betaflight4_4 | InternalFirmware::Inav5) => Some(FlightMode::BeeperOn),
        (12u32, InternalFirmware::Betaflight4_2 | InternalFirmware::Betaflight4_3 | InternalFirmware::Betaflight4_4 | InternalFirmware::Inav5) => Some(FlightMode::LedLow),
        (13u32, InternalFirmware::Betaflight4_2 | InternalFirmware::Betaflight4_3 | InternalFirmware::Betaflight4_4) => Some(FlightMode::Calibration),
        (13u32, InternalFirmware::Inav5) => Some(FlightMode::Lights),
        (14u32, InternalFirmware::Betaflight4_2 | InternalFirmware::Betaflight4_3 | InternalFirmware::Betaflight4_4) => Some(FlightMode::Osd),
        (14u32, InternalFirmware::Inav5) => Some(FlightMode::NavLaunch),
        (15u32, InternalFirmware::Betaflight4_2 | InternalFirmware::Betaflight4_3 | InternalFirmware::Betaflight4_4) => Some(FlightMode::Telemetry),
        (15u32, InternalFirmware::Inav5) => Some(FlightMode::Osd),
        (16u32, InternalFirmware::Betaflight4_2 | InternalFirmware::Betaflight4_3 | InternalFirmware::Betaflight4_4) => Some(FlightMode::Servo1),
        (16u32, InternalFirmware::Inav5) => Some(FlightMode::Telemetry),
        (17u32, InternalFirmware::Betaflight4_2 | InternalFirmware::Betaflight4_3 | InternalFirmware::Betaflight4_4) => Some(FlightMode::Servo2),
        (17u32, InternalFirmware::Inav5) => Some(FlightMode::Blackbox),
        (18u32, InternalFirmware::Betaflight4_2 | InternalFirmware::Betaflight4_3 | InternalFirmware::Betaflight4_4) => Some(FlightMode::Servo3),
        (18u32, InternalFirmware::Inav5) => Some(FlightMode::Failsafe),
        (19u32, InternalFirmware::Betaflight4_2 | InternalFirmware::Betaflight4_3 | InternalFirmware::Betaflight4_4) => Some(FlightMode::Blackbox),
        (19u32, InternalFirmware::Inav5) => Some(FlightMode::NavWaypoint),
        (20u32, InternalFirmware::Betaflight4_2 | InternalFirmware::Betaflight4_3 | InternalFirmware::Betaflight4_4 | InternalFirmware::Inav5) => Some(FlightMode::Airmode),
        (21u32, InternalFirmware::Betaflight4_2 | InternalFirmware::Betaflight4_3 | InternalFirmware::Betaflight4_4) => Some(FlightMode::ThreeD),
        (21u32, InternalFirmware::Inav5) => Some(FlightMode::HomeReset),
        (22u32, InternalFirmware::Betaflight4_2 | InternalFirmware::Betaflight4_3 | InternalFirmware::Betaflight4_4) => Some(FlightMode::FpvAngleMix),
        (22u32, InternalFirmware::Inav5) => Some(FlightMode::GcsNav),
        (23u32, InternalFirmware::Betaflight4_2 | InternalFirmware::Betaflight4_3 | InternalFirmware::Betaflight4_4) => Some(FlightMode::BlackboxErase),
        (23u32, InternalFirmware::Inav5) => Some(FlightMode::Killswitch),
        (24u32, InternalFirmware::Betaflight4_2 | InternalFirmware::Betaflight4_3 | InternalFirmware::Betaflight4_4) => Some(FlightMode::Camera1),
        (24u32, InternalFirmware::Inav5) => Some(FlightMode::Surface),
        (25u32, InternalFirmware::Betaflight4_2 | InternalFirmware::Betaflight4_3 | InternalFirmware::Betaflight4_4) => Some(FlightMode::Camera2),
        (25u32, InternalFirmware::Inav5) => Some(FlightMode::Flaperon),
        (26u32, InternalFirmware::Betaflight4_2 | InternalFirmware::Betaflight4_3 | InternalFirmware::Betaflight4_4) => Some(FlightMode::Camera3),
        (26u32, InternalFirmware::Inav5) => Some(FlightMode::TurnAssist),
        (27u32, InternalFirmware::Betaflight4_2 | InternalFirmware::Betaflight4_3 | InternalFirmware::Betaflight4_4) => Some(FlightMode::Turtle),
        (27u32, InternalFirmware::Inav5) => Some(FlightMode::AutoTrim),
        (28u32, InternalFirmware::Betaflight4_2 | InternalFirmware::Betaflight4_3 | InternalFirmware::Betaflight4_4) => Some(FlightMode::Prearm),
        (28u32, InternalFirmware::Inav5) => Some(FlightMode::AutoTune),
        (29u32, InternalFirmware::Betaflight4_2 | InternalFirmware::Betaflight4_3 | InternalFirmware::Betaflight4_4) => Some(FlightMode::BeepGpsCount),
        (29u32, InternalFirmware::Inav5) => Some(FlightMode::Camera1),
        (30u32, InternalFirmware::Betaflight4_2 | InternalFirmware::Betaflight4_3 | InternalFirmware::Betaflight4_4) => Some(FlightMode::VtxPitMode),
        (30u32, InternalFirmware::Inav5) => Some(FlightMode::Camera2),
        (31u32, InternalFirmware::Betaflight4_2 | InternalFirmware::Betaflight4_3 | InternalFirmware::Betaflight4_4) => Some(FlightMode::Paralyze),
        (31u32, InternalFirmware::Inav5) => Some(FlightMode::Camera3),
        (32u32, InternalFirmware::Betaflight4_2 | InternalFirmware::Betaflight4_3 | InternalFirmware::Betaflight4_4) => Some(FlightMode::User1),
        (32u32, InternalFirmware::Inav5) => Some(FlightMode::OsdAlt1),
        (33u32, InternalFirmware::Betaflight4_2 | InternalFirmware::Betaflight4_3 | InternalFirmware::Betaflight4_4) => Some(FlightMode::User2),
        (33u32, InternalFirmware::Inav5) => Some(FlightMode::OsdAlt2),
        (34u32, InternalFirmware::Betaflight4_2 | InternalFirmware::Betaflight4_3 | InternalFirmware::Betaflight4_4) => Some(FlightMode::User3),
        (34u32, InternalFirmware::Inav5) => Some(FlightMode::OsdAlt3),
        (35u32, InternalFirmware::Betaflight4_2 | InternalFirmware::Betaflight4_3 | InternalFirmware::Betaflight4_4) => Some(FlightMode::User4),
        (35u32, InternalFirmware::Inav5) => Some(FlightMode::NavCourseHold),
        (36u32, InternalFirmware::Betaflight4_2 | InternalFirmware::Betaflight4_3 | InternalFirmware::Betaflight4_4) => Some(FlightMode::PidAudio),
        (36u32, InternalFirmware::Inav5) => Some(FlightMode::Braking),
        (37u32, InternalFirmware::Betaflight4_2 | InternalFirmware::Betaflight4_3 | InternalFirmware::Betaflight4_4) => Some(FlightMode::AcroTrainer),
        (37u32, InternalFirmware::Inav5) => Some(FlightMode::User1),
        (38u32, InternalFirmware::Betaflight4_2 | InternalFirmware::Betaflight4_3 | InternalFirmware::Betaflight4_4) => Some(FlightMode::VtxControlDisable),
        (38u32, InternalFirmware::Inav5) => Some(FlightMode::User2),
        (39u32, InternalFirmware::Betaflight4_2 | InternalFirmware::Betaflight4_3 | InternalFirmware::Betaflight4_4) => Some(FlightMode::LaunchControl),
        (39u32, InternalFirmware::Inav5) => Some(FlightMode::FpvAngleMix),
        (40u32, InternalFirmware::Betaflight4_2 | InternalFirmware::Betaflight4_3 | InternalFirmware::Betaflight4_4) => Some(FlightMode::MspOverride),
        (40u32, InternalFirmware::Inav5) => Some(FlightMode::LoiterChange),
        (41u32, InternalFirmware::Betaflight4_2 | InternalFirmware::Betaflight4_3 | InternalFirmware::Betaflight4_4) => Some(FlightMode::StickCommandDisable),
        (41u32, InternalFirmware::Inav5) => Some(FlightMode::MspRcOverride),
        (42u32, InternalFirmware::Betaflight4_2 | InternalFirmware::Betaflight4_3 | InternalFirmware::Betaflight4_4) => Some(FlightMode::BeeperMute),
        (42u32, InternalFirmware::Inav5) => Some(FlightMode::Prearm),
        (43u32, InternalFirmware::Inav5) => Some(FlightMode::Turtle),
        (44u32, InternalFirmware::Inav5) => Some(FlightMode::NavCruise),
        (45u32, InternalFirmware::Inav5) => Some(FlightMode::AutoLevel),
        (46u32, InternalFirmware::Inav5) => Some(FlightMode::PlanWpMission),
        (47u32, InternalFirmware::Inav5) => Some(FlightMode::Soaring),
        _ => None,
    }
}

impl FlightMode {
    /// The name that the firmware gives this value.
    pub fn as_name(&self) -> (name: &'static str)
        ensures
            name@ == flight_mode_name(*self),
    {
        match self {
            FlightMode::AcroTrainer => "ACRO TRAINER",
            FlightMode::Airmode => "AIRMODE",
            FlightMode::Angle => "ANGLE",
            FlightMode::AntiGravity => "ANTI GRAVITY",
            FlightMode::Arm => "ARM",
            FlightMode::AutoLevel => "AUTOLEVEL",
            FlightMode::AutoTrim => "AUTOTRIM",
            FlightMode::AutoTune => "AUTOTUNE",
            FlightMode::BeepGpsCount => "BEEP GPS COUNT",
            FlightMode::BeeperMute => "BEEPER MUTE",
            FlightMode::BeeperOn => "BEEPERON",
            FlightMode::Blackbox => "BLACKBOX",
            FlightMode::BlackboxErase => "BLACKBOX ERASE",
            FlightMode::Braking => "BRAKING",
            FlightMode::Calibration => "CALIB",
            FlightMode::CamStab => "CAMSTAB",
            FlightMode::Camera1 => "CAMERA1",
            FlightMode::Camera2 => "CAMERA2",
            FlightMode::Camera3 => "CAMERA3",
            FlightMode::Failsafe => "FAILSAFE",
            FlightMode::Flaperon => "FLAPERON",
            FlightMode::FpvAngleMix => "FPV ANGLE MIX",
            FlightMode::GcsNav => "GCSNAV",
            FlightMode::GpsRescue => "GPS RESCUE",
            FlightMode::HeadAdjust => "HEADADJ",
            FlightMode::HeadFree => "HEADFREE",
            FlightMode::HeadingHold => "HEADINGHOLD",
            FlightMode::HomeReset => "HOMERESET",
            FlightMode::Horizon => "HORIZON",
            FlightMode::Killswitch => "KILLSWITCH",
            FlightMode::LaunchControl => "LAUNCH CONTROL",
            FlightMode::LedLow => "LEDLOW",
            FlightMode::Lights => "LIGHTS",
            FlightMode::LoiterChange => "LOITERDIRCHN",
            FlightMode::Mag => "MAG",
            FlightMode::Manual => "MANUAL",
            FlightMode::MspOverride => "MSPOVERRIDE",
            FlightMode::MspRcOverride => "MSPRCOVERRIDE",
            FlightMode::NavAltitudeHold => "NAV ALTHOLD",
            FlightMode::NavCourseHold => "NAVCOURSEHOLD",
            FlightMode::NavCruise => "NAV CRUISE",
            FlightMode::NavLaunch => "NAV LAUNCH",
            FlightMode::NavPositionHold => "NAV POSHOLD",
            FlightMode::NavRth => "NAV RTH",
            FlightMode::NavWaypoint => "NAV WP",
            FlightMode::Osd => "OSD",
            FlightMode::OsdAlt1 => "OSDALT1",
            FlightMode::OsdAlt2 => "OSDALT2",
            FlightMode::OsdAlt3 => "OSDALT3",
            FlightMode::Paralyze => "PARALYZE",
            FlightMode::Passthru => "PASSTHRU",
            FlightMode::PidAudio => "PID AUDIO",
            FlightMode::PlanWpMission => "PLANWPMISSION",
            FlightMode::Prearm => "PREARM",
            FlightMode::Servo1 => "SERVO1",
            FlightMode::Servo2 => "SERVO2",
            FlightMode::Servo3 => "SERVO3",
            FlightMode::Soaring => "SOARING",
            FlightMode::StickCommandDisable => "STICK COMMAND DISABLE",
            FlightMode::Surface => "SURFACE",
            FlightMode::Telemetry => "TELEMETRY",
            FlightMode::ThreeD => "3D",
            FlightMode::TurnAssist => "TURNASSIST",
            FlightMode::Turtle => "TURTLE",
            FlightMode::User1 => "USER1",
            FlightMode::User2 => "USER2",
            FlightMode::User3 => "USER3",
            FlightMode::User4 => "USER4",
            FlightMode::VtxControlDisable => "VTX CONTROL DISABLE",
            FlightMode::VtxPitMode => "VTX PIT MODE",
        }
    }

    /// The flag that bit `bit` stands for in the flags written by `fw`.
    pub fn from_bit(bit: u32, fw: InternalFirmware) -> (value: Option<Self>)
        ensures
            value == flight_mode_of_bit(bit, fw),
    {
        match (bit, fw) {
            (0u32, InternalFirmware::Betaflight4_2 | InternalFirmware::Betaflight4_3 | InternalFirmware::Betaflight4_4 | InternalFirmware::Inav5) => Some(FlightMode::Arm),
            (1u32, InternalFirmware::Betaflight4_2 | InternalFirmware::Betaflight4_3 | InternalFirmware::Betaflight4_4 | InternalFirmware::Inav5) => Some(FlightMode::Angle),
            (2u32, InternalFirmware::Betaflight4_2 | InternalFirmware::Betaflight4_3 | InternalFirmware::Betaflight4_4 | InternalFirmware::Inav5) => Some(FlightMode::Horizon),
            (3u32, InternalFirmware::Betaflight4_2 | InternalFirmware::Betaflight4_3 | InternalFirmware::Betaflight4_4) => Some(FlightMode::Mag),
            (3u32, InternalFirmware::Inav5) => Some(FlightMode::NavAltitudeHold),
            (4u32, InternalFirmware::Betaflight4_2 | InternalFirmware::Betaflight4_3 | InternalFirmware::Betaflight4_4) => Some(FlightMode::HeadFree),
            (4u32, InternalFirmware::Inav5) => Some(FlightMode::HeadingHold),
            (5u32, InternalFirmware::Betaflight4_2 | InternalFirmware::Betaflight4_3 | InternalFirmware::Betaflight4_4) => Some(FlightMode::Passthru),
            (5u32, InternalFirmware::Inav5) => Some(FlightMode::HeadFree),
            (6u32, InternalFirmware::Betaflight4_2 | InternalFirmware::Betaflight4_3 | InternalFirmware::Betaflight4_4) => Some(FlightMode::Failsafe),
            (6u32, InternalFirmware::Inav5) => Some(FlightMode::HeadAdjust),
            (7u32, InternalFirmware::Betaflight4_2 | InternalFirmware::Betaflight4_3 | InternalFirmware::Betaflight4_4) => Some(FlightMode::GpsRescue),
            (7u32, InternalFirmware::Inav5) => Some(FlightMode::CamStab),
            (8u32, InternalFirmware::Betaflight4_2 | InternalFirmware::Betaflight4_3 | InternalFirmware::Betaflight4_4) => Some(FlightMode::AntiGravity),
            (8u32, InternalFirmware::Inav5) => Some(FlightMode::NavRth),
            (9u32, InternalFirmware::Betaflight4_2 | InternalFirmware::Betaflight4_3 | InternalFirmware::Betaflight4_4) => Some(FlightMode::HeadAdjust),
            (9u32, InternalFirmware::Inav5) => Some(FlightMode::NavPositionHold),
            (10u32, InternalFirmware::Betaflight4_2 | InternalFirmware::Betaflight4_3 | InternalFirmware::Betaflight4_4) => Some(FlightMode::CamStab),
            (10u32, InternalFirmware::Inav5) => Some(FlightMode::Manual),
            (11u32, InternalFirmware::Betaflight4_2 | InternalFirmware::Betaflight4_3 | InternalFirmware::Betaflight4_4 | InternalFirmware::Inav5) => Some(FlightMode::BeeperOn),
            (12u32, InternalFirmware::Betaflight4_2 | InternalFirmware::Betaflight4_3 | InternalFirmware::Betaflight4_4 | InternalFirmware::Inav5) => Some(FlightMode::LedLow),
            (13u32, InternalFirmware::Betaflight4_2 | InternalFirmware::Betaflight4_3 | InternalFirmware::Betaflight4_4) => Some(FlightMode::Calibration),
            (13u32, InternalFirmware::Inav5) => Some(FlightMode::Lights),
            (14u32, InternalFirmware::Betaflight4_2 | InternalFirmware::Betaflight4_3 | InternalFirmware::Betaflight4_4) => Some(FlightMode::Osd),
            (14u32, InternalFirmware::Inav5) => Some(FlightMode::NavLaunch),
            (15u32, InternalFirmware::Betaflight4_2 | InternalFirmware::Betaflight4_3 | InternalFirmware::Betaflight4_4) => Some(FlightMode::Telemetry),
            (15u32, InternalFirmware::Inav5) => Some(FlightMode::Osd),
            (16u32, InternalFirmware::Betaflight4_2 | InternalFirmware::Betaflight4_3 | InternalFirmware::Betaflight4_4) => Some(FlightMode::Servo1),
            (16u32, InternalFirmware::Inav5) => Some(FlightMode::Telemetry),
            (17u32, InternalFirmware::Betaflight4_2 | InternalFirmware::Betaflight4_3 | InternalFirmware::Betaflight4_4) => Some(FlightMode::Servo2),
            (17u32, InternalFirmware::Inav5) => Some(FlightMode::Blackbox),
            (18u32, InternalFirmware::Betaflight4_2 | InternalFirmware::Betaflight4_3 | InternalFirmware::Betaflight4_4) => Some(FlightMode::Servo3),
            (18u32, InternalFirmware::Inav5) => Some(FlightMode::Failsafe),
            (19u32, InternalFirmware::Betaflight4_2 | InternalFirmware::Betaflight4_3 | InternalFirmware::Betaflight4_4) => Some(FlightMode::Blackbox),
            (19u32, InternalFirmware::Inav5) => Some(FlightMode::NavWaypoint),
            (20u32, InternalFirmware::Betaflight4_2 | InternalFirmware::Betaflight4_3 | InternalFirmware::Betaflight4_4 | InternalFirmware::Inav5) => Some(FlightMode::Airmode),
            (21u32, InternalFirmware::Betaflight4_2 | InternalFirmware::Betaflight4_3 | InternalFirmware::Betaflight4_4) => Some(FlightMode::ThreeD),
            (21u32, InternalFirmware::Inav5) => Some(FlightMode::HomeReset),
            (22u32, InternalFirmware::Betaflight4_2 | InternalFirmware::Betaflight4_3 | InternalFirmware::Betaflight4_4) => Some(FlightMode::FpvAngleMix),
            (22u32, InternalFirmware::Inav5) => Some(FlightMode::GcsNav),
            (23u32, InternalFirmware::Betaflight4_2 | InternalFirmware::Betaflight4_3 | InternalFirmware::Betaflight4_4) => Some(FlightMode::BlackboxErase),
            (23u32, InternalFirmware::Inav5) => Some(FlightMode::Killswitch),
            (24u32, InternalFirmware::Betaflight4_2 | InternalFirmware::Betaflight4_3 | InternalFirmware::Betaflight4_4) => Some(FlightMode::Camera1),
            (24u32, InternalFirmware::Inav5) => Some(FlightMode::Surface),
            (25u32, InternalFirmware::Betaflight4_2 | InternalFirmware::Betaflight4_3 | InternalFirmware::Betaflight4_4) => Some(FlightMode::Camera2),
            (25u32, InternalFirmware::Inav5) => Some(FlightMode::Flaperon),
            (26u32, InternalFirmware::Betaflight4_2 | InternalFirmware::Betaflight4_3 | InternalFirmware::Betaflight4_4) => Some(FlightMode::Camera3),
            (26u32, InternalFirmware::Inav5) => Some(FlightMode::TurnAssist),
            (27u32, InternalFirmware::Betaflight4_2 | InternalFirmware::Betaflight4_3 | InternalFirmware::Betaflight4_4) => Some(FlightMode::Turtle),
            (27u32, InternalFirmware::Inav5) => Some(FlightMode::AutoTrim),
            (28u32, InternalFirmware::Betaflight4_2 | InternalFirmware::Betaflight4_3 | InternalFirmware::Betaflight4_4) => Some(FlightMode::Prearm),
            (28u32, InternalFirmware::Inav5) => Some(FlightMode::AutoTune),
            (29u32, InternalFirmware::Betaflight4_2 | InternalFirmware::Betaflight4_3 | InternalFirmware::Betaflight4_4) => Some(FlightMode::BeepGpsCount),
            (29u32, InternalFirmware::Inav5) => Some(FlightMode::Camera1),
            (30u32, InternalFirmware::Betaflight4_2 | InternalFirmware::Betaflight4_3 | InternalFirmware::Betaflight4_4) => Some(FlightMode::VtxPitMode),
            (30u32, InternalFirmware::Inav5) => Some(FlightMode::Camera2),
            (31u32, InternalFirmware::Betaflight4_2 | InternalFirmware::Betaflight4_3 | InternalFirmware::Betaflight4_4) => Some(FlightMode::Paralyze),
            (31u32, InternalFirmware::Inav5) => Some(FlightMode::Camera3),
            (32u32, InternalFirmware::Betaflight4_2 | InternalFirmware::Betaflight4_3 | InternalFirmware::Betaflight4_4) => Some(FlightMode::User1),
            (32u32, InternalFirmware::Inav5) => Some(FlightMode::OsdAlt1),
            (33u32, InternalFirmware::Betaflight4_2 | InternalFirmware::Betaflight4_3 | InternalFirmware::Betaflight4_4) => Some(FlightMode::User2),
            (33u32, InternalFirmware::Inav5) => Some(FlightMode::OsdAlt2),
            (34u32, InternalFirmware::Betaflight4_2 | InternalFirmware::Betaflight4_3 | InternalFirmware::Betaflight4_4) => Some(FlightMode::User3),
            (34u32, InternalFirmware::Inav5) => Some(FlightMode::OsdAlt3),
            (35u32, InternalFirmware::Betaflight4_2 | InternalFirmware::Betaflight4_3 | InternalFirmware::Betaflight4_4) => Some(FlightMode::User4),
            (35u32, InternalFirmware::Inav5) => Some(FlightMode::NavCourseHold),
            (36u32, InternalFirmware::Betaflight4_2 | InternalFirmware::Betaflight4_3 | InternalFirmware::Betaflight4_4) => Some(FlightMode::PidAudio),
            (36u32, InternalFirmware::Inav5) => Some(FlightMode::Braking),
            (37u32, InternalFirmware::Betaflight4_2 | InternalFirmware::Betaflight4_3 | InternalFirmware::Betaflight4_4) => Some(FlightMode::AcroTrainer),
            (37u32, InternalFirmware::Inav5) => Some(FlightMode::User1),
            (38u32, InternalFirmware::Betaflight4_2 | InternalFirmware::Betaflight4_3 | InternalFirmware::Betaflight4_4) => Some(FlightMode::VtxControlDisable),
            (38u32, InternalFirmware::Inav5) => Some(FlightMode::User2),
            (39u32, InternalFirmware::Betaflight4_2 | InternalFirmware::Betaflight4_3 | InternalFirmware::Betaflight4_4) => Some(FlightMode::LaunchControl),
            (39u32, InternalFirmware::Inav5) => Some(FlightMode::FpvAngleMix),
            (40u32, InternalFirmware::Betaflight4_2 | InternalFirmware::Betaflight4_3 | InternalFirmware::Betaflight4_4) => Some(FlightMode::MspOverride),
            (40u32, InternalFirmware::Inav5) => Some(FlightMode::LoiterChange),
            (41u32, InternalFirmware::Betaflight4_2 | InternalFirmware::Betaflight4_3 | InternalFirmware::Betaflight4_4) => Some(FlightMode::StickCommandDisable),
            (41u32, InternalFirmware::Inav5) => Some(FlightMode::MspRcOverride),
            (42u32, InternalFirmware::Betaflight4_2 | InternalFirmware::Betaflight4_3 | InternalFirmware::Betaflight4_4) => Some(FlightMode::BeeperMute),
            (42u32, InternalFirmware::Inav5) => Some(FlightMode::Prearm),
            (43u32, InternalFirmware::Inav5) => Some(FlightMode::Turtle),
            (44u32, InternalFirmware::Inav5) => Some(FlightMode::NavCruise),
            (45u32, InternalFirmware::Inav5) => Some(FlightMode::AutoLevel),
            (46u32, InternalFirmware::Inav5) => Some(FlightMode::PlanWpMission),
            (47u32, InternalFirmware::Inav5) => Some(FlightMode::Soaring),
            _ => None,
        }
    }

    /// The bit that stands for this flag in the flags written by `fw`.
    pub fn to_bit(self, fw: InternalFirmware) -> (bit: Option<u32>)
        ensures
            bit == flight_mode_bit(self, fw),
    {
        match (self, fw) {
            (FlightMode::Arm, InternalFirmware::Betaflight4_2 | InternalFirmware::Betaflight4_3 | InternalFirmware::Betaflight4_4 | InternalFirmware::Inav5) => Some(0u32),
            (FlightMode::Angle, InternalFirmware::Betaflight4_2 | InternalFirmware::Betaflight4_3 | InternalFirmware::Betaflight4_4 | InternalFirmware::Inav5) => Some(1u32),
            (FlightMode::Horizon, InternalFirmware::Betaflight4_2 | InternalFirmware::Betaflight4_3 | InternalFirmware::Betaflight4_4 | InternalFirmware::Inav5) => Some(2u32),
            (FlightMode::Mag, InternalFirmware::Betaflight4_2 | InternalFirmware::Betaflight4_3 | InternalFirmware::Betaflight4_4) => Some(3u32),
            (FlightMode::NavAltitudeHold, InternalFirmware::Inav5) => Some(3u32),
            (FlightMode::HeadFree, InternalFirmware::Betaflight4_2 | InternalFirmware::Betaflight4_3 | InternalFirmware::Betaflight4_4) => Some(4u32),
            (FlightMode::HeadingHold, InternalFirmware::Inav5) => Some(4u32),
            (FlightMode::Passthru, InternalFirmware::Betaflight4_2 | InternalFirmware::Betaflight4_3 | InternalFirmware::Betaflight4_4) => Some(5u32),
            (FlightMode::HeadFree, InternalFirmware::Inav5) => Some(5u32),
            (FlightMode::Failsafe, InternalFirmware::Betaflight4_2 | InternalFirmware::Betaflight4_3 | InternalFirmware::Betaflight4_4) => Some(6u32),
            (FlightMode::HeadAdjust, InternalFirmware::Inav5) => Some(6u32),
            (FlightMode::GpsRescue, InternalFirmware::Betaflight4_2 | InternalFirmware::Betaflight4_3 | InternalFirmware::Betaflight4_4) => Some(7u32),
            (FlightMode::CamStab, InternalFirmware::Inav5) => Some(7u32),
            (FlightMode::AntiGravity, InternalFirmware::Betaflight4_2 | InternalFirmware::Betaflight4_3 | InternalFirmware::Betaflight4_4) => Some(8u32),
            (FlightMode::NavRth, InternalFirmware::Inav5) => Some(8u32),
            (FlightMode::HeadAdjust, InternalFirmware::Betaflight4_2 | InternalFirmware::Betaflight4_3 | InternalFirmware::Betaflight4_4) => Some(9u32),
            (FlightMode::NavPositionHold, InternalFirmware::Inav5) => Some(9u32),
            (FlightMode::CamStab, InternalFirmware::Betaflight4_2 | InternalFirmware::Betaflight4_3 | InternalFirmware::Betaflight4_4) => Some(10u32),
            (FlightMode::Manual, InternalFirmware::Inav5) => Some(10u32),
            (FlightMode::BeeperOn, InternalFirmware::Betaflight4_2 | InternalFirmware::Betaflight4_3 | InternalFirmware::Betaflight4_4 | InternalFirmware::Inav5) => Some(11u32),
            (FlightMode::LedLow, InternalFirmware::Betaflight4_2 | InternalFirmware::Betaflight4_3 | InternalFirmware::Betaflight4_4 | InternalFirmware::Inav5) => Some(12u32),
            (FlightMode::Calibration, InternalFirmware::Betaflight4_2 | InternalFirmware::Betaflight4_3 | InternalFirmware::Betaflight4_4) => Some(13u32),
            (FlightMode::Lights, InternalFirmware::Inav5) => Some(13u32),
            (FlightMode::Osd, InternalFirmware::Betaflight4_2 | InternalFirmware::Betaflight4_3 | InternalFirmware::Betaflight4_4) => Some(14u32),
            (FlightMode::NavLaunch, InternalFirmware::Inav5) => Some(14u32),
            (FlightMode::Telemetry, InternalFirmware::Betaflight4_2 | InternalFirmware::Betaflight4_3 | InternalFirmware::Betaflight4_4) => Some(15u32),
            (FlightMode::Osd, InternalFirmware::Inav5) => Some(15u32),
            (FlightMode::Servo1, InternalFirmware::Betaflight4_2 | InternalFirmware::Betaflight4_3 | InternalFirmware::Betaflight4_4) => Some(16u32),
            (FlightMode::Telemetry, InternalFirmware::Inav5) => Some(16u32),
            (FlightMode::Servo2, InternalFirmware::Betaflight4_2 | InternalFirmware::Betaflight4_3 | InternalFirmware::Betaflight4_4) => Some(17u32),
            (FlightMode::Blackbox, InternalFirmware::Inav5) => Some(17u32),
            (FlightMode::Servo3, InternalFirmware::Betaflight4_2 | InternalFirmware::Betaflight4_3 | InternalFirmware::Betaflight4_4) => Some(18u32),
            (FlightMode::Failsafe, InternalFirmware::Inav5) => Some(18u32),
            (FlightMode::Blackbox, InternalFirmware::Betaflight4_2 | InternalFirmware::Betaflight4_3 | InternalFirmware::Betaflight4_4) => Some(19u32),
            (FlightMode::NavWaypoint, InternalFirmware::Inav5) => Some(19u32),
            (FlightMode::Airmode, InternalFirmware::Betaflight4_2 | InternalFirmware::Betaflight4_3 | InternalFirmware::Betaflight4_4 | InternalFirmware::Inav5) => Some(20u32),
            (FlightMode::ThreeD, InternalFirmware::Betaflight4_2 | InternalFirmware::Betaflight4_3 | InternalFirmware::Betaflight4_4) => Some(21u32),
            (FlightMode::HomeReset, InternalFirmware::Inav5) => Some(21u32),
            (FlightMode::FpvAngleMix, InternalFirmware::Betaflight4_2 | InternalFirmware::Betaflight4_3 | InternalFirmware::Betaflight4_4) => Some(22u32),
            (FlightMode::GcsNav, InternalFirmware::Inav5) => Some(22u32),
            (FlightMode::BlackboxErase, InternalFirmware::Betaflight4_2 | InternalFirmware::Betaflight4_3 | InternalFirmware::Betaflight4_4) => Some(23u32),
            (FlightMode::Killswitch, InternalFirmware::Inav5) => Some(23u32),
            (FlightMode::Camera1, InternalFirmware::Betaflight4_2 | InternalFirmware::Betaflight4_3 | InternalFirmware::Betaflight4_4) => Some(24u32),
            (FlightMode::Surface, InternalFirmware::Inav5) => Some(24u32),
            (FlightMode::Camera2, InternalFirmware::Betaflight4_2 | InternalFirmware::Betaflight4_3 | InternalFirmware::Betaflight4_4) => Some(25u32),
            (FlightMode::Flaperon, InternalFirmware::Inav5) => Some(25u32),
            (FlightMode::Camera3, InternalFirmware::Betaflight4_2 | InternalFirmware::Betaflight4_3 | InternalFirmware::Betaflight4_4) => Some(26u32),
            (FlightMode::TurnAssist, InternalFirmware::Inav5) => Some(26u32),
            (FlightMode::Turtle, InternalFirmware::Betaflight4_2 | InternalFirmware::Betaflight4_3 | InternalFirmware::Betaflight4_4) => Some(27u32),
            (FlightMode::AutoTrim, InternalFirmware::Inav5) => Some(27u32),
            (FlightMode::Prearm, InternalFirmware::Betaflight4_2 | InternalFirmware::Betaflight4_3 | InternalFirmware::Betaflight4_4) => Some(28u32),
            (FlightMode::AutoTune, InternalFirmware::Inav5) => Some(28u32),
            (FlightMode::BeepGpsCount, InternalFirmware::Betaflight4_2 | InternalFirmware::Betaflight4_3 | InternalFirmware::Betaflight4_4) => Some(29u32),
            (FlightMode::Camera1, InternalFirmware::Inav5) => Some(29u32),
            (FlightMode::VtxPitMode, InternalFirmware::Betaflight4_2 | InternalFirmware::Betaflight4_3 | InternalFirmware::Betaflight4_4) => Some(30u32),
            (FlightMode::Camera2, InternalFirmware::Inav5) => Some(30u32),
            (FlightMode::Paralyze, InternalFirmware::Betaflight4_2 | InternalFirmware::Betaflight4_3 | InternalFirmware::Betaflight4_4) => Some(31u32),
            (FlightMode::Camera3, InternalFirmware::Inav5) => Some(31u32),
            (FlightMode::User1, InternalFirmware::Betaflight4_2 | InternalFirmware::Betaflight4_3 | InternalFirmware::Betaflight4_4) => Some(32u32),
            (FlightMode::OsdAlt1, InternalFirmware::Inav5) => Some(32u32),
            (FlightMode::User2, InternalFirmware::Betaflight4_2 | InternalFirmware::Betaflight4_3 | InternalFirmware::Betaflight4_4) => Some(33u32),
            (FlightMode::OsdAlt2, InternalFirmware::Inav5) => Some(33u32),
            (FlightMode::User3, InternalFirmware::Betaflight4_2 | InternalFirmware::Betaflight4_3 | InternalFirmware::Betaflight4_4) => Some(34u32),
            (FlightMode::OsdAlt3, InternalFirmware::Inav5) => Some(34u32),
            (FlightMode::User4, InternalFirmware::Betaflight4_2 | InternalFirmware::Betaflight4_3 | InternalFirmware::Betaflight4_4) => Some(35u32),
            (FlightMode::NavCourseHold, InternalFirmware::Inav5) => Some(35u32),
            (FlightMode::PidAudio, InternalFirmware::Betaflight4_2 | InternalFirmware::Betaflight4_3 | InternalFirmware::Betaflight4_4) => Some(36u32),
            (FlightMode::Braking, InternalFirmware::Inav5) => Some(36u32),
            (FlightMode::AcroTrainer, InternalFirmware::Betaflight4_2 | InternalFirmware::Betaflight4_3 | InternalFirmware::Betaflight4_4) => Some(37u32),
            (FlightMode::User1, InternalFirmware::Inav5) => Some(37u32),
            (FlightMode::VtxControlDisable, InternalFirmware::Betaflight4_2 | InternalFirmware::Betaflight4_3 | InternalFirmware::Betaflight4_4) => Some(38u32),
            (FlightMode::User2, InternalFirmware::Inav5) => Some(38u32),
            (FlightMode::LaunchControl, InternalFirmware::Betaflight4_2 | InternalFirmware::Betaflight4_3 | InternalFirmware::Betaflight4_4) => Some(39u32),
            (FlightMode::FpvAngleMix, InternalFirmware::Inav5) => Some(39u32),
            (FlightMode::MspOverride, InternalFirmware::Betaflight4_2 | InternalFirmware::Betaflight4_3 | InternalFirmware::Betaflight4_4) => Some(40u32),
            (FlightMode::LoiterChange, InternalFirmware::Inav5) => Some(40u32),
            (FlightMode::StickCommandDisable, InternalFirmware::Betaflight4_2 | InternalFirmware::Betaflight4_3 | InternalFirmware::Betaflight4_4) => Some(41u32),
            (FlightMode::MspRcOverride, InternalFirmware::Inav5) => Some(41u32),
            (FlightMode::BeeperMute, InternalFirmware::Betaflight4_2 | InternalFirmware::Betaflight4_3 | InternalFirmware::Betaflight4_4) => Some(42u32),
            (FlightMode::Prearm, InternalFirmware::Inav5) => Some(42u32),
            (FlightMode::Turtle, InternalFirmware::Inav5) => Some(43u32),
            (FlightMode::NavCruise, InternalFirmware::Inav5) => Some(44u32),
            (FlightMode::AutoLevel, InternalFirmware::Inav5) => Some(45u32),
            (FlightMode::PlanWpMission, InternalFirmware::Inav5) => Some(46u32),
            (FlightMode::Soaring, InternalFirmware::Inav5) => Some(47u32),
            _ => None,
        }
    }
}

/// Reading back the bit of a flag gives that flag.
pub proof fn lemma_flight_mode_bit_round_trip(value: FlightMode, fw: InternalFirmware)
    ensures
        flight_mode_bit(value, fw) matches Some(bit) ==> flight_mode_of_bit(bit, fw) == Some(value),
{
}

/// The flag read from a bit has that bit.
pub proof fn lemma_flight_mode_of_bit_round_trip(bit: u32, fw: InternalFirmware)
    ensures
        flight_mode_of_bit(bit, fw) matches Some(value) ==> flight_mode_bit(value, fw) == Some(bit),
{
}

/// The flags that the bits in `bits` stand for, in the same order; bits
/// that stand for no flag of `fw` are left out.
pub open spec fn flight_modes_in(bits: Seq<usize>, fw: InternalFirmware) -> Seq<FlightMode>
    decreases bits.len(),
{
    if bits.len() == 0 {
        seq![]
    } else {
        let rest = flight_modes_in(bits.drop_last(), fw);
        match flight_mode_of_bit(bits.last() as u32, fw) {
            Some(value) => rest.push(value),
            None => rest,
        }
    }
}

/// A flag is among those of `bits` exactly when one of the bits stands for it.
pub proof fn lemma_flight_modes_in_contains(bits: Seq<usize>, fw: InternalFirmware, value: FlightMode)
    requires
        forall|i: int| 0 <= i < bits.len() ==> bits[i] < 32,
    ensures
        flight_modes_in(bits, fw).contains(value) <==> (exists|i: int|
            0 <= i < bits.len() && #[trigger] flight_mode_of_bit(bits[i] as u32, fw) == Some(value)),
    decreases bits.len(),
{
    if bits.len() > 0 {
        let init = bits.drop_last();
        lemma_flight_modes_in_contains(init, fw, value);
        let rest = flight_modes_in(init, fw);
        if flight_modes_in(bits, fw).contains(value) {
            if !rest.contains(value) {
                assert(flight_mode_of_bit(bits[bits.len() - 1] as u32, fw) == Some(value)) by {
                    let k = choose|k: int| 0 <= k < flight_modes_in(bits, fw).len() && flight_modes_in(bits, fw)[k] == value;
                    if k < rest.len() {
                        assert(rest[k] == value);
                    }
                }
            } else {
                let i = choose|i: int| 0 <= i < init.len() && #[trigger] flight_mode_of_bit(init[i] as u32, fw) == Some(value);
                assert(bits[i] == init[i]);
            }
        }
        if exists|i: int| 0 <= i < bits.len() && #[trigger] flight_mode_of_bit(bits[i] as u32, fw) == Some(value) {
            let i = choose|i: int| 0 <= i < bits.len() && #[trigger] flight_mode_of_bit(bits[i] as u32, fw) == Some(value);
            if i < init.len() {
                assert(init[i] == bits[i]);
                let k = choose|k: int| 0 <= k < rest.len() && rest[k] == value;
                assert(flight_modes_in(bits, fw)[k] == value);
            } else {
                assert(flight_modes_in(bits, fw).last() == value);
            }
        }
    }
}

/// All currently enabled flight modes.
#[derive(Debug, Clone, Copy, PartialEq, Eq, Hash, Structural)]
pub struct FlightModeSet {
    firmware: InternalFirmware,
    raw: u32,
}

impl FlightModeSet {
    /// The raw flags.
    pub closed spec fn spec_raw(&self) -> u32 {
        self.raw
    }

    /// The firmware that wrote the flags.
    pub closed spec fn spec_firmware(&self) -> InternalFirmware {
        self.firmware
    }

    /// The flags that are set, lowest bit first.
    pub open spec fn spec_flags(&self) -> Seq<FlightMode> {
        flight_modes_in(ones_below(self.spec_raw(), 32), self.spec_firmware())
    }

    /// Whether `flag` is set.
    pub open spec fn spec_is_set(&self, flag: FlightMode) -> bool {
        match flight_mode_bit(flag, self.spec_firmware()) {
            Some(bit) => bit_set(self.spec_raw(), bit),
            None => false,
        }
    }

    /// The flags `raw` as written by `firmware`.
    pub fn new(raw: u32, firmware: InternalFirmware) -> (set: Self)
        ensures
            set.spec_raw() == raw,
            set.spec_firmware() == firmware,
    {
        Self { firmware, raw }
    }

    /// The flags that are set, lowest bit first. Bits that stand for no
    /// flag of the firmware are left out.
    pub fn iter(&self) -> (flags: Vec<FlightMode>)
        ensures
            flags@ == self.spec_flags(),
    {
        let bits = set_bits(self.raw);
        proof {
            lemma_ones_below(self.raw, 32);
        }
        let mut flags: Vec<FlightMode> = Vec::new();
        let mut i: usize = 0;
        while i < bits.len()
            invariant
                i <= bits.len(),
                bits@ == ones_below(self.raw, 32),
                forall|j: int| 0 <= j < bits.len() ==> bits[j] < 32,
                flags@ == flight_modes_in(bits@.take(i as int), self.firmware),
            decreases bits.len() - i,
        {
            let bit = bits[i];
            assert(bits@.take(i as int + 1).drop_last() == bits@.take(i as int));
            if let Some(flag) = FlightMode::from_bit(bit as u32, self.firmware) {
                flags.push(flag);
            }
            i += 1;
        }
        assert(bits@.take(bits.len() as int) == bits@);
        flags
    }

    /// Whether `flag` is set.
    pub fn is_set(&self, flag: FlightMode) -> (set: bool)
        requires
            flight_mode_bit(flag, self.spec_firmware()) matches Some(bit) ==> bit < 32,
        ensures
            set == self.spec_is_set(flag),
    {
        match flag.to_bit(self.firmware) {
            Some(bit) => test_bit(self.raw, bit),
            None => false,
        }
    }

    /// The names of the flags that are set, lowest bit first.
    pub fn as_names(&self) -> (names: Vec<&'static str>)
        ensures
            names@.len() == self.spec_flags().len(),
            forall|i: int| 0 <= i < names@.len() ==> names@[i]@ == flight_mode_name(#[trigger] self.spec_flags()[i]),
    {
        let flags = self.iter();
        let mut names: Vec<&'static str> = Vec::new();
        let mut i: usize = 0;
        while i < flags.len()
            invariant
                i <= flags.len(),
                flags@ == self.spec_flags(),
                names@.len() == i,
                forall|j: int| 0 <= j < i ==> names@[j]@ == flight_mode_name(#[trigger] flags@[j]),
            decreases flags.len() - i,
        {
            names.push(flags[i].as_name());
            i += 1;
        }
        names
    }
}

/// A flag is set exactly when it is among the flags that `iter` lists.
pub proof fn lemma_flight_mode_set_is_set_iff_listed(set: FlightModeSet, flag: FlightMode)
    ensures
        set.spec_is_set(flag) <==> set.spec_flags().contains(flag),
{
    let bits = ones_below(set.spec_raw(), 32);
    let fw = set.spec_firmware();
    lemma_ones_below(set.spec_raw(), 32);
    lemma_flight_modes_in_contains(bits, fw, flag);
    lemma_flight_mode_bit_round_trip(flag, fw);
    if set.spec_flags().contains(flag) {
        let i = choose|i: int| 0 <= i < bits.len() && #[trigger] flight_mode_of_bit(bits[i] as u32, fw) == Some(flag);
        lemma_flight_mode_of_bit_round_trip(bits[i] as u32, fw);
    }
    if set.spec_is_set(flag) {
        let bit = flight_mode_bit(flag, fw)->0;
        let i = choose|i: int| 0 <= i < bits.len() && bits[i] == bit as usize;
        assert(flight_mode_of_bit(bits[i] as u32, fw) == Some(flag));
    }
}

/// The flight modes that Betaflight 4.2, Betaflight 4.3, Betaflight 4.4 write,
/// by bit: 0 Arm (`ARM`), 1 Angle (`ANGLE`), 2 Horizon (`HORIZON`), 3 Mag
/// (`MAG`), 4 HeadFree (`HEADFREE`), 5 Passthru (`PASSTHRU`), 6 Failsafe
/// (`FAILSAFE`), 7 GpsRescue (`GPS RESCUE`), 8 AntiGravity (`ANTI GRAVITY`), 9
/// HeadAdjust (`HEADADJ`), 10 CamStab (`CAMSTAB`), 11 BeeperOn (`BEEPERON`), 12
/// LedLow (`LEDLOW`), 13 Calibration (`CALIB`), 14 Osd (`OSD`), 15 Telemetry
/// (`TELEMETRY`), 16 Servo1 (`SERVO1`), 17 Servo2 (`SERVO2`), 18 Servo3
/// (`SERVO3`), 19 Blackbox (`BLACKBOX`), 20 Airmode (`AIRMODE`), 21 ThreeD
/// (`3D`), 22 FpvAngleMix (`FPV ANGLE MIX`), 23 BlackboxErase (`BLACKBOX
/// ERASE`), 24 Camera1 (`CAMERA1`), 25 Camera2 (`CAMERA2`), 26 Camera3
/// (`CAMERA3`), 27 Turtle (`TURTLE`), 28 Prearm (`PREARM`), 29 BeepGpsCount
/// (`BEEP GPS COUNT`), 30 VtxPitMode (`VTX PIT MODE`), 31 Paralyze
/// (`PARALYZE`), 32 User1 (`USER1`), 33 User2 (`USER2`), 34 User3 (`USER3`), 35
/// User4 (`USER4`), 36 PidAudio (`PID AUDIO`), 37 AcroTrainer (`ACRO TRAINER`),
/// 38 VtxControlDisable (`VTX CONTROL DISABLE`), 39 LaunchControl (`LAUNCH
/// CONTROL`), 40 MspOverride (`MSPOVERRIDE`), 41 StickCommandDisable (`STICK
/// COMMAND DISABLE`), 42 BeeperMute (`BEEPER MUTE`); every other bit stands for
/// none.
pub proof fn lemma_flight_mode_of_bit_betaflight4_2_betaflight4_3_betaflight4_4(fw: InternalFirmware, n: u32)
    requires
        fw == InternalFirmware::Betaflight4_2 || fw == InternalFirmware::Betaflight4_3 || fw == InternalFirmware::Betaflight4_4,
    ensures
        flight_mode_of_bit(n, fw) == (if n == 0 {
            Some(FlightMode::Arm)
        } else if n == 1 {
            Some(FlightMode::Angle)
        } else if n == 2 {
            Some(FlightMode::Horizon)
        } else if n == 3 {
            Some(FlightMode::Mag)
        } else if n == 4 {
            Some(FlightMode::HeadFree)
        } else if n == 5 {
            Some(FlightMode::Passthru)
        } else if n == 6 {
            Some(FlightMode::Failsafe)
        } else if n == 7 {
            Some(FlightMode::GpsRescue)
        } else if n == 8 {
            Some(FlightMode::AntiGravity)
        } else if n == 9 {
            Some(FlightMode::HeadAdjust)
        } else if n == 10 {
            Some(FlightMode::CamStab)
        } else if n == 11 {
            Some(FlightMode::BeeperOn)
        } else if n == 12 {
            Some(FlightMode::LedLow)
        } else if n == 13 {
            Some(FlightMode::Calibration)
        } else if n == 14 {
            Some(FlightMode::Osd)
        } else if n == 15 {
            Some(FlightMode::Telemetry)
        } else if n == 16 {
            Some(FlightMode::Servo1)
        } else if n == 17 {
            Some(FlightMode::Servo2)
        } else if n == 18 {
            Some(FlightMode::Servo3)
        } else if n == 19 {
            Some(FlightMode::Blackbox)
        } else if n == 20 {
            Some(FlightMode::Airmode)
        } else if n == 21 {
            Some(FlightMode::ThreeD)
        } else if n == 22 {
            Some(FlightMode::FpvAngleMix)
        } else if n == 23 {
            Some(FlightMode::BlackboxErase)
        } else if n == 24 {
            Some(FlightMode::Camera1)
        } else if n == 25 {
            Some(FlightMode::Camera2)
        } else if n == 26 {
            Some(FlightMode::Camera3)
        } else if n == 27 {
            Some(FlightMode::Turtle)
        } else if n == 28 {
            Some(FlightMode::Prearm)
        } else if n == 29 {
            Some(FlightMode::BeepGpsCount)
        } else if n == 30 {
            Some(FlightMode::VtxPitMode)
        } else if n == 31 {
            Some(FlightMode::Paralyze)
        } else if n == 32 {
            Some(FlightMode::User1)
        } else if n == 33 {
            Some(FlightMode::User2)
        } else if n == 34 {
            Some(FlightMode::User3)
        } else if n == 35 {
            Some(FlightMode::User4)
        } else if n == 36 {
            Some(FlightMode::PidAudio)
        } else if n == 37 {
            Some(FlightMode::AcroTrainer)
        } else if n == 38 {
            Some(FlightMode::VtxControlDisable)
        } else if n == 39 {
            Some(FlightMode::LaunchControl)
        } else if n == 40 {
            Some(FlightMode::MspOverride)
        } else if n == 41 {
            Some(FlightMode::StickCommandDisable)
        } else if n == 42 {
            Some(FlightMode::BeeperMute)
        } else {
            None::<FlightMode>
        }),
        flight_mode_of_bit(n, fw) matches Some(m) ==> flight_mode_name(m) == (if n == 0 {
            "ARM"@
        } else if n == 1 {
            "ANGLE"@
        } else if n == 2 {
            "HORIZON"@
        } else if n == 3 {
            "MAG"@
        } else if n == 4 {
            "HEADFREE"@
        } else if n == 5 {
            "PASSTHRU"@
        } else if n == 6 {
            "FAILSAFE"@
        } else if n == 7 {
            "GPS RESCUE"@
        } else if n == 8 {
            "ANTI GRAVITY"@
        } else if n == 9 {
            "HEADADJ"@
        } else if n == 10 {
            "CAMSTAB"@
        } else if n == 11 {
            "BEEPERON"@
        } else if n == 12 {
            "LEDLOW"@
        } else if n == 13 {
            "CALIB"@
        } else if n == 14 {
            "OSD"@
        } else if n == 15 {
            "TELEMETRY"@
        } else if n == 16 {
            "SERVO1"@
        } else if n == 17 {
            "SERVO2"@
        } else if n == 18 {
            "SERVO3"@
        } else if n == 19 {
            "BLACKBOX"@
        } else if n == 20 {
            "AIRMODE"@
        } else if n == 21 {
            "3D"@
        } else if n == 22 {
            "FPV ANGLE MIX"@
        } else if n == 23 {
            "BLACKBOX ERASE"@
        } else if n == 24 {
            "CAMERA1"@
        } else if n == 25 {
            "CAMERA2"@
        } else if n == 26 {
            "CAMERA3"@
        } else if n == 27 {
            "TURTLE"@
        } else if n == 28 {
            "PREARM"@
        } else if n == 29 {
            "BEEP GPS COUNT"@
        } else if n == 30 {
            "VTX PIT MODE"@
        } else if n == 31 {
            "PARALYZE"@
        } else if n == 32 {
            "USER1"@
        } else if n == 33 {
            "USER2"@
        } else if n == 34 {
            "USER3"@
        } else if n == 35 {
            "USER4"@
        } else if n == 36 {
            "PID AUDIO"@
        } else if n == 37 {
            "ACRO TRAINER"@
        } else if n == 38 {
            "VTX CONTROL DISABLE"@
        } else if n == 39 {
            "LAUNCH CONTROL"@
        } else if n == 40 {
            "MSPOVERRIDE"@
        } else if n == 41 {
            "STICK COMMAND DISABLE"@
        } else if n == 42 {
            "BEEPER MUTE"@
        } else {
            ""@
        }),
{
}

/// Betaflight 4.5, INAV 6, INAV 7 write no flight modes: every bit stands for
/// none.
pub proof fn lemma_flight_mode_of_bit_betaflight4_5_inav6_inav7(fw: InternalFirmware, n: u32)
    requires
        fw == InternalFirmware::Betaflight4_5 || fw == InternalFirmware::Inav6 || fw == InternalFirmware::Inav7,
    ensures
        flight_mode_of_bit(n, fw) == ({
            None::<FlightMode>
        }),
        flight_mode_of_bit(n, fw) matches Some(m) ==> flight_mode_name(m) == ({
            ""@
        }),
{
}

/// The flight modes that INAV 5 writes, by bit: 0 Arm (`ARM`), 1 Angle
/// (`ANGLE`), 2 Horizon (`HORIZON`), 3 NavAltitudeHold (`NAV ALTHOLD`), 4
/// HeadingHold (`HEADINGHOLD`), 5 HeadFree (`HEADFREE`), 6 HeadAdjust
/// (`HEADADJ`), 7 CamStab (`CAMSTAB`), 8 NavRth (`NAV RTH`), 9 NavPositionHold
/// (`NAV POSHOLD`), 10 Manual (`MANUAL`), 11 BeeperOn (`BEEPERON`), 12 LedLow
/// (`LEDLOW`), 13 Lights (`LIGHTS`), 14 NavLaunch (`NAV LAUNCH`), 15 Osd
/// (`OSD`), 16 Telemetry (`TELEMETRY`), 17 Blackbox (`BLACKBOX`), 18 Failsafe
/// (`FAILSAFE`), 19 NavWaypoint (`NAV WP`), 20 Airmode (`AIRMODE`), 21
/// HomeReset (`HOMERESET`), 22 GcsNav (`GCSNAV`), 23 Killswitch (`KILLSWITCH`),
/// 24 Surface (`SURFACE`), 25 Flaperon (`FLAPERON`), 26 TurnAssist
/// (`TURNASSIST`), 27 AutoTrim (`AUTOTRIM`), 28 AutoTune (`AUTOTUNE`), 29
/// Camera1 (`CAMERA1`), 30 Camera2 (`CAMERA2`), 31 Camera3 (`CAMERA3`), 32
/// OsdAlt1 (`OSDALT1`), 33 OsdAlt2 (`OSDALT2`), 34 OsdAlt3 (`OSDALT3`), 35
/// NavCourseHold (`NAVCOURSEHOLD`), 36 Braking (`BRAKING`), 37 User1 (`USER1`),
/// 38 User2 (`USER2`), 39 FpvAngleMix (`FPV ANGLE MIX`), 40 LoiterChange
/// (`LOITERDIRCHN`), 41 MspRcOverride (`MSPRCOVERRIDE`), 42 Prearm (`PREARM`),
/// 43 Turtle (`TURTLE`), 44 NavCruise (`NAV CRUISE`), 45 AutoLevel
/// (`AUTOLEVEL`), 46 PlanWpMission (`PLANWPMISSION`), 47 Soaring (`SOARING`);
/// every other bit stands for none.
pub proof fn lemma_flight_mode_of_bit_inav5(fw: InternalFirmware, n: u32)
    requires
        fw == InternalFirmware::Inav5,
    ensures
        flight_mode_of_bit(n, fw) == (if n == 0 {
            Some(FlightMode::Arm)
        } else if n == 1 {
            Some(FlightMode::Angle)
        } else if n == 2 {
            Some(FlightMode::Horizon)
        } else if n == 3 {
            Some(FlightMode::NavAltitudeHold)
        } else if n == 4 {
            Some(FlightMode::HeadingHold)
        } else if n == 5 {
            Some(FlightMode::HeadFree)
        } else if n == 6 {
            Some(FlightMode::HeadAdjust)
        } else if n == 7 {
            Some(FlightMode::CamStab)
        } else if n == 8 {
            Some(FlightMode::NavRth)
        } else if n == 9 {
            Some(FlightMode::NavPositionHold)
        } else if n == 10 {
            Some(FlightMode::Manual)
        } else if n == 11 {
            Some(FlightMode::BeeperOn)
        } else if n == 12 {
            Some(FlightMode::LedLow)
        } else if n == 13 {
            Some(FlightMode::Lights)
        } else if n == 14 {
            Some(FlightMode::NavLaunch)
        } else if n == 15 {
            Some(FlightMode::Osd)
        } else if n == 16 {
            Some(FlightMode::Telemetry)
        } else if n == 17 {
            Some(FlightMode::Blackbox)
        } else if n == 18 {
            Some(FlightMode::Failsafe)
        } else if n == 19 {
            Some(FlightMode::NavWaypoint)
        } else if n == 20 {
            Some(FlightMode::Airmode)
        } else if n == 21 {
            Some(FlightMode::HomeReset)
        } else if n == 22 {
            Some(FlightMode::GcsNav)
        } else if n == 23 {
            Some(FlightMode::Killswitch)
        } else if n == 24 {
            Some(FlightMode::Surface)
        } else if n == 25 {
            Some(FlightMode::Flaperon)
        } else if n == 26 {
            Some(FlightMode::TurnAssist)
        } else if n == 27 {
            Some(FlightMode::AutoTrim)
        } else if n == 28 {
            Some(FlightMode::AutoTune)
        } else if n == 29 {
            Some(FlightMode::Camera1)
        } else if n == 30 {
            Some(FlightMode::Camera2)
        } else if n == 31 {
            Some(FlightMode::Camera3)
        } else if n == 32 {
            Some(FlightMode::OsdAlt1)
        } else if n == 33 {
            Some(FlightMode::OsdAlt2)
        } else if n == 34 {
            Some(FlightMode::OsdAlt3)
        } else if n == 35 {
            Some(FlightMode::NavCourseHold)
        } else if n == 36 {
            Some(FlightMode::Braking)
        } else if n == 37 {
            Some(FlightMode::User1)
        } else if n == 38 {
            Some(FlightMode::User2)
        } else if n == 39 {
            Some(FlightMode::FpvAngleMix)
        } else if n == 40 {
            Some(FlightMode::LoiterChange)
        } else if n == 41 {
            Some(FlightMode::MspRcOverride)
        } else if n == 42 {
            Some(FlightMode::Prearm)
        } else if n == 43 {
            Some(FlightMode::Turtle)
        } else if n == 44 {
            Some(FlightMode::NavCruise)
        } else if n == 45 {
            Some(FlightMode::AutoLevel)
        } else if n == 46 {
            Some(FlightMode::PlanWpMission)
        } else if n == 47 {
            Some(FlightMode::Soaring)
        } else {
            None::<FlightMode>
        }),
        flight_mode_of_bit(n, fw) matches Some(m) ==> flight_mode_name(m) == (if n == 0 {
            "ARM"@
        } else if n == 1 {
            "ANGLE"@
        } else if n == 2 {
            "HORIZON"@
        } else if n == 3 {
            "NAV ALTHOLD"@
        } else if n == 4 {
            "HEADINGHOLD"@
        } else if n == 5 {
            "HEADFREE"@
        } else if n == 6 {
            "HEADADJ"@
        } else if n == 7 {
            "CAMSTAB"@
        } else if n == 8 {
            "NAV RTH"@
        } else if n == 9 {
            "NAV POSHOLD"@
        } else if n == 10 {
            "MANUAL"@
        } else if n == 11 {
            "BEEPERON"@
        } else if n == 12 {
            "LEDLOW"@
        } else if n == 13 {
            "LIGHTS"@
        } else if n == 14 {
            "NAV LAUNCH"@
        } else if n == 15 {
            "OSD"@
        } else if n == 16 {
            "TELEMETRY"@
        } else if n == 17 {
            "BLACKBOX"@
        } else if n == 18 {
            "FAILSAFE"@
        } else if n == 19 {
            "NAV WP"@
        } else if n == 20 {
            "AIRMODE"@
        } else if n == 21 {
            "HOMERESET"@
        } else if n == 22 {
            "GCSNAV"@
        } else if n == 23 {
            "KILLSWITCH"@
        } else if n == 24 {
            "SURFACE"@
        } else if n == 25 {
            "FLAPERON"@
        } else if n == 26 {
            "TURNASSIST"@
        } else if n == 27 {
            "AUTOTRIM"@
        } else if n == 28 {
            "AUTOTUNE"@
        } else if n == 29 {
            "CAMERA1"@
        } else if n == 30 {
            "CAMERA2"@
        } else if n == 31 {
            "CAMERA3"@
        } else if n == 32 {
            "OSDALT1"@
        } else if n == 33 {
            "OSDALT2"@
        } else if n == 34 {
            "OSDALT3"@
        } else if n == 35 {
            "NAVCOURSEHOLD"@
        } else if n == 36 {
            "BRAKING"@
        } else if n == 37 {
            "USER1"@
        } else if n == 38 {
            "USER2"@
        } else if n == 39 {
            "FPV ANGLE MIX"@
        } else if n == 40 {
            "LOITERDIRCHN"@
        } else if n == 41 {
            "MSPRCOVERRIDE"@
        } else if n == 42 {
            "PREARM"@
        } else if n == 43 {
            "TURTLE"@
        } else if n == 44 {
            "NAV CRUISE"@
        } else if n == 45 {
            "AUTOLEVEL"@
        } else if n == 46 {
            "PLANWPMISSION"@
        } else if n == 47 {
            "SOARING"@
        } else {
            ""@
        }),
{
}

} // verus!
