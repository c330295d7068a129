//! All set flight controller states.

use vstd::prelude::*;

use crate::headers::InternalFirmware;

use super::{bit_set, lemma_ones_below, ones_below, set_bits, test_bit};

verus! {

/// A flight controller state.
#[derive(Debug, Clone, Copy, PartialEq, Eq, Hash, Structural)]
pub enum State {
    /// `ACCELEROMETER_CALIBRATED`
    AccelerometerCalibrated,
    /// `AIRMODE_ACTIVE`
    AirMode,
    /// `AIRPLANE`
    Airplane,
    /// `ALTITUDE_CONTROL`
    AltitudeControl,
    /// `ANTI_WINDUP`
    AntiWindup,
    /// `ANTI_WINDUP_DEACTIVATED`
    AntiWindupDeactivated,
    /// `BOAT`
    Boat,
    /// `CALIBRATE_MAG`
    CalibrateMag,
    /// `COMPASS_CALIBRATED`
    CompassCalibrated,
    /// `ESC_SENSOR_ENABLED`
    EscSensorEnabled,
    /// `FIXED_WING_LEGACY`
    FixedWingLegacy,
    /// `FLAPERON_AVAILABLE`
    FlaperonAvailable,
    /// `FW_HEADING_USE_YAW`
    FwHeadingUseYaw,
    /// `GPS_FIX`
    GpsFix,
    /// `GPS_FIX_EVER`
    GpsFixEver,
    /// `GPS_FIX_HOME`
    GpsFixHome,
    /// `IN_FLIGHT_EMERG_REARM`
    InFlightEmergencyRearm,
    /// `LANDING_DETECTED`
    LandingDetected,
    /// `MOVE_FORWARD_ONLY`
    MoveForwardOnly,
    /// `MULTIROTOR`
    Multirotor,
    /// `NAV_CRUISE_BRAKING`
    NavCruiseBraking,
    /// `NAV_CRUISE_BRAKING_BOOST`
    NavCruiseBrakingBoost,
    /// `NAV_CRUISE_BRAKING_LOCKED`
    NavCruiseBrakingLocked,
    /// `NAV_EXTRA_ARMING_SAFETY_BYPASSED`
    NavExtraArmingSafetyBypassed,
    /// `NAV_MOTOR_STOP_OR_IDLE`
    NavMotorStopOrIdle,
    /// `ROVER`
    Rover,
    /// `SET_REVERSIBLE_MOTORS_FORWARD`
    SetReversibleMotorsForward,
    /// `SMALL_ANGLE`
    SmallAngle,
    /// `TAILSITTER`
    Tailsitter,
}

/// The name that the firmware gives a `State`.
pub open spec fn state_name(value: State) -> Seq<char> {
    match value {
        State::AccelerometerCalibrated => "ACCELEROMETER_CALIBRATED"@,
        State::AirMode => "AIRMODE_ACTIVE"@,
        State::Airplane => "AIRPLANE"@,
        State::AltitudeControl => "ALTITUDE_CONTROL"@,
        State::AntiWindup => "ANTI_WINDUP"@,
        State::AntiWindupDeactivated => "ANTI_WINDUP_DEACTIVATED"@,
        State::Boat => "BOAT"@,
        State::CalibrateMag => "CALIBRATE_MAG"@,
        State::CompassCalibrated => "COMPASS_CALIBRATED"@,
        State::EscSensorEnabled => "ESC_SENSOR_ENABLED"@,
        State::FixedWingLegacy => "FIXED_WING_LEGACY"@,
        State::FlaperonAvailable => "FLAPERON_AVAILABLE"@,
        State::FwHeadingUseYaw => "FW_HEADING_USE_YAW"@,
        State::GpsFix => "GPS_FIX"@,
        State::GpsFixEver => "GPS_FIX_EVER"@,
        State::GpsFixHome => "GPS_FIX_HOME"@,
        State::InFlightEmergencyRearm => "IN_FLIGHT_EMERG_REARM"@,
        State::LandingDetected => "LANDING_DETECTED"@,
        State::MoveForwardOnly => "MOVE_FORWARD_ONLY"@,
        State::Multirotor => "MULTIROTOR"@,
        State::NavCruiseBraking => "NAV_CRUISE_BRAKING"@,
        State::NavCruiseBrakingBoost => "NAV_CRUISE_BRAKING_BOOST"@,
        State::NavCruiseBrakingLocked => "NAV_CRUISE_BRAKING_LOCKED"@,
        State::NavExtraArmingSafetyBypassed => "NAV_EXTRA_ARMING_SAFETY_BYPASSED"@,
        State::NavMotorStopOrIdle => "NAV_MOTOR_STOP_OR_IDLE"@,
        State::Rover => "ROVER"@,
        State::SetReversibleMotorsForward => "SET_REVERSIBLE_MOTORS_FORWARD"@,
        State::SmallAngle => "SMALL_ANGLE"@,
        State::Tailsitter => "TAILSITTER"@,
    }
}

/// The bit that stands for `value` in the flags written by `fw`, if `fw`
/// has such a flag.
pub open spec fn state_bit(value: State, fw: InternalFirmware) -> Option<u32> {
    match (value, fw) {
        (State::GpsFixHome, InternalFirmware::Betaflight4_2 | InternalFirmware::Betaflight4_3 | InternalFirmware::Betaflight4_4 | InternalFirmware::Inav5 | InternalFirmware::Inav6 | InternalFirmware::Inav7) => Some(0u32),
        (State::GpsFix, InternalFirmware::Betaflight4_2 | InternalFirmware::Betaflight4_3 | InternalFirmware::Betaflight4_4 | InternalFirmware::Inav5 | InternalFirmware::Inav6 | InternalFirmware::Inav7) => Some(1u32),
        (State::GpsFixEver, InternalFirmware::Betaflight4_3 | InternalFirmware::Betaflight4_4) => Some(2u32),
        (State::CalibrateMag, InternalFirmware::Inav5 | InternalFirmware::Inav6 | InternalFirmware::Inav7) => Some(2u32),
        (State::SmallAngle, InternalFirmware::Inav5 | InternalFirmware::Inav6 | InternalFirmware::Inav7) => Some(3u32),
        (State::FixedWingLegacy, InternalFirmware::Inav5 | InternalFirmware::Inav6 | InternalFirmware::Inav7) => Some(4u32),
        (State::AntiWindup, InternalFirmware::Inav5 | InternalFirmware::Inav6 | InternalFirmware::Inav7) => Some(5u32),
        (State::FlaperonAvailable, InternalFirmware::Inav5 | InternalFirmware::Inav6 | InternalFirmware::Inav7) => Some(6u32),
        (State::NavMotorStopOrIdle, InternalFirmware::Inav5 | InternalFirmware::Inav6 | InternalFirmware::Inav7) => Some(7u32),
        (State::CompassCalibrated, InternalFirmware::Inav5 | InternalFirmware::Inav6 | InternalFirmware::Inav7) => Some(8u32),
        (State::AccelerometerCalibrated, InternalFirmware::Inav5 | InternalFirmware::Inav6 | InternalFirmware::Inav7) => Some(9u32),
        (State::NavCruiseBraking, InternalFirmware::Inav5 | InternalFirmware::Inav6 | InternalFirmware::Inav7) => Some(11u32),
        (State::NavCruiseBrakingBoost, InternalFirmware::Inav5 | InternalFirmware::Inav6 | InternalFirmware::Inav7) => Some(12u32),
        (State::NavCruiseBrakingLocked, InternalFirmware::Inav5 | InternalFirmware::Inav6 | InternalFirmware::Inav7) => Some(13u32),
        (State::NavExtraArmingSafetyBypassed, InternalFirmware::Inav5 | InternalFirmware::Inav6 | InternalFirmware::Inav7) => Some(14u32),
        (State::AirMode, InternalFirmware::Inav5 | InternalFirmware::Inav6 | InternalFirmware::Inav7) => Some(15u32),
        (State::EscSensorEnabled, InternalFirmware::Inav5 | InternalFirmware::Inav6 | InternalFirmware::Inav7) => Some(16u32),
        (State::Airplane, InternalFirmware::Inav5 | InternalFirmware::Inav6 | InternalFirmware::Inav7) => Some(17u32),
        (State::Multirotor, InternalFirmware::Inav5 | InternalFirmware::Inav6 | InternalFirmware::Inav7) => Some(18u32),
        (State::Rover, InternalFirmware::Inav5 | InternalFirmware::Inav6 | InternalFirmware::Inav7) => Some(19u32),
        (State::Boat, InternalFirmware::Inav5 | InternalFirmware::Inav6 | InternalFirmware::Inav7) => Some(20u32),
        (State::AltitudeControl, InternalFirmware::Inav5 | InternalFirmware::Inav6 | InternalFirmware::Inav7) => Some(21u32),
        (State::MoveForwardOnly, InternalFirmware::Inav5 | InternalFirmware::Inav6 | InternalFirmware::Inav7) => Some(22u32),
        (State::SetReversibleMotorsForward, InternalFirmware::Inav5 | InternalFirmware::Inav6 | InternalFirmware::Inav7) => Some(23u32),
        (State::FwHeadingUseYaw, InternalFirmware::Inav5 | InternalFirmware::Inav6 | InternalFirmware::Inav7) => Some(24u32),
        (State::AntiWindupDeactivated, InternalFirmware::Inav5 | InternalFirmware::Inav6 | InternalFirmware::Inav7) => Some(25u32),
        (State::LandingDetected, InternalFirmware::Inav5 | InternalFirmware::Inav6 | InternalFirmware::Inav7) => Some(26u32),
        (State::InFlightEmergencyRearm, InternalFirmware::Inav7) => Some(27u32),
        (State::Tailsitter, InternalFirmware::Inav7) => Some(28u32),
        _ => None,
    }
}

/// The flag that bit `bit` stands for in the flags written by `fw`, if any.
pub open spec fn state_of_bit(bit: u32, fw: InternalFirmware) -> Option<State> {
    match (bit, fw) {
        (0u32, InternalFirmware::Betaflight4_2 | InternalFirmware::Betaflight4_3 | InternalFirmware::Betaflight4_4 | InternalFirmware::Inav5 | InternalFirmware::Inav6 | InternalFirmware::Inav7) => Some(State::GpsFixHome),
        (1u32, InternalFirmware::Betaflight4_2 | InternalFirmware::Betaflight4_3 | InternalFirmware::Betaflight4_4 | InternalFirmware::Inav5 | InternalFirmware::Inav6 | InternalFirmware::Inav7) => Some(State::GpsFix),
        (2u32, InternalFirmware::Betaflight4_3 | InternalFirmware::Betaflight4_4) => Some(State::GpsFixEver),
        (2u32, InternalFirmware::Inav5 | InternalFirmware::Inav6 | InternalFirmware::Inav7) => Some(State::CalibrateMag),
        (3u32, InternalFirmware::Inav5 | InternalFirmware::Inav6 | InternalFirmware::Inav7) => Some(State::SmallAngle),
        (4u32, InternalFirmware::Inav5 | InternalFirmware::Inav6 | InternalFirmware::Inav7) => Some(State::FixedWingLegacy),
        (5u32, InternalFirmware::Inav5 | InternalFirmware::Inav6 | InternalFirmware::Inav7) => Some(State::AntiWindup),
        (6u32, InternalFirmware::Inav5 | InternalFirmware::Inav6 | InternalFirmware::Inav7) => Some(State::FlaperonAvailable),
        (7u32, InternalFirmware::Inav5 | InternalFirmware::Inav6 | InternalFirmware::Inav7) => Some(State::NavMotorStopOrIdle),
        (8u32, InternalFirmware::Inav5 | InternalFirmware::Inav6 | InternalFirmware::Inav7) => Some(State::CompassCalibrated),
        (9u32, InternalFirmware::Inav5 | InternalFirmware::Inav6 | InternalFirmware::Inav7) => Some(State::AccelerometerCalibrated),
        (11u32, InternalFirmware::Inav5 | InternalFirmware::Inav6 | InternalFirmware::Inav7) => Some(State::NavCruiseBraking),
        (12u32, InternalFirmware::Inav5 | InternalFirmware::Inav6 | InternalFirmware::Inav7) => Some(State::NavCruiseBrakingBoost),
        (13u32, InternalFirmware::Inav5 | InternalFirmware::Inav6 | InternalFirmware::Inav7) => Some(State::NavCruiseBrakingLocked),
        (14u32, InternalFirmware::Inav5 | InternalFirmware::Inav6 | InternalFirmware::Inav7) => Some(State::NavExtraArmingSafetyBypassed),
        (15u32, InternalFirmware::Inav5 | InternalFirmware::Inav6 | InternalFirmware::Inav7) => Some(State::AirMode),
        (16u32, InternalFirmware::Inav5 | InternalFirmware::Inav6 | InternalFirmware::Inav7) => Some(State::EscSensorEnabled),
        (17u32, InternalFirmware::Inav5 | InternalFirmware::Inav6 | InternalFirmware::Inav7) => Some(State::Airplane),
        (18u32, InternalFirmware::Inav5 | InternalFirmware::Inav6 | InternalFirmware::Inav7) => Some(State::Multirotor),
        (19u32, InternalFirmware::Inav5 | InternalFirmware::Inav6 | InternalFirmware::Inav7) => Some(State::Rover),
        (20u32, InternalFirmware::Inav5 | InternalFirmware::Inav6 | InternalFirmware::Inav7) => Some(State::Boat),
        (21u32, InternalFirmware::Inav5 | InternalFirmware::Inav6 | InternalFirmware::Inav7) => Some(State::AltitudeControl),
        (22u32, InternalFirmware::Inav5 | InternalFirmware::Inav6 | InternalFirmware::Inav7) => Some(State::MoveForwardOnly),
        (23u32, InternalFirmware::Inav5 | InternalFirmware::Inav6 | InternalFirmware::Inav7) => Some(State::SetReversibleMotorsForward),
        (24u32, InternalFirmware::Inav5 | InternalFirmware::Inav6 | InternalFirmware::Inav7) => Some(State::FwHeadingUseYaw),
        (25u32, InternalFirmware::Inav5 | InternalFirmware::Inav6 | InternalFirmware::Inav7) => Some(State::AntiWindupDeactivated),
        (26u32, InternalFirmware::Inav5 | InternalFirmware::Inav6 | InternalFirmware::Inav7) => Some(State::LandingDetected),
        (27u32, InternalFirmware::Inav7) => Some(State::InFlightEmergencyRearm),
        (28u32, InternalFirmware::Inav7) => Some(State::Tailsitter),
        _ => None,
    }
}

impl State {
    /// The name that the firmware gives this value.
    pub fn as_name(&self) -> (name: &'static str)
        ensures
            name@ == state_name(*self),
    {
        match self {
            State::AccelerometerCalibrated => "ACCELEROMETER_CALIBRATED",
            State::AirMode => "AIRMODE_ACTIVE",
            State::Airplane => "AIRPLANE",
            State::AltitudeControl => "ALTITUDE_CONTROL",
            State::AntiWindup => "ANTI_WINDUP",
            State::AntiWindupDeactivated => "ANTI_WINDUP_DEACTIVATED",
            State::Boat => "BOAT",
            State::CalibrateMag => "CALIBRATE_MAG",
            State::CompassCalibrated => "COMPASS_CALIBRATED",
            State::EscSensorEnabled => "ESC_SENSOR_ENABLED",
            State::FixedWingLegacy => "FIXED_WING_LEGACY",
            State::FlaperonAvailable => "FLAPERON_AVAILABLE",
            State::FwHeadingUseYaw => "FW_HEADING_USE_YAW",
            State::GpsFix => "GPS_FIX",
            State::GpsFixEver => "GPS_FIX_EVER",
            State::GpsFixHome => "GPS_FIX_HOME",
            State::InFlightEmergencyRearm => "IN_FLIGHT_EMERG_REARM",
            State::LandingDetected => "LANDING_DETECTED",
            State::MoveForwardOnly => "MOVE_FORWARD_ONLY",
            State::Multirotor => "MULTIROTOR",
            State::NavCruiseBraking => "NAV_CRUISE_BRAKING",
            State::NavCruiseBrakingBoost => "NAV_CRUISE_BRAKING_BOOST",
            State::NavCruiseBrakingLocked => "NAV_CRUISE_BRAKING_LOCKED",
            State::NavExtraArmingSafetyBypassed => "NAV_EXTRA_ARMING_SAFETY_BYPASSED",
            State::NavMotorStopOrIdle => "NAV_MOTOR_STOP_OR_IDLE",
            State::Rover => "ROVER",
            State::SetReversibleMotorsForward => "SET_REVERSIBLE_MOTORS_FORWARD",
            State::SmallAngle => "SMALL_ANGLE",
            State::Tailsitter => "TAILSITTER",
        }
    }

    /// The flag that bit `bit` stands for in the flags written by `fw`.
    pub fn from_bit(bit: u32, fw: InternalFirmware) -> (value: Option<Self>)
        ensures
            value == state_of_bit(bit, fw),
    {
        match (bit, fw) {
            (0u32, InternalFirmware::Betaflight4_2 | InternalFirmware::Betaflight4_3 | InternalFirmware::Betaflight4_4 | InternalFirmware::Inav5 | InternalFirmware::Inav6 | InternalFirmware::Inav7) => Some(State::GpsFixHome),
            (1u32, InternalFirmware::Betaflight4_2 | InternalFirmware::Betaflight4_3 | InternalFirmware::Betaflight4_4 | InternalFirmware::Inav5 | InternalFirmware::Inav6 | InternalFirmware::Inav7) => Some(State::GpsFix),
            (2u32, InternalFirmware::Betaflight4_3 | InternalFirmware::Betaflight4_4) => Some(State::GpsFixEver),
            (2u32, InternalFirmware::Inav5 | InternalFirmware::Inav6 | InternalFirmware::Inav7) => Some(State::CalibrateMag),
            (3u32, InternalFirmware::Inav5 | InternalFirmware::Inav6 | InternalFirmware::Inav7) => Some(State::SmallAngle),
            (4u32, InternalFirmware::Inav5 | InternalFirmware::Inav6 | InternalFirmware::Inav7) => Some(State::FixedWingLegacy),
            (5u32, InternalFirmware::Inav5 | InternalFirmware::Inav6 | InternalFirmware::Inav7) => Some(State::AntiWindup),
            (6u32, InternalFirmware::Inav5 | InternalFirmware::Inav6 | InternalFirmware::Inav7) => Some(State::FlaperonAvailable),
            (7u32, InternalFirmware::Inav5 | InternalFirmware::Inav6 | InternalFirmware::Inav7) => Some(State::NavMotorStopOrIdle),
            (8u32, InternalFirmware::Inav5 | InternalFirmware::Inav6 | InternalFirmware::Inav7) => Some(State::CompassCalibrated),
            (9u32, InternalFirmware::Inav5 | InternalFirmware::Inav6 | InternalFirmware::Inav7) => Some(State::AccelerometerCalibrated),
            (11u32, InternalFirmware::Inav5 | InternalFirmware::Inav6 | InternalFirmware::Inav7) => Some(State::NavCruiseBraking),
            (12u32, InternalFirmware::Inav5 | InternalFirmware::Inav6 | InternalFirmware::Inav7) => Some(State::NavCruiseBrakingBoost),
            (13u32, InternalFirmware::Inav5 | InternalFirmware::Inav6 | InternalFirmware::Inav7) => Some(State::NavCruiseBrakingLocked),
            (14u32, InternalFirmware::Inav5 | InternalFirmware::Inav6 | InternalFirmware::Inav7) => Some(State::NavExtraArmingSafetyBypassed),
            (15u32, InternalFirmware::Inav5 | InternalFirmware::Inav6 | InternalFirmware::Inav7) => Some(State::AirMode),
            (16u32, InternalFirmware::Inav5 | InternalFirmware::Inav6 | InternalFirmware::Inav7) => Some(State::EscSensorEnabled),
            (17u32, InternalFirmware::Inav5 | InternalFirmware::Inav6 | InternalFirmware::Inav7) => Some(State::Airplane),
            (18u32, InternalFirmware::Inav5 | InternalFirmware::Inav6 | InternalFirmware::Inav7) => Some(State::Multirotor),
            (19u32, InternalFirmware::Inav5 | InternalFirmware::Inav6 | InternalFirmware::Inav7) => Some(State::Rover),
            (20u32, InternalFirmware::Inav5 | InternalFirmware::Inav6 | InternalFirmware::Inav7) => Some(State::Boat),
            (21u32, InternalFirmware::Inav5 | InternalFirmware::Inav6 | InternalFirmware::Inav7) => Some(State::AltitudeControl),
            (22u32, InternalFirmware::Inav5 | InternalFirmware::Inav6 | InternalFirmware::Inav7) => Some(State::MoveForwardOnly),
            (23u32, InternalFirmware::Inav5 | InternalFirmware::Inav6 | InternalFirmware::Inav7) => Some(State::SetReversibleMotorsForward),
            (24u32, InternalFirmware::Inav5 | InternalFirmware::Inav6 | InternalFirmware::Inav7) => Some(State::FwHeadingUseYaw),
            (25u32, InternalFirmware::Inav5 | InternalFirmware::Inav6 | InternalFirmware::Inav7) => Some(State::AntiWindupDeactivated),
            (26u32, InternalFirmware::Inav5 | InternalFirmware::Inav6 | InternalFirmware::Inav7) => Some(State::LandingDetected),
            (27u32, InternalFirmware::Inav7) => Some(State::InFlightEmergencyRearm),
            (28u32, InternalFirmware::Inav7) => Some(State::Tailsitter),
            _ => None,
        }
    }

    /// The bit that stands for this flag in the flags written by `fw`.
    pub fn to_bit(self, fw: InternalFirmware) -> (bit: Option<u32>)
        ensures
            bit == state_bit(self, fw),
    {
        match (self, fw) {
            (State::GpsFixHome, InternalFirmware::Betaflight4_2 | InternalFirmware::Betaflight4_3 | InternalFirmware::Betaflight4_4 | InternalFirmware::Inav5 | InternalFirmware::Inav6 | InternalFirmware::Inav7) => Some(0u32),
            (State::GpsFix, InternalFirmware::Betaflight4_2 | InternalFirmware::Betaflight4_3 | InternalFirmware::Betaflight4_4 | InternalFirmware::Inav5 | InternalFirmware::Inav6 | InternalFirmware::Inav7) => Some(1u32),
            (State::GpsFixEver, InternalFirmware::Betaflight4_3 | InternalFirmware::Betaflight4_4) => Some(2u32),
            (State::CalibrateMag, InternalFirmware::Inav5 | InternalFirmware::Inav6 | InternalFirmware::Inav7) => Some(2u32),
            (State::SmallAngle, InternalFirmware::Inav5 | InternalFirmware::Inav6 | InternalFirmware::Inav7) => Some(3u32),
            (State::FixedWingLegacy, InternalFirmware::Inav5 | InternalFirmware::Inav6 | InternalFirmware::Inav7) => Some(4u32),
            (State::AntiWindup, InternalFirmware::Inav5 | InternalFirmware::Inav6 | InternalFirmware::Inav7) => Some(5u32),
            (State::FlaperonAvailable, InternalFirmware::Inav5 | InternalFirmware::Inav6 | InternalFirmware::Inav7) => Some(6u32),
            (State::NavMotorStopOrIdle, InternalFirmware::Inav5 | InternalFirmware::Inav6 | InternalFirmware::Inav7) => Some(7u32),
            (State::CompassCalibrated, InternalFirmware::Inav5 | InternalFirmware::Inav6 | InternalFirmware::Inav7) => Some(8u32),
            (State::AccelerometerCalibrated, InternalFirmware::Inav5 | InternalFirmware::Inav6 | InternalFirmware::Inav7) => Some(9u32),
            (State::NavCruiseBraking, InternalFirmware::Inav5 | InternalFirmware::Inav6 | InternalFirmware::Inav7) => Some(11u32),
            (State::NavCruiseBrakingBoost, InternalFirmware::Inav5 | InternalFirmware::Inav6 | InternalFirmware::Inav7) => Some(12u32),
            (State::NavCruiseBrakingLocked, InternalFirmware::Inav5 | InternalFirmware::Inav6 | InternalFirmware::Inav7) => Some(13u32),
            (State::NavExtraArmingSafetyBypassed, InternalFirmware::Inav5 | InternalFirmware::Inav6 | InternalFirmware::Inav7) => Some(14u32),
            (State::AirMode, InternalFirmware::Inav5 | InternalFirmware::Inav6 | InternalFirmware::Inav7) => Some(15u32),
            (State::EscSensorEnabled, InternalFirmware::Inav5 | InternalFirmware::Inav6 | InternalFirmware::Inav7) => Some(16u32),
            (State::Airplane, InternalFirmware::Inav5 | InternalFirmware::Inav6 | InternalFirmware::Inav7) => Some(17u32),
            (State::Multirotor, InternalFirmware::Inav5 | InternalFirmware::Inav6 | InternalFirmware::Inav7) => Some(18u32),
            (State::Rover, InternalFirmware::Inav5 | InternalFirmware::Inav6 | InternalFirmware::Inav7) => Some(19u32),
            (State::Boat, InternalFirmware::Inav5 | InternalFirmware::Inav6 | InternalFirmware::Inav7) => Some(20u32),
            (State::AltitudeControl, InternalFirmware::Inav5 | InternalFirmware::Inav6 | InternalFirmware::Inav7) => Some(21u32),
            (State::MoveForwardOnly, InternalFirmware::Inav5 | InternalFirmware::Inav6 | InternalFirmware::Inav7) => Some(22u32),
            (State::SetReversibleMotorsForward, InternalFirmware::Inav5 | InternalFirmware::Inav6 | InternalFirmware::Inav7) => Some(23u32),
            (State::FwHeadingUseYaw, InternalFirmware::Inav5 | InternalFirmware::Inav6 | InternalFirmware::Inav7) => Some(24u32),
            (State::AntiWindupDeactivated, InternalFirmware::Inav5 | InternalFirmware::Inav6 | InternalFirmware::Inav7) => Some(25u32),
            (State::LandingDetected, InternalFirmware::Inav5 | InternalFirmware::Inav6 | InternalFirmware::Inav7) => Some(26u32),
            (State::InFlightEmergencyRearm, InternalFirmware::Inav7) => Some(27u32),
            (State::Tailsitter, InternalFirmware::Inav7) => Some(28u32),
            _ => None,
        }
    }
}

/// Reading back the bit of a flag gives that flag.
pub proof fn lemma_state_bit_round_trip(value: State, fw: InternalFirmware)
    ensures
        state_bit(value, fw) matches Some(bit) ==> state_of_bit(bit, fw) == Some(value),
{
}

/// The flag read from a bit has that bit.
pub proof fn lemma_state_of_bit_round_trip(bit: u32, fw: InternalFirmware)
    ensures
        state_of_bit(bit, fw) matches Some(value) ==> state_bit(value, fw) == Some(bit),
{
}

/// The flags that the bits in `bits` stand for, in the same order; bits
/// that stand for no flag of `fw` are left out.
pub open spec fn states_in(bits: Seq<usize>, fw: InternalFirmware) -> Seq<State>
    decreases bits.len(),
{
    if bits.len() == 0 {
        seq![]
    } else {
        let rest = states_in(bits.drop_last(), fw);
        match state_of_bit(bits.last() as u32, fw) {
            Some(value) => rest.push(value),
            None => rest,
        }
    }
}

/// A flag is among those of `bits` exactly when one of the bits stands for it.
pub proof fn lemma_states_in_contains(bits: Seq<usize>, fw: InternalFirmware, value: State)
    requires
        forall|i: int| 0 <= i < bits.len() ==> bits[i] < 32,
    ensures
        states_in(bits, fw).contains(value) <==> (exists|i: int|
            0 <= i < bits.len() && #[trigger] state_of_bit(bits[i] as u32, fw) == Some(value)),
    decreases bits.len(),
{
    if bits.len() > 0 {
        let init = bits.drop_last();
        lemma_states_in_contains(init, fw, value);
        let rest = states_in(init, fw);
        if states_in(bits, fw).contains(value) {
            if !rest.contains(value) {
                assert(state_of_bit(bits[bits.len() - 1] as u32, fw) == Some(value)) by {
                    let k = choose|k: int| 0 <= k < states_in(bits, fw).len() && states_in(bits, fw)[k] == value;
                    if k < rest.len() {
                        assert(rest[k] == value);
                    }
                }
            } else {
                let i = choose|i: int| 0 <= i < init.len() && #[trigger] state_of_bit(init[i] as u32, fw) == Some(value);
                assert(bits[i] == init[i]);
            }
        }
        if exists|i: int| 0 <= i < bits.len() && #[trigger] state_of_bit(bits[i] as u32, fw) == Some(value) {
            let i = choose|i: int| 0 <= i < bits.len() && #[trigger] state_of_bit(bits[i] as u32, fw) == Some(value);
            if i < init.len() {
                assert(init[i] == bits[i]);
                let k = choose|k: int| 0 <= k < rest.len() && rest[k] == value;
                assert(states_in(bits, fw)[k] == value);
            } else {
                assert(states_in(bits, fw).last() == value);
            }
        }
    }
}

/// All set flight controller states.
#[derive(Debug, Clone, Copy, PartialEq, Eq, Hash, Structural)]
pub struct StateSet {
    firmware: InternalFirmware,
    raw: u32,
}

impl StateSet {
    /// The raw flags.
    pub closed spec fn spec_raw(&self) -> u32 {
        self.raw
    }

    /// The firmware that wrote the flags.
    pub closed spec fn spec_firmware(&self) -> InternalFirmware {
        self.firmware
    }

    /// The flags that are set, lowest bit first.
    pub open spec fn spec_flags(&self) -> Seq<State> {
        states_in(ones_below(self.spec_raw(), 32), self.spec_firmware())
    }

    /// Whether `flag` is set.
    pub open spec fn spec_is_set(&self, flag: State) -> bool {
        match state_bit(flag, self.spec_firmware()) {
            Some(bit) => bit_set(self.spec_raw(), bit),
            None => false,
        }
    }

    /// The flags `raw` as written by `firmware`.
    pub fn new(raw: u32, firmware: InternalFirmware) -> (set: Self)
        ensures
            set.spec_raw() == raw,
            set.spec_firmware() == firmware,
    {
        Self { firmware, raw }
    }

    /// The flags that are set, lowest bit first. Bits that stand for no
    /// flag of the firmware are left out.
    pub fn iter(&self) -> (flags: Vec<State>)
        ensures
            flags@ == self.spec_flags(),
    {
        let bits = set_bits(self.raw);
        proof {
            lemma_ones_below(self.raw, 32);
        }
        let mut flags: Vec<State> = Vec::new();
        let mut i: usize = 0;
        while i < bits.len()
            invariant
                i <= bits.len(),
                bits@ == ones_below(self.raw, 32),
                forall|j: int| 0 <= j < bits.len() ==> bits[j] < 32,
                flags@ == states_in(bits@.take(i as int), self.firmware),
            decreases bits.len() - i,
        {
            let bit = bits[i];
            assert(bits@.take(i as int + 1).drop_last() == bits@.take(i as int));
            if let Some(flag) = State::from_bit(bit as u32, self.firmware) {
                flags.push(flag);
            }
            i += 1;
        }
        assert(bits@.take(bits.len() as int) == bits@);
        flags
    }

    /// Whether `flag` is set.
    pub fn is_set(&self, flag: State) -> (set: bool)
        requires
            state_bit(flag, self.spec_firmware()) matches Some(bit) ==> bit < 32,
        ensures
            set == self.spec_is_set(flag),
    {
        match flag.to_bit(self.firmware) {
            Some(bit) => test_bit(self.raw, bit),
            None => false,
        }
    }

    /// The names of the flags that are set, lowest bit first.
    pub fn as_names(&self) -> (names: Vec<&'static str>)
        ensures
            names@.len() == self.spec_flags().len(),
            forall|i: int| 0 <= i < names@.len() ==> names@[i]@ == state_name(#[trigger] self.spec_flags()[i]),
    {
        let flags = self.iter();
        let mut names: Vec<&'static str> = Vec::new();
        let mut i: usize = 0;
        while i < flags.len()
            invariant
                i <= flags.len(),
                flags@ == self.spec_flags(),
                names@.len() == i,
                forall|j: int| 0 <= j < i ==> names@[j]@ == state_name(#[trigger] flags@[j]),
            decreases flags.len() - i,
        {
            names.push(flags[i].as_name());
            i += 1;
        }
        names
    }
}

/// A flag is set exactly when it is among the flags that `iter` lists.
pub proof fn lemma_state_set_is_set_iff_listed(set: StateSet, flag: State)
    ensures
        set.spec_is_set(flag) <==> set.spec_flags().contains(flag),
{
    let bits = ones_below(set.spec_raw(), 32);
    let fw = set.spec_firmware();
    lemma_ones_below(set.spec_raw(), 32);
    lemma_states_in_contains(bits, fw, flag);
    lemma_state_bit_round_trip(flag, fw);
    if set.spec_flags().contains(flag) {
        let i = choose|i: int| 0 <= i < bits.len() && #[trigger] state_of_bit(bits[i] as u32, fw) == Some(flag);
        lemma_state_of_bit_round_trip(bits[i] as u32, fw);
    }
    if set.spec_is_set(flag) {
        let bit = state_bit(flag, fw)->0;
        let i = choose|i: int| 0 <= i < bits.len() && bits[i] == bit as usize;
        assert(state_of_bit(bits[i] as u32, fw) == Some(flag));
    }
}

/// The states that Betaflight 4.2 writes, by bit: 0 GpsFixHome
/// (`GPS_FIX_HOME`), 1 GpsFix (`GPS_FIX`); every other bit stands for none.
pub proof fn lemma_state_of_bit_betaflight4_2(fw: InternalFirmware, n: u32)
    requires
        fw == InternalFirmware::Betaflight4_2,
    ensures
        state_of_bit(n, fw) == (if n == 0 {
            Some(State::GpsFixHome)
        } else if n == 1 {
            Some(State::GpsFix)
        } else {
            None::<State>
        }),
        state_of_bit(n, fw) matches Some(m) ==> state_name(m) == (if n == 0 {
            "GPS_FIX_HOME"@
        } else if n == 1 {
            "GPS_FIX"@
        } else {
            ""@
        }),
{
}

/// The states that Betaflight 4.3, Betaflight 4.4 write, by bit: 0 GpsFixHome
/// (`GPS_FIX_HOME`), 1 GpsFix (`GPS_FIX`), 2 GpsFixEver (`GPS_FIX_EVER`); every
/// other bit stands for none.
pub proof fn lemma_state_of_bit_betaflight4_3_betaflight4_4(fw: InternalFirmware, n: u32)
    requires
        fw == InternalFirmware::Betaflight4_3 || fw == InternalFirmware::Betaflight4_4,
    ensures
        state_of_bit(n, fw) == (if n == 0 {
            Some(State::GpsFixHome)
        } else if n == 1 {
            Some(State::GpsFix)
        } else if n == 2 {
            Some(State::GpsFixEver)
        } else {
            None::<State>
        }),
        state_of_bit(n, fw) matches Some(m) ==> state_name(m) == (if n == 0 {
            "GPS_FIX_HOME"@
        } else if n == 1 {
            "GPS_FIX"@
        } else if n == 2 {
            "GPS_FIX_EVER"@
        } else {
            ""@
        }),
{
}

/// Betaflight 4.5 writes no states: every bit stands for none.
pub proof fn lemma_state_of_bit_betaflight4_5(fw: InternalFirmware, n: u32)
    requires
        fw == InternalFirmware::Betaflight4_5,
    ensures
        state_of_bit(n, fw) == ({
            None::<State>
        }),
        state_of_bit(n, fw) matches Some(m) ==> state_name(m) == ({
            ""@
        }),
{
}

/// The states that INAV 5, INAV 6 write, by bit: 0 GpsFixHome (`GPS_FIX_HOME`),
/// 1 GpsFix (`GPS_FIX`), 2 CalibrateMag (`CALIBRATE_MAG`), 3 SmallAngle
/// (`SMALL_ANGLE`), 4 FixedWingLegacy (`FIXED_WING_LEGACY`), 5 AntiWindup
/// (`ANTI_WINDUP`), 6 FlaperonAvailable (`FLAPERON_AVAILABLE`), 7
/// NavMotorStopOrIdle (`NAV_MOTOR_STOP_OR_IDLE`), 8 CompassCalibrated
/// (`COMPASS_CALIBRATED`), 9 AccelerometerCalibrated
/// (`ACCELEROMETER_CALIBRATED`), 11 NavCruiseBraking (`NAV_CRUISE_BRAKING`), 12
/// NavCruiseBrakingBoost (`NAV_CRUISE_BRAKING_BOOST`), 13
/// NavCruiseBrakingLocked (`NAV_CRUISE_BRAKING_LOCKED`), 14
/// NavExtraArmingSafetyBypassed (`NAV_EXTRA_ARMING_SAFETY_BYPASSED`), 15
/// AirMode (`AIRMODE_ACTIVE`), 16 EscSensorEnabled (`ESC_SENSOR_ENABLED`), 17
/// Airplane (`AIRPLANE`), 18 Multirotor (`MULTIROTOR`), 19 Rover (`ROVER`), 20
/// Boat (`BOAT`), 21 AltitudeControl (`ALTITUDE_CONTROL`), 22 MoveForwardOnly
/// (`MOVE_FORWARD_ONLY`), 23 SetReversibleMotorsForward
/// (`SET_REVERSIBLE_MOTORS_FORWARD`), 24 FwHeadingUseYaw
/// (`FW_HEADING_USE_YAW`), 25 AntiWindupDeactivated
/// (`ANTI_WINDUP_DEACTIVATED`), 26 LandingDetected (`LANDING_DETECTED`); every
/// other bit stands for none.
pub proof fn lemma_state_of_bit_inav5_inav6(fw: InternalFirmware, n: u32)
    requires
        fw == InternalFirmware::Inav5 || fw == InternalFirmware::Inav6,
    ensures
        state_of_bit(n, fw) == (if n == 0 {
            Some(State::GpsFixHome)
        } else if n == 1 {
            Some(State::GpsFix)
        } else if n == 2 {
            Some(State::CalibrateMag)
        } else if n == 3 {
            Some(State::SmallAngle)
        } else if n == 4 {
            Some(State::FixedWingLegacy)
        } else if n == 5 {
            Some(State::AntiWindup)
        } else if n == 6 {
            Some(State::FlaperonAvailable)
        } else if n == 7 {
            Some(State::NavMotorStopOrIdle)
        } else if n == 8 {
            Some(State::CompassCalibrated)
        } else if n == 9 {
            Some(State::AccelerometerCalibrated)
        } else if n == 11 {
            Some(State::NavCruiseBraking)
        } else if n == 12 {
            Some(State::NavCruiseBrakingBoost)
        } else if n == 13 {
            Some(State::NavCruiseBrakingLocked)
        } else if n == 14 {
            Some(State::NavExtraArmingSafetyBypassed)
        } else if n == 15 {
            Some(State::AirMode)
        } else if n == 16 {
            Some(State::EscSensorEnabled)
        } else if n == 17 {
            Some(State::Airplane)
        } else if n == 18 {
            Some(State::Multirotor)
        } else if n == 19 {
            Some(State::Rover)
        } else if n == 20 {
            Some(State::Boat)
        } else if n == 21 {
            Some(State::AltitudeControl)
        } else if n == 22 {
            Some(State::MoveForwardOnly)
        } else if n == 23 {
            Some(State::SetReversibleMotorsForward)
        } else if n == 24 {
            Some(State::FwHeadingUseYaw)
        } else if n == 25 {
            Some(State::AntiWindupDeactivated)
        } else if n == 26 {
            Some(State::LandingDetected)
        } else {
            None::<State>
        }),
        state_of_bit(n, fw) matches Some(m) ==> state_name(m) == (if n == 0 {
            "GPS_FIX_HOME"@
        } else if n == 1 {
            "GPS_FIX"@
        } else if n == 2 {
            "CALIBRATE_MAG"@
        } else if n == 3 {
            "SMALL_ANGLE"@
        } else if n == 4 {
            "FIXED_WING_LEGACY"@
        } else if n == 5 {
            "ANTI_WINDUP"@
        } else if n == 6 {
            "FLAPERON_AVAILABLE"@
        } else if n == 7 {
            "NAV_MOTOR_STOP_OR_IDLE"@
        } else if n == 8 {
            "COMPASS_CALIBRATED"@
        } else if n == 9 {
            "ACCELEROMETER_CALIBRATED"@
        } else if n == 11 {
            "NAV_CRUISE_BRAKING"@
        } else if n == 12 {
            "NAV_CRUISE_BRAKING_BOOST"@
        } else if n == 13 {
            "NAV_CRUISE_BRAKING_LOCKED"@
        } else if n == 14 {
            "NAV_EXTRA_ARMING_SAFETY_BYPASSED"@
        } else if n == 15 {
            "AIRMODE_ACTIVE"@
        } else if n == 16 {
            "ESC_SENSOR_ENABLED"@
        } else if n == 17 {
            "AIRPLANE"@
        } else if n == 18 {
            "MULTIROTOR"@
        } else if n == 19 {
            "ROVER"@
        } else if n == 20 {
            "BOAT"@
        } else if n == 21 {
            "ALTITUDE_CONTROL"@
        } else if n == 22 {
            "MOVE_FORWARD_ONLY"@
        } else if n == 23 {
            "SET_REVERSIBLE_MOTORS_FORWARD"@
        } else if n == 24 {
            "FW_HEADING_USE_YAW"@
        } else if n == 25 {
            "ANTI_WINDUP_DEACTIVATED"@
        } else if n == 26 {
            "LANDING_DETECTED"@
        } else {
            ""@
        }),
{
}

/// The states that INAV 7 writes, by bit: 0 GpsFixHome (`GPS_FIX_HOME`), 1
/// GpsFix (`GPS_FIX`), 2 CalibrateMag (`CALIBRATE_MAG`), 3 SmallAngle
/// (`SMALL_ANGLE`), 4 FixedWingLegacy (`FIXED_WING_LEGACY`), 5 AntiWindup
/// (`ANTI_WINDUP`), 6 FlaperonAvailable (`FLAPERON_AVAILABLE`), 7
/// NavMotorStopOrIdle (`NAV_MOTOR_STOP_OR_IDLE`), 8 CompassCalibrated
/// (`COMPASS_CALIBRATED`), 9 AccelerometerCalibrated
/// (`ACCELEROMETER_CALIBRATED`), 11 NavCruiseBraking (`NAV_CRUISE_BRAKING`), 12
/// NavCruiseBrakingBoost (`NAV_CRUISE_BRAKING_BOOST`), 13
/// NavCruiseBrakingLocked (`NAV_CRUISE_BRAKING_LOCKED`), 14
/// NavExtraArmingSafetyBypassed (`NAV_EXTRA_ARMING_SAFETY_BYPASSED`), 15
/// AirMode (`AIRMODE_ACTIVE`), 16 EscSensorEnabled (`ESC_SENSOR_ENABLED`), 17
/// Airplane (`AIRPLANE`), 18 Multirotor (`MULTIROTOR`), 19 Rover (`ROVER`), 20
/// Boat (`BOAT`), 21 AltitudeControl (`ALTITUDE_CONTROL`), 22 MoveForwardOnly
/// (`MOVE_FORWARD_ONLY`), 23 SetReversibleMotorsForward
/// (`SET_REVERSIBLE_MOTORS_FORWARD`), 24 FwHeadingUseYaw
/// (`FW_HEADING_USE_YAW`), 25 AntiWindupDeactivated
/// (`ANTI_WINDUP_DEACTIVATED`), 26 LandingDetected (`LANDING_DETECTED`), 27
/// InFlightEmergencyRearm (`IN_FLIGHT_EMERG_REARM`), 28 Tailsitter
/// (`TAILSITTER`); every other bit stands for none.
pub proof fn lemma_state_of_bit_inav7(fw: InternalFirmware, n: u32)
    requires
        fw == InternalFirmware::Inav7,
    ensures
        state_of_bit(n, fw) == (if n == 0 {
            Some(State::GpsFixHome)
        } else if n == 1 {
            Some(State::GpsFix)
        } else if n == 2 {
            Some(State::CalibrateMag)
        } else if n == 3 {
            Some(State::SmallAngle)
        } else if n == 4 {
            Some(State::FixedWingLegacy)
        } else if n == 5 {
            Some(State::AntiWindup)
        } else if n == 6 {
            Some(State::FlaperonAvailable)
        } else if n == 7 {
            Some(State::NavMotorStopOrIdle)
        } else if n == 8 {
            Some(State::CompassCalibrated)
        } else if n == 9 {
            Some(State::AccelerometerCalibrated)
        } else if n == 11 {
            Some(State::NavCruiseBraking)
        } else if n == 12 {
            Some(State::NavCruiseBrakingBoost)
        } else if n == 13 {
            Some(State::NavCruiseBrakingLocked)
        } else if n == 14 {
            Some(State::NavExtraArmingSafetyBypassed)
        } else if n == 15 {
            Some(State::AirMode)
        } else if n == 16 {
            Some(State::EscSensorEnabled)
        } else if n == 17 {
            Some(State::Airplane)
        } else if n == 18 {
            Some(State::Multirotor)
        } else if n == 19 {
            Some(State::Rover)
        } else if n == 20 {
            Some(State::Boat)
        } else if n == 21 {
            Some(State::AltitudeControl)
        } else if n == 22 {
            Some(State::MoveForwardOnly)
        } else if n == 23 {
            Some(State::SetReversibleMotorsForward)
        } else if n == 24 {
            Some(State::FwHeadingUseYaw)
        } else if n == 25 {
            Some(State::AntiWindupDeactivated)
        } else if n == 26 {
            Some(State::LandingDetected)
        } else if n == 27 {
            Some(State::InFlightEmergencyRearm)
        } else if n == 28 {
            Some(State::Tailsitter)
        } else {
            None::<State>
        }),
        state_of_bit(n, fw) matches Some(m) ==> state_name(m) == (if n == 0 {
            "GPS_FIX_HOME"@
        } else if n == 1 {
            "GPS_FIX"@
        } else if n == 2 {
            "CALIBRATE_MAG"@
        } else if n == 3 {
            "SMALL_ANGLE"@
        } else if n == 4 {
            "FIXED_WING_LEGACY"@
        } else if n == 5 {
            "ANTI_WINDUP"@
        } else if n == 6 {
            "FLAPERON_AVAILABLE"@
        } else if n == 7 {
            "NAV_MOTOR_STOP_OR_IDLE"@
        } else if n == 8 {
            "COMPASS_CALIBRATED"@
        } else if n == 9 {
            "ACCELEROMETER_CALIBRATED"@
        } else if n == 11 {
            "NAV_CRUISE_BRAKING"@
        } else if n == 12 {
            "NAV_CRUISE_BRAKING_BOOST"@
        } else if n == 13 {
            "NAV_CRUISE_BRAKING_LOCKED"@
        } else if n == 14 {
            "NAV_EXTRA_ARMING_SAFETY_BYPASSED"@
        } else if n == 15 {
            "AIRMODE_ACTIVE"@
        } else if n == 16 {
            "ESC_SENSOR_ENABLED"@
        } else if n == 17 {
            "AIRPLANE"@
        } else if n == 18 {
            "MULTIROTOR"@
        } else if n == 19 {
            "ROVER"@
        } else if n == 20 {
            "BOAT"@
        } else if n == 21 {
            "ALTITUDE_CONTROL"@
        } else if n == 22 {
            "MOVE_FORWARD_ONLY"@
        } else if n == 23 {
            "SET_REVERSIBLE_MOTORS_FORWARD"@
        } else if n == 24 {
            "FW_HEADING_USE_YAW"@
        } else if n == 25 {
            "ANTI_WINDUP_DEACTIVATED"@
        } else if n == 26 {
            "LANDING_DETECTED"@
        } else if n == 27 {
            "IN_FLIGHT_EMERG_REARM"@
        } else if n == 28 {
            "TAILSITTER"@
        } else {
            ""@
        }),
{
}

} // verus!
