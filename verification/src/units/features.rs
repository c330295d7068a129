//! All enabled features.

use vstd::prelude::*;

use crate::headers::InternalFirmware;

use super::{bit_set, lemma_ones_below, ones_below, set_bits, test_bit};

verus! {

/// A feature defined by any supported firmware.
#[derive(Debug, Clone, Copy, PartialEq, Eq, Hash, Structural)]
pub enum Feature {
    /// `AIRMODE`
    AirMode,
    /// `ANTI_GRAVITY`
    AntiGravity,
    /// `BAT_PROFILE_AUTOSWITCH`
    BatProfileAutoswitch,
    /// `BLACKBOX`
    Blackbox,
    /// `CHANNEL_FORWARDING`
    ChannelForwarding,
    /// `CURRENT_METER`
    CurrentMeter,
    /// `DASHBOARD`
    Dashboard,
    /// `DYNAMIC_FILTER`
    DynamicFilter,
    /// `ESC_SENSOR`
    EscSensor,
    /// `FW_AUTOTRIM`
    FwAutotrim,
    /// `FW_LAUNCH`
    FwLaunch,
    /// `GPS`
    Gps,
    /// `INFLIGHT_ACC_CAL`
    InflightAccCal,
    /// `LED_STRIP`
    LedStrip,
    /// `MOTOR_STOP`
    MotorStop,
    /// `OSD`
    Osd,
    /// `PWM_OUTPUT_ENABLE`
    PwmOutputEnable,
    /// `RANGEFINDER`
    RangeFinder,
    /// `REVERSIBLE_MOTORS`
    ReversibleMotors,
    /// `RSSI_ADC`
    RssiAdc,
    /// `RX_MSP`
    RxMsp,
    /// `RX_PARALLEL_PWM`
    RxParallelPwm,
    /// `RX_PPM`
    RxPpm,
    /// `RX_SERIAL`
    RxSerial,
    /// `RX_SPI`
    RxSpi,
    /// `SERVO_TILT`
    ServoTilt,
    /// `SOFTSERIAL`
    SoftSerial,
    /// `SUPEREXPO_RATES`
    SuperexpoRates,
    /// `TELEMETRY`
    Telemetry,
    /// `3D`
    ThreeD,
    /// `THR_VBAT_COMP`
    ThrottleVbatCompensation,
    /// `TRANSPONDER`
    Transponder,
    /// `TX_PROF_SEL`
    TxProfileSelection,
    /// `VBAT`
    Vbat,
    /// `VTX`
    Vtx,
}

/// The name that the firmware gives a `Feature`.
pub open spec fn feature_name(value: Feature) -> Seq<char> {
    match value {
        Feature::AirMode => "AIRMODE"@,
        Feature::AntiGravity => "ANTI_GRAVITY"@,
        Feature::BatProfileAutoswitch => "BAT_PROFILE_AUTOSWITCH"@,
        Feature::Blackbox => "BLACKBOX"@,
        Feature::ChannelForwarding => "CHANNEL_FORWARDING"@,
        Feature::CurrentMeter => "CURRENT_METER"@,
        Feature::Dashboard => "DASHBOARD"@,
        Feature::DynamicFilter => "DYNAMIC_FILTER"@,
        Feature::EscSensor => "ESC_SENSOR"@,
        Feature::FwAutotrim => "FW_AUTOTRIM"@,
        Feature::FwLaunch => "FW_LAUNCH"@,
        Feature::Gps => "GPS"@,
        Feature::InflightAccCal => "INFLIGHT_ACC_CAL"@,
        Feature::LedStrip => "LED_STRIP"@,
        Feature::MotorStop => "MOTOR_STOP"@,
        Feature::Osd => "OSD"@,
        Feature::PwmOutputEnable => "PWM_OUTPUT_ENABLE"@,
        Feature::RangeFinder => "RANGEFINDER"@,
        Feature::ReversibleMotors => "REVERSIBLE_MOTORS"@,
        Feature::RssiAdc => "RSSI_ADC"@,
        Feature::RxMsp => "RX_MSP"@,
        Feature::RxParallelPwm => "RX_PARALLEL_PWM"@,
        Feature::RxPpm => "RX_PPM"@,
        Feature::RxSerial => "RX_SERIAL"@,
        Feature::RxSpi => "RX_SPI"@,
        Feature::ServoTilt => "SERVO_TILT"@,
        Feature::SoftSerial => "SOFTSERIAL"@,
        Feature::SuperexpoRates => "SUPEREXPO_RATES"@,
        Feature::Telemetry => "TELEMETRY"@,
        Feature::ThreeD => "3D"@,
        Feature::ThrottleVbatCompensation => "THR_VBAT_COMP"@,
        Feature::Transponder => "TRANSPONDER"@,
        Feature::TxProfileSelection => "TX_PROF_SEL"@,
        Feature::Vbat => "VBAT"@,
        Feature::Vtx => "VTX"@,
    }
}

/// The bit that stands for `value` in the flags written by `fw`, if `fw`
/// has such a flag.
pub open spec fn feature_bit(value: Feature, fw: InternalFirmware) -> Option<u32> {
    match (value, fw) {
        (Feature::RxPpm, InternalFirmware::Betaflight4_2 | InternalFirmware::Betaflight4_3 | InternalFirmware::Betaflight4_4) => Some(0u32),
        (Feature::ThrottleVbatCompensation, InternalFirmware::Inav5) => Some(0u32),
        (Feature::Vbat, InternalFirmware::Inav5) => Some(1u32),
        (Feature::InflightAccCal, InternalFirmware::Betaflight4_2 | InternalFirmware::Betaflight4_3 | InternalFirmware::Betaflight4_4) => Some(2u32),
        (Feature::TxProfileSelection, InternalFirmware::Inav5) => Some(2u32),
        (Feature::RxSerial, InternalFirmware::Betaflight4_2 | InternalFirmware::Betaflight4_3 | InternalFirmware::Betaflight4_4) => Some(3u32),
        (Feature::BatProfileAutoswitch, InternalFirmware::Inav5) => Some(3u32),
        (Feature::MotorStop, InternalFirmware::Betaflight4_2 | InternalFirmware::Betaflight4_3 | InternalFirmware::Betaflight4_4 | InternalFirmware::Inav5) => Some(4u32),
        (Feature::ServoTilt, InternalFirmware::Betaflight4_2 | InternalFirmware::Betaflight4_3 | InternalFirmware::Betaflight4_4) => Some(5u32),
        (Feature::SoftSerial, InternalFirmware::Betaflight4_2 | InternalFirmware::Betaflight4_3 | InternalFirmware::Betaflight4_4 | InternalFirmware::Inav5) => Some(6u32),
        (Feature::Gps, InternalFirmware::Betaflight4_2 | InternalFirmware::Betaflight4_3 | InternalFirmware::Betaflight4_4 | InternalFirmware::Inav5) => Some(7u32),
        (Feature::RangeFinder, InternalFirmware::Betaflight4_2 | InternalFirmware::Betaflight4_3 | InternalFirmware::Betaflight4_4) => Some(9u32),
        (Feature::Telemetry, InternalFirmware::Betaflight4_2 | InternalFirmware::Betaflight4_3 | InternalFirmware::Betaflight4_4 | InternalFirmware::Inav5) => Some(10u32),
        (Feature::CurrentMeter, InternalFirmware::Inav5) => Some(11u32),
        (Feature::ThreeD, InternalFirmware::Betaflight4_2 | InternalFirmware::Betaflight4_3 | InternalFirmware::Betaflight4_4) => Some(12u32),
        (Feature::ReversibleMotors, InternalFirmware::Inav5) => Some(12u32),
        (Feature::RxParallelPwm, InternalFirmware::Betaflight4_2 | InternalFirmware::Betaflight4_3 | InternalFirmware::Betaflight4_4) => Some(13u32),
        (Feature::RxMsp, InternalFirmware::Betaflight4_2 | InternalFirmware::Betaflight4_3 | InternalFirmware::Betaflight4_4) => Some(14u32),
        (Feature::RssiAdc, InternalFirmware::Betaflight4_2 | InternalFirmware::Betaflight4_3 | InternalFirmware::Betaflight4_4 | InternalFirmware::Inav5) => Some(15u32),
        (Feature::LedStrip, InternalFirmware::Betaflight4_2 | InternalFirmware::Betaflight4_3 | InternalFirmware::Betaflight4_4 | InternalFirmware::Inav5) => Some(16u32),
        (Feature::Dashboard, InternalFirmware::Betaflight4_2 | InternalFirmware::Betaflight4_3 | InternalFirmware::Betaflight4_4 | InternalFirmware::Inav5) => Some(17u32),
        (Feature::Osd, InternalFirmware::Betaflight4_2 | InternalFirmware::Betaflight4_3 | InternalFirmware::Betaflight4_4) => Some(18u32),
        (Feature::Blackbox, InternalFirmware::Inav5) => Some(19u32),
        (Feature::ChannelForwarding, InternalFirmware::Betaflight4_2 | InternalFirmware::Betaflight4_3 | InternalFirmware::Betaflight4_4) => Some(20u32),
        (Feature::Transponder, InternalFirmware::Betaflight4_2 | InternalFirmware::Betaflight4_3 | InternalFirmware::Betaflight4_4 | InternalFirmware::Inav5) => Some(21u32),
        (Feature::AirMode, InternalFirmware::Betaflight4_2 | InternalFirmware::Betaflight4_3 | InternalFirmware::Betaflight4_4 | InternalFirmware::Inav5) => Some(22u32),
        (Feature::SuperexpoRates, InternalFirmware::Inav5) => Some(23u32),
        (Feature::Vtx, InternalFirmware::Inav5) => Some(24u32),
        (Feature::RxSpi, InternalFirmware::Betaflight4_2 | InternalFirmware::Betaflight4_3 | InternalFirmware::Betaflight4_4) => Some(25u32),
        (Feature::EscSensor, InternalFirmware::Betaflight4_2 | InternalFirmware::Betaflight4_3 | InternalFirmware::Betaflight4_4) => Some(27u32),
        (Feature::AntiGravity, InternalFirmware::Betaflight4_2 | InternalFirmware::Betaflight4_3 | InternalFirmware::Betaflight4_4) => Some(28u32),
        (Feature::PwmOutputEnable, InternalFirmware::Inav5) => Some(28u32),
        (Feature::DynamicFilter, InternalFirmware::Betaflight4_2) => Some(29u32),
        (Feature::Osd, InternalFirmware::Inav5) => Some(29u32),
        (Feature::FwLaunch, InternalFirmware::Inav5) => Some(30u32),
        (Feature::FwAutotrim, InternalFirmware::Inav5) => Some(31u32),
        _ => None,
    }
}

/// The flag that bit `bit` stands for in the flags written by `fw`, if any.
pub open spec fn feature_of_bit(bit: u32, fw: InternalFirmware) -> Option<Feature> {
    match (bit, fw) {
        (0u32, InternalFirmware::Betaflight4_2 | InternalFirmware::Betaflight4_3 | InternalFirmware::Betaflight4_4) => Some(Feature::RxPpm),
        (0u32, InternalFirmware::Inav5) => Some(Feature::ThrottleVbatCompensation),
        (1u32, InternalFirmware::Inav5) => Some(Feature::Vbat),
        (2u32, InternalFirmware::Betaflight4_2 | InternalFirmware::Betaflight4_3 | InternalFirmware::Betaflight4_4) => Some(Feature::InflightAccCal),
        (2u32, InternalFirmware::Inav5) => Some(Feature::TxProfileSelection),
        (3u32, InternalFirmware::Betaflight4_2 | InternalFirmware::Betaflight4_3 | InternalFirmware::Betaflight4_4) => Some(Feature::RxSerial),
        (3u32, InternalFirmware::Inav5) => Some(Feature::BatProfileAutoswitch),
        (4u32, InternalFirmware::Betaflight4_2 | InternalFirmware::Betaflight4_3 | InternalFirmware::Betaflight4_4 | InternalFirmware::Inav5) => Some(Feature::MotorStop),
        (5u32, InternalFirmware::Betaflight4_2 | InternalFirmware::Betaflight4_3 | InternalFirmware::Betaflight4_4) => Some(Feature::ServoTilt),
        (6u32, InternalFirmware::Betaflight4_2 | InternalFirmware::Betaflight4_3 | InternalFirmware::Betaflight4_4 | InternalFirmware::Inav5) => Some(Feature::SoftSerial),
        (7u32, InternalFirmware::Betaflight4_2 | InternalFirmware::Betaflight4_3 | InternalFirmware::Betaflight4_4 | InternalFirmware::Inav5) => Some(Feature::Gps),
        (9u32, InternalFirmware::Betaflight4_2 | InternalFirmware::Betaflight4_3 | InternalFirmware::Betaflight4_4) => Some(Feature::RangeFinder),
        (10u32, InternalFirmware::Betaflight4_2 | InternalFirmware::Betaflight4_3 | InternalFirmware::Betaflight4_4 | InternalFirmware::Inav5) => Some(Feature::Telemetry),
        (11u32, InternalFirmware::Inav5) => Some(Feature::CurrentMeter),
        (12u32, InternalFirmware::Betaflight4_2 | InternalFirmware::Betaflight4_3 | InternalFirmware::Betaflight4_4) => Some(Feature::ThreeD),
        (12u32, InternalFirmware::Inav5) => Some(Feature::ReversibleMotors),
        (13u32, InternalFirmware::Betaflight4_2 | InternalFirmware::Betaflight4_3 | InternalFirmware::Betaflight4_4) => Some(Feature::RxParallelPwm),
        (14u32, InternalFirmware::Betaflight4_2 | InternalFirmware::Betaflight4_3 | InternalFirmware::Betaflight4_4) => Some(Feature::RxMsp),
        (15u32, InternalFirmware::Betaflight4_2 | InternalFirmware::Betaflight4_3 | InternalFirmware::Betaflight4_4 | InternalFirmware::Inav5) => Some(Feature::RssiAdc),
        (16u32, InternalFirmware::Betaflight4_2 | InternalFirmware::Betaflight4_3 | InternalFirmware::Betaflight4_4 | InternalFirmware::Inav5) => Some(Feature::LedStrip),
        (17u32, InternalFirmware::Betaflight4_2 | InternalFirmware::Betaflight4_3 | InternalFirmware::Betaflight4_4 | InternalFirmware::Inav5) => Some(Feature::Dashboard),
        (18u32, InternalFirmware::Betaflight4_2 | InternalFirmware::Betaflight4_3 | InternalFirmware::Betaflight4_4) => Some(Feature::Osd),
        (19u32, InternalFirmware::Inav5) => Some(Feature::Blackbox),
        (20u32, InternalFirmware::Betaflight4_2 | InternalFirmware::Betaflight4_3 | InternalFirmware::Betaflight4_4) => Some(Feature::ChannelForwarding),
        (21u32, InternalFirmware::Betaflight4_2 | InternalFirmware::Betaflight4_3 | InternalFirmware::Betaflight4_4 | InternalFirmware::Inav5) => Some(Feature::Transponder),
        (22u32, InternalFirmware::Betaflight4_2 | InternalFirmware::Betaflight4_3 | InternalFirmware::Betaflight4_4 | InternalFirmware::Inav5) => Some(Feature::AirMode),
        (23u32, InternalFirmware::Inav5) => Some(Feature::SuperexpoRates),
        (24u32, InternalFirmware::Inav5) => Some(Feature::Vtx),
        (25u32, InternalFirmware::Betaflight4_2 | InternalFirmware::Betaflight4_3 | InternalFirmware::Betaflight4_4) => Some(Feature::RxSpi),
        (27u32, InternalFirmware::Betaflight4_2 | InternalFirmware::Betaflight4_3 | InternalFirmware::Betaflight4_4) => Some(Feature::EscSensor),
        (28u32, InternalFirmware::Betaflight4_2 | InternalFirmware::Betaflight4_3 | InternalFirmware::Betaflight4_4) => Some(Feature::AntiGravity),
        (28u32, InternalFirmware::Inav5) => Some(Feature::PwmOutputEnable),
        (29u32, InternalFirmware::Betaflight4_2) => Some(Feature::DynamicFilter),
        (29u32, InternalFirmware::Inav5) => Some(Feature::Osd),
        (30u32, InternalFirmware::Inav5) => Some(Feature::FwLaunch),
        (31u32, InternalFirmware::Inav5) => Some(Feature::FwAutotrim),
        _ => None,
    }
}

impl Feature {
    /// The name that the firmware gives this value.
    pub fn as_name(&self) -> (name: &'static str)
        ensures
            name@ == feature_name(*self),
    {
        match self {
            Feature::AirMode => "AIRMODE",
            Feature::AntiGravity => "ANTI_GRAVITY",
            Feature::BatProfileAutoswitch => "BAT_PROFILE_AUTOSWITCH",
            Feature::Blackbox => "BLACKBOX",
            Feature::ChannelForwarding => "CHANNEL_FORWARDING",
            Feature::CurrentMeter => "CURRENT_METER",
            Feature::Dashboard => "DASHBOARD",
            Feature::DynamicFilter => "DYNAMIC_FILTER",
            Feature::EscSensor => "ESC_SENSOR",
            Feature::FwAutotrim => "FW_AUTOTRIM",
            Feature::FwLaunch => "FW_LAUNCH",
            Feature::Gps => "GPS",
            Feature::InflightAccCal => "INFLIGHT_ACC_CAL",
            Feature::LedStrip => "LED_STRIP",
            Feature::MotorStop => "MOTOR_STOP",
            Feature::Osd => "OSD",
            Feature::PwmOutputEnable => "PWM_OUTPUT_ENABLE",
            Feature::RangeFinder => "RANGEFINDER",
            Feature::ReversibleMotors => "REVERSIBLE_MOTORS",
            Feature::RssiAdc => "RSSI_ADC",
            Feature::RxMsp => "RX_MSP",
            Feature::RxParallelPwm => "RX_PARALLEL_PWM",
            Feature::RxPpm => "RX_PPM",
            Feature::RxSerial => "RX_SERIAL",
            Feature::RxSpi => "RX_SPI",
            Feature::ServoTilt => "SERVO_TILT",
            Feature::SoftSerial => "SOFTSERIAL",
            Feature::SuperexpoRates => "SUPEREXPO_RATES",
            Feature::Telemetry => "TELEMETRY",
            Feature::ThreeD => "3D",
            Feature::ThrottleVbatCompensation => "THR_VBAT_COMP",
            Feature::Transponder => "TRANSPONDER",
            Feature::TxProfileSelection => "TX_PROF_SEL",
            Feature::Vbat => "VBAT",
            Feature::Vtx => "VTX",
        }
    }

    /// The flag that bit `bit` stands for in the flags written by `fw`.
    pub fn from_bit(bit: u32, fw: InternalFirmware) -> (value: Option<Self>)
        ensures
            value == feature_of_bit(bit, fw),
    {
        match (bit, fw) {
            (0u32, InternalFirmware::Betaflight4_2 | InternalFirmware::Betaflight4_3 | InternalFirmware::Betaflight4_4) => Some(Feature::RxPpm),
            (0u32, InternalFirmware::Inav5) => Some(Feature::ThrottleVbatCompensation),
            (1u32, InternalFirmware::Inav5) => Some(Feature::Vbat),
            (2u32, InternalFirmware::Betaflight4_2 | InternalFirmware::Betaflight4_3 | InternalFirmware::Betaflight4_4) => Some(Feature::InflightAccCal),
            (2u32, InternalFirmware::Inav5) => Some(Feature::TxProfileSelection),
            (3u32, InternalFirmware::Betaflight4_2 | InternalFirmware::Betaflight4_3 | InternalFirmware::Betaflight4_4) => Some(Feature::RxSerial),
            (3u32, InternalFirmware::Inav5) => Some(Feature::BatProfileAutoswitch),
            (4u32, InternalFirmware::Betaflight4_2 | InternalFirmware::Betaflight4_3 | InternalFirmware::Betaflight4_4 | InternalFirmware::Inav5) => Some(Feature::MotorStop),
            (5u32, InternalFirmware::Betaflight4_2 | InternalFirmware::Betaflight4_3 | InternalFirmware::Betaflight4_4) => Some(Feature::ServoTilt),
            (6u32, InternalFirmware::Betaflight4_2 | InternalFirmware::Betaflight4_3 | InternalFirmware::Betaflight4_4 | InternalFirmware::Inav5) => Some(Feature::SoftSerial),
            (7u32, InternalFirmware::Betaflight4_2 | InternalFirmware::Betaflight4_3 | InternalFirmware::Betaflight4_4 | InternalFirmware::Inav5) => Some(Feature::Gps),
            (9u32, InternalFirmware::Betaflight4_2 | InternalFirmware::Betaflight4_3 | InternalFirmware::Betaflight4_4) => Some(Feature::RangeFinder),
            (10u32, InternalFirmware::Betaflight4_2 | InternalFirmware::Betaflight4_3 | InternalFirmware::Betaflight4_4 | InternalFirmware::Inav5) => Some(Feature::Telemetry),
            (11u32, InternalFirmware::Inav5) => Some(Feature::CurrentMeter),
            (12u32, InternalFirmware::Betaflight4_2 | InternalFirmware::Betaflight4_3 | InternalFirmware::Betaflight4_4) => Some(Feature::ThreeD),
            (12u32, InternalFirmware::Inav5) => Some(Feature::ReversibleMotors),
            (13u32, InternalFirmware::Betaflight4_2 | InternalFirmware::Betaflight4_3 | InternalFirmware::Betaflight4_4) => Some(Feature::RxParallelPwm),
            (14u32, InternalFirmware::Betaflight4_2 | InternalFirmware::Betaflight4_3 | InternalFirmware::Betaflight4_4) => Some(Feature::RxMsp),
            (15u32, InternalFirmware::Betaflight4_2 | InternalFirmware::Betaflight4_3 | InternalFirmware::Betaflight4_4 | InternalFirmware::Inav5) => Some(Feature::RssiAdc),
            (16u32, InternalFirmware::Betaflight4_2 | InternalFirmware::Betaflight4_3 | InternalFirmware::Betaflight4_4 | InternalFirmware::Inav5) => Some(Feature::LedStrip),
            (17u32, InternalFirmware::Betaflight4_2 | InternalFirmware::Betaflight4_3 | InternalFirmware::Betaflight4_4 | InternalFirmware::Inav5) => Some(Feature::Dashboard),
            (18u32, InternalFirmware::Betaflight4_2 | InternalFirmware::Betaflight4_3 | InternalFirmware::Betaflight4_4) => Some(Feature::Osd),
            (19u32, InternalFirmware::Inav5) => Some(Feature::Blackbox),
            (20u32, InternalFirmware::Betaflight4_2 | InternalFirmware::Betaflight4_3 | InternalFirmware::Betaflight4_4) => Some(Feature::ChannelForwarding),
            (21u32, InternalFirmware::Betaflight4_2 | InternalFirmware::Betaflight4_3 | InternalFirmware::Betaflight4_4 | InternalFirmware::Inav5) => Some(Feature::Transponder),
            (22u32, InternalFirmware::Betaflight4_2 | InternalFirmware::Betaflight4_3 | InternalFirmware::Betaflight4_4 | InternalFirmware::Inav5) => Some(Feature::AirMode),
            (23u32, InternalFirmware::Inav5) => Some(Feature::SuperexpoRates),
            (24u32, InternalFirmware::Inav5) => Some(Feature::Vtx),
            (25u32, InternalFirmware::Betaflight4_2 | InternalFirmware::Betaflight4_3 | InternalFirmware::Betaflight4_4) => Some(Feature::RxSpi),
            (27u32, InternalFirmware::Betaflight4_2 | InternalFirmware::Betaflight4_3 | InternalFirmware::Betaflight4_4) => Some(Feature::EscSensor),
            (28u32, InternalFirmware::Betaflight4_2 | InternalFirmware::Betaflight4_3 | InternalFirmware::Betaflight4_4) => Some(Feature::AntiGravity),
            (28u32, InternalFirmware::Inav5) => Some(Feature::PwmOutputEnable),
            (29u32, InternalFirmware::Betaflight4_2) => Some(Feature::DynamicFilter),
            (29u32, InternalFirmware::Inav5) => Some(Feature::Osd),
            (30u32, InternalFirmware::Inav5) => Some(Feature::FwLaunch),
            (31u32, InternalFirmware::Inav5) => Some(Feature::FwAutotrim),
            _ => None,
        }
    }

    /// The bit that stands for this flag in the flags written by `fw`.
    pub fn to_bit(self, fw: InternalFirmware) -> (bit: Option<u32>)
        ensures
            bit == feature_bit(self, fw),
    {
        match (self, fw) {
            (Feature::RxPpm, InternalFirmware::Betaflight4_2 | InternalFirmware::Betaflight4_3 | InternalFirmware::Betaflight4_4) => Some(0u32),
            (Feature::ThrottleVbatCompensation, InternalFirmware::Inav5) => Some(0u32),
            (Feature::Vbat, InternalFirmware::Inav5) => Some(1u32),
            (Feature::InflightAccCal, InternalFirmware::Betaflight4_2 | InternalFirmware::Betaflight4_3 | InternalFirmware::Betaflight4_4) => Some(2u32),
            (Feature::TxProfileSelection, InternalFirmware::Inav5) => Some(2u32),
            (Feature::RxSerial, InternalFirmware::Betaflight4_2 | InternalFirmware::Betaflight4_3 | InternalFirmware::Betaflight4_4) => Some(3u32),
            (Feature::BatProfileAutoswitch, InternalFirmware::Inav5) => Some(3u32),
            (Feature::MotorStop, InternalFirmware::Betaflight4_2 | InternalFirmware::Betaflight4_3 | InternalFirmware::Betaflight4_4 | InternalFirmware::Inav5) => Some(4u32),
            (Feature::ServoTilt, InternalFirmware::Betaflight4_2 | InternalFirmware::Betaflight4_3 | InternalFirmware::Betaflight4_4) => Some(5u32),
            (Feature::SoftSerial, InternalFirmware::Betaflight4_2 | InternalFirmware::Betaflight4_3 | InternalFirmware::Betaflight4_4 | InternalFirmware::Inav5) => Some(6u32),
            (Feature::Gps, InternalFirmware::Betaflight4_2 | InternalFirmware::Betaflight4_3 | InternalFirmware::Betaflight4_4 | InternalFirmware::Inav5) => Some(7u32),
            (Feature::RangeFinder, InternalFirmware::Betaflight4_2 | InternalFirmware::Betaflight4_3 | InternalFirmware::Betaflight4_4) => Some(9u32),
            (Feature::Telemetry, InternalFirmware::Betaflight4_2 | InternalFirmware::Betaflight4_3 | InternalFirmware::Betaflight4_4 | InternalFirmware::Inav5) => Some(10u32),
            (Feature::CurrentMeter, InternalFirmware::Inav5) => Some(11u32),
            (Feature::ThreeD, InternalFirmware::Betaflight4_2 | InternalFirmware::Betaflight4_3 | InternalFirmware::Betaflight4_4) => Some(12u32),
            (Feature::ReversibleMotors, InternalFirmware::Inav5) => Some(12u32),
            (Feature::RxParallelPwm, InternalFirmware::Betaflight4_2 | InternalFirmware::Betaflight4_3 | InternalFirmware::Betaflight4_4) => Some(13u32),
            (Feature::RxMsp, InternalFirmware::Betaflight4_2 | InternalFirmware::Betaflight4_3 | InternalFirmware::Betaflight4_4) => Some(14u32),
            (Feature::RssiAdc, InternalFirmware::Betaflight4_2 | InternalFirmware::Betaflight4_3 | InternalFirmware::Betaflight4_4 | InternalFirmware::Inav5) => Some(15u32),
            (Feature::LedStrip, InternalFirmware::Betaflight4_2 | InternalFirmware::Betaflight4_3 | InternalFirmware::Betaflight4_4 | InternalFirmware::Inav5) => Some(16u32),
            (Feature::Dashboard, InternalFirmware::Betaflight4_2 | InternalFirmware::Betaflight4_3 | InternalFirmware::Betaflight4_4 | InternalFirmware::Inav5) => Some(17u32),
            (Feature::Osd, InternalFirmware::Betaflight4_2 | InternalFirmware::Betaflight4_3 | InternalFirmware::Betaflight4_4) => Some(18u32),
            (Feature::Blackbox, InternalFirmware::Inav5) => Some(19u32),
            (Feature::ChannelForwarding, InternalFirmware::Betaflight4_2 | InternalFirmware::Betaflight4_3 | InternalFirmware::Betaflight4_4) => Some(20u32),
            (Feature::Transponder, InternalFirmware::Betaflight4_2 | InternalFirmware::Betaflight4_3 | InternalFirmware::Betaflight4_4 | InternalFirmware::Inav5) => Some(21u32),
            (Feature::AirMode, InternalFirmware::Betaflight4_2 | InternalFirmware::Betaflight4_3 | InternalFirmware::Betaflight4_4 | InternalFirmware::Inav5) => Some(22u32),
            (Feature::SuperexpoRates, InternalFirmware::Inav5) => Some(23u32),
            (Feature::Vtx, InternalFirmware::Inav5) => Some(24u32),
            (Feature::RxSpi, InternalFirmware::Betaflight4_2 | InternalFirmware::Betaflight4_3 | InternalFirmware::Betaflight4_4) => Some(25u32),
            (Feature::EscSensor, InternalFirmware::Betaflight4_2 | InternalFirmware::Betaflight4_3 | InternalFirmware::Betaflight4_4) => Some(27u32),
            (Feature::AntiGravity, InternalFirmware::Betaflight4_2 | InternalFirmware::Betaflight4_3 | InternalFirmware::Betaflight4_4) => Some(28u32),
            (Feature::PwmOutputEnable, InternalFirmware::Inav5) => Some(28u32),
            (Feature::DynamicFilter, InternalFirmware::Betaflight4_2) => Some(29u32),
            (Feature::Osd, InternalFirmware::Inav5) => Some(29u32),
            (Feature::FwLaunch, InternalFirmware::Inav5) => Some(30u32),
            (Feature::FwAutotrim, InternalFirmware::Inav5) => Some(31u32),
            _ => None,
        }
    }
}

/// Reading back the bit of a flag gives that flag.
pub proof fn lemma_feature_bit_round_trip(value: Feature, fw: InternalFirmware)
    ensures
        feature_bit(value, fw) matches Some(bit) ==> feature_of_bit(bit, fw) == Some(value),
{
}

/// The flag read from a bit has that bit.
pub proof fn lemma_feature_of_bit_round_trip(bit: u32, fw: InternalFirmware)
    ensures
        feature_of_bit(bit, fw) matches Some(value) ==> feature_bit(value, fw) == Some(bit),
{
}

/// The flags that the bits in `bits` stand for, in the same order; bits
/// that stand for no flag of `fw` are left out.
pub open spec fn features_in(bits: Seq<usize>, fw: InternalFirmware) -> Seq<Feature>
    decreases bits.len(),
{
    if bits.len() == 0 {
        seq![]
    } else {
        let rest = features_in(bits.drop_last(), fw);
        match feature_of_bit(bits.last() as u32, fw) {
            Some(value) => rest.push(value),
            None => rest,
        }
    }
}

/// A flag is among those of `bits` exactly when one of the bits stands for it.
pub proof fn lemma_features_in_contains(bits: Seq<usize>, fw: InternalFirmware, value: Feature)
    requires
        forall|i: int| 0 <= i < bits.len() ==> bits[i] < 32,
    ensures
        features_in(bits, fw).contains(value) <==> (exists|i: int|
            0 <= i < bits.len() && #[trigger] feature_of_bit(bits[i] as u32, fw) == Some(value)),
    decreases bits.len(),
{
    if bits.len() > 0 {
        let init = bits.drop_last();
        lemma_features_in_contains(init, fw, value);
        let rest = features_in(init, fw);
        if features_in(bits, fw).contains(value) {
            if !rest.contains(value) {
                assert(feature_of_bit(bits[bits.len() - 1] as u32, fw) == Some(value)) by {
                    let k = choose|k: int| 0 <= k < features_in(bits, fw).len() && features_in(bits, fw)[k] == value;
                    if k < rest.len() {
                        assert(rest[k] == value);
                    }
                }
            } else {
                let i = choose|i: int| 0 <= i < init.len() && #[trigger] feature_of_bit(init[i] as u32, fw) == Some(value);
                assert(bits[i] == init[i]);
            }
        }
        if exists|i: int| 0 <= i < bits.len() && #[trigger] feature_of_bit(bits[i] as u32, fw) == Some(value) {
            let i = choose|i: int| 0 <= i < bits.len() && #[trigger] feature_of_bit(bits[i] as u32, fw) == Some(value);
            if i < init.len() {
                assert(init[i] == bits[i]);
                let k = choose|k: int| 0 <= k < rest.len() && rest[k] == value;
                assert(features_in(bits, fw)[k] == value);
            } else {
                assert(features_in(bits, fw).last() == value);
            }
        }
    }
}

/// All enabled features.
#[derive(Debug, Clone, Copy, PartialEq, Eq, Hash, Structural)]
pub struct FeatureSet {
    firmware: InternalFirmware,
    raw: u32,
}

impl FeatureSet {
    /// The raw flags.
    pub closed spec fn spec_raw(&self) -> u32 {
        self.raw
    }

    /// The firmware that wrote the flags.
    pub closed spec fn spec_firmware(&self) -> InternalFirmware {
        self.firmware
    }

    /// The flags that are set, lowest bit first.
    pub open spec fn spec_flags(&self) -> Seq<Feature> {
        features_in(ones_below(self.spec_raw(), 32), self.spec_firmware())
    }

    /// Whether `flag` is set.
    pub open spec fn spec_is_set(&self, flag: Feature) -> bool {
        match feature_bit(flag, self.spec_firmware()) {
            Some(bit) => bit_set(self.spec_raw(), bit),
            None => false,
        }
    }

    /// The flags `raw` as written by `firmware`.
    pub fn new(raw: u32, firmware: InternalFirmware) -> (set: Self)
        ensures
            set.spec_raw() == raw,
            set.spec_firmware() == firmware,
    {
        Self { firmware, raw }
    }

    /// The flags that are set, lowest bit first. Bits that stand for no
    /// flag of the firmware are left out.
    pub fn iter(&self) -> (flags: Vec<Feature>)
        ensures
            flags@ == self.spec_flags(),
    {
        let bits = set_bits(self.raw);
        proof {
            lemma_ones_below(self.raw, 32);
        }
        let mut flags: Vec<Feature> = Vec::new();
        let mut i: usize = 0;
        while i < bits.len()
            invariant
                i <= bits.len(),
                bits@ == ones_below(self.raw, 32),
                forall|j: int| 0 <= j < bits.len() ==> bits[j] < 32,
                flags@ == features_in(bits@.take(i as int), self.firmware),
            decreases bits.len() - i,
        {
            let bit = bits[i];
            assert(bits@.take(i as int + 1).drop_last() == bits@.take(i as int));
            if let Some(flag) = Feature::from_bit(bit as u32, self.firmware) {
                flags.push(flag);
            }
            i += 1;
        }
        assert(bits@.take(bits.len() as int) == bits@);
        flags
    }

    /// Whether `flag` is set.
    pub fn is_set(&self, flag: Feature) -> (set: bool)
        requires
            feature_bit(flag, self.spec_firmware()) matches Some(bit) ==> bit < 32,
        ensures
            set == self.spec_is_set(flag),
    {
        match flag.to_bit(self.firmware) {
            Some(bit) => test_bit(self.raw, bit),
            None => false,
        }
    }

    /// The names of the flags that are set, lowest bit first.
    pub fn as_names(&self) -> (names: Vec<&'static str>)
        ensures
            names@.len() == self.spec_flags().len(),
            forall|i: int| 0 <= i < names@.len() ==> names@[i]@ == feature_name(#[trigger] self.spec_flags()[i]),
    {
        let flags = self.iter();
        let mut names: Vec<&'static str> = Vec::new();
        let mut i: usize = 0;
        while i < flags.len()
            invariant
                i <= flags.len(),
                flags@ == self.spec_flags(),
                names@.len() == i,
                forall|j: int| 0 <= j < i ==> names@[j]@ == feature_name(#[trigger] flags@[j]),
            decreases flags.len() - i,
        {
            names.push(flags[i].as_name());
            i += 1;
        }
        names
    }
}

/// A flag is set exactly when it is among the flags that `iter` lists.
pub proof fn lemma_feature_set_is_set_iff_listed(set: FeatureSet, flag: Feature)
    ensures
        set.spec_is_set(flag) <==> set.spec_flags().contains(flag),
{
    let bits = ones_below(set.spec_raw(), 32);
    let fw = set.spec_firmware();
    lemma_ones_below(set.spec_raw(), 32);
    lemma_features_in_contains(bits, fw, flag);
    lemma_feature_bit_round_trip(flag, fw);
    if set.spec_flags().contains(flag) {
        let i = choose|i: int| 0 <= i < bits.len() && #[trigger] feature_of_bit(bits[i] as u32, fw) == Some(flag);
        lemma_feature_of_bit_round_trip(bits[i] as u32, fw);
    }
    if set.spec_is_set(flag) {
        let bit = feature_bit(flag, fw)->0;
        let i = choose|i: int| 0 <= i < bits.len() && bits[i] == bit as usize;
        assert(feature_of_bit(bits[i] as u32, fw) == Some(flag));
    }
}

/// The features that Betaflight 4.2 writes, by bit: 0 RxPpm (`RX_PPM`), 2
/// InflightAccCal (`INFLIGHT_ACC_CAL`), 3 RxSerial (`RX_SERIAL`), 4 MotorStop
/// (`MOTOR_STOP`), 5 ServoTilt (`SERVO_TILT`), 6 SoftSerial (`SOFTSERIAL`), 7
/// Gps (`GPS`), 9 RangeFinder (`RANGEFINDER`), 10 Telemetry (`TELEMETRY`), 12
/// ThreeD (`3D`), 13 RxParallelPwm (`RX_PARALLEL_PWM`), 14 RxMsp (`RX_MSP`), 15
/// RssiAdc (`RSSI_ADC`), 16 LedStrip (`LED_STRIP`), 17 Dashboard (`DASHBOARD`),
/// 18 Osd (`OSD`), 20 ChannelForwarding (`CHANNEL_FORWARDING`), 21 Transponder
/// (`TRANSPONDER`), 22 AirMode (`AIRMODE`), 25 RxSpi (`RX_SPI`), 27 EscSensor
/// (`ESC_SENSOR`), 28 AntiGravity (`ANTI_GRAVITY`), 29 DynamicFilter
/// (`DYNAMIC_FILTER`); every other bit stands for none.
pub proof fn lemma_feature_of_bit_betaflight4_2(fw: InternalFirmware, n: u32)
    requires
        fw == InternalFirmware::Betaflight4_2,
    ensures
        feature_of_bit(n, fw) == (if n == 0 {
            Some(Feature::RxPpm)
        } else if n == 2 {
            Some(Feature::InflightAccCal)
        } else if n == 3 {
            Some(Feature::RxSerial)
        } else if n == 4 {
            Some(Feature::MotorStop)
        } else if n == 5 {
            Some(Feature::ServoTilt)
        } else if n == 6 {
            Some(Feature::SoftSerial)
        } else if n == 7 {
            Some(Feature::Gps)
        } else if n == 9 {
            Some(Feature::RangeFinder)
        } else if n == 10 {
            Some(Feature::Telemetry)
        } else if n == 12 {
            Some(Feature::ThreeD)
        } else if n == 13 {
            Some(Feature::RxParallelPwm)
        } else if n == 14 {
            Some(Feature::RxMsp)
        } else if n == 15 {
            Some(Feature::RssiAdc)
        } else if n == 16 {
            Some(Feature::LedStrip)
        } else if n == 17 {
            Some(Feature::Dashboard)
        } else if n == 18 {
            Some(Feature::Osd)
        } else if n == 20 {
            Some(Feature::ChannelForwarding)
        } else if n == 21 {
            Some(Feature::Transponder)
        } else if n == 22 {
            Some(Feature::AirMode)
        } else if n == 25 {
            Some(Feature::RxSpi)
        } else if n == 27 {
            Some(Feature::EscSensor)
        } else if n == 28 {
            Some(Feature::AntiGravity)
        } else if n == 29 {
            Some(Feature::DynamicFilter)
        } else {
            None::<Feature>
        }),
        feature_of_bit(n, fw) matches Some(m) ==> feature_name(m) == (if n == 0 {
            "RX_PPM"@
        } else if n == 2 {
            "INFLIGHT_ACC_CAL"@
        } else if n == 3 {
            "RX_SERIAL"@
        } else if n == 4 {
            "MOTOR_STOP"@
        } else if n == 5 {
            "SERVO_TILT"@
        } else if n == 6 {
            "SOFTSERIAL"@
        } else if n == 7 {
            "GPS"@
        } else if n == 9 {
            "RANGEFINDER"@
        } else if n == 10 {
            "TELEMETRY"@
        } else if n == 12 {
            "3D"@
        } else if n == 13 {
            "RX_PARALLEL_PWM"@
        } else if n == 14 {
            "RX_MSP"@
        } else if n == 15 {
            "RSSI_ADC"@
        } else if n == 16 {
            "LED_STRIP"@
        } else if n == 17 {
            "DASHBOARD"@
        } else if n == 18 {
            "OSD"@
        } else if n == 20 {
            "CHANNEL_FORWARDING"@
        } else if n == 21 {
            "TRANSPONDER"@
        } else if n == 22 {
            "AIRMODE"@
        } else if n == 25 {
            "RX_SPI"@
        } else if n == 27 {
            "ESC_SENSOR"@
        } else if n == 28 {
            "ANTI_GRAVITY"@
        } else if n == 29 {
            "DYNAMIC_FILTER"@
        } else {
            ""@
        }),
{
}

/// The features that Betaflight 4.3, Betaflight 4.4 write, by bit: 0 RxPpm
/// (`RX_PPM`), 2 InflightAccCal (`INFLIGHT_ACC_CAL`), 3 RxSerial (`RX_SERIAL`),
/// 4 MotorStop (`MOTOR_STOP`), 5 ServoTilt (`SERVO_TILT`), 6 SoftSerial
/// (`SOFTSERIAL`), 7 Gps (`GPS`), 9 RangeFinder (`RANGEFINDER`), 10 Telemetry
/// (`TELEMETRY`), 12 ThreeD (`3D`), 13 RxParallelPwm (`RX_PARALLEL_PWM`), 14
/// RxMsp (`RX_MSP`), 15 RssiAdc (`RSSI_ADC`), 16 LedStrip (`LED_STRIP`), 17
/// Dashboard (`DASHBOARD`), 18 Osd (`OSD`), 20 ChannelForwarding
/// (`CHANNEL_FORWARDING`), 21 Transponder (`TRANSPONDER`), 22 AirMode
/// (`AIRMODE`), 25 RxSpi (`RX_SPI`), 27 EscSensor (`ESC_SENSOR`), 28
/// AntiGravity (`ANTI_GRAVITY`); every other bit stands for none.
pub proof fn lemma_feature_of_bit_betaflight4_3_betaflight4_4(fw: InternalFirmware, n: u32)
    requires
        fw == InternalFirmware::Betaflight4_3 || fw == InternalFirmware::Betaflight4_4,
    ensures
        feature_of_bit(n, fw) == (if n == 0 {
            Some(Feature::RxPpm)
        } else if n == 2 {
            Some(Feature::InflightAccCal)
        } else if n == 3 {
            Some(Feature::RxSerial)
        } else if n == 4 {
            Some(Feature::MotorStop)
        } else if n == 5 {
            Some(Feature::ServoTilt)
        } else if n == 6 {
            Some(Feature::SoftSerial)
        } else if n == 7 {
            Some(Feature::Gps)
        } else if n == 9 {
            Some(Feature::RangeFinder)
        } else if n == 10 {
            Some(Feature::Telemetry)
        } else if n == 12 {
            Some(Feature::ThreeD)
        } else if n == 13 {
            Some(Feature::RxParallelPwm)
        } else if n == 14 {
            Some(Feature::RxMsp)
        } else if n == 15 {
            Some(Feature::RssiAdc)
        } else if n == 16 {
            Some(Feature::LedStrip)
        } else if n == 17 {
            Some(Feature::Dashboard)
        } else if n == 18 {
            Some(Feature::Osd)
        } else if n == 20 {
            Some(Feature::ChannelForwarding)
        } else if n == 21 {
            Some(Feature::Transponder)
        } else if n == 22 {
            Some(Feature::AirMode)
        } else if n == 25 {
            Some(Feature::RxSpi)
        } else if n == 27 {
            Some(Feature::EscSensor)
        } else if n == 28 {
            Some(Feature::AntiGravity)
        } else {
            None::<Feature>
        }),
        feature_of_bit(n, fw) matches Some(m) ==> feature_name(m) == (if n == 0 {
            "RX_PPM"@
        } else if n == 2 {
            "INFLIGHT_ACC_CAL"@
        } else if n == 3 {
            "RX_SERIAL"@
        } else if n == 4 {
            "MOTOR_STOP"@
        } else if n == 5 {
            "SERVO_TILT"@
        } else if n == 6 {
            "SOFTSERIAL"@
        } else if n == 7 {
            "GPS"@
        } else if n == 9 {
            "RANGEFINDER"@
        } else if n == 10 {
            "TELEMETRY"@
        } else if n == 12 {
            "3D"@
        } else if n == 13 {
            "RX_PARALLEL_PWM"@
        } else if n == 14 {
            "RX_MSP"@
        } else if n == 15 {
            "RSSI_ADC"@
        } else if n == 16 {
            "LED_STRIP"@
        } else if n == 17 {
            "DASHBOARD"@
        } else if n == 18 {
            "OSD"@
        } else if n == 20 {
            "CHANNEL_FORWARDING"@
        } else if n == 21 {
            "TRANSPONDER"@
        } else if n == 22 {
            "AIRMODE"@
        } else if n == 25 {
            "RX_SPI"@
        } else if n == 27 {
            "ESC_SENSOR"@
        } else if n == 28 {
            "ANTI_GRAVITY"@
        } else {
            ""@
        }),
{
}

/// Betaflight 4.5, INAV 6, INAV 7 write no features: every bit stands for none.
pub proof fn lemma_feature_of_bit_betaflight4_5_inav6_inav7(fw: InternalFirmware, n: u32)
    requires
        fw == InternalFirmware::Betaflight4_5 || fw == InternalFirmware::Inav6 || fw == InternalFirmware::Inav7,
    ensures
        feature_of_bit(n, fw) == ({
            None::<Feature>
        }),
        feature_of_bit(n, fw) matches Some(m) ==> feature_name(m) == ({
            ""@
        }),
{
}

/// The features that INAV 5 writes, by bit: 0 ThrottleVbatCompensation
/// (`THR_VBAT_COMP`), 1 Vbat (`VBAT`), 2 TxProfileSelection (`TX_PROF_SEL`), 3
/// BatProfileAutoswitch (`BAT_PROFILE_AUTOSWITCH`), 4 MotorStop (`MOTOR_STOP`),
/// 6 SoftSerial (`SOFTSERIAL`), 7 Gps (`GPS`), 10 Telemetry (`TELEMETRY`), 11
/// CurrentMeter (`CURRENT_METER`), 12 ReversibleMotors (`REVERSIBLE_MOTORS`),
/// 15 RssiAdc (`RSSI_ADC`), 16 LedStrip (`LED_STRIP`), 17 Dashboard
/// (`DASHBOARD`), 19 Blackbox (`BLACKBOX`), 21 Transponder (`TRANSPONDER`), 22
/// AirMode (`AIRMODE`), 23 SuperexpoRates (`SUPEREXPO_RATES`), 24 Vtx (`VTX`),
/// 28 PwmOutputEnable (`PWM_OUTPUT_ENABLE`), 29 Osd (`OSD`), 30 FwLaunch
/// (`FW_LAUNCH`), 31 FwAutotrim (`FW_AUTOTRIM`); every other bit stands for
/// none.
pub proof fn lemma_feature_of_bit_inav5(fw: InternalFirmware, n: u32)
    requires
        fw == InternalFirmware::Inav5,
    ensures
        feature_of_bit(n, fw) == (if n == 0 {
            Some(Feature::ThrottleVbatCompensation)
        } else if n == 1 {
            Some(Feature::Vbat)
        } else if n == 2 {
            Some(Feature::TxProfileSelection)
        } else if n == 3 {
            Some(Feature::BatProfileAutoswitch)
        } else if n == 4 {
            Some(Feature::MotorStop)
        } else if n == 6 {
            Some(Feature::SoftSerial)
        } else if n == 7 {
            Some(Feature::Gps)
        } else if n == 10 {
            Some(Feature::Telemetry)
        } else if n == 11 {
            Some(Feature::CurrentMeter)
        } else if n == 12 {
            Some(Feature::ReversibleMotors)
        } else if n == 15 {
            Some(Feature::RssiAdc)
        } else if n == 16 {
            Some(Feature::LedStrip)
        } else if n == 17 {
            Some(Feature::Dashboard)
        } else if n == 19 {
            Some(Feature::Blackbox)
        } else if n == 21 {
            Some(Feature::Transponder)
        } else if n == 22 {
            Some(Feature::AirMode)
        } else if n == 23 {
            Some(Feature::SuperexpoRates)
        } else if n == 24 {
            Some(Feature::Vtx)
        } else if n == 28 {
            Some(Feature::PwmOutputEnable)
        } else if n == 29 {
            Some(Feature::Osd)
        } else if n == 30 {
            Some(Feature::FwLaunch)
        } else if n == 31 {
            Some(Feature::FwAutotrim)
        } else {
            None::<Feature>
        }),
        feature_of_bit(n, fw) matches Some(m) ==> feature_name(m) == (if n == 0 {
            "THR_VBAT_COMP"@
        } else if n == 1 {
            "VBAT"@
        } else if n == 2 {
            "TX_PROF_SEL"@
        } else if n == 3 {
            "BAT_PROFILE_AUTOSWITCH"@
        } else if n == 4 {
            "MOTOR_STOP"@
        } else if n == 6 {
            "SOFTSERIAL"@
        } else if n == 7 {
            "GPS"@
        } else if n == 10 {
            "TELEMETRY"@
        } else if n == 11 {
            "CURRENT_METER"@
        } else if n == 12 {
            "REVERSIBLE_MOTORS"@
        } else if n == 15 {
            "RSSI_ADC"@
        } else if n == 16 {
            "LED_STRIP"@
        } else if n == 17 {
            "DASHBOARD"@
        } else if n == 19 {
            "BLACKBOX"@
        } else if n == 21 {
            "TRANSPONDER"@
        } else if n == 22 {
            "AIRMODE"@
        } else if n == 23 {
            "SUPEREXPO_RATES"@
        } else if n == 24 {
            "VTX"@
        } else if n == 28 {
            "PWM_OUTPUT_ENABLE"@
        } else if n == 29 {
            "OSD"@
        } else if n == 30 {
            "FW_LAUNCH"@
        } else if n == 31 {
            "FW_AUTOTRIM"@
        } else {
            ""@
        }),
{
}

} // verus!
