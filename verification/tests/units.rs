use blackbox_log::betaflight;
use blackbox_log::common::{DisarmReasonError, FlightModeFlags};
use blackbox_log::headers::InternalFirmware;
use blackbox_log::inav;
use blackbox_log::units::debug_mode::DebugMode;
use blackbox_log::units::failsafe_phase::FailsafePhase;
use blackbox_log::units::features::{Feature, FeatureSet};
use blackbox_log::units::flight_mode::{FlightMode, FlightModeSet};
use blackbox_log::units::pwm_protocol::PwmProtocol;

#[test]
fn flight_mode_set_lists_set_bits() {
    let set = FlightModeSet::new(0b111, InternalFirmware::Betaflight4_2);
    assert_eq!(
        vec![FlightMode::Arm, FlightMode::Angle, FlightMode::Horizon],
        set.iter()
    );
    assert_eq!(vec!["ARM", "ANGLE", "HORIZON"], set.as_names());
    assert!(set.is_set(FlightMode::Angle));
    assert!(!set.is_set(FlightMode::Mag));
}

#[test]
fn flight_mode_bits_depend_on_firmware() {
    assert_eq!(Some(FlightMode::Mag), FlightMode::from_bit(3, InternalFirmware::Betaflight4_4));
    assert_eq!(
        Some(FlightMode::NavAltitudeHold),
        FlightMode::from_bit(3, InternalFirmware::Inav5)
    );
    assert_eq!(Some(3), FlightMode::Mag.to_bit(InternalFirmware::Betaflight4_2));
    assert_eq!(None, FlightMode::from_bit(63, InternalFirmware::Betaflight4_2));
}

#[test]
fn feature_round_trip() {
    let fw = InternalFirmware::Betaflight4_3;
    for bit in 0..32 {
        if let Some(feature) = Feature::from_bit(bit, fw) {
            assert_eq!(Some(bit), feature.to_bit(fw));
        }
    }
    let set = FeatureSet::new((1 << 4) | (1 << 7), fw);
    assert_eq!(vec![Feature::MotorStop, Feature::Gps], set.iter());
    assert_eq!(vec!["MOTOR_STOP", "GPS"], set.as_names());
}

#[test]
fn header_values() {
    assert_eq!(Some(DebugMode::Off), DebugMode::new(0, InternalFirmware::Betaflight4_2));
    assert_eq!("NONE", DebugMode::Off.as_name());
    assert_eq!(Some(PwmProtocol::Multishot), PwmProtocol::new(2, InternalFirmware::Inav5));
    assert_eq!(Some(PwmProtocol::Oneshot42), PwmProtocol::new(2, InternalFirmware::Betaflight4_2));
    assert_eq!("ONESHOT42", PwmProtocol::Oneshot42.as_name());
    assert_eq!(FailsafePhase::Landing, FailsafePhase::new(2, InternalFirmware::Betaflight4_2));
    assert_eq!(FailsafePhase::Unknown, FailsafePhase::new(99, InternalFirmware::Inav6));
    assert_eq!("UNKNOWN", FailsafePhase::Unknown.as_name());
}

#[test]
fn betaflight_flags() {
    let flags = betaflight::FlightModeFlags::new(0b101_0000_0011);
    assert!(flags.angle());
    assert!(flags.horizon());
    assert!(!flags.mag());
    assert!(flags.passthru());
    assert!(flags.failsafe());
    assert_eq!(
        vec![
            betaflight::FlightMode::Angle,
            betaflight::FlightMode::Horizon,
            betaflight::FlightMode::Passthru,
            betaflight::FlightMode::Failsafe,
        ],
        flags.to_modes()
    );
    assert_eq!(8, betaflight::FlightMode::Passthru.to_bit());
}

#[test]
fn inav_flags() {
    let flags: FlightModeFlags<inav::FlightMode> = FlightModeFlags::new((1 << 8) | (1 << 16));
    assert!(flags.manual());
    assert!(flags.soaring());
    assert!(!flags.angle());
    assert_eq!(vec![inav::FlightMode::Manual, inav::FlightMode::Soaring], flags.to_modes());
    assert!(flags.is_bit_set(16));
}

#[test]
fn disarm_reasons() {
    assert_eq!(Ok(betaflight::DisarmReason::Switch), betaflight::DisarmReason::from_u32(4));
    assert_eq!(
        Ok(betaflight::DisarmReason::Sticks),
        betaflight::DisarmReason::try_from(3u32)
    );
    let err = betaflight::DisarmReason::from_u32(1000).unwrap_err();
    assert_eq!(DisarmReasonError, err);
    assert!(!err.message().is_empty());
    assert!(inav::DisarmReason::from_u32(1000).is_err());
}
