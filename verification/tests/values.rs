use blackbox_log::common::{FirmwareKind, LogVersion};
use blackbox_log::event::{Event, EventKind};
use blackbox_log::file::File;
use blackbox_log::headers::{
    eq_ignore_case, parse_version, DataFrameKind, Firmware, FirmwareVersion, InternalFirmware,
    MotorOutputRange, ParseError,
};
use blackbox_log::reader::Reader;
use blackbox_log::text::{parse_decimal, split_all, split_once, strip_prefix, NumberError};

#[test]
fn firmware_revisions() {
    assert_eq!(
        Ok(InternalFirmware::Betaflight4_2),
        InternalFirmware::parse("Betaflight 4.2.9 (a2b0e6d) STM32F405").map_err(|_| ())
    );
    assert_eq!(
        Ok(InternalFirmware::Betaflight4_4),
        InternalFirmware::parse("betaflight 4.4.0").map_err(|_| ())
    );
    assert_eq!(
        Ok(InternalFirmware::Inav6),
        InternalFirmware::parse("INAV 6.1.1 (ed0ee6c3) MATEKF405").map_err(|_| ())
    );
    assert_eq!(
        Ok(InternalFirmware::Inav7),
        InternalFirmware::parse("INAV 7.0.0").map_err(|_| ())
    );
    match InternalFirmware::parse("Betaflight 4.5.0 (abc) X") {
        Err(ParseError::InvalidFirmware(r)) => assert_eq!("Betaflight 4.5.0 (abc) X", r),
        other => panic!("unexpected {other:?}"),
    }
    assert!(InternalFirmware::parse("INAV 5.2.0").is_err());
    assert!(InternalFirmware::parse("EmuFlight 0.4.0").is_err());
    assert!(InternalFirmware::parse("Betaflight").is_err());
}

#[test]
fn firmware_families() {
    let fw = InternalFirmware::Inav5;
    assert!(fw.is_inav());
    assert!(!fw.is_betaflight());
    assert_eq!(Firmware::Inav(FirmwareVersion::new(5, 0, 0)), fw.to_firmware());
    let fw: Firmware = InternalFirmware::Betaflight4_3.into();
    assert_eq!("Betaflight", fw.name());
    assert_eq!(FirmwareVersion::new(4, 3, 0), fw.version());
}

#[test]
fn versions() {
    assert_eq!(Some(FirmwareVersion::new(4, 2, 9)), parse_version("4.2.9"));
    assert_eq!(None, parse_version("4.2"));
    assert_eq!(None, parse_version("4.256.0"));
    assert_eq!(None, parse_version("a.b.c"));
}

#[test]
fn case_insensitive_names() {
    assert!(eq_ignore_case("BetaFlight", "betaflight"));
    assert!(!eq_ignore_case("Betaflight!", "betaflight"));
}

#[test]
fn motor_output() {
    assert_eq!(
        Some(MotorOutputRange { min: 48, max: 2047 }),
        MotorOutputRange::from_str("48,2047")
    );
    assert_eq!(None, MotorOutputRange::from_str("48"));
    assert_eq!(None, MotorOutputRange::from_str("48,x"));
}

#[test]
fn log_versions_and_kinds() {
    assert_eq!(Ok(LogVersion::V1), LogVersion::from_str("1"));
    assert_eq!(Ok(LogVersion::V2), LogVersion::from_str("2"));
    assert_eq!(Err(()), LogVersion::from_str("3"));
    assert!(matches!(FirmwareKind::from_str("Cleanflight"), Ok(FirmwareKind::Betaflight)));
    assert!(matches!(FirmwareKind::from_str("INAV"), Ok(FirmwareKind::INav)));
    assert!(FirmwareKind::from_str("Other").is_err());
    let _ = DataFrameKind::Slow;
}

#[test]
fn decimals() {
    assert_eq!(Ok(1070), parse_decimal(b"1070", 0xffff));
    assert_eq!(Ok(5), parse_decimal(b"+5", 0xffff));
    assert_eq!(Err(NumberError::Invalid), parse_decimal(b"", 0xffff));
    assert_eq!(Err(NumberError::Invalid), parse_decimal(b"+", 0xffff));
    assert_eq!(Err(NumberError::Invalid), parse_decimal(b"-1", 0xffff));
    assert_eq!(Err(NumberError::Overflow), parse_decimal(b"65536", 0xffff));
    assert_eq!(Ok(255), parse_decimal(b"255", 255));
    assert_eq!(Err(NumberError::Overflow), parse_decimal(b"256", 255));
}

#[test]
fn text_helpers() {
    assert_eq!(Some(("a", "b:c")), split_once("a:b:c", b':'));
    assert_eq!(None, split_once("abc", b':'));
    assert_eq!(Some("rest"), strip_prefix("Field rest", "Field "));
    assert_eq!(None, strip_prefix("Fie", "Field "));
    assert_eq!(vec!["1", "", "3"], split_all("1,,3", b','));
}

#[test]
fn events() {
    let mut r = Reader::new(&[0, 0x96, 0x01]);
    assert_eq!(Ok(Event::SyncBeep(150)), Event::parse(&mut r));
    assert!(r.is_empty());

    let mut r = Reader::new(&[15, 3]);
    assert_eq!(Ok(Event::Disarm(3)), Event::parse(&mut r));

    let mut end = vec![255u8];
    end.extend_from_slice(b"End of log\0");
    let mut r = Reader::new(&end);
    assert_eq!(Ok(Event::End), Event::parse(&mut r));
    assert!(r.is_empty());

    let mut r = Reader::new(&[255, b'x']);
    assert!(Event::parse(&mut r).is_err());

    assert_eq!(Some(EventKind::FlightMode), EventKind::from_u8(30));
    assert_eq!(None, EventKind::from_u8(1));
}

const MARKER: &[u8] = b"H Product:Blackbox flight data recorder by Nicholas Sherlock\n";

#[test]
fn files_split_at_each_log() {
    let mut data = b"junk".to_vec();
    data.extend_from_slice(MARKER);
    data.extend_from_slice(b"first");
    data.extend_from_slice(MARKER);
    data.extend_from_slice(b"second");
    let file = File::new(&data);
    assert_eq!(2, file.log_count());

    let mut first = MARKER.to_vec();
    first.extend_from_slice(b"first");
    assert_eq!(Some(first.as_slice()), file.log_data(0));
    let mut second = MARKER.to_vec();
    second.extend_from_slice(b"second");
    assert_eq!(Some(second.as_slice()), file.log_data(1));
    assert_eq!(None, file.log_data(2));
}

#[test]
fn empty_file_has_no_logs() {
    let file = File::new(b"no logs here");
    assert_eq!(0, file.log_count());
    assert_eq!(None, file.log_data(0));
}

#[test]
fn firmware_versions_order_by_major_minor_patch() {
    use_versions();
}

fn use_versions() {
    let v = blackbox_log::headers::FirmwareVersion::new;
    assert!(v(4, 2, 0) < v(4, 10, 0));
    assert!(v(4, 4, 9) < v(4, 5, 0));
    assert!(v(5, 0, 0) > v(4, 255, 255));
    assert!(v(4, 3, 1) <= v(4, 3, 1));
    assert_eq!(Some(std::cmp::Ordering::Equal), v(1, 2, 3).partial_cmp(&v(1, 2, 3)));
}

#[test]
fn betaflight_modes_are_counted_by_their_bits() {
    for flags in [0u32, 0x80, 0x77f, 0xffff_ffff, 0x0000_0405, 0x1234_5678] {
        let modes = blackbox_log::betaflight::FlightModeFlags::new(flags).to_modes();
        assert_eq!((flags & 0x77f).count_ones() as usize, modes.len());
    }
}
