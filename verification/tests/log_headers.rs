use blackbox_log::frame::main::MainUnit;
use blackbox_log::frame::Unit;
use blackbox_log::headers::{DataFrameKind, FirmwareDate, Headers, InternalFirmware, ParseError};
use blackbox_log::predictor::Predictor;
use blackbox_log::units::PwmProtocol;

const PRODUCT: &str = "H Product:Blackbox flight data recorder by Nicholas Sherlock\n";

fn log(headers: &[&str], rest: &str) -> Vec<u8> {
    let mut out = String::from(PRODUCT);
    out.push_str("H Data version:2\n");
    for h in headers {
        out.push_str("H ");
        out.push_str(h);
        out.push('\n');
    }
    out.push_str(rest);
    out.into_bytes()
}

fn base_headers() -> Vec<&'static str> {
    vec![
        "Firmware revision:Betaflight 4.2.9 (abc) STM32F405",
        "Firmware type:Cleanflight",
        "Field I name:loopIteration,time,motor[0],accSmooth[0]",
        "Field I signed:0,0,0,1",
        "Field I predictor:0,0,11,0",
        "Field I encoding:1,1,1,0",
        "Field P predictor:6,2,1,1",
        "Field P encoding:9,0,0,0",
        "Field S name:flightModeFlags,rxSignalReceived",
        "Field S signed:0,0",
        "Field S predictor:0,0",
        "Field S encoding:1,1",
        "motor_pwm_protocol:6",
        "motorOutput:48,2047",
        "acc_1G:2048",
        "gyro_scale:0x3d0f5c29",
        "features:-1",
        "Board information:  MATEKF405 ",
        "Craft name:   ",
        "vbatscale:110",
        "Some header:x",
    ]
}

#[test]
fn reads_a_header_section() {
    let data = log(&base_headers(), "I\x00");
    let (headers, start) = match Headers::parse(&data) {
        Ok(x) => x,
        Err(e) => panic!("unexpected {e:?}"),
    };
    assert_eq!(b'I', data[start]);
    assert_eq!(InternalFirmware::Betaflight4_2, headers.firmware);
    assert_eq!("Betaflight 4.2.9 (abc) STM32F405", headers.firmware_revision());

    let main = headers.main_frame_def();
    assert_eq!("loopIteration", main.iteration.name);
    assert_eq!(2, main.fields.len());
    assert_eq!(3, main.len());
    assert_eq!("motor[0]", main.fields[0].name);
    assert_eq!(Predictor::MinMotor, main.fields[0].predictor_intra);
    assert_eq!(MainUnit::Acceleration, main.fields[1].unit);
    assert!(main.fields[1].signed);
    assert_eq!(Some(0), main.index_motor_0);
    assert_eq!(Some("accSmooth[0]"), main.get(2).map(|f| f.name));
    assert_eq!(7, main.get_motor_0_from(&[7, 8]));

    let slow = headers.slow_frame_def();
    assert_eq!(2, slow.len());
    assert_eq!(Unit::Boolean, Unit::from(slow.fields[1].unit));
    assert!(headers.gps_frame_def().is_none());
    assert!(headers.gps_home_frame_def().is_none());

    assert_eq!(PwmProtocol::Dshot300, headers.pwm_protocol());
    assert_eq!(Some(0x3d0f5c29), headers.gyro_scale);
    assert_eq!(Some(2048), headers.acceleration_1g);
    assert_eq!(Some("MATEKF405"), headers.board_info());
    assert_eq!(None, headers.craft_name());
    assert_eq!(1, headers.unknown().len());
    assert_eq!(Some("x".to_string()), headers.unknown().get("Some header"));
    assert_eq!(None, headers.unknown().get("vbatscale"));
}

fn parse_err(headers: &[&str], rest: &str) -> ParseError {
    match Headers::parse(&log(headers, rest)) {
        Ok(_) => panic!("expected an error"),
        Err(e) => e,
    }
}

#[test]
fn refuses_other_versions() {
    let data = format!("{PRODUCT}H Data version:1\n");
    assert!(matches!(Headers::parse(data.as_bytes()), Err(ParseError::UnsupportedVersion)));
    assert!(matches!(Headers::parse(PRODUCT.as_bytes()), Err(ParseError::UnsupportedVersion)));
}

#[test]
fn reports_the_first_unreadable_value() {
    let mut headers = base_headers();
    headers.insert(3, "acc_1G:abc");
    headers.push("vbatref:nope");
    match parse_err(&headers, "") {
        ParseError::InvalidHeader { header, value } => {
            assert_eq!("acc_1G", header);
            assert_eq!("abc", value);
        }
        other => panic!("unexpected {other:?}"),
    }
}

#[test]
fn needs_the_firmware_revision() {
    let headers: Vec<&str> = base_headers().into_iter().skip(1).collect();
    assert!(matches!(parse_err(&headers, ""), ParseError::MissingHeader));
}

#[test]
fn needs_the_pwm_protocol() {
    let headers: Vec<&str> =
        base_headers().into_iter().filter(|h| !h.starts_with("motor_pwm")).collect();
    assert!(matches!(parse_err(&headers, ""), ParseError::MissingHeader));
}

#[test]
fn predictors_need_their_headers() {
    let headers: Vec<&str> =
        base_headers().into_iter().filter(|h| !h.starts_with("motorOutput")).collect();
    assert!(matches!(parse_err(&headers, ""), ParseError::MissingHeader));
    let headers: Vec<&str> =
        base_headers().into_iter().filter(|h| !h.starts_with("acc_1G")).collect();
    assert!(matches!(parse_err(&headers, ""), ParseError::MissingHeader));
}

#[test]
fn main_frames_start_with_the_loop_iteration() {
    let mut headers = base_headers();
    headers[2] = "Field I name:time,loopIteration,motor[0],accSmooth[0]";
    match parse_err(&headers, "") {
        ParseError::MissingField { frame, field } => {
            assert_eq!(DataFrameKind::Intra, frame);
            assert_eq!("loopIteration", field);
        }
        other => panic!("unexpected {other:?}"),
    }
}

#[test]
fn uneven_definitions_are_malformed() {
    let mut headers = base_headers();
    headers[7] = "Field P encoding:9,0,0,0,0";
    assert!(matches!(
        parse_err(&headers, ""),
        ParseError::MalformedFrameDef(DataFrameKind::Inter)
    ));
}

#[test]
fn a_lone_h_at_the_end_is_incomplete() {
    assert!(matches!(parse_err(&base_headers(), "H"), ParseError::IncompleteHeaders));
}

#[test]
fn a_corrupted_line_ends_the_headers() {
    let data = log(&base_headers(), "H \u{0}:\u{0}\n");
    let mut bytes = data.clone();
    // make the last header line invalid UTF-8
    let n = bytes.len();
    bytes[n - 2] = 0xff;
    let (_, start) = Headers::parse(&bytes).unwrap_or_else(|e| panic!("unexpected {e:?}"));
    assert_eq!(b'H', bytes[start]);
}

#[test]
fn gps_frames_fix_home_coordinates() {
    let mut headers = base_headers();
    headers.push("Field G name:time,GPS_coord[0],GPS_coord[1],GPS_altitude");
    headers.push("Field G signed:0,1,1,0");
    headers.push("Field G predictor:10,7,7,0");
    headers.push("Field G encoding:1,0,0,1");
    headers.push("Field H name:GPS_home[0],GPS_home[1]");
    headers.push("Field H signed:1,1");
    headers.push("Field H predictor:0,0");
    headers.push("Field H encoding:0,0");
    let data = log(&headers, "");
    let (parsed, _) = Headers::parse(&data).unwrap_or_else(|e| panic!("unexpected {e:?}"));
    let gps = parsed.gps_frame_def().unwrap();
    assert_eq!(3, gps.len());
    assert_eq!(Predictor::HomeLat, gps.fields[0].predictor);
    assert_eq!(Predictor::HomeLon, gps.fields[1].predictor);
    assert_eq!(Predictor::Zero, gps.fields[2].predictor);
    assert_eq!(Some("GPS_altitude"), gps.get(2).map(|f| f.name));
    assert!(parsed.gps_home_frame_def().is_some());
}

#[test]
fn gps_frames_start_with_the_time() {
    let mut headers = base_headers();
    headers.push("Field G name:GPS_coord[0]");
    headers.push("Field G signed:1");
    headers.push("Field G predictor:0");
    headers.push("Field G encoding:0");
    match parse_err(&headers, "") {
        ParseError::MissingField { frame, field } => {
            assert_eq!(DataFrameKind::Gps, frame);
            assert_eq!("time", field);
        }
        other => panic!("unexpected {other:?}"),
    }
}

#[test]
fn the_last_value_of_a_header_counts() {
    let mut headers = base_headers();
    headers.insert(0, "acc_1G:1");
    headers.push("Some header:y");
    headers.push("Field S predictor:1,1");
    let data = log(&headers, "");
    let (parsed, _) = Headers::parse(&data).unwrap_or_else(|e| panic!("unexpected {e:?}"));
    assert_eq!(Some(2048), parsed.acceleration_1g);
    assert_eq!(Some("y".to_string()), parsed.unknown().get("Some header"));
    assert_eq!(Predictor::Previous, parsed.slow_frame_def().fields[0].predictor);
}

#[test]
fn header_values_in_other_notations() {
    let mut headers = base_headers();
    headers.push("gyro.scale:+1024");
    headers.push("features:2147483647");
    headers.push("fields_disabled_mask:+3");
    let data = log(&headers, "");
    let (parsed, _) = Headers::parse(&data).unwrap_or_else(|e| panic!("unexpected {e:?}"));
    assert_eq!(Some(1024), parsed.gyro_scale);
    assert!(matches!(
        parse_err(&[base_headers(), vec!["features:2147483648"]].concat(), ""),
        ParseError::InvalidHeader { .. }
    ));
    assert!(matches!(
        parse_err(&[base_headers(), vec!["gyro_scale:0x1ffffffff"]].concat(), ""),
        ParseError::InvalidHeader { .. }
    ));
    assert!(matches!(
        parse_err(&[base_headers(), vec!["features:-+1"]].concat(), ""),
        ParseError::InvalidHeader { .. }
    ));
}

#[test]
fn firmware_date_reads_as_date_and_time() {
    let mut headers = base_headers();
    headers.push("Firmware date:Jun  6 2022 20:49:11");
    let data = log(&headers, "");
    let (parsed, _) = Headers::parse(&data).unwrap_or_else(|e| panic!("unexpected {e:?}"));
    assert_eq!(
        Some(Ok(FirmwareDate { year: 2022, month: 6, day: 6, hour: 20, minute: 49, second: 11 })),
        parsed.firmware_date()
    );
    assert_eq!(Some("Jun  6 2022 20:49:11"), parsed.firmware_date_raw());

    let mut headers = base_headers();
    headers.push("Firmware date:sometime");
    let data = log(&headers, "");
    let (parsed, _) = Headers::parse(&data).unwrap_or_else(|e| panic!("unexpected {e:?}"));
    assert_eq!(Some(Err("sometime")), parsed.firmware_date());

    let data = log(&base_headers(), "");
    let (parsed, _) = Headers::parse(&data).unwrap_or_else(|e| panic!("unexpected {e:?}"));
    assert_eq!(None, parsed.firmware_date());
}
