use blackbox_log::filter::AppliedFilter;
use blackbox_log::frame::gps::{GpsFrame, GpsUnit, GpsValue, RawGpsFrame};
use blackbox_log::frame::main::{MainFrame, MainFrameHistory, MainUnit, MainValue, RawMainFrame};
use blackbox_log::frame::slow::{SlowFrame, SlowValue};
use blackbox_log::headers::Headers;
use blackbox_log::predictor::{GpsPosition, PredictorContext};

fn log_bytes() -> Vec<u8> {
    let headers = [
        "Product:Blackbox flight data recorder by Nicholas Sherlock",
        "Data version:2",
        "Firmware revision:Betaflight 4.2.9 (abc) STM32F405",
        "Firmware type:Cleanflight",
        "Field I name:loopIteration,time,amperageLatest,vbatLatest,accSmooth[0],gyroADC[1],rcCommand[0],debug[0]",
        "Field I signed:0,0,1,0,1,1,1,0",
        "Field I predictor:0,0,0,0,0,0,0,0",
        "Field I encoding:1,1,0,1,0,0,0,1",
        "Field P predictor:6,2,1,1,1,1,1,1",
        "Field P encoding:9,0,0,0,0,0,0,0",
        "Field S name:flightModeFlags,rxSignalReceived,failsafePhase",
        "Field S signed:0,0,0",
        "Field S predictor:0,0,0",
        "Field S encoding:1,1,1",
        "Field G name:time,GPS_coord[0],GPS_coord[1],GPS_altitude,GPS_speed,GPS_ground_course,GPS_numSat",
        "Field G signed:0,1,1,1,0,0,0",
        "Field G predictor:10,7,7,0,0,0,0",
        "Field G encoding:1,0,0,0,1,1,1",
        "Field H name:GPS_home[0],GPS_home[1]",
        "Field H signed:1,1",
        "Field H predictor:0,0",
        "Field H encoding:0,0",
        "acc_1G:2048",
        "motor_pwm_protocol:6",
        "motorOutput:48,2047",
        "gyro_scale:0x3d0f5c29",
        "features:-1",
        "vbatscale:110",
    ];
    let mut out = String::new();
    for h in headers {
        out.push_str("H ");
        out.push_str(h);
        out.push('\n');
    }
    out.push_str("I\x00");
    out.into_bytes()
}

fn with_headers(check: impl FnOnce(&Headers)) {
    let data = log_bytes();
    let (headers, _) = match Headers::parse(&data) {
        Ok(x) => x,
        Err(e) => panic!("unexpected {e:?}"),
    };
    check(&headers);
}

#[test]
fn main_frame_values_by_unit() {
    with_headers(|headers| {
        let units: Vec<MainUnit> = headers.main_frame_def.fields.iter().map(|f| f.unit).collect();
        assert_eq!(
            vec![
                MainUnit::Amperage,
                MainUnit::Voltage,
                MainUnit::Acceleration,
                MainUnit::Rotation,
                MainUnit::Unitless,
                MainUnit::Unitless,
            ],
            units
        );

        let raw = RawMainFrame {
            intra: true,
            iteration: 42,
            time: 1_000_000,
            values: vec![u32::MAX, 330, 0xffff_fffe, 5, 0xffff_ff00, 7],
        };
        let filter = AppliedFilter::new_unfiltered(7);
        let frame = MainFrame::new(headers, &raw, &filter);
        assert_eq!(7, frame.len());
        assert_eq!(1_000_000, frame.time_raw());
        assert_eq!(Some(MainValue::Unsigned(42)), frame.get(0));
        assert_eq!(Some(MainValue::Amperage(-1)), frame.get(1));
        assert_eq!(Some(MainValue::Voltage(330)), frame.get(2));
        assert_eq!(Some(MainValue::Acceleration(-2)), frame.get(3));
        assert_eq!(Some(MainValue::Rotation(5)), frame.get(4));
        assert_eq!(Some(MainValue::Signed(-256)), frame.get(5));
        assert_eq!(Some(MainValue::Unsigned(7)), frame.get(6));
        assert_eq!(None, frame.get(7));
        assert_eq!(Some(42), frame.get_raw(0));
        assert_eq!(Some(u32::MAX), frame.get_raw(1));
        assert_eq!(None, frame.get_raw(7));
    });
}

#[test]
fn main_frame_through_a_filter() {
    with_headers(|headers| {
        let raw = RawMainFrame {
            intra: false,
            iteration: 3,
            time: 9,
            values: vec![1, 2, 3, 4, 5, 6],
        };
        let filter = AppliedFilter(vec![0, 4]);
        let frame = MainFrame::new(headers, &raw, &filter);
        assert_eq!(2, frame.len());
        assert_eq!(Some(MainValue::Unsigned(3)), frame.get(0));
        assert_eq!(Some(MainValue::Rotation(4)), frame.get(1));
        assert_eq!(Some(4), frame.get_raw(1));
        assert_eq!(None, frame.get(2));
    });
}

#[test]
fn main_value_constructors() {
    assert_eq!(MainValue::Signed(-1), MainValue::new_unitless(u32::MAX, true));
    assert_eq!(MainValue::Unsigned(u32::MAX), MainValue::new_unitless(u32::MAX, false));
    assert_eq!(MainValue::Voltage(u32::MAX), MainValue::from_raw(MainUnit::Voltage, true, u32::MAX));
    assert_eq!(MainValue::Amperage(-3), MainValue::from_raw(MainUnit::Amperage, false, 0xffff_fffd));
}

#[test]
fn gps_frame_values_by_unit() {
    with_headers(|headers| {
        let raw = RawGpsFrame {
            time: 77,
            values: vec![0xffff_ff9c, 500_000_000, 0xffff_fff6, 1234, 1800, 9],
        };
        let filter = AppliedFilter::new_unfiltered(6);
        let frame = GpsFrame::new(headers, raw, &filter);
        assert_eq!(6, frame.len());
        assert_eq!(77, frame.time_raw());
        assert_eq!(Some(GpsValue::Coordinate(-100)), frame.get(0));
        assert_eq!(Some(GpsValue::Coordinate(500_000_000)), frame.get(1));
        assert_eq!(Some(GpsValue::Altitude(-10)), frame.get(2));
        assert_eq!(Some(GpsValue::Velocity(1234)), frame.get(3));
        assert_eq!(Some(GpsValue::Heading(1800)), frame.get(4));
        assert_eq!(Some(GpsValue::Unsigned(9)), frame.get(5));
        assert_eq!(None, frame.get(6));
        assert_eq!(Some(0xffff_ff9c), frame.get_raw(0));
        assert_eq!(None, frame.get_raw(6));
    });
}

#[test]
fn gps_unsigned_altitude_is_not_sign_extended() {
    assert_eq!(GpsValue::Altitude(4_294_967_295), GpsValue::from_raw(GpsUnit::Altitude, false, u32::MAX));
    assert_eq!(GpsValue::Altitude(-1), GpsValue::from_raw(GpsUnit::Altitude, true, u32::MAX));
    assert_eq!(GpsValue::Signed(-1), GpsValue::new_unitless(u32::MAX, true));
}

#[test]
fn slow_frame_values_by_unit() {
    with_headers(|headers| {
        let filter = AppliedFilter::new_unfiltered(3);
        let frame = SlowFrame::new(headers, vec![1, 5, 2], &filter);
        assert_eq!(3, frame.len());
        assert!(matches!(frame.get(0), Some(SlowValue::FlightMode(_))));
        assert_eq!(Some(SlowValue::Boolean(true)), frame.get(1));
        assert!(matches!(frame.get(2), Some(SlowValue::FailsafePhase(_))));
        assert_eq!(Some(2), frame.get_raw(2));
        assert_eq!(None, frame.get(3));
    });
}

#[test]
fn predictor_context_constructors() {
    with_headers(|headers| {
        let c = PredictorContext::new(headers);
        assert_eq!((None, None, 0, None), (c.last, c.last_last, c.skipped_frames, c.gps_home));
        let mut c = PredictorContext::with_skipped(headers, 4);
        assert_eq!(4, c.skipped_frames);
        c.set_last(Some(9));
        assert_eq!((Some(9), None), (c.last, c.last_last));
        c.set_last_2(Some(1), Some(2));
        assert_eq!((Some(1), Some(2), 4), (c.last, c.last_last, c.skipped_frames));
        let home = GpsPosition { latitude: -5, longitude: 6 };
        let c = PredictorContext::with_home(headers, Some(home));
        assert_eq!(Some(home), c.gps_home);
        assert_eq!(0, c.skipped_frames);
    });
}

fn raw_main(iteration: u32) -> RawMainFrame {
    RawMainFrame { intra: true, iteration, time: u64::from(iteration) * 10, values: vec![iteration] }
}

#[test]
fn main_frame_history_keeps_the_last_two() {
    let mut history = MainFrameHistory::default();
    assert!(history.last().is_none());
    assert!(history.last_last().is_none());
    assert_eq!(1, history.push(raw_main(1)).iteration);
    assert_eq!(Some(1), history.last().map(|f| f.iteration));
    assert!(history.last_last().is_none());
    assert_eq!(2, history.push(raw_main(2)).iteration);
    assert_eq!(Some(2), history.last().map(|f| f.iteration));
    assert_eq!(Some(1), history.last_last().map(|f| f.iteration));
    history.push(raw_main(3));
    assert_eq!(Some(3), history.last().map(|f| f.iteration));
    assert_eq!(Some(2), history.last_last().map(|f| f.iteration));
    assert_eq!(Some(20), history.last_last().map(|f| f.time));
}
