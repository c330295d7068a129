use blackbox_log::data::History;
use blackbox_log::predictor::{
    average, average_signed, straight_line, straight_line_signed, Predictor, PredictorContextV2,
};

#[test]
fn straight_line_signed_cases() {
    assert_eq!(0, straight_line_signed(History::Empty));
    assert_eq!(10, straight_line_signed(History::One(10)));
    assert_eq!(-2, straight_line_signed(History::One(-2)));
    assert_eq!(14, straight_line_signed(History::Two(12, 10)));
    assert_eq!(8, straight_line_signed(History::Two(10, 12)));
    assert_eq!(-i32::MAX, straight_line_signed(History::Two(0, i32::MAX)));
    // underflow falls back to the last value
    assert_eq!(0, straight_line_signed(History::Two(0, i32::MIN)));
    // overflow falls back to the last value
    assert_eq!(0x4000_0000, straight_line_signed(History::Two(0x4000_0000, 0)));
}

#[test]
fn straight_line_unsigned_cases() {
    assert_eq!(2, straight_line(History::Two(2, 2)));
    assert_eq!(14, straight_line(History::Two(12, 10)));
    assert_eq!(8, straight_line(History::Two(10, 12)));
    assert_eq!(0, straight_line(History::Two(0, u32::MIN)));
    assert_eq!(u32::MAX - 1, straight_line(History::Two(u32::MAX - 1, 0)));
    // a negative result falls back to the last value
    assert_eq!(0, straight_line(History::Two(0, u32::MAX)));
}

#[test]
fn average_signed_cases() {
    assert_eq!(0, average_signed(History::Empty));
    assert_eq!(-1, average_signed(History::One(-1)));
    assert_eq!(0, average_signed(History::Two(2, -1)));
    assert_eq!(0x4000_0000, average_signed(History::Two(i32::MAX, 1)));
    assert_eq!(-1, average_signed(History::Two(-2, -1)));
}

#[test]
fn average_unsigned_cases() {
    assert_eq!(0, average(History::Empty));
    assert_eq!(1, average(History::One(1)));
    assert_eq!(6, average(History::Two(2, 10)));
    assert_eq!(0x8000_0000, average(History::Two(u32::MAX, 1)));
}

#[test]
fn predictor_numbers() {
    assert_eq!(Some(Predictor::Zero), Predictor::from_num_str("0"));
    assert_eq!(Some(Predictor::Increment), Predictor::from_num_str("6"));
    assert_eq!(Some(Predictor::MinMotor), Predictor::from_num_str("11"));
    assert_eq!(None, Predictor::from_num_str("12"));
    assert_eq!(None, Predictor::from_num_str(""));
}

#[test]
fn context_reads_its_headers() {
    let mut ctx = PredictorContextV2::new();
    assert_eq!(Ok(()), ctx.update("minthrottle", "1070"));
    assert_eq!(Ok(()), ctx.update("vbatref", "420"));
    assert_eq!(Ok(()), ctx.update("motorOutput", "48,2047"));
    assert_eq!(Ok(()), ctx.update("Firmware type", "Cleanflight"));
    assert_eq!(1070, ctx.min_throttle);
    assert_eq!(420, ctx.vbat_reference);
    assert_eq!(48, ctx.min_motor);

    let before = ctx;
    assert_eq!(Err(()), ctx.update("minthrottle", "not a number"));
    assert_eq!(before, ctx);
}

#[test]
fn apply_adds_the_prediction() {
    let mut ctx = PredictorContextV2::new();
    ctx.update("minthrottle", "1000").unwrap();
    ctx.set_motor_0(1234);
    ctx.set_gps_home_lat(500);

    assert_eq!(5, Predictor::Zero.apply_v2(5, false, 0, &ctx, History::Two(9, 9)));
    assert_eq!(14, Predictor::Previous.apply_v2(5, false, 0, &ctx, History::Two(9, 1)));
    assert_eq!(1005, Predictor::MinThrottle.apply_v2(5, false, 0, &ctx, History::Empty));
    assert_eq!(1239, Predictor::Motor0.apply_v2(5, false, 0, &ctx, History::Empty));
    assert_eq!(1505, Predictor::FifteenHundred.apply_v2(5, false, 0, &ctx, History::Empty));
    assert_eq!(503, Predictor::HomeLat.apply_v2(3, true, 0, &ctx, History::Empty));
    // the loop counter advances by the skipped frames and one more
    assert_eq!(13, Predictor::Increment.apply_v2(0, false, 2, &ctx, History::One(10)));
    // signed straight line on values that are negative as 32-bit integers
    let minus_two = (-2i32) as u32;
    let minus_one = (-1i32) as u32;
    assert_eq!(
        (-3i32) as u32,
        Predictor::StraightLine.apply_v2(0, true, 0, &ctx, History::Two(minus_two, minus_one))
    );
    // wrapping addition
    assert_eq!(0, Predictor::Previous.apply_v2(1, false, 0, &ctx, History::One(u32::MAX)));
}
