//! The debugging information a log was configured to record.

use vstd::prelude::*;

use crate::headers::InternalFirmware;

verus! {

/// The configured debugging info for a log.
#[derive(Debug, Clone, Copy, PartialEq, Eq, Hash, Structural)]
pub enum DebugMode {
    /// `AC_CORRECTION`
    AcCorrection,
    /// `AC_ERROR`
    AcError,
    /// `ACC`
    Acc,
    /// `ACCELEROMETER`
    Accelerometer,
    /// `ACRO_TRAINER`
    AcroTrainer,
    /// `ADC_INTERNAL`
    AdcInternal,
    /// `AGL`
    Agl,
    /// `ALTITUDE`
    Altitude,
    /// `ALWAYS`
    Always,
    /// `ANGLERATE`
    Anglerate,
    /// `ANTI_GRAVITY`
    AntiGravity,
    /// `ATTITUDE`
    Attitude,
    /// `AUTOLEVEL`
    AutoLevel,
    /// `AUTOTRIM`
    AutoTrim,
    /// `AUTOTUNE`
    AutoTune,
    /// `BARO`
    Baro,
    /// `BATTERY`
    Battery,
    /// `BLACKBOX_OUTPUT`
    BlackboxOutput,
    /// `CRSF_LINK_STATISTICS_DOWN`
    CrsfLinkStatisticsDown,
    /// `CRSF_LINK_STATISTICS_PWR`
    CrsfLinkStatisticsPwr,
    /// `CRSF_LINK_STATISTICS_UPLINK`
    CrsfLinkStatisticsUplink,
    /// `CRUISE`
    Cruise,
    /// `CURRENT_SENSOR`
    CurrentSensor,
    /// `CYCLETIME`
    Cycletime,
    /// `D_LPF`
    DLpf,
    /// `D_MIN`
    DMin,
    /// `DSHOT_RPM_ERRORS`
    DshotRpmErrors,
    /// `DSHOT_RPM_TELEMETRY`
    DshotRpmTelemetry,
    /// `DUAL_GYRO_DIFF`
    DualGyroDiff,
    /// `DUAL_GYRO_RAW`
    DualGyroRaw,
    /// `DUAL_GYRO_SCALED`
    DualGyroScaled,
    /// `DYN_IDLE`
    DynIdle,
    /// `DYN_LPF`
    DynLpf,
    /// `DYNAMIC_FILTER`
    DynamicFilter,
    /// `DYNAMIC_FILTER_FREQUENCY`
    DynamicFilterFrequency,
    /// `DYNAMIC_GYRO_LPF`
    DynamicGyroLpf,
    /// `ERPM`
    Erpm,
    /// `ESC_SENSOR`
    EscSensor,
    /// `ESC_SENSOR_RPM`
    EscSensorRpm,
    /// `ESC_SENSOR_TMP`
    EscSensorTmp,
    /// `FAILSAFE`
    Failsafe,
    /// `FEEDFORWARD`
    Feedforward,
    /// `FEEDFORWARD_LIMIT`
    FeedforwardLimit,
    /// `FF_INTERPOLATED`
    FfInterpolated,
    /// `FF_LIMIT`
    FfLimit,
    /// `FFT`
    Fft,
    /// `FFT_FREQ`
    FftFreq,
    /// `FFT_TIME`
    FftTime,
    /// `FLOW`
    Flow,
    /// `FLOW_RAW`
    FlowRaw,
    /// `FPORT`
    Fport,
    /// `GHST`
    Ghst,
    /// `GHST_MSP`
    GhstMsp,
    /// `GPS_DOP`
    GpsDop,
    /// `GPS_RESCUE_HEADING`
    GpsRescueHeading,
    /// `GPS_RESCUE_THROTTLE_PID`
    GpsRescueThrottlePid,
    /// `GPS_RESCUE_TRACKING`
    GpsRescueTracking,
    /// `GPS_RESCUE_VELOCITY`
    GpsRescueVelocity,
    /// `GYRO`
    Gyro,
    /// `GYRO_FILTERED`
    GyroFiltered,
    /// `GYRO_RAW`
    GyroRaw,
    /// `GYRO_SAMPLE`
    GyroSample,
    /// `GYRO_SCALED`
    GyroScaled,
    /// `IMU2`
    Imu2,
    /// `IRLOCK`
    Irlock,
    /// `ITERM_RELAX`
    ItermRelax,
    /// `KALMAN_GAIN`
    KalmanGain,
    /// `LANDING`
    Landing,
    /// `LIDAR_TF`
    LidarTf,
    /// `MAX7456_SIGNAL`
    Max7456Signal,
    /// `MAX7456_SPICLOCK`
    Max7456Spiclock,
    /// `NAV_YAW`
    NavYaw,
    /// `NONE`
    Off,
    /// `PCF8574`
    Pcf8574,
    /// `PID_MEASUREMENT`
    PidMeasurement,
    /// `PIDLOOP`
    Pidloop,
    /// `POS_EST`
    PosEst,
    /// `RANGEFINDER`
    Rangefinder,
    /// `RANGEFINDER_QUALITY`
    RangefinderQuality,
    /// `RATE_DYNAMICS`
    RateDynamics,
    /// `RC_INTERPOLATION`
    RcInterpolation,
    /// `RC_SMOOTHING`
    RcSmoothing,
    /// `RC_SMOOTHING_RATE`
    RcSmoothingRate,
    /// `REM_FLIGHT_TIME`
    RemFlightTime,
    /// `RPM_FILTER`
    RpmFilter,
    /// `RPM_FREQ`
    RpmFreq,
    /// `RTH`
    Rth,
    /// `RUNAWAY_TAKEOFF`
    RunawayTakeoff,
    /// `RX_EXPRESSLRS_PHASELOCK`
    RxExpresslrsPhaselock,
    /// `RX_EXPRESSLRS_SPI`
    RxExpresslrsSpi,
    /// `RX_FRSKY_SPI`
    RxFrskySpi,
    /// `RX_SFHSS_SPI`
    RxSfhssSpi,
    /// `RX_SIGNAL_LOSS`
    RxSignalLoss,
    /// `RX_SPEKTRUM_SPI`
    RxSpektrumSpi,
    /// `RX_STATE_TIME`
    RxStateTime,
    /// `RX_TIMING`
    RxTiming,
    /// `SAG_COMP_VOLTAGE`
    SagCompVoltage,
    /// `SBUS`
    Sbus,
    /// `SCHEDULER`
    Scheduler,
    /// `SCHEDULER_DETERMINISM`
    SchedulerDeterminism,
    /// `SDIO`
    Sdio,
    /// `SMARTAUDIO`
    Smartaudio,
    /// `SMITH_PREDICTOR`
    SmithPredictor,
    /// `SPM_CELLS`
    SpmCells,
    /// `SPM_VARIO`
    SpmVario,
    /// `SPM_VS600`
    SpmVs600,
    /// `STACK`
    Stack,
    /// `TIMING_ACCURACY`
    TimingAccuracy,
    /// `USB`
    Usb,
    /// `VIBE`
    Vibe,
    /// `VTX_MSP`
    VtxMsp,
    /// `VTX_TRAMP`
    VtxTramp,
}

/// The name that the firmware gives a `DebugMode`.
pub open spec fn debug_mode_name(value: DebugMode) -> Seq<char> {
    match value {
        DebugMode::AcCorrection => "AC_CORRECTION"@,
        DebugMode::AcError => "AC_ERROR"@,
        DebugMode::Acc => "ACC"@,
        DebugMode::Accelerometer => "ACCELEROMETER"@,
        DebugMode::AcroTrainer => "ACRO_TRAINER"@,
        DebugMode::AdcInternal => "ADC_INTERNAL"@,
        DebugMode::Agl => "AGL"@,
        DebugMode::Altitude => "ALTITUDE"@,
        DebugMode::Always => "ALWAYS"@,
        DebugMode::Anglerate => "ANGLERATE"@,
        DebugMode::AntiGravity => "ANTI_GRAVITY"@,
        DebugMode::Attitude => "ATTITUDE"@,
        DebugMode::AutoLevel => "AUTOLEVEL"@,
        DebugMode::AutoTrim => "AUTOTRIM"@,
        DebugMode::AutoTune => "AUTOTUNE"@,
        DebugMode::Baro => "BARO"@,
        DebugMode::Battery => "BATTERY"@,
        DebugMode::BlackboxOutput => "BLACKBOX_OUTPUT"@,
        DebugMode::CrsfLinkStatisticsDown => "CRSF_LINK_STATISTICS_DOWN"@,
        DebugMode::CrsfLinkStatisticsPwr => "CRSF_LINK_STATISTICS_PWR"@,
        DebugMode::CrsfLinkStatisticsUplink => "CRSF_LINK_STATISTICS_UPLINK"@,
        DebugMode::Cruise => "CRUISE"@,
        DebugMode::CurrentSensor => "CURRENT_SENSOR"@,
        DebugMode::Cycletime => "CYCLETIME"@,
        DebugMode::DLpf => "D_LPF"@,
        DebugMode::DMin => "D_MIN"@,
        DebugMode::DshotRpmErrors => "DSHOT_RPM_ERRORS"@,
        DebugMode::DshotRpmTelemetry => "DSHOT_RPM_TELEMETRY"@,
        DebugMode::DualGyroDiff => "DUAL_GYRO_DIFF"@,
        DebugMode::DualGyroRaw => "DUAL_GYRO_RAW"@,
        DebugMode::DualGyroScaled => "DUAL_GYRO_SCALED"@,
        DebugMode::DynIdle => "DYN_IDLE"@,
        DebugMode::DynLpf => "DYN_LPF"@,
        DebugMode::DynamicFilter => "DYNAMIC_FILTER"@,
        DebugMode::DynamicFilterFrequency => "DYNAMIC_FILTER_FREQUENCY"@,
        DebugMode::DynamicGyroLpf => "DYNAMIC_GYRO_LPF"@,
        DebugMode::Erpm => "ERPM"@,
        DebugMode::EscSensor => "ESC_SENSOR"@,
        DebugMode::EscSensorRpm => "ESC_SENSOR_RPM"@,
        DebugMode::EscSensorTmp => "ESC_SENSOR_TMP"@,
        DebugMode::Failsafe => "FAILSAFE"@,
        DebugMode::Feedforward => "FEEDFORWARD"@,
        DebugMode::FeedforwardLimit => "FEEDFORWARD_LIMIT"@,
        DebugMode::FfInterpolated => "FF_INTERPOLATED"@,
        DebugMode::FfLimit => "FF_LIMIT"@,
        DebugMode::Fft => "FFT"@,
        DebugMode::FftFreq => "FFT_FREQ"@,
        DebugMode::FftTime => "FFT_TIME"@,
        DebugMode::Flow => "FLOW"@,
        DebugMode::FlowRaw => "FLOW_RAW"@,
        DebugMode::Fport => "FPORT"@,
        DebugMode::Ghst => "GHST"@,
        DebugMode::GhstMsp => "GHST_MSP"@,
        DebugMode::GpsDop => "GPS_DOP"@,
        DebugMode::GpsRescueHeading => "GPS_RESCUE_HEADING"@,
        DebugMode::GpsRescueThrottlePid => "GPS_RESCUE_THROTTLE_PID"@,
        DebugMode::GpsRescueTracking => "GPS_RESCUE_TRACKING"@,
        DebugMode::GpsRescueVelocity => "GPS_RESCUE_VELOCITY"@,
        DebugMode::Gyro => "GYRO"@,
        DebugMode::GyroFiltered => "GYRO_FILTERED"@,
        DebugMode::GyroRaw => "GYRO_RAW"@,
        DebugMode::GyroSample => "GYRO_SAMPLE"@,
        DebugMode::GyroScaled => "GYRO_SCALED"@,
        DebugMode::Imu2 => "IMU2"@,
        DebugMode::Irlock => "IRLOCK"@,
        DebugMode::ItermRelax => "ITERM_RELAX"@,
        DebugMode::KalmanGain => "KALMAN_GAIN"@,
        DebugMode::Landing => "LANDING"@,
        DebugMode::LidarTf => "LIDAR_TF"@,
        DebugMode::Max7456Signal => "MAX7456_SIGNAL"@,
        DebugMode::Max7456Spiclock => "MAX7456_SPICLOCK"@,
        DebugMode::NavYaw => "NAV_YAW"@,
        DebugMode::Off => "NONE"@,
        DebugMode::Pcf8574 => "PCF8574"@,
        DebugMode::PidMeasurement => "PID_MEASUREMENT"@,
        DebugMode::Pidloop => "PIDLOOP"@,
        DebugMode::PosEst => "POS_EST"@,
        DebugMode::Rangefinder => "RANGEFINDER"@,
        DebugMode::RangefinderQuality => "RANGEFINDER_QUALITY"@,
        DebugMode::RateDynamics => "RATE_DYNAMICS"@,
        DebugMode::RcInterpolation => "RC_INTERPOLATION"@,
        DebugMode::RcSmoothing => "RC_SMOOTHING"@,
        DebugMode::RcSmoothingRate => "RC_SMOOTHING_RATE"@,
        DebugMode::RemFlightTime => "REM_FLIGHT_TIME"@,
        DebugMode::RpmFilter => "RPM_FILTER"@,
        DebugMode::RpmFreq => "RPM_FREQ"@,
        DebugMode::Rth => "RTH"@,
        DebugMode::RunawayTakeoff => "RUNAWAY_TAKEOFF"@,
        DebugMode::RxExpresslrsPhaselock => "RX_EXPRESSLRS_PHASELOCK"@,
        DebugMode::RxExpresslrsSpi => "RX_EXPRESSLRS_SPI"@,
        DebugMode::RxFrskySpi => "RX_FRSKY_SPI"@,
        DebugMode::RxSfhssSpi => "RX_SFHSS_SPI"@,
        DebugMode::RxSignalLoss => "RX_SIGNAL_LOSS"@,
        DebugMode::RxSpektrumSpi => "RX_SPEKTRUM_SPI"@,
        DebugMode::RxStateTime => "RX_STATE_TIME"@,
        DebugMode::RxTiming => "RX_TIMING"@,
        DebugMode::SagCompVoltage => "SAG_COMP_VOLTAGE"@,
        DebugMode::Sbus => "SBUS"@,
        DebugMode::Scheduler => "SCHEDULER"@,
        DebugMode::SchedulerDeterminism => "SCHEDULER_DETERMINISM"@,
        DebugMode::Sdio => "SDIO"@,
        DebugMode::Smartaudio => "SMARTAUDIO"@,
        DebugMode::SmithPredictor => "SMITH_PREDICTOR"@,
        DebugMode::SpmCells => "SPM_CELLS"@,
        DebugMode::SpmVario => "SPM_VARIO"@,
        DebugMode::SpmVs600 => "SPM_VS600"@,
        DebugMode::Stack => "STACK"@,
        DebugMode::TimingAccuracy => "TIMING_ACCURACY"@,
        DebugMode::Usb => "USB"@,
        DebugMode::Vibe => "VIBE"@,
        DebugMode::VtxMsp => "VTX_MSP"@,
        DebugMode::VtxTramp => "VTX_TRAMP"@,
    }
}

/// The debug mode that the raw header value `raw` stands for in logs written by `fw`.
pub open spec fn debug_mode_of(raw: u32, fw: InternalFirmware) -> Option<DebugMode> {
    match (raw, fw) {
        (0u32, InternalFirmware::Betaflight4_2 | InternalFirmware::Betaflight4_3 | InternalFirmware::Betaflight4_4 | InternalFirmware::Inav5 | InternalFirmware::Inav6) => Some(DebugMode::Off),
        (1u32, InternalFirmware::Betaflight4_2 | InternalFirmware::Betaflight4_3 | InternalFirmware::Betaflight4_4) => Some(DebugMode::Cycletime),
        (1u32, InternalFirmware::Inav5) => Some(DebugMode::Gyro),
        (1u32, InternalFirmware::Inav6) => Some(DebugMode::Agl),
        (2u32, InternalFirmware::Betaflight4_2 | InternalFirmware::Betaflight4_3 | InternalFirmware::Betaflight4_4) => Some(DebugMode::Battery),
        (2u32, InternalFirmware::Inav5) => Some(DebugMode::Agl),
        (2u32, InternalFirmware::Inav6) => Some(DebugMode::FlowRaw),
        (3u32, InternalFirmware::Betaflight4_2 | InternalFirmware::Betaflight4_3 | InternalFirmware::Betaflight4_4) => Some(DebugMode::GyroFiltered),
        (3u32, InternalFirmware::Inav5) => Some(DebugMode::FlowRaw),
        (3u32, InternalFirmware::Inav6) => Some(DebugMode::Flow),
        (4u32, InternalFirmware::Betaflight4_2 | InternalFirmware::Betaflight4_3 | InternalFirmware::Betaflight4_4) => Some(DebugMode::Accelerometer),
        (4u32, InternalFirmware::Inav5) => Some(DebugMode::Flow),
        (4u32, InternalFirmware::Inav6) => Some(DebugMode::Always),
        (5u32, InternalFirmware::Betaflight4_2 | InternalFirmware::Betaflight4_3 | InternalFirmware::Betaflight4_4) => Some(DebugMode::Pidloop),
        (5u32, InternalFirmware::Inav5) => Some(DebugMode::Sbus),
        (5u32, InternalFirmware::Inav6) => Some(DebugMode::SagCompVoltage),
        (6u32, InternalFirmware::Betaflight4_2 | InternalFirmware::Betaflight4_3 | InternalFirmware::Betaflight4_4) => Some(DebugMode::GyroScaled),
        (6u32, InternalFirmware::Inav5) => Some(DebugMode::Fport),
        (6u32, InternalFirmware::Inav6) => Some(DebugMode::Vibe),
        (7u32, InternalFirmware::Betaflight4_2 | InternalFirmware::Betaflight4_3 | InternalFirmware::Betaflight4_4) => Some(DebugMode::RcInterpolation),
        (7u32, InternalFirmware::Inav5) => Some(DebugMode::Always),
        (7u32, InternalFirmware::Inav6) => Some(DebugMode::Cruise),
        (8u32, InternalFirmware::Betaflight4_2 | InternalFirmware::Betaflight4_3 | InternalFirmware::Betaflight4_4) => Some(DebugMode::Anglerate),
        (8u32, InternalFirmware::Inav5) => Some(DebugMode::SagCompVoltage),
        (8u32, InternalFirmware::Inav6) => Some(DebugMode::RemFlightTime),
        (9u32, InternalFirmware::Betaflight4_2 | InternalFirmware::Betaflight4_3 | InternalFirmware::Betaflight4_4) => Some(DebugMode::EscSensor),
        (9u32, InternalFirmware::Inav5) => Some(DebugMode::Vibe),
        (9u32, InternalFirmware::Inav6) => Some(DebugMode::Smartaudio),
        (10u32, InternalFirmware::Betaflight4_2 | InternalFirmware::Betaflight4_3 | InternalFirmware::Betaflight4_4) => Some(DebugMode::Scheduler),
        (10u32, InternalFirmware::Inav5) => Some(DebugMode::Cruise),
        (10u32, InternalFirmware::Inav6) => Some(DebugMode::Acc),
        (11u32, InternalFirmware::Betaflight4_2 | InternalFirmware::Betaflight4_3 | InternalFirmware::Betaflight4_4) => Some(DebugMode::Stack),
        (11u32, InternalFirmware::Inav5) => Some(DebugMode::RemFlightTime),
        (11u32, InternalFirmware::Inav6) => Some(DebugMode::NavYaw),
        (12u32, InternalFirmware::Betaflight4_2 | InternalFirmware::Betaflight4_3 | InternalFirmware::Betaflight4_4) => Some(DebugMode::EscSensorRpm),
        (12u32, InternalFirmware::Inav5) => Some(DebugMode::Smartaudio),
        (12u32, InternalFirmware::Inav6) => Some(DebugMode::Pcf8574),
        (13u32, InternalFirmware::Betaflight4_2 | InternalFirmware::Betaflight4_3 | InternalFirmware::Betaflight4_4) => Some(DebugMode::EscSensorTmp),
        (13u32, InternalFirmware::Inav5) => Some(DebugMode::Acc),
        (13u32, InternalFirmware::Inav6) => Some(DebugMode::DynamicGyroLpf),
        (14u32, InternalFirmware::Betaflight4_2 | InternalFirmware::Betaflight4_3 | InternalFirmware::Betaflight4_4) => Some(DebugMode::Altitude),
        (14u32, InternalFirmware::Inav5) => Some(DebugMode::Erpm),
        (14u32, InternalFirmware::Inav6) => Some(DebugMode::AutoLevel),
        (15u32, InternalFirmware::Betaflight4_2 | InternalFirmware::Betaflight4_3 | InternalFirmware::Betaflight4_4) => Some(DebugMode::Fft),
        (15u32, InternalFirmware::Inav5) => Some(DebugMode::RpmFilter),
        (15u32, InternalFirmware::Inav6) => Some(DebugMode::Altitude),
        (16u32, InternalFirmware::Betaflight4_2 | InternalFirmware::Betaflight4_3 | InternalFirmware::Betaflight4_4) => Some(DebugMode::FftTime),
        (16u32, InternalFirmware::Inav5) => Some(DebugMode::RpmFreq),
        (16u32, InternalFirmware::Inav6) => Some(DebugMode::AutoTrim),
        (17u32, InternalFirmware::Betaflight4_2 | InternalFirmware::Betaflight4_3 | InternalFirmware::Betaflight4_4) => Some(DebugMode::FftFreq),
        (17u32, InternalFirmware::Inav5) => Some(DebugMode::NavYaw),
        (17u32, InternalFirmware::Inav6) => Some(DebugMode::AutoTune),
        (18u32, InternalFirmware::Betaflight4_2 | InternalFirmware::Betaflight4_3 | InternalFirmware::Betaflight4_4) => Some(DebugMode::RxFrskySpi),
        (18u32, InternalFirmware::Inav5) => Some(DebugMode::DynamicFilter),
        (18u32, InternalFirmware::Inav6) => Some(DebugMode::RateDynamics),
        (19u32, InternalFirmware::Betaflight4_2 | InternalFirmware::Betaflight4_3 | InternalFirmware::Betaflight4_4) => Some(DebugMode::RxSfhssSpi),
        (19u32, InternalFirmware::Inav5) => Some(DebugMode::DynamicFilterFrequency),
        (19u32, InternalFirmware::Inav6) => Some(DebugMode::Landing),
        (20u32, InternalFirmware::Betaflight4_2 | InternalFirmware::Betaflight4_3 | InternalFirmware::Betaflight4_4) => Some(DebugMode::GyroRaw),
        (20u32, InternalFirmware::Inav5) => Some(DebugMode::Irlock),
        (20u32, InternalFirmware::Inav6) => Some(DebugMode::PosEst),
        (21u32, InternalFirmware::Betaflight4_2 | InternalFirmware::Betaflight4_3 | InternalFirmware::Betaflight4_4) => Some(DebugMode::DualGyroRaw),
        (21u32, InternalFirmware::Inav5) => Some(DebugMode::KalmanGain),
        (22u32, InternalFirmware::Betaflight4_2 | InternalFirmware::Betaflight4_3 | InternalFirmware::Betaflight4_4) => Some(DebugMode::DualGyroDiff),
        (22u32, InternalFirmware::Inav5) => Some(DebugMode::PidMeasurement),
        (23u32, InternalFirmware::Betaflight4_2 | InternalFirmware::Betaflight4_3 | InternalFirmware::Betaflight4_4) => Some(DebugMode::Max7456Signal),
        (23u32, InternalFirmware::Inav5) => Some(DebugMode::SpmCells),
        (24u32, InternalFirmware::Betaflight4_2 | InternalFirmware::Betaflight4_3 | InternalFirmware::Betaflight4_4) => Some(DebugMode::Max7456Spiclock),
        (24u32, InternalFirmware::Inav5) => Some(DebugMode::SpmVs600),
        (25u32, InternalFirmware::Betaflight4_2 | InternalFirmware::Betaflight4_3 | InternalFirmware::Betaflight4_4) => Some(DebugMode::Sbus),
        (25u32, InternalFirmware::Inav5) => Some(DebugMode::SpmVario),
        (26u32, InternalFirmware::Betaflight4_2 | InternalFirmware::Betaflight4_3 | InternalFirmware::Betaflight4_4) => Some(DebugMode::Fport),
        (26u32, InternalFirmware::Inav5) => Some(DebugMode::Pcf8574),
        (27u32, InternalFirmware::Betaflight4_2 | InternalFirmware::Betaflight4_3 | InternalFirmware::Betaflight4_4) => Some(DebugMode::Rangefinder),
        (27u32, InternalFirmware::Inav5) => Some(DebugMode::DynamicGyroLpf),
        (28u32, InternalFirmware::Betaflight4_2 | InternalFirmware::Betaflight4_3 | InternalFirmware::Betaflight4_4) => Some(DebugMode::RangefinderQuality),
        (28u32, InternalFirmware::Inav5) => Some(DebugMode::AutoLevel),
        (29u32, InternalFirmware::Betaflight4_2 | InternalFirmware::Betaflight4_3 | InternalFirmware::Betaflight4_4) => Some(DebugMode::LidarTf),
        (29u32, InternalFirmware::Inav5) => Some(DebugMode::Imu2),
        (30u32, InternalFirmware::Betaflight4_2 | InternalFirmware::Betaflight4_3 | InternalFirmware::Betaflight4_4) => Some(DebugMode::AdcInternal),
        (30u32, InternalFirmware::Inav5) => Some(DebugMode::Altitude),
        (31u32, InternalFirmware::Betaflight4_2 | InternalFirmware::Betaflight4_3 | InternalFirmware::Betaflight4_4) => Some(DebugMode::RunawayTakeoff),
        (31u32, InternalFirmware::Inav5) => Some(DebugMode::SmithPredictor),
        (32u32, InternalFirmware::Betaflight4_2 | InternalFirmware::Betaflight4_3 | InternalFirmware::Betaflight4_4) => Some(DebugMode::Sdio),
        (32u32, InternalFirmware::Inav5) => Some(DebugMode::AutoTrim),
        (33u32, InternalFirmware::Betaflight4_2 | InternalFirmware::Betaflight4_3 | InternalFirmware::Betaflight4_4) => Some(DebugMode::CurrentSensor),
        (33u32, InternalFirmware::Inav5) => Some(DebugMode::AutoTune),
        (34u32, InternalFirmware::Betaflight4_2 | InternalFirmware::Betaflight4_3 | InternalFirmware::Betaflight4_4) => Some(DebugMode::Usb),
        (34u32, InternalFirmware::Inav5) => Some(DebugMode::RateDynamics),
        (35u32, InternalFirmware::Betaflight4_2 | InternalFirmware::Betaflight4_3 | InternalFirmware::Betaflight4_4) => Some(DebugMode::Smartaudio),
        (35u32, InternalFirmware::Inav5) => Some(DebugMode::Landing),
        (36u32, InternalFirmware::Betaflight4_2 | InternalFirmware::Betaflight4_3 | InternalFirmware::Betaflight4_4) => Some(DebugMode::Rth),
        (37u32, InternalFirmware::Betaflight4_2 | InternalFirmware::Betaflight4_3 | InternalFirmware::Betaflight4_4) => Some(DebugMode::ItermRelax),
        (38u32, InternalFirmware::Betaflight4_2 | InternalFirmware::Betaflight4_3 | InternalFirmware::Betaflight4_4) => Some(DebugMode::AcroTrainer),
        (39u32, InternalFirmware::Betaflight4_2 | InternalFirmware::Betaflight4_3 | InternalFirmware::Betaflight4_4) => Some(DebugMode::RcSmoothing),
        (40u32, InternalFirmware::Betaflight4_2 | InternalFirmware::Betaflight4_3 | InternalFirmware::Betaflight4_4) => Some(DebugMode::RxSignalLoss),
        (41u32, InternalFirmware::Betaflight4_2 | InternalFirmware::Betaflight4_3 | InternalFirmware::Betaflight4_4) => Some(DebugMode::RcSmoothingRate),
        (42u32, InternalFirmware::Betaflight4_2 | InternalFirmware::Betaflight4_3 | InternalFirmware::Betaflight4_4) => Some(DebugMode::AntiGravity),
        (43u32, InternalFirmware::Betaflight4_2 | InternalFirmware::Betaflight4_3 | InternalFirmware::Betaflight4_4) => Some(DebugMode::DynLpf),
        (44u32, InternalFirmware::Betaflight4_2 | InternalFirmware::Betaflight4_3 | InternalFirmware::Betaflight4_4) => Some(DebugMode::RxSpektrumSpi),
        (45u32, InternalFirmware::Betaflight4_2 | InternalFirmware::Betaflight4_3 | InternalFirmware::Betaflight4_4) => Some(DebugMode::DshotRpmTelemetry),
        (46u32, InternalFirmware::Betaflight4_2 | InternalFirmware::Betaflight4_3 | InternalFirmware::Betaflight4_4) => Some(DebugMode::RpmFilter),
        (47u32, InternalFirmware::Betaflight4_2 | InternalFirmware::Betaflight4_3 | InternalFirmware::Betaflight4_4) => Some(DebugMode::DMin),
        (48u32, InternalFirmware::Betaflight4_2 | InternalFirmware::Betaflight4_3 | InternalFirmware::Betaflight4_4) => Some(DebugMode::AcCorrection),
        (49u32, InternalFirmware::Betaflight4_2 | InternalFirmware::Betaflight4_3 | InternalFirmware::Betaflight4_4) => Some(DebugMode::AcError),
        (50u32, InternalFirmware::Betaflight4_2 | InternalFirmware::Betaflight4_3 | InternalFirmware::Betaflight4_4) => Some(DebugMode::DualGyroScaled),
        (51u32, InternalFirmware::Betaflight4_2 | InternalFirmware::Betaflight4_3 | InternalFirmware::Betaflight4_4) => Some(DebugMode::DshotRpmErrors),
        (52u32, InternalFirmware::Betaflight4_2 | InternalFirmware::Betaflight4_3 | InternalFirmware::Betaflight4_4) => Some(DebugMode::CrsfLinkStatisticsUplink),
        (53u32, InternalFirmware::Betaflight4_2 | InternalFirmware::Betaflight4_3 | InternalFirmware::Betaflight4_4) => Some(DebugMode::CrsfLinkStatisticsPwr),
        (54u32, InternalFirmware::Betaflight4_2 | InternalFirmware::Betaflight4_3 | InternalFirmware::Betaflight4_4) => Some(DebugMode::CrsfLinkStatisticsDown),
        (55u32, InternalFirmware::Betaflight4_2 | InternalFirmware::Betaflight4_3 | InternalFirmware::Betaflight4_4) => Some(DebugMode::Baro),
        (56u32, InternalFirmware::Betaflight4_2 | InternalFirmware::Betaflight4_3 | InternalFirmware::Betaflight4_4) => Some(DebugMode::GpsRescueThrottlePid),
        (57u32, InternalFirmware::Betaflight4_2 | InternalFirmware::Betaflight4_3 | InternalFirmware::Betaflight4_4) => Some(DebugMode::DynIdle),
        (58u32, InternalFirmware::Betaflight4_2) => Some(DebugMode::FfLimit),
        (58u32, InternalFirmware::Betaflight4_3 | InternalFirmware::Betaflight4_4) => Some(DebugMode::FeedforwardLimit),
        (59u32, InternalFirmware::Betaflight4_2) => Some(DebugMode::FfInterpolated),
        (59u32, InternalFirmware::Betaflight4_3 | InternalFirmware::Betaflight4_4) => Some(DebugMode::Feedforward),
        (60u32, InternalFirmware::Betaflight4_2 | InternalFirmware::Betaflight4_3 | InternalFirmware::Betaflight4_4) => Some(DebugMode::BlackboxOutput),
        (61u32, InternalFirmware::Betaflight4_2 | InternalFirmware::Betaflight4_3 | InternalFirmware::Betaflight4_4) => Some(DebugMode::GyroSample),
        (62u32, InternalFirmware::Betaflight4_2 | InternalFirmware::Betaflight4_3 | InternalFirmware::Betaflight4_4) => Some(DebugMode::RxTiming),
        (63u32, InternalFirmware::Betaflight4_3 | InternalFirmware::Betaflight4_4) => Some(DebugMode::DLpf),
        (64u32, InternalFirmware::Betaflight4_3 | InternalFirmware::Betaflight4_4) => Some(DebugMode::VtxTramp),
        (65u32, InternalFirmware::Betaflight4_3 | InternalFirmware::Betaflight4_4) => Some(DebugMode::Ghst),
        (66u32, InternalFirmware::Betaflight4_3) => Some(DebugMode::SchedulerDeterminism),
        (66u32, InternalFirmware::Betaflight4_4) => Some(DebugMode::GhstMsp),
        (67u32, InternalFirmware::Betaflight4_3) => Some(DebugMode::TimingAccuracy),
        (67u32, InternalFirmware::Betaflight4_4) => Some(DebugMode::SchedulerDeterminism),
        (68u32, InternalFirmware::Betaflight4_3) => Some(DebugMode::RxExpresslrsSpi),
        (68u32, InternalFirmware::Betaflight4_4) => Some(DebugMode::TimingAccuracy),
        (69u32, InternalFirmware::Betaflight4_3) => Some(DebugMode::RxExpresslrsPhaselock),
        (69u32, InternalFirmware::Betaflight4_4) => Some(DebugMode::RxExpresslrsSpi),
        (70u32, InternalFirmware::Betaflight4_3) => Some(DebugMode::RxStateTime),
        (70u32, InternalFirmware::Betaflight4_4) => Some(DebugMode::RxExpresslrsPhaselock),
        (71u32, InternalFirmware::Betaflight4_4) => Some(DebugMode::RxStateTime),
        (72u32, InternalFirmware::Betaflight4_4) => Some(DebugMode::GpsRescueVelocity),
        (73u32, InternalFirmware::Betaflight4_4) => Some(DebugMode::GpsRescueHeading),
        (74u32, InternalFirmware::Betaflight4_4) => Some(DebugMode::GpsRescueTracking),
        (75u32, InternalFirmware::Betaflight4_4) => Some(DebugMode::Attitude),
        (76u32, InternalFirmware::Betaflight4_4) => Some(DebugMode::VtxMsp),
        (77u32, InternalFirmware::Betaflight4_4) => Some(DebugMode::GpsDop),
        (78u32, InternalFirmware::Betaflight4_4) => Some(DebugMode::Failsafe),
        _ => None,
    }
}

impl DebugMode {
    /// The name that the firmware gives this value.
    pub fn as_name(&self) -> (name: &'static str)
        ensures
            name@ == debug_mode_name(*self),
    {
        match self {
            DebugMode::AcCorrection => "AC_CORRECTION",
            DebugMode::AcError => "AC_ERROR",
            DebugMode::Acc => "ACC",
            DebugMode::Accelerometer => "ACCELEROMETER",
            DebugMode::AcroTrainer => "ACRO_TRAINER",
            DebugMode::AdcInternal => "ADC_INTERNAL",
            DebugMode::Agl => "AGL",
            DebugMode::Altitude => "ALTITUDE",
            DebugMode::Always => "ALWAYS",
            DebugMode::Anglerate => "ANGLERATE",
            DebugMode::AntiGravity => "ANTI_GRAVITY",
            DebugMode::Attitude => "ATTITUDE",
            DebugMode::AutoLevel => "AUTOLEVEL",
            DebugMode::AutoTrim => "AUTOTRIM",
            DebugMode::AutoTune => "AUTOTUNE",
            DebugMode::Baro => "BARO",
            DebugMode::Battery => "BATTERY",
            DebugMode::BlackboxOutput => "BLACKBOX_OUTPUT",
            DebugMode::CrsfLinkStatisticsDown => "CRSF_LINK_STATISTICS_DOWN",
            DebugMode::CrsfLinkStatisticsPwr => "CRSF_LINK_STATISTICS_PWR",
            DebugMode::CrsfLinkStatisticsUplink => "CRSF_LINK_STATISTICS_UPLINK",
            DebugMode::Cruise => "CRUISE",
            DebugMode::CurrentSensor => "CURRENT_SENSOR",
            DebugMode::Cycletime => "CYCLETIME",
            DebugMode::DLpf => "D_LPF",
            DebugMode::DMin => "D_MIN",
            DebugMode::DshotRpmErrors => "DSHOT_RPM_ERRORS",
            DebugMode::DshotRpmTelemetry => "DSHOT_RPM_TELEMETRY",
            DebugMode::DualGyroDiff => "DUAL_GYRO_DIFF",
            DebugMode::DualGyroRaw => "DUAL_GYRO_RAW",
            DebugMode::DualGyroScaled => "DUAL_GYRO_SCALED",
            DebugMode::DynIdle => "DYN_IDLE",
            DebugMode::DynLpf => "DYN_LPF",
            DebugMode::DynamicFilter => "DYNAMIC_FILTER",
            DebugMode::DynamicFilterFrequency => "DYNAMIC_FILTER_FREQUENCY",
            DebugMode::DynamicGyroLpf => "DYNAMIC_GYRO_LPF",
            DebugMode::Erpm => "ERPM",
            DebugMode::EscSensor => "ESC_SENSOR",
            DebugMode::EscSensorRpm => "ESC_SENSOR_RPM",
            DebugMode::EscSensorTmp => "ESC_SENSOR_TMP",
            DebugMode::Failsafe => "FAILSAFE",
            DebugMode::Feedforward => "FEEDFORWARD",
            DebugMode::FeedforwardLimit => "FEEDFORWARD_LIMIT",
            DebugMode::FfInterpolated => "FF_INTERPOLATED",
            DebugMode::FfLimit => "FF_LIMIT",
            DebugMode::Fft => "FFT",
            DebugMode::FftFreq => "FFT_FREQ",
            DebugMode::FftTime => "FFT_TIME",
            DebugMode::Flow => "FLOW",
            DebugMode::FlowRaw => "FLOW_RAW",
            DebugMode::Fport => "FPORT",
            DebugMode::Ghst => "GHST",
            DebugMode::GhstMsp => "GHST_MSP",
            DebugMode::GpsDop => "GPS_DOP",
            DebugMode::GpsRescueHeading => "GPS_RESCUE_HEADING",
            DebugMode::GpsRescueThrottlePid => "GPS_RESCUE_THROTTLE_PID",
            DebugMode::GpsRescueTracking => "GPS_RESCUE_TRACKING",
            DebugMode::GpsRescueVelocity => "GPS_RESCUE_VELOCITY",
            DebugMode::Gyro => "GYRO",
            DebugMode::GyroFiltered => "GYRO_FILTERED",
            DebugMode::GyroRaw => "GYRO_RAW",
            DebugMode::GyroSample => "GYRO_SAMPLE",
            DebugMode::GyroScaled => "GYRO_SCALED",
            DebugMode::Imu2 => "IMU2",
            DebugMode::Irlock => "IRLOCK",
            DebugMode::ItermRelax => "ITERM_RELAX",
            DebugMode::KalmanGain => "KALMAN_GAIN",
            DebugMode::Landing => "LANDING",
            DebugMode::LidarTf => "LIDAR_TF",
            DebugMode::Max7456Signal => "MAX7456_SIGNAL",
            DebugMode::Max7456Spiclock => "MAX7456_SPICLOCK",
            DebugMode::NavYaw => "NAV_YAW",
            DebugMode::Off => "NONE",
            DebugMode::Pcf8574 => "PCF8574",
            DebugMode::PidMeasurement => "PID_MEASUREMENT",
            DebugMode::Pidloop => "PIDLOOP",
            DebugMode::PosEst => "POS_EST",
            DebugMode::Rangefinder => "RANGEFINDER",
            DebugMode::RangefinderQuality => "RANGEFINDER_QUALITY",
            DebugMode::RateDynamics => "RATE_DYNAMICS",
            DebugMode::RcInterpolation => "RC_INTERPOLATION",
            DebugMode::RcSmoothing => "RC_SMOOTHING",
            DebugMode::RcSmoothingRate => "RC_SMOOTHING_RATE",
            DebugMode::RemFlightTime => "REM_FLIGHT_TIME",
            DebugMode::RpmFilter => "RPM_FILTER",
            DebugMode::RpmFreq => "RPM_FREQ",
            DebugMode::Rth => "RTH",
            DebugMode::RunawayTakeoff => "RUNAWAY_TAKEOFF",
            DebugMode::RxExpresslrsPhaselock => "RX_EXPRESSLRS_PHASELOCK",
            DebugMode::RxExpresslrsSpi => "RX_EXPRESSLRS_SPI",
            DebugMode::RxFrskySpi => "RX_FRSKY_SPI",
            DebugMode::RxSfhssSpi => "RX_SFHSS_SPI",
            DebugMode::RxSignalLoss => "RX_SIGNAL_LOSS",
            DebugMode::RxSpektrumSpi => "RX_SPEKTRUM_SPI",
            DebugMode::RxStateTime => "RX_STATE_TIME",
            DebugMode::RxTiming => "RX_TIMING",
            DebugMode::SagCompVoltage => "SAG_COMP_VOLTAGE",
            DebugMode::Sbus => "SBUS",
            DebugMode::Scheduler => "SCHEDULER",
            DebugMode::SchedulerDeterminism => "SCHEDULER_DETERMINISM",
            DebugMode::Sdio => "SDIO",
            DebugMode::Smartaudio => "SMARTAUDIO",
            DebugMode::SmithPredictor => "SMITH_PREDICTOR",
            DebugMode::SpmCells => "SPM_CELLS",
            DebugMode::SpmVario => "SPM_VARIO",
            DebugMode::SpmVs600 => "SPM_VS600",
            DebugMode::Stack => "STACK",
            DebugMode::TimingAccuracy => "TIMING_ACCURACY",
            DebugMode::Usb => "USB",
            DebugMode::Vibe => "VIBE",
            DebugMode::VtxMsp => "VTX_MSP",
            DebugMode::VtxTramp => "VTX_TRAMP",
        }
    }

    /// Reads the raw header value `raw` as written by `fw`.
    pub fn new(raw: u32, fw: InternalFirmware) -> (value: Option<DebugMode>)
        ensures
            value == debug_mode_of(raw, fw),
    {
        match (raw, fw) {
            (0u32, InternalFirmware::Betaflight4_2 | InternalFirmware::Betaflight4_3 | InternalFirmware::Betaflight4_4 | InternalFirmware::Inav5 | InternalFirmware::Inav6) => Some(DebugMode::Off),
            (1u32, InternalFirmware::Betaflight4_2 | InternalFirmware::Betaflight4_3 | InternalFirmware::Betaflight4_4) => Some(DebugMode::Cycletime),
            (1u32, InternalFirmware::Inav5) => Some(DebugMode::Gyro),
            (1u32, InternalFirmware::Inav6) => Some(DebugMode::Agl),
            (2u32, InternalFirmware::Betaflight4_2 | InternalFirmware::Betaflight4_3 | InternalFirmware::Betaflight4_4) => Some(DebugMode::Battery),
            (2u32, InternalFirmware::Inav5) => Some(DebugMode::Agl),
            (2u32, InternalFirmware::Inav6) => Some(DebugMode::FlowRaw),
            (3u32, InternalFirmware::Betaflight4_2 | InternalFirmware::Betaflight4_3 | InternalFirmware::Betaflight4_4) => Some(DebugMode::GyroFiltered),
            (3u32, InternalFirmware::Inav5) => Some(DebugMode::FlowRaw),
            (3u32, InternalFirmware::Inav6) => Some(DebugMode::Flow),
            (4u32, InternalFirmware::Betaflight4_2 | InternalFirmware::Betaflight4_3 | InternalFirmware::Betaflight4_4) => Some(DebugMode::Accelerometer),
            (4u32, InternalFirmware::Inav5) => Some(DebugMode::Flow),
            (4u32, InternalFirmware::Inav6) => Some(DebugMode::Always),
            (5u32, InternalFirmware::Betaflight4_2 | InternalFirmware::Betaflight4_3 | InternalFirmware::Betaflight4_4) => Some(DebugMode::Pidloop),
            (5u32, InternalFirmware::Inav5) => Some(DebugMode::Sbus),
            (5u32, InternalFirmware::Inav6) => Some(DebugMode::SagCompVoltage),
            (6u32, InternalFirmware::Betaflight4_2 | InternalFirmware::Betaflight4_3 | InternalFirmware::Betaflight4_4) => Some(DebugMode::GyroScaled),
            (6u32, InternalFirmware::Inav5) => Some(DebugMode::Fport),
            (6u32, InternalFirmware::Inav6) => Some(DebugMode::Vibe),
            (7u32, InternalFirmware::Betaflight4_2 | InternalFirmware::Betaflight4_3 | InternalFirmware::Betaflight4_4) => Some(DebugMode::RcInterpolation),
            (7u32, InternalFirmware::Inav5) => Some(DebugMode::Always),
            (7u32, InternalFirmware::Inav6) => Some(DebugMode::Cruise),
            (8u32, InternalFirmware::Betaflight4_2 | InternalFirmware::Betaflight4_3 | InternalFirmware::Betaflight4_4) => Some(DebugMode::Anglerate),
            (8u32, InternalFirmware::Inav5) => Some(DebugMode::SagCompVoltage),
            (8u32, InternalFirmware::Inav6) => Some(DebugMode::RemFlightTime),
            (9u32, InternalFirmware::Betaflight4_2 | InternalFirmware::Betaflight4_3 | InternalFirmware::Betaflight4_4) => Some(DebugMode::EscSensor),
            (9u32, InternalFirmware::Inav5) => Some(DebugMode::Vibe),
            (9u32, InternalFirmware::Inav6) => Some(DebugMode::Smartaudio),
            (10u32, InternalFirmware::Betaflight4_2 | InternalFirmware::Betaflight4_3 | InternalFirmware::Betaflight4_4) => Some(DebugMode::Scheduler),
            (10u32, InternalFirmware::Inav5) => Some(DebugMode::Cruise),
            (10u32, InternalFirmware::Inav6) => Some(DebugMode::Acc),
            (11u32, InternalFirmware::Betaflight4_2 | InternalFirmware::Betaflight4_3 | InternalFirmware::Betaflight4_4) => Some(DebugMode::Stack),
            (11u32, InternalFirmware::Inav5) => Some(DebugMode::RemFlightTime),
            (11u32, InternalFirmware::Inav6) => Some(DebugMode::NavYaw),
            (12u32, InternalFirmware::Betaflight4_2 | InternalFirmware::Betaflight4_3 | InternalFirmware::Betaflight4_4) => Some(DebugMode::EscSensorRpm),
            (12u32, InternalFirmware::Inav5) => Some(DebugMode::Smartaudio),
            (12u32, InternalFirmware::Inav6) => Some(DebugMode::Pcf8574),
            (13u32, InternalFirmware::Betaflight4_2 | InternalFirmware::Betaflight4_3 | InternalFirmware::Betaflight4_4) => Some(DebugMode::EscSensorTmp),
            (13u32, InternalFirmware::Inav5) => Some(DebugMode::Acc),
            (13u32, InternalFirmware::Inav6) => Some(DebugMode::DynamicGyroLpf),
            (14u32, InternalFirmware::Betaflight4_2 | InternalFirmware::Betaflight4_3 | InternalFirmware::Betaflight4_4) => Some(DebugMode::Altitude),
            (14u32, InternalFirmware::Inav5) => Some(DebugMode::Erpm),
            (14u32, InternalFirmware::Inav6) => Some(DebugMode::AutoLevel),
            (15u32, InternalFirmware::Betaflight4_2 | InternalFirmware::Betaflight4_3 | InternalFirmware::Betaflight4_4) => Some(DebugMode::Fft),
            (15u32, InternalFirmware::Inav5) => Some(DebugMode::RpmFilter),
            (15u32, InternalFirmware::Inav6) => Some(DebugMode::Altitude),
            (16u32, InternalFirmware::Betaflight4_2 | InternalFirmware::Betaflight4_3 | InternalFirmware::Betaflight4_4) => Some(DebugMode::FftTime),
            (16u32, InternalFirmware::Inav5) => Some(DebugMode::RpmFreq),
            (16u32, InternalFirmware::Inav6) => Some(DebugMode::AutoTrim),
            (17u32, InternalFirmware::Betaflight4_2 | InternalFirmware::Betaflight4_3 | InternalFirmware::Betaflight4_4) => Some(DebugMode::FftFreq),
            (17u32, InternalFirmware::Inav5) => Some(DebugMode::NavYaw),
            (17u32, InternalFirmware::Inav6) => Some(DebugMode::AutoTune),
            (18u32, InternalFirmware::Betaflight4_2 | InternalFirmware::Betaflight4_3 | InternalFirmware::Betaflight4_4) => Some(DebugMode::RxFrskySpi),
            (18u32, InternalFirmware::Inav5) => Some(DebugMode::DynamicFilter),
            (18u32, InternalFirmware::Inav6) => Some(DebugMode::RateDynamics),
            (19u32, InternalFirmware::Betaflight4_2 | InternalFirmware::Betaflight4_3 | InternalFirmware::Betaflight4_4) => Some(DebugMode::RxSfhssSpi),
            (19u32, InternalFirmware::Inav5) => Some(DebugMode::DynamicFilterFrequency),
            (19u32, InternalFirmware::Inav6) => Some(DebugMode::Landing),
            (20u32, InternalFirmware::Betaflight4_2 | InternalFirmware::Betaflight4_3 | InternalFirmware::Betaflight4_4) => Some(DebugMode::GyroRaw),
            (20u32, InternalFirmware::Inav5) => Some(DebugMode::Irlock),
            (20u32, InternalFirmware::Inav6) => Some(DebugMode::PosEst),
            (21u32, InternalFirmware::Betaflight4_2 | InternalFirmware::Betaflight4_3 | InternalFirmware::Betaflight4_4) => Some(DebugMode::DualGyroRaw),
            (21u32, InternalFirmware::Inav5) => Some(DebugMode::KalmanGain),
            (22u32, InternalFirmware::Betaflight4_2 | InternalFirmware::Betaflight4_3 | InternalFirmware::Betaflight4_4) => Some(DebugMode::DualGyroDiff),
            (22u32, InternalFirmware::Inav5) => Some(DebugMode::PidMeasurement),
            (23u32, InternalFirmware::Betaflight4_2 | InternalFirmware::Betaflight4_3 | InternalFirmware::Betaflight4_4) => Some(DebugMode::Max7456Signal),
            (23u32, InternalFirmware::Inav5) => Some(DebugMode::SpmCells),
            (24u32, InternalFirmware::Betaflight4_2 | InternalFirmware::Betaflight4_3 | InternalFirmware::Betaflight4_4) => Some(DebugMode::Max7456Spiclock),
            (24u32, InternalFirmware::Inav5) => Some(DebugMode::SpmVs600),
            (25u32, InternalFirmware::Betaflight4_2 | InternalFirmware::Betaflight4_3 | InternalFirmware::Betaflight4_4) => Some(DebugMode::Sbus),
            (25u32, InternalFirmware::Inav5) => Some(DebugMode::SpmVario),
            (26u32, InternalFirmware::Betaflight4_2 | InternalFirmware::Betaflight4_3 | InternalFirmware::Betaflight4_4) => Some(DebugMode::Fport),
            (26u32, InternalFirmware::Inav5) => Some(DebugMode::Pcf8574),
            (27u32, InternalFirmware::Betaflight4_2 | InternalFirmware::Betaflight4_3 | InternalFirmware::Betaflight4_4) => Some(DebugMode::Rangefinder),
            (27u32, InternalFirmware::Inav5) => Some(DebugMode::DynamicGyroLpf),
            (28u32, InternalFirmware::Betaflight4_2 | InternalFirmware::Betaflight4_3 | InternalFirmware::Betaflight4_4) => Some(DebugMode::RangefinderQuality),
            (28u32, InternalFirmware::Inav5) => Some(DebugMode::AutoLevel),
            (29u32, InternalFirmware::Betaflight4_2 | InternalFirmware::Betaflight4_3 | InternalFirmware::Betaflight4_4) => Some(DebugMode::LidarTf),
            (29u32, InternalFirmware::Inav5) => Some(DebugMode::Imu2),
            (30u32, InternalFirmware::Betaflight4_2 | InternalFirmware::Betaflight4_3 | InternalFirmware::Betaflight4_4) => Some(DebugMode::AdcInternal),
            (30u32, InternalFirmware::Inav5) => Some(DebugMode::Altitude),
            (31u32, InternalFirmware::Betaflight4_2 | InternalFirmware::Betaflight4_3 | InternalFirmware::Betaflight4_4) => Some(DebugMode::RunawayTakeoff),
            (31u32, InternalFirmware::Inav5) => Some(DebugMode::SmithPredictor),
            (32u32, InternalFirmware::Betaflight4_2 | InternalFirmware::Betaflight4_3 | InternalFirmware::Betaflight4_4) => Some(DebugMode::Sdio),
            (32u32, InternalFirmware::Inav5) => Some(DebugMode::AutoTrim),
            (33u32, InternalFirmware::Betaflight4_2 | InternalFirmware::Betaflight4_3 | InternalFirmware::Betaflight4_4) => Some(DebugMode::CurrentSensor),
            (33u32, InternalFirmware::Inav5) => Some(DebugMode::AutoTune),
            (34u32, InternalFirmware::Betaflight4_2 | InternalFirmware::Betaflight4_3 | InternalFirmware::Betaflight4_4) => Some(DebugMode::Usb),
            (34u32, InternalFirmware::Inav5) => Some(DebugMode::RateDynamics),
            (35u32, InternalFirmware::Betaflight4_2 | InternalFirmware::Betaflight4_3 | InternalFirmware::Betaflight4_4) => Some(DebugMode::Smartaudio),
            (35u32, InternalFirmware::Inav5) => Some(DebugMode::Landing),
            (36u32, InternalFirmware::Betaflight4_2 | InternalFirmware::Betaflight4_3 | InternalFirmware::Betaflight4_4) => Some(DebugMode::Rth),
            (37u32, InternalFirmware::Betaflight4_2 | InternalFirmware::Betaflight4_3 | InternalFirmware::Betaflight4_4) => Some(DebugMode::ItermRelax),
            (38u32, InternalFirmware::Betaflight4_2 | InternalFirmware::Betaflight4_3 | InternalFirmware::Betaflight4_4) => Some(DebugMode::AcroTrainer),
            (39u32, InternalFirmware::Betaflight4_2 | InternalFirmware::Betaflight4_3 | InternalFirmware::Betaflight4_4) => Some(DebugMode::RcSmoothing),
            (40u32, InternalFirmware::Betaflight4_2 | InternalFirmware::Betaflight4_3 | InternalFirmware::Betaflight4_4) => Some(DebugMode::RxSignalLoss),
            (41u32, InternalFirmware::Betaflight4_2 | InternalFirmware::Betaflight4_3 | InternalFirmware::Betaflight4_4) => Some(DebugMode::RcSmoothingRate),
            (42u32, InternalFirmware::Betaflight4_2 | InternalFirmware::Betaflight4_3 | InternalFirmware::Betaflight4_4) => Some(DebugMode::AntiGravity),
            (43u32, InternalFirmware::Betaflight4_2 | InternalFirmware::Betaflight4_3 | InternalFirmware::Betaflight4_4) => Some(DebugMode::DynLpf),
            (44u32, InternalFirmware::Betaflight4_2 | InternalFirmware::Betaflight4_3 | InternalFirmware::Betaflight4_4) => Some(DebugMode::RxSpektrumSpi),
            (45u32, InternalFirmware::Betaflight4_2 | InternalFirmware::Betaflight4_3 | InternalFirmware::Betaflight4_4) => Some(DebugMode::DshotRpmTelemetry),
            (46u32, InternalFirmware::Betaflight4_2 | InternalFirmware::Betaflight4_3 | InternalFirmware::Betaflight4_4) => Some(DebugMode::RpmFilter),
            (47u32, InternalFirmware::Betaflight4_2 | InternalFirmware::Betaflight4_3 | InternalFirmware::Betaflight4_4) => Some(DebugMode::DMin),
            (48u32, InternalFirmware::Betaflight4_2 | InternalFirmware::Betaflight4_3 | InternalFirmware::Betaflight4_4) => Some(DebugMode::AcCorrection),
            (49u32, InternalFirmware::Betaflight4_2 | InternalFirmware::Betaflight4_3 | InternalFirmware::Betaflight4_4) => Some(DebugMode::AcError),
            (50u32, InternalFirmware::Betaflight4_2 | InternalFirmware::Betaflight4_3 | InternalFirmware::Betaflight4_4) => Some(DebugMode::DualGyroScaled),
            (51u32, InternalFirmware::Betaflight4_2 | InternalFirmware::Betaflight4_3 | InternalFirmware::Betaflight4_4) => Some(DebugMode::DshotRpmErrors),
            (52u32, InternalFirmware::Betaflight4_2 | InternalFirmware::Betaflight4_3 | InternalFirmware::Betaflight4_4) => Some(DebugMode::CrsfLinkStatisticsUplink),
            (53u32, InternalFirmware::Betaflight4_2 | InternalFirmware::Betaflight4_3 | InternalFirmware::Betaflight4_4) => Some(DebugMode::CrsfLinkStatisticsPwr),
            (54u32, InternalFirmware::Betaflight4_2 | InternalFirmware::Betaflight4_3 | InternalFirmware::Betaflight4_4) => Some(DebugMode::CrsfLinkStatisticsDown),
            (55u32, InternalFirmware::Betaflight4_2 | InternalFirmware::Betaflight4_3 | InternalFirmware::Betaflight4_4) => Some(DebugMode::Baro),
            (56u32, InternalFirmware::Betaflight4_2 | InternalFirmware::Betaflight4_3 | InternalFirmware::Betaflight4_4) => Some(DebugMode::GpsRescueThrottlePid),
            (57u32, InternalFirmware::Betaflight4_2 | InternalFirmware::Betaflight4_3 | InternalFirmware::Betaflight4_4) => Some(DebugMode::DynIdle),
            (58u32, InternalFirmware::Betaflight4_2) => Some(DebugMode::FfLimit),
            (58u32, InternalFirmware::Betaflight4_3 | InternalFirmware::Betaflight4_4) => Some(DebugMode::FeedforwardLimit),
            (59u32, InternalFirmware::Betaflight4_2) => Some(DebugMode::FfInterpolated),
            (59u32, InternalFirmware::Betaflight4_3 | InternalFirmware::Betaflight4_4) => Some(DebugMode::Feedforward),
            (60u32, InternalFirmware::Betaflight4_2 | InternalFirmware::Betaflight4_3 | InternalFirmware::Betaflight4_4) => Some(DebugMode::BlackboxOutput),
            (61u32, InternalFirmware::Betaflight4_2 | InternalFirmware::Betaflight4_3 | InternalFirmware::Betaflight4_4) => Some(DebugMode::GyroSample),
            (62u32, InternalFirmware::Betaflight4_2 | InternalFirmware::Betaflight4_3 | InternalFirmware::Betaflight4_4) => Some(DebugMode::RxTiming),
            (63u32, InternalFirmware::Betaflight4_3 | InternalFirmware::Betaflight4_4) => Some(DebugMode::DLpf),
            (64u32, InternalFirmware::Betaflight4_3 | InternalFirmware::Betaflight4_4) => Some(DebugMode::VtxTramp),
            (65u32, InternalFirmware::Betaflight4_3 | InternalFirmware::Betaflight4_4) => Some(DebugMode::Ghst),
            (66u32, InternalFirmware::Betaflight4_3) => Some(DebugMode::SchedulerDeterminism),
            (66u32, InternalFirmware::Betaflight4_4) => Some(DebugMode::GhstMsp),
            (67u32, InternalFirmware::Betaflight4_3) => Some(DebugMode::TimingAccuracy),
            (67u32, InternalFirmware::Betaflight4_4) => Some(DebugMode::SchedulerDeterminism),
            (68u32, InternalFirmware::Betaflight4_3) => Some(DebugMode::RxExpresslrsSpi),
            (68u32, InternalFirmware::Betaflight4_4) => Some(DebugMode::TimingAccuracy),
            (69u32, InternalFirmware::Betaflight4_3) => Some(DebugMode::RxExpresslrsPhaselock),
            (69u32, InternalFirmware::Betaflight4_4) => Some(DebugMode::RxExpresslrsSpi),
            (70u32, InternalFirmware::Betaflight4_3) => Some(DebugMode::RxStateTime),
            (70u32, InternalFirmware::Betaflight4_4) => Some(DebugMode::RxExpresslrsPhaselock),
            (71u32, InternalFirmware::Betaflight4_4) => Some(DebugMode::RxStateTime),
            (72u32, InternalFirmware::Betaflight4_4) => Some(DebugMode::GpsRescueVelocity),
            (73u32, InternalFirmware::Betaflight4_4) => Some(DebugMode::GpsRescueHeading),
            (74u32, InternalFirmware::Betaflight4_4) => Some(DebugMode::GpsRescueTracking),
            (75u32, InternalFirmware::Betaflight4_4) => Some(DebugMode::Attitude),
            (76u32, InternalFirmware::Betaflight4_4) => Some(DebugMode::VtxMsp),
            (77u32, InternalFirmware::Betaflight4_4) => Some(DebugMode::GpsDop),
            (78u32, InternalFirmware::Betaflight4_4) => Some(DebugMode::Failsafe),
            _ => None,
        }
    }
}

/// The debug modes that Betaflight 4.2 writes, by number: 0 Off (`NONE`), 1
/// Cycletime (`CYCLETIME`), 2 Battery (`BATTERY`), 3 GyroFiltered
/// (`GYRO_FILTERED`), 4 Accelerometer (`ACCELEROMETER`), 5 Pidloop (`PIDLOOP`),
/// 6 GyroScaled (`GYRO_SCALED`), 7 RcInterpolation (`RC_INTERPOLATION`), 8
/// Anglerate (`ANGLERATE`), 9 EscSensor (`ESC_SENSOR`), 10 Scheduler
/// (`SCHEDULER`), 11 Stack (`STACK`), 12 EscSensorRpm (`ESC_SENSOR_RPM`), 13
/// EscSensorTmp (`ESC_SENSOR_TMP`), 14 Altitude (`ALTITUDE`), 15 Fft (`FFT`),
/// 16 FftTime (`FFT_TIME`), 17 FftFreq (`FFT_FREQ`), 18 RxFrskySpi
/// (`RX_FRSKY_SPI`), 19 RxSfhssSpi (`RX_SFHSS_SPI`), 20 GyroRaw (`GYRO_RAW`),
/// 21 DualGyroRaw (`DUAL_GYRO_RAW`), 22 DualGyroDiff (`DUAL_GYRO_DIFF`), 23
/// Max7456Signal (`MAX7456_SIGNAL`), 24 Max7456Spiclock (`MAX7456_SPICLOCK`),
/// 25 Sbus (`SBUS`), 26 Fport (`FPORT`), 27 Rangefinder (`RANGEFINDER`), 28
/// RangefinderQuality (`RANGEFINDER_QUALITY`), 29 LidarTf (`LIDAR_TF`), 30
/// AdcInternal (`ADC_INTERNAL`), 31 RunawayTakeoff (`RUNAWAY_TAKEOFF`), 32 Sdio
/// (`SDIO`), 33 CurrentSensor (`CURRENT_SENSOR`), 34 Usb (`USB`), 35 Smartaudio
/// (`SMARTAUDIO`), 36 Rth (`RTH`), 37 ItermRelax (`ITERM_RELAX`), 38
/// AcroTrainer (`ACRO_TRAINER`), 39 RcSmoothing (`RC_SMOOTHING`), 40
/// RxSignalLoss (`RX_SIGNAL_LOSS`), 41 RcSmoothingRate (`RC_SMOOTHING_RATE`),
/// 42 AntiGravity (`ANTI_GRAVITY`), 43 DynLpf (`DYN_LPF`), 44 RxSpektrumSpi
/// (`RX_SPEKTRUM_SPI`), 45 DshotRpmTelemetry (`DSHOT_RPM_TELEMETRY`), 46
/// RpmFilter (`RPM_FILTER`), 47 DMin (`D_MIN`), 48 AcCorrection
/// (`AC_CORRECTION`), 49 AcError (`AC_ERROR`), 50 DualGyroScaled
/// (`DUAL_GYRO_SCALED`), 51 DshotRpmErrors (`DSHOT_RPM_ERRORS`), 52
/// CrsfLinkStatisticsUplink (`CRSF_LINK_STATISTICS_UPLINK`), 53
/// CrsfLinkStatisticsPwr (`CRSF_LINK_STATISTICS_PWR`), 54
/// CrsfLinkStatisticsDown (`CRSF_LINK_STATISTICS_DOWN`), 55 Baro (`BARO`), 56
/// GpsRescueThrottlePid (`GPS_RESCUE_THROTTLE_PID`), 57 DynIdle (`DYN_IDLE`),
/// 58 FfLimit (`FF_LIMIT`), 59 FfInterpolated (`FF_INTERPOLATED`), 60
/// BlackboxOutput (`BLACKBOX_OUTPUT`), 61 GyroSample (`GYRO_SAMPLE`), 62
/// RxTiming (`RX_TIMING`); every other number stands for none.
pub proof fn lemma_debug_mode_of_betaflight4_2(fw: InternalFirmware, n: u32)
    requires
        fw == InternalFirmware::Betaflight4_2,
    ensures
        debug_mode_of(n, fw) == (if n == 0 {
            Some(DebugMode::Off)
        } else if n == 1 {
            Some(DebugMode::Cycletime)
        } else if n == 2 {
            Some(DebugMode::Battery)
        } else if n == 3 {
            Some(DebugMode::GyroFiltered)
        } else if n == 4 {
            Some(DebugMode::Accelerometer)
        } else if n == 5 {
            Some(DebugMode::Pidloop)
        } else if n == 6 {
            Some(DebugMode::GyroScaled)
        } else if n == 7 {
            Some(DebugMode::RcInterpolation)
        } else if n == 8 {
            Some(DebugMode::Anglerate)
        } else if n == 9 {
            Some(DebugMode::EscSensor)
        } else if n == 10 {
            Some(DebugMode::Scheduler)
        } else if n == 11 {
            Some(DebugMode::Stack)
        } else if n == 12 {
            Some(DebugMode::EscSensorRpm)
        } else if n == 13 {
            Some(DebugMode::EscSensorTmp)
        } else if n == 14 {
            Some(DebugMode::Altitude)
        } else if n == 15 {
            Some(DebugMode::Fft)
        } else if n == 16 {
            Some(DebugMode::FftTime)
        } else if n == 17 {
            Some(DebugMode::FftFreq)
        } else if n == 18 {
            Some(DebugMode::RxFrskySpi)
        } else if n == 19 {
            Some(DebugMode::RxSfhssSpi)
        } else if n == 20 {
            Some(DebugMode::GyroRaw)
        } else if n == 21 {
            Some(DebugMode::DualGyroRaw)
        } else if n == 22 {
            Some(DebugMode::DualGyroDiff)
        } else if n == 23 {
            Some(DebugMode::Max7456Signal)
        } else if n == 24 {
            Some(DebugMode::Max7456Spiclock)
        } else if n == 25 {
            Some(DebugMode::Sbus)
        } else if n == 26 {
            Some(DebugMode::Fport)
        } else if n == 27 {
            Some(DebugMode::Rangefinder)
        } else if n == 28 {
            Some(DebugMode::RangefinderQuality)
        } else if n == 29 {
            Some(DebugMode::LidarTf)
        } else if n == 30 {
            Some(DebugMode::AdcInternal)
        } else if n == 31 {
            Some(DebugMode::RunawayTakeoff)
        } else if n == 32 {
            Some(DebugMode::Sdio)
        } else if n == 33 {
            Some(DebugMode::CurrentSensor)
        } else if n == 34 {
            Some(DebugMode::Usb)
        } else if n == 35 {
            Some(DebugMode::Smartaudio)
        } else if n == 36 {
            Some(DebugMode::Rth)
        } else if n == 37 {
            Some(DebugMode::ItermRelax)
        } else if n == 38 {
            Some(DebugMode::AcroTrainer)
        } else if n == 39 {
            Some(DebugMode::RcSmoothing)
        } else if n == 40 {
            Some(DebugMode::RxSignalLoss)
        } else if n == 41 {
            Some(DebugMode::RcSmoothingRate)
        } else if n == 42 {
            Some(DebugMode::AntiGravity)
        } else if n == 43 {
            Some(DebugMode::DynLpf)
        } else if n == 44 {
            Some(DebugMode::RxSpektrumSpi)
        } else if n == 45 {
            Some(DebugMode::DshotRpmTelemetry)
        } else if n == 46 {
            Some(DebugMode::RpmFilter)
        } else if n == 47 {
            Some(DebugMode::DMin)
        } else if n == 48 {
            Some(DebugMode::AcCorrection)
        } else if n == 49 {
            Some(DebugMode::AcError)
        } else if n == 50 {
            Some(DebugMode::DualGyroScaled)
        } else if n == 51 {
            Some(DebugMode::DshotRpmErrors)
        } else if n == 52 {
            Some(DebugMode::CrsfLinkStatisticsUplink)
        } else if n == 53 {
            Some(DebugMode::CrsfLinkStatisticsPwr)
        } else if n == 54 {
            Some(DebugMode::CrsfLinkStatisticsDown)
        } else if n == 55 {
            Some(DebugMode::Baro)
        } else if n == 56 {
            Some(DebugMode::GpsRescueThrottlePid)
        } else if n == 57 {
            Some(DebugMode::DynIdle)
        } else if n == 58 {
            Some(DebugMode::FfLimit)
        } else if n == 59 {
            Some(DebugMode::FfInterpolated)
        } else if n == 60 {
            Some(DebugMode::BlackboxOutput)
        } else if n == 61 {
            Some(DebugMode::GyroSample)
        } else if n == 62 {
            Some(DebugMode::RxTiming)
        } else {
            None::<DebugMode>
        }),
        debug_mode_of(n, fw) matches Some(m) ==> debug_mode_name(m) == (if n == 0 {
            "NONE"@
        } else if n == 1 {
            "CYCLETIME"@
        } else if n == 2 {
            "BATTERY"@
        } else if n == 3 {
            "GYRO_FILTERED"@
        } else if n == 4 {
            "ACCELEROMETER"@
        } else if n == 5 {
            "PIDLOOP"@
        } else if n == 6 {
            "GYRO_SCALED"@
        } else if n == 7 {
            "RC_INTERPOLATION"@
        } else if n == 8 {
            "ANGLERATE"@
        } else if n == 9 {
            "ESC_SENSOR"@
        } else if n == 10 {
            "SCHEDULER"@
        } else if n == 11 {
            "STACK"@
        } else if n == 12 {
            "ESC_SENSOR_RPM"@
        } else if n == 13 {
            "ESC_SENSOR_TMP"@
        } else if n == 14 {
            "ALTITUDE"@
        } else if n == 15 {
            "FFT"@
        } else if n == 16 {
            "FFT_TIME"@
        } else if n == 17 {
            "FFT_FREQ"@
        } else if n == 18 {
            "RX_FRSKY_SPI"@
        } else if n == 19 {
            "RX_SFHSS_SPI"@
        } else if n == 20 {
            "GYRO_RAW"@
        } else if n == 21 {
            "DUAL_GYRO_RAW"@
        } else if n == 22 {
            "DUAL_GYRO_DIFF"@
        } else if n == 23 {
            "MAX7456_SIGNAL"@
        } else if n == 24 {
            "MAX7456_SPICLOCK"@
        } else if n == 25 {
            "SBUS"@
        } else if n == 26 {
            "FPORT"@
        } else if n == 27 {
            "RANGEFINDER"@
        } else if n == 28 {
            "RANGEFINDER_QUALITY"@
        } else if n == 29 {
            "LIDAR_TF"@
        } else if n == 30 {
            "ADC_INTERNAL"@
        } else if n == 31 {
            "RUNAWAY_TAKEOFF"@
        } else if n == 32 {
            "SDIO"@
        } else if n == 33 {
            "CURRENT_SENSOR"@
        } else if n == 34 {
            "USB"@
        } else if n == 35 {
            "SMARTAUDIO"@
        } else if n == 36 {
            "RTH"@
        } else if n == 37 {
            "ITERM_RELAX"@
        } else if n == 38 {
            "ACRO_TRAINER"@
        } else if n == 39 {
            "RC_SMOOTHING"@
        } else if n == 40 {
            "RX_SIGNAL_LOSS"@
        } else if n == 41 {
            "RC_SMOOTHING_RATE"@
        } else if n == 42 {
            "ANTI_GRAVITY"@
        } else if n == 43 {
            "DYN_LPF"@
        } else if n == 44 {
            "RX_SPEKTRUM_SPI"@
        } else if n == 45 {
            "DSHOT_RPM_TELEMETRY"@
        } else if n == 46 {
            "RPM_FILTER"@
        } else if n == 47 {
            "D_MIN"@
        } else if n == 48 {
            "AC_CORRECTION"@
        } else if n == 49 {
            "AC_ERROR"@
        } else if n == 50 {
            "DUAL_GYRO_SCALED"@
        } else if n == 51 {
            "DSHOT_RPM_ERRORS"@
        } else if n == 52 {
            "CRSF_LINK_STATISTICS_UPLINK"@
        } else if n == 53 {
            "CRSF_LINK_STATISTICS_PWR"@
        } else if n == 54 {
            "CRSF_LINK_STATISTICS_DOWN"@
        } else if n == 55 {
            "BARO"@
        } else if n == 56 {
            "GPS_RESCUE_THROTTLE_PID"@
        } else if n == 57 {
            "DYN_IDLE"@
        } else if n == 58 {
            "FF_LIMIT"@
        } else if n == 59 {
            "FF_INTERPOLATED"@
        } else if n == 60 {
            "BLACKBOX_OUTPUT"@
        } else if n == 61 {
            "GYRO_SAMPLE"@
        } else if n == 62 {
            "RX_TIMING"@
        } else {
            ""@
        }),
{
}

/// The debug modes that Betaflight 4.3 writes, by number: 0 Off (`NONE`), 1
/// Cycletime (`CYCLETIME`), 2 Battery (`BATTERY`), 3 GyroFiltered
/// (`GYRO_FILTERED`), 4 Accelerometer (`ACCELEROMETER`), 5 Pidloop (`PIDLOOP`),
/// 6 GyroScaled (`GYRO_SCALED`), 7 RcInterpolation (`RC_INTERPOLATION`), 8
/// Anglerate (`ANGLERATE`), 9 EscSensor (`ESC_SENSOR`), 10 Scheduler
/// (`SCHEDULER`), 11 Stack (`STACK`), 12 EscSensorRpm (`ESC_SENSOR_RPM`), 13
/// EscSensorTmp (`ESC_SENSOR_TMP`), 14 Altitude (`ALTITUDE`), 15 Fft (`FFT`),
/// 16 FftTime (`FFT_TIME`), 17 FftFreq (`FFT_FREQ`), 18 RxFrskySpi
/// (`RX_FRSKY_SPI`), 19 RxSfhssSpi (`RX_SFHSS_SPI`), 20 GyroRaw (`GYRO_RAW`),
/// 21 DualGyroRaw (`DUAL_GYRO_RAW`), 22 DualGyroDiff (`DUAL_GYRO_DIFF`), 23
/// Max7456Signal (`MAX7456_SIGNAL`), 24 Max7456Spiclock (`MAX7456_SPICLOCK`),
/// 25 Sbus (`SBUS`), 26 Fport (`FPORT`), 27 Rangefinder (`RANGEFINDER`), 28
/// RangefinderQuality (`RANGEFINDER_QUALITY`), 29 LidarTf (`LIDAR_TF`), 30
/// AdcInternal (`ADC_INTERNAL`), 31 RunawayTakeoff (`RUNAWAY_TAKEOFF`), 32 Sdio
/// (`SDIO`), 33 CurrentSensor (`CURRENT_SENSOR`), 34 Usb (`USB`), 35 Smartaudio
/// (`SMARTAUDIO`), 36 Rth (`RTH`), 37 ItermRelax (`ITERM_RELAX`), 38
/// AcroTrainer (`ACRO_TRAINER`), 39 RcSmoothing (`RC_SMOOTHING`), 40
/// RxSignalLoss (`RX_SIGNAL_LOSS`), 41 RcSmoothingRate (`RC_SMOOTHING_RATE`),
/// 42 AntiGravity (`ANTI_GRAVITY`), 43 DynLpf (`DYN_LPF`), 44 RxSpektrumSpi
/// (`RX_SPEKTRUM_SPI`), 45 DshotRpmTelemetry (`DSHOT_RPM_TELEMETRY`), 46
/// RpmFilter (`RPM_FILTER`), 47 DMin (`D_MIN`), 48 AcCorrection
/// (`AC_CORRECTION`), 49 AcError (`AC_ERROR`), 50 DualGyroScaled
/// (`DUAL_GYRO_SCALED`), 51 DshotRpmErrors (`DSHOT_RPM_ERRORS`), 52
/// CrsfLinkStatisticsUplink (`CRSF_LINK_STATISTICS_UPLINK`), 53
/// CrsfLinkStatisticsPwr (`CRSF_LINK_STATISTICS_PWR`), 54
/// CrsfLinkStatisticsDown (`CRSF_LINK_STATISTICS_DOWN`), 55 Baro (`BARO`), 56
/// GpsRescueThrottlePid (`GPS_RESCUE_THROTTLE_PID`), 57 DynIdle (`DYN_IDLE`),
/// 58 FeedforwardLimit (`FEEDFORWARD_LIMIT`), 59 Feedforward (`FEEDFORWARD`),
/// 60 BlackboxOutput (`BLACKBOX_OUTPUT`), 61 GyroSample (`GYRO_SAMPLE`), 62
/// RxTiming (`RX_TIMING`), 63 DLpf (`D_LPF`), 64 VtxTramp (`VTX_TRAMP`), 65
/// Ghst (`GHST`), 66 SchedulerDeterminism (`SCHEDULER_DETERMINISM`), 67
/// TimingAccuracy (`TIMING_ACCURACY`), 68 RxExpresslrsSpi
/// (`RX_EXPRESSLRS_SPI`), 69 RxExpresslrsPhaselock (`RX_EXPRESSLRS_PHASELOCK`),
/// 70 RxStateTime (`RX_STATE_TIME`); every other number stands for none.
pub proof fn lemma_debug_mode_of_betaflight4_3(fw: InternalFirmware, n: u32)
    requires
        fw == InternalFirmware::Betaflight4_3,
    ensures
        debug_mode_of(n, fw) == (if n == 0 {
            Some(DebugMode::Off)
        } else if n == 1 {
            Some(DebugMode::Cycletime)
        } else if n == 2 {
            Some(DebugMode::Battery)
        } else if n == 3 {
            Some(DebugMode::GyroFiltered)
        } else if n == 4 {
            Some(DebugMode::Accelerometer)
        } else if n == 5 {
            Some(DebugMode::Pidloop)
        } else if n == 6 {
            Some(DebugMode::GyroScaled)
        } else if n == 7 {
            Some(DebugMode::RcInterpolation)
        } else if n == 8 {
            Some(DebugMode::Anglerate)
        } else if n == 9 {
            Some(DebugMode::EscSensor)
        } else if n == 10 {
            Some(DebugMode::Scheduler)
        } else if n == 11 {
            Some(DebugMode::Stack)
        } else if n == 12 {
            Some(DebugMode::EscSensorRpm)
        } else if n == 13 {
            Some(DebugMode::EscSensorTmp)
        } else if n == 14 {
            Some(DebugMode::Altitude)
        } else if n == 15 {
            Some(DebugMode::Fft)
        } else if n == 16 {
            Some(DebugMode::FftTime)
        } else if n == 17 {
            Some(DebugMode::FftFreq)
        } else if n == 18 {
            Some(DebugMode::RxFrskySpi)
        } else if n == 19 {
            Some(DebugMode::RxSfhssSpi)
        } else if n == 20 {
            Some(DebugMode::GyroRaw)
        } else if n == 21 {
            Some(DebugMode::DualGyroRaw)
        } else if n == 22 {
            Some(DebugMode::DualGyroDiff)
        } else if n == 23 {
            Some(DebugMode::Max7456Signal)
        } else if n == 24 {
            Some(DebugMode::Max7456Spiclock)
        } else if n == 25 {
            Some(DebugMode::Sbus)
        } else if n == 26 {
            Some(DebugMode::Fport)
        } else if n == 27 {
            Some(DebugMode::Rangefinder)
        } else if n == 28 {
            Some(DebugMode::RangefinderQuality)
        } else if n == 29 {
            Some(DebugMode::LidarTf)
        } else if n == 30 {
            Some(DebugMode::AdcInternal)
        } else if n == 31 {
            Some(DebugMode::RunawayTakeoff)
        } else if n == 32 {
            Some(DebugMode::Sdio)
        } else if n == 33 {
            Some(DebugMode::CurrentSensor)
        } else if n == 34 {
            Some(DebugMode::Usb)
        } else if n == 35 {
            Some(DebugMode::Smartaudio)
        } else if n == 36 {
            Some(DebugMode::Rth)
        } else if n == 37 {
            Some(DebugMode::ItermRelax)
        } else if n == 38 {
            Some(DebugMode::AcroTrainer)
        } else if n == 39 {
            Some(DebugMode::RcSmoothing)
        } else if n == 40 {
            Some(DebugMode::RxSignalLoss)
        } else if n == 41 {
            Some(DebugMode::RcSmoothingRate)
        } else if n == 42 {
            Some(DebugMode::AntiGravity)
        } else if n == 43 {
            Some(DebugMode::DynLpf)
        } else if n == 44 {
            Some(DebugMode::RxSpektrumSpi)
        } else if n == 45 {
            Some(DebugMode::DshotRpmTelemetry)
        } else if n == 46 {
            Some(DebugMode::RpmFilter)
        } else if n == 47 {
            Some(DebugMode::DMin)
        } else if n == 48 {
            Some(DebugMode::AcCorrection)
        } else if n == 49 {
            Some(DebugMode::AcError)
        } else if n == 50 {
            Some(DebugMode::DualGyroScaled)
        } else if n == 51 {
            Some(DebugMode::DshotRpmErrors)
        } else if n == 52 {
            Some(DebugMode::CrsfLinkStatisticsUplink)
        } else if n == 53 {
            Some(DebugMode::CrsfLinkStatisticsPwr)
        } else if n == 54 {
            Some(DebugMode::CrsfLinkStatisticsDown)
        } else if n == 55 {
            Some(DebugMode::Baro)
        } else if n == 56 {
            Some(DebugMode::GpsRescueThrottlePid)
        } else if n == 57 {
            Some(DebugMode::DynIdle)
        } else if n == 58 {
            Some(DebugMode::FeedforwardLimit)
        } else if n == 59 {
            Some(DebugMode::Feedforward)
        } else if n == 60 {
            Some(DebugMode::BlackboxOutput)
        } else if n == 61 {
            Some(DebugMode::GyroSample)
        } else if n == 62 {
            Some(DebugMode::RxTiming)
        } else if n == 63 {
            Some(DebugMode::DLpf)
        } else if n == 64 {
            Some(DebugMode::VtxTramp)
        } else if n == 65 {
            Some(DebugMode::Ghst)
        } else if n == 66 {
            Some(DebugMode::SchedulerDeterminism)
        } else if n == 67 {
            Some(DebugMode::TimingAccuracy)
        } else if n == 68 {
            Some(DebugMode::RxExpresslrsSpi)
        } else if n == 69 {
            Some(DebugMode::RxExpresslrsPhaselock)
        } else if n == 70 {
            Some(DebugMode::RxStateTime)
        } else {
            None::<DebugMode>
        }),
        debug_mode_of(n, fw) matches Some(m) ==> debug_mode_name(m) == (if n == 0 {
            "NONE"@
        } else if n == 1 {
            "CYCLETIME"@
        } else if n == 2 {
            "BATTERY"@
        } else if n == 3 {
            "GYRO_FILTERED"@
        } else if n == 4 {
            "ACCELEROMETER"@
        } else if n == 5 {
            "PIDLOOP"@
        } else if n == 6 {
            "GYRO_SCALED"@
        } else if n == 7 {
            "RC_INTERPOLATION"@
        } else if n == 8 {
            "ANGLERATE"@
        } else if n == 9 {
            "ESC_SENSOR"@
        } else if n == 10 {
            "SCHEDULER"@
        } else if n == 11 {
            "STACK"@
        } else if n == 12 {
            "ESC_SENSOR_RPM"@
        } else if n == 13 {
            "ESC_SENSOR_TMP"@
        } else if n == 14 {
            "ALTITUDE"@
        } else if n == 15 {
            "FFT"@
        } else if n == 16 {
            "FFT_TIME"@
        } else if n == 17 {
            "FFT_FREQ"@
        } else if n == 18 {
            "RX_FRSKY_SPI"@
        } else if n == 19 {
            "RX_SFHSS_SPI"@
        } else if n == 20 {
            "GYRO_RAW"@
        } else if n == 21 {
            "DUAL_GYRO_RAW"@
        } else if n == 22 {
            "DUAL_GYRO_DIFF"@
        } else if n == 23 {
            "MAX7456_SIGNAL"@
        } else if n == 24 {
            "MAX7456_SPICLOCK"@
        } else if n == 25 {
            "SBUS"@
        } else if n == 26 {
            "FPORT"@
        } else if n == 27 {
            "RANGEFINDER"@
        } else if n == 28 {
            "RANGEFINDER_QUALITY"@
        } else if n == 29 {
            "LIDAR_TF"@
        } else if n == 30 {
            "ADC_INTERNAL"@
        } else if n == 31 {
            "RUNAWAY_TAKEOFF"@
        } else if n == 32 {
            "SDIO"@
        } else if n == 33 {
            "CURRENT_SENSOR"@
        } else if n == 34 {
            "USB"@
        } else if n == 35 {
            "SMARTAUDIO"@
        } else if n == 36 {
            "RTH"@
        } else if n == 37 {
            "ITERM_RELAX"@
        } else if n == 38 {
            "ACRO_TRAINER"@
        } else if n == 39 {
            "RC_SMOOTHING"@
        } else if n == 40 {
            "RX_SIGNAL_LOSS"@
        } else if n == 41 {
            "RC_SMOOTHING_RATE"@
        } else if n == 42 {
            "ANTI_GRAVITY"@
        } else if n == 43 {
            "DYN_LPF"@
        } else if n == 44 {
            "RX_SPEKTRUM_SPI"@
        } else if n == 45 {
            "DSHOT_RPM_TELEMETRY"@
        } else if n == 46 {
            "RPM_FILTER"@
        } else if n == 47 {
            "D_MIN"@
        } else if n == 48 {
            "AC_CORRECTION"@
        } else if n == 49 {
            "AC_ERROR"@
        } else if n == 50 {
            "DUAL_GYRO_SCALED"@
        } else if n == 51 {
            "DSHOT_RPM_ERRORS"@
        } else if n == 52 {
            "CRSF_LINK_STATISTICS_UPLINK"@
        } else if n == 53 {
            "CRSF_LINK_STATISTICS_PWR"@
        } else if n == 54 {
            "CRSF_LINK_STATISTICS_DOWN"@
        } else if n == 55 {
            "BARO"@
        } else if n == 56 {
            "GPS_RESCUE_THROTTLE_PID"@
        } else if n == 57 {
            "DYN_IDLE"@
        } else if n == 58 {
            "FEEDFORWARD_LIMIT"@
        } else if n == 59 {
            "FEEDFORWARD"@
        } else if n == 60 {
            "BLACKBOX_OUTPUT"@
        } else if n == 61 {
            "GYRO_SAMPLE"@
        } else if n == 62 {
            "RX_TIMING"@
        } else if n == 63 {
            "D_LPF"@
        } else if n == 64 {
            "VTX_TRAMP"@
        } else if n == 65 {
            "GHST"@
        } else if n == 66 {
            "SCHEDULER_DETERMINISM"@
        } else if n == 67 {
            "TIMING_ACCURACY"@
        } else if n == 68 {
            "RX_EXPRESSLRS_SPI"@
        } else if n == 69 {
            "RX_EXPRESSLRS_PHASELOCK"@
        } else if n == 70 {
            "RX_STATE_TIME"@
        } else {
            ""@
        }),
{
}

/// The debug modes that Betaflight 4.4 writes, by number: 0 Off (`NONE`), 1
/// Cycletime (`CYCLETIME`), 2 Battery (`BATTERY`), 3 GyroFiltered
/// (`GYRO_FILTERED`), 4 Accelerometer (`ACCELEROMETER`), 5 Pidloop (`PIDLOOP`),
/// 6 GyroScaled (`GYRO_SCALED`), 7 RcInterpolation (`RC_INTERPOLATION`), 8
/// Anglerate (`ANGLERATE`), 9 EscSensor (`ESC_SENSOR`), 10 Scheduler
/// (`SCHEDULER`), 11 Stack (`STACK`), 12 EscSensorRpm (`ESC_SENSOR_RPM`), 13
/// EscSensorTmp (`ESC_SENSOR_TMP`), 14 Altitude (`ALTITUDE`), 15 Fft (`FFT`),
/// 16 FftTime (`FFT_TIME`), 17 FftFreq (`FFT_FREQ`), 18 RxFrskySpi
/// (`RX_FRSKY_SPI`), 19 RxSfhssSpi (`RX_SFHSS_SPI`), 20 GyroRaw (`GYRO_RAW`),
/// 21 DualGyroRaw (`DUAL_GYRO_RAW`), 22 DualGyroDiff (`DUAL_GYRO_DIFF`), 23
/// Max7456Signal (`MAX7456_SIGNAL`), 24 Max7456Spiclock (`MAX7456_SPICLOCK`),
/// 25 Sbus (`SBUS`), 26 Fport (`FPORT`), 27 Rangefinder (`RANGEFINDER`), 28
/// RangefinderQuality (`RANGEFINDER_QUALITY`), 29 LidarTf (`LIDAR_TF`), 30
/// AdcInternal (`ADC_INTERNAL`), 31 RunawayTakeoff (`RUNAWAY_TAKEOFF`), 32 Sdio
/// (`SDIO`), 33 CurrentSensor (`CURRENT_SENSOR`), 34 Usb (`USB`), 35 Smartaudio
/// (`SMARTAUDIO`), 36 Rth (`RTH`), 37 ItermRelax (`ITERM_RELAX`), 38
/// AcroTrainer (`ACRO_TRAINER`), 39 RcSmoothing (`RC_SMOOTHING`), 40
/// RxSignalLoss (`RX_SIGNAL_LOSS`), 41 RcSmoothingRate (`RC_SMOOTHING_RATE`),
/// 42 AntiGravity (`ANTI_GRAVITY`), 43 DynLpf (`DYN_LPF`), 44 RxSpektrumSpi
/// (`RX_SPEKTRUM_SPI`), 45 DshotRpmTelemetry (`DSHOT_RPM_TELEMETRY`), 46
/// RpmFilter (`RPM_FILTER`), 47 DMin (`D_MIN`), 48 AcCorrection
/// (`AC_CORRECTION`), 49 AcError (`AC_ERROR`), 50 DualGyroScaled
/// (`DUAL_GYRO_SCALED`), 51 DshotRpmErrors (`DSHOT_RPM_ERRORS`), 52
/// CrsfLinkStatisticsUplink (`CRSF_LINK_STATISTICS_UPLINK`), 53
/// CrsfLinkStatisticsPwr (`CRSF_LINK_STATISTICS_PWR`), 54
/// CrsfLinkStatisticsDown (`CRSF_LINK_STATISTICS_DOWN`), 55 Baro (`BARO`), 56
/// GpsRescueThrottlePid (`GPS_RESCUE_THROTTLE_PID`), 57 DynIdle (`DYN_IDLE`),
/// 58 FeedforwardLimit (`FEEDFORWARD_LIMIT`), 59 Feedforward (`FEEDFORWARD`),
/// 60 BlackboxOutput (`BLACKBOX_OUTPUT`), 61 GyroSample (`GYRO_SAMPLE`), 62
/// RxTiming (`RX_TIMING`), 63 DLpf (`D_LPF`), 64 VtxTramp (`VTX_TRAMP`), 65
/// Ghst (`GHST`), 66 GhstMsp (`GHST_MSP`), 67 SchedulerDeterminism
/// (`SCHEDULER_DETERMINISM`), 68 TimingAccuracy (`TIMING_ACCURACY`), 69
/// RxExpresslrsSpi (`RX_EXPRESSLRS_SPI`), 70 RxExpresslrsPhaselock
/// (`RX_EXPRESSLRS_PHASELOCK`), 71 RxStateTime (`RX_STATE_TIME`), 72
/// GpsRescueVelocity (`GPS_RESCUE_VELOCITY`), 73 GpsRescueHeading
/// (`GPS_RESCUE_HEADING`), 74 GpsRescueTracking (`GPS_RESCUE_TRACKING`), 75
/// Attitude (`ATTITUDE`), 76 VtxMsp (`VTX_MSP`), 77 GpsDop (`GPS_DOP`), 78
/// Failsafe (`FAILSAFE`); every other number stands for none.
pub proof fn lemma_debug_mode_of_betaflight4_4(fw: InternalFirmware, n: u32)
    requires
        fw == InternalFirmware::Betaflight4_4,
    ensures
        debug_mode_of(n, fw) == (if n == 0 {
            Some(DebugMode::Off)
        } else if n == 1 {
            Some(DebugMode::Cycletime)
        } else if n == 2 {
            Some(DebugMode::Battery)
        } else if n == 3 {
            Some(DebugMode::GyroFiltered)
        } else if n == 4 {
            Some(DebugMode::Accelerometer)
        } else if n == 5 {
            Some(DebugMode::Pidloop)
        } else if n == 6 {
            Some(DebugMode::GyroScaled)
        } else if n == 7 {
            Some(DebugMode::RcInterpolation)
        } else if n == 8 {
            Some(DebugMode::Anglerate)
        } else if n == 9 {
            Some(DebugMode::EscSensor)
        } else if n == 10 {
            Some(DebugMode::Scheduler)
        } else if n == 11 {
            Some(DebugMode::Stack)
        } else if n == 12 {
            Some(DebugMode::EscSensorRpm)
        } else if n == 13 {
            Some(DebugMode::EscSensorTmp)
        } else if n == 14 {
            Some(DebugMode::Altitude)
        } else if n == 15 {
            Some(DebugMode::Fft)
        } else if n == 16 {
            Some(DebugMode::FftTime)
        } else if n == 17 {
            Some(DebugMode::FftFreq)
        } else if n == 18 {
            Some(DebugMode::RxFrskySpi)
        } else if n == 19 {
            Some(DebugMode::RxSfhssSpi)
        } else if n == 20 {
            Some(DebugMode::GyroRaw)
        } else if n == 21 {
            Some(DebugMode::DualGyroRaw)
        } else if n == 22 {
            Some(DebugMode::DualGyroDiff)
        } else if n == 23 {
            Some(DebugMode::Max7456Signal)
        } else if n == 24 {
            Some(DebugMode::Max7456Spiclock)
        } else if n == 25 {
            Some(DebugMode::Sbus)
        } else if n == 26 {
            Some(DebugMode::Fport)
        } else if n == 27 {
            Some(DebugMode::Rangefinder)
        } else if n == 28 {
            Some(DebugMode::RangefinderQuality)
        } else if n == 29 {
            Some(DebugMode::LidarTf)
        } else if n == 30 {
            Some(DebugMode::AdcInternal)
        } else if n == 31 {
            Some(DebugMode::RunawayTakeoff)
        } else if n == 32 {
            Some(DebugMode::Sdio)
        } else if n == 33 {
            Some(DebugMode::CurrentSensor)
        } else if n == 34 {
            Some(DebugMode::Usb)
        } else if n == 35 {
            Some(DebugMode::Smartaudio)
        } else if n == 36 {
            Some(DebugMode::Rth)
        } else if n == 37 {
            Some(DebugMode::ItermRelax)
        } else if n == 38 {
            Some(DebugMode::AcroTrainer)
        } else if n == 39 {
            Some(DebugMode::RcSmoothing)
        } else if n == 40 {
            Some(DebugMode::RxSignalLoss)
        } else if n == 41 {
            Some(DebugMode::RcSmoothingRate)
        } else if n == 42 {
            Some(DebugMode::AntiGravity)
        } else if n == 43 {
            Some(DebugMode::DynLpf)
        } else if n == 44 {
            Some(DebugMode::RxSpektrumSpi)
        } else if n == 45 {
            Some(DebugMode::DshotRpmTelemetry)
        } else if n == 46 {
            Some(DebugMode::RpmFilter)
        } else if n == 47 {
            Some(DebugMode::DMin)
        } else if n == 48 {
            Some(DebugMode::AcCorrection)
        } else if n == 49 {
            Some(DebugMode::AcError)
        } else if n == 50 {
            Some(DebugMode::DualGyroScaled)
        } else if n == 51 {
            Some(DebugMode::DshotRpmErrors)
        } else if n == 52 {
            Some(DebugMode::CrsfLinkStatisticsUplink)
        } else if n == 53 {
            Some(DebugMode::CrsfLinkStatisticsPwr)
        } else if n == 54 {
            Some(DebugMode::CrsfLinkStatisticsDown)
        } else if n == 55 {
            Some(DebugMode::Baro)
        } else if n == 56 {
            Some(DebugMode::GpsRescueThrottlePid)
        } else if n == 57 {
            Some(DebugMode::DynIdle)
        } else if n == 58 {
            Some(DebugMode::FeedforwardLimit)
        } else if n == 59 {
            Some(DebugMode::Feedforward)
        } else if n == 60 {
            Some(DebugMode::BlackboxOutput)
        } else if n == 61 {
            Some(DebugMode::GyroSample)
        } else if n == 62 {
            Some(DebugMode::RxTiming)
        } else if n == 63 {
            Some(DebugMode::DLpf)
        } else if n == 64 {
            Some(DebugMode::VtxTramp)
        } else if n == 65 {
            Some(DebugMode::Ghst)
        } else if n == 66 {
            Some(DebugMode::GhstMsp)
        } else if n == 67 {
            Some(DebugMode::SchedulerDeterminism)
        } else if n == 68 {
            Some(DebugMode::TimingAccuracy)
        } else if n == 69 {
            Some(DebugMode::RxExpresslrsSpi)
        } else if n == 70 {
            Some(DebugMode::RxExpresslrsPhaselock)
        } else if n == 71 {
            Some(DebugMode::RxStateTime)
        } else if n == 72 {
            Some(DebugMode::GpsRescueVelocity)
        } else if n == 73 {
            Some(DebugMode::GpsRescueHeading)
        } else if n == 74 {
            Some(DebugMode::GpsRescueTracking)
        } else if n == 75 {
            Some(DebugMode::Attitude)
        } else if n == 76 {
            Some(DebugMode::VtxMsp)
        } else if n == 77 {
            Some(DebugMode::GpsDop)
        } else if n == 78 {
            Some(DebugMode::Failsafe)
        } else {
            None::<DebugMode>
        }),
        debug_mode_of(n, fw) matches Some(m) ==> debug_mode_name(m) == (if n == 0 {
            "NONE"@
        } else if n == 1 {
            "CYCLETIME"@
        } else if n == 2 {
            "BATTERY"@
        } else if n == 3 {
            "GYRO_FILTERED"@
        } else if n == 4 {
            "ACCELEROMETER"@
        } else if n == 5 {
            "PIDLOOP"@
        } else if n == 6 {
            "GYRO_SCALED"@
        } else if n == 7 {
            "RC_INTERPOLATION"@
        } else if n == 8 {
            "ANGLERATE"@
        } else if n == 9 {
            "ESC_SENSOR"@
        } else if n == 10 {
            "SCHEDULER"@
        } else if n == 11 {
            "STACK"@
        } else if n == 12 {
            "ESC_SENSOR_RPM"@
        } else if n == 13 {
            "ESC_SENSOR_TMP"@
        } else if n == 14 {
            "ALTITUDE"@
        } else if n == 15 {
            "FFT"@
        } else if n == 16 {
            "FFT_TIME"@
        } else if n == 17 {
            "FFT_FREQ"@
        } else if n == 18 {
            "RX_FRSKY_SPI"@
        } else if n == 19 {
            "RX_SFHSS_SPI"@
        } else if n == 20 {
            "GYRO_RAW"@
        } else if n == 21 {
            "DUAL_GYRO_RAW"@
        } else if n == 22 {
            "DUAL_GYRO_DIFF"@
        } else if n == 23 {
            "MAX7456_SIGNAL"@
        } else if n == 24 {
            "MAX7456_SPICLOCK"@
        } else if n == 25 {
            "SBUS"@
        } else if n == 26 {
            "FPORT"@
        } else if n == 27 {
            "RANGEFINDER"@
        } else if n == 28 {
            "RANGEFINDER_QUALITY"@
        } else if n == 29 {
            "LIDAR_TF"@
        } else if n == 30 {
            "ADC_INTERNAL"@
        } else if n == 31 {
            "RUNAWAY_TAKEOFF"@
        } else if n == 32 {
            "SDIO"@
        } else if n == 33 {
            "CURRENT_SENSOR"@
        } else if n == 34 {
            "USB"@
        } else if n == 35 {
            "SMARTAUDIO"@
        } else if n == 36 {
            "RTH"@
        } else if n == 37 {
            "ITERM_RELAX"@
        } else if n == 38 {
            "ACRO_TRAINER"@
        } else if n == 39 {
            "RC_SMOOTHING"@
        } else if n == 40 {
            "RX_SIGNAL_LOSS"@
        } else if n == 41 {
            "RC_SMOOTHING_RATE"@
        } else if n == 42 {
            "ANTI_GRAVITY"@
        } else if n == 43 {
            "DYN_LPF"@
        } else if n == 44 {
            "RX_SPEKTRUM_SPI"@
        } else if n == 45 {
            "DSHOT_RPM_TELEMETRY"@
        } else if n == 46 {
            "RPM_FILTER"@
        } else if n == 47 {
            "D_MIN"@
        } else if n == 48 {
            "AC_CORRECTION"@
        } else if n == 49 {
            "AC_ERROR"@
        } else if n == 50 {
            "DUAL_GYRO_SCALED"@
        } else if n == 51 {
            "DSHOT_RPM_ERRORS"@
        } else if n == 52 {
            "CRSF_LINK_STATISTICS_UPLINK"@
        } else if n == 53 {
            "CRSF_LINK_STATISTICS_PWR"@
        } else if n == 54 {
            "CRSF_LINK_STATISTICS_DOWN"@
        } else if n == 55 {
            "BARO"@
        } else if n == 56 {
            "GPS_RESCUE_THROTTLE_PID"@
        } else if n == 57 {
            "DYN_IDLE"@
        } else if n == 58 {
            "FEEDFORWARD_LIMIT"@
        } else if n == 59 {
            "FEEDFORWARD"@
        } else if n == 60 {
            "BLACKBOX_OUTPUT"@
        } else if n == 61 {
            "GYRO_SAMPLE"@
        } else if n == 62 {
            "RX_TIMING"@
        } else if n == 63 {
            "D_LPF"@
        } else if n == 64 {
            "VTX_TRAMP"@
        } else if n == 65 {
            "GHST"@
        } else if n == 66 {
            "GHST_MSP"@
        } else if n == 67 {
            "SCHEDULER_DETERMINISM"@
        } else if n == 68 {
            "TIMING_ACCURACY"@
        } else if n == 69 {
            "RX_EXPRESSLRS_SPI"@
        } else if n == 70 {
            "RX_EXPRESSLRS_PHASELOCK"@
        } else if n == 71 {
            "RX_STATE_TIME"@
        } else if n == 72 {
            "GPS_RESCUE_VELOCITY"@
        } else if n == 73 {
            "GPS_RESCUE_HEADING"@
        } else if n == 74 {
            "GPS_RESCUE_TRACKING"@
        } else if n == 75 {
            "ATTITUDE"@
        } else if n == 76 {
            "VTX_MSP"@
        } else if n == 77 {
            "GPS_DOP"@
        } else if n == 78 {
            "FAILSAFE"@
        } else {
            ""@
        }),
{
}

/// Betaflight 4.5, INAV 7 write no debug modes: every number stands for none.
pub proof fn lemma_debug_mode_of_betaflight4_5_inav7(fw: InternalFirmware, n: u32)
    requires
        fw == InternalFirmware::Betaflight4_5 || fw == InternalFirmware::Inav7,
    ensures
        debug_mode_of(n, fw) == ({
            None::<DebugMode>
        }),
        debug_mode_of(n, fw) matches Some(m) ==> debug_mode_name(m) == ({
            ""@
        }),
{
}

/// The debug modes that INAV 5 writes, by number: 0 Off (`NONE`), 1 Gyro
/// (`GYRO`), 2 Agl (`AGL`), 3 FlowRaw (`FLOW_RAW`), 4 Flow (`FLOW`), 5 Sbus
/// (`SBUS`), 6 Fport (`FPORT`), 7 Always (`ALWAYS`), 8 SagCompVoltage
/// (`SAG_COMP_VOLTAGE`), 9 Vibe (`VIBE`), 10 Cruise (`CRUISE`), 11
/// RemFlightTime (`REM_FLIGHT_TIME`), 12 Smartaudio (`SMARTAUDIO`), 13 Acc
/// (`ACC`), 14 Erpm (`ERPM`), 15 RpmFilter (`RPM_FILTER`), 16 RpmFreq
/// (`RPM_FREQ`), 17 NavYaw (`NAV_YAW`), 18 DynamicFilter (`DYNAMIC_FILTER`), 19
/// DynamicFilterFrequency (`DYNAMIC_FILTER_FREQUENCY`), 20 Irlock (`IRLOCK`),
/// 21 KalmanGain (`KALMAN_GAIN`), 22 PidMeasurement (`PID_MEASUREMENT`), 23
/// SpmCells (`SPM_CELLS`), 24 SpmVs600 (`SPM_VS600`), 25 SpmVario
/// (`SPM_VARIO`), 26 Pcf8574 (`PCF8574`), 27 DynamicGyroLpf
/// (`DYNAMIC_GYRO_LPF`), 28 AutoLevel (`AUTOLEVEL`), 29 Imu2 (`IMU2`), 30
/// Altitude (`ALTITUDE`), 31 SmithPredictor (`SMITH_PREDICTOR`), 32 AutoTrim
/// (`AUTOTRIM`), 33 AutoTune (`AUTOTUNE`), 34 RateDynamics (`RATE_DYNAMICS`),
/// 35 Landing (`LANDING`); every other number stands for none.
pub proof fn lemma_debug_mode_of_inav5(fw: InternalFirmware, n: u32)
    requires
        fw == InternalFirmware::Inav5,
    ensures
        debug_mode_of(n, fw) == (if n == 0 {
            Some(DebugMode::Off)
        } else if n == 1 {
            Some(DebugMode::Gyro)
        } else if n == 2 {
            Some(DebugMode::Agl)
        } else if n == 3 {
            Some(DebugMode::FlowRaw)
        } else if n == 4 {
            Some(DebugMode::Flow)
        } else if n == 5 {
            Some(DebugMode::Sbus)
        } else if n == 6 {
            Some(DebugMode::Fport)
        } else if n == 7 {
            Some(DebugMode::Always)
        } else if n == 8 {
            Some(DebugMode::SagCompVoltage)
        } else if n == 9 {
            Some(DebugMode::Vibe)
        } else if n == 10 {
            Some(DebugMode::Cruise)
        } else if n == 11 {
            Some(DebugMode::RemFlightTime)
        } else if n == 12 {
            Some(DebugMode::Smartaudio)
        } else if n == 13 {
            Some(DebugMode::Acc)
        } else if n == 14 {
            Some(DebugMode::Erpm)
        } else if n == 15 {
            Some(DebugMode::RpmFilter)
        } else if n == 16 {
            Some(DebugMode::RpmFreq)
        } else if n == 17 {
            Some(DebugMode::NavYaw)
        } else if n == 18 {
            Some(DebugMode::DynamicFilter)
        } else if n == 19 {
            Some(DebugMode::DynamicFilterFrequency)
        } else if n == 20 {
            Some(DebugMode::Irlock)
        } else if n == 21 {
            Some(DebugMode::KalmanGain)
        } else if n == 22 {
            Some(DebugMode::PidMeasurement)
        } else if n == 23 {
            Some(DebugMode::SpmCells)
        } else if n == 24 {
            Some(DebugMode::SpmVs600)
        } else if n == 25 {
            Some(DebugMode::SpmVario)
        } else if n == 26 {
            Some(DebugMode::Pcf8574)
        } else if n == 27 {
            Some(DebugMode::DynamicGyroLpf)
        } else if n == 28 {
            Some(DebugMode::AutoLevel)
        } else if n == 29 {
            Some(DebugMode::Imu2)
        } else if n == 30 {
            Some(DebugMode::Altitude)
        } else if n == 31 {
            Some(DebugMode::SmithPredictor)
        } else if n == 32 {
            Some(DebugMode::AutoTrim)
        } else if n == 33 {
            Some(DebugMode::AutoTune)
        } else if n == 34 {
            Some(DebugMode::RateDynamics)
        } else if n == 35 {
            Some(DebugMode::Landing)
        } else {
            None::<DebugMode>
        }),
        debug_mode_of(n, fw) matches Some(m) ==> debug_mode_name(m) == (if n == 0 {
            "NONE"@
        } else if n == 1 {
            "GYRO"@
        } else if n == 2 {
            "AGL"@
        } else if n == 3 {
            "FLOW_RAW"@
        } else if n == 4 {
            "FLOW"@
        } else if n == 5 {
            "SBUS"@
        } else if n == 6 {
            "FPORT"@
        } else if n == 7 {
            "ALWAYS"@
        } else if n == 8 {
            "SAG_COMP_VOLTAGE"@
        } else if n == 9 {
            "VIBE"@
        } else if n == 10 {
            "CRUISE"@
        } else if n == 11 {
            "REM_FLIGHT_TIME"@
        } else if n == 12 {
            "SMARTAUDIO"@
        } else if n == 13 {
            "ACC"@
        } else if n == 14 {
            "ERPM"@
        } else if n == 15 {
            "RPM_FILTER"@
        } else if n == 16 {
            "RPM_FREQ"@
        } else if n == 17 {
            "NAV_YAW"@
        } else if n == 18 {
            "DYNAMIC_FILTER"@
        } else if n == 19 {
            "DYNAMIC_FILTER_FREQUENCY"@
        } else if n == 20 {
            "IRLOCK"@
        } else if n == 21 {
            "KALMAN_GAIN"@
        } else if n == 22 {
            "PID_MEASUREMENT"@
        } else if n == 23 {
            "SPM_CELLS"@
        } else if n == 24 {
            "SPM_VS600"@
        } else if n == 25 {
            "SPM_VARIO"@
        } else if n == 26 {
            "PCF8574"@
        } else if n == 27 {
            "DYNAMIC_GYRO_LPF"@
        } else if n == 28 {
            "AUTOLEVEL"@
        } else if n == 29 {
            "IMU2"@
        } else if n == 30 {
            "ALTITUDE"@
        } else if n == 31 {
            "SMITH_PREDICTOR"@
        } else if n == 32 {
            "AUTOTRIM"@
        } else if n == 33 {
            "AUTOTUNE"@
        } else if n == 34 {
            "RATE_DYNAMICS"@
        } else if n == 35 {
            "LANDING"@
        } else {
            ""@
        }),
{
}

/// The debug modes that INAV 6 writes, by number: 0 Off (`NONE`), 1 Agl
/// (`AGL`), 2 FlowRaw (`FLOW_RAW`), 3 Flow (`FLOW`), 4 Always (`ALWAYS`), 5
/// SagCompVoltage (`SAG_COMP_VOLTAGE`), 6 Vibe (`VIBE`), 7 Cruise (`CRUISE`), 8
/// RemFlightTime (`REM_FLIGHT_TIME`), 9 Smartaudio (`SMARTAUDIO`), 10 Acc
/// (`ACC`), 11 NavYaw (`NAV_YAW`), 12 Pcf8574 (`PCF8574`), 13 DynamicGyroLpf
/// (`DYNAMIC_GYRO_LPF`), 14 AutoLevel (`AUTOLEVEL`), 15 Altitude (`ALTITUDE`),
/// 16 AutoTrim (`AUTOTRIM`), 17 AutoTune (`AUTOTUNE`), 18 RateDynamics
/// (`RATE_DYNAMICS`), 19 Landing (`LANDING`), 20 PosEst (`POS_EST`); every
/// other number stands for none.
pub proof fn lemma_debug_mode_of_inav6(fw: InternalFirmware, n: u32)
    requires
        fw == InternalFirmware::Inav6,
    ensures
        debug_mode_of(n, fw) == (if n == 0 {
            Some(DebugMode::Off)
        } else if n == 1 {
            Some(DebugMode::Agl)
        } else if n == 2 {
            Some(DebugMode::FlowRaw)
        } else if n == 3 {
            Some(DebugMode::Flow)
        } else if n == 4 {
            Some(DebugMode::Always)
        } else if n == 5 {
            Some(DebugMode::SagCompVoltage)
        } else if n == 6 {
            Some(DebugMode::Vibe)
        } else if n == 7 {
            Some(DebugMode::Cruise)
        } else if n == 8 {
            Some(DebugMode::RemFlightTime)
        } else if n == 9 {
            Some(DebugMode::Smartaudio)
        } else if n == 10 {
            Some(DebugMode::Acc)
        } else if n == 11 {
            Some(DebugMode::NavYaw)
        } else if n == 12 {
            Some(DebugMode::Pcf8574)
        } else if n == 13 {
            Some(DebugMode::DynamicGyroLpf)
        } else if n == 14 {
            Some(DebugMode::AutoLevel)
        } else if n == 15 {
            Some(DebugMode::Altitude)
        } else if n == 16 {
            Some(DebugMode::AutoTrim)
        } else if n == 17 {
            Some(DebugMode::AutoTune)
        } else if n == 18 {
            Some(DebugMode::RateDynamics)
        } else if n == 19 {
            Some(DebugMode::Landing)
        } else if n == 20 {
            Some(DebugMode::PosEst)
        } else {
            None::<DebugMode>
        }),
        debug_mode_of(n, fw) matches Some(m) ==> debug_mode_name(m) == (if n == 0 {
            "NONE"@
        } else if n == 1 {
            "AGL"@
        } else if n == 2 {
            "FLOW_RAW"@
        } else if n == 3 {
            "FLOW"@
        } else if n == 4 {
            "ALWAYS"@
        } else if n == 5 {
            "SAG_COMP_VOLTAGE"@
        } else if n == 6 {
            "VIBE"@
        } else if n == 7 {
            "CRUISE"@
        } else if n == 8 {
            "REM_FLIGHT_TIME"@
        } else if n == 9 {
            "SMARTAUDIO"@
        } else if n == 10 {
            "ACC"@
        } else if n == 11 {
            "NAV_YAW"@
        } else if n == 12 {
            "PCF8574"@
        } else if n == 13 {
            "DYNAMIC_GYRO_LPF"@
        } else if n == 14 {
            "AUTOLEVEL"@
        } else if n == 15 {
            "ALTITUDE"@
        } else if n == 16 {
            "AUTOTRIM"@
        } else if n == 17 {
            "AUTOTUNE"@
        } else if n == 18 {
            "RATE_DYNAMICS"@
        } else if n == 19 {
            "LANDING"@
        } else if n == 20 {
            "POS_EST"@
        } else {
            ""@
        }),
{
}

} // verus!
