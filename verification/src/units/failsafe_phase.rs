//! The phases of the failsafe routine.

use vstd::prelude::*;

use crate::headers::InternalFirmware;

verus! {

/// The current failsafe phase.
#[derive(Debug, Clone, Copy, PartialEq, Eq, Hash, Structural)]
pub enum FailsafePhase {
    /// `GPS_RESCUE`
    GpsRescue,
    /// `IDLE`
    Idle,
    /// `LANDED`
    Landed,
    /// `LANDING`
    Landing,
    /// `RETURN_TO_HOME`
    ReturnToHome,
    /// `RX_LOSS_DETECTED`
    RxLossDetected,
    /// `RX_LOSS_IDLE`
    RxLossIdle,
    /// `RX_LOSS_MONITORING`
    RxLossMonitoring,
    /// `RX_LOSS_RECOVERED`
    RxLossRecovered,
    Unknown,
}

/// The name that the firmware gives a `FailsafePhase`.
pub open spec fn failsafe_phase_name(value: FailsafePhase) -> Seq<char> {
    match value {
        FailsafePhase::GpsRescue => "GPS_RESCUE"@,
        FailsafePhase::Idle => "IDLE"@,
        FailsafePhase::Landed => "LANDED"@,
        FailsafePhase::Landing => "LANDING"@,
        FailsafePhase::ReturnToHome => "RETURN_TO_HOME"@,
        FailsafePhase::RxLossDetected => "RX_LOSS_DETECTED"@,
        FailsafePhase::RxLossIdle => "RX_LOSS_IDLE"@,
        FailsafePhase::RxLossMonitoring => "RX_LOSS_MONITORING"@,
        FailsafePhase::RxLossRecovered => "RX_LOSS_RECOVERED"@,
        FailsafePhase::Unknown => "UNKNOWN"@,
    }
}

/// The phase that the raw value `raw` stands for in logs written by `fw`; values that stand for none are `Unknown`.
pub open spec fn failsafe_phase_of(raw: u32, fw: InternalFirmware) -> FailsafePhase {
    match (raw, fw) {
        (0u32, InternalFirmware::Betaflight4_2 | InternalFirmware::Betaflight4_3 | InternalFirmware::Betaflight4_4 | InternalFirmware::Inav5 | InternalFirmware::Inav6 | InternalFirmware::Inav7) => FailsafePhase::Idle,
        (1u32, InternalFirmware::Betaflight4_2 | InternalFirmware::Betaflight4_3 | InternalFirmware::Betaflight4_4 | InternalFirmware::Inav5 | InternalFirmware::Inav6 | InternalFirmware::Inav7) => FailsafePhase::RxLossDetected,
        (2u32, InternalFirmware::Betaflight4_2 | InternalFirmware::Betaflight4_3 | InternalFirmware::Betaflight4_4) => FailsafePhase::Landing,
        (2u32, InternalFirmware::Inav5 | InternalFirmware::Inav6 | InternalFirmware::Inav7) => FailsafePhase::RxLossIdle,
        (3u32, InternalFirmware::Betaflight4_2 | InternalFirmware::Betaflight4_3 | InternalFirmware::Betaflight4_4) => FailsafePhase::Landed,
        (3u32, InternalFirmware::Inav5 | InternalFirmware::Inav6 | InternalFirmware::Inav7) => FailsafePhase::ReturnToHome,
        (4u32, InternalFirmware::Betaflight4_2 | InternalFirmware::Betaflight4_3 | InternalFirmware::Betaflight4_4) => FailsafePhase::RxLossMonitoring,
        (4u32, InternalFirmware::Inav5 | InternalFirmware::Inav6 | InternalFirmware::Inav7) => FailsafePhase::Landing,
        (5u32, InternalFirmware::Betaflight4_2 | InternalFirmware::Betaflight4_3 | InternalFirmware::Betaflight4_4) => FailsafePhase::RxLossRecovered,
        (5u32, InternalFirmware::Inav5 | InternalFirmware::Inav6 | InternalFirmware::Inav7) => FailsafePhase::Landed,
        (6u32, InternalFirmware::Betaflight4_2 | InternalFirmware::Betaflight4_3 | InternalFirmware::Betaflight4_4) => FailsafePhase::GpsRescue,
        (6u32, InternalFirmware::Inav5 | InternalFirmware::Inav6 | InternalFirmware::Inav7) => FailsafePhase::RxLossMonitoring,
        (7u32, InternalFirmware::Inav5 | InternalFirmware::Inav6 | InternalFirmware::Inav7) => FailsafePhase::RxLossRecovered,
        _ => FailsafePhase::Unknown,
    }
}

impl FailsafePhase {
    /// The name that the firmware gives this value.
    pub fn as_name(&self) -> (name: &'static str)
        ensures
            name@ == failsafe_phase_name(*self),
    {
        match self {
            FailsafePhase::GpsRescue => "GPS_RESCUE",
            FailsafePhase::Idle => "IDLE",
            FailsafePhase::Landed => "LANDED",
            FailsafePhase::Landing => "LANDING",
            FailsafePhase::ReturnToHome => "RETURN_TO_HOME",
            FailsafePhase::RxLossDetected => "RX_LOSS_DETECTED",
            FailsafePhase::RxLossIdle => "RX_LOSS_IDLE",
            FailsafePhase::RxLossMonitoring => "RX_LOSS_MONITORING",
            FailsafePhase::RxLossRecovered => "RX_LOSS_RECOVERED",
            FailsafePhase::Unknown => "UNKNOWN",
        }
    }

    /// Reads the raw header value `raw` as written by `fw`.
    pub fn new(raw: u32, fw: InternalFirmware) -> (value: FailsafePhase)
        ensures
            value == failsafe_phase_of(raw, fw),
    {
        match (raw, fw) {
            (0u32, InternalFirmware::Betaflight4_2 | InternalFirmware::Betaflight4_3 | InternalFirmware::Betaflight4_4 | InternalFirmware::Inav5 | InternalFirmware::Inav6 | InternalFirmware::Inav7) => FailsafePhase::Idle,
            (1u32, InternalFirmware::Betaflight4_2 | InternalFirmware::Betaflight4_3 | InternalFirmware::Betaflight4_4 | InternalFirmware::Inav5 | InternalFirmware::Inav6 | InternalFirmware::Inav7) => FailsafePhase::RxLossDetected,
            (2u32, InternalFirmware::Betaflight4_2 | InternalFirmware::Betaflight4_3 | InternalFirmware::Betaflight4_4) => FailsafePhase::Landing,
            (2u32, InternalFirmware::Inav5 | InternalFirmware::Inav6 | InternalFirmware::Inav7) => FailsafePhase::RxLossIdle,
            (3u32, InternalFirmware::Betaflight4_2 | InternalFirmware::Betaflight4_3 | InternalFirmware::Betaflight4_4) => FailsafePhase::Landed,
            (3u32, InternalFirmware::Inav5 | InternalFirmware::Inav6 | InternalFirmware::Inav7) => FailsafePhase::ReturnToHome,
            (4u32, InternalFirmware::Betaflight4_2 | InternalFirmware::Betaflight4_3 | InternalFirmware::Betaflight4_4) => FailsafePhase::RxLossMonitoring,
            (4u32, InternalFirmware::Inav5 | InternalFirmware::Inav6 | InternalFirmware::Inav7) => FailsafePhase::Landing,
            (5u32, InternalFirmware::Betaflight4_2 | InternalFirmware::Betaflight4_3 | InternalFirmware::Betaflight4_4) => FailsafePhase::RxLossRecovered,
            (5u32, InternalFirmware::Inav5 | InternalFirmware::Inav6 | InternalFirmware::Inav7) => FailsafePhase::Landed,
            (6u32, InternalFirmware::Betaflight4_2 | InternalFirmware::Betaflight4_3 | InternalFirmware::Betaflight4_4) => FailsafePhase::GpsRescue,
            (6u32, InternalFirmware::Inav5 | InternalFirmware::Inav6 | InternalFirmware::Inav7) => FailsafePhase::RxLossMonitoring,
            (7u32, InternalFirmware::Inav5 | InternalFirmware::Inav6 | InternalFirmware::Inav7) => FailsafePhase::RxLossRecovered,
            _ => FailsafePhase::Unknown,
        }
    }
}

/// The failsafe phases that Betaflight 4.2, Betaflight 4.3, Betaflight 4.4
/// write, by number: 0 Idle (`IDLE`), 1 RxLossDetected (`RX_LOSS_DETECTED`), 2
/// Landing (`LANDING`), 3 Landed (`LANDED`), 4 RxLossMonitoring
/// (`RX_LOSS_MONITORING`), 5 RxLossRecovered (`RX_LOSS_RECOVERED`), 6 GpsRescue
/// (`GPS_RESCUE`); every other number stands for Unknown.
pub proof fn lemma_failsafe_phase_of_betaflight4_2_betaflight4_3_betaflight4_4(fw: InternalFirmware, n: u32)
    requires
        fw == InternalFirmware::Betaflight4_2 || fw == InternalFirmware::Betaflight4_3 || fw == InternalFirmware::Betaflight4_4,
    ensures
        failsafe_phase_of(n, fw) == (if n == 0 {
            FailsafePhase::Idle
        } else if n == 1 {
            FailsafePhase::RxLossDetected
        } else if n == 2 {
            FailsafePhase::Landing
        } else if n == 3 {
            FailsafePhase::Landed
        } else if n == 4 {
            FailsafePhase::RxLossMonitoring
        } else if n == 5 {
            FailsafePhase::RxLossRecovered
        } else if n == 6 {
            FailsafePhase::GpsRescue
        } else {
            FailsafePhase::Unknown
        }),
        failsafe_phase_name(failsafe_phase_of(n, fw)) == (if n == 0 {
            "IDLE"@
        } else if n == 1 {
            "RX_LOSS_DETECTED"@
        } else if n == 2 {
            "LANDING"@
        } else if n == 3 {
            "LANDED"@
        } else if n == 4 {
            "RX_LOSS_MONITORING"@
        } else if n == 5 {
            "RX_LOSS_RECOVERED"@
        } else if n == 6 {
            "GPS_RESCUE"@
        } else {
            "UNKNOWN"@
        }),
{
}

/// Betaflight 4.5 writes no failsafe phases: every number stands for Unknown.
pub proof fn lemma_failsafe_phase_of_betaflight4_5(fw: InternalFirmware, n: u32)
    requires
        fw == InternalFirmware::Betaflight4_5,
    ensures
        failsafe_phase_of(n, fw) == ({
            FailsafePhase::Unknown
        }),
        failsafe_phase_name(failsafe_phase_of(n, fw)) == ({
            "UNKNOWN"@
        }),
{
}

/// The failsafe phases that INAV 5, INAV 6, INAV 7 write, by number: 0 Idle
/// (`IDLE`), 1 RxLossDetected (`RX_LOSS_DETECTED`), 2 RxLossIdle
/// (`RX_LOSS_IDLE`), 3 ReturnToHome (`RETURN_TO_HOME`), 4 Landing (`LANDING`),
/// 5 Landed (`LANDED`), 6 RxLossMonitoring (`RX_LOSS_MONITORING`), 7
/// RxLossRecovered (`RX_LOSS_RECOVERED`); every other number stands for
/// Unknown.
pub proof fn lemma_failsafe_phase_of_inav5_inav6_inav7(fw: InternalFirmware, n: u32)
    requires
        fw == InternalFirmware::Inav5 || fw == InternalFirmware::Inav6 || fw == InternalFirmware::Inav7,
    ensures
        failsafe_phase_of(n, fw) == (if n == 0 {
            FailsafePhase::Idle
        } else if n == 1 {
            FailsafePhase::RxLossDetected
        } else if n == 2 {
            FailsafePhase::RxLossIdle
        } else if n == 3 {
            FailsafePhase::ReturnToHome
        } else if n == 4 {
            FailsafePhase::Landing
        } else if n == 5 {
            FailsafePhase::Landed
        } else if n == 6 {
            FailsafePhase::RxLossMonitoring
        } else if n == 7 {
            FailsafePhase::RxLossRecovered
        } else {
            FailsafePhase::Unknown
        }),
        failsafe_phase_name(failsafe_phase_of(n, fw)) == (if n == 0 {
            "IDLE"@
        } else if n == 1 {
            "RX_LOSS_DETECTED"@
        } else if n == 2 {
            "RX_LOSS_IDLE"@
        } else if n == 3 {
            "RETURN_TO_HOME"@
        } else if n == 4 {
            "LANDING"@
        } else if n == 5 {
            "LANDED"@
        } else if n == 6 {
            "RX_LOSS_MONITORING"@
        } else if n == 7 {
            "RX_LOSS_RECOVERED"@
        } else {
            "UNKNOWN"@
        }),
{
}

} // verus!
