//! The protocols that flight controllers use to talk to ESCs.

use vstd::prelude::*;

use crate::headers::InternalFirmware;

verus! {

/// An ESC communication protocol.
#[derive(Debug, Clone, Copy, PartialEq, Eq, Hash, Structural)]
pub enum PwmProtocol {
    /// `BRUSHED`
    Brushed,
    /// `DISABLED`
    Disabled,
    /// `DSHOT150`
    Dshot150,
    /// `DSHOT300`
    Dshot300,
    /// `DSHOT600`
    Dshot600,
    /// `MULTISHOT`
    Multishot,
    /// `ONESHOT125`
    Oneshot125,
    /// `ONESHOT42`
    Oneshot42,
    /// `PROSHOT1000`
    Proshot1000,
    /// `STANDARD`
    Standard,
}

/// The name that the firmware gives a `PwmProtocol`.
pub open spec fn pwm_protocol_name(value: PwmProtocol) -> Seq<char> {
    match value {
        PwmProtocol::Brushed => "BRUSHED"@,
        PwmProtocol::Disabled => "DISABLED"@,
        PwmProtocol::Dshot150 => "DSHOT150"@,
        PwmProtocol::Dshot300 => "DSHOT300"@,
        PwmProtocol::Dshot600 => "DSHOT600"@,
        PwmProtocol::Multishot => "MULTISHOT"@,
        PwmProtocol::Oneshot125 => "ONESHOT125"@,
        PwmProtocol::Oneshot42 => "ONESHOT42"@,
        PwmProtocol::Proshot1000 => "PROSHOT1000"@,
        PwmProtocol::Standard => "STANDARD"@,
    }
}

/// The protocol that the raw header value `raw` stands for in logs written by `fw`.
pub open spec fn pwm_protocol_of(raw: u32, fw: InternalFirmware) -> Option<PwmProtocol> {
    match (raw, fw) {
        (0u32, InternalFirmware::Betaflight4_2 | InternalFirmware::Betaflight4_3 | InternalFirmware::Betaflight4_4 | InternalFirmware::Inav5 | InternalFirmware::Inav6 | InternalFirmware::Inav7) => Some(PwmProtocol::Standard),
        (1u32, InternalFirmware::Betaflight4_2 | InternalFirmware::Betaflight4_3 | InternalFirmware::Betaflight4_4 | InternalFirmware::Inav5 | InternalFirmware::Inav6 | InternalFirmware::Inav7) => Some(PwmProtocol::Oneshot125),
        (2u32, InternalFirmware::Betaflight4_2 | InternalFirmware::Betaflight4_3 | InternalFirmware::Betaflight4_4) => Some(PwmProtocol::Oneshot42),
        (2u32, InternalFirmware::Inav5 | InternalFirmware::Inav6 | InternalFirmware::Inav7) => Some(PwmProtocol::Multishot),
        (3u32, InternalFirmware::Betaflight4_2 | InternalFirmware::Betaflight4_3 | InternalFirmware::Betaflight4_4) => Some(PwmProtocol::Multishot),
        (3u32, InternalFirmware::Inav5 | InternalFirmware::Inav6 | InternalFirmware::Inav7) => Some(PwmProtocol::Brushed),
        (4u32, InternalFirmware::Betaflight4_2 | InternalFirmware::Betaflight4_3 | InternalFirmware::Betaflight4_4) => Some(PwmProtocol::Brushed),
        (4u32, InternalFirmware::Inav5 | InternalFirmware::Inav6 | InternalFirmware::Inav7) => Some(PwmProtocol::Dshot150),
        (5u32, InternalFirmware::Betaflight4_2 | InternalFirmware::Betaflight4_3 | InternalFirmware::Betaflight4_4) => Some(PwmProtocol::Dshot150),
        (5u32, InternalFirmware::Inav5 | InternalFirmware::Inav6 | InternalFirmware::Inav7) => Some(PwmProtocol::Dshot300),
        (6u32, InternalFirmware::Betaflight4_2 | InternalFirmware::Betaflight4_3 | InternalFirmware::Betaflight4_4) => Some(PwmProtocol::Dshot300),
        (6u32, InternalFirmware::Inav5 | InternalFirmware::Inav6 | InternalFirmware::Inav7) => Some(PwmProtocol::Dshot600),
        (7u32, InternalFirmware::Betaflight4_2 | InternalFirmware::Betaflight4_3 | InternalFirmware::Betaflight4_4) => Some(PwmProtocol::Dshot600),
        (8u32, InternalFirmware::Betaflight4_2 | InternalFirmware::Betaflight4_3 | InternalFirmware::Betaflight4_4) => Some(PwmProtocol::Proshot1000),
        (9u32, InternalFirmware::Betaflight4_2 | InternalFirmware::Betaflight4_3 | InternalFirmware::Betaflight4_4) => Some(PwmProtocol::Disabled),
        _ => None,
    }
}

impl PwmProtocol {
    /// The name that the firmware gives this value.
    pub fn as_name(&self) -> (name: &'static str)
        ensures
            name@ == pwm_protocol_name(*self),
    {
        match self {
            PwmProtocol::Brushed => "BRUSHED",
            PwmProtocol::Disabled => "DISABLED",
            PwmProtocol::Dshot150 => "DSHOT150",
            PwmProtocol::Dshot300 => "DSHOT300",
            PwmProtocol::Dshot600 => "DSHOT600",
            PwmProtocol::Multishot => "MULTISHOT",
            PwmProtocol::Oneshot125 => "ONESHOT125",
            PwmProtocol::Oneshot42 => "ONESHOT42",
            PwmProtocol::Proshot1000 => "PROSHOT1000",
            PwmProtocol::Standard => "STANDARD",
        }
    }

    /// Reads the raw header value `raw` as written by `fw`.
    pub fn new(raw: u32, fw: InternalFirmware) -> (value: Option<PwmProtocol>)
        ensures
            value == pwm_protocol_of(raw, fw),
    {
        match (raw, fw) {
            (0u32, InternalFirmware::Betaflight4_2 | InternalFirmware::Betaflight4_3 | InternalFirmware::Betaflight4_4 | InternalFirmware::Inav5 | InternalFirmware::Inav6 | InternalFirmware::Inav7) => Some(PwmProtocol::Standard),
            (1u32, InternalFirmware::Betaflight4_2 | InternalFirmware::Betaflight4_3 | InternalFirmware::Betaflight4_4 | InternalFirmware::Inav5 | InternalFirmware::Inav6 | InternalFirmware::Inav7) => Some(PwmProtocol::Oneshot125),
            (2u32, InternalFirmware::Betaflight4_2 | InternalFirmware::Betaflight4_3 | InternalFirmware::Betaflight4_4) => Some(PwmProtocol::Oneshot42),
            (2u32, InternalFirmware::Inav5 | InternalFirmware::Inav6 | InternalFirmware::Inav7) => Some(PwmProtocol::Multishot),
            (3u32, InternalFirmware::Betaflight4_2 | InternalFirmware::Betaflight4_3 | InternalFirmware::Betaflight4_4) => Some(PwmProtocol::Multishot),
            (3u32, InternalFirmware::Inav5 | InternalFirmware::Inav6 | InternalFirmware::Inav7) => Some(PwmProtocol::Brushed),
            (4u32, InternalFirmware::Betaflight4_2 | InternalFirmware::Betaflight4_3 | InternalFirmware::Betaflight4_4) => Some(PwmProtocol::Brushed),
            (4u32, InternalFirmware::Inav5 | InternalFirmware::Inav6 | InternalFirmware::Inav7) => Some(PwmProtocol::Dshot150),
            (5u32, InternalFirmware::Betaflight4_2 | InternalFirmware::Betaflight4_3 | InternalFirmware::Betaflight4_4) => Some(PwmProtocol::Dshot150),
            (5u32, InternalFirmware::Inav5 | InternalFirmware::Inav6 | InternalFirmware::Inav7) => Some(PwmProtocol::Dshot300),
            (6u32, InternalFirmware::Betaflight4_2 | InternalFirmware::Betaflight4_3 | InternalFirmware::Betaflight4_4) => Some(PwmProtocol::Dshot300),
            (6u32, InternalFirmware::Inav5 | InternalFirmware::Inav6 | InternalFirmware::Inav7) => Some(PwmProtocol::Dshot600),
            (7u32, InternalFirmware::Betaflight4_2 | InternalFirmware::Betaflight4_3 | InternalFirmware::Betaflight4_4) => Some(PwmProtocol::Dshot600),
            (8u32, InternalFirmware::Betaflight4_2 | InternalFirmware::Betaflight4_3 | InternalFirmware::Betaflight4_4) => Some(PwmProtocol::Proshot1000),
            (9u32, InternalFirmware::Betaflight4_2 | InternalFirmware::Betaflight4_3 | InternalFirmware::Betaflight4_4) => Some(PwmProtocol::Disabled),
            _ => None,
        }
    }
}

/// The motor protocols that Betaflight 4.2, Betaflight 4.3, Betaflight 4.4
/// write, by number: 0 Standard (`STANDARD`), 1 Oneshot125 (`ONESHOT125`), 2
/// Oneshot42 (`ONESHOT42`), 3 Multishot (`MULTISHOT`), 4 Brushed (`BRUSHED`), 5
/// Dshot150 (`DSHOT150`), 6 Dshot300 (`DSHOT300`), 7 Dshot600 (`DSHOT600`), 8
/// Proshot1000 (`PROSHOT1000`), 9 Disabled (`DISABLED`); every other number
/// stands for none.
pub proof fn lemma_pwm_protocol_of_betaflight4_2_betaflight4_3_betaflight4_4(fw: InternalFirmware, n: u32)
    requires
        fw == InternalFirmware::Betaflight4_2 || fw == InternalFirmware::Betaflight4_3 || fw == InternalFirmware::Betaflight4_4,
    ensures
        pwm_protocol_of(n, fw) == (if n == 0 {
            Some(PwmProtocol::Standard)
        } else if n == 1 {
            Some(PwmProtocol::Oneshot125)
        } else if n == 2 {
            Some(PwmProtocol::Oneshot42)
        } else if n == 3 {
            Some(PwmProtocol::Multishot)
        } else if n == 4 {
            Some(PwmProtocol::Brushed)
        } else if n == 5 {
            Some(PwmProtocol::Dshot150)
        } else if n == 6 {
            Some(PwmProtocol::Dshot300)
        } else if n == 7 {
            Some(PwmProtocol::Dshot600)
        } else if n == 8 {
            Some(PwmProtocol::Proshot1000)
        } else if n == 9 {
            Some(PwmProtocol::Disabled)
        } else {
            None::<PwmProtocol>
        }),
        pwm_protocol_of(n, fw) matches Some(m) ==> pwm_protocol_name(m) == (if n == 0 {
            "STANDARD"@
        } else if n == 1 {
            "ONESHOT125"@
        } else if n == 2 {
            "ONESHOT42"@
        } else if n == 3 {
            "MULTISHOT"@
        } else if n == 4 {
            "BRUSHED"@
        } else if n == 5 {
            "DSHOT150"@
        } else if n == 6 {
            "DSHOT300"@
        } else if n == 7 {
            "DSHOT600"@
        } else if n == 8 {
            "PROSHOT1000"@
        } else if n == 9 {
            "DISABLED"@
        } else {
            ""@
        }),
{
}

/// Betaflight 4.5 writes no motor protocols: every number stands for none.
pub proof fn lemma_pwm_protocol_of_betaflight4_5(fw: InternalFirmware, n: u32)
    requires
        fw == InternalFirmware::Betaflight4_5,
    ensures
        pwm_protocol_of(n, fw) == ({
            None::<PwmProtocol>
        }),
        pwm_protocol_of(n, fw) matches Some(m) ==> pwm_protocol_name(m) == ({
            ""@
        }),
{
}

/// The motor protocols that INAV 5, INAV 6, INAV 7 write, by number: 0 Standard
/// (`STANDARD`), 1 Oneshot125 (`ONESHOT125`), 2 Multishot (`MULTISHOT`), 3
/// Brushed (`BRUSHED`), 4 Dshot150 (`DSHOT150`), 5 Dshot300 (`DSHOT300`), 6
/// Dshot600 (`DSHOT600`); every other number stands for none.
pub proof fn lemma_pwm_protocol_of_inav5_inav6_inav7(fw: InternalFirmware, n: u32)
    requires
        fw == InternalFirmware::Inav5 || fw == InternalFirmware::Inav6 || fw == InternalFirmware::Inav7,
    ensures
        pwm_protocol_of(n, fw) == (if n == 0 {
            Some(PwmProtocol::Standard)
        } else if n == 1 {
            Some(PwmProtocol::Oneshot125)
        } else if n == 2 {
            Some(PwmProtocol::Multishot)
        } else if n == 3 {
            Some(PwmProtocol::Brushed)
        } else if n == 4 {
            Some(PwmProtocol::Dshot150)
        } else if n == 5 {
            Some(PwmProtocol::Dshot300)
        } else if n == 6 {
            Some(PwmProtocol::Dshot600)
        } else {
            None::<PwmProtocol>
        }),
        pwm_protocol_of(n, fw) matches Some(m) ==> pwm_protocol_name(m) == (if n == 0 {
            "STANDARD"@
        } else if n == 1 {
            "ONESHOT125"@
        } else if n == 2 {
            "MULTISHOT"@
        } else if n == 3 {
            "BRUSHED"@
        } else if n == 4 {
            "DSHOT150"@
        } else if n == 5 {
            "DSHOT300"@
        } else if n == 6 {
            "DSHOT600"@
        } else {
            ""@
        }),
{
}

} // verus!
