//! Types shared by the firmwares: log versions, firmware kinds, disarm
//! reason errors and flight mode flags.

use core::marker::PhantomData;

use vstd::prelude::*;

use crate::headers::{eq_ignore_case, eq_lower, ParseError};
use crate::text::{string_text, text, to_string};

verus! {

/// The version of the log format.
#[derive(Debug, Clone, Copy, PartialEq, Eq, PartialOrd, Ord, Structural)]
pub enum LogVersion {
    V1,
    V2,
}

/// The log version that `b` names, in any case: `1` or `v1`, `2` or `v2`.
pub open spec fn log_version_of(b: Seq<u8>) -> Option<LogVersion> {
    if eq_lower(b, text("1")) || eq_lower(b, text("v1")) {
        Some(LogVersion::V1)
    } else if eq_lower(b, text("2")) || eq_lower(b, text("v2")) {
        Some(LogVersion::V2)
    } else {
        None
    }
}

impl LogVersion {
    /// Reads the name of a log version.
    pub fn from_str(s: &str) -> (v: Result<Self, ()>)
        ensures
            match log_version_of(text(s)) {
                Some(v2) => v == Ok::<Self, ()>(v2),
                None => v is Err,
            },
    {
        if eq_ignore_case(s, "1") || eq_ignore_case(s, "v1") {
            Ok(LogVersion::V1)
        } else if eq_ignore_case(s, "2") || eq_ignore_case(s, "v2") {
            Ok(LogVersion::V2)
        } else {
            Err(())
        }
    }
}

/// The family of firmware that wrote a log.
#[derive(Debug, Clone, Copy, PartialEq, Eq, Hash, Structural)]
pub enum FirmwareKind {
    Betaflight,
    INav,
}

/// The firmware family that `b` names, in any case: Cleanflight and
/// Betaflight logs are read alike, Baseflight logs are not supported.
pub open spec fn firmware_kind_of(b: Seq<u8>) -> Option<FirmwareKind> {
    if eq_lower(b, text("cleanflight")) || eq_lower(b, text("betaflight")) {
        Some(FirmwareKind::Betaflight)
    } else if eq_lower(b, text("inav")) {
        Some(FirmwareKind::INav)
    } else {
        None
    }
}

impl FirmwareKind {
    /// Reads the `Firmware type` header.
    pub fn from_str(s: &str) -> (kind: Result<Self, ParseError>)
        ensures
            match firmware_kind_of(text(s)) {
                Some(k) => kind == Ok::<Self, ParseError>(k),
                None => kind matches Err(ParseError::InvalidFirmware(name)) && string_text(&name)
                    == text(s),
            },
    {
        if eq_ignore_case(s, "cleanflight") || eq_ignore_case(s, "betaflight") {
            Ok(FirmwareKind::Betaflight)
        } else if eq_ignore_case(s, "inav") {
            Ok(FirmwareKind::INav)
        } else {
            Err(ParseError::InvalidFirmware(to_string(s)))
        }
    }
}

/// The error of reading a disarm reason that is invalid or not supported.
#[derive(Debug, Clone, Copy, PartialEq, Eq, Structural)]
pub struct DisarmReasonError;

impl DisarmReasonError {
    /// The message that describes the error.
    pub fn message(&self) -> (m: &'static str)
        ensures
            m@ == "invalid or unsupported disarm reason"@,
    {
        "invalid or unsupported disarm reason"
    }
}

/// Flight mode flags whose bits stand for the flight modes `T`.
#[derive(Debug, PartialEq, Eq, Hash)]
pub struct FlightModeFlags<T>(pub u32, pub PhantomData<T>);

impl<T> Clone for FlightModeFlags<T> {
    fn clone(&self) -> (c: Self)
        ensures
            c.0 == self.0,
    {
        FlightModeFlags(self.0, PhantomData)
    }
}

impl<T> Copy for FlightModeFlags<T> {

}

impl<T> FlightModeFlags<T> {
    /// The flags `flags`.
    pub fn new(flags: u32) -> (f: Self)
        ensures
            f.0 == flags,
    {
        FlightModeFlags(flags, PhantomData)
    }

    /// Whether bit `bit` is set.
    pub fn is_bit_set(&self, bit: u32) -> (set: bool)
        requires
            bit < 32,
        ensures
            set == crate::units::bit_set(self.0, bit),
    {
        let flags = self.0;
        let set = (flags & (1u32 << bit)) > 0;
        assert(set == crate::units::bit_set(flags, bit)) by (bit_vector)
            requires
                bit < 32,
                set == ((flags & (1u32 << bit)) > 0),
        ;
        set
    }
}

} // verus!
