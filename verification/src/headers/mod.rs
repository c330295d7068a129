//! The header section of a log: the firmware that wrote it and the header
//! lines themselves.

use vstd::prelude::*;
use core::cmp::Ordering;
use vstd::std_specs::cmp::{PartialOrdSpec, PartialOrdSpecImpl};
use vstd::std_specs::convert::FromSpecImpl;
use vstd::utf8::valid_utf8;

use crate::decode::InternalError;
use crate::reader::{byte_index, line_end, Reader};
use crate::text::{
    decimal, find, parse_decimal, split_once, string_text, strip_prefix, text, to_string,
    utf8_text,
};

pub mod state;

pub use self::state::{unknown_entries, FirmwareDate, Headers, RawHeaderValue, State, UnknownHeaders};

verus! {

/// The firmware versions whose logs can be read, each standing for the
/// releases that share a log format.
#[derive(Debug, Clone, Copy, PartialEq, Eq, Hash, Structural)]
pub enum InternalFirmware {
    Betaflight4_2,
    Betaflight4_3,
    Betaflight4_4,
    Betaflight4_5,
    Inav5,
    Inav6,
    Inav7,
}

/// A version number of a firmware.
#[derive(Debug, Clone, Copy, PartialEq, Eq, Ord, Hash, Structural)]
pub struct FirmwareVersion {
    pub major: u8,
    pub minor: u8,
    pub patch: u8,
}

impl FirmwareVersion {
    pub fn new(major: u8, minor: u8, patch: u8) -> (v: Self)
        ensures
            v == (FirmwareVersion { major, minor, patch }),
    {
        Self { major, minor, patch }
    }
}

/// How `a` compares with `b`: by the major number, then the minor, then the
/// patch number.
pub open spec fn version_order(a: FirmwareVersion, b: FirmwareVersion) -> Ordering {
    if a.major != b.major {
        if a.major < b.major {
            Ordering::Less
        } else {
            Ordering::Greater
        }
    } else if a.minor != b.minor {
        if a.minor < b.minor {
            Ordering::Less
        } else {
            Ordering::Greater
        }
    } else if a.patch != b.patch {
        if a.patch < b.patch {
            Ordering::Less
        } else {
            Ordering::Greater
        }
    } else {
        Ordering::Equal
    }
}

impl PartialOrd for FirmwareVersion {
    fn partial_cmp(&self, other: &Self) -> (o: Option<Ordering>) {
        if self.major != other.major {
            if self.major < other.major {
                Some(Ordering::Less)
            } else {
                Some(Ordering::Greater)
            }
        } else if self.minor != other.minor {
            if self.minor < other.minor {
                Some(Ordering::Less)
            } else {
                Some(Ordering::Greater)
            }
        } else if self.patch != other.patch {
            if self.patch < other.patch {
                Some(Ordering::Less)
            } else {
                Some(Ordering::Greater)
            }
        } else {
            Some(Ordering::Equal)
        }
    }
}

impl PartialOrdSpecImpl for FirmwareVersion {
    open spec fn obeys_partial_cmp_spec() -> bool {
        true
    }

    open spec fn partial_cmp_spec(&self, other: &Self) -> Option<Ordering> {
        Some(version_order(*self, *other))
    }
}

/// Versions are ordered as the triples of their major, minor and patch
/// numbers, compared from the left: a version comes before another exactly
/// when it has a lower major number, or the same and a lower minor number,
/// or both the same and a lower patch number.
pub proof fn lemma_version_order(a: FirmwareVersion, b: FirmwareVersion)
    ensures
        (PartialOrdSpec::partial_cmp_spec(&a, &b) == Some(Ordering::Less)) <==> (a.major < b.major || (a.major
            == b.major && (a.minor < b.minor || (a.minor == b.minor && a.patch < b.patch)))),
        (PartialOrdSpec::partial_cmp_spec(&a, &b) == Some(Ordering::Equal)) <==> a == b,
        (PartialOrdSpec::partial_cmp_spec(&a, &b) == Some(Ordering::Less)) <==> (PartialOrdSpec::partial_cmp_spec(&b, &a) == Some(
            Ordering::Greater,
        )),
{
}

/// A supported firmware.
///
/// This is not the `Firmware type` header, which all modern firmwares set to
/// `Cleanflight`, but what `Firmware revision` says.
#[derive(Debug, Clone, Copy, PartialEq, Eq, Hash, Structural)]
pub enum Firmware {
    /// Betaflight
    Betaflight(FirmwareVersion),
    /// INAV
    Inav(FirmwareVersion),
}

impl Firmware {
    /// The name of the firmware.
    pub fn name(&self) -> (name: &'static str)
        ensures
            name@ == (match self {
                Firmware::Betaflight(_) => "Betaflight"@,
                Firmware::Inav(_) => "INAV"@,
            }),
    {
        match self {
            Firmware::Betaflight(_) => "Betaflight",
            Firmware::Inav(_) => "INAV",
        }
    }

    /// The version of the firmware.
    pub fn version(&self) -> (v: FirmwareVersion)
        ensures
            v == (match self {
                Firmware::Betaflight(v) => *v,
                Firmware::Inav(v) => *v,
            }),
    {
        match self {
            Firmware::Betaflight(v) => *v,
            Firmware::Inav(v) => *v,
        }
    }
}

/// The first release of the family of releases that `fw` stands for.
pub open spec fn firmware_of(fw: InternalFirmware) -> Firmware {
    match fw {
        InternalFirmware::Betaflight4_2 => Firmware::Betaflight(FirmwareVersion { major: 4, minor: 2, patch: 0 }),
        InternalFirmware::Betaflight4_3 => Firmware::Betaflight(FirmwareVersion { major: 4, minor: 3, patch: 0 }),
        InternalFirmware::Betaflight4_4 => Firmware::Betaflight(FirmwareVersion { major: 4, minor: 4, patch: 0 }),
        InternalFirmware::Betaflight4_5 => Firmware::Betaflight(FirmwareVersion { major: 4, minor: 5, patch: 0 }),
        InternalFirmware::Inav5 => Firmware::Inav(FirmwareVersion { major: 5, minor: 0, patch: 0 }),
        InternalFirmware::Inav6 => Firmware::Inav(FirmwareVersion { major: 6, minor: 0, patch: 0 }),
        InternalFirmware::Inav7 => Firmware::Inav(FirmwareVersion { major: 7, minor: 0, patch: 0 }),
    }
}

/// The family of Betaflight releases that `v` belongs to, if its logs can be
/// read: 4.2.0 up to but not including 4.5.0.
pub open spec fn betaflight_release(v: FirmwareVersion) -> Option<InternalFirmware> {
    if v.major == 4 && v.minor == 2 {
        Some(InternalFirmware::Betaflight4_2)
    } else if v.major == 4 && v.minor == 3 {
        Some(InternalFirmware::Betaflight4_3)
    } else if v.major == 4 && v.minor == 4 {
        Some(InternalFirmware::Betaflight4_4)
    } else {
        None
    }
}

/// The family of INAV releases that `v` belongs to, if its logs can be read:
/// 5.0.0 up to 5.2.0, 6.0.0 up to 6.2.0 and 7.0.0 up to 7.1.0, the ends not
/// included.
pub open spec fn inav_release(v: FirmwareVersion) -> Option<InternalFirmware> {
    if v.major == 5 && v.minor <= 1 {
        Some(InternalFirmware::Inav5)
    } else if v.major == 6 && v.minor <= 1 {
        Some(InternalFirmware::Inav6)
    } else if v.major == 7 && v.minor == 0 {
        Some(InternalFirmware::Inav7)
    } else {
        None
    }
}

/// The version that `b` spells as `major.minor.patch`, each part a decimal
/// number below 256.
pub open spec fn version_of(b: Seq<u8>) -> Option<FirmwareVersion> {
    let i = find(b, 0x2e);
    let rest = b.skip(i + 1);
    let j = find(rest, 0x2e);
    if i < b.len() && j < rest.len() {
        match (decimal(b.take(i), 255), decimal(rest.take(j), 255), decimal(rest.skip(j + 1), 255)) {
            (Ok(major), Ok(minor), Ok(patch)) => Some(
                FirmwareVersion { major: major as u8, minor: minor as u8, patch: patch as u8 },
            ),
            _ => None,
        }
    } else {
        None
    }
}

/// Reads a version written as `major.minor.patch`.
pub fn parse_version(s: &str) -> (v: Option<FirmwareVersion>)
    ensures
        v == version_of(text(s)),
{
    let (major, rest) = match split_once(s, 0x2e) {
        Some(parts) => parts,
        None => return None,
    };
    let (minor, patch) = match split_once(rest, 0x2e) {
        Some(parts) => parts,
        None => return None,
    };
    let major = parse_decimal(major.as_bytes(), 255);
    let minor = parse_decimal(minor.as_bytes(), 255);
    let patch = parse_decimal(patch.as_bytes(), 255);
    match (major, minor, patch) {
        (Ok(major), Ok(minor), Ok(patch)) => Some(
            FirmwareVersion { major: major as u8, minor: minor as u8, patch: patch as u8 },
        ),
        _ => None,
    }
}

/// `c` with ASCII upper case letters made lower case.
pub open spec fn ascii_lower(c: u8) -> u8 {
    if 0x41 <= c <= 0x5a {
        (c + 0x20) as u8
    } else {
        c
    }
}

/// Whether `b` is `lower` once its ASCII letters are made lower case.
pub open spec fn eq_lower(b: Seq<u8>, lower: Seq<u8>) -> bool {
    b.len() == lower.len() && forall|i: int| 0 <= i < b.len() ==> ascii_lower(b[i]) == lower[i]
}

/// Whether `s` is `lower` once its ASCII letters are made lower case.
pub fn eq_ignore_case(s: &str, lower: &str) -> (eq: bool)
    ensures
        eq == eq_lower(text(s), text(lower)),
{
    let x = s.as_bytes();
    let y = lower.as_bytes();
    if x.len() != y.len() {
        return false;
    }
    let mut i: usize = 0;
    while i < x.len()
        invariant
            x@ == text(s),
            y@ == text(lower),
            x.len() == y.len(),
            i <= x.len(),
            forall|j: int| 0 <= j < i ==> ascii_lower(x@[j]) == y@[j],
        decreases x.len() - i,
    {
        let c = x[i];
        let c = if 0x41 <= c && c <= 0x5a {
            c + 0x20
        } else {
            c
        };
        if c != y[i] {
            return false;
        }
        i += 1;
    }
    true
}

/// The firmware that the `Firmware revision` header `revision` names, if its
/// logs can be read: the first word names the firmware, in any case, and the
/// second gives its version.
pub open spec fn firmware_of_revision(revision: Seq<u8>) -> Option<InternalFirmware> {
    let i = find(revision, 0x20);
    let kind = revision.take(i);
    let rest = revision.skip(i + 1);
    let version = rest.take(find(rest, 0x20));
    if i < revision.len() {
        match version_of(version) {
            Some(v) => if eq_lower(kind, text("betaflight")) {
                betaflight_release(v)
            } else if eq_lower(kind, text("inav")) {
                inav_release(v)
            } else {
                None
            },
            None => None,
        }
    } else {
        None
    }
}

/// Each family of releases stands for its first release: Betaflight 4.2.0,
/// 4.3.0, 4.4.0 and 4.5.0, and INAV 5.0.0, 6.0.0 and 7.0.0.
pub proof fn lemma_family_releases()
    ensures
        firmware_of(InternalFirmware::Betaflight4_2) == Firmware::Betaflight(FirmwareVersion { major: 4, minor: 2, patch: 0 }),
        firmware_of(InternalFirmware::Betaflight4_3) == Firmware::Betaflight(FirmwareVersion { major: 4, minor: 3, patch: 0 }),
        firmware_of(InternalFirmware::Betaflight4_4) == Firmware::Betaflight(FirmwareVersion { major: 4, minor: 4, patch: 0 }),
        firmware_of(InternalFirmware::Betaflight4_5) == Firmware::Betaflight(FirmwareVersion { major: 4, minor: 5, patch: 0 }),
        firmware_of(InternalFirmware::Inav5) == Firmware::Inav(FirmwareVersion { major: 5, minor: 0, patch: 0 }),
        firmware_of(InternalFirmware::Inav6) == Firmware::Inav(FirmwareVersion { major: 6, minor: 0, patch: 0 }),
        firmware_of(InternalFirmware::Inav7) == Firmware::Inav(FirmwareVersion { major: 7, minor: 0, patch: 0 }),
{
}

/// The firmware that a revision names: its first word.
pub open spec fn revision_kind(revision: Seq<u8>) -> Seq<u8> {
    revision.take(find(revision, 0x20))
}

/// The version that a revision names: its second word, read as
/// `major.minor.patch`.
pub open spec fn revision_version(revision: Seq<u8>) -> Option<FirmwareVersion> {
    let i = find(revision, 0x20);
    let rest = revision.skip(i + 1);
    if i < revision.len() {
        version_of(rest.take(find(rest, 0x20)))
    } else {
        None
    }
}

/// A revision reads as the family of the firmware and version it names: a
/// Betaflight family whose release has the revision's major and minor
/// numbers, or an INAV family whose release has the revision's major number.
/// Every Betaflight 4.2 to 4.4 and INAV 5.0 to 5.1, 6.0 to 6.1 and 7.0
/// revision reads as a family.
pub proof fn lemma_revision_family(revision: Seq<u8>)
    ensures
        firmware_of_revision(revision) matches Some(fw) ==> (revision_version(revision) matches Some(v)
            && match firmware_of(fw) {
            Firmware::Betaflight(r) => eq_lower(revision_kind(revision), text("betaflight")) && r
                == (FirmwareVersion { major: v.major, minor: v.minor, patch: 0 }),
            Firmware::Inav(r) => eq_lower(revision_kind(revision), text("inav")) && r
                == (FirmwareVersion { major: v.major, minor: 0, patch: 0 }),
        }),
        revision_version(revision) matches Some(v) ==> (eq_lower(
            revision_kind(revision),
            text("betaflight"),
        ) && v.major == 4 && 2 <= v.minor <= 4 ==> firmware_of_revision(revision) is Some),
        revision_version(revision) matches Some(v) ==> (eq_lower(revision_kind(revision), text("inav"))
            && ((v.major == 5 || v.major == 6) && v.minor <= 1 || v.major == 7 && v.minor == 0)
            ==> firmware_of_revision(revision) is Some),
{
    reveal_strlit("betaflight");
    reveal_strlit("inav");
    crate::text::lemma_ascii_text("betaflight");
    crate::text::lemma_ascii_text("inav");
}

impl InternalFirmware {
    /// Whether this is a Betaflight release.
    pub fn is_betaflight(self) -> (b: bool)
        ensures
            b == (firmware_of(self) is Betaflight),
    {
        match self {
            InternalFirmware::Betaflight4_2
            | InternalFirmware::Betaflight4_3
            | InternalFirmware::Betaflight4_4
            | InternalFirmware::Betaflight4_5 => true,
            InternalFirmware::Inav5 | InternalFirmware::Inav6 | InternalFirmware::Inav7 => false,
        }
    }

    /// Whether this is an INAV release.
    pub fn is_inav(self) -> (b: bool)
        ensures
            b == (firmware_of(self) is Inav),
    {
        !self.is_betaflight()
    }

    /// The first release of this family of releases.
    pub fn to_firmware(self) -> (f: Firmware)
        ensures
            f == firmware_of(self),
    {
        match self {
            InternalFirmware::Betaflight4_2 => Firmware::Betaflight(FirmwareVersion::new(4, 2, 0)),
            InternalFirmware::Betaflight4_3 => Firmware::Betaflight(FirmwareVersion::new(4, 3, 0)),
            InternalFirmware::Betaflight4_4 => Firmware::Betaflight(FirmwareVersion::new(4, 4, 0)),
            InternalFirmware::Betaflight4_5 => Firmware::Betaflight(FirmwareVersion::new(4, 5, 0)),
            InternalFirmware::Inav5 => Firmware::Inav(FirmwareVersion::new(5, 0, 0)),
            InternalFirmware::Inav6 => Firmware::Inav(FirmwareVersion::new(6, 0, 0)),
            InternalFirmware::Inav7 => Firmware::Inav(FirmwareVersion::new(7, 0, 0)),
        }
    }

    /// Reads the `Firmware revision` header.
    pub fn parse(revision: &str) -> (res: Result<Self, ParseError>)
        ensures
            match firmware_of_revision(text(revision)) {
                Some(fw) => res == Ok::<Self, ParseError>(fw),
                None => res matches Err(ParseError::InvalidFirmware(r)) && string_text(&r) == text(
                    revision,
                ),
            },
    {
        let invalid = to_string(revision);
        let (kind, rest) = match split_once(revision, 0x20) {
            Some(parts) => parts,
            None => return Err(ParseError::InvalidFirmware(invalid)),
        };
        let version = match split_once(rest, 0x20) {
            Some((version, _)) => version,
            None => rest,
        };
        proof {
            crate::text::lemma_find(text(rest), 0x20);
            if find(text(rest), 0x20) == text(rest).len() {
                assert(text(rest).take(find(text(rest), 0x20)) =~= text(rest));
            }
        }
        let version = match parse_version(version) {
            Some(v) => v,
            None => return Err(ParseError::InvalidFirmware(invalid)),
        };
        let found = if eq_ignore_case(kind, "betaflight") {
            if version.major == 4 && version.minor == 2 {
                Some(InternalFirmware::Betaflight4_2)
            } else if version.major == 4 && version.minor == 3 {
                Some(InternalFirmware::Betaflight4_3)
            } else if version.major == 4 && version.minor == 4 {
                Some(InternalFirmware::Betaflight4_4)
            } else {
                None
            }
        } else if eq_ignore_case(kind, "inav") {
            if version.major == 5 && version.minor <= 1 {
                Some(InternalFirmware::Inav5)
            } else if version.major == 6 && version.minor <= 1 {
                Some(InternalFirmware::Inav6)
            } else if version.major == 7 && version.minor == 0 {
                Some(InternalFirmware::Inav7)
            } else {
                None
            }
        } else {
            None
        };
        match found {
            Some(fw) => Ok(fw),
            None => Err(ParseError::InvalidFirmware(invalid)),
        }
    }
}

impl From<InternalFirmware> for Firmware {
    fn from(fw: InternalFirmware) -> (f: Self) {
        fw.to_firmware()
    }
}

impl FromSpecImpl<InternalFirmware> for Firmware {
    open spec fn obeys_from_spec() -> bool {
        true
    }

    open spec fn from_spec(fw: InternalFirmware) -> Self {
        firmware_of(fw)
    }
}

/// The kinds of frames in the data section of a log.
#[derive(Debug, Clone, Copy, PartialEq, Eq, Hash, Structural)]
pub enum DataFrameKind {
    Intra,
    Inter,
    Gps,
    GpsHome,
    Slow,
}

/// A fatal error encountered while parsing the headers of a log.
#[derive(Debug, Clone)]
pub enum ParseError {
    /// The log uses a format version that is unsupported or could not be
    /// parsed.
    UnsupportedVersion,
    /// The `Firmware revision` header could not be parsed.
    InvalidFirmware(String),
    /// Could not parse the value in header `header`.
    InvalidHeader { header: String, value: String },
    /// Did not find a required header.
    MissingHeader,
    /// The file ended before the start of the data section.
    IncompleteHeaders,
    /// The definition of frame type `frame` is missing a required field.
    MissingField { frame: DataFrameKind, field: String },
    /// The definition headers of frame type `frame` do not all list the same
    /// number of fields.
    MalformedFrameDef(DataFrameKind),
}

/// The range of values sent to the motors.
#[derive(Debug, Clone, Copy, PartialEq, Eq, Structural)]
pub struct MotorOutputRange {
    pub min: u16,
    pub max: u16,
}

/// The range that the `motorOutput` header `b` gives as `min,max`.
pub open spec fn motor_output_range_of(b: Seq<u8>) -> Option<MotorOutputRange> {
    let i = find(b, 0x2c);
    if i < b.len() {
        match (decimal(b.take(i), 0xffff), decimal(b.skip(i + 1), 0xffff)) {
            (Ok(min), Ok(max)) => Some(MotorOutputRange { min: min as u16, max: max as u16 }),
            _ => None,
        }
    } else {
        None
    }
}

impl MotorOutputRange {
    /// Reads the `motorOutput` header.
    pub fn from_str(s: &str) -> (range: Option<Self>)
        ensures
            range == motor_output_range_of(text(s)),
    {
        let (min, max) = match split_once(s, 0x2c) {
            Some(parts) => parts,
            None => return None,
        };
        match (parse_decimal(min.as_bytes(), 0xffff), parse_decimal(max.as_bytes(), 0xffff)) {
            (Ok(min), Ok(max)) => Some(MotorOutputRange { min: min as u16, max: max as u16 }),
            _ => None,
        }
    }
}

/// The header line that starts at byte `k` of `d`, as `parse_header` reads
/// it: an `H`, then the rest of the line, which is UTF-8 text, less one
/// leading space, split at its first colon into name and value.
pub open spec fn header_at(d: Seq<u8>, k: int) -> Result<(Seq<u8>, Seq<u8>), InternalError> {
    if k >= d.len() {
        Err(InternalError::Eof)
    } else if d[k] != 0x48 {
        Err(InternalError::Retry)
    } else if k + 1 >= d.len() {
        Err(InternalError::Eof)
    } else {
        let line = d.subrange(k + 1, line_end(d, k + 1));
        let line = if line.len() > 0 && line[0] == 0x20 {
            line.drop_first()
        } else {
            line
        };
        let colon = find(line, 0x3a);
        if !valid_utf8(d.subrange(k + 1, line_end(d, k + 1))) || colon == line.len() {
            Err(InternalError::Retry)
        } else {
            Ok((line.take(colon), line.skip(colon + 1)))
        }
    }
}

/// The position after the header line at byte `k` of `d`, as far as
/// `parse_header` reads.
pub open spec fn header_end(d: Seq<u8>, k: int) -> int {
    if k >= d.len() {
        8 * k
    } else if d[k] != 0x48 || k + 1 >= d.len() {
        8 * (k + 1)
    } else {
        let end = line_end(d, k + 1);
        8 * (if end < d.len() {
            end + 1
        } else {
            end
        })
    }
}

/// Reads one header line, which must start with `H`, as its name and value.
pub fn parse_header(data: &mut Reader) -> (res: Result<(String, String), InternalError>)
    requires
        old(data).wf(),
    ensures
        final(data).wf(),
        final(data).data() == old(data).data(),
        ({
            let d = old(data).data();
            let k = byte_index(old(data).pos());
            &&& match header_at(d, k) {
                Ok((name, value)) => res matches Ok((n, v)) && string_text(&n) == name
                    && string_text(&v) == value,
                Err(e) => res == Err::<(String, String), InternalError>(e),
            }
            &&& (k < d.len() ==> final(data).pos() == header_end(d, k))
            &&& (k >= d.len() ==> final(data).pos() == old(data).pos())
        }),
{
    proof {
        old(data).lemma_wf();
    }
    let ghost d = old(data).data();
    let ghost k = byte_index(old(data).pos());
    match data.read_u8() {
        Some(b) => {
            if b != 0x48 {
                return Err(InternalError::Retry);
            }
        },
        None => return Err(InternalError::Eof),
    }
    assert(byte_index(data.pos()) == k + 1);
    let line = match data.read_line() {
        Some(line) => line,
        None => return Err(InternalError::Eof),
    };
    assert(line@ == d.subrange(k + 1, line_end(d, k + 1)));
    let ghost raw = line@;
    let line = match utf8_text(line.as_slice()) {
        Ok(line) => line,
        Err(_) => return Err(InternalError::Retry),
    };
    proof {
        reveal_strlit(" ");
        crate::text::lemma_ascii_text(" ");
    }
    let line = match strip_prefix(line, " ") {
        Some(rest) => rest,
        None => line,
    };
    assert(text(line) == (if raw.len() > 0 && raw[0] == 0x20 {
        raw.drop_first()
    } else {
        raw
    })) by {
        if raw.len() > 0 && raw[0] == 0x20 {
            assert(raw.take(1) =~= text(" "));
            assert(raw.skip(1) =~= raw.drop_first());
        } else if raw.len() > 0 {
            assert(raw.take(1)[0] != text(" ")[0]);
        }
    }
    proof {
        crate::text::lemma_find(text(line), 0x3a);
    }
    match split_once(line, 0x3a) {
        Some((name, value)) => Ok((to_string(name), to_string(value))),
        None => Err(InternalError::Retry),
    }
}

} // verus!
