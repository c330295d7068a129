//! All disabled field groups in a Betaflight log.

use vstd::prelude::*;

use crate::headers::InternalFirmware;

use super::{bit_set, lemma_ones_below, ones_below, set_bits, test_bit};

verus! {

/// A set of fields that can be disabled in Betaflight logs.
#[derive(Debug, Clone, Copy, PartialEq, Eq, Hash, Structural)]
pub enum FieldGroup {
    /// `ACC`
    Acc,
    /// `ALTITUDE`
    Altitude,
    /// `BATTERY`
    Battery,
    /// `DEBUG_LOG`
    DebugLog,
    /// `GPS`
    Gps,
    /// `GYRO`
    Gyro,
    /// `GYROUNFILT`
    GyroUnfiltered,
    /// `MAG`
    Mag,
    /// `MOTOR`
    Motor,
    /// `PID`
    Pid,
    /// `RC_COMMANDS`
    RcCommands,
    /// `RPM`
    Rpm,
    /// `RSSI`
    Rssi,
    /// `SETPOINT`
    Setpoint,
}

/// The name that the firmware gives a `FieldGroup`.
pub open spec fn field_group_name(value: FieldGroup) -> Seq<char> {
    match value {
        FieldGroup::Acc => "ACC"@,
        FieldGroup::Altitude => "ALTITUDE"@,
        FieldGroup::Battery => "BATTERY"@,
        FieldGroup::DebugLog => "DEBUG_LOG"@,
        FieldGroup::Gps => "GPS"@,
        FieldGroup::Gyro => "GYRO"@,
        FieldGroup::GyroUnfiltered => "GYROUNFILT"@,
        FieldGroup::Mag => "MAG"@,
        FieldGroup::Motor => "MOTOR"@,
        FieldGroup::Pid => "PID"@,
        FieldGroup::RcCommands => "RC_COMMANDS"@,
        FieldGroup::Rpm => "RPM"@,
        FieldGroup::Rssi => "RSSI"@,
        FieldGroup::Setpoint => "SETPOINT"@,
    }
}

/// The bit that stands for `value` in the flags written by `fw`, if `fw`
/// has such a flag.
pub open spec fn field_group_bit(value: FieldGroup, fw: InternalFirmware) -> Option<u32> {
    match (value, fw) {
        (FieldGroup::Pid, InternalFirmware::Betaflight4_3 | InternalFirmware::Betaflight4_4 | InternalFirmware::Betaflight4_5) => Some(0u32),
        (FieldGroup::RcCommands, InternalFirmware::Betaflight4_3 | InternalFirmware::Betaflight4_4 | InternalFirmware::Betaflight4_5) => Some(1u32),
        (FieldGroup::Setpoint, InternalFirmware::Betaflight4_3 | InternalFirmware::Betaflight4_4 | InternalFirmware::Betaflight4_5) => Some(2u32),
        (FieldGroup::Battery, InternalFirmware::Betaflight4_3 | InternalFirmware::Betaflight4_4 | InternalFirmware::Betaflight4_5) => Some(3u32),
        (FieldGroup::Mag, InternalFirmware::Betaflight4_3 | InternalFirmware::Betaflight4_4 | InternalFirmware::Betaflight4_5) => Some(4u32),
        (FieldGroup::Altitude, InternalFirmware::Betaflight4_3 | InternalFirmware::Betaflight4_4 | InternalFirmware::Betaflight4_5) => Some(5u32),
        (FieldGroup::Rssi, InternalFirmware::Betaflight4_3 | InternalFirmware::Betaflight4_4 | InternalFirmware::Betaflight4_5) => Some(6u32),
        (FieldGroup::Gyro, InternalFirmware::Betaflight4_3 | InternalFirmware::Betaflight4_4 | InternalFirmware::Betaflight4_5) => Some(7u32),
        (FieldGroup::Acc, InternalFirmware::Betaflight4_3 | InternalFirmware::Betaflight4_4 | InternalFirmware::Betaflight4_5) => Some(8u32),
        (FieldGroup::DebugLog, InternalFirmware::Betaflight4_3 | InternalFirmware::Betaflight4_4 | InternalFirmware::Betaflight4_5) => Some(9u32),
        (FieldGroup::Motor, InternalFirmware::Betaflight4_3 | InternalFirmware::Betaflight4_4 | InternalFirmware::Betaflight4_5) => Some(10u32),
        (FieldGroup::Gps, InternalFirmware::Betaflight4_3 | InternalFirmware::Betaflight4_4 | InternalFirmware::Betaflight4_5) => Some(11u32),
        (FieldGroup::Rpm, InternalFirmware::Betaflight4_5) => Some(12u32),
        (FieldGroup::GyroUnfiltered, InternalFirmware::Betaflight4_5) => Some(13u32),
        _ => None,
    }
}

/// The flag that bit `bit` stands for in the flags written by `fw`, if any.
pub open spec fn field_group_of_bit(bit: u32, fw: InternalFirmware) -> Option<FieldGroup> {
    match (bit, fw) {
        (0u32, InternalFirmware::Betaflight4_3 | InternalFirmware::Betaflight4_4 | InternalFirmware::Betaflight4_5) => Some(FieldGroup::Pid),
        (1u32, InternalFirmware::Betaflight4_3 | InternalFirmware::Betaflight4_4 | InternalFirmware::Betaflight4_5) => Some(FieldGroup::RcCommands),
        (2u32, InternalFirmware::Betaflight4_3 | InternalFirmware::Betaflight4_4 | InternalFirmware::Betaflight4_5) => Some(FieldGroup::Setpoint),
        (3u32, InternalFirmware::Betaflight4_3 | InternalFirmware::Betaflight4_4 | InternalFirmware::Betaflight4_5) => Some(FieldGroup::Battery),
        (4u32, InternalFirmware::Betaflight4_3 | InternalFirmware::Betaflight4_4 | InternalFirmware::Betaflight4_5) => Some(FieldGroup::Mag),
        (5u32, InternalFirmware::Betaflight4_3 | InternalFirmware::Betaflight4_4 | InternalFirmware::Betaflight4_5) => Some(FieldGroup::Altitude),
        (6u32, InternalFirmware::Betaflight4_3 | InternalFirmware::Betaflight4_4 | InternalFirmware::Betaflight4_5) => Some(FieldGroup::Rssi),
        (7u32, InternalFirmware::Betaflight4_3 | InternalFirmware::Betaflight4_4 | InternalFirmware::Betaflight4_5) => Some(FieldGroup::Gyro),
        (8u32, InternalFirmware::Betaflight4_3 | InternalFirmware::Betaflight4_4 | InternalFirmware::Betaflight4_5) => Some(FieldGroup::Acc),
        (9u32, InternalFirmware::Betaflight4_3 | InternalFirmware::Betaflight4_4 | InternalFirmware::Betaflight4_5) => Some(FieldGroup::DebugLog),
        (10u32, InternalFirmware::Betaflight4_3 | InternalFirmware::Betaflight4_4 | InternalFirmware::Betaflight4_5) => Some(FieldGroup::Motor),
        (11u32, InternalFirmware::Betaflight4_3 | InternalFirmware::Betaflight4_4 | InternalFirmware::Betaflight4_5) => Some(FieldGroup::Gps),
        (12u32, InternalFirmware::Betaflight4_5) => Some(FieldGroup::Rpm),
        (13u32, InternalFirmware::Betaflight4_5) => Some(FieldGroup::GyroUnfiltered),
        _ => None,
    }
}

impl FieldGroup {
    /// The name that the firmware gives this value.
    pub fn as_name(&self) -> (name: &'static str)
        ensures
            name@ == field_group_name(*self),
    {
        match self {
            FieldGroup::Acc => "ACC",
            FieldGroup::Altitude => "ALTITUDE",
            FieldGroup::Battery => "BATTERY",
            FieldGroup::DebugLog => "DEBUG_LOG",
            FieldGroup::Gps => "GPS",
            FieldGroup::Gyro => "GYRO",
            FieldGroup::GyroUnfiltered => "GYROUNFILT",
            FieldGroup::Mag => "MAG",
            FieldGroup::Motor => "MOTOR",
            FieldGroup::Pid => "PID",
            FieldGroup::RcCommands => "RC_COMMANDS",
            FieldGroup::Rpm => "RPM",
            FieldGroup::Rssi => "RSSI",
            FieldGroup::Setpoint => "SETPOINT",
        }
    }

    /// The flag that bit `bit` stands for in the flags written by `fw`.
    pub fn from_bit(bit: u32, fw: InternalFirmware) -> (value: Option<Self>)
        ensures
            value == field_group_of_bit(bit, fw),
    {
        match (bit, fw) {
            (0u32, InternalFirmware::Betaflight4_3 | InternalFirmware::Betaflight4_4 | InternalFirmware::Betaflight4_5) => Some(FieldGroup::Pid),
            (1u32, InternalFirmware::Betaflight4_3 | InternalFirmware::Betaflight4_4 | InternalFirmware::Betaflight4_5) => Some(FieldGroup::RcCommands),
            (2u32, InternalFirmware::Betaflight4_3 | InternalFirmware::Betaflight4_4 | InternalFirmware::Betaflight4_5) => Some(FieldGroup::Setpoint),
            (3u32, InternalFirmware::Betaflight4_3 | InternalFirmware::Betaflight4_4 | InternalFirmware::Betaflight4_5) => Some(FieldGroup::Battery),
            (4u32, InternalFirmware::Betaflight4_3 | InternalFirmware::Betaflight4_4 | InternalFirmware::Betaflight4_5) => Some(FieldGroup::Mag),
            (5u32, InternalFirmware::Betaflight4_3 | InternalFirmware::Betaflight4_4 | InternalFirmware::Betaflight4_5) => Some(FieldGroup::Altitude),
            (6u32, InternalFirmware::Betaflight4_3 | InternalFirmware::Betaflight4_4 | InternalFirmware::Betaflight4_5) => Some(FieldGroup::Rssi),
            (7u32, InternalFirmware::Betaflight4_3 | InternalFirmware::Betaflight4_4 | InternalFirmware::Betaflight4_5) => Some(FieldGroup::Gyro),
            (8u32, InternalFirmware::Betaflight4_3 | InternalFirmware::Betaflight4_4 | InternalFirmware::Betaflight4_5) => Some(FieldGroup::Acc),
            (9u32, InternalFirmware::Betaflight4_3 | InternalFirmware::Betaflight4_4 | InternalFirmware::Betaflight4_5) => Some(FieldGroup::DebugLog),
            (10u32, InternalFirmware::Betaflight4_3 | InternalFirmware::Betaflight4_4 | InternalFirmware::Betaflight4_5) => Some(FieldGroup::Motor),
            (11u32, InternalFirmware::Betaflight4_3 | InternalFirmware::Betaflight4_4 | InternalFirmware::Betaflight4_5) => Some(FieldGroup::Gps),
            (12u32, InternalFirmware::Betaflight4_5) => Some(FieldGroup::Rpm),
            (13u32, InternalFirmware::Betaflight4_5) => Some(FieldGroup::GyroUnfiltered),
            _ => None,
        }
    }

    /// The bit that stands for this flag in the flags written by `fw`.
    pub fn to_bit(self, fw: InternalFirmware) -> (bit: Option<u32>)
        ensures
            bit == field_group_bit(self, fw),
    {
        match (self, fw) {
            (FieldGroup::Pid, InternalFirmware::Betaflight4_3 | InternalFirmware::Betaflight4_4 | InternalFirmware::Betaflight4_5) => Some(0u32),
            (FieldGroup::RcCommands, InternalFirmware::Betaflight4_3 | InternalFirmware::Betaflight4_4 | InternalFirmware::Betaflight4_5) => Some(1u32),
            (FieldGroup::Setpoint, InternalFirmware::Betaflight4_3 | InternalFirmware::Betaflight4_4 | InternalFirmware::Betaflight4_5) => Some(2u32),
            (FieldGroup::Battery, InternalFirmware::Betaflight4_3 | InternalFirmware::Betaflight4_4 | InternalFirmware::Betaflight4_5) => Some(3u32),
            (FieldGroup::Mag, InternalFirmware::Betaflight4_3 | InternalFirmware::Betaflight4_4 | InternalFirmware::Betaflight4_5) => Some(4u32),
            (FieldGroup::Altitude, InternalFirmware::Betaflight4_3 | InternalFirmware::Betaflight4_4 | InternalFirmware::Betaflight4_5) => Some(5u32),
            (FieldGroup::Rssi, InternalFirmware::Betaflight4_3 | InternalFirmware::Betaflight4_4 | InternalFirmware::Betaflight4_5) => Some(6u32),
            (FieldGroup::Gyro, InternalFirmware::Betaflight4_3 | InternalFirmware::Betaflight4_4 | InternalFirmware::Betaflight4_5) => Some(7u32),
            (FieldGroup::Acc, InternalFirmware::Betaflight4_3 | InternalFirmware::Betaflight4_4 | InternalFirmware::Betaflight4_5) => Some(8u32),
            (FieldGroup::DebugLog, InternalFirmware::Betaflight4_3 | InternalFirmware::Betaflight4_4 | InternalFirmware::Betaflight4_5) => Some(9u32),
            (FieldGroup::Motor, InternalFirmware::Betaflight4_3 | InternalFirmware::Betaflight4_4 | InternalFirmware::Betaflight4_5) => Some(10u32),
            (FieldGroup::Gps, InternalFirmware::Betaflight4_3 | InternalFirmware::Betaflight4_4 | InternalFirmware::Betaflight4_5) => Some(11u32),
            (FieldGroup::Rpm, InternalFirmware::Betaflight4_5) => Some(12u32),
            (FieldGroup::GyroUnfiltered, InternalFirmware::Betaflight4_5) => Some(13u32),
            _ => None,
        }
    }
}

/// Reading back the bit of a flag gives that flag.
pub proof fn lemma_field_group_bit_round_trip(value: FieldGroup, fw: InternalFirmware)
    ensures
        field_group_bit(value, fw) matches Some(bit) ==> field_group_of_bit(bit, fw) == Some(value),
{
}

/// The flag read from a bit has that bit.
pub proof fn lemma_field_group_of_bit_round_trip(bit: u32, fw: InternalFirmware)
    ensures
        field_group_of_bit(bit, fw) matches Some(value) ==> field_group_bit(value, fw) == Some(bit),
{
}

/// The flags that the bits in `bits` stand for, in the same order; bits
/// that stand for no flag of `fw` are left out.
pub open spec fn field_groups_in(bits: Seq<usize>, fw: InternalFirmware) -> Seq<FieldGroup>
    decreases bits.len(),
{
    if bits.len() == 0 {
        seq![]
    } else {
        let rest = field_groups_in(bits.drop_last(), fw);
        match field_group_of_bit(bits.last() as u32, fw) {
            Some(value) => rest.push(value),
            None => rest,
        }
    }
}

/// A flag is among those of `bits` exactly when one of the bits stands for it.
pub proof fn lemma_field_groups_in_contains(bits: Seq<usize>, fw: InternalFirmware, value: FieldGroup)
    requires
        forall|i: int| 0 <= i < bits.len() ==> bits[i] < 32,
    ensures
        field_groups_in(bits, fw).contains(value) <==> (exists|i: int|
            0 <= i < bits.len() && #[trigger] field_group_of_bit(bits[i] as u32, fw) == Some(value)),
    decreases bits.len(),
{
    if bits.len() > 0 {
        let init = bits.drop_last();
        lemma_field_groups_in_contains(init, fw, value);
        let rest = field_groups_in(init, fw);
        if field_groups_in(bits, fw).contains(value) {
            if !rest.contains(value) {
                assert(field_group_of_bit(bits[bits.len() - 1] as u32, fw) == Some(value)) by {
                    let k = choose|k: int| 0 <= k < field_groups_in(bits, fw).len() && field_groups_in(bits, fw)[k] == value;
                    if k < rest.len() {
                        assert(rest[k] == value);
                    }
                }
            } else {
                let i = choose|i: int| 0 <= i < init.len() && #[trigger] field_group_of_bit(init[i] as u32, fw) == Some(value);
                assert(bits[i] == init[i]);
            }
        }
        if exists|i: int| 0 <= i < bits.len() && #[trigger] field_group_of_bit(bits[i] as u32, fw) == Some(value) {
            let i = choose|i: int| 0 <= i < bits.len() && #[trigger] field_group_of_bit(bits[i] as u32, fw) == Some(value);
            if i < init.len() {
                assert(init[i] == bits[i]);
                let k = choose|k: int| 0 <= k < rest.len() && rest[k] == value;
                assert(field_groups_in(bits, fw)[k] == value);
            } else {
                assert(field_groups_in(bits, fw).last() == value);
            }
        }
    }
}

/// All disabled field groups in a Betaflight log.
#[derive(Debug, Clone, Copy, PartialEq, Eq, Hash, Structural)]
pub struct DisabledFields {
    firmware: InternalFirmware,
    raw: u32,
}

impl DisabledFields {
    /// The raw flags.
    pub closed spec fn spec_raw(&self) -> u32 {
        self.raw
    }

    /// The firmware that wrote the flags.
    pub closed spec fn spec_firmware(&self) -> InternalFirmware {
        self.firmware
    }

    /// The flags that are set, lowest bit first.
    pub open spec fn spec_flags(&self) -> Seq<FieldGroup> {
        field_groups_in(ones_below(self.spec_raw(), 32), self.spec_firmware())
    }

    /// Whether `flag` is set.
    pub open spec fn spec_is_set(&self, flag: FieldGroup) -> bool {
        match field_group_bit(flag, self.spec_firmware()) {
            Some(bit) => bit_set(self.spec_raw(), bit),
            None => false,
        }
    }

    /// The flags `raw` as written by `firmware`.
    pub fn new(raw: u32, firmware: InternalFirmware) -> (set: Self)
        ensures
            set.spec_raw() == raw,
            set.spec_firmware() == firmware,
    {
        Self { firmware, raw }
    }

    /// The flags that are set, lowest bit first. Bits that stand for no
    /// flag of the firmware are left out.
    pub fn iter(&self) -> (flags: Vec<FieldGroup>)
        ensures
            flags@ == self.spec_flags(),
    {
        let bits = set_bits(self.raw);
        proof {
            lemma_ones_below(self.raw, 32);
        }
        let mut flags: Vec<FieldGroup> = Vec::new();
        let mut i: usize = 0;
        while i < bits.len()
            invariant
                i <= bits.len(),
                bits@ == ones_below(self.raw, 32),
                forall|j: int| 0 <= j < bits.len() ==> bits[j] < 32,
                flags@ == field_groups_in(bits@.take(i as int), self.firmware),
            decreases bits.len() - i,
        {
            let bit = bits[i];
            assert(bits@.take(i as int + 1).drop_last() == bits@.take(i as int));
            if let Some(flag) = FieldGroup::from_bit(bit as u32, self.firmware) {
                flags.push(flag);
            }
            i += 1;
        }
        assert(bits@.take(bits.len() as int) == bits@);
        flags
    }

    /// Whether `flag` is set.
    pub fn is_set(&self, flag: FieldGroup) -> (set: bool)
        requires
            field_group_bit(flag, self.spec_firmware()) matches Some(bit) ==> bit < 32,
        ensures
            set == self.spec_is_set(flag),
    {
        match flag.to_bit(self.firmware) {
            Some(bit) => test_bit(self.raw, bit),
            None => false,
        }
    }

    /// The names of the flags that are set, lowest bit first.
    pub fn as_names(&self) -> (names: Vec<&'static str>)
        ensures
            names@.len() == self.spec_flags().len(),
            forall|i: int| 0 <= i < names@.len() ==> names@[i]@ == field_group_name(#[trigger] self.spec_flags()[i]),
    {
        let flags = self.iter();
        let mut names: Vec<&'static str> = Vec::new();
        let mut i: usize = 0;
        while i < flags.len()
            invariant
                i <= flags.len(),
                flags@ == self.spec_flags(),
                names@.len() == i,
                forall|j: int| 0 <= j < i ==> names@[j]@ == field_group_name(#[trigger] flags@[j]),
            decreases flags.len() - i,
        {
            names.push(flags[i].as_name());
            i += 1;
        }
        names
    }
}

/// A flag is set exactly when it is among the flags that `iter` lists.
pub proof fn lemma_disabled_fields_is_set_iff_listed(set: DisabledFields, flag: FieldGroup)
    ensures
        set.spec_is_set(flag) <==> set.spec_flags().contains(flag),
{
    let bits = ones_below(set.spec_raw(), 32);
    let fw = set.spec_firmware();
    lemma_ones_below(set.spec_raw(), 32);
    lemma_field_groups_in_contains(bits, fw, flag);
    lemma_field_group_bit_round_trip(flag, fw);
    if set.spec_flags().contains(flag) {
        let i = choose|i: int| 0 <= i < bits.len() && #[trigger] field_group_of_bit(bits[i] as u32, fw) == Some(flag);
        lemma_field_group_of_bit_round_trip(bits[i] as u32, fw);
    }
    if set.spec_is_set(flag) {
        let bit = field_group_bit(flag, fw)->0;
        let i = choose|i: int| 0 <= i < bits.len() && bits[i] == bit as usize;
        assert(field_group_of_bit(bits[i] as u32, fw) == Some(flag));
    }
}

/// Betaflight 4.2, INAV 5, INAV 6, INAV 7 write no groups of disabled fields:
/// every bit stands for none.
pub proof fn lemma_field_group_of_bit_betaflight4_2_inav5_inav6_inav7(fw: InternalFirmware, n: u32)
    requires
        fw == InternalFirmware::Betaflight4_2 || fw == InternalFirmware::Inav5 || fw == InternalFirmware::Inav6 || fw == InternalFirmware::Inav7,
    ensures
        field_group_of_bit(n, fw) == ({
            None::<FieldGroup>
        }),
        field_group_of_bit(n, fw) matches Some(m) ==> field_group_name(m) == ({
            ""@
        }),
{
}

/// The groups of disabled fields that Betaflight 4.3, Betaflight 4.4 write, by
/// bit: 0 Pid (`PID`), 1 RcCommands (`RC_COMMANDS`), 2 Setpoint (`SETPOINT`), 3
/// Battery (`BATTERY`), 4 Mag (`MAG`), 5 Altitude (`ALTITUDE`), 6 Rssi
/// (`RSSI`), 7 Gyro (`GYRO`), 8 Acc (`ACC`), 9 DebugLog (`DEBUG_LOG`), 10 Motor
/// (`MOTOR`), 11 Gps (`GPS`); every other bit stands for none.
pub proof fn lemma_field_group_of_bit_betaflight4_3_betaflight4_4(fw: InternalFirmware, n: u32)
    requires
        fw == InternalFirmware::Betaflight4_3 || fw == InternalFirmware::Betaflight4_4,
    ensures
        field_group_of_bit(n, fw) == (if n == 0 {
            Some(FieldGroup::Pid)
        } else if n == 1 {
            Some(FieldGroup::RcCommands)
        } else if n == 2 {
            Some(FieldGroup::Setpoint)
        } else if n == 3 {
            Some(FieldGroup::Battery)
        } else if n == 4 {
            Some(FieldGroup::Mag)
        } else if n == 5 {
            Some(FieldGroup::Altitude)
        } else if n == 6 {
            Some(FieldGroup::Rssi)
        } else if n == 7 {
            Some(FieldGroup::Gyro)
        } else if n == 8 {
            Some(FieldGroup::Acc)
        } else if n == 9 {
            Some(FieldGroup::DebugLog)
        } else if n == 10 {
            Some(FieldGroup::Motor)
        } else if n == 11 {
            Some(FieldGroup::Gps)
        } else {
            None::<FieldGroup>
        }),
        field_group_of_bit(n, fw) matches Some(m) ==> field_group_name(m) == (if n == 0 {
            "PID"@
        } else if n == 1 {
            "RC_COMMANDS"@
        } else if n == 2 {
            "SETPOINT"@
        } else if n == 3 {
            "BATTERY"@
        } else if n == 4 {
            "MAG"@
        } else if n == 5 {
            "ALTITUDE"@
        } else if n == 6 {
            "RSSI"@
        } else if n == 7 {
            "GYRO"@
        } else if n == 8 {
            "ACC"@
        } else if n == 9 {
            "DEBUG_LOG"@
        } else if n == 10 {
            "MOTOR"@
        } else if n == 11 {
            "GPS"@
        } else {
            ""@
        }),
{
}

/// The groups of disabled fields that Betaflight 4.5 writes, by bit: 0 Pid
/// (`PID`), 1 RcCommands (`RC_COMMANDS`), 2 Setpoint (`SETPOINT`), 3 Battery
/// (`BATTERY`), 4 Mag (`MAG`), 5 Altitude (`ALTITUDE`), 6 Rssi (`RSSI`), 7 Gyro
/// (`GYRO`), 8 Acc (`ACC`), 9 DebugLog (`DEBUG_LOG`), 10 Motor (`MOTOR`), 11
/// Gps (`GPS`), 12 Rpm (`RPM`), 13 GyroUnfiltered (`GYROUNFILT`); every other
/// bit stands for none.
pub proof fn lemma_field_group_of_bit_betaflight4_5(fw: InternalFirmware, n: u32)
    requires
        fw == InternalFirmware::Betaflight4_5,
    ensures
        field_group_of_bit(n, fw) == (if n == 0 {
            Some(FieldGroup::Pid)
        } else if n == 1 {
            Some(FieldGroup::RcCommands)
        } else if n == 2 {
            Some(FieldGroup::Setpoint)
        } else if n == 3 {
            Some(FieldGroup::Battery)
        } else if n == 4 {
            Some(FieldGroup::Mag)
        } else if n == 5 {
            Some(FieldGroup::Altitude)
        } else if n == 6 {
            Some(FieldGroup::Rssi)
        } else if n == 7 {
            Some(FieldGroup::Gyro)
        } else if n == 8 {
            Some(FieldGroup::Acc)
        } else if n == 9 {
            Some(FieldGroup::DebugLog)
        } else if n == 10 {
            Some(FieldGroup::Motor)
        } else if n == 11 {
            Some(FieldGroup::Gps)
        } else if n == 12 {
            Some(FieldGroup::Rpm)
        } else if n == 13 {
            Some(FieldGroup::GyroUnfiltered)
        } else {
            None::<FieldGroup>
        }),
        field_group_of_bit(n, fw) matches Some(m) ==> field_group_name(m) == (if n == 0 {
            "PID"@
        } else if n == 1 {
            "RC_COMMANDS"@
        } else if n == 2 {
            "SETPOINT"@
        } else if n == 3 {
            "BATTERY"@
        } else if n == 4 {
            "MAG"@
        } else if n == 5 {
            "ALTITUDE"@
        } else if n == 6 {
            "RSSI"@
        } else if n == 7 {
            "GYRO"@
        } else if n == 8 {
            "ACC"@
        } else if n == 9 {
            "DEBUG_LOG"@
        } else if n == 10 {
            "MOTOR"@
        } else if n == 11 {
            "GPS"@
        } else if n == 12 {
            "RPM"@
        } else if n == 13 {
            "GYROUNFILT"@
        } else {
            ""@
        }),
{
}

} // verus!
