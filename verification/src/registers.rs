//! The register catalog of the INA233: wire layouts and their typed values.
//!
//! A readable register is built from the reply bytes of its command; a
//! writable one turns into the frame that is sent, command byte first. Both
//! fix their length in bytes in their type. Decoding never fails: every reply
//! of the right length is some register value.

use crate::bits::{
    as_signed, bit_at, field_at, le16, le24, twos_complement, u16_from_le, u16_to_le,
    u24_from_le, GetBits,
};
use crate::text::text_of;
use crate::units::{
    calibration_for, clip_i64, convert_to_current, convert_to_voltage, current_lsb_from,
    lemma_nearest_quotient_upper, lemma_nearest_quotient_zero, Current, Potential, Resistance,
    BUS_VOLTAGE_LSB, CALIBRATION_MAX, CALIBRATION_SCALE,
};
use vstd::arithmetic::power2::lemma2_to64;
use vstd::prelude::*;
use vstd::std_specs::convert::{FromSpec, FromSpecImpl, IntoSpec};
use vstd::utf8::{decode_utf8, valid_utf8};

verus! {

pub const CLEAR_FAULTS: u8 = 0x03;

pub const RESTORE_DEFAULT_ALL: u8 = 0x12;

pub const CAPABILITY: u8 = 0x19;

pub const IOUT_OC_WARN_LIMIT: u8 = 0x4A;

pub const VIN_OV_WARN_LIMIT: u8 = 0x57;

pub const VIN_UV_WARN_LIMIT: u8 = 0x58;

pub const PIN_OP_WARN_LIMIT: u8 = 0x6B;

pub const STATUS_BYTE: u8 = 0x78;

pub const STATUS_WORD: u8 = 0x79;

pub const STATUS_IOUT: u8 = 0x7B;

pub const STATUS_INPUT: u8 = 0x7C;

pub const STATUS_CML: u8 = 0x7E;

pub const STATUS_MFR_SPECIFIC: u8 = 0x80;

pub const READ_EIN: u8 = 0x86;

pub const READ_VIN: u8 = 0x88;

pub const READ_IIN: u8 = 0x89;

pub const READ_VOUT: u8 = 0x8B;

pub const READ_IOUT: u8 = 0x8C;

pub const READ_POUT: u8 = 0x96;

pub const READ_PIN: u8 = 0x97;

pub const MFR_ID: u8 = 0x99;

pub const MFR_MODEL: u8 = 0x9A;

pub const MFR_REVISION: u8 = 0x9B;

pub const MFR_ADC_CONFIG: u8 = 0xD0;

pub const MFR_READ_VSHUNT: u8 = 0xD1;

pub const MFR_ALERT_MASK: u8 = 0xD2;

pub const MFR_CALIBRATION: u8 = 0xD4;

pub const MFR_DEVICE_CONFIG: u8 = 0xD5;

pub const CLEAR_EIN: u8 = 0xD6;

pub const TI_MFR_ID: u8 = 0xE0;

pub const TI_MFR_MODEL: u8 = 0xE1;

pub const TI_MFR_REVISION: u8 = 0xE2;

/// A register that is read: its command is sent, and `L` bytes come back.
pub trait ReadableRegister<const L: usize>: From<[u8; L]> {
    /// The command byte that selects the register.
    const ADDRESS: u8;
}

/// A register that is written as a frame of `L` bytes, of which the first is
/// the command byte and the rest the payload, least significant byte first.
pub trait WritableRegister<const L: usize>: Into<[u8; L]> {
    /// The command byte that selects the register.
    const ADDRESS: u8;
}

/// The register that `reply` holds, or the bus error passed on.
pub fn read_register<R: ReadableRegister<L>, const L: usize, E>(reply: Result<[u8; L], E>) -> (r:
    Result<R, E>)
    ensures
        match reply {
            Ok(bytes) => r is Ok && (R::obeys_from_spec() ==> r->Ok_0 == R::from_spec(bytes)),
            Err(e) => r == Err::<R, E>(e),
        },
{
    match reply {
        Ok(bytes) => Ok(R::from(bytes)),
        Err(e) => Err(e),
    }
}

/// The frame that writes `register`.
pub fn write_register<R: WritableRegister<L>, const L: usize>(register: R) -> (frame: [u8; L])
    ensures
        R::obeys_into_spec() ==> frame == register.into_spec(),
{
    register.into()
}

/// Command: clear every latched fault and warning.
#[derive(Debug, Clone, Copy, PartialEq, Eq)]
pub struct ClearFaults;

impl From<ClearFaults> for [u8; 1] {
    fn from(_register: ClearFaults) -> (r: Self) {
        [<ClearFaults as WritableRegister<1>>::ADDRESS]
    }
}

impl FromSpecImpl<ClearFaults> for [u8; 1] {
    open spec fn obeys_from_spec() -> bool {
        true
    }

    open spec fn from_spec(register: ClearFaults) -> Self {
        [CLEAR_FAULTS]
    }
}

impl WritableRegister<1> for ClearFaults {
    const ADDRESS: u8 = CLEAR_FAULTS;
}

/// Command: restore every register to its power-on default.
#[derive(Debug, Clone, Copy, PartialEq, Eq)]
pub struct RestoreDefaultAll;

impl From<RestoreDefaultAll> for [u8; 1] {
    fn from(_register: RestoreDefaultAll) -> (r: Self) {
        [<RestoreDefaultAll as WritableRegister<1>>::ADDRESS]
    }
}

impl FromSpecImpl<RestoreDefaultAll> for [u8; 1] {
    open spec fn obeys_from_spec() -> bool {
        true
    }

    open spec fn from_spec(register: RestoreDefaultAll) -> Self {
        [RESTORE_DEFAULT_ALL]
    }
}

impl WritableRegister<1> for RestoreDefaultAll {
    const ADDRESS: u8 = RESTORE_DEFAULT_ALL;
}

/// The output overcurrent warning threshold.
#[derive(Debug, Clone, Copy, PartialEq, Eq)]
pub struct IoutOcWarnLimit {
    /// The 12-bit threshold, taken from bit 1 upwards.
    pub value: u16,
}

impl From<[u8; 2]> for IoutOcWarnLimit {
    fn from(bytes: [u8; 2]) -> (r: Self) {
        Self { value: bytes.bits::<1, 12>() }
    }
}

impl FromSpecImpl<[u8; 2]> for IoutOcWarnLimit {
    open spec fn obeys_from_spec() -> bool {
        true
    }

    open spec fn from_spec(bytes: [u8; 2]) -> Self {
        Self { value: field_at(le16(bytes[0], bytes[1]), 1, 12) as u16 }
    }
}

impl ReadableRegister<2> for IoutOcWarnLimit {
    const ADDRESS: u8 = IOUT_OC_WARN_LIMIT;
}

/// The input overvoltage warning threshold.
#[derive(Debug, Clone, Copy, PartialEq, Eq)]
pub struct VinOvWarnLimit {
    /// The 12-bit threshold, taken from bit 1 upwards.
    pub value: u16,
}

impl From<[u8; 2]> for VinOvWarnLimit {
    fn from(bytes: [u8; 2]) -> (r: Self) {
        Self { value: bytes.bits::<1, 12>() }
    }
}

impl FromSpecImpl<[u8; 2]> for VinOvWarnLimit {
    open spec fn obeys_from_spec() -> bool {
        true
    }

    open spec fn from_spec(bytes: [u8; 2]) -> Self {
        Self { value: field_at(le16(bytes[0], bytes[1]), 1, 12) as u16 }
    }
}

impl ReadableRegister<2> for VinOvWarnLimit {
    const ADDRESS: u8 = VIN_OV_WARN_LIMIT;
}

/// The input undervoltage warning threshold.
#[derive(Debug, Clone, Copy, PartialEq, Eq)]
pub struct VinUvWarnLimit {
    /// The 12-bit threshold, taken from bit 1 upwards.
    pub value: u16,
}

impl From<[u8; 2]> for VinUvWarnLimit {
    fn from(bytes: [u8; 2]) -> (r: Self) {
        Self { value: bytes.bits::<1, 12>() }
    }
}

impl FromSpecImpl<[u8; 2]> for VinUvWarnLimit {
    open spec fn obeys_from_spec() -> bool {
        true
    }

    open spec fn from_spec(bytes: [u8; 2]) -> Self {
        Self { value: field_at(le16(bytes[0], bytes[1]), 1, 12) as u16 }
    }
}

impl ReadableRegister<2> for VinUvWarnLimit {
    const ADDRESS: u8 = VIN_UV_WARN_LIMIT;
}

/// The input overpower warning threshold.
#[derive(Debug, Clone, Copy, PartialEq, Eq)]
pub struct PinOpWarnLimit {
    /// The 12-bit threshold, taken from bit 4 upwards.
    pub value: u16,
}

impl From<[u8; 2]> for PinOpWarnLimit {
    fn from(bytes: [u8; 2]) -> (r: Self) {
        Self { value: bytes.bits::<4, 12>() }
    }
}

impl FromSpecImpl<[u8; 2]> for PinOpWarnLimit {
    open spec fn obeys_from_spec() -> bool {
        true
    }

    open spec fn from_spec(bytes: [u8; 2]) -> Self {
        Self { value: field_at(le16(bytes[0], bytes[1]), 4, 12) as u16 }
    }
}

impl ReadableRegister<2> for PinOpWarnLimit {
    const ADDRESS: u8 = PIN_OP_WARN_LIMIT;
}

/// The summary of the most pressing faults, one byte wide.
#[derive(Debug, Clone, Copy, PartialEq, Eq)]
pub struct StatusByte {
    /// A communication, memory or logic fault has occurred (bit 1).
    pub cml: bool,
    /// A fault or warning not listed elsewhere has occurred (bit 0).
    pub none_of_the_above: bool,
}

impl From<[u8; 1]> for StatusByte {
    fn from(bytes: [u8; 1]) -> (r: Self) {
        Self { cml: bytes.bit::<1>(), none_of_the_above: bytes.bit::<0>() }
    }
}

impl FromSpecImpl<[u8; 1]> for StatusByte {
    open spec fn obeys_from_spec() -> bool {
        true
    }

    open spec fn from_spec(bytes: [u8; 1]) -> Self {
        Self { cml: bit_at(bytes[0] as nat, 1), none_of_the_above: bit_at(bytes[0] as nat, 0) }
    }
}

impl ReadableRegister<1> for StatusByte {
    const ADDRESS: u8 = STATUS_BYTE;
}

/// The summary of all faults, two bytes wide.
#[derive(Debug, Clone, Copy, PartialEq, Eq)]
pub struct StatusWord {
    /// An output current or power warning has occurred (bit 14).
    pub iout_pout: bool,
    /// An input voltage, current or power warning has occurred (bit 13).
    pub input: bool,
    /// A manufacturer-specific fault has occurred (bit 12).
    pub mfr: bool,
    /// A communication, memory or logic fault has occurred (bit 1).
    pub cml: bool,
    /// A fault or warning not listed elsewhere has occurred (bit 0).
    pub none_of_the_above: bool,
}

impl From<[u8; 2]> for StatusWord {
    fn from(bytes: [u8; 2]) -> (r: Self) {
        Self {
            iout_pout: bytes.bit::<14>(),
            input: bytes.bit::<13>(),
            mfr: bytes.bit::<12>(),
            cml: bytes.bit::<1>(),
            none_of_the_above: bytes.bit::<0>(),
        }
    }
}

impl FromSpecImpl<[u8; 2]> for StatusWord {
    open spec fn obeys_from_spec() -> bool {
        true
    }

    open spec fn from_spec(bytes: [u8; 2]) -> Self {
        let word = le16(bytes[0], bytes[1]);
        Self {
            iout_pout: bit_at(word, 14),
            input: bit_at(word, 13),
            mfr: bit_at(word, 12),
            cml: bit_at(word, 1),
            none_of_the_above: bit_at(word, 0),
        }
    }
}

impl ReadableRegister<2> for StatusWord {
    const ADDRESS: u8 = STATUS_WORD;
}

/// The output current status.
#[derive(Debug, Clone, Copy, PartialEq, Eq)]
pub struct StatusIout {
    /// The output current rose above its warning threshold (bit 5).
    pub iout_oc_warn: bool,
}

impl From<[u8; 1]> for StatusIout {
    fn from(bytes: [u8; 1]) -> (r: Self) {
        Self { iout_oc_warn: bytes.bit::<5>() }
    }
}

impl FromSpecImpl<[u8; 1]> for StatusIout {
    open spec fn obeys_from_spec() -> bool {
        true
    }

    open spec fn from_spec(bytes: [u8; 1]) -> Self {
        Self { iout_oc_warn: bit_at(bytes[0] as nat, 5) }
    }
}

impl ReadableRegister<1> for StatusIout {
    const ADDRESS: u8 = STATUS_IOUT;
}

/// The input status.
#[derive(Debug, Clone, Copy, PartialEq, Eq)]
pub struct StatusInput {
    /// The input voltage rose above its warning threshold (bit 6).
    pub vin_ov_warn: bool,
    /// The input voltage fell below its warning threshold (bit 5).
    pub vin_uv_warn: bool,
    /// The input current rose above its warning threshold (bit 1).
    pub iin_oc_warn: bool,
    /// The input power rose above its warning threshold (bit 0).
    pub pin_op_warn: bool,
}

impl From<[u8; 1]> for StatusInput {
    fn from(bytes: [u8; 1]) -> (r: Self) {
        Self {
            vin_ov_warn: bytes.bit::<6>(),
            vin_uv_warn: bytes.bit::<5>(),
            iin_oc_warn: bytes.bit::<1>(),
            pin_op_warn: bytes.bit::<0>(),
        }
    }
}

impl FromSpecImpl<[u8; 1]> for StatusInput {
    open spec fn obeys_from_spec() -> bool {
        true
    }

    open spec fn from_spec(bytes: [u8; 1]) -> Self {
        let byte = bytes[0] as nat;
        Self {
            vin_ov_warn: bit_at(byte, 6),
            vin_uv_warn: bit_at(byte, 5),
            iin_oc_warn: bit_at(byte, 1),
            pin_op_warn: bit_at(byte, 0),
        }
    }
}

impl ReadableRegister<1> for StatusInput {
    const ADDRESS: u8 = STATUS_INPUT;
}

/// The communication, memory and logic status.
#[derive(Debug, Clone, Copy, PartialEq, Eq)]
pub struct StatusCml {
    /// An invalid or unsupported command was received (bit 7).
    pub invalid_or_unsupported_command_recieved: bool,
    /// The packet error check of a transfer failed (bit 5).
    pub packet_error_check_failed: bool,
    /// A memory fault was detected (bit 1).
    pub memory_fault_detected: bool,
}

impl From<[u8; 1]> for StatusCml {
    fn from(bytes: [u8; 1]) -> (r: Self) {
        Self {
            invalid_or_unsupported_command_recieved: bytes.bit::<7>(),
            packet_error_check_failed: bytes.bit::<5>(),
            memory_fault_detected: bytes.bit::<1>(),
        }
    }
}

impl FromSpecImpl<[u8; 1]> for StatusCml {
    open spec fn obeys_from_spec() -> bool {
        true
    }

    open spec fn from_spec(bytes: [u8; 1]) -> Self {
        let byte = bytes[0] as nat;
        Self {
            invalid_or_unsupported_command_recieved: bit_at(byte, 7),
            packet_error_check_failed: bit_at(byte, 5),
            memory_fault_detected: bit_at(byte, 1),
        }
    }
}

impl ReadableRegister<1> for StatusCml {
    const ADDRESS: u8 = STATUS_CML;
}

/// The manufacturer-specific status.
#[derive(Debug, Clone, Copy, PartialEq, Eq)]
pub struct StatusMfrSpecific {
    /// A conversion has finished (bit 7).
    pub conversion_ready: bool,
    /// An arithmetic operation overflowed (bit 6).
    pub arithmetic_overflow_flag: bool,
    /// The device went through a power-on reset (bit 5).
    pub power_on_reset_event_detected: bool,
    /// A communication or memory fault has occurred (bit 4).
    pub communications_or_memory_fault: bool,
    /// The input power rose above its warning threshold (bit 3).
    pub input_overpower_warning: bool,
    /// The input current rose above its warning threshold (bit 2).
    pub input_overcurrent_warning: bool,
    /// The input voltage rose above its warning threshold (bit 1).
    pub input_overvoltage_warning: bool,
    /// The input voltage fell below its warning threshold (bit 0).
    pub input_undervoltage_warning: bool,
}

impl From<[u8; 1]> for StatusMfrSpecific {
    fn from(bytes: [u8; 1]) -> (r: Self) {
        Self {
            conversion_ready: bytes.bit::<7>(),
            arithmetic_overflow_flag: bytes.bit::<6>(),
            power_on_reset_event_detected: bytes.bit::<5>(),
            communications_or_memory_fault: bytes.bit::<4>(),
            input_overpower_warning: bytes.bit::<3>(),
            input_overcurrent_warning: bytes.bit::<2>(),
            input_overvoltage_warning: bytes.bit::<1>(),
            input_undervoltage_warning: bytes.bit::<0>(),
        }
    }
}

impl FromSpecImpl<[u8; 1]> for StatusMfrSpecific {
    open spec fn obeys_from_spec() -> bool {
        true
    }

    open spec fn from_spec(bytes: [u8; 1]) -> Self {
        let byte = bytes[0] as nat;
        Self {
            conversion_ready: bit_at(byte, 7),
            arithmetic_overflow_flag: bit_at(byte, 6),
            power_on_reset_event_detected: bit_at(byte, 5),
            communications_or_memory_fault: bit_at(byte, 4),
            input_overpower_warning: bit_at(byte, 3),
            input_overcurrent_warning: bit_at(byte, 2),
            input_overvoltage_warning: bit_at(byte, 1),
            input_undervoltage_warning: bit_at(byte, 0),
        }
    }
}

impl ReadableRegister<1> for StatusMfrSpecific {
    const ADDRESS: u8 = STATUS_MFR_SPECIFIC;
}

/// The energy accumulator. The first reply byte is the byte count and
/// carries no data.
#[derive(Debug, Clone, Copy, PartialEq, Eq)]
pub struct ReadEin {
    /// The number of samples accumulated: reply bytes 4 to 6, least
    /// significant first.
    pub sample_count: u32,
    /// How often the power accumulator has rolled over: reply byte 3.
    pub power_accumulator_rollover_count: u8,
    /// The accumulated power: reply bytes 1 and 2, least significant first.
    pub power_accumulator: u16,
}

impl From<[u8; 7]> for ReadEin {
    fn from(bytes: [u8; 7]) -> (r: Self) {
        Self {
            sample_count: u24_from_le(bytes[4], bytes[5], bytes[6]),
            power_accumulator_rollover_count: bytes[3],
            power_accumulator: u16_from_le(bytes[1], bytes[2]),
        }
    }
}

impl FromSpecImpl<[u8; 7]> for ReadEin {
    open spec fn obeys_from_spec() -> bool {
        true
    }

    open spec fn from_spec(bytes: [u8; 7]) -> Self {
        Self {
            sample_count: le24(bytes[4], bytes[5], bytes[6]) as u32,
            power_accumulator_rollover_count: bytes[3],
            power_accumulator: le16(bytes[1], bytes[2]) as u16,
        }
    }
}

impl ReadableRegister<7> for ReadEin {
    const ADDRESS: u8 = READ_EIN;
}

/// The bus voltage measurement.
#[derive(Debug, Clone, Copy, PartialEq, Eq)]
pub struct ReadVin {
    /// The unsigned raw count.
    pub value: u16,
}

impl ReadVin {
    /// The measured bus voltage: 1.25 mV for each count.
    pub fn voltage(&self) -> (r: Potential)
        ensures
            r.nanovolts == self.value * BUS_VOLTAGE_LSB,
    {
        convert_to_voltage(self.value)
    }
}

impl From<[u8; 2]> for ReadVin {
    fn from(bytes: [u8; 2]) -> (r: Self) {
        proof {
            lemma_whole_word(bytes[0], bytes[1]);
        }
        Self { value: bytes.bits::<0, 16>() }
    }
}

impl FromSpecImpl<[u8; 2]> for ReadVin {
    open spec fn obeys_from_spec() -> bool {
        true
    }

    open spec fn from_spec(bytes: [u8; 2]) -> Self {
        Self { value: le16(bytes[0], bytes[1]) as u16 }
    }
}

impl ReadableRegister<2> for ReadVin {
    const ADDRESS: u8 = READ_VIN;
}

/// The input current measurement.
#[derive(Debug, Clone, Copy, PartialEq, Eq)]
pub struct ReadIin {
    /// The raw count, a two's-complement number.
    pub value: i16,
}

impl ReadIin {
    /// The measured current: `current_lsb` for each count, limited to what a
    /// `Current` holds.
    pub fn current(&self, current_lsb: Current) -> (r: Current)
        ensures
            r.picoamperes == clip_i64(self.value * current_lsb.picoamperes),
    {
        convert_to_current(self.value, current_lsb)
    }
}

impl From<[u8; 2]> for ReadIin {
    fn from(bytes: [u8; 2]) -> (r: Self) {
        proof {
            lemma_whole_word(bytes[0], bytes[1]);
        }
        Self { value: as_signed(bytes.bits::<0, 16>()) }
    }
}

impl FromSpecImpl<[u8; 2]> for ReadIin {
    open spec fn obeys_from_spec() -> bool {
        true
    }

    open spec fn from_spec(bytes: [u8; 2]) -> Self {
        Self { value: twos_complement(le16(bytes[0], bytes[1])) as i16 }
    }
}

impl ReadableRegister<2> for ReadIin {
    const ADDRESS: u8 = READ_IIN;
}

/// The configuration of the analog-to-digital converter.
#[derive(Debug, Clone, Copy, PartialEq, Eq)]
pub struct MfrAdcConfig {
    /// The averaging mode (bits 9 to 11).
    pub avg: u8,
    /// The bus voltage conversion time (bits 6 to 8).
    pub vbusct: u8,
    /// The shunt voltage conversion time (bits 3 to 5).
    pub vshct: u8,
    /// The operating mode (bits 0 to 2).
    pub mode: u8,
}

impl From<[u8; 2]> for MfrAdcConfig {
    fn from(bytes: [u8; 2]) -> (r: Self) {
        proof {
            lemma2_to64();
        }
        let avg: u16 = bytes.bits::<9, 3>();
        let vbusct: u16 = bytes.bits::<6, 3>();
        let vshct: u16 = bytes.bits::<3, 3>();
        let mode: u16 = bytes.bits::<0, 3>();
        Self { avg: avg as u8, vbusct: vbusct as u8, vshct: vshct as u8, mode: mode as u8 }
    }
}

impl FromSpecImpl<[u8; 2]> for MfrAdcConfig {
    open spec fn obeys_from_spec() -> bool {
        true
    }

    open spec fn from_spec(bytes: [u8; 2]) -> Self {
        let word = le16(bytes[0], bytes[1]);
        Self {
            avg: field_at(word, 9, 3) as u8,
            vbusct: field_at(word, 6, 3) as u8,
            vshct: field_at(word, 3, 3) as u8,
            mode: field_at(word, 0, 3) as u8,
        }
    }
}

impl ReadableRegister<2> for MfrAdcConfig {
    const ADDRESS: u8 = MFR_ADC_CONFIG;
}

/// The manufacturer's name. The first reply byte is the byte count and
/// carries no data.
#[derive(Debug, Clone, Copy, PartialEq, Eq)]
pub struct MfrId {
    /// The two bytes of the name.
    pub id: [u8; 2],
}

impl MfrId {
    /// The name as text. The bytes must be well-formed UTF-8, as the ASCII
    /// that the device sends is.
    pub fn id(&self) -> (r: &str)
        requires
            valid_utf8(self.id@),
        ensures
            r@ == decode_utf8(self.id@),
    {
        text_of(&self.id)
    }
}

impl From<[u8; 3]> for MfrId {
    fn from(bytes: [u8; 3]) -> (r: Self) {
        Self { id: [bytes[1], bytes[2]] }
    }
}

impl FromSpecImpl<[u8; 3]> for MfrId {
    open spec fn obeys_from_spec() -> bool {
        true
    }

    open spec fn from_spec(bytes: [u8; 3]) -> Self {
        Self { id: [bytes[1], bytes[2]] }
    }
}

impl ReadableRegister<3> for MfrId {
    const ADDRESS: u8 = MFR_ID;
}

/// The model name. The first reply byte is the byte count and carries no
/// data.
#[derive(Debug, Clone, Copy, PartialEq, Eq)]
pub struct MfrModel {
    /// The six bytes of the name.
    pub model: [u8; 6],
}

impl MfrModel {
    /// The name as text. The bytes must be well-formed UTF-8, as the ASCII
    /// that the device sends is.
    pub fn model(&self) -> (r: &str)
        requires
            valid_utf8(self.model@),
        ensures
            r@ == decode_utf8(self.model@),
    {
        text_of(&self.model)
    }
}

impl From<[u8; 7]> for MfrModel {
    fn from(bytes: [u8; 7]) -> (r: Self) {
        Self { model: [bytes[1], bytes[2], bytes[3], bytes[4], bytes[5], bytes[6]] }
    }
}

impl FromSpecImpl<[u8; 7]> for MfrModel {
    open spec fn obeys_from_spec() -> bool {
        true
    }

    open spec fn from_spec(bytes: [u8; 7]) -> Self {
        Self { model: [bytes[1], bytes[2], bytes[3], bytes[4], bytes[5], bytes[6]] }
    }
}

impl ReadableRegister<7> for MfrModel {
    const ADDRESS: u8 = MFR_MODEL;
}

/// The device revision. The first reply byte is the byte count and carries
/// no data.
#[derive(Debug, Clone, Copy, PartialEq, Eq)]
pub struct MfrRevision {
    /// The two bytes of the revision.
    pub revision: [u8; 2],
}

impl MfrRevision {
    /// The revision as text. The bytes must be well-formed UTF-8, as the
    /// ASCII that the device sends is.
    pub fn revision(&self) -> (r: &str)
        requires
            valid_utf8(self.revision@),
        ensures
            r@ == decode_utf8(self.revision@),
    {
        text_of(&self.revision)
    }
}

impl From<[u8; 3]> for MfrRevision {
    fn from(bytes: [u8; 3]) -> (r: Self) {
        Self { revision: [bytes[1], bytes[2]] }
    }
}

impl FromSpecImpl<[u8; 3]> for MfrRevision {
    open spec fn obeys_from_spec() -> bool {
        true
    }

    open spec fn from_spec(bytes: [u8; 3]) -> Self {
        Self { revision: [bytes[1], bytes[2]] }
    }
}

impl ReadableRegister<3> for MfrRevision {
    const ADDRESS: u8 = MFR_REVISION;
}

/// The shunt voltage measurement.
#[derive(Debug, Clone, Copy, PartialEq, Eq)]
pub struct MfrReadVshunt {
    /// The raw count, a two's-complement number.
    pub value: i16,
}

impl From<[u8; 2]> for MfrReadVshunt {
    fn from(bytes: [u8; 2]) -> (r: Self) {
        proof {
            lemma_whole_word(bytes[0], bytes[1]);
        }
        Self { value: as_signed(bytes.bits::<0, 16>()) }
    }
}

impl FromSpecImpl<[u8; 2]> for MfrReadVshunt {
    open spec fn obeys_from_spec() -> bool {
        true
    }

    open spec fn from_spec(bytes: [u8; 2]) -> Self {
        Self { value: twos_complement(le16(bytes[0], bytes[1])) as i16 }
    }
}

impl ReadableRegister<2> for MfrReadVshunt {
    const ADDRESS: u8 = MFR_READ_VSHUNT;
}

/// The mask that keeps events from raising the alert line.
#[derive(Debug, Clone, Copy, PartialEq, Eq)]
pub struct MfrAlertMask {
    /// Mask for a finished conversion (bit 7).
    pub conversion_ready: bool,
    /// Mask for an overflow of the converter (bit 6).
    pub adc_overflow_detected: bool,
    /// Mask for a power-on reset (bit 5).
    pub por_event_detected: bool,
    /// Mask for a communication fault (bit 4).
    pub communications: bool,
    /// Mask for the input overpower warning (bit 3).
    pub in_op_warning: bool,
    /// Mask for the input overcurrent warning (bit 2).
    pub in_oc_warning: bool,
    /// Mask for the input overvoltage warning (bit 1).
    pub in_ov_warning: bool,
    /// Mask for the input undervoltage warning (bit 0).
    pub in_uv_warning: bool,
}

impl From<[u8; 1]> for MfrAlertMask {
    fn from(bytes: [u8; 1]) -> (r: Self) {
        Self {
            conversion_ready: bytes.bit::<7>(),
            adc_overflow_detected: bytes.bit::<6>(),
            por_event_detected: bytes.bit::<5>(),
            communications: bytes.bit::<4>(),
            in_op_warning: bytes.bit::<3>(),
            in_oc_warning: bytes.bit::<2>(),
            in_ov_warning: bytes.bit::<1>(),
            in_uv_warning: bytes.bit::<0>(),
        }
    }
}

impl FromSpecImpl<[u8; 1]> for MfrAlertMask {
    open spec fn obeys_from_spec() -> bool {
        true
    }

    open spec fn from_spec(bytes: [u8; 1]) -> Self {
        let byte = bytes[0] as nat;
        Self {
            conversion_ready: bit_at(byte, 7),
            adc_overflow_detected: bit_at(byte, 6),
            por_event_detected: bit_at(byte, 5),
            communications: bit_at(byte, 4),
            in_op_warning: bit_at(byte, 3),
            in_oc_warning: bit_at(byte, 2),
            in_ov_warning: bit_at(byte, 1),
            in_uv_warning: bit_at(byte, 0),
        }
    }
}

impl ReadableRegister<1> for MfrAlertMask {
    const ADDRESS: u8 = MFR_ALERT_MASK;
}

/// The calibration register, which fixes what current one count of the
/// current register stands for.
///
/// It is read as two bytes and written as a frame of three.
#[derive(Debug, Clone, Copy, PartialEq, Eq)]
pub struct MfrCalibration {
    /// The calibration value.
    pub value: u16,
}

impl Default for MfrCalibration {
    fn default() -> (r: Self)
        ensures
            r.value == 0,
    {
        Self { value: 0 }
    }
}

impl MfrCalibration {
    /// The current LSB that the register stands for with the given shunt:
    /// `0.00512 V / (value * shunt_resistance)`, to the nearest picoampere.
    ///
    /// With a register or a resistance of zero there is no such current; the
    /// result is then the largest one.
    pub fn current_lsb(&self, shunt_resistance: Resistance) -> (r: Current)
        ensures
            r.picoamperes == current_lsb_from(self.value as int, shunt_resistance.nanoohms as int),
    {
        assert(0 <= self.value * shunt_resistance.nanoohms <= 0xffff * 0xffff_ffff_ffff_ffff)
            by (nonlinear_arith)
            requires
                0 <= self.value <= 0xffff,
                0 <= shunt_resistance.nanoohms <= 0xffff_ffff_ffff_ffff,
        ;
        let product: u128 = self.value as u128 * shunt_resistance.nanoohms as u128;
        let picoamperes: i64 = if product == 0 {
            i64::MAX
        } else if product > 2 * CALIBRATION_SCALE {
            proof {
                lemma_nearest_quotient_zero(CALIBRATION_SCALE as int, product as int);
            }
            0
        } else {
            proof {
                lemma_nearest_quotient_upper(CALIBRATION_SCALE as int, product as int);
            }
            let nearest: u128 = (2 * CALIBRATION_SCALE + product) / (2 * product);
            nearest as i64
        };
        Current { picoamperes }
    }

    /// Set the register for a current LSB and a shunt:
    /// `0.00512 V / (current_lsb * shunt_resistance)`, to the nearest integer.
    ///
    /// Choose the two so that this number fits the 16 bits of the register.
    /// One that does not is clipped to them, and currents computed with
    /// `current_lsb` then no longer match what the device measures.
    pub fn set_current_lsb(&mut self, current_lsb: Current, shunt_resistance: Resistance)
        ensures
            final(self).value == calibration_for(
                current_lsb.picoamperes as int,
                shunt_resistance.nanoohms as int,
            ),
    {
        assert(-0x8000_0000_0000_0000 * 0xffff_ffff_ffff_ffff <= current_lsb.picoamperes
            * shunt_resistance.nanoohms <= 0x8000_0000_0000_0000 * 0xffff_ffff_ffff_ffff)
            by (nonlinear_arith)
            requires
                -0x8000_0000_0000_0000 <= current_lsb.picoamperes < 0x8000_0000_0000_0000,
                0 <= shunt_resistance.nanoohms <= 0xffff_ffff_ffff_ffff,
        ;
        let product: i128 = current_lsb.picoamperes as i128 * shunt_resistance.nanoohms as i128;
        let scale: i128 = CALIBRATION_SCALE as i128;
        self.value = if product < 0 {
            0
        } else if product == 0 {
            CALIBRATION_MAX
        } else if product > 2 * scale {
            proof {
                lemma_nearest_quotient_zero(CALIBRATION_SCALE as int, product as int);
            }
            0
        } else {
            let nearest: i128 = (2 * scale + product) / (2 * product);
            if nearest > CALIBRATION_MAX as i128 {
                CALIBRATION_MAX
            } else {
                nearest as u16
            }
        };
    }
}

impl From<[u8; 2]> for MfrCalibration {
    fn from(bytes: [u8; 2]) -> (r: Self) {
        Self { value: u16_from_le(bytes[0], bytes[1]) }
    }
}

impl FromSpecImpl<[u8; 2]> for MfrCalibration {
    open spec fn obeys_from_spec() -> bool {
        true
    }

    open spec fn from_spec(bytes: [u8; 2]) -> Self {
        Self { value: le16(bytes[0], bytes[1]) as u16 }
    }
}

impl From<MfrCalibration> for [u8; 3] {
    fn from(register: MfrCalibration) -> (r: Self) {
        let bytes: [u8; 2] = u16_to_le(register.value);
        [<MfrCalibration as WritableRegister<3>>::ADDRESS, bytes[0], bytes[1]]
    }
}

impl FromSpecImpl<MfrCalibration> for [u8; 3] {
    open spec fn obeys_from_spec() -> bool {
        true
    }

    open spec fn from_spec(register: MfrCalibration) -> Self {
        [MFR_CALIBRATION, (register.value % 256) as u8, (register.value / 256) as u8]
    }
}

impl ReadableRegister<2> for MfrCalibration {
    const ADDRESS: u8 = MFR_CALIBRATION;
}

impl WritableRegister<3> for MfrCalibration {
    const ADDRESS: u8 = MFR_CALIBRATION;
}

/// The device configuration.
#[derive(Debug, Clone, Copy, PartialEq, Eq)]
pub struct MfrDeviceConfig {
    /// The energy accumulator has overflowed (bit 7).
    pub ein_status: bool,
    /// Which samples the energy accumulator adds up (bits 4 and 5).
    pub ein_accum: u8,
    /// The bus input filter is on (bit 3).
    pub i2c_filt: bool,
    /// Reading the energy accumulator clears it (bit 2).
    pub read_ein_autoclear: bool,
    /// The alert line is latched (bit 1).
    pub alert_behavior: bool,
    /// The polarity of the alert line (bit 0).
    pub apol: bool,
}

impl From<[u8; 1]> for MfrDeviceConfig {
    fn from(bytes: [u8; 1]) -> (r: Self) {
        Self {
            ein_status: bytes.bit::<7>(),
            ein_accum: bytes.bits::<4, 2>(),
            i2c_filt: bytes.bit::<3>(),
            read_ein_autoclear: bytes.bit::<2>(),
            alert_behavior: bytes.bit::<1>(),
            apol: bytes.bit::<0>(),
        }
    }
}

impl FromSpecImpl<[u8; 1]> for MfrDeviceConfig {
    open spec fn obeys_from_spec() -> bool {
        true
    }

    open spec fn from_spec(bytes: [u8; 1]) -> Self {
        let byte = bytes[0] as nat;
        Self {
            ein_status: bit_at(byte, 7),
            ein_accum: field_at(byte, 4, 2) as u8,
            i2c_filt: bit_at(byte, 3),
            read_ein_autoclear: bit_at(byte, 2),
            alert_behavior: bit_at(byte, 1),
            apol: bit_at(byte, 0),
        }
    }
}

impl ReadableRegister<1> for MfrDeviceConfig {
    const ADDRESS: u8 = MFR_DEVICE_CONFIG;
}

/// Command: clear the energy accumulator.
#[derive(Debug, Clone, Copy, PartialEq, Eq)]
pub struct ClearEin;

impl From<ClearEin> for [u8; 1] {
    fn from(_register: ClearEin) -> (r: Self) {
        [<ClearEin as WritableRegister<1>>::ADDRESS]
    }
}

impl FromSpecImpl<ClearEin> for [u8; 1] {
    open spec fn obeys_from_spec() -> bool {
        true
    }

    open spec fn from_spec(register: ClearEin) -> Self {
        [CLEAR_EIN]
    }
}

impl WritableRegister<1> for ClearEin {
    const ADDRESS: u8 = CLEAR_EIN;
}

/// The vendor's own copy of the manufacturer's name. The reply has no byte
/// count and holds the name last byte first.
#[derive(Debug, Clone, Copy, PartialEq, Eq)]
pub struct TiMfrId {
    /// The two bytes of the name, in reading order.
    pub id: [u8; 2],
}

impl TiMfrId {
    /// The name as text. The bytes must be well-formed UTF-8, as the ASCII
    /// that the device sends is.
    pub fn id(&self) -> (r: &str)
        requires
            valid_utf8(self.id@),
        ensures
            r@ == decode_utf8(self.id@),
    {
        text_of(&self.id)
    }
}

impl From<[u8; 2]> for TiMfrId {
    fn from(bytes: [u8; 2]) -> (r: Self) {
        Self { id: [bytes[1], bytes[0]] }
    }
}

impl FromSpecImpl<[u8; 2]> for TiMfrId {
    open spec fn obeys_from_spec() -> bool {
        true
    }

    open spec fn from_spec(bytes: [u8; 2]) -> Self {
        Self { id: [bytes[1], bytes[0]] }
    }
}

impl ReadableRegister<2> for TiMfrId {
    const ADDRESS: u8 = TI_MFR_ID;
}

/// The vendor's own copy of the model name. The reply has no byte count and
/// holds the name last byte first.
#[derive(Debug, Clone, Copy, PartialEq, Eq)]
pub struct TiMfrModel {
    /// The two bytes of the name, in reading order.
    pub model: [u8; 2],
}

impl TiMfrModel {
    /// The name as text. The bytes must be well-formed UTF-8, as the ASCII
    /// that the device sends is.
    pub fn model(&self) -> (r: &str)
        requires
            valid_utf8(self.model@),
        ensures
            r@ == decode_utf8(self.model@),
    {
        text_of(&self.model)
    }
}

impl From<[u8; 2]> for TiMfrModel {
    fn from(bytes: [u8; 2]) -> (r: Self) {
        Self { model: [bytes[1], bytes[0]] }
    }
}

impl FromSpecImpl<[u8; 2]> for TiMfrModel {
    open spec fn obeys_from_spec() -> bool {
        true
    }

    open spec fn from_spec(bytes: [u8; 2]) -> Self {
        Self { model: [bytes[1], bytes[0]] }
    }
}

impl ReadableRegister<2> for TiMfrModel {
    const ADDRESS: u8 = TI_MFR_MODEL;
}

/// The vendor's own copy of the device revision. The reply has no byte count
/// and holds the revision last byte first.
#[derive(Debug, Clone, Copy, PartialEq, Eq)]
pub struct TiMfrRevision {
    /// The two bytes of the revision, in reading order.
    pub revision: [u8; 2],
}

impl TiMfrRevision {
    /// The revision as text. The bytes must be well-formed UTF-8, as the
    /// ASCII that the device sends is.
    pub fn revision(&self) -> (r: &str)
        requires
            valid_utf8(self.revision@),
        ensures
            r@ == decode_utf8(self.revision@),
    {
        text_of(&self.revision)
    }
}

impl From<[u8; 2]> for TiMfrRevision {
    fn from(bytes: [u8; 2]) -> (r: Self) {
        Self { revision: [bytes[1], bytes[0]] }
    }
}

impl FromSpecImpl<[u8; 2]> for TiMfrRevision {
    open spec fn obeys_from_spec() -> bool {
        true
    }

    open spec fn from_spec(bytes: [u8; 2]) -> Self {
        Self { revision: [bytes[1], bytes[0]] }
    }
}

impl ReadableRegister<2> for TiMfrRevision {
    const ADDRESS: u8 = TI_MFR_REVISION;
}

/// The command address of every register that is read.
pub proof fn lemma_read_addresses()
    ensures
        <IoutOcWarnLimit as ReadableRegister<2>>::ADDRESS == 0x4A,
        <VinOvWarnLimit as ReadableRegister<2>>::ADDRESS == 0x57,
        <VinUvWarnLimit as ReadableRegister<2>>::ADDRESS == 0x58,
        <PinOpWarnLimit as ReadableRegister<2>>::ADDRESS == 0x6B,
        <StatusByte as ReadableRegister<1>>::ADDRESS == 0x78,
        <StatusWord as ReadableRegister<2>>::ADDRESS == 0x79,
        <StatusIout as ReadableRegister<1>>::ADDRESS == 0x7B,
        <StatusInput as ReadableRegister<1>>::ADDRESS == 0x7C,
        <StatusCml as ReadableRegister<1>>::ADDRESS == 0x7E,
        <StatusMfrSpecific as ReadableRegister<1>>::ADDRESS == 0x80,
        <ReadEin as ReadableRegister<7>>::ADDRESS == 0x86,
        <ReadVin as ReadableRegister<2>>::ADDRESS == 0x88,
        <ReadIin as ReadableRegister<2>>::ADDRESS == 0x89,
        <MfrAdcConfig as ReadableRegister<2>>::ADDRESS == 0xD0,
        <MfrId as ReadableRegister<3>>::ADDRESS == 0x99,
        <MfrModel as ReadableRegister<7>>::ADDRESS == 0x9A,
        <MfrRevision as ReadableRegister<3>>::ADDRESS == 0x9B,
        <MfrReadVshunt as ReadableRegister<2>>::ADDRESS == 0xD1,
        <MfrAlertMask as ReadableRegister<1>>::ADDRESS == 0xD2,
        <MfrCalibration as ReadableRegister<2>>::ADDRESS == 0xD4,
        <MfrDeviceConfig as ReadableRegister<1>>::ADDRESS == 0xD5,
        <TiMfrId as ReadableRegister<2>>::ADDRESS == 0xE0,
        <TiMfrModel as ReadableRegister<2>>::ADDRESS == 0xE1,
        <TiMfrRevision as ReadableRegister<2>>::ADDRESS == 0xE2,
{
}

/// The command address of every register that is written, and with it the
/// first byte of its frame.
pub proof fn lemma_write_addresses()
    ensures
        <ClearFaults as WritableRegister<1>>::ADDRESS == 0x03,
        <RestoreDefaultAll as WritableRegister<1>>::ADDRESS == 0x12,
        <MfrCalibration as WritableRegister<3>>::ADDRESS == 0xD4,
        <ClearEin as WritableRegister<1>>::ADDRESS == 0xD6,
        <[u8; 1] as FromSpec<ClearFaults>>::from_spec(ClearFaults)[0] == 0x03,
        <[u8; 1] as FromSpec<RestoreDefaultAll>>::from_spec(RestoreDefaultAll)[0] == 0x12,
        <[u8; 1] as FromSpec<ClearEin>>::from_spec(ClearEin)[0] == 0xD6,
        forall|register: MfrCalibration|
            #[trigger] <[u8; 3] as FromSpec<MfrCalibration>>::from_spec(register)[0] == 0xD4,
{
}

/// The calibration value that a frame carries is the one it was made from:
/// what is written reads back.
pub proof fn lemma_calibration_frame_reads_back(register: MfrCalibration)
    ensures
        ({
            let frame = <[u8; 3] as FromSpec<MfrCalibration>>::from_spec(register);
            &&& frame[0] == MFR_CALIBRATION
            &&& <MfrCalibration as FromSpec<[u8; 2]>>::from_spec([frame[1], frame[2]]) == register
        }),
{
}

/// The field that covers all 16 bits of a two-byte buffer is the buffer.
proof fn lemma_whole_word(low: u8, high: u8)
    ensures
        field_at(le16(low, high), 0, 16) == le16(low, high),
{
    lemma2_to64();
}

} // verus!

