//! The instrument: its calibration record and the calls it answers.
//!
//! The calibration data lie in flash behind a program header that says what
//! the block is. The header stores its integers least significant byte
//! first; the calibration record stores them most significant byte first,
//! and its gains as IEEE 754 doubles. The record is read once per device and
//! kept.

use crate::bytes::to_array;
use crate::channel::Channel;
use crate::channel::Record;
use crate::endian::be16;
use crate::endian::be32;
use crate::endian::be64;
use crate::endian::le16;
use crate::endian::u16_from_le;
use crate::endian::u32_from_be;
use crate::endian::u64_from_be;
use crate::error::ProtocolError;
use crate::frame::encode;
use crate::frame::Command;
use crate::parser::ByteArrayParser;
use crate::protocol::acknowledged;
use crate::protocol::answered;
use crate::protocol::bytes_of;
use crate::protocol::exec;
use crate::protocol::flash_read;
use crate::protocol::get_string;
use crate::protocol::get_u16;
use crate::protocol::get_u32;
use crate::protocol::payload_text;
use crate::protocol::payload_u16;
use crate::protocol::payload_u32;
use crate::protocol::read_flash;
use crate::protocol::text_of;
use crate::text::version_string;
use crate::text::version_text;
use vstd::prelude::*;
use vstd::utf8::decode_utf8;
use vstd::utf8::valid_utf8;

verus! {

/// Where the program header stands in flash.
pub const FLASH_PROG_HEADER_ADDR: u16 = 0xD400;

/// The size of the program header.
pub const FLASH_PROG_HEADER_SIZE: u16 = 0x000A;

/// The type tag by which the program header announces calibration data.
pub const FLASH_PROG_HEADER_TYPE: u16 = 0x003E;

/// Where the calibration record stands in flash.
pub const FLASH_CALIBRATION_ADDR: u16 = 0xD40A;

/// The size of the calibration record.
pub const FLASH_CALIBRATION_SIZE: u16 = 0x0687;

/// A frequency range: its bounds in hertz and the number of samples taken
/// over it.
#[derive(Debug, Clone, Copy, PartialEq, Eq)]
pub struct FrequencyRange {
    /// The start frequency, in hertz.
    pub f_start: u32,
    /// The stop frequency, in hertz.
    pub f_stop: u32,
    /// The number of samples.
    pub samples: u32,
}

impl FrequencyRange {
    /// The frequency range that twelve bytes stand for: three big-endian
    /// 32-bit values.
    pub open spec fn of_bytes(bytes: Seq<u8>) -> FrequencyRange
        recommends
            bytes.len() == 12,
    {
        FrequencyRange {
            f_start: be32(bytes[0], bytes[1], bytes[2], bytes[3]),
            f_stop: be32(bytes[4], bytes[5], bytes[6], bytes[7]),
            samples: be32(bytes[8], bytes[9], bytes[10], bytes[11]),
        }
    }
}

impl Default for FrequencyRange {
    fn default() -> (range: FrequencyRange)
        ensures
            range == (FrequencyRange { f_start: 0, f_stop: 0, samples: 0 }),
    {
        FrequencyRange { f_start: 0, f_stop: 0, samples: 0 }
    }
}

impl From<&[u8; 12]> for FrequencyRange {
    fn from(value: &[u8; 12]) -> (range: FrequencyRange) {
        FrequencyRange {
            f_start: u32_from_be(value[0], value[1], value[2], value[3]),
            f_stop: u32_from_be(value[4], value[5], value[6], value[7]),
            samples: u32_from_be(value[8], value[9], value[10], value[11]),
        }
    }
}

impl vstd::std_specs::convert::FromSpecImpl<&[u8; 12]> for FrequencyRange {
    open spec fn obeys_from_spec() -> bool {
        true
    }

    open spec fn from_spec(value: &[u8; 12]) -> FrequencyRange {
        FrequencyRange::of_bytes(value@)
    }
}

/// A reference level and the gain that sets it.
#[derive(Debug, Clone, Copy, PartialEq, Eq)]
pub struct RefLevel {
    /// The reference level.
    pub value: u8,
    /// The gain.
    pub gain: u8,
}

impl RefLevel {
    /// The reference level that two bytes stand for.
    pub open spec fn of_bytes(bytes: Seq<u8>) -> RefLevel
        recommends
            bytes.len() == 2,
    {
        RefLevel { value: bytes[0], gain: bytes[1] }
    }
}

impl Default for RefLevel {
    fn default() -> (level: RefLevel)
        ensures
            level == (RefLevel { value: 0, gain: 0 }),
    {
        RefLevel { value: 0, gain: 0 }
    }
}

impl From<&[u8; 2]> for RefLevel {
    fn from(value: &[u8; 2]) -> (level: RefLevel) {
        RefLevel { value: value[0], gain: value[1] }
    }
}

impl vstd::std_specs::convert::FromSpecImpl<&[u8; 2]> for RefLevel {
    open spec fn obeys_from_spec() -> bool {
        true
    }

    open spec fn from_spec(value: &[u8; 2]) -> RefLevel {
        RefLevel::of_bytes(value@)
    }
}

/// The gains measured for one reference level over one frequency range.
///
/// A gain is an IEEE 754 double. It is kept as the 64 bits that the record
/// holds, most significant byte first; `f64::from_bits` gives the number.
#[derive(Debug, Clone, Copy, PartialEq, Eq)]
pub struct FrequencyGain {
    /// Which reference level the gains belong to.
    pub ref_level_index: u8,
    /// The bits of the eight gains.
    pub gain_bits: [u64; 8],
}

impl FrequencyGain {
    /// The bits of gain `index` of a block of 65 bytes: the eight bytes from
    /// `1 + 8 * index` on, as a big-endian value.
    pub open spec fn bits_at(bytes: Seq<u8>, index: int) -> u64
        recommends
            bytes.len() == 65,
            0 <= index < 8,
    {
        be64(bytes.subrange(1 + 8 * index, 9 + 8 * index))
    }

    /// The gains that a block of 65 bytes stands for: the index of the
    /// reference level, then eight gains.
    pub open spec fn of_bytes(bytes: Seq<u8>) -> FrequencyGain
        recommends
            bytes.len() == 65,
    {
        FrequencyGain {
            ref_level_index: bytes[0],
            gain_bits: [
                Self::bits_at(bytes, 0),
                Self::bits_at(bytes, 1),
                Self::bits_at(bytes, 2),
                Self::bits_at(bytes, 3),
                Self::bits_at(bytes, 4),
                Self::bits_at(bytes, 5),
                Self::bits_at(bytes, 6),
                Self::bits_at(bytes, 7),
            ],
        }
    }
}

impl Default for FrequencyGain {
    fn default() -> (gain: FrequencyGain)
        ensures
            gain.ref_level_index == 0,
            forall|i: int| 0 <= i < 8 ==> gain.gain_bits[i] == 0,
    {
        FrequencyGain { ref_level_index: 0, gain_bits: [0u64; 8] }
    }
}

impl From<&[u8; 65]> for FrequencyGain {
    fn from(value: &[u8; 65]) -> (gain: FrequencyGain) {
        let ref_level_index: u8 = value[0];
        let mut gain_bits: [u64; 8] = [0u64; 8];
        let mut i: usize = 0;
        while i < 8
            invariant
                i <= 8,
                forall|j: int| 0 <= j < i ==> gain_bits[j] == FrequencyGain::bits_at(value@, j),
            decreases 8 - i,
        {
            let offset: usize = 1 + i * 8;
            gain_bits[i] = u64_from_be(
                vstd::slice::slice_subrange(value.as_slice(), offset, offset + 8),
            );
            i += 1;
        }
        proof {
            assert(gain_bits =~= FrequencyGain::of_bytes(value@).gain_bits);
        }
        FrequencyGain { ref_level_index, gain_bits }
    }
}

impl vstd::std_specs::convert::FromSpecImpl<&[u8; 65]> for FrequencyGain {
    open spec fn obeys_from_spec() -> bool {
        true
    }

    open spec fn from_spec(value: &[u8; 65]) -> FrequencyGain {
        FrequencyGain::of_bytes(value@)
    }
}

/// The calibration record of a device.
#[derive(Debug, Clone, PartialEq, Eq)]
pub struct Calibration {
    /// The hardware id.
    pub hardware_id: u32,
    /// The serial number, as text bytes.
    pub serial_number: [u8; 16],
    /// The version of the record's format: major in the high byte, minor in
    /// the low byte.
    pub format_version: u16,
    /// The version of the software that wrote the record.
    pub software_version: u16,
    /// Where the device was produced.
    pub production_side: u8,
    /// The date of calibration, as text bytes.
    pub calibration_date: [u8; 16],
    /// The crystal's frequency, in hertz.
    pub xtal_freq_hz: u32,
    /// The error of the crystal's frequency, in parts per million.
    pub xtal_freq_error_ppm: u16,
    /// The temperature at which calibration began, as text bytes.
    pub calibration_temperature_start: [u8; 6],
    /// The temperature at which calibration ended, as text bytes.
    pub calibration_temperature_stop: [u8; 6],
    /// The reference levels.
    pub ref_levels: [RefLevel; 8],
    /// The frequency ranges.
    pub frq_ranges: [FrequencyRange; 3],
    /// The gains: one table of eight entries for each frequency range.
    pub frq_gains_tables: [[FrequencyGain; 8]; 3],
}

impl Default for Calibration {
    /// The blank record: every number zero, every text byte zero.
    fn default() -> (record: Calibration)
        ensures
            record.hardware_id == 0,
            record.format_version == 0,
            record.software_version == 0,
            record.production_side == 0,
            record.xtal_freq_hz == 0,
            record.xtal_freq_error_ppm == 0,
            forall|i: int| 0 <= i < 16 ==> record.serial_number[i] == 0,
            forall|i: int| 0 <= i < 16 ==> record.calibration_date[i] == 0,
            forall|i: int| 0 <= i < 6 ==> record.calibration_temperature_start[i] == 0,
            forall|i: int| 0 <= i < 6 ==> record.calibration_temperature_stop[i] == 0,
            forall|i: int| 0 <= i < 8 ==> record.ref_levels[i] == (RefLevel { value: 0, gain: 0 }),
            forall|i: int|
                0 <= i < 3 ==> record.frq_ranges[i] == (FrequencyRange {
                    f_start: 0,
                    f_stop: 0,
                    samples: 0,
                }),
            forall|i: int, j: int|
                0 <= i < 3 && 0 <= j < 8 ==> (
                #[trigger] record.frq_gains_tables[i][j]).ref_level_index == 0,
            forall|i: int, j: int, k: int|
                0 <= i < 3 && 0 <= j < 8 && 0 <= k < 8 ==> (
                #[trigger] record.frq_gains_tables[i][j].gain_bits[k]) == 0,
    {
        Calibration {
            hardware_id: 0,
            serial_number: [0u8; 16],
            format_version: 0,
            software_version: 0,
            production_side: 0,
            calibration_date: [0u8; 16],
            xtal_freq_hz: 0,
            xtal_freq_error_ppm: 0,
            calibration_temperature_start: [0u8; 6],
            calibration_temperature_stop: [0u8; 6],
            ref_levels: [RefLevel { value: 0, gain: 0 }; 8],
            frq_ranges: [FrequencyRange { f_start: 0, f_stop: 0, samples: 0 }; 3],
            frq_gains_tables: [[FrequencyGain { ref_level_index: 0, gain_bits: [0u64; 8] }; 8]; 3],
        }
    }
}

impl Calibration {
    /// Whether this is the record that `bytes` hold.
    ///
    /// | offset | field                            | size      |
    /// |--------|----------------------------------|-----------|
    /// | 0      | format version                   | 2         |
    /// | 2      | calibration date                 | 16        |
    /// | 18     | software version                 | 2         |
    /// | 20     | production side                  | 1         |
    /// | 21     | frequency ranges                 | 3 x 12    |
    /// | 57     | reference levels                 | 8 x 2     |
    /// | 73     | hardware id                      | 4         |
    /// | 77     | serial number                    | 16        |
    /// | 93     | crystal frequency                | 4         |
    /// | 97     | crystal frequency error          | 2         |
    /// | 99     | calibration temperature, start   | 6         |
    /// | 105    | calibration temperature, stop    | 6         |
    /// | 111    | gains                            | 3 x 8 x 65|
    pub open spec fn is_record_of(self, bytes: Seq<u8>) -> bool
        recommends
            bytes.len() >= FLASH_CALIBRATION_SIZE,
    {
        &&& self.format_version == be16(bytes[0], bytes[1])
        &&& self.calibration_date@ == bytes.subrange(2, 18)
        &&& self.software_version == be16(bytes[18], bytes[19])
        &&& self.production_side == bytes[20]
        &&& forall|i: int|
            0 <= i < 3 ==> #[trigger] self.frq_ranges[i] == FrequencyRange::of_bytes(
                bytes.subrange(21 + 12 * i, 33 + 12 * i),
            )
        &&& forall|i: int|
            0 <= i < 8 ==> #[trigger] self.ref_levels[i] == RefLevel::of_bytes(
                bytes.subrange(57 + 2 * i, 59 + 2 * i),
            )
        &&& self.hardware_id == be32(bytes[73], bytes[74], bytes[75], bytes[76])
        &&& self.serial_number@ == bytes.subrange(77, 93)
        &&& self.xtal_freq_hz == be32(bytes[93], bytes[94], bytes[95], bytes[96])
        &&& self.xtal_freq_error_ppm == be16(bytes[97], bytes[98])
        &&& self.calibration_temperature_start@ == bytes.subrange(99, 105)
        &&& self.calibration_temperature_stop@ == bytes.subrange(105, 111)
        &&& forall|i: int, j: int|
            0 <= i < 3 && 0 <= j < 8 ==> #[trigger] self.frq_gains_tables[i][j]
                == FrequencyGain::of_bytes(
                bytes.subrange(111 + 65 * (8 * i + j), 176 + 65 * (8 * i + j)),
            )
    }

    /// The record that `bytes` hold.
    pub open spec fn record_of(bytes: Seq<u8>) -> Calibration
        recommends
            bytes.len() >= FLASH_CALIBRATION_SIZE,
    {
        choose|record: Calibration| record.is_record_of(bytes)
    }

    /// Reads the record from the bytes of the calibration block. Fails
    /// where the bytes are fewer than the record takes; bytes behind the
    /// record are not looked at.
    pub fn from_bytes(value: &[u8]) -> (result: Result<Calibration, ProtocolError>)
        ensures
            match result {
                Ok(record) => value@.len() >= FLASH_CALIBRATION_SIZE && record.is_record_of(value@),
                Err(error) => error == ProtocolError::OutOfBounds && value@.len()
                    < FLASH_CALIBRATION_SIZE,
            },
    {
        let mut parser = ByteArrayParser::new(value);
        let format_version: u16 = parser.take_u16()?;
        let calibration_date: [u8; 16] = to_array(parser.take_bytes(16)?);
        let software_version: u16 = parser.take_u16()?;
        let production_side: u8 = parser.take_u8()?;

        let mut frq_ranges: [FrequencyRange; 3] = [FrequencyRange {
            f_start: 0,
            f_stop: 0,
            samples: 0,
        }; 3];
        let mut i: usize = 0;
        while i < 3
            invariant
                i <= 3,
                parser.source() == value@,
                parser.position() == 21 + 12 * i,
                parser.position() <= value@.len(),
                forall|k: int|
                    0 <= k < i ==> #[trigger] frq_ranges[k] == FrequencyRange::of_bytes(
                        value@.subrange(21 + 12 * k, 33 + 12 * k),
                    ),
            decreases 3 - i,
        {
            let block: [u8; 12] = to_array(parser.take_bytes(12)?);
            frq_ranges[i] = FrequencyRange::from(&block);
            i += 1;
        }

        let mut ref_levels: [RefLevel; 8] = [RefLevel { value: 0, gain: 0 }; 8];
        let mut i: usize = 0;
        while i < 8
            invariant
                i <= 8,
                parser.source() == value@,
                parser.position() == 57 + 2 * i,
                parser.position() <= value@.len(),
                forall|k: int|
                    0 <= k < i ==> #[trigger] ref_levels[k] == RefLevel::of_bytes(
                        value@.subrange(57 + 2 * k, 59 + 2 * k),
                    ),
            decreases 8 - i,
        {
            let block: [u8; 2] = to_array(parser.take_bytes(2)?);
            ref_levels[i] = RefLevel::from(&block);
            i += 1;
        }

        let hardware_id: u32 = parser.take_u32()?;
        let serial_number: [u8; 16] = to_array(parser.take_bytes(16)?);
        let xtal_freq_hz: u32 = parser.take_u32()?;
        let xtal_freq_error_ppm: u16 = parser.take_u16()?;
        let calibration_temperature_start: [u8; 6] = to_array(parser.take_bytes(6)?);
        let calibration_temperature_stop: [u8; 6] = to_array(parser.take_bytes(6)?);

        let blank = FrequencyGain { ref_level_index: 0, gain_bits: [0u64; 8] };
        let mut frq_gains_tables: [[FrequencyGain; 8]; 3] = [[blank; 8]; 3];
        let mut i: usize = 0;
        while i < 3
            invariant
                i <= 3,
                parser.source() == value@,
                parser.position() == 111 + 65 * (8 * i),
                parser.position() <= value@.len(),
                forall|a: int, b: int|
                    0 <= a < i && 0 <= b < 8 ==> #[trigger] frq_gains_tables[a][b]
                        == FrequencyGain::of_bytes(
                        value@.subrange(111 + 65 * (8 * a + b), 176 + 65 * (8 * a + b)),
                    ),
            decreases 3 - i,
        {
            let mut table: [FrequencyGain; 8] = [blank; 8];
            let mut j: usize = 0;
            while j < 8
                invariant
                    j <= 8,
                    i < 3,
                    parser.source() == value@,
                    parser.position() == 111 + 65 * (8 * i + j),
                    parser.position() <= value@.len(),
                    forall|b: int|
                        0 <= b < j ==> #[trigger] table[b] == FrequencyGain::of_bytes(
                            value@.subrange(111 + 65 * (8 * i + b), 176 + 65 * (8 * i + b)),
                        ),
                decreases 8 - j,
            {
                let block: [u8; 65] = to_array(parser.take_bytes(65)?);
                table[j] = FrequencyGain::from(&block);
                j += 1;
            }
            frq_gains_tables[i] = table;
            i += 1;
        }

        Ok(
            Calibration {
                hardware_id,
                serial_number,
                format_version,
                software_version,
                production_side,
                calibration_date,
                xtal_freq_hz,
                xtal_freq_error_ppm,
                calibration_temperature_start,
                calibration_temperature_stop,
                ref_levels,
                frq_ranges,
                frq_gains_tables,
            },
        )
    }
}

impl TryFrom<&[u8]> for Calibration {
    type Error = ProtocolError;

    /// Reads the record from the bytes of the calibration block, as
    /// [`Calibration::from_bytes`] does.
    fn try_from(value: &[u8]) -> (result: Result<Calibration, ProtocolError>) {
        let result = Calibration::from_bytes(value);
        proof {
            if result is Ok {
                lemma_record_unique(result->Ok_0, Calibration::record_of(value@), value@);
            }
        }
        result
    }
}

impl vstd::std_specs::convert::TryFromSpecImpl<&[u8]> for Calibration {
    open spec fn obeys_try_from_spec() -> bool {
        true
    }

    open spec fn try_from_spec(value: &[u8]) -> Result<Calibration, ProtocolError> {
        if value@.len() >= FLASH_CALIBRATION_SIZE {
            Ok(Calibration::record_of(value@))
        } else {
            Err(ProtocolError::OutOfBounds)
        }
    }
}

/// The bytes of a calibration block hold one record and no other.
pub proof fn lemma_record_unique(first: Calibration, second: Calibration, bytes: Seq<u8>)
    requires
        first.is_record_of(bytes),
        second.is_record_of(bytes),
    ensures
        first == second,
{
    assert(first.calibration_date =~= second.calibration_date);
    assert(first.serial_number =~= second.serial_number);
    assert(first.calibration_temperature_start =~= second.calibration_temperature_start);
    assert(first.calibration_temperature_stop =~= second.calibration_temperature_stop);
    assert(first.ref_levels =~= second.ref_levels);
    assert(first.frq_ranges =~= second.frq_ranges);
    assert forall|i: int| 0 <= i < 3 implies first.frq_gains_tables[i]
        == second.frq_gains_tables[i] by {
        assert forall|j: int| 0 <= j < 8 implies first.frq_gains_tables[i][j]
            == second.frq_gains_tables[i][j] by {}
        assert(first.frq_gains_tables[i] =~= second.frq_gains_tables[i]);
    }
    assert(first.frq_gains_tables =~= second.frq_gains_tables);
}

/// The header that says what lies behind it in flash.
#[derive(Debug, Clone, Copy, PartialEq, Eq, Structural)]
pub struct ProgHeader {
    /// Where the block starts.
    pub mem_start_address: u16,
    /// The size of the block.
    pub mem_length: u16,
    /// What the block is.
    pub mem_type: u16,
    /// The version of the block's type.
    pub type_version: u16,
    /// The block's checksum.
    pub crc: u16,
}

impl Default for ProgHeader {
    fn default() -> (header: ProgHeader)
        ensures
            header == (ProgHeader {
                mem_start_address: 0,
                mem_length: 0,
                mem_type: 0,
                type_version: 0,
                crc: 0,
            }),
    {
        ProgHeader { mem_start_address: 0, mem_length: 0, mem_type: 0, type_version: 0, crc: 0 }
    }
}

impl ProgHeader {
    /// The header that ten bytes stand for: five little-endian 16-bit
    /// values.
    pub open spec fn of_bytes(bytes: Seq<u8>) -> ProgHeader
        recommends
            bytes.len() >= FLASH_PROG_HEADER_SIZE,
    {
        ProgHeader {
            mem_start_address: le16(bytes[0], bytes[1]),
            mem_length: le16(bytes[2], bytes[3]),
            mem_type: le16(bytes[4], bytes[5]),
            type_version: le16(bytes[6], bytes[7]),
            crc: le16(bytes[8], bytes[9]),
        }
    }

    /// Reads the header from the bytes of the header block. Fails where the
    /// bytes are fewer than the header takes.
    pub fn from_bytes(bytes: &[u8]) -> (result: Result<ProgHeader, ProtocolError>)
        ensures
            result == if bytes@.len() >= FLASH_PROG_HEADER_SIZE {
                Ok::<ProgHeader, ProtocolError>(ProgHeader::of_bytes(bytes@))
            } else {
                Err::<ProgHeader, ProtocolError>(ProtocolError::OutOfBounds)
            },
    {
        if bytes.len() < FLASH_PROG_HEADER_SIZE as usize {
            return Err(ProtocolError::OutOfBounds);
        }
        Ok(
            ProgHeader {
                mem_start_address: u16_from_le(bytes[0], bytes[1]),
                mem_length: u16_from_le(bytes[2], bytes[3]),
                mem_type: u16_from_le(bytes[4], bytes[5]),
                type_version: u16_from_le(bytes[6], bytes[7]),
                crc: u16_from_le(bytes[8], bytes[9]),
            },
        )
    }
}

/// What the check of the program header makes of the bytes read for it:
/// nothing to object where they hold a header that announces calibration
/// data, else the failure of the read or of the check.
pub open spec fn header_checked(header: Result<Seq<u8>, ProtocolError>) -> Result<
    (),
    ProtocolError,
> {
    match header {
        Err(error) => Err(error),
        Ok(bytes) => if bytes.len() < FLASH_PROG_HEADER_SIZE {
            Err(ProtocolError::OutOfBounds)
        } else if ProgHeader::of_bytes(bytes).mem_type != FLASH_PROG_HEADER_TYPE {
            Err(
                ProtocolError::InvalidMemoryType {
                    wanted: FLASH_PROG_HEADER_TYPE,
                    found: ProgHeader::of_bytes(bytes).mem_type,
                },
            )
        } else {
            Ok(())
        },
    }
}

/// Whether `result` is what decoding makes of the bytes read for the
/// calibration record: the record that they hold, or the failure of the read
/// or of the decoding.
pub open spec fn record_decoded(
    blob: Result<Seq<u8>, ProtocolError>,
    result: Result<Calibration, ProtocolError>,
) -> bool {
    match blob {
        Err(error) => result == Err::<Calibration, ProtocolError>(error),
        Ok(bytes) => match result {
            Ok(record) => bytes.len() >= FLASH_CALIBRATION_SIZE && record.is_record_of(bytes),
            Err(error) => error == ProtocolError::OutOfBounds && bytes.len()
                < FLASH_CALIBRATION_SIZE,
        },
    }
}

/// Whether a call that took a channel's record from `before` to `after` read
/// the program header from flash and checked it, with the result `result`.
pub open spec fn header_read(
    before: Record,
    after: Record,
    result: Result<(), ProtocolError>,
) -> bool {
    exists|header: Result<Seq<u8>, ProtocolError>| #[trigger]
        flash_read(FLASH_PROG_HEADER_ADDR, FLASH_PROG_HEADER_SIZE, before, after, header)
            && result == header_checked(header)
}

/// Whether a call that took a channel's record from `before` to `after` read
/// the calibration record from flash and decoded it, with the result
/// `result`.
pub open spec fn record_read(
    before: Record,
    after: Record,
    result: Result<Calibration, ProtocolError>,
) -> bool {
    exists|blob: Result<Seq<u8>, ProtocolError>| #[trigger]
        flash_read(FLASH_CALIBRATION_ADDR, FLASH_CALIBRATION_SIZE, before, after, blob)
            && record_decoded(blob, result)
}

/// Whether a call that took a channel's record from `before` to `after`
/// fetched the calibration record with the result `result`: it read and
/// checked the program header, which took the channel's record to `middle`,
/// and where the header passed, it read and decoded the record behind it.
/// The failure of the header is the failure of the call, and ends it.
pub open spec fn calibration_fetched(
    before: Record,
    after: Record,
    result: Result<Calibration, ProtocolError>,
) -> bool {
    exists|middle: Record, header: Result<(), ProtocolError>| #[trigger]
        header_read(before, middle, header) && match header {
            Err(error) => after == middle && result == Err::<Calibration, ProtocolError>(error),
            Ok(_) => record_read(middle, after, result),
        }
}

/// A name for what std's `String::from_utf8_lossy` makes of a byte sequence.
pub uninterp spec fn lossy_text(bytes: Seq<u8>) -> Seq<char>;

/// std's `String::from_utf8_lossy`, as an owned string. The standard library
/// documents that the call keeps valid UTF-8 as it is and puts U+FFFD in
/// place of what is not. The contract gives the text its name, as a
/// function of the bytes, and states the first half: bytes that are valid
/// UTF-8 give the characters that they encode.
#[verifier::external_body]
fn string_from_utf8_lossy(bytes: &[u8]) -> (text: String)
    ensures
        text@ == lossy_text(bytes@),
        valid_utf8(bytes@) ==> text@ == decode_utf8(bytes@),
{
    String::from_utf8_lossy(bytes).into_owned()
}

/// The instrument behind a channel.
///
/// Every call blocks until the device has answered or the transport has
/// failed. The calibration record is read from flash when it is first asked
/// for, and kept.
pub struct Sa430<C: Channel> {
    channel: C,
    calibration: Option<Calibration>,
}

impl<C: Channel> Sa430<C> {
    /// The channel to the device.
    pub closed spec fn channel(&self) -> C {
        self.channel
    }

    /// The calibration record, once it has been read.
    pub closed spec fn cached(&self) -> Option<Calibration> {
        self.calibration
    }

    /// What has gone over the channel to the device.
    pub open spec fn record(&self) -> Record {
        self.channel().record()
    }

    /// A device behind `channel`, its calibration record not yet read.
    pub fn new(channel: C) -> (device: Self)
        ensures
            device.channel() == channel,
            device.cached() is None,
    {
        Sa430 { channel, calibration: None }
    }

    /// Gives the channel back.
    pub fn into_channel(self) -> (channel: C)
        ensures
            channel == self.channel(),
    {
        self.channel
    }

    /// Asks for the identification string.
    pub fn idn(&mut self) -> (result: Result<String, ProtocolError>)
        ensures
            final(self).cached() == old(self).cached(),
            answered(
                Command::GetIdn,
                encode(Command::GetIdn, Seq::<u8>::empty()),
                old(self).record(),
                final(self).record(),
                text_of(result),
                |payload: Seq<u8>| payload_text(payload),
            ),
    {
        get_string(&mut self.channel, Command::GetIdn)
    }

    /// Asks for the serial number.
    pub fn serial_number(&mut self) -> (result: Result<u32, ProtocolError>)
        ensures
            final(self).cached() == old(self).cached(),
            answered(
                Command::GetSerialNumber,
                encode(Command::GetSerialNumber, Seq::<u8>::empty()),
                old(self).record(),
                final(self).record(),
                result,
                |payload: Seq<u8>| payload_u32(payload),
            ),
    {
        get_u32(&mut self.channel, Command::GetSerialNumber)
    }

    /// Asks for the version of the core firmware, as text.
    pub fn core_version(&mut self) -> (result: Result<String, ProtocolError>)
        ensures
            final(self).cached() == old(self).cached(),
            answered(
                Command::GetCoreVersion,
                encode(Command::GetCoreVersion, Seq::<u8>::empty()),
                old(self).record(),
                final(self).record(),
                text_of(result),
                |payload: Seq<u8>| payload_version(payload),
            ),
    {
        match get_u16(&mut self.channel, Command::GetCoreVersion) {
            Ok(version) => Ok(version_string(version)),
            Err(error) => Err(error),
        }
    }

    /// Asks for the version of the spectrum firmware, as text.
    pub fn spectrum_version(&mut self) -> (result: Result<String, ProtocolError>)
        ensures
            final(self).cached() == old(self).cached(),
            answered(
                Command::GetSpectrumVersion,
                encode(Command::GetSpectrumVersion, Seq::<u8>::empty()),
                old(self).record(),
                final(self).record(),
                text_of(result),
                |payload: Seq<u8>| payload_version(payload),
            ),
    {
        match get_u16(&mut self.channel, Command::GetSpectrumVersion) {
            Ok(version) => Ok(version_string(version)),
            Err(error) => Err(error),
        }
    }

    /// Blinks the device's LED.
    pub fn blink(&mut self) -> (result: Result<(), ProtocolError>)
        ensures
            final(self).cached() == old(self).cached(),
            acknowledged(
                Command::BlinkLed,
                encode(Command::BlinkLed, Seq::<u8>::empty()),
                old(self).record(),
                final(self).record(),
                result,
            ),
    {
        exec(&mut self.channel, Command::BlinkLed)
    }

    /// Reboots the device.
    pub fn reboot(&mut self) -> (result: Result<(), ProtocolError>)
        ensures
            final(self).cached() == old(self).cached(),
            acknowledged(
                Command::HardwareReset,
                encode(Command::HardwareReset, Seq::<u8>::empty()),
                old(self).record(),
                final(self).record(),
                result,
            ),
    {
        exec(&mut self.channel, Command::HardwareReset)
    }

    /// Reads the program header from flash and checks that it announces
    /// calibration data.
    fn check_prog_header(&mut self) -> (result: Result<(), ProtocolError>)
        ensures
            final(self).cached() == old(self).cached(),
            header_read(
                old(self).record(),
                final(self).record(),
                result,
            ),
    {
        let raw = read_flash(&mut self.channel, FLASH_PROG_HEADER_ADDR, FLASH_PROG_HEADER_SIZE);
        let ghost header = bytes_of(raw);
        let result = match raw {
            Ok(bytes) => {
                match ProgHeader::from_bytes(bytes.as_slice()) {
                    Ok(prog_header) => {
                        if prog_header.mem_type != FLASH_PROG_HEADER_TYPE {
                            Err(
                                ProtocolError::InvalidMemoryType {
                                    wanted: FLASH_PROG_HEADER_TYPE,
                                    found: prog_header.mem_type,
                                },
                            )
                        } else {
                            Ok(())
                        }
                    },
                    Err(error) => Err(error),
                }
            },
            Err(error) => Err(error),
        };
        proof {
            assert(flash_read(
                FLASH_PROG_HEADER_ADDR,
                FLASH_PROG_HEADER_SIZE,
                old(self).record(),
                self.record(),
                header,
            ) && result == header_checked(header));
        }
        result
    }

    /// Reads the calibration record from flash and decodes it.
    fn read_calibration(&mut self) -> (result: Result<Calibration, ProtocolError>)
        ensures
            final(self).cached() == old(self).cached(),
            record_read(
                old(self).record(),
                final(self).record(),
                result,
            ),
    {
        let raw = read_flash(&mut self.channel, FLASH_CALIBRATION_ADDR, FLASH_CALIBRATION_SIZE);
        let ghost blob = bytes_of(raw);
        let result = match raw {
            Ok(bytes) => Calibration::from_bytes(bytes.as_slice()),
            Err(error) => Err(error),
        };
        proof {
            assert(flash_read(
                FLASH_CALIBRATION_ADDR,
                FLASH_CALIBRATION_SIZE,
                old(self).record(),
                self.record(),
                blob,
            ) && record_decoded(blob, result));
        }
        result
    }

    /// Checks the program header, then reads the calibration record.
    fn fetch_calibration(&mut self) -> (result: Result<Calibration, ProtocolError>)
        ensures
            final(self).cached() == old(self).cached(),
            calibration_fetched(
                old(self).record(),
                final(self).record(),
                result,
            ),
    {
        let header = self.check_prog_header();
        let ghost middle = self.record();
        match header {
            Ok(_) => {},
            Err(error) => {
                proof {
                    assert(header_read(old(self).record(), middle, header));
                }
                return Err(error);
            },
        }
        let result = self.read_calibration();
        proof {
            assert(header_read(old(self).record(), middle, header));
        }
        result
    }

    /// Whether a call obtained the calibration record with the result
    /// `result`. Where the device kept a record, the call returned it and
    /// left the channel alone. Where it kept none, the call fetched the
    /// record from flash; it kept what it fetched, and nothing where it
    /// failed.
    pub open spec fn obtained(
        before: &Self,
        after: &Self,
        result: Result<Calibration, ProtocolError>,
    ) -> bool {
        match before.cached() {
            Some(record) => result == Ok::<Calibration, ProtocolError>(record) && after.cached()
                == before.cached() && after.channel() == before.channel(),
            None => calibration_fetched(before.record(), after.record(), result) && after.cached()
                == match result {
                Ok(record) => Some(record),
                Err(_) => None,
            },
        }
    }

    /// The calibration record. The first call that succeeds reads it from
    /// the device; every later call returns the record kept and leaves the
    /// device alone. A call that fails keeps nothing.
    pub fn calibration(&mut self) -> (result: Result<&Calibration, ProtocolError>)
        ensures
            Self::obtained(
                old(self),
                final(self),
                match result {
                    Ok(record) => Ok(*record),
                    Err(error) => Err(error),
                },
            ),
    {
        if self.calibration.is_none() {
            let record = self.fetch_calibration()?;
            self.calibration = Some(record);
        }
        Ok(self.calibration.as_ref().unwrap())
    }

    /// The version of the calibration record's format, as text.
    pub fn calibration_version(&mut self) -> (result: Result<String, ProtocolError>)
        ensures
            match result {
                Ok(text) => final(self).cached() matches Some(record) && text@ == version_text(
                    record.format_version,
                ) && Self::obtained(old(self), final(self), Ok(record)),
                Err(error) => Self::obtained(old(self), final(self), Err(error)),
            },
    {
        match self.calibration() {
            Ok(record) => Ok(version_string(record.format_version)),
            Err(error) => Err(error),
        }
    }

    /// The date of calibration, as text: the bytes of the record's date read
    /// as UTF-8, with U+FFFD in place of what is none. A date that is valid
    /// UTF-8, as every date in ASCII is, is read as the characters that its
    /// bytes encode.
    pub fn calibration_date(&mut self) -> (result: Result<String, ProtocolError>)
        ensures
            match result {
                Ok(text) => final(self).cached() matches Some(record) && text@ == lossy_text(
                    record.calibration_date@,
                ) && (valid_utf8(record.calibration_date@) ==> text@ == decode_utf8(
                    record.calibration_date@,
                )) && Self::obtained(old(self), final(self), Ok(record)),
                Err(error) => Self::obtained(old(self), final(self), Err(error)),
            },
    {
        match self.calibration() {
            Ok(record) => Ok(string_from_utf8_lossy(record.calibration_date.as_slice())),
            Err(error) => Err(error),
        }
    }
}

/// The first two bytes of a payload as a version, as text.
pub open spec fn payload_version(payload: Seq<u8>) -> Result<Seq<char>, ProtocolError> {
    match payload_u16(payload) {
        Ok(version) => Ok(version_text(version)),
        Err(error) => Err(error),
    }
}

} // verus!
