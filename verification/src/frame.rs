//! Frames: the protocol's unit on the wire, and the codes they carry.
//!
//! A frame is a magic byte, the payload's length, a command code, the payload
//! and a 16-bit checksum over everything before it, most significant byte
//! first:
//!
//! | offset       | field    | size     |
//! |--------------|----------|----------|
//! | 0            | magic    | 1        |
//! | 1            | length   | 1        |
//! | 2            | command  | 1        |
//! | 3            | payload  | `length` |
//! | 3 + `length` | checksum | 2        |

use crate::bytes::append;
use crate::crc::checksum;
use crate::crc::crc16;
use crate::crc::lemma_checksum_tamper;
use crate::endian::be16;
use crate::endian::be16_bytes;
use crate::endian::u16_from_be;
use crate::endian::u16_to_be;
use crate::text::hex2;
use crate::text::hex4;
use crate::text::push_hex2;
use crate::text::push_hex4;
use vstd::prelude::*;
use vstd::string::StringExecFns;

verus! {

/// The byte that opens every frame.
pub const FRAME_MAGIC_VALUE: u8 = 0x2A;

/// Where the magic byte stands in a frame.
pub const FRAME_MAGIC_INDEX: usize = 0;

/// Where the payload's length stands in a frame.
pub const FRAME_DATA_LENGTH_INDEX: usize = 1;

/// Where the command code stands in a frame.
pub const FRAME_COMMAND_INDEX: usize = 2;

/// Where the payload starts in a frame.
pub const FRAME_DATA_INDEX: usize = 3;

/// The size of a frame's header: magic, length and command.
pub const FRAME_HEADER_SIZE: usize = 3;

/// The size of a frame's checksum.
pub const FRAME_CRC_SIZE: usize = 2;

/// The longest payload a frame can carry: its length must fit in one byte.
pub const FRAME_MAX_DATA_SIZE: usize = 255;

/// The size of the longest frame: header, payload and checksum.
pub const FRAME_MAX_SIZE: usize = 260;

/// The operations of the instrument, listed by ascending code.
#[derive(Debug, Clone, Copy, PartialEq, Eq, PartialOrd, Ord, Structural)]
pub enum Command {
    /// A code this driver does not know.
    Unknown,
    /// Asks for the identification string.
    GetIdn,
    /// Asks for the hardware serial number.
    GetSerialNumber,
    /// Resets the hardware.
    HardwareReset,
    /// Identifies the hardware by blinking its LED.
    BlinkLed,
    /// Asks for the version of the core firmware.
    GetCoreVersion,
    /// Reports the last error; its payload is an error code.
    GetLastError,
    /// Synchronisation.
    Sync,
    /// Sends an address and a size, gets flash content.
    FlashRead,
    /// Writes flash.
    FlashWrite,
    /// Erases flash.
    FlashErase,
    /// Asks for the checksum of a flash region.
    FlashGetCrc,
    /// Asks for the version of the spectrum firmware.
    GetSpectrumVersion,
    /// Sets the start frequency.
    SetFStart,
    /// Sets the stop frequency.
    SetFStop,
    /// Sets the frequency step.
    SetFStep,
    /// Sets the frequency.
    SetFrq,
    /// Sets the bandwidth of the receive filter.
    SetRbw,
    /// Sets the DC value for the balun.
    SetDac,
    /// Sets the gain of the receive path.
    SetGain,
    /// Sets the intermediate frequency.
    SetIf,
    /// Sets the system up for a spectrum measurement.
    InitParameter,
    /// Measures a spectrum with the parameters already set.
    GetSpecNoInit,
    /// Asks for the production version.
    GetProdVer,
    /// Initialises the production firmware.
    SetProdFwInit,
    /// Asks for the temperature.
    GetTemp,
    /// Sets the hardware id.
    SetHardwareId,
    /// Asks for the hardware id.
    GetHardwareId,
    /// Asks for the boot count.
    GetBootCnt,
    /// Selects the frequency output: off, 26 MHz or the RF frequency.
    SetFout,
    /// Sets the crystal frequency, with temperature and calibration versions.
    SetFxtal,
    /// Asks for the crystal frequency, with temperature and calibration versions.
    GetFxtal,
    /// Sweeps with a frequency, a gain and a repetition count.
    SweepEdc,
    /// Asks for the chip's descriptor table.
    GetChipTlv,
    /// Reserved: the device could not read the frame.
    FrameError,
}

impl Command {
    /// The byte that stands for this command on the wire.
    pub open spec fn spec_code(self) -> u8 {
        match self {
            Command::Unknown => 0x00,
            Command::GetIdn => 0x01,
            Command::GetSerialNumber => 0x02,
            Command::HardwareReset => 0x03,
            Command::BlinkLed => 0x04,
            Command::GetCoreVersion => 0x05,
            Command::GetLastError => 0x06,
            Command::Sync => 0x07,
            Command::FlashRead => 0x0A,
            Command::FlashWrite => 0x0B,
            Command::FlashErase => 0x0C,
            Command::FlashGetCrc => 0x0D,
            Command::GetSpectrumVersion => 0x14,
            Command::SetFStart => 0x15,
            Command::SetFStop => 0x16,
            Command::SetFStep => 0x17,
            Command::SetFrq => 0x18,
            Command::SetRbw => 0x19,
            Command::SetDac => 0x1A,
            Command::SetGain => 0x1B,
            Command::SetIf => 0x1C,
            Command::InitParameter => 0x1E,
            Command::GetSpecNoInit => 0x1F,
            Command::GetProdVer => 0x3C,
            Command::SetProdFwInit => 0x3D,
            Command::GetTemp => 0x3E,
            Command::SetHardwareId => 0x3F,
            Command::GetHardwareId => 0x40,
            Command::GetBootCnt => 0x41,
            Command::SetFout => 0x42,
            Command::SetFxtal => 0x43,
            Command::GetFxtal => 0x44,
            Command::SweepEdc => 0x45,
            Command::GetChipTlv => 0x49,
            Command::FrameError => 0xFF,
        }
    }

    /// The command that a byte stands for; a byte that is no command's code
    /// stands for [`Command::Unknown`].
    pub open spec fn of_byte(byte: u8) -> Command {
        match byte {
            0x01 => Command::GetIdn,
            0x02 => Command::GetSerialNumber,
            0x03 => Command::HardwareReset,
            0x04 => Command::BlinkLed,
            0x05 => Command::GetCoreVersion,
            0x06 => Command::GetLastError,
            0x07 => Command::Sync,
            0x0A => Command::FlashRead,
            0x0B => Command::FlashWrite,
            0x0C => Command::FlashErase,
            0x0D => Command::FlashGetCrc,
            0x14 => Command::GetSpectrumVersion,
            0x15 => Command::SetFStart,
            0x16 => Command::SetFStop,
            0x17 => Command::SetFStep,
            0x18 => Command::SetFrq,
            0x19 => Command::SetRbw,
            0x1A => Command::SetDac,
            0x1B => Command::SetGain,
            0x1C => Command::SetIf,
            0x1E => Command::InitParameter,
            0x1F => Command::GetSpecNoInit,
            0x3C => Command::GetProdVer,
            0x3D => Command::SetProdFwInit,
            0x3E => Command::GetTemp,
            0x3F => Command::SetHardwareId,
            0x40 => Command::GetHardwareId,
            0x41 => Command::GetBootCnt,
            0x42 => Command::SetFout,
            0x43 => Command::SetFxtal,
            0x44 => Command::GetFxtal,
            0x45 => Command::SweepEdc,
            0x49 => Command::GetChipTlv,
            0xFF => Command::FrameError,
            _ => Command::Unknown,
        }
    }

    /// What the command does, in words.
    pub open spec fn spec_description(self) -> Seq<char> {
        match self {
            Command::Unknown => "Unknown"@,
            Command::GetIdn => "Get IDN"@,
            Command::GetSerialNumber => "Get Hardware Serial Number"@,
            Command::HardwareReset => "Hardware Reset (PUC)"@,
            Command::BlinkLed => "Identify hardware by blinking LED"@,
            Command::GetCoreVersion => "Get core version"@,
            Command::GetLastError => "Error"@,
            Command::Sync => "Unknown"@,
            Command::FlashRead => "Send address and size, get flash content"@,
            Command::FlashWrite => "Unknown"@,
            Command::FlashErase => "Unknown"@,
            Command::FlashGetCrc => "Unknown"@,
            Command::GetSpectrumVersion => "Get Spec version"@,
            Command::SetFStart => "Set Start Frequency `fstart`"@,
            Command::SetFStop => "Set Stop Frequency `fstop`"@,
            Command::SetFStep => "Set Step Frequency `fstep`"@,
            Command::SetFrq => "Unknown"@,
            Command::SetRbw => "Set Rx Filter Bandwidth"@,
            Command::SetDac => "Set DC value for the balun (unknown)"@,
            Command::SetGain => "Set gain of the Rx path"@,
            Command::SetIf => "Set Intermediate Frequency"@,
            Command::InitParameter => "Setup system for spectrum measurement"@,
            Command::GetSpecNoInit => "Measure spectrum with defined parameters"@,
            Command::GetProdVer => "Get prod version"@,
            Command::SetProdFwInit => "Unknown"@,
            Command::GetTemp => "Unknown"@,
            Command::SetHardwareId => "Set hardware id"@,
            Command::GetHardwareId => "Get Hardware id"@,
            Command::GetBootCnt => "Boot count"@,
            Command::SetFout => "0=Off, 1=26MHz, 2=RF Freq.  (next bytes)"@,
            Command::SetFxtal => "Set frequency, incl. temp/cal versions"@,
            Command::GetFxtal => "Get frequency, incl. temp/cal versions"@,
            Command::SweepEdc => "f, gain, repetition count"@,
            Command::GetChipTlv => "Unknown"@,
            Command::FrameError => "Frame Error"@,
        }
    }

    /// The command's name, as it is written in this enumeration.
    pub open spec fn spec_name(self) -> Seq<char> {
        match self {
            Command::Unknown => "Unknown"@,
            Command::GetIdn => "GetIdn"@,
            Command::GetSerialNumber => "GetSerialNumber"@,
            Command::HardwareReset => "HardwareReset"@,
            Command::BlinkLed => "BlinkLed"@,
            Command::GetCoreVersion => "GetCoreVersion"@,
            Command::GetLastError => "GetLastError"@,
            Command::Sync => "Sync"@,
            Command::FlashRead => "FlashRead"@,
            Command::FlashWrite => "FlashWrite"@,
            Command::FlashErase => "FlashErase"@,
            Command::FlashGetCrc => "FlashGetCrc"@,
            Command::GetSpectrumVersion => "GetSpectrumVersion"@,
            Command::SetFStart => "SetFStart"@,
            Command::SetFStop => "SetFStop"@,
            Command::SetFStep => "SetFStep"@,
            Command::SetFrq => "SetFrq"@,
            Command::SetRbw => "SetRbw"@,
            Command::SetDac => "SetDac"@,
            Command::SetGain => "SetGain"@,
            Command::SetIf => "SetIf"@,
            Command::InitParameter => "InitParameter"@,
            Command::GetSpecNoInit => "GetSpecNoInit"@,
            Command::GetProdVer => "GetProdVer"@,
            Command::SetProdFwInit => "SetProdFwInit"@,
            Command::GetTemp => "GetTemp"@,
            Command::SetHardwareId => "SetHardwareId"@,
            Command::GetHardwareId => "GetHardwareId"@,
            Command::GetBootCnt => "GetBootCnt"@,
            Command::SetFout => "SetFout"@,
            Command::SetFxtal => "SetFxtal"@,
            Command::GetFxtal => "GetFxtal"@,
            Command::SweepEdc => "SweepEdc"@,
            Command::GetChipTlv => "GetChipTlv"@,
            Command::FrameError => "FrameError"@,
        }
    }

    /// The byte that stands for this command on the wire.
    #[verifier::when_used_as_spec(spec_code)]
    pub fn code(self) -> (code: u8)
        ensures
            code == self.spec_code(),
    {
        match self {
            Command::Unknown => 0x00,
            Command::GetIdn => 0x01,
            Command::GetSerialNumber => 0x02,
            Command::HardwareReset => 0x03,
            Command::BlinkLed => 0x04,
            Command::GetCoreVersion => 0x05,
            Command::GetLastError => 0x06,
            Command::Sync => 0x07,
            Command::FlashRead => 0x0A,
            Command::FlashWrite => 0x0B,
            Command::FlashErase => 0x0C,
            Command::FlashGetCrc => 0x0D,
            Command::GetSpectrumVersion => 0x14,
            Command::SetFStart => 0x15,
            Command::SetFStop => 0x16,
            Command::SetFStep => 0x17,
            Command::SetFrq => 0x18,
            Command::SetRbw => 0x19,
            Command::SetDac => 0x1A,
            Command::SetGain => 0x1B,
            Command::SetIf => 0x1C,
            Command::InitParameter => 0x1E,
            Command::GetSpecNoInit => 0x1F,
            Command::GetProdVer => 0x3C,
            Command::SetProdFwInit => 0x3D,
            Command::GetTemp => 0x3E,
            Command::SetHardwareId => 0x3F,
            Command::GetHardwareId => 0x40,
            Command::GetBootCnt => 0x41,
            Command::SetFout => 0x42,
            Command::SetFxtal => 0x43,
            Command::GetFxtal => 0x44,
            Command::SweepEdc => 0x45,
            Command::GetChipTlv => 0x49,
            Command::FrameError => 0xFF,
        }
    }

    /// What the command does, in words.
    pub fn description(self) -> (text: &'static str)
        ensures
            text@ == self.spec_description(),
    {
        match self {
            Command::Unknown => "Unknown",
            Command::GetIdn => "Get IDN",
            Command::GetSerialNumber => "Get Hardware Serial Number",
            Command::HardwareReset => "Hardware Reset (PUC)",
            Command::BlinkLed => "Identify hardware by blinking LED",
            Command::GetCoreVersion => "Get core version",
            Command::GetLastError => "Error",
            Command::Sync => "Unknown",
            Command::FlashRead => "Send address and size, get flash content",
            Command::FlashWrite => "Unknown",
            Command::FlashErase => "Unknown",
            Command::FlashGetCrc => "Unknown",
            Command::GetSpectrumVersion => "Get Spec version",
            Command::SetFStart => "Set Start Frequency `fstart`",
            Command::SetFStop => "Set Stop Frequency `fstop`",
            Command::SetFStep => "Set Step Frequency `fstep`",
            Command::SetFrq => "Unknown",
            Command::SetRbw => "Set Rx Filter Bandwidth",
            Command::SetDac => "Set DC value for the balun (unknown)",
            Command::SetGain => "Set gain of the Rx path",
            Command::SetIf => "Set Intermediate Frequency",
            Command::InitParameter => "Setup system for spectrum measurement",
            Command::GetSpecNoInit => "Measure spectrum with defined parameters",
            Command::GetProdVer => "Get prod version",
            Command::SetProdFwInit => "Unknown",
            Command::GetTemp => "Unknown",
            Command::SetHardwareId => "Set hardware id",
            Command::GetHardwareId => "Get Hardware id",
            Command::GetBootCnt => "Boot count",
            Command::SetFout => "0=Off, 1=26MHz, 2=RF Freq.  (next bytes)",
            Command::SetFxtal => "Set frequency, incl. temp/cal versions",
            Command::GetFxtal => "Get frequency, incl. temp/cal versions",
            Command::SweepEdc => "f, gain, repetition count",
            Command::GetChipTlv => "Unknown",
            Command::FrameError => "Frame Error",
        }
    }

    /// The command's name, as it is written in this enumeration.
    pub fn name(self) -> (text: &'static str)
        ensures
            text@ == self.spec_name(),
    {
        match self {
            Command::Unknown => "Unknown",
            Command::GetIdn => "GetIdn",
            Command::GetSerialNumber => "GetSerialNumber",
            Command::HardwareReset => "HardwareReset",
            Command::BlinkLed => "BlinkLed",
            Command::GetCoreVersion => "GetCoreVersion",
            Command::GetLastError => "GetLastError",
            Command::Sync => "Sync",
            Command::FlashRead => "FlashRead",
            Command::FlashWrite => "FlashWrite",
            Command::FlashErase => "FlashErase",
            Command::FlashGetCrc => "FlashGetCrc",
            Command::GetSpectrumVersion => "GetSpectrumVersion",
            Command::SetFStart => "SetFStart",
            Command::SetFStop => "SetFStop",
            Command::SetFStep => "SetFStep",
            Command::SetFrq => "SetFrq",
            Command::SetRbw => "SetRbw",
            Command::SetDac => "SetDac",
            Command::SetGain => "SetGain",
            Command::SetIf => "SetIf",
            Command::InitParameter => "InitParameter",
            Command::GetSpecNoInit => "GetSpecNoInit",
            Command::GetProdVer => "GetProdVer",
            Command::SetProdFwInit => "SetProdFwInit",
            Command::GetTemp => "GetTemp",
            Command::SetHardwareId => "SetHardwareId",
            Command::GetHardwareId => "GetHardwareId",
            Command::GetBootCnt => "GetBootCnt",
            Command::SetFout => "SetFout",
            Command::SetFxtal => "SetFxtal",
            Command::GetFxtal => "GetFxtal",
            Command::SweepEdc => "SweepEdc",
            Command::GetChipTlv => "GetChipTlv",
            Command::FrameError => "FrameError",
        }
    }

    /// The description as an owned string.
    pub fn to_string(&self) -> (text: String)
        ensures
            text@ == self.spec_description(),
    {
        String::from_str(self.description())
    }
}

impl Default for Command {
    fn default() -> (command: Command)
        ensures
            command == Command::Unknown,
    {
        Command::Unknown
    }
}

impl From<u8> for Command {
    fn from(value: u8) -> (command: Command) {
        match value {
            0x01 => Command::GetIdn,
            0x02 => Command::GetSerialNumber,
            0x03 => Command::HardwareReset,
            0x04 => Command::BlinkLed,
            0x05 => Command::GetCoreVersion,
            0x06 => Command::GetLastError,
            0x07 => Command::Sync,
            0x0A => Command::FlashRead,
            0x0B => Command::FlashWrite,
            0x0C => Command::FlashErase,
            0x0D => Command::FlashGetCrc,
            0x14 => Command::GetSpectrumVersion,
            0x15 => Command::SetFStart,
            0x16 => Command::SetFStop,
            0x17 => Command::SetFStep,
            0x18 => Command::SetFrq,
            0x19 => Command::SetRbw,
            0x1A => Command::SetDac,
            0x1B => Command::SetGain,
            0x1C => Command::SetIf,
            0x1E => Command::InitParameter,
            0x1F => Command::GetSpecNoInit,
            0x3C => Command::GetProdVer,
            0x3D => Command::SetProdFwInit,
            0x3E => Command::GetTemp,
            0x3F => Command::SetHardwareId,
            0x40 => Command::GetHardwareId,
            0x41 => Command::GetBootCnt,
            0x42 => Command::SetFout,
            0x43 => Command::SetFxtal,
            0x44 => Command::GetFxtal,
            0x45 => Command::SweepEdc,
            0x49 => Command::GetChipTlv,
            0xFF => Command::FrameError,
            _ => Command::Unknown,
        }
    }
}

impl vstd::std_specs::convert::FromSpecImpl<u8> for Command {
    open spec fn obeys_from_spec() -> bool {
        true
    }

    open spec fn from_spec(value: u8) -> Command {
        Command::of_byte(value)
    }
}

/// Every command is found again from its code, and a byte either is the code
/// of the command it stands for or stands for [`Command::Unknown`].
pub proof fn lemma_command_code_round_trip(command: Command, byte: u8)
    ensures
        Command::of_byte(command.spec_code()) == command,
        Command::of_byte(byte).spec_code() == byte || Command::of_byte(byte) == Command::Unknown,
{
}

/// The errors that the device reports in the payload of a
/// [`Command::GetLastError`] frame, listed by ascending code.
#[derive(Debug, Clone, Copy, PartialEq, Eq, PartialOrd, Ord, Structural)]
pub enum ErrorCode {
    /// No error.
    NoError,
    /// Command buffer overflow.
    CmdBufferOverflow,
    /// Wrong command length.
    WrongCmdLength,
    /// Command aborted.
    CmdAborted,
    /// Lost command.
    LostCmd,
    /// Unknown command.
    UnknownCmd,
    /// Too much data requested by user function.
    TooMuchDataRequestedByUserFunction,
    /// Restore program counter.
    RestoreProgramCounter,
    /// Buffer position out of range.
    BufferPosOutOfRange,
    /// EEQ buffer overflow.
    EeqBufferOverflow,
    /// Wrong CRC low byte.
    WrongCrcLowByte,
    /// Wrong CRC high byte.
    WrongCrcHighByte,
    /// Restore from packet error.
    RestoreFromPacketError,
    /// No frame start.
    NoFrameStart,
    /// Wrong packet length.
    WrongPacketLength,
    /// Packet incomplete.
    PacketIncomplete,
    /// Packet error.
    PacketError,
    /// Stupid packet handler.
    StupidPacketHandler,
    /// Buffer overflow.
    BufferOverflow,
    /// Buffer underrun.
    BufferUnderrun,
    /// Flash not erased.
    FlashNotErased,
    /// Flash mismatch.
    FlashMismatch,
    /// RSSI valid flag not set.
    RssiValidFlagNotSet,
    /// PLL not settled.
    PllNotSettled,
    /// A code this driver does not know.
    Unknown,
}

impl ErrorCode {
    /// The 16-bit value that stands for this error.
    pub open spec fn spec_code(self) -> u16 {
        match self {
            ErrorCode::NoError => 0x0000,
            ErrorCode::CmdBufferOverflow => 0x0320,
            ErrorCode::WrongCmdLength => 0x0321,
            ErrorCode::CmdAborted => 0x0322,
            ErrorCode::LostCmd => 0x0323,
            ErrorCode::UnknownCmd => 0x0324,
            ErrorCode::TooMuchDataRequestedByUserFunction => 0x0325,
            ErrorCode::RestoreProgramCounter => 0x0326,
            ErrorCode::BufferPosOutOfRange => 0x0327,
            ErrorCode::EeqBufferOverflow => 0x0328,
            ErrorCode::WrongCrcLowByte => 0x0329,
            ErrorCode::WrongCrcHighByte => 0x032A,
            ErrorCode::RestoreFromPacketError => 0x032C,
            ErrorCode::NoFrameStart => 0x032D,
            ErrorCode::WrongPacketLength => 0x032E,
            ErrorCode::PacketIncomplete => 0x032F,
            ErrorCode::PacketError => 0x0330,
            ErrorCode::StupidPacketHandler => 0x0331,
            ErrorCode::BufferOverflow => 0x0352,
            ErrorCode::BufferUnderrun => 0x0353,
            ErrorCode::FlashNotErased => 0x044C,
            ErrorCode::FlashMismatch => 0x044D,
            ErrorCode::RssiValidFlagNotSet => 0x04B0,
            ErrorCode::PllNotSettled => 0x04B1,
            ErrorCode::Unknown => 0xFFFF,
        }
    }

    /// The error that a 16-bit value stands for; a value that is no error's
    /// code stands for [`ErrorCode::Unknown`].
    pub open spec fn of_code(code: u16) -> ErrorCode {
        match code {
            0x0000 => ErrorCode::NoError,
            0x0320 => ErrorCode::CmdBufferOverflow,
            0x0321 => ErrorCode::WrongCmdLength,
            0x0322 => ErrorCode::CmdAborted,
            0x0323 => ErrorCode::LostCmd,
            0x0324 => ErrorCode::UnknownCmd,
            0x0325 => ErrorCode::TooMuchDataRequestedByUserFunction,
            0x0326 => ErrorCode::RestoreProgramCounter,
            0x0327 => ErrorCode::BufferPosOutOfRange,
            0x0328 => ErrorCode::EeqBufferOverflow,
            0x0329 => ErrorCode::WrongCrcLowByte,
            0x032A => ErrorCode::WrongCrcHighByte,
            0x032C => ErrorCode::RestoreFromPacketError,
            0x032D => ErrorCode::NoFrameStart,
            0x032E => ErrorCode::WrongPacketLength,
            0x032F => ErrorCode::PacketIncomplete,
            0x0330 => ErrorCode::PacketError,
            0x0331 => ErrorCode::StupidPacketHandler,
            0x0352 => ErrorCode::BufferOverflow,
            0x0353 => ErrorCode::BufferUnderrun,
            0x044C => ErrorCode::FlashNotErased,
            0x044D => ErrorCode::FlashMismatch,
            0x04B0 => ErrorCode::RssiValidFlagNotSet,
            0x04B1 => ErrorCode::PllNotSettled,
            _ => ErrorCode::Unknown,
        }
    }

    /// The error that a payload reports: its first two bytes are the code,
    /// most significant byte first. A payload too short to hold a code
    /// reports [`ErrorCode::Unknown`].
    pub open spec fn of_payload(payload: Seq<u8>) -> ErrorCode {
        if payload.len() >= 2 {
            ErrorCode::of_code(be16(payload[0], payload[1]))
        } else {
            ErrorCode::Unknown
        }
    }

    /// The error, in words.
    pub open spec fn spec_description(self) -> Seq<char> {
        match self {
            ErrorCode::NoError => "OK"@,
            ErrorCode::CmdBufferOverflow => "Command buffer overflow"@,
            ErrorCode::WrongCmdLength => "Wrong command length"@,
            ErrorCode::CmdAborted => "Command aborted"@,
            ErrorCode::LostCmd => "Lost command"@,
            ErrorCode::UnknownCmd => "Unknown command"@,
            ErrorCode::TooMuchDataRequestedByUserFunction =>
                "Too much data requested by user function"@,
            ErrorCode::RestoreProgramCounter => "Restore program counter"@,
            ErrorCode::BufferPosOutOfRange => "Buffer position out of range"@,
            ErrorCode::EeqBufferOverflow => "EEQ buffer overflow"@,
            ErrorCode::WrongCrcLowByte => "Wrong CRC low byte"@,
            ErrorCode::WrongCrcHighByte => "Wrong CRC high byte"@,
            ErrorCode::RestoreFromPacketError => "Restore from packet error"@,
            ErrorCode::NoFrameStart => "No frame start"@,
            ErrorCode::WrongPacketLength => "Wrong packet length"@,
            ErrorCode::PacketIncomplete => "Packet incomplete"@,
            ErrorCode::PacketError => "Packet error"@,
            ErrorCode::StupidPacketHandler => "Stupid packet handler"@,
            ErrorCode::BufferOverflow => "Buffer overflow"@,
            ErrorCode::BufferUnderrun => "Buffer underrun"@,
            ErrorCode::FlashNotErased => "Flash not erased"@,
            ErrorCode::FlashMismatch => "Flash mismatch"@,
            ErrorCode::RssiValidFlagNotSet => "RSSI valid flag not set"@,
            ErrorCode::PllNotSettled => "PLL not settled"@,
            ErrorCode::Unknown => "Unknown error"@,
        }
    }

    /// The 16-bit value that stands for this error.
    #[verifier::when_used_as_spec(spec_code)]
    pub fn code(self) -> (code: u16)
        ensures
            code == self.spec_code(),
    {
        match self {
            ErrorCode::NoError => 0x0000,
            ErrorCode::CmdBufferOverflow => 0x0320,
            ErrorCode::WrongCmdLength => 0x0321,
            ErrorCode::CmdAborted => 0x0322,
            ErrorCode::LostCmd => 0x0323,
            ErrorCode::UnknownCmd => 0x0324,
            ErrorCode::TooMuchDataRequestedByUserFunction => 0x0325,
            ErrorCode::RestoreProgramCounter => 0x0326,
            ErrorCode::BufferPosOutOfRange => 0x0327,
            ErrorCode::EeqBufferOverflow => 0x0328,
            ErrorCode::WrongCrcLowByte => 0x0329,
            ErrorCode::WrongCrcHighByte => 0x032A,
            ErrorCode::RestoreFromPacketError => 0x032C,
            ErrorCode::NoFrameStart => 0x032D,
            ErrorCode::WrongPacketLength => 0x032E,
            ErrorCode::PacketIncomplete => 0x032F,
            ErrorCode::PacketError => 0x0330,
            ErrorCode::StupidPacketHandler => 0x0331,
            ErrorCode::BufferOverflow => 0x0352,
            ErrorCode::BufferUnderrun => 0x0353,
            ErrorCode::FlashNotErased => 0x044C,
            ErrorCode::FlashMismatch => 0x044D,
            ErrorCode::RssiValidFlagNotSet => 0x04B0,
            ErrorCode::PllNotSettled => 0x04B1,
            ErrorCode::Unknown => 0xFFFF,
        }
    }

    /// The error that a 16-bit value stands for.
    pub fn from_code(code: u16) -> (error: ErrorCode)
        ensures
            error == ErrorCode::of_code(code),
    {
        match code {
            0x0000 => ErrorCode::NoError,
            0x0320 => ErrorCode::CmdBufferOverflow,
            0x0321 => ErrorCode::WrongCmdLength,
            0x0322 => ErrorCode::CmdAborted,
            0x0323 => ErrorCode::LostCmd,
            0x0324 => ErrorCode::UnknownCmd,
            0x0325 => ErrorCode::TooMuchDataRequestedByUserFunction,
            0x0326 => ErrorCode::RestoreProgramCounter,
            0x0327 => ErrorCode::BufferPosOutOfRange,
            0x0328 => ErrorCode::EeqBufferOverflow,
            0x0329 => ErrorCode::WrongCrcLowByte,
            0x032A => ErrorCode::WrongCrcHighByte,
            0x032C => ErrorCode::RestoreFromPacketError,
            0x032D => ErrorCode::NoFrameStart,
            0x032E => ErrorCode::WrongPacketLength,
            0x032F => ErrorCode::PacketIncomplete,
            0x0330 => ErrorCode::PacketError,
            0x0331 => ErrorCode::StupidPacketHandler,
            0x0352 => ErrorCode::BufferOverflow,
            0x0353 => ErrorCode::BufferUnderrun,
            0x044C => ErrorCode::FlashNotErased,
            0x044D => ErrorCode::FlashMismatch,
            0x04B0 => ErrorCode::RssiValidFlagNotSet,
            0x04B1 => ErrorCode::PllNotSettled,
            _ => ErrorCode::Unknown,
        }
    }

    /// The error that a payload reports.
    pub fn from_payload(payload: &[u8]) -> (error: ErrorCode)
        ensures
            error == ErrorCode::of_payload(payload@),
    {
        if payload.len() >= 2 {
            ErrorCode::from_code(u16_from_be(payload[0], payload[1]))
        } else {
            ErrorCode::Unknown
        }
    }

    /// The error, in words.
    pub fn description(self) -> (text: &'static str)
        ensures
            text@ == self.spec_description(),
    {
        match self {
            ErrorCode::NoError => "OK",
            ErrorCode::CmdBufferOverflow => "Command buffer overflow",
            ErrorCode::WrongCmdLength => "Wrong command length",
            ErrorCode::CmdAborted => "Command aborted",
            ErrorCode::LostCmd => "Lost command",
            ErrorCode::UnknownCmd => "Unknown command",
            ErrorCode::TooMuchDataRequestedByUserFunction =>
                "Too much data requested by user function",
            ErrorCode::RestoreProgramCounter => "Restore program counter",
            ErrorCode::BufferPosOutOfRange => "Buffer position out of range",
            ErrorCode::EeqBufferOverflow => "EEQ buffer overflow",
            ErrorCode::WrongCrcLowByte => "Wrong CRC low byte",
            ErrorCode::WrongCrcHighByte => "Wrong CRC high byte",
            ErrorCode::RestoreFromPacketError => "Restore from packet error",
            ErrorCode::NoFrameStart => "No frame start",
            ErrorCode::WrongPacketLength => "Wrong packet length",
            ErrorCode::PacketIncomplete => "Packet incomplete",
            ErrorCode::PacketError => "Packet error",
            ErrorCode::StupidPacketHandler => "Stupid packet handler",
            ErrorCode::BufferOverflow => "Buffer overflow",
            ErrorCode::BufferUnderrun => "Buffer underrun",
            ErrorCode::FlashNotErased => "Flash not erased",
            ErrorCode::FlashMismatch => "Flash mismatch",
            ErrorCode::RssiValidFlagNotSet => "RSSI valid flag not set",
            ErrorCode::PllNotSettled => "PLL not settled",
            ErrorCode::Unknown => "Unknown error",
        }
    }

    /// The description as an owned string.
    pub fn to_string(&self) -> (text: String)
        ensures
            text@ == self.spec_description(),
    {
        String::from_str(self.description())
    }

    /// The code as four upper-case hexadecimal digits.
    pub fn to_hex(&self) -> (text: String)
        ensures
            text@ == hex4(self.spec_code()),
    {
        let mut text = String::new();
        push_hex4(&mut text, self.code());
        assert(text@ =~= hex4(self.spec_code()));
        text
    }
}

impl Default for ErrorCode {
    fn default() -> (error: ErrorCode)
        ensures
            error == ErrorCode::Unknown,
    {
        ErrorCode::Unknown
    }
}

impl From<Vec<u8>> for ErrorCode {
    fn from(value: Vec<u8>) -> (error: ErrorCode) {
        ErrorCode::from_payload(value.as_slice())
    }
}

impl vstd::std_specs::convert::FromSpecImpl<Vec<u8>> for ErrorCode {
    open spec fn obeys_from_spec() -> bool {
        true
    }

    open spec fn from_spec(value: Vec<u8>) -> ErrorCode {
        ErrorCode::of_payload(value@)
    }
}

/// Every error is found again from its code, and a value either is the code
/// of the error it stands for or stands for [`ErrorCode::Unknown`].
pub proof fn lemma_error_code_round_trip(error: ErrorCode, code: u16)
    ensures
        ErrorCode::of_code(error.spec_code()) == error,
        ErrorCode::of_code(code).spec_code() == code || ErrorCode::of_code(code)
            == ErrorCode::Unknown,
{
}

/// Why a byte sequence is not a frame.
#[derive(Debug, Clone, Copy, PartialEq, Eq, PartialOrd, Ord, Structural)]
pub enum FrameError {
    /// The first byte is not the magic value; holds the byte found.
    InvalidMagicValue(u8),
    /// The length byte disagrees with the number of bytes between header and
    /// checksum; holds the length declared, then the length found.
    InvalidFrameLength(u8, u8),
    /// The checksum field disagrees with the checksum of the bytes before
    /// it; holds the field, then the checksum computed.
    InvalidCrc(u16, u16),
}

impl FrameError {
    /// The error, in words.
    pub open spec fn spec_message(self) -> Seq<char> {
        match self {
            FrameError::InvalidMagicValue(current) => "Invalid magic value, expected 0x"@ + hex2(
                FRAME_MAGIC_VALUE,
            ) + ", current: 0x"@ + hex2(current),
            FrameError::InvalidFrameLength(expected, current) =>
                "Invalid frame length, expected 0x"@ + hex2(expected) + ", current: 0x"@ + hex2(
                    current,
                ),
            FrameError::InvalidCrc(expected, current) => "Invalid CRC, expected: 0x"@ + hex4(
                expected,
            ) + ", current: 0x"@ + hex4(current),
        }
    }

    /// The error, in words.
    pub fn to_string(&self) -> (text: String)
        ensures
            text@ == self.spec_message(),
    {
        match *self {
            FrameError::InvalidMagicValue(current) => {
                let mut text = String::from_str("Invalid magic value, expected 0x");
                push_hex2(&mut text, FRAME_MAGIC_VALUE);
                text.append(", current: 0x");
                push_hex2(&mut text, current);
                text
            },
            FrameError::InvalidFrameLength(expected, current) => {
                let mut text = String::from_str("Invalid frame length, expected 0x");
                push_hex2(&mut text, expected);
                text.append(", current: 0x");
                push_hex2(&mut text, current);
                text
            },
            FrameError::InvalidCrc(expected, current) => {
                let mut text = String::from_str("Invalid CRC, expected: 0x");
                push_hex4(&mut text, expected);
                text.append(", current: 0x");
                push_hex4(&mut text, current);
                text
            },
        }
    }
}

/// What a frame holds: a command and a payload of at most 255 bytes.
pub struct FrameView {
    /// The operation the frame asks for or answers.
    pub command: Command,
    /// The bytes that go with it.
    pub payload: Seq<u8>,
}

/// The bytes that stand for a command and a payload on the wire: the header,
/// the payload, and the checksum of both.
pub open spec fn encode(command: Command, payload: Seq<u8>) -> Seq<u8>
    recommends
        payload.len() <= FRAME_MAX_DATA_SIZE,
{
    let body = seq![FRAME_MAGIC_VALUE, payload.len() as u8, command.spec_code()] + payload;
    body + be16_bytes(checksum(body))
}

/// Whether `bytes` can be read as a frame or refused as one: they hold at
/// least a header and a checksum, or they begin with a byte that is not the
/// magic byte.
pub open spec fn is_candidate(bytes: Seq<u8>) -> bool {
    bytes.len() >= FRAME_HEADER_SIZE + FRAME_CRC_SIZE || (bytes.len() >= 1 && bytes[0]
        != FRAME_MAGIC_VALUE)
}

/// The first reason, if any, why `bytes` is not a frame: a wrong magic byte,
/// then a wrong length, then a wrong checksum.
pub open spec fn fault(bytes: Seq<u8>) -> Option<FrameError>
    recommends
        is_candidate(bytes),
{
    if bytes[0] != FRAME_MAGIC_VALUE {
        Some(FrameError::InvalidMagicValue(bytes[0]))
    } else if bytes.len() - 5 != bytes[1] {
        Some(FrameError::InvalidFrameLength(bytes[1], ((bytes.len() - 5) % 0x100) as u8))
    } else {
        let field = be16(bytes[bytes.len() - 2], bytes[bytes.len() - 1]);
        let computed = checksum(bytes.take(bytes.len() - 2));
        if field != computed {
            Some(FrameError::InvalidCrc(field, computed))
        } else {
            None
        }
    }
}

/// What `bytes` holds when read as a frame, whether they are one or not: the
/// command that the third byte stands for and the bytes between header and
/// checksum.
pub open spec fn content(bytes: Seq<u8>) -> FrameView
    recommends
        bytes.len() >= FRAME_HEADER_SIZE + FRAME_CRC_SIZE,
{
    FrameView { command: Command::of_byte(bytes[2]), payload: bytes.subrange(3, bytes.len() - 2) }
}

/// The frame that `bytes` stand for, or the first reason why they stand for
/// none.
pub open spec fn decode(bytes: Seq<u8>) -> Result<FrameView, FrameError>
    recommends
        is_candidate(bytes),
{
    match fault(bytes) {
        Some(error) => Err(error),
        None => Ok(content(bytes)),
    }
}

/// A frame of the protocol.
#[derive(Debug, PartialEq, Eq, PartialOrd, Ord)]
pub struct Frame {
    cmd: Command,
    data: Vec<u8>,
}

impl View for Frame {
    type V = FrameView;

    closed spec fn view(&self) -> FrameView {
        FrameView { command: self.cmd, payload: self.data@ }
    }
}

impl Default for Frame {
    fn default() -> (frame: Frame)
        ensures
            frame@.command == Command::Unknown,
            frame@.payload == Seq::<u8>::empty(),
    {
        Frame { cmd: Command::Unknown, data: Vec::new() }
    }
}

impl Clone for Frame {
    fn clone(&self) -> (copy: Frame)
        ensures
            copy@ == self@,
    {
        proof {
            use_type_invariant(self);
        }
        Frame { cmd: self.cmd, data: vstd::slice::slice_to_vec(self.data.as_slice()) }
    }
}

impl Frame {
    /// The payload fits the one-byte length field.
    #[verifier::type_invariant]
    closed spec fn well_formed(self) -> bool {
        self.data@.len() <= FRAME_MAX_DATA_SIZE
    }

    /// A frame without payload.
    pub fn new(cmd: Command) -> (frame: Frame)
        ensures
            frame@.command == cmd,
            frame@.payload == Seq::<u8>::empty(),
    {
        Frame { cmd, data: Vec::new() }
    }

    /// A frame with a payload, which must fit the one-byte length field.
    pub fn with_data(cmd: Command, data: Vec<u8>) -> (frame: Frame)
        requires
            data@.len() <= FRAME_MAX_DATA_SIZE,
        ensures
            frame@.command == cmd,
            frame@.payload == data@,
    {
        Frame { cmd, data }
    }

    /// The frame's command.
    pub fn cmd(&self) -> (cmd: Command)
        ensures
            cmd == self@.command,
    {
        self.cmd
    }

    /// The frame's payload.
    pub fn data(&self) -> (data: &[u8])
        ensures
            data@ == self@.payload,
            data@.len() <= FRAME_MAX_DATA_SIZE,
    {
        proof {
            use_type_invariant(self);
        }
        self.data.as_slice()
    }

    /// Gives up the frame for its payload.
    pub fn into_data(self) -> (data: Vec<u8>)
        ensures
            data@ == self@.payload,
            data@.len() <= FRAME_MAX_DATA_SIZE,
    {
        proof {
            use_type_invariant(&self);
        }
        self.data
    }

    /// Whether the frame reports an error of the device.
    pub fn is_error(&self) -> (error: bool)
        ensures
            error == (self@.command == Command::GetLastError),
    {
        self.cmd == Command::GetLastError
    }

    /// Reads a frame from the bytes of a candidate.
    pub fn from_bytes(bytes: &[u8]) -> (result: Result<Frame, FrameError>)
        requires
            is_candidate(bytes@),
        ensures
            match result {
                Ok(frame) => decode(bytes@) == Ok::<FrameView, FrameError>(frame@),
                Err(error) => decode(bytes@) == Err::<FrameView, FrameError>(error),
            },
    {
        Frame::validate(bytes)?;
        Frame::parse(bytes)
    }

    /// The frame's bytes on the wire.
    pub fn to_bytes(&self) -> (bytes: Vec<u8>)
        ensures
            bytes@ == encode(self@.command, self@.payload),
            bytes@.len() == self@.payload.len() + 5,
    {
        proof {
            use_type_invariant(self);
        }
        let mut bytes: Vec<u8> = Vec::new();
        bytes.push(FRAME_MAGIC_VALUE);
        bytes.push(self.data.len() as u8);
        bytes.push(self.cmd.code());
        append(&mut bytes, self.data.as_slice());
        let ghost body = bytes@;
        proof {
            assert(body =~= seq![FRAME_MAGIC_VALUE, self.data@.len() as u8, self.cmd.spec_code()]
                + self.data@);
        }
        let crc: u16 = crc16(bytes.as_slice());
        let (high, low) = u16_to_be(crc);
        bytes.push(high);
        bytes.push(low);
        proof {
            assert(bytes@ =~= encode(self@.command, self@.payload));
        }
        bytes
    }

    /// The error that the frame reports, if it reports one.
    pub fn to_error_code(&self) -> (code: Option<ErrorCode>)
        ensures
            code == if self@.command == Command::GetLastError {
                Some(ErrorCode::of_payload(self@.payload))
            } else {
                None
            },
    {
        match self.cmd {
            Command::GetLastError => Some(ErrorCode::from_payload(self.data.as_slice())),
            _ => None,
        }
    }

    /// Checks magic byte, length and checksum, in this order.
    fn validate(bytes: &[u8]) -> (result: Result<(), FrameError>)
        requires
            is_candidate(bytes@),
        ensures
            match result {
                Ok(_) => fault(bytes@) is None,
                Err(error) => fault(bytes@) == Some(error),
            },
    {
        if bytes[FRAME_MAGIC_INDEX] != FRAME_MAGIC_VALUE {
            return Err(FrameError::InvalidMagicValue(bytes[FRAME_MAGIC_INDEX]));
        }
        let length: usize = bytes.len() - 5;
        if length != bytes[FRAME_DATA_LENGTH_INDEX] as usize {
            return Err(
                FrameError::InvalidFrameLength(
                    bytes[FRAME_DATA_LENGTH_INDEX],
                    (length % 0x100) as u8,
                ),
            );
        }
        let frame_crc: u16 = u16_from_be(bytes[bytes.len() - 2], bytes[bytes.len() - 1]);
        let covered = vstd::slice::slice_subrange(bytes, 0, bytes.len() - 2);
        let computed_crc: u16 = crc16(covered);
        if frame_crc != computed_crc {
            return Err(FrameError::InvalidCrc(frame_crc, computed_crc));
        }
        Ok(())
    }

    /// Takes command and payload out of bytes that passed validation.
    fn parse(bytes: &[u8]) -> (result: Result<Frame, FrameError>)
        requires
            is_candidate(bytes@),
            fault(bytes@) is None,
        ensures
            result matches Ok(frame) && frame@ == content(bytes@),
    {
        let cmd = Command::from(bytes[FRAME_COMMAND_INDEX]);
        let data = vstd::slice::slice_to_vec(
            vstd::slice::slice_subrange(bytes, FRAME_DATA_INDEX, bytes.len() - FRAME_CRC_SIZE),
        );
        Ok(Frame { cmd, data })
    }
}

/// Decoding the bytes of a command and a payload that fits gives the command
/// and the payload back.
pub proof fn lemma_decode_encode(command: Command, payload: Seq<u8>)
    requires
        payload.len() <= FRAME_MAX_DATA_SIZE,
    ensures
        decode(encode(command, payload)) == Ok::<FrameView, FrameError>(
            FrameView { command, payload },
        ),
{
    let body = seq![FRAME_MAGIC_VALUE, payload.len() as u8, command.spec_code()] + payload;
    let bytes = encode(command, payload);
    assert(bytes.take(bytes.len() - 2) =~= body);
    assert(bytes.subrange(3, bytes.len() - 2) =~= payload);
    lemma_command_code_round_trip(command, 0);
}

/// Bytes that decode to a frame are the encoding of that frame and of no
/// other: decoding loses nothing but the spelling of an unknown command.
pub proof fn lemma_encode_decode(bytes: Seq<u8>)
    requires
        bytes.len() >= FRAME_HEADER_SIZE + FRAME_CRC_SIZE,
        decode(bytes) is Ok,
        Command::of_byte(bytes[2]).spec_code() == bytes[2],
    ensures
        encode(decode(bytes)->Ok_0.command, decode(bytes)->Ok_0.payload) == bytes,
{
    let view = decode(bytes)->Ok_0;
    let body = seq![FRAME_MAGIC_VALUE, view.payload.len() as u8, view.command.spec_code()]
        + view.payload;
    assert(body =~= bytes.take(bytes.len() - 2));
    assert(encode(view.command, view.payload) =~= bytes);
}

/// A frame whose magic byte was replaced by another is refused for its magic
/// value.
pub proof fn lemma_tamper_magic(command: Command, payload: Seq<u8>, byte: u8)
    requires
        payload.len() <= FRAME_MAX_DATA_SIZE,
        byte != FRAME_MAGIC_VALUE,
    ensures
        decode(encode(command, payload).update(0, byte)) == Err::<FrameView, FrameError>(
            FrameError::InvalidMagicValue(byte),
        ),
{
}

/// A frame whose length byte was replaced by another is refused for its
/// length.
pub proof fn lemma_tamper_length(command: Command, payload: Seq<u8>, byte: u8)
    requires
        payload.len() <= FRAME_MAX_DATA_SIZE,
        byte != payload.len(),
    ensures
        decode(encode(command, payload).update(1, byte)) == Err::<FrameView, FrameError>(
            FrameError::InvalidFrameLength(byte, payload.len() as u8),
        ),
{
}

/// A frame in which the command byte, a payload byte or a checksum byte was
/// replaced by another is refused for its checksum.
pub proof fn lemma_tamper_body(command: Command, payload: Seq<u8>, index: int, byte: u8)
    requires
        payload.len() <= FRAME_MAX_DATA_SIZE,
        2 <= index < payload.len() + 5,
        byte != encode(command, payload)[index],
    ensures
        decode(encode(command, payload).update(index, byte)) matches Err(
            FrameError::InvalidCrc(field, computed),
        ) && field != computed,
{
    let body = seq![FRAME_MAGIC_VALUE, payload.len() as u8, command.spec_code()] + payload;
    let bytes = encode(command, payload);
    let changed = bytes.update(index, byte);
    let size = bytes.len();
    assert(bytes.take(size - 2) =~= body);
    if index < size - 2 {
        assert(changed.take(size - 2) =~= body.update(index, byte));
        lemma_checksum_tamper(body, index, byte);
    } else {
        assert(changed.take(size - 2) =~= body);
    }
}

} // verus!
