//! Decoding of SCSI command blocks into commands.
use vstd::prelude::*;

use crate::block_device::BlockDeviceError;
use crate::wire::{be_u16, be_u32, read_be_u16, read_be_u32};

verus! {

pub const TEST_UNIT_READY: u8 = 0x00;
pub const REQUEST_SENSE: u8 = 0x03;
pub const FORMAT_UNIT: u8 = 0x04;
pub const READ_6: u8 = 0x08;
pub const WRITE_6: u8 = 0x0A;
pub const INQUIRY: u8 = 0x12;
pub const MODE_SELECT_6: u8 = 0x15;
pub const MODE_SENSE_6: u8 = 0x1A;
pub const START_STOP_UNIT: u8 = 0x1B;
pub const SEND_DIAGNOSTIC: u8 = 0x1D;
pub const PREVENT_ALLOW_MEDIUM_REMOVAL: u8 = 0x1E;
pub const READ_FORMAT_CAPACITIES: u8 = 0x23;
pub const READ_CAPACITY_10: u8 = 0x25;
pub const READ_10: u8 = 0x28;
pub const WRITE_10: u8 = 0x2A;
pub const VERIFY_10: u8 = 0x2F;
pub const SYNCHRONIZE_CACHE_10: u8 = 0x35;
pub const MODE_SELECT_10: u8 = 0x55;
pub const MODE_SENSE_10: u8 = 0x5A;
pub const READ_16: u8 = 0x88;
pub const WRITE_16: u8 = 0x8A;
pub const READ_CAPACITY_16: u8 = 0x9E;
pub const REPORT_LUNS: u8 = 0xA0;
pub const READ_12: u8 = 0xA8;
pub const WRITE_12: u8 = 0xAA;

/// Which values a MODE SENSE asks for.
#[derive(Debug, Copy, Clone, PartialEq, Eq, Structural)]
pub enum PageControl {
    CurrentValues,
    ChangeableValues,
    DefaultValues,
    SavedValues,
}

/// Which wire form a command came in.
#[derive(Debug, Copy, Clone, PartialEq, Eq, Structural)]
pub enum CommandLength {
    C6,
    C10,
}

/// A decoded SCSI command, the same whichever CDB length carried it.
#[allow(inconsistent_fields)]
#[derive(Debug, Copy, Clone, PartialEq, Eq, Structural)]
pub enum ScsiCommand {
    Unknown,
    Inquiry { evpd: bool, page_code: u8, alloc_len: u16 },
    TestUnitReady,
    RequestSense { desc: bool, alloc_len: u8 },
    ModeSense {
        length: CommandLength,
        page_control: PageControl,
        page_code: u8,
        subpage_code: u8,
        alloc_len: u16,
    },
    ReadCapacity10,
    ReadCapacity16 { alloc_len: u32 },
    Read { lba: u32, transfer_length: u32 },
    Write { lba: u32, transfer_length: u32 },
    ReadFormatCapacities { alloc_len: u16 },
    PreventAllowMediumRemoval,
    Format,
    SendDiagnostic,
    ReportLuns,
    ModeSelect,
    StartStopUnit,
    Verify,
    SynchronizeCache,
}

/// Why a command failed.
#[derive(Debug, Copy, Clone, PartialEq, Eq, Structural)]
pub enum Error {
    UnhandledOpCode,
    /// The op code needs more bytes than the command block holds.
    InsufficientDataForCommand,
    BlockDeviceError(BlockDeviceError),
}

/// The page control that the two high bits of a byte select.
pub open spec fn page_control_of(b: u8) -> PageControl {
    let v = b >> 6u8;
    if v == 0 {
        PageControl::CurrentValues
    } else if v == 1 {
        PageControl::ChangeableValues
    } else if v == 2 {
        PageControl::DefaultValues
    } else {
        PageControl::SavedValues
    }
}

fn page_control_from(b: u8) -> (r: PageControl)
    ensures
        r == page_control_of(b),
{
    let v = b >> 6u8;
    if v == 0 {
        PageControl::CurrentValues
    } else if v == 1 {
        PageControl::ChangeableValues
    } else if v == 2 {
        PageControl::DefaultValues
    } else {
        PageControl::SavedValues
    }
}

/// The number of bytes a command block with op code `op` must hold; 0 for op codes outside
/// the table.
pub open spec fn required_len(op: u8) -> nat {
    if op == TEST_UNIT_READY || op == REQUEST_SENSE || op == FORMAT_UNIT || op == READ_6
        || op == WRITE_6 || op == INQUIRY || op == MODE_SELECT_6 || op == MODE_SENSE_6
        || op == START_STOP_UNIT || op == SEND_DIAGNOSTIC || op == PREVENT_ALLOW_MEDIUM_REMOVAL {
        6
    } else if op == READ_FORMAT_CAPACITIES || op == READ_CAPACITY_10 || op == READ_10 || op
        == WRITE_10 || op == VERIFY_10 || op == SYNCHRONIZE_CACHE_10 || op == MODE_SELECT_10 || op
        == MODE_SENSE_10 {
        10
    } else if op == REPORT_LUNS || op == READ_12 || op == WRITE_12 {
        12
    } else if op == READ_CAPACITY_16 || op == READ_16 || op == WRITE_16 {
        16
    } else {
        0
    }
}

/// The command that a long enough command block with a known op code holds.
pub open spec fn command_of(cb: Seq<u8>) -> ScsiCommand {
    let op = cb[0];
    if op == TEST_UNIT_READY {
        ScsiCommand::TestUnitReady
    } else if op == REQUEST_SENSE {
        ScsiCommand::RequestSense { desc: cb[1] & 1 != 0, alloc_len: cb[4] }
    } else if op == FORMAT_UNIT {
        ScsiCommand::Format
    } else if op == READ_6 {
        ScsiCommand::Read { lba: be_u32(0, cb[1] & 0x1f, cb[2], cb[3]), transfer_length: cb[4] as u32 }
    } else if op == WRITE_6 {
        ScsiCommand::Write { lba: be_u32(0, cb[1] & 0x1f, cb[2], cb[3]), transfer_length: cb[4] as u32 }
    } else if op == INQUIRY {
        ScsiCommand::Inquiry { evpd: cb[1] & 1 != 0, page_code: cb[2], alloc_len: be_u16(cb[3], cb[4]) }
    } else if op == MODE_SELECT_6 || op == MODE_SELECT_10 {
        ScsiCommand::ModeSelect
    } else if op == MODE_SENSE_6 {
        ScsiCommand::ModeSense {
            length: CommandLength::C6,
            page_control: page_control_of(cb[2]),
            page_code: cb[2] & 0x3f,
            subpage_code: cb[3],
            alloc_len: cb[4] as u16,
        }
    } else if op == START_STOP_UNIT {
        ScsiCommand::StartStopUnit
    } else if op == SEND_DIAGNOSTIC {
        ScsiCommand::SendDiagnostic
    } else if op == PREVENT_ALLOW_MEDIUM_REMOVAL {
        ScsiCommand::PreventAllowMediumRemoval
    } else if op == READ_FORMAT_CAPACITIES {
        ScsiCommand::ReadFormatCapacities { alloc_len: be_u16(cb[7], cb[8]) }
    } else if op == READ_CAPACITY_10 {
        ScsiCommand::ReadCapacity10
    } else if op == READ_10 {
        ScsiCommand::Read { lba: be_u32(cb[2], cb[3], cb[4], cb[5]), transfer_length: be_u16(cb[7], cb[8]) as u32 }
    } else if op == WRITE_10 {
        ScsiCommand::Write { lba: be_u32(cb[2], cb[3], cb[4], cb[5]), transfer_length: be_u16(cb[7], cb[8]) as u32 }
    } else if op == VERIFY_10 {
        ScsiCommand::Verify
    } else if op == SYNCHRONIZE_CACHE_10 {
        ScsiCommand::SynchronizeCache
    } else if op == MODE_SENSE_10 {
        ScsiCommand::ModeSense {
            length: CommandLength::C10,
            page_control: page_control_of(cb[2]),
            page_code: cb[2] & 0x3f,
            subpage_code: cb[3],
            alloc_len: be_u16(cb[7], cb[8]),
        }
    } else if op == READ_CAPACITY_16 {
        ScsiCommand::ReadCapacity16 { alloc_len: be_u32(cb[10], cb[11], cb[12], cb[13]) }
    } else if op == READ_16 {
        ScsiCommand::Read { lba: be_u32(cb[6], cb[7], cb[8], cb[9]), transfer_length: be_u32(cb[10], cb[11], cb[12], cb[13]) }
    } else if op == WRITE_16 {
        ScsiCommand::Write { lba: be_u32(cb[6], cb[7], cb[8], cb[9]), transfer_length: be_u32(cb[10], cb[11], cb[12], cb[13]) }
    } else if op == REPORT_LUNS {
        ScsiCommand::ReportLuns
    } else if op == READ_12 {
        ScsiCommand::Read { lba: be_u32(cb[2], cb[3], cb[4], cb[5]), transfer_length: be_u32(cb[6], cb[7], cb[8], cb[9]) }
    } else {
        ScsiCommand::Write { lba: be_u32(cb[2], cb[3], cb[4], cb[5]), transfer_length: be_u32(cb[6], cb[7], cb[8], cb[9]) }
    }
}

/// A READ (16) or WRITE (16) whose 64-bit LBA does not fit in 32 bits.
pub open spec fn lba_beyond_u32(cb: Seq<u8>) -> bool {
    (cb[0] == READ_16 || cb[0] == WRITE_16) && !(cb[2] == 0 && cb[3] == 0 && cb[4] == 0 && cb[5]
        == 0)
}

/// What a command block decodes to: `Unknown` for an op code outside the table, an error for
/// an empty block or one too short for its op code, an invalid address for a 16-byte READ or
/// WRITE whose LBA does not fit in 32 bits, else the command it holds.
pub open spec fn decode_spec(cb: Seq<u8>) -> Result<ScsiCommand, Error> {
    if cb.len() == 0 {
        Err(Error::InsufficientDataForCommand)
    } else if required_len(cb[0]) == 0 {
        Ok(ScsiCommand::Unknown)
    } else if cb.len() < required_len(cb[0]) {
        Err(Error::InsufficientDataForCommand)
    } else if lba_beyond_u32(cb) {
        Err(Error::BlockDeviceError(BlockDeviceError::InvalidAddress))
    } else {
        Ok(command_of(cb))
    }
}

fn required_len_of(op: u8) -> (r: usize)
    ensures
        r == required_len(op),
{
    if op == TEST_UNIT_READY || op == REQUEST_SENSE || op == FORMAT_UNIT || op == READ_6
        || op == WRITE_6 || op == INQUIRY || op == MODE_SELECT_6 || op == MODE_SENSE_6
        || op == START_STOP_UNIT || op == SEND_DIAGNOSTIC || op == PREVENT_ALLOW_MEDIUM_REMOVAL {
        6
    } else if op == READ_FORMAT_CAPACITIES || op == READ_CAPACITY_10 || op == READ_10 || op
        == WRITE_10 || op == VERIFY_10 || op == SYNCHRONIZE_CACHE_10 || op == MODE_SELECT_10 || op
        == MODE_SENSE_10 {
        10
    } else if op == REPORT_LUNS || op == READ_12 || op == WRITE_12 {
        12
    } else if op == READ_CAPACITY_16 || op == READ_16 || op == WRITE_16 {
        16
    } else {
        0
    }
}

/// Decodes a command block.
pub fn parse_cb(cb: &[u8]) -> (r: Result<ScsiCommand, Error>)
    ensures
        r == decode_spec(cb@),
{
    if cb.len() == 0 {
        return Err(Error::InsufficientDataForCommand);
    }
    let op = cb[0];
    let need = required_len_of(op);
    if need == 0 {
        return Ok(ScsiCommand::Unknown);
    }
    if cb.len() < need {
        return Err(Error::InsufficientDataForCommand);
    }
    if (op == READ_16 || op == WRITE_16) && !(cb[2] == 0 && cb[3] == 0 && cb[4] == 0 && cb[5] == 0) {
        return Err(Error::BlockDeviceError(BlockDeviceError::InvalidAddress));
    }
    let c = if op == TEST_UNIT_READY {
        ScsiCommand::TestUnitReady
    } else if op == REQUEST_SENSE {
        ScsiCommand::RequestSense { desc: cb[1] & 1 != 0, alloc_len: cb[4] }
    } else if op == FORMAT_UNIT {
        ScsiCommand::Format
    } else if op == READ_6 {
        ScsiCommand::Read { lba: read_be_u32(0, cb[1] & 0x1f, cb[2], cb[3]), transfer_length: cb[4] as u32 }
    } else if op == WRITE_6 {
        ScsiCommand::Write { lba: read_be_u32(0, cb[1] & 0x1f, cb[2], cb[3]), transfer_length: cb[4] as u32 }
    } else if op == INQUIRY {
        ScsiCommand::Inquiry { evpd: cb[1] & 1 != 0, page_code: cb[2], alloc_len: read_be_u16(cb[3], cb[4]) }
    } else if op == MODE_SELECT_6 || op == MODE_SELECT_10 {
        ScsiCommand::ModeSelect
    } else if op == MODE_SENSE_6 {
        ScsiCommand::ModeSense {
            length: CommandLength::C6,
            page_control: page_control_from(cb[2]),
            page_code: cb[2] & 0x3f,
            subpage_code: cb[3],
            alloc_len: cb[4] as u16,
        }
    } else if op == START_STOP_UNIT {
        ScsiCommand::StartStopUnit
    } else if op == SEND_DIAGNOSTIC {
        ScsiCommand::SendDiagnostic
    } else if op == PREVENT_ALLOW_MEDIUM_REMOVAL {
        ScsiCommand::PreventAllowMediumRemoval
    } else if op == READ_FORMAT_CAPACITIES {
        ScsiCommand::ReadFormatCapacities { alloc_len: read_be_u16(cb[7], cb[8]) }
    } else if op == READ_CAPACITY_10 {
        ScsiCommand::ReadCapacity10
    } else if op == READ_10 {
        ScsiCommand::Read { lba: read_be_u32(cb[2], cb[3], cb[4], cb[5]), transfer_length: read_be_u16(cb[7], cb[8]) as u32 }
    } else if op == WRITE_10 {
        ScsiCommand::Write { lba: read_be_u32(cb[2], cb[3], cb[4], cb[5]), transfer_length: read_be_u16(cb[7], cb[8]) as u32 }
    } else if op == VERIFY_10 {
        ScsiCommand::Verify
    } else if op == SYNCHRONIZE_CACHE_10 {
        ScsiCommand::SynchronizeCache
    } else if op == MODE_SENSE_10 {
        ScsiCommand::ModeSense {
            length: CommandLength::C10,
            page_control: page_control_from(cb[2]),
            page_code: cb[2] & 0x3f,
            subpage_code: cb[3],
            alloc_len: read_be_u16(cb[7], cb[8]),
        }
    } else if op == READ_CAPACITY_16 {
        ScsiCommand::ReadCapacity16 { alloc_len: read_be_u32(cb[10], cb[11], cb[12], cb[13]) }
    } else if op == READ_16 {
        ScsiCommand::Read { lba: read_be_u32(cb[6], cb[7], cb[8], cb[9]), transfer_length: read_be_u32(cb[10], cb[11], cb[12], cb[13]) }
    } else if op == WRITE_16 {
        ScsiCommand::Write { lba: read_be_u32(cb[6], cb[7], cb[8], cb[9]), transfer_length: read_be_u32(cb[10], cb[11], cb[12], cb[13]) }
    } else if op == REPORT_LUNS {
        ScsiCommand::ReportLuns
    } else if op == READ_12 {
        ScsiCommand::Read { lba: read_be_u32(cb[2], cb[3], cb[4], cb[5]), transfer_length: read_be_u32(cb[6], cb[7], cb[8], cb[9]) }
    } else {
        ScsiCommand::Write { lba: read_be_u32(cb[2], cb[3], cb[4], cb[5]), transfer_length: read_be_u32(cb[6], cb[7], cb[8], cb[9]) }
    };
    Ok(c)
}

} // verus!
