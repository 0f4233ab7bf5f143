//! Sense data: the error state that REQUEST SENSE reports.
use vstd::prelude::*;

verus! {

/// Length of the fixed-format sense record.
pub const SENSE_LEN: usize = 18;

/// Class of a SCSI error.
#[derive(Debug, Copy, Clone, PartialEq, Eq, Structural)]
pub enum SenseKey {
    NoSense,
    HardwareError,
    IllegalRequest,
}

/// Specific cause of a SCSI error: an additional sense code and its qualifier.
#[derive(Debug, Copy, Clone, PartialEq, Eq, Structural)]
pub enum AdditionalSenseCode {
    NoAdditionalSenseInformation,
    InvalidCommandOperationCode,
    InvalidPacketSize,
    WriteError,
    LogicalBlockAddressOutOfRange,
}

impl SenseKey {
    pub open spec fn spec_code(self) -> u8 {
        match self {
            SenseKey::NoSense => 0x00,
            SenseKey::HardwareError => 0x04,
            SenseKey::IllegalRequest => 0x05,
        }
    }

    pub fn code(self) -> (r: u8)
        ensures
            r == self.spec_code(),
    {
        match self {
            SenseKey::NoSense => 0x00,
            SenseKey::HardwareError => 0x04,
            SenseKey::IllegalRequest => 0x05,
        }
    }
}

impl AdditionalSenseCode {
    /// The additional sense code byte.
    pub open spec fn spec_asc(self) -> u8 {
        match self {
            AdditionalSenseCode::NoAdditionalSenseInformation => 0x00,
            AdditionalSenseCode::InvalidCommandOperationCode => 0x20,
            AdditionalSenseCode::InvalidPacketSize => 0x64,
            AdditionalSenseCode::WriteError => 0x0C,
            AdditionalSenseCode::LogicalBlockAddressOutOfRange => 0x21,
        }
    }

    /// The additional sense code qualifier byte.
    pub open spec fn spec_ascq(self) -> u8 {
        match self {
            AdditionalSenseCode::InvalidPacketSize => 0x01,
            _ => 0x00,
        }
    }

    pub fn asc(self) -> (r: u8)
        ensures
            r == self.spec_asc(),
    {
        match self {
            AdditionalSenseCode::NoAdditionalSenseInformation => 0x00,
            AdditionalSenseCode::InvalidCommandOperationCode => 0x20,
            AdditionalSenseCode::InvalidPacketSize => 0x64,
            AdditionalSenseCode::WriteError => 0x0C,
            AdditionalSenseCode::LogicalBlockAddressOutOfRange => 0x21,
        }
    }

    pub fn ascq(self) -> (r: u8)
        ensures
            r == self.spec_ascq(),
    {
        match self {
            AdditionalSenseCode::InvalidPacketSize => 0x01,
            _ => 0x00,
        }
    }
}

/// The fixed-format sense record for `key` and `code`.
pub open spec fn sense_bytes(key: SenseKey, code: AdditionalSenseCode) -> Seq<u8> {
    seq![
        0xF0u8, 0, key.spec_code(), 0, 0, 0, 0, (SENSE_LEN - 8) as u8, 0, 0, 0, 0,
        code.spec_asc(), code.spec_ascq(), 0, 0x80, 0, 0,
    ]
}

/// The device's sense state, and the record that REQUEST SENSE returns for it.
#[derive(Debug, Copy, Clone, PartialEq, Eq, Structural)]
pub struct RequestSenseResponse {
    pub sense_key: SenseKey,
    pub additional_sense_code: AdditionalSenseCode,
}

impl RequestSenseResponse {
    /// The "no error" state.
    pub open spec fn no_sense() -> Self {
        RequestSenseResponse {
            sense_key: SenseKey::NoSense,
            additional_sense_code: AdditionalSenseCode::NoAdditionalSenseInformation,
        }
    }

    /// A sense state with no error.
    pub fn new() -> (r: Self)
        ensures
            r == Self::no_sense(),
    {
        RequestSenseResponse {
            sense_key: SenseKey::NoSense,
            additional_sense_code: AdditionalSenseCode::NoAdditionalSenseInformation,
        }
    }

    /// Records an error.
    pub fn set_sense(&mut self, key: SenseKey, code: AdditionalSenseCode)
        ensures
            final(self).sense_key == key,
            final(self).additional_sense_code == code,
    {
        self.sense_key = key;
        self.additional_sense_code = code;
    }

    /// Clears the error state.
    pub fn reset_status(&mut self)
        ensures
            *final(self) == Self::no_sense(),
    {
        *self = Self::new();
    }

    /// The fixed-format sense record.
    pub fn as_bytes(&self) -> (r: Vec<u8>)
        ensures
            r@ == sense_bytes(self.sense_key, self.additional_sense_code),
    {
        let r = vec![
            0xF0u8,
            0,
            self.sense_key.code(),
            0,
            0,
            0,
            0,
            (SENSE_LEN - 8) as u8,
            0,
            0,
            0,
            0,
            self.additional_sense_code.asc(),
            self.additional_sense_code.ascq(),
            0,
            0x80,
            0,
            0,
        ];
        assert(r@ =~= sense_bytes(self.sense_key, self.additional_sense_code));
        r
    }
}

impl Default for RequestSenseResponse {
    fn default() -> (r: Self)
        ensures
            r == Self::no_sense(),
    {
        Self::new()
    }
}

} // verus!
