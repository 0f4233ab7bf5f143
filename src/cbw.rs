//! The Command Block Wrapper: the 31-byte record that opens every command.
use vstd::prelude::*;

use crate::wire::{get_byte, le_bytes, le_u32, lemma_le_u32_of_bytes, read_le_u32};

verus! {

/// Length in bytes of a CBW on the wire.
pub const CBW_LEN: usize = 31;

/// Length of the CDB field of a CBW.
pub const MAX_CB_LEN: usize = 16;

/// Bit of the flags byte that marks a device-to-host transfer.
pub const DIRECTION_IN_BIT: u8 = 0x80;

/// Direction of the data phase of a command.
#[derive(Debug, Copy, Clone, PartialEq, Eq, Structural)]
pub enum DataDirection {
    /// From the host to the device.
    Out,
    /// From the device to the host.
    In,
    /// No data phase.
    NotExpected,
}

/// A decoded Command Block Wrapper.
#[derive(Debug, Copy, Clone)]
pub struct CommandBlockWrapper {
    /// Chosen by the host, echoed in the status wrapper.
    pub tag: u32,
    /// Bytes the host expects to move in the data phase.
    pub data_transfer_len: u32,
    pub direction: DataDirection,
    /// Logical unit, 4 bits.
    pub lun: u8,
    /// How many bytes of `block` are the command block.
    pub block_len: usize,
    pub block: [u8; 16],
}

/// Why a 31-byte record is not a CBW.
#[derive(Debug, Copy, Clone, PartialEq, Eq, Structural)]
pub enum Error {
    InvalidSignature,
    InvalidLength,
}

/// "USBC" in little-endian order.
pub open spec fn cbw_signature() -> Seq<u8> {
    seq![0x55u8, 0x53u8, 0x42u8, 0x43u8]
}

pub open spec fn has_cbw_signature(b: Seq<u8>) -> bool {
    b.len() >= 4 && b.subrange(0, 4) == cbw_signature()
}

/// The direction that a transfer length and a flags byte announce.
pub open spec fn direction_of(data_transfer_len: u32, flags: u8) -> DataDirection {
    if data_transfer_len == 0 {
        DataDirection::NotExpected
    } else if flags & DIRECTION_IN_BIT != 0 {
        DataDirection::In
    } else {
        DataDirection::Out
    }
}

/// `c` is what the 31 bytes `b` hold, read field by field.
pub open spec fn decodes_to(b: Seq<u8>, c: CommandBlockWrapper) -> bool {
    &&& b.len() == CBW_LEN
    &&& c.tag == le_u32(b[4], b[5], b[6], b[7])
    &&& c.data_transfer_len == le_u32(b[8], b[9], b[10], b[11])
    &&& c.direction == direction_of(c.data_transfer_len, b[12])
    &&& c.lun == b[13] & 0x0f
    &&& c.block_len == b[14] as usize
    &&& c.block@ == b.subrange(15, 31)
}

impl CommandBlockWrapper {
    /// A CBW that `from_le_bytes` can produce: a command block of 1 to 16 bytes, a 4-bit LUN,
    /// and a direction that agrees with the transfer length.
    pub open spec fn wf(&self) -> bool {
        &&& 1 <= self.block_len <= MAX_CB_LEN
        &&& self.lun < 16
        &&& (self.direction == DataDirection::NotExpected <==> self.data_transfer_len == 0)
    }

    /// The 31 bytes that encode this CBW (reserved bits zero).
    pub open spec fn encoded(&self) -> Seq<u8> {
        cbw_signature() + le_bytes(self.tag) + le_bytes(self.data_transfer_len) + seq![
            if self.direction == DataDirection::In { DIRECTION_IN_BIT } else { 0u8 },
            self.lun,
            self.block_len as u8,
        ] + self.block@
    }

    /// The command block proper: the first `block_len` bytes of `block`.
    pub open spec fn command_bytes(&self) -> Seq<u8> {
        self.block@.subrange(0, self.block_len as int)
    }

    /// Decodes a CBW from its 31 bytes.
    pub fn from_le_bytes(value: &[u8]) -> (r: Result<Self, Error>)
        requires
            value@.len() == CBW_LEN,
        ensures
            !has_cbw_signature(value@) ==> r == Err::<Self, Error>(Error::InvalidSignature),
            has_cbw_signature(value@) && !(1 <= value@[14] <= 16) ==> r == Err::<Self, Error>(
                Error::InvalidLength,
            ),
            has_cbw_signature(value@) && 1 <= value@[14] <= 16 ==> r is Ok,
            r matches Ok(c) ==> decodes_to(value@, c) && c.wf(),
    {
        if !(value[0] == 0x55 && value[1] == 0x53 && value[2] == 0x42 && value[3] == 0x43) {
            proof {
                if has_cbw_signature(value@) {
                    assert(value@.subrange(0, 4)[0] == value@[0]);
                    assert(value@.subrange(0, 4)[1] == value@[1]);
                    assert(value@.subrange(0, 4)[2] == value@[2]);
                    assert(value@.subrange(0, 4)[3] == value@[3]);
                }
            }
            return Err(Error::InvalidSignature);
        }
        assert(value@.subrange(0, 4) =~= cbw_signature());
        let block_len = value[14];
        if !(1 <= block_len && block_len <= 16) {
            return Err(Error::InvalidLength);
        }
        let tag = read_le_u32(value[4], value[5], value[6], value[7]);
        let data_transfer_len = read_le_u32(value[8], value[9], value[10], value[11]);
        let direction = if data_transfer_len == 0 {
            DataDirection::NotExpected
        } else if value[12] & DIRECTION_IN_BIT != 0 {
            DataDirection::In
        } else {
            DataDirection::Out
        };
        let b13 = value[13];
        let lun = b13 & 0x0f;
        assert(lun < 16) by (bit_vector)
            requires
                lun == b13 & 0x0f,
        ;
        let block: [u8; 16] = [
            value[15],
            value[16],
            value[17],
            value[18],
            value[19],
            value[20],
            value[21],
            value[22],
            value[23],
            value[24],
            value[25],
            value[26],
            value[27],
            value[28],
            value[29],
            value[30],
        ];
        assert(block@ =~= value@.subrange(15, 31));
        Ok(CommandBlockWrapper { tag, data_transfer_len, direction, lun, block_len: block_len as usize, block })
    }

    /// Encodes this CBW as its 31 bytes, reserved bits zero.
    pub fn to_le_bytes(&self) -> (r: [u8; 31])
        requires
            self.wf(),
        ensures
            r@ == self.encoded(),
    {
        let flags: u8 = if self.direction == DataDirection::In { DIRECTION_IN_BIT } else { 0 };
        let b = self.block;
        let r: [u8; 31] = [
            0x55,
            0x53,
            0x42,
            0x43,
            get_byte(self.tag, 0),
            get_byte(self.tag, 1),
            get_byte(self.tag, 2),
            get_byte(self.tag, 3),
            get_byte(self.data_transfer_len, 0),
            get_byte(self.data_transfer_len, 1),
            get_byte(self.data_transfer_len, 2),
            get_byte(self.data_transfer_len, 3),
            flags,
            self.lun,
            self.block_len as u8,
            b[0],
            b[1],
            b[2],
            b[3],
            b[4],
            b[5],
            b[6],
            b[7],
            b[8],
            b[9],
            b[10],
            b[11],
            b[12],
            b[13],
            b[14],
            b[15],
        ];
        assert(r@ =~= self.encoded());
        r
    }
}

/// Encoding a valid CBW and decoding the bytes gives back the same CBW: the bytes carry the
/// signature and a valid CDB length, and every field decodes to its value.
pub proof fn lemma_cbw_round_trip(x: CommandBlockWrapper)
    requires
        x.wf(),
    ensures
        has_cbw_signature(x.encoded()),
        1 <= x.encoded()[14] <= 16,
        decodes_to(x.encoded(), x),
{
    let b = x.encoded();
    assert(b.subrange(0, 4) =~= cbw_signature());
    assert(b.subrange(15, 31) =~= x.block@);
    lemma_le_u32_of_bytes(x.tag);
    lemma_le_u32_of_bytes(x.data_transfer_len);
    let lun = x.lun;
    assert(lun < 16 ==> lun & 0x0f == lun) by (bit_vector);
    assert(DIRECTION_IN_BIT & DIRECTION_IN_BIT != 0) by (bit_vector);
    assert(0u8 & DIRECTION_IN_BIT == 0) by (bit_vector);
}

} // verus!
