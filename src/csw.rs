//! The Command Status Wrapper: the 13-byte record that closes every command.
use vstd::prelude::*;

use crate::cbw::CommandBlockWrapper;
use crate::wire::{get_byte, le_bytes, le_u32, lemma_le_u32_of_bytes};

verus! {

/// Length in bytes of a CSW on the wire.
pub const CSW_LEN: usize = 13;

/// Outcome of a command, as reported in its CSW.
#[derive(Debug, Copy, Clone, PartialEq, Eq, Structural)]
pub enum CommandStatus {
    Passed,
    Failed,
    PhaseError,
}

impl CommandStatus {
    /// The status byte of the CSW.
    pub open spec fn spec_code(self) -> u8 {
        match self {
            CommandStatus::Passed => 0x00,
            CommandStatus::Failed => 0x01,
            CommandStatus::PhaseError => 0x02,
        }
    }

    /// The status byte of the CSW.
    pub fn code(self) -> (r: u8)
        ensures
            r == self.spec_code(),
    {
        match self {
            CommandStatus::Passed => 0x00,
            CommandStatus::Failed => 0x01,
            CommandStatus::PhaseError => 0x02,
        }
    }
}

/// "USBS" in little-endian order.
pub open spec fn csw_signature() -> Seq<u8> {
    seq![0x55u8, 0x53u8, 0x42u8, 0x53u8]
}

/// The 13 bytes of the CSW for `tag`, `residue` and `status`.
pub open spec fn csw_encoded(tag: u32, residue: u32, status: CommandStatus) -> Seq<u8> {
    csw_signature() + le_bytes(tag) + le_bytes(residue) + seq![status.spec_code()]
}

/// The tag that a CSW carries.
pub open spec fn csw_tag(b: Seq<u8>) -> u32 {
    le_u32(b[4], b[5], b[6], b[7])
}

/// The residue that a CSW carries.
pub open spec fn csw_residue(b: Seq<u8>) -> u32 {
    le_u32(b[8], b[9], b[10], b[11])
}

/// A CSW reads back the tag and residue it was built from.
pub proof fn lemma_csw_fields(tag: u32, residue: u32, status: CommandStatus)
    ensures
        csw_encoded(tag, residue, status).len() == CSW_LEN,
        csw_tag(csw_encoded(tag, residue, status)) == tag,
        csw_residue(csw_encoded(tag, residue, status)) == residue,
        csw_encoded(tag, residue, status)[12] == status.spec_code(),
{
    lemma_le_u32_of_bytes(tag);
    lemma_le_u32_of_bytes(residue);
}

/// Encodes the CSW for `tag`, `residue` and `status`.
pub fn encode_csw(tag: u32, residue: u32, status: CommandStatus) -> (r: [u8; 13])
    ensures
        r@ == csw_encoded(tag, residue, status),
{
    let r: [u8; 13] = [
        0x55,
        0x53,
        0x42,
        0x53,
        get_byte(tag, 0),
        get_byte(tag, 1),
        get_byte(tag, 2),
        get_byte(tag, 3),
        get_byte(residue, 0),
        get_byte(residue, 1),
        get_byte(residue, 2),
        get_byte(residue, 3),
        status.code(),
    ];
    assert(r@ =~= csw_encoded(tag, residue, status));
    r
}

/// Builds the CSW that answers `cbw`: its tag, and its remaining transfer length as residue.
pub fn build_csw(cbw: &CommandBlockWrapper, status: CommandStatus) -> (r: [u8; 13])
    ensures
        r@ == csw_encoded(cbw.tag, cbw.data_transfer_len, status),
        csw_tag(r@) == cbw.tag,
        csw_residue(r@) == cbw.data_transfer_len,
{
    proof {
        lemma_csw_fields(cbw.tag, cbw.data_transfer_len, status);
    }
    encode_csw(cbw.tag, cbw.data_transfer_len, status)
}

} // verus!
