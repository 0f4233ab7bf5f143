//! The SCSI layer: runs each command against the block device and the transport, and keeps
//! the sense state across commands.
use vstd::prelude::*;

use crate::block_device::{device_bytes, outcome, BlockDevice, BlockDeviceError};
use crate::bulk_only::{is_data_state, BulkOnly, TransportState};
use crate::command::{decode_spec, parse_cb, CommandLength, Error, ScsiCommand};
use crate::csw::CommandStatus;
use crate::mode_parameter::{ModeParameterHeader10, ModeParameterHeader6};
use crate::responses::{
    format_capacities_bytes, inquiry_bytes, read_format_capacities, InquiryResponse,
    ReadCapacity10Response,
};
use crate::sense::{sense_bytes, AdditionalSenseCode, RequestSenseResponse, SenseKey};
use crate::wire::be_bytes;

verus! {

/// The sense state that a block device error leaves.
pub open spec fn sense_for_block_error(e: BlockDeviceError) -> RequestSenseResponse {
    match e {
        BlockDeviceError::WriteError => RequestSenseResponse {
            sense_key: SenseKey::HardwareError,
            additional_sense_code: AdditionalSenseCode::WriteError,
        },
        BlockDeviceError::InvalidAddress => RequestSenseResponse {
            sense_key: SenseKey::IllegalRequest,
            additional_sense_code: AdditionalSenseCode::LogicalBlockAddressOutOfRange,
        },
    }
}

/// The sense state that a failed command leaves.
pub open spec fn sense_for_error(e: Error) -> RequestSenseResponse {
    match e {
        Error::UnhandledOpCode => invalid_opcode_sense(),
        Error::InsufficientDataForCommand => RequestSenseResponse {
            sense_key: SenseKey::IllegalRequest,
            additional_sense_code: AdditionalSenseCode::InvalidPacketSize,
        },
        Error::BlockDeviceError(b) => sense_for_block_error(b),
    }
}

/// Illegal request, invalid command operation code.
pub open spec fn invalid_opcode_sense() -> RequestSenseResponse {
    RequestSenseResponse {
        sense_key: SenseKey::IllegalRequest,
        additional_sense_code: AdditionalSenseCode::InvalidCommandOperationCode,
    }
}

/// Commands that run in the data phase `s`.
pub open spec fn accepted(s: TransportState, c: ScsiCommand) -> bool {
    match c {
        ScsiCommand::Read { .. } | ScsiCommand::ReadCapacity10 | ScsiCommand::Inquiry { .. }
        | ScsiCommand::RequestSense { .. } | ScsiCommand::ModeSense { .. }
        | ScsiCommand::ReadFormatCapacities { .. } => s == TransportState::DataTransferToHost,
        ScsiCommand::Write { .. } => s == TransportState::DataTransferFromHost,
        ScsiCommand::TestUnitReady | ScsiCommand::PreventAllowMediumRemoval
        | ScsiCommand::StartStopUnit => s == TransportState::DataTransferNoData,
        _ => false,
    }
}

/// The sense state with which a command fails at once in data phase `s`; `None` when the
/// command runs. A block that does not decode, an unknown op code, a recognized command that
/// this device does not implement, and a command in the wrong direction all fail.
pub open spec fn rejection(s: TransportState, r: Result<ScsiCommand, Error>) -> Option<RequestSenseResponse> {
    match r {
        Err(e) => Some(sense_for_error(e)),
        Ok(c) => if accepted(s, c) {
            None
        } else {
            Some(invalid_opcode_sense())
        },
    }
}

/// The largest block address of a device of `block_count` blocks.
pub open spec fn max_lba(block_count: u32) -> u32 {
    if block_count == 0 {
        0
    } else {
        (block_count - 1) as u32
    }
}

/// The payload of a data-in command answered from a fixed layout; `None` for the others.
pub open spec fn fixed_response(
    inquiry: Seq<u8>,
    sense: RequestSenseResponse,
    c: ScsiCommand,
    block_count: u32,
    block_bytes: u32,
) -> Option<Seq<u8>> {
    match c {
        ScsiCommand::ReadCapacity10 => Some(be_bytes(max_lba(block_count)) + be_bytes(block_bytes)),
        ScsiCommand::Inquiry { .. } => Some(inquiry),
        ScsiCommand::RequestSense { .. } => Some(
            sense_bytes(sense.sense_key, sense.additional_sense_code),
        ),
        ScsiCommand::ModeSense { length: CommandLength::C6, .. } => Some(seq![3u8, 0, 0, 0]),
        ScsiCommand::ModeSense { length: CommandLength::C10, .. } => Some(
            seq![0u8, 6, 0, 0, 0, 0, 0, 0],
        ),
        ScsiCommand::ReadFormatCapacities { .. } => Some(
            format_capacities_bytes(block_count, block_bytes),
        ),
        _ => None,
    }
}

/// The error with which reading block `lba + i` of `d` fails: an address past `u32::MAX` is
/// invalid, else the device decides.
pub open spec fn read_error_at<BD: BlockDevice>(d: BD, lba: u32, i: int) -> Option<BlockDeviceError> {
    if lba + i > u32::MAX {
        Some(BlockDeviceError::InvalidAddress)
    } else {
        d.read_error((lba + i) as u32)
    }
}

/// The error with which writing block `lba + i` of `d` fails.
pub open spec fn write_error_at<BD: BlockDevice>(d: BD, lba: u32, i: int) -> Option<BlockDeviceError> {
    if lba + i > u32::MAX {
        Some(BlockDeviceError::InvalidAddress)
    } else {
        d.write_error((lba + i) as u32)
    }
}

/// Blocks `lba + from .. lba + to` of `d` read without error.
pub open spec fn reads_ok<BD: BlockDevice>(d: BD, lba: u32, from: int, to: int) -> bool {
    forall|j: int| from <= j < to ==> #[trigger] read_error_at(d, lba, j) is None
}

/// Blocks `lba + from .. lba + to` of `d` write without error.
pub open spec fn writes_ok<BD: BlockDevice>(d: BD, lba: u32, from: int, to: int) -> bool {
    forall|j: int| from <= j < to ==> #[trigger] write_error_at(d, lba, j) is None
}

/// Blocks `lba + from .. lba + to` of `d` hold, one after the other, the bytes of `data` from
/// its start, `bs` bytes each.
pub open spec fn blocks_hold<BD: BlockDevice>(d: BD, lba: u32, from: int, to: int, data: Seq<u8>, bs: int) -> bool {
    forall|i: int|
        from <= i < to ==> #[trigger] d.block_spec((lba + i) as u32) == data.subrange(
            (i - from) * bs,
            (i - from + 1) * bs,
        )
}

/// The host expects `expected` bytes, fewer than `queued` followed by `blocks`: what is queued
/// at the end is the first `expected` of them.
pub open spec fn host_cut_short(queued: Seq<u8>, blocks: Seq<u8>, expected: u32, pending: Seq<u8>) -> bool {
    &&& expected < queued.len() + blocks.len()
    &&& pending == (queued + blocks).subrange(0, expected as int)
}

/// Blocks of `b` outside addresses `from .. to` hold what they hold in `a`.
pub open spec fn unchanged_outside<BD: BlockDevice>(a: BD, b: BD, from: int, to: int) -> bool {
    forall|l: u32| (l < from || l >= to) ==> #[trigger] b.block_spec(l) == a.block_spec(l)
}

/// What a call that runs a READ of blocks `lba .. lba + n`, starting at block `d0` and
/// stopping before block `d1` when it sets no status, leaves: transport `t0` becomes `t1`, the
/// sense state `sense0` becomes `sense1`, on device `d`.
pub open spec fn read_outcome<BD: BlockDevice>(
    t0: BulkOnly,
    t1: BulkOnly,
    d: BD,
    sense0: RequestSenseResponse,
    sense1: RequestSenseResponse,
    lba: u32,
    n: int,
    d0: int,
    d1: int,
) -> bool {
    let bs = d.block_bytes_spec() as int;
    &&& n == 0 ==> t1.status() == Some(CommandStatus::Passed)
    &&& t1.status() is None ==> {
        &&& d0 <= d1 < n
        &&& reads_ok(d, lba, d0, d1)
        &&& t1.pending() == t0.pending() + device_bytes(d, lba, d0 as nat, d1 as nat)
        &&& t1.capacity() - t1.pending().len() < bs
    }
    &&& t1.status() == Some(CommandStatus::Passed) ==> {
        &&& reads_ok(d, lba, d0, n)
        &&& t1.pending() == t0.pending() + device_bytes(d, lba, d0 as nat, n as nat)
    }
    &&& t1.status() == Some(CommandStatus::Failed) ==> exists|i: int|
        d0 <= i < n && reads_ok(d, lba, d0, i) && #[trigger] read_error_at(d, lba, i) is Some
            && sense1 == sense_for_block_error(read_error_at(d, lba, i)->Some_0) && t1.pending()
            == t0.pending() + device_bytes(d, lba, d0 as nat, i as nat)
    &&& t1.status() == Some(CommandStatus::PhaseError) ==> exists|i: int|
        d0 <= i < n && reads_ok(d, lba, d0, i + 1) && #[trigger] host_cut_short(
            t0.pending(),
            device_bytes(d, lba, d0 as nat, (i + 1) as nat),
            t1.cbw().data_transfer_len,
            t1.pending(),
        )
    &&& t1.status() != Some(CommandStatus::Failed) ==> sense1 == sense0
}

/// What a call that runs a WRITE of blocks `lba .. lba + n`, starting at block `d0` and
/// stopping before block `d1` when it sets no status, leaves: transport `t0` becomes `t1`,
/// device `b0` becomes `b1`, the sense state `sense0` becomes `sense1`. The blocks written
/// hold the host's bytes in order; no other block changes.
pub open spec fn write_outcome<BD: BlockDevice>(
    t0: BulkOnly,
    t1: BulkOnly,
    b0: BD,
    b1: BD,
    sense0: RequestSenseResponse,
    sense1: RequestSenseResponse,
    lba: u32,
    n: int,
    d0: int,
    d1: int,
) -> bool {
    let bs = b0.block_bytes_spec() as int;
    let data = t0.pending();
    &&& n == 0 ==> t1.status() == Some(CommandStatus::Passed)
    &&& t1.status() is None ==> {
        &&& d0 <= d1 < n
        &&& writes_ok(b0, lba, d0, d1)
        &&& blocks_hold(b1, lba, d0, d1, data, bs)
        &&& unchanged_outside(b0, b1, lba + d0, lba + d1)
        &&& t1.pending() == data.subrange((d1 - d0) * bs, data.len() as int)
        &&& t1.pending().len() < bs
        &&& t1.cbw().data_transfer_len > 0
    }
    &&& t1.status() == Some(CommandStatus::Passed) ==> {
        &&& writes_ok(b0, lba, d0, n)
        &&& blocks_hold(b1, lba, d0, n, data, bs)
        &&& unchanged_outside(b0, b1, lba + d0, lba + n)
    }
    &&& t1.status() == Some(CommandStatus::Failed) ==> {
        ||| exists|i: int|
            d0 <= i < n && writes_ok(b0, lba, d0, i) && #[trigger] write_error_at(b0, lba, i) is Some
                && sense1 == sense_for_block_error(write_error_at(b0, lba, i)->Some_0)
                && blocks_hold(b1, lba, d0, i, data, bs) && unchanged_outside(b0, b1, lba + d0, lba + i)
        ||| exists|i: int|
            d0 <= i < n && sense1 == invalid_opcode_sense() && t1.cbw().data_transfer_len == 0
                && t1.pending().len() < bs && writes_ok(b0, lba, d0, i) && #[trigger] blocks_hold(
                b1,
                lba,
                d0,
                i,
                data,
                bs,
            ) && unchanged_outside(b0, b1, lba + d0, lba + i)
    }
    &&& t1.status() != Some(CommandStatus::PhaseError)
    &&& t1.status() != Some(CommandStatus::Failed) ==> sense1 == sense0
}

/// The block a READ or WRITE of `n` blocks resumes at, given the blocks done so far.
pub open spec fn start_block(done: u32, n: u32) -> int {
    if done <= n {
        done as int
    } else {
        0
    }
}

/// How many of `n` bytes `write_data` takes from a transport in `t`'s state.
pub open spec fn queued_len(t: BulkOnly, n: nat) -> int {
    let owed = t.cbw().data_transfer_len - t.pending().len();
    let room = t.capacity() - t.pending().len();
    if n <= owed && n <= room {
        n as int
    } else if owed <= room {
        owed
    } else {
        room
    }
}

/// `n` zero bytes.
fn zeroed(n: usize) -> (r: Vec<u8>)
    ensures
        r@.len() == n,
{
    let mut r: Vec<u8> = Vec::new();
    let mut i: usize = 0;
    while i < n
        invariant
            i <= n,
            r@.len() == i,
        decreases n - i,
    {
        r.push(0u8);
        i += 1;
    }
    r
}

/// The SCSI command layer of one logical unit.
pub struct BulkHandler {
    inquiry_response: InquiryResponse,
    request_sense_response: RequestSenseResponse,
    /// The command whose blocks `blocks_done` counts.
    progress_of: u64,
    blocks_done: u32,
}

impl BulkHandler {
    pub closed spec fn inquiry(&self) -> InquiryResponse {
        self.inquiry_response
    }

    pub closed spec fn sense(&self) -> RequestSenseResponse {
        self.request_sense_response
    }

    /// Blocks of command `id` already moved.
    pub closed spec fn progress(&self, id: u64) -> u32 {
        if self.progress_of == id {
            self.blocks_done
        } else {
            0
        }
    }

    /// The INQUIRY payload.
    pub open spec fn inquiry_payload(&self) -> Seq<u8> {
        inquiry_bytes(
            self.inquiry().claimed_version(),
            self.inquiry().vendor(),
            self.inquiry().product(),
            self.inquiry().revision(),
        )
    }

    pub open spec fn wf(&self) -> bool {
        self.inquiry().wf()
    }

    /// A command layer that identifies itself with the given vendor, product and revision
    /// strings (padded with spaces), with no error recorded.
    pub fn new(vendor: &[u8], product: &[u8], revision: &[u8]) -> (r: Self)
        requires
            vendor@.len() <= crate::responses::VENDOR_LEN,
            product@.len() <= crate::responses::PRODUCT_LEN,
            revision@.len() <= crate::responses::REVISION_LEN,
        ensures
            r.wf(),
            r.inquiry().vendor() == crate::responses::space_padded(
                vendor@,
                crate::responses::VENDOR_LEN as nat,
            ),
            r.inquiry().product() == crate::responses::space_padded(
                product@,
                crate::responses::PRODUCT_LEN as nat,
            ),
            r.inquiry().revision() == crate::responses::space_padded(
                revision@,
                crate::responses::REVISION_LEN as nat,
            ),
            r.inquiry().claimed_version() == crate::responses::SpcVersion::Spc2,
            r.sense() == RequestSenseResponse::no_sense(),
            forall|id: u64| r.progress(id) == 0,
    {
        BulkHandler {
            inquiry_response: InquiryResponse::new(vendor, product, revision),
            request_sense_response: RequestSenseResponse::new(),
            progress_of: 0,
            blocks_done: 0,
        }
    }

    /// The current sense state.
    pub fn sense_state(&self) -> (r: RequestSenseResponse)
        ensures
            r == self.sense(),
    {
        self.request_sense_response
    }

    fn set_sense(&mut self, key: SenseKey, code: AdditionalSenseCode)
        ensures
            final(self).sense() == (RequestSenseResponse {
                sense_key: key,
                additional_sense_code: code,
            }),
            final(self).inquiry() == old(self).inquiry(),
            forall|id: u64| final(self).progress(id) == old(self).progress(id),
            final(self).progress_of == old(self).progress_of,
    {
        self.request_sense_response.set_sense(key, code);
    }

    fn set_sense_from_blockdev_error(&mut self, e: BlockDeviceError)
        ensures
            final(self).sense() == sense_for_block_error(e),
            final(self).inquiry() == old(self).inquiry(),
            forall|id: u64| final(self).progress(id) == old(self).progress(id),
            final(self).progress_of == old(self).progress_of,
    {
        match e {
            BlockDeviceError::WriteError => {
                self.set_sense(SenseKey::HardwareError, AdditionalSenseCode::WriteError);
            },
            BlockDeviceError::InvalidAddress => {
                self.set_sense(
                    SenseKey::IllegalRequest,
                    AdditionalSenseCode::LogicalBlockAddressOutOfRange,
                );
            },
        }
    }

    fn set_sense_from_error(&mut self, e: Error)
        ensures
            final(self).sense() == sense_for_error(e),
            final(self).inquiry() == old(self).inquiry(),
            forall|id: u64| final(self).progress(id) == old(self).progress(id),
            final(self).progress_of == old(self).progress_of,
    {
        match e {
            Error::UnhandledOpCode => {
                self.set_sense(
                    SenseKey::IllegalRequest,
                    AdditionalSenseCode::InvalidCommandOperationCode,
                );
            },
            Error::InsufficientDataForCommand => {
                self.set_sense(SenseKey::IllegalRequest, AdditionalSenseCode::InvalidPacketSize);
            },
            Error::BlockDeviceError(b) => {
                self.set_sense_from_blockdev_error(b);
            },
        }
    }

    fn set_sense_invalid_dir(&mut self)
        ensures
            final(self).sense() == invalid_opcode_sense(),
            final(self).inquiry() == old(self).inquiry(),
            forall|id: u64| final(self).progress(id) == old(self).progress(id),
            final(self).progress_of == old(self).progress_of,
    {
        self.set_sense(SenseKey::IllegalRequest, AdditionalSenseCode::InvalidCommandOperationCode);
    }

    /// Ends the command in progress with `Failed`.
    fn fail(&mut self, t: &mut BulkOnly)
        requires
            old(t).wf(),
            is_data_state(old(t).state()),
            !old(t).sending_status(),
        ensures
            final(t).wf(),
            final(t).status() == Some(CommandStatus::Failed),
            final(t).state() == old(t).state(),
            final(t).pending() == old(t).pending(),
            final(t).cbw() == old(t).cbw(),
            !final(t).sending_status(),
            final(t).capacity() == old(t).capacity(),
            final(t).spec_packet_size() == old(t).spec_packet_size(),
            final(t).spec_max_lun() == old(t).spec_max_lun(),
            final(t).spec_command_id() == old(t).spec_command_id(),
            final(t).expected() == old(t).expected(),
            final(t).transferred() == old(t).transferred(),
            final(self).sense() == old(self).sense(),
            final(self).inquiry() == old(self).inquiry(),
            forall|id: u64| final(self).progress(id) == 0,
            final(self).progress_of == old(self).progress_of,
    {
        self.blocks_done = 0;
        t.set_status(CommandStatus::Failed);
    }

    /// Queues `payload` for the host and ends the command with `Passed`.
    fn respond(&mut self, t: &mut BulkOnly, payload: &[u8])
        requires
            old(t).wf(),
            old(t).state() == TransportState::DataTransferToHost,
            !old(t).sending_status(),
            old(t).status() is None,
        ensures
            final(t).wf(),
            final(t).status() == Some(CommandStatus::Passed),
            final(t).state() == old(t).state(),
            final(t).pending() == old(t).pending() + payload@.subrange(
                0,
                queued_len(*old(t), payload@.len()),
            ),
            final(t).cbw() == old(t).cbw(),
            !final(t).sending_status(),
            final(t).capacity() == old(t).capacity(),
            final(t).spec_packet_size() == old(t).spec_packet_size(),
            final(t).spec_max_lun() == old(t).spec_max_lun(),
            final(t).spec_command_id() == old(t).spec_command_id(),
            final(t).expected() == old(t).expected(),
            final(t).transferred() == old(t).transferred(),
            *final(self) == *old(self),
    {
        let _ = t.write_data(payload);
        t.set_status(CommandStatus::Passed);
    }

    /// Moves blocks `[lba, lba + len)` from the device to the host, as many as the buffer
    /// takes now, resuming where the previous call stopped.
    fn read_blocks<BD: BlockDevice>(&mut self, t: &mut BulkOnly, bd: &mut BD, lba: u32, len: u32)
        requires
            old(t).wf(),
            old(t).state() == TransportState::DataTransferToHost,
            !old(t).sending_status(),
            old(t).status() is None,
            old(self).progress_of == old(t).spec_command_id(),
            old(self).blocks_done <= len,
        ensures
            final(t).wf(),
            final(t).state() == old(t).state(),
            !final(t).sending_status(),
            final(t).capacity() == old(t).capacity(),
            final(t).spec_packet_size() == old(t).spec_packet_size(),
            final(t).spec_max_lun() == old(t).spec_max_lun(),
            final(t).spec_command_id() == old(t).spec_command_id(),
            final(t).cbw() == old(t).cbw(),
            final(t).expected() == old(t).expected(),
            final(t).transferred() == old(t).transferred(),
            final(self).inquiry() == old(self).inquiry(),
            final(self).progress_of == old(self).progress_of,
            final(bd).block_bytes_spec() == old(bd).block_bytes_spec(),
            final(bd).block_count_spec() == old(bd).block_count_spec(),
            forall|l: u32| #[trigger] final(bd).read_error(l) == old(bd).read_error(l),
            forall|l: u32| #[trigger] final(bd).write_error(l) == old(bd).write_error(l),
            len == 0 ==> final(t).status() == Some(CommandStatus::Passed),
            final(t).status() != Some(CommandStatus::Failed) ==> final(self).sense() == old(self).sense(),
            final(t).status() is None ==> old(self).blocks_done <= final(self).blocks_done < len,
            forall|l: u32| #[trigger] final(bd).block_spec(l) == old(bd).block_spec(l),
            read_outcome(
                *old(t),
                *final(t),
                *old(bd),
                old(self).sense(),
                final(self).sense(),
                lba,
                len as int,
                old(self).blocks_done as int,
                final(self).blocks_done as int,
            ),
    {
        let bs = bd.block_bytes();
        while self.blocks_done < len
            invariant
                t.wf(),
                t.state() == TransportState::DataTransferToHost,
                t.state() == old(t).state(),
                !t.sending_status(),
                t.status() is None,
                t.capacity() == old(t).capacity(),
                t.spec_packet_size() == old(t).spec_packet_size(),
                t.spec_max_lun() == old(t).spec_max_lun(),
                t.spec_command_id() == old(t).spec_command_id(),
                self.inquiry() == old(self).inquiry(),
                self.sense() == old(self).sense(),
                self.progress_of == old(self).progress_of,
                self.blocks_done <= len,
                bs == old(bd).block_bytes_spec(),
                bs == bd.block_bytes_spec(),
                bs > 0,
                self.blocks_done >= old(self).blocks_done,
                forall|l: u32| #[trigger] bd.block_spec(l) == old(bd).block_spec(l),
                t.pending() == old(t).pending() + device_bytes(
                    *old(bd),
                    lba,
                    old(self).blocks_done as nat,
                    self.blocks_done as nat,
                ),
                t.cbw() == old(t).cbw(),
                t.expected() == old(t).expected(),
                t.transferred() == old(t).transferred(),
                bd.block_count_spec() == old(bd).block_count_spec(),
                forall|l: u32| #[trigger] bd.read_error(l) == old(bd).read_error(l),
                forall|l: u32| #[trigger] bd.write_error(l) == old(bd).write_error(l),
                reads_ok(*old(bd), lba, old(self).blocks_done as int, self.blocks_done as int),
            decreases len - self.blocks_done,
        {
            if t.available_write() < bs {
                return;
            }
            let done = self.blocks_done;
            if lba as u64 + done as u64 > u32::MAX as u64 {
                self.set_sense_from_blockdev_error(BlockDeviceError::InvalidAddress);
                self.fail(t);
                assert(read_error_at(*old(bd), lba, done as int) is Some);
                return;
            }
            let mut block = zeroed(bs);
            match bd.read_block(lba + done, block.as_mut_slice()) {
                Ok(()) => {},
                Err(e) => {
                    self.set_sense_from_blockdev_error(e);
                    self.fail(t);
                    assert(read_error_at(*old(bd), lba, done as int) == Some(e));
                    return;
                },
            }
            assert(read_error_at(*old(bd), lba, done as int) is None);
            let ghost queued = t.pending();
            let taken = t.write_data(block.as_slice());
            match taken {
                Ok(n) => {
                    if n < bs {
                        self.blocks_done = 0;
                        t.set_status(CommandStatus::PhaseError);
                        proof {
                            let d0 = old(self).blocks_done;
                            let db = device_bytes(*old(bd), lba, d0 as nat, (done + 1) as nat);
                            assert(db == device_bytes(*old(bd), lba, d0 as nat, done as nat)
                                + old(bd).block_spec((lba + done) as u32));
                            assert(t.pending() =~= (old(t).pending() + db).subrange(
                                0,
                                t.cbw().data_transfer_len as int,
                            ));
                            assert(host_cut_short(old(t).pending(), db, t.cbw().data_transfer_len, t.pending()));
                            assert forall|j: int| d0 <= j < done + 1 implies #[trigger] read_error_at(
                                *old(bd),
                                lba,
                                j,
                            ) is None by {
                                if j < done {
                                    assert(reads_ok(*old(bd), lba, d0 as int, done as int));
                                }
                            }
                            assert(reads_ok(*old(bd), lba, d0 as int, done + 1));
                            let w = done as int;
                            let d0i = old(self).blocks_done as int;
                            assert(device_bytes(*old(bd), lba, d0i as nat, (w + 1) as nat) == db);
                            assert(d0i <= w < len && reads_ok(*old(bd), lba, d0i, w + 1) && host_cut_short(
                                old(t).pending(),
                                device_bytes(*old(bd), lba, d0i as nat, (w + 1) as nat),
                                t.cbw().data_transfer_len,
                                t.pending(),
                            ));
                        }
                        return;
                    }
                },
                Err(_) => {
                    return;
                },
            }
            assert(block@.subrange(0, bs as int) =~= block@);
            self.blocks_done = done + 1;
            assert(device_bytes(*old(bd), lba, old(self).blocks_done as nat, self.blocks_done as nat)
                == device_bytes(*old(bd), lba, old(self).blocks_done as nat, done as nat)
                + old(bd).block_spec((lba + done) as u32));
        }
        self.blocks_done = 0;
        t.set_status(CommandStatus::Passed);
    }

    /// Moves blocks `[lba, lba + len)` from the host to the device, as many as have arrived,
    /// resuming where the previous call stopped.
    fn write_blocks<BD: BlockDevice>(&mut self, t: &mut BulkOnly, bd: &mut BD, lba: u32, len: u32)
        requires
            old(t).wf(),
            old(t).state() == TransportState::DataTransferFromHost,
            !old(t).sending_status(),
            old(t).status() is None,
            old(self).progress_of == old(t).spec_command_id(),
            old(self).blocks_done <= len,
        ensures
            final(t).wf(),
            final(t).state() == old(t).state(),
            !final(t).sending_status(),
            final(t).capacity() == old(t).capacity(),
            final(t).spec_packet_size() == old(t).spec_packet_size(),
            final(t).spec_max_lun() == old(t).spec_max_lun(),
            final(t).spec_command_id() == old(t).spec_command_id(),
            final(t).cbw() == old(t).cbw(),
            final(t).expected() == old(t).expected(),
            final(t).transferred() == old(t).transferred(),
            final(self).inquiry() == old(self).inquiry(),
            final(self).progress_of == old(self).progress_of,
            final(bd).block_bytes_spec() == old(bd).block_bytes_spec(),
            final(bd).block_count_spec() == old(bd).block_count_spec(),
            forall|l: u32| #[trigger] final(bd).read_error(l) == old(bd).read_error(l),
            forall|l: u32| #[trigger] final(bd).write_error(l) == old(bd).write_error(l),
            len == 0 ==> final(t).status() == Some(CommandStatus::Passed),
            final(t).status() != Some(CommandStatus::Failed) ==> final(self).sense() == old(self).sense(),
            final(t).status() is None ==> old(self).blocks_done <= final(self).blocks_done < len,
            old(self).blocks_done < len && old(t).pending().len() < old(bd).block_bytes_spec()
                && old(t).cbw().data_transfer_len > 0 ==> *final(t) == *old(t) && *final(self)
                == *old(self),
            write_outcome(
                *old(t),
                *final(t),
                *old(bd),
                *final(bd),
                old(self).sense(),
                final(self).sense(),
                lba,
                len as int,
                old(self).blocks_done as int,
                final(self).blocks_done as int,
            ),
    {
        let bs = bd.block_bytes();
        while self.blocks_done < len
            invariant
                t.wf(),
                t.state() == TransportState::DataTransferFromHost,
                t.state() == old(t).state(),
                !t.sending_status(),
                t.status() is None,
                t.capacity() == old(t).capacity(),
                t.spec_packet_size() == old(t).spec_packet_size(),
                t.spec_max_lun() == old(t).spec_max_lun(),
                t.spec_command_id() == old(t).spec_command_id(),
                self.inquiry() == old(self).inquiry(),
                self.sense() == old(self).sense(),
                self.progress_of == old(self).progress_of,
                self.blocks_done <= len,
                bs == bd.block_bytes_spec(),
                bs == old(bd).block_bytes_spec(),
                bs > 0,
                self.blocks_done >= old(self).blocks_done,
                self.blocks_done == old(self).blocks_done ==> *t == *old(t) && *self == *old(self),
                old(self).blocks_done < len && old(t).pending().len() < bs
                    && old(t).cbw().data_transfer_len > 0 ==> self.blocks_done == old(self).blocks_done,
                (self.blocks_done - old(self).blocks_done) * bs <= old(t).pending().len(),
                t.pending() == old(t).pending().subrange(
                    (self.blocks_done - old(self).blocks_done) * bs,
                    old(t).pending().len() as int,
                ),
                forall|i: int|
                    old(self).blocks_done <= i < self.blocks_done ==> #[trigger] bd.block_spec(
                        (lba + i) as u32,
                    ) == old(t).pending().subrange(
                        (i - old(self).blocks_done) * bs,
                        (i - old(self).blocks_done + 1) * bs,
                    ),
                self.blocks_done > old(self).blocks_done ==> lba + self.blocks_done - 1 <= u32::MAX,
                t.cbw() == old(t).cbw(),
                t.expected() == old(t).expected(),
                t.transferred() == old(t).transferred(),
                bd.block_count_spec() == old(bd).block_count_spec(),
                forall|l: u32| #[trigger] bd.read_error(l) == old(bd).read_error(l),
                forall|l: u32| #[trigger] bd.write_error(l) == old(bd).write_error(l),
                writes_ok(*old(bd), lba, old(self).blocks_done as int, self.blocks_done as int),
                unchanged_outside(
                    *old(bd),
                    *bd,
                    lba + old(self).blocks_done,
                    lba + self.blocks_done,
                ),
            decreases len - self.blocks_done,
        {
            if t.available_read() < bs {
                if t.data_residue() == 0 {
                    let ghost dn = self.blocks_done as int;
                    self.set_sense_invalid_dir();
                    self.fail(t);
                    assert(blocks_hold(*bd, lba, old(self).blocks_done as int, dn, old(t).pending(), bs as int));
                    assert(unchanged_outside(*old(bd), *bd, lba + old(self).blocks_done as int, lba + dn));
                }
                return;
            }
            let done = self.blocks_done;
            let data = match t.read_data(bs) {
                Ok(d) => d,
                Err(_) => {
                    return;
                },
            };
            if lba as u64 + done as u64 > u32::MAX as u64 {
                let ghost bd_now = *bd;
                self.set_sense_from_blockdev_error(BlockDeviceError::InvalidAddress);
                self.fail(t);
                assert(write_error_at(*old(bd), lba, done as int) is Some);
                assert(blocks_hold(*bd, lba, old(self).blocks_done as int, done as int, old(t).pending(), bs as int));
                assert(unchanged_outside(*old(bd), *bd, lba + old(self).blocks_done as int, lba + done as int));
                return;
            }
            let ghost d0 = old(self).blocks_done as int;
            let ghost off = (done - d0) * bs;
            proof {
                assert((done + 1 - d0) * bs == off + bs) by (nonlinear_arith)
                    requires
                        off == (done - d0) * bs,
                ;
                assert(data@ =~= old(t).pending().subrange(off, off + bs));
            }
            let ghost before = *bd;
            match bd.write_block(lba + done, data.as_slice()) {
                Ok(()) => {},
                Err(e) => {
                    self.set_sense_from_blockdev_error(e);
                    self.fail(t);
                    assert(write_error_at(*old(bd), lba, done as int) == Some(e));
                    assert forall|i: int| d0 <= i < done implies #[trigger] bd.block_spec(
                        (lba + i) as u32,
                    ) == old(t).pending().subrange((i - d0) * bs, (i - d0 + 1) * bs) by {
                        assert(bd.block_spec((lba + i) as u32) == before.block_spec((lba + i) as u32));
                    }
                    assert(blocks_hold(*bd, lba, d0, done as int, old(t).pending(), bs as int));
                    assert forall|l: u32| (l < lba + d0 || l >= lba + done) implies #[trigger] bd.block_spec(l)
                        == old(bd).block_spec(l) by {
                        assert(bd.block_spec(l) == before.block_spec(l));
                    }
                    assert(unchanged_outside(*old(bd), *bd, lba + d0, lba + done as int));
                    return;
                },
            }
            assert(write_error_at(*old(bd), lba, done as int) is None);
            self.blocks_done = done + 1;
            proof {
                assert forall|i: int| d0 <= i < self.blocks_done implies #[trigger] bd.block_spec(
                    (lba + i) as u32,
                ) == old(t).pending().subrange((i - d0) * bs, (i - d0 + 1) * bs) by {
                    if i < done {
                        assert((lba + i) as u32 != (lba + done) as u32);
                        assert(bd.block_spec((lba + i) as u32) == before.block_spec((lba + i) as u32));
                    }
                }
                assert(t.pending() =~= old(t).pending().subrange(
                    (self.blocks_done - d0) * bs,
                    old(t).pending().len() as int,
                ));
                assert forall|l: u32| (l < lba + d0 || l >= lba + self.blocks_done) implies #[trigger] bd.block_spec(l)
                    == old(bd).block_spec(l) by {
                    assert(l != lba + done);
                    assert(bd.block_spec(l) == before.block_spec(l));
                }
            }
        }
        self.blocks_done = 0;
        t.set_status(CommandStatus::Passed);
    }

    /// Runs the command in progress as far as it can go now. The driver calls this whenever
    /// the transport holds a command without status, and again after each packet it moved.
    ///
    /// A command that fails at once (see `rejection`) records its sense state and ends with
    /// `Failed`; a command of no data ends with `Passed`; a fixed-layout response is queued
    /// and the command ends with `Passed` (REQUEST SENSE then clears the sense state).
    ///
    /// READ and WRITE move every block they can: a call returns without a status only when the
    /// buffer has no room for the next block (READ), or holds less than a block while the host
    /// still owes data (WRITE). They end with `Passed` once the last block moved; at the first
    /// block whose read or write fails they end with `Failed`, keeping the blocks moved before
    /// it and leaving the sense state of the error the device returned. A WRITE whose host data
    /// ends short of a block fails with an invalid-operation sense; a READ for which the host
    /// expects fewer bytes than the blocks hold ends with `PhaseError` once the first bytes of
    /// those blocks, as many as the host expects, are queued. Only a WRITE changes the device,
    /// and only the blocks it has written.
    pub fn process<BD: BlockDevice>(&mut self, t: &mut BulkOnly, bd: &mut BD)
        requires
            old(t).wf(),
            old(self).wf(),
            old(bd).block_bytes_spec() <= u32::MAX,
        ensures
            final(t).wf(),
            final(self).wf(),
            final(self).inquiry() == old(self).inquiry(),
            final(t).state() == old(t).state(),
            final(t).capacity() == old(t).capacity(),
            final(t).spec_packet_size() == old(t).spec_packet_size(),
            final(t).spec_max_lun() == old(t).spec_max_lun(),
            final(t).spec_command_id() == old(t).spec_command_id(),
            final(t).cbw() == old(t).cbw(),
            final(t).sending_status() == old(t).sending_status(),
            final(t).expected() == old(t).expected(),
            final(t).transferred() == old(t).transferred(),
            forall|l: u32| #[trigger] final(bd).read_error(l) == old(bd).read_error(l),
            forall|l: u32| #[trigger] final(bd).write_error(l) == old(bd).write_error(l),
            !(old(t).state() == TransportState::DataTransferFromHost && old(t).status() is None
                && decode_spec(old(t).cbw().command_bytes()) matches Ok(ScsiCommand::Write { .. }))
                ==> forall|l: u32| #[trigger] final(bd).block_spec(l) == old(bd).block_spec(l),
            !(is_data_state(old(t).state()) && old(t).status() is None) ==> *final(t) == *old(t) && final(self).sense() == old(self).sense(),
            is_data_state(old(t).state()) && old(t).status() is None ==> ({
                let s = old(t).state();
                let r = decode_spec(old(t).cbw().command_bytes());
                let resp = fixed_response(
                    old(self).inquiry_payload(),
                    old(self).sense(),
                    r->Ok_0,
                    old(bd).block_count_spec(),
                    old(bd).block_bytes_spec() as u32,
                );
                &&& rejection(s, r) matches Some(sense) ==> {
                    &&& final(t).status() == Some(CommandStatus::Failed)
                    &&& final(self).sense() == sense
                    &&& final(t).pending() == old(t).pending()
                }
                &&& rejection(s, r) is None && s == TransportState::DataTransferNoData ==> {
                    &&& final(t).status() == Some(CommandStatus::Passed)
                    &&& final(self).sense() == old(self).sense()
                }
                &&& rejection(s, r) is None && resp is Some ==> {
                    &&& final(t).status() == Some(CommandStatus::Passed)
                    &&& final(t).pending() == old(t).pending() + resp->Some_0.subrange(
                        0,
                        queued_len(*old(t), resp->Some_0.len()),
                    )
                    &&& final(self).sense() == if r->Ok_0 is RequestSense {
                        RequestSenseResponse::no_sense()
                    } else {
                        old(self).sense()
                    }
                }
                &&& r matches Ok(ScsiCommand::Read { lba, transfer_length }) ==> (s
                    == TransportState::DataTransferToHost ==> read_outcome(
                    *old(t),
                    *final(t),
                    *old(bd),
                    old(self).sense(),
                    final(self).sense(),
                    lba,
                    transfer_length as int,
                    start_block(old(self).progress(old(t).spec_command_id()), transfer_length),
                    final(self).progress(old(t).spec_command_id()) as int,
                ))
                &&& r matches Ok(ScsiCommand::Write { lba, transfer_length }) ==> (s
                    == TransportState::DataTransferFromHost ==> {
                    let d0 = start_block(old(self).progress(old(t).spec_command_id()), transfer_length);
                    &&& write_outcome(
                        *old(t),
                        *final(t),
                        *old(bd),
                        *final(bd),
                        old(self).sense(),
                        final(self).sense(),
                        lba,
                        transfer_length as int,
                        d0,
                        final(self).progress(old(t).spec_command_id()) as int,
                    )
                    &&& d0 < transfer_length && old(t).pending().len() < old(bd).block_bytes_spec()
                        && old(t).cbw().data_transfer_len > 0 ==> *final(t) == *old(t)
                        && final(self).sense() == old(self).sense()
                })
            }),
    {
        let cb = match t.get_command() {
            Some(cb) => cb,
            None => {
                return;
            },
        };
        if t.has_status() {
            return;
        }
        let id = t.command_id();
        if self.progress_of != id {
            self.progress_of = id;
            self.blocks_done = 0;
        }
        let state = t.transport_state();
        let c = match parse_cb(cb.bytes.as_slice()) {
            Ok(c) => c,
            Err(e) => {
                self.set_sense_from_error(e);
                self.fail(t);
                return;
            },
        };
        if state == TransportState::DataTransferNoData {
            match c {
                ScsiCommand::TestUnitReady | ScsiCommand::PreventAllowMediumRemoval
                | ScsiCommand::StartStopUnit => {
                    t.set_status(CommandStatus::Passed);
                },
                _ => {
                    self.set_sense_invalid_dir();
                    self.fail(t);
                },
            }
        } else if state == TransportState::DataTransferFromHost {
            match c {
                ScsiCommand::Write { lba, transfer_length } => {
                    if self.blocks_done > transfer_length {
                        self.blocks_done = 0;
                    }
                    self.write_blocks(t, bd, lba, transfer_length);
                },
                _ => {
                    self.set_sense_invalid_dir();
                    self.fail(t);
                },
            }
        } else {
            match c {
                ScsiCommand::Read { lba, transfer_length } => {
                    if self.blocks_done > transfer_length {
                        self.blocks_done = 0;
                    }
                    self.read_blocks(t, bd, lba, transfer_length);
                },
                ScsiCommand::ReadCapacity10 => {
                    let count = bd.block_count();
                    let cap = ReadCapacity10Response {
                        max_lba: if count == 0 { 0 } else { count - 1 },
                        block_size: bd.block_bytes() as u32,
                    };
                    let payload = cap.as_bytes();
                    self.respond(t, payload.as_slice());
                },
                ScsiCommand::Inquiry { .. } => {
                    let payload = self.inquiry_response.as_bytes();
                    self.respond(t, payload.as_slice());
                },
                ScsiCommand::RequestSense { .. } => {
                    let payload = self.request_sense_response.as_bytes();
                    self.respond(t, payload.as_slice());
                    self.request_sense_response.reset_status();
                },
                ScsiCommand::ModeSense { length: CommandLength::C6, .. } => {
                    let payload = ModeParameterHeader6::new().as_bytes();
                    assert(payload@ =~= seq![3u8, 0, 0, 0]);
                    self.respond(t, payload.as_slice());
                },
                ScsiCommand::ModeSense { length: CommandLength::C10, .. } => {
                    let header = ModeParameterHeader10::new();
                    let payload = header.as_bytes();
                    assert((6u16 >> 8u16) as u8 == 0u8 && (6u16 & 0xff) as u8 == 6u8 && (0u16 >> 8u16) as u8 == 0u8 && (0u16 & 0xff) as u8 == 0u8) by (bit_vector);
                    assert(payload@ =~= seq![0u8, 6, 0, 0, 0, 0, 0, 0]);
                    self.respond(t, payload.as_slice());
                },
                ScsiCommand::ReadFormatCapacities { .. } => {
                    let payload = read_format_capacities(bd.block_count(), bd.block_bytes() as u32);
                    self.respond(t, payload.as_slice());
                },
                _ => {
                    self.set_sense_invalid_dir();
                    self.fail(t);
                },
            }
        }
    }
}

} // verus!
