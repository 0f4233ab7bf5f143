//! The Bulk-Only Transport: command, data and status phases over two bulk endpoints.
//!
//! The engine does no I/O. Its driver reads packets from the OUT endpoint and hands them to
//! [`BulkOnly::read`], sends what [`BulkOnly::write`] returns to the IN endpoint, stalls the
//! endpoints it names, and calls [`BulkOnly::reset`] when the host resets the interface.
use vstd::prelude::*;

use crate::buffer::Buffer;
use crate::cbw::{decodes_to, has_cbw_signature, CommandBlockWrapper, DataDirection, CBW_LEN};
use crate::csw::{build_csw, csw_encoded, csw_residue, csw_tag, lemma_csw_fields, CommandStatus, CSW_LEN};

verus! {

/// Errors of the transport.
#[derive(Debug, Copy, Clone, PartialEq, Eq, Structural)]
pub enum BulkOnlyError {
    /// Not enough space to fit additional data.
    IoBufferOverflow,
    /// The max LUN is above 15.
    InvalidMaxLun,
    /// The transport is not in a state that allows the operation.
    InvalidState,
    /// A full packet must be sent next but not enough data is buffered.
    FullPacketExpected,
    /// The buffer cannot hold a CBW or a full packet.
    BufferTooSmall,
}

/// Phase of the transport.
#[derive(Debug, Copy, Clone, PartialEq, Eq, Structural)]
pub enum TransportState {
    /// No command in progress.
    Idle,
    /// Part of a CBW has arrived.
    CommandTransfer,
    /// Sending the data of a command to the host.
    DataTransferToHost,
    /// Receiving the data of a command from the host.
    DataTransferFromHost,
    /// A command without data phase.
    DataTransferNoData,
    /// The host reset the interface; the command in progress is abandoned.
    Reset,
}

/// Endpoints that the driver must stall.
#[derive(Debug, Copy, Clone, PartialEq, Eq, Structural)]
pub enum Stall {
    Neither,
    In,
    Out,
    Both,
}

/// What the driver must do after [`BulkOnly::write`]: send `packet` (if not empty), then
/// stall the endpoints named by `stall`.
pub struct Transmit {
    pub stall: Stall,
    pub packet: Vec<u8>,
}

/// The command block of the command in progress and its logical unit.
pub struct CommandBlock {
    pub bytes: Vec<u8>,
    pub lun: u8,
}

pub open spec fn is_data_state(s: TransportState) -> bool {
    s == TransportState::DataTransferToHost || s == TransportState::DataTransferFromHost || s
        == TransportState::DataTransferNoData
}

pub open spec fn is_command_state(s: TransportState) -> bool {
    s == TransportState::Idle || s == TransportState::CommandTransfer
}

/// The data state a command of this direction runs in.
pub open spec fn data_state_for(d: DataDirection) -> TransportState {
    match d {
        DataDirection::Out => TransportState::DataTransferFromHost,
        DataDirection::In => TransportState::DataTransferToHost,
        DataDirection::NotExpected => TransportState::DataTransferNoData,
    }
}

/// Bytes expected but not moved: never below zero.
pub open spec fn residue_of(expected: u32, transferred: nat) -> u32 {
    if transferred <= expected {
        (expected - transferred) as u32
    } else {
        0
    }
}

/// `p` is what is left of `s` once some of its first bytes are gone.
pub open spec fn is_suffix(p: Seq<u8>, s: Seq<u8>) -> bool {
    p.len() <= s.len() && p == s.subrange(s.len() - p.len(), s.len() as int)
}

/// The CBW held while no command is in progress: all fields zero, no command block.
fn no_command() -> (r: CommandBlockWrapper) {
    CommandBlockWrapper {
        tag: 0,
        data_transfer_len: 0,
        direction: DataDirection::NotExpected,
        lun: 0,
        block_len: 0,
        block: [0u8; 16],
    }
}

/// The Bulk-Only Transport engine.
pub struct BulkOnly {
    state: TransportState,
    buf: Buffer,
    cbw: CommandBlockWrapper,
    cs: Option<CommandStatus>,
    packet_size: usize,
    max_lun: u8,
    sending_status: bool,
    command_id: u64,
    expected: Ghost<u32>,
    transferred: Ghost<nat>,
}

impl BulkOnly {
    pub closed spec fn state(&self) -> TransportState {
        self.state
    }

    /// Bytes buffered: received and not yet consumed, or to be sent.
    pub closed spec fn pending(&self) -> Seq<u8> {
        self.buf.pending()
    }

    pub closed spec fn capacity(&self) -> nat {
        self.buf.spec_capacity()
    }

    /// The CBW of the command in progress; its `data_transfer_len` is the running residue.
    pub closed spec fn cbw(&self) -> CommandBlockWrapper {
        self.cbw
    }

    pub closed spec fn status(&self) -> Option<CommandStatus> {
        self.cs
    }

    pub closed spec fn spec_packet_size(&self) -> nat {
        self.packet_size as nat
    }

    pub closed spec fn spec_max_lun(&self) -> u8 {
        self.max_lun
    }

    /// The CSW has been put in the buffer: the status phase is under way.
    pub closed spec fn sending_status(&self) -> bool {
        self.sending_status
    }

    /// The transfer length that the CBW of the command in progress announced.
    pub closed spec fn expected(&self) -> u32 {
        self.expected@
    }

    /// Counts the commands started; tells one command from the next.
    pub closed spec fn spec_command_id(&self) -> u64 {
        self.command_id
    }

    /// Bytes of the data phase moved so far.
    pub closed spec fn transferred(&self) -> nat {
        self.transferred@
    }

    /// Sizes and limits fixed at construction.
    pub open spec fn sizes_wf(&self) -> bool {
        &&& self.spec_packet_size() > 0
        &&& self.capacity() >= CBW_LEN
        &&& self.capacity() >= self.spec_packet_size()
        &&& self.pending().len() <= self.capacity()
        &&& self.spec_max_lun() <= 15
    }

    pub open spec fn wf(&self) -> bool {
        &&& self.sizes_wf()
        &&& is_command_state(self.state()) ==> {
            &&& self.pending().len() < CBW_LEN
            &&& !self.sending_status()
            &&& self.status() is None
        }
        &&& is_data_state(self.state()) ==> {
            &&& 1 <= self.cbw().block_len <= 16
            &&& self.cbw().data_transfer_len == residue_of(self.expected(), self.transferred())
        }
        &&& self.state() == TransportState::DataTransferNoData ==> self.expected() == 0
        &&& self.state() == TransportState::DataTransferToHost && !self.sending_status()
            ==> self.pending().len() <= self.cbw().data_transfer_len
        &&& self.sending_status() ==> {
            &&& is_data_state(self.state()) || self.state() == TransportState::Reset
            &&& self.status() is Some
            &&& is_suffix(
                self.pending(),
                csw_encoded(self.cbw().tag, self.cbw().data_transfer_len, self.status()->Some_0),
            )
        }
    }

    /// A transport with an I/O buffer of `capacity` bytes, for endpoints of `packet_size`
    /// bytes, answering Get Max LUN with `max_lun`.
    pub fn new(capacity: usize, packet_size: usize, max_lun: u8) -> (r: Result<Self, BulkOnlyError>)
        requires
            packet_size > 0,
        ensures
            max_lun > 15 ==> r == Err::<Self, BulkOnlyError>(BulkOnlyError::InvalidMaxLun),
            max_lun <= 15 && (capacity < CBW_LEN || capacity < packet_size) ==> r == Err::<
                Self,
                BulkOnlyError,
            >(BulkOnlyError::BufferTooSmall),
            max_lun <= 15 && capacity >= CBW_LEN && capacity >= packet_size ==> r is Ok,
            r matches Ok(t) ==> {
                &&& t.wf()
                &&& t.state() == TransportState::Idle
                &&& t.pending() == Seq::<u8>::empty()
                &&& t.capacity() == capacity
                &&& t.spec_packet_size() == packet_size
                &&& t.spec_max_lun() == max_lun
            },
    {
        if max_lun > 15 {
            return Err(BulkOnlyError::InvalidMaxLun);
        }
        if capacity < CBW_LEN || capacity < packet_size {
            return Err(BulkOnlyError::BufferTooSmall);
        }
        Ok(BulkOnly {
            state: TransportState::Idle,
            buf: Buffer::new(capacity),
            cbw: no_command(),
            cs: None,
            packet_size,
            max_lun,
            sending_status: false,
            command_id: 0,
            expected: Ghost(0),
            transferred: Ghost(0),
        })
    }

    pub fn transport_state(&self) -> (r: TransportState)
        ensures
            r == self.state(),
    {
        self.state
    }

    /// Counts the commands started, wrapping; tells one command from the next.
    pub fn command_id(&self) -> (r: u64)
        ensures
            r == self.spec_command_id(),
    {
        self.command_id
    }

    pub fn packet_size(&self) -> (r: usize)
        ensures
            r == self.spec_packet_size(),
    {
        self.packet_size
    }

    /// The answer to Get Max LUN.
    pub fn max_lun(&self) -> (r: u8)
        ensures
            r == self.spec_max_lun(),
    {
        self.max_lun
    }

    /// Bytes the data phase has still to move.
    pub fn data_residue(&self) -> (r: u32)
        ensures
            r == self.cbw().data_transfer_len,
    {
        self.cbw.data_transfer_len
    }

    /// Bytes buffered.
    pub fn available_read(&self) -> (r: usize)
        ensures
            r == self.pending().len(),
    {
        self.buf.available_read()
    }

    /// Room left in the buffer.
    pub fn available_write(&self) -> (r: usize)
        requires
            self.wf(),
        ensures
            r == self.capacity() - self.pending().len(),
    {
        self.buf.available_write()
    }

    /// Whether a command status has been set.
    pub fn has_status(&self) -> (r: bool)
        ensures
            r == self.status() is Some,
    {
        self.cs.is_some()
    }

    /// Discards the command in progress.
    fn enter_idle(&mut self)
        requires
            old(self).sizes_wf(),
        ensures
            final(self).wf(),
            final(self).state() == TransportState::Idle,
            final(self).pending() == Seq::<u8>::empty(),
            final(self).capacity() == old(self).capacity(),
            final(self).spec_packet_size() == old(self).spec_packet_size(),
            final(self).spec_max_lun() == old(self).spec_max_lun(),
    {
        self.state = TransportState::Idle;
        self.buf.clean();
        self.cbw = no_command();
        self.cs = None;
        self.sending_status = false;
        self.expected = Ghost(0);
        self.transferred = Ghost(0);
    }

    /// Starts the data phase of a freshly decoded command.
    fn start_data_transfer(&mut self, cbw: CommandBlockWrapper)
        requires
            old(self).sizes_wf(),
            cbw.wf(),
        ensures
            final(self).wf(),
            final(self).state() == data_state_for(cbw.direction),
            final(self).cbw() == cbw,
            final(self).status() is None,
            !final(self).sending_status(),
            final(self).pending() == Seq::<u8>::empty(),
            final(self).expected() == cbw.data_transfer_len,
            final(self).transferred() == 0,
            final(self).capacity() == old(self).capacity(),
            final(self).spec_packet_size() == old(self).spec_packet_size(),
            final(self).spec_max_lun() == old(self).spec_max_lun(),
    {
        self.state = match cbw.direction {
            DataDirection::Out => TransportState::DataTransferFromHost,
            DataDirection::In => TransportState::DataTransferToHost,
            DataDirection::NotExpected => TransportState::DataTransferNoData,
        };
        self.buf.clean();
        self.command_id = self.command_id.wrapping_add(1);
        self.cbw = cbw;
        self.cs = None;
        self.sending_status = false;
        self.expected = Ghost(cbw.data_transfer_len);
        self.transferred = Ghost(0);
    }

    /// How many bytes the driver may read from the OUT endpoint now; 0 when the transport
    /// takes nothing from the host.
    pub fn read_limit(&self) -> (r: usize)
        requires
            self.wf(),
        ensures
            r <= self.spec_packet_size(),
            (is_command_state(self.state()) || self.state() == TransportState::Reset) ==> r > 0,
            self.state() == TransportState::DataTransferFromHost ==> (r > 0 <==> (
            self.status() is None && !self.sending_status() && self.cbw().data_transfer_len > 0
                && self.capacity() - self.pending().len() >= self.spec_packet_size())),
            !is_command_state(self.state()) && self.state() != TransportState::Reset
                && self.state() != TransportState::DataTransferFromHost ==> r == 0,
            r > 0 && is_command_state(self.state()) ==> r <= self.capacity() - self.pending().len(),
    {
        match self.state {
            TransportState::Reset => self.packet_size,
            TransportState::Idle | TransportState::CommandTransfer => {
                let room = self.buf.available_write();
                if room < self.packet_size {
                    room
                } else {
                    self.packet_size
                }
            },
            TransportState::DataTransferFromHost => {
                if self.cs.is_none() && !self.sending_status && self.cbw.data_transfer_len > 0
                    && self.buf.available_write() >= self.packet_size {
                    self.packet_size
                } else {
                    0
                }
            },
            _ => 0,
        }
    }

    /// Takes a packet that the driver read from the OUT endpoint.
    ///
    /// While no command is in progress the bytes go towards a CBW; once 31 are buffered they
    /// are decoded, and a valid CBW starts the data phase its direction names, while an
    /// invalid one asks for both endpoints to be stalled. During a data phase from the host
    /// the bytes are buffered for the command and counted against the residue.
    pub fn read(&mut self, packet: &[u8]) -> (r: Result<Stall, BulkOnlyError>)
        requires
            old(self).wf(),
        ensures
            final(self).wf(),
            final(self).capacity() == old(self).capacity(),
            final(self).spec_packet_size() == old(self).spec_packet_size(),
            final(self).spec_max_lun() == old(self).spec_max_lun(),
            is_command_state(old(self).state()) || old(self).state() == TransportState::Reset
                ==> ({
                let base = if old(self).state() == TransportState::Reset {
                    Seq::<u8>::empty()
                } else {
                    old(self).pending()
                };
                let acc = base + packet@;
                let raw = acc.subrange(0, CBW_LEN as int);
                &&& packet@.len() > old(self).capacity() - base.len() ==> {
                    &&& r == Err::<Stall, BulkOnlyError>(BulkOnlyError::IoBufferOverflow)
                    &&& is_command_state(final(self).state())
                    &&& final(self).pending() == base
                }
                &&& packet@.len() <= old(self).capacity() - base.len() && acc.len() < CBW_LEN ==> {
                    &&& r == Ok::<Stall, BulkOnlyError>(Stall::Neither)
                    &&& final(self).state() == TransportState::CommandTransfer
                    &&& final(self).pending() == acc
                }
                &&& packet@.len() <= old(self).capacity() - base.len() && acc.len() >= CBW_LEN
                    && has_cbw_signature(raw) && 1 <= raw[14] <= 16 ==> {
                    &&& r == Ok::<Stall, BulkOnlyError>(Stall::Neither)
                    &&& decodes_to(raw, final(self).cbw())
                    &&& final(self).state() == data_state_for(final(self).cbw().direction)
                    &&& final(self).status() is None
                    &&& !final(self).sending_status()
                    &&& final(self).pending() == Seq::<u8>::empty()
                    &&& final(self).expected() == final(self).cbw().data_transfer_len
                    &&& final(self).transferred() == 0
                }
                &&& packet@.len() <= old(self).capacity() - base.len() && acc.len() >= CBW_LEN
                    && !(has_cbw_signature(raw) && 1 <= raw[14] <= 16) ==> {
                    &&& r == Ok::<Stall, BulkOnlyError>(Stall::Both)
                    &&& final(self).state() == TransportState::Idle
                    &&& final(self).pending() == Seq::<u8>::empty()
                }
            }),
            old(self).state() == TransportState::DataTransferFromHost ==> ({
                let n = packet@.len();
                let accepts = old(self).status() is None && !old(self).sending_status()
                    && old(self).cbw().data_transfer_len > 0;
                &&& !accepts ==> r == Err::<Stall, BulkOnlyError>(BulkOnlyError::InvalidState)
                    && *final(self) == *old(self)
                &&& accepts && n > old(self).capacity() - old(self).pending().len() ==> r == Err::<
                    Stall,
                    BulkOnlyError,
                >(BulkOnlyError::IoBufferOverflow) && *final(self) == *old(self)
                &&& accepts && n <= old(self).capacity() - old(self).pending().len() ==> {
                    &&& r == Ok::<Stall, BulkOnlyError>(Stall::Neither)
                    &&& final(self).state() == TransportState::DataTransferFromHost
                    &&& final(self).pending() == old(self).pending() + packet@
                    &&& final(self).transferred() == old(self).transferred() + n
                    &&& final(self).expected() == old(self).expected()
                    &&& final(self).cbw() == (CommandBlockWrapper {
                        data_transfer_len: residue_of(
                            old(self).expected(),
                            old(self).transferred() + n,
                        ),
                        ..old(self).cbw()
                    })
                    &&& final(self).status() is None
                    &&& !final(self).sending_status()
                }
            }),
            !is_command_state(old(self).state()) && old(self).state() != TransportState::Reset
                && old(self).state() != TransportState::DataTransferFromHost ==> r == Err::<
                Stall,
                BulkOnlyError,
            >(BulkOnlyError::InvalidState) && *final(self) == *old(self),
    {
        if self.state == TransportState::Reset {
            self.enter_idle();
        }
        match self.state {
            TransportState::Idle | TransportState::CommandTransfer => {
                if packet.len() > self.buf.available_write() {
                    return Err(BulkOnlyError::IoBufferOverflow);
                }
                let ghost base = self.buf.pending();
                self.buf.write(packet);
                assert(packet@.subrange(0, packet@.len() as int) =~= packet@);
                let ghost acc = self.buf.pending();
                assert(acc == base + packet@);
                if self.buf.available_read() < CBW_LEN {
                    self.state = TransportState::CommandTransfer;
                    return Ok(Stall::Neither);
                }
                let raw = self.buf.read(CBW_LEN);
                assert(raw@ == acc.subrange(0, CBW_LEN as int));
                match CommandBlockWrapper::from_le_bytes(raw.as_slice()) {
                    Ok(cbw) => {
                        assert(decodes_to(acc.subrange(0, CBW_LEN as int), cbw));
                        self.start_data_transfer(cbw);
                        Ok(Stall::Neither)
                    },
                    Err(_) => {
                        self.enter_idle();
                        Ok(Stall::Both)
                    },
                }
            },
            TransportState::DataTransferFromHost => {
                if self.cs.is_some() || self.sending_status || self.cbw.data_transfer_len == 0 {
                    return Err(BulkOnlyError::InvalidState);
                }
                if packet.len() > self.buf.available_write() {
                    return Err(BulkOnlyError::IoBufferOverflow);
                }
                self.buf.write(packet);
                let n = packet.len();
                self.cbw.data_transfer_len = if n as u64 >= self.cbw.data_transfer_len as u64 {
                    0
                } else {
                    self.cbw.data_transfer_len - n as u32
                };
                self.transferred = Ghost((self.transferred@ + n) as nat);
                Ok(Stall::Neither)
            },
            _ => Err(BulkOnlyError::InvalidState),
        }
    }

    /// Produces the next packet for the IN endpoint, and the endpoints to stall after it.
    ///
    /// During a data phase to the host, a packet shorter than the endpoint's packet size goes
    /// out only when no full packet is owed: when the status is set or fewer bytes than a
    /// packet remain expected. Once the status is set and the data phase is drained, the CSW is
    /// queued (after a stall of the data endpoint if a residue remains) and goes out in the
    /// following calls; the transport is idle again when its last byte has been handed over.
    pub fn write(&mut self) -> (r: Result<Transmit, BulkOnlyError>)
        requires
            old(self).wf(),
        ensures
            final(self).wf(),
            final(self).capacity() == old(self).capacity(),
            final(self).spec_packet_size() == old(self).spec_packet_size(),
            final(self).spec_max_lun() == old(self).spec_max_lun(),
            old(self).state() == TransportState::Reset ==> {
                &&& r matches Ok(t) && t.stall == Stall::Neither && t.packet@.len() == 0
                &&& final(self).state() == TransportState::Idle
                &&& final(self).pending() == Seq::<u8>::empty()
            },
            is_command_state(old(self).state()) ==> (r matches Ok(t) && t.stall == Stall::Neither
                && t.packet@.len() == 0) && *final(self) == *old(self),
            is_data_state(old(self).state()) && old(self).sending_status() ==> ({
                let k = if old(self).spec_packet_size() <= old(self).pending().len() {
                    old(self).spec_packet_size() as int
                } else {
                    old(self).pending().len() as int
                };
                &&& r matches Ok(t) && t.stall == Stall::Neither && t.packet@
                    == old(self).pending().subrange(0, k)
                &&& k == old(self).pending().len() ==> final(self).state() == TransportState::Idle
                    && final(self).pending() == Seq::<u8>::empty()
                &&& k < old(self).pending().len() ==> {
                    &&& final(self).state() == old(self).state()
                    &&& final(self).sending_status()
                    &&& final(self).pending() == old(self).pending().subrange(
                        k,
                        old(self).pending().len() as int,
                    )
                    &&& final(self).cbw() == old(self).cbw()
                    &&& final(self).status() == old(self).status()
                }
            }),
            is_data_state(old(self).state()) && !old(self).sending_status() ==> ({
                let to_host = old(self).state() == TransportState::DataTransferToHost;
                let full_expected = to_host && old(self).cbw().data_transfer_len
                    >= old(self).spec_packet_size() && old(self).status() is None;
                let full_available = old(self).pending().len() >= old(self).spec_packet_size();
                let k = if !to_host {
                    0
                } else if old(self).spec_packet_size() <= old(self).pending().len() {
                    old(self).spec_packet_size() as int
                } else {
                    old(self).pending().len() as int
                };
                let ends = old(self).status() is Some && (!to_host || k
                    == old(self).pending().len());
                &&& full_expected && !full_available ==> r == Err::<Transmit, BulkOnlyError>(
                    BulkOnlyError::FullPacketExpected,
                ) && *final(self) == *old(self)
                &&& !(full_expected && !full_available) ==> {
                    &&& r is Ok
                    &&& r->Ok_0.packet@ == old(self).pending().subrange(0, k)
                    &&& final(self).state() == old(self).state()
                    &&& final(self).status() == old(self).status()
                    &&& final(self).expected() == old(self).expected()
                    &&& final(self).transferred() == old(self).transferred() + k
                    &&& final(self).cbw() == (CommandBlockWrapper {
                        data_transfer_len: residue_of(
                            old(self).expected(),
                            (old(self).transferred() + k) as nat,
                        ),
                        ..old(self).cbw()
                    })
                    &&& ends ==> {
                        &&& final(self).sending_status()
                        &&& final(self).pending() == csw_encoded(
                            old(self).cbw().tag,
                            final(self).cbw().data_transfer_len,
                            old(self).status()->Some_0,
                        )
                        &&& r->Ok_0.stall == if final(self).cbw().data_transfer_len == 0 {
                            Stall::Neither
                        } else if to_host {
                            Stall::In
                        } else if old(self).state() == TransportState::DataTransferFromHost {
                            Stall::Out
                        } else {
                            Stall::Neither
                        }
                    }
                    &&& !ends ==> {
                        &&& !final(self).sending_status()
                        &&& r->Ok_0.stall == Stall::Neither
                        &&& final(self).pending() == old(self).pending().subrange(
                            k,
                            old(self).pending().len() as int,
                        )
                    }
                }
            }),
    {
        if self.state == TransportState::Reset {
            self.enter_idle();
            return Ok(Transmit { stall: Stall::Neither, packet: Vec::new() });
        }
        if self.state == TransportState::Idle || self.state == TransportState::CommandTransfer {
            return Ok(Transmit { stall: Stall::Neither, packet: Vec::new() });
        }
        if self.sending_status {
            let ghost p = self.buf.pending();
            let ghost csw = csw_encoded(self.cbw.tag, self.cbw.data_transfer_len, self.cs->Some_0);
            let packet = self.buf.read(self.packet_size);
            if self.buf.available_read() == 0 {
                self.enter_idle();
            } else {
                assert(self.buf.pending() =~= csw.subrange(
                    csw.len() - self.buf.pending().len(),
                    csw.len() as int,
                ));
            }
            return Ok(Transmit { stall: Stall::Neither, packet });
        }
        let to_host = self.state == TransportState::DataTransferToHost;
        let mut packet: Vec<u8> = Vec::new();
        if to_host {
            let full_expected = self.cbw.data_transfer_len as u64 >= self.packet_size as u64
                && self.cs.is_none();
            let full_available = self.buf.available_read() >= self.packet_size;
            if full_expected && !full_available {
                return Err(BulkOnlyError::FullPacketExpected);
            }
            packet = self.buf.read(self.packet_size);
            let n = packet.len();
            self.cbw.data_transfer_len = self.cbw.data_transfer_len - n as u32;
            self.transferred = Ghost((self.transferred@ + n) as nat);
        } else {
            assert(self.buf.pending().subrange(0, self.buf.pending().len() as int) =~= self.buf.pending());
            assert(self.buf.pending().subrange(0, 0) =~= packet@);
        }
        let mut stall = Stall::Neither;
        match self.cs {
            Some(status) => {
                if !to_host || self.buf.available_read() == 0 {
                    if self.cbw.data_transfer_len > 0 {
                        stall = if to_host {
                            Stall::In
                        } else if self.state == TransportState::DataTransferFromHost {
                            Stall::Out
                        } else {
                            Stall::Neither
                        };
                    }
                    let csw = build_csw(&self.cbw, status);
                    self.buf.clean();
                    self.buf.write(csw.as_slice());
                    assert(csw@.subrange(0, CSW_LEN as int) =~= csw@);
                    assert(self.buf.pending() =~= csw@);
                    assert(csw@.subrange(0, csw@.len() as int) =~= csw@);
                    self.sending_status = true;
                }
            },
            None => {},
        }
        Ok(Transmit { stall, packet })
    }

    /// Sets the outcome of the command in progress. The CSW goes out once the data phase is
    /// drained.
    pub fn set_status(&mut self, status: CommandStatus)
        requires
            old(self).wf(),
            is_data_state(old(self).state()),
            !old(self).sending_status(),
        ensures
            final(self).wf(),
            final(self).status() == Some(status),
            final(self).state() == old(self).state(),
            final(self).pending() == old(self).pending(),
            final(self).cbw() == old(self).cbw(),
            !final(self).sending_status(),
            final(self).capacity() == old(self).capacity(),
            final(self).spec_packet_size() == old(self).spec_packet_size(),
            final(self).spec_max_lun() == old(self).spec_max_lun(),
            final(self).spec_command_id() == old(self).spec_command_id(),
            final(self).expected() == old(self).expected(),
            final(self).transferred() == old(self).transferred(),
    {
        self.cs = Some(status);
    }

    /// The command block of the command in progress, if any.
    pub fn get_command(&self) -> (r: Option<CommandBlock>)
        requires
            self.wf(),
        ensures
            r is Some <==> is_data_state(self.state()),
            r matches Some(cb) ==> cb.bytes@ == self.cbw().command_bytes() && cb.lun
                == self.cbw().lun,
    {
        if self.state == TransportState::DataTransferToHost || self.state
            == TransportState::DataTransferFromHost || self.state
            == TransportState::DataTransferNoData {
            let mut bytes: Vec<u8> = Vec::new();
            let mut i: usize = 0;
            while i < self.cbw.block_len
                invariant
                    1 <= self.cbw.block_len <= 16,
                    i <= self.cbw.block_len,
                    bytes@ == self.cbw.block@.subrange(0, i as int),
                decreases self.cbw.block_len - i,
            {
                bytes.push(self.cbw.block[i]);
                i += 1;
                assert(bytes@ =~= self.cbw.block@.subrange(0, i as int));
            }
            Some(CommandBlock { bytes, lun: self.cbw.lun })
        } else {
            None
        }
    }

    /// Takes up to `max` bytes that the host sent in the data phase.
    pub fn read_data(&mut self, max: usize) -> (r: Result<Vec<u8>, BulkOnlyError>)
        requires
            old(self).wf(),
        ensures
            final(self).wf(),
            old(self).state() != TransportState::DataTransferFromHost || old(self).sending_status()
                ==> r == Err::<Vec<u8>, BulkOnlyError>(BulkOnlyError::InvalidState) && *final(self)
                == *old(self),
            old(self).state() == TransportState::DataTransferFromHost && !old(self).sending_status()
                ==> ({
                let k = if max <= old(self).pending().len() {
                    max as int
                } else {
                    old(self).pending().len() as int
                };
                &&& r matches Ok(d) && d@ == old(self).pending().subrange(0, k)
                &&& final(self).pending() == old(self).pending().subrange(
                    k,
                    old(self).pending().len() as int,
                )
                &&& final(self).state() == old(self).state()
                &&& final(self).cbw() == old(self).cbw()
                &&& final(self).status() == old(self).status()
                &&& !final(self).sending_status()
                &&& final(self).expected() == old(self).expected()
                &&& final(self).transferred() == old(self).transferred()
            }),
            final(self).capacity() == old(self).capacity(),
            final(self).spec_packet_size() == old(self).spec_packet_size(),
            final(self).spec_max_lun() == old(self).spec_max_lun(),
            final(self).spec_command_id() == old(self).spec_command_id(),
    {
        if self.state != TransportState::DataTransferFromHost || self.sending_status {
            return Err(BulkOnlyError::InvalidState);
        }
        Ok(self.buf.read(max))
    }

    /// Queues bytes for the host during the data phase; takes no more than the host still
    /// expects and the buffer holds, and returns how many it took.
    pub fn write_data(&mut self, src: &[u8]) -> (r: Result<usize, BulkOnlyError>)
        requires
            old(self).wf(),
        ensures
            final(self).wf(),
            old(self).state() != TransportState::DataTransferToHost || old(self).sending_status()
                || old(self).status() is Some ==> r == Err::<usize, BulkOnlyError>(
                BulkOnlyError::InvalidState,
            ) && *final(self) == *old(self),
            old(self).state() == TransportState::DataTransferToHost && !old(self).sending_status()
                && old(self).status() is None ==> ({
                let owed = old(self).cbw().data_transfer_len - old(self).pending().len();
                let room = old(self).capacity() - old(self).pending().len();
                let k = if src@.len() <= owed && src@.len() <= room {
                    src@.len() as int
                } else if owed <= room {
                    owed
                } else {
                    room
                };
                &&& r == Ok::<usize, BulkOnlyError>(k as usize)
                &&& final(self).pending() == old(self).pending() + src@.subrange(0, k)
                &&& final(self).state() == old(self).state()
                &&& final(self).cbw() == old(self).cbw()
                &&& final(self).status() is None
                &&& !final(self).sending_status()
                &&& final(self).expected() == old(self).expected()
                &&& final(self).transferred() == old(self).transferred()
            }),
            final(self).capacity() == old(self).capacity(),
            final(self).spec_packet_size() == old(self).spec_packet_size(),
            final(self).spec_max_lun() == old(self).spec_max_lun(),
            final(self).spec_command_id() == old(self).spec_command_id(),
    {
        if self.state != TransportState::DataTransferToHost || self.sending_status
            || self.cs.is_some() {
            return Err(BulkOnlyError::InvalidState);
        }
        let owed = self.cbw.data_transfer_len as usize - self.buf.available_read();
        let n = if src.len() <= owed { src.len() } else { owed };
        let k = self.buf.write(vstd::slice::slice_subrange(src, 0, n));
        assert(src@.subrange(0, n as int).subrange(0, k as int) =~= src@.subrange(0, k as int));
        Ok(k)
    }

    /// Queues all of `src` for the host, or nothing: fails with `IoBufferOverflow` when the
    /// buffer cannot take it whole.
    pub fn try_write_data_all(&mut self, src: &[u8]) -> (r: Result<(), BulkOnlyError>)
        requires
            old(self).wf(),
        ensures
            final(self).wf(),
            old(self).state() != TransportState::DataTransferToHost || old(self).sending_status()
                || old(self).status() is Some ==> r == Err::<(), BulkOnlyError>(
                BulkOnlyError::InvalidState,
            ) && *final(self) == *old(self),
            old(self).state() == TransportState::DataTransferToHost && !old(self).sending_status()
                && old(self).status() is None ==> ({
                let fits = old(self).pending().len() + src@.len() <= old(self).cbw().data_transfer_len
                    && old(self).pending().len() + src@.len() <= old(self).capacity();
                &&& fits ==> r == Ok::<(), BulkOnlyError>(()) && final(self).pending()
                    == old(self).pending() + src@
                &&& !fits ==> r == Err::<(), BulkOnlyError>(BulkOnlyError::IoBufferOverflow)
                    && *final(self) == *old(self)
                &&& final(self).state() == old(self).state()
                &&& final(self).cbw() == old(self).cbw()
                &&& final(self).status() is None
                &&& !final(self).sending_status()
            }),
            final(self).capacity() == old(self).capacity(),
            final(self).spec_packet_size() == old(self).spec_packet_size(),
            final(self).spec_max_lun() == old(self).spec_max_lun(),
            final(self).spec_command_id() == old(self).spec_command_id(),
    {
        if self.state != TransportState::DataTransferToHost || self.sending_status
            || self.cs.is_some() {
            return Err(BulkOnlyError::InvalidState);
        }
        let owed = self.cbw.data_transfer_len as usize - self.buf.available_read();
        if src.len() > owed || src.len() > self.buf.available_write() {
            return Err(BulkOnlyError::IoBufferOverflow);
        }
        self.buf.write(src);
        assert(src@.subrange(0, src@.len() as int) =~= src@);
        Ok(())
    }

    /// The host reset the interface: the command in progress, if any, is abandoned without a
    /// CSW. Ignored while idle.
    pub fn reset(&mut self)
        requires
            old(self).wf(),
        ensures
            final(self).wf(),
            old(self).state() == TransportState::Idle ==> *final(self) == *old(self),
            old(self).state() != TransportState::Idle ==> final(self).state()
                == TransportState::Reset,
            final(self).capacity() == old(self).capacity(),
            final(self).spec_packet_size() == old(self).spec_packet_size(),
            final(self).spec_max_lun() == old(self).spec_max_lun(),
    {
        if self.state != TransportState::Idle {
            self.state = TransportState::Reset;
        }
    }
}

/// During a data phase, and while its status goes out, the running residue is the number of
/// bytes the CBW announced minus the bytes moved, and never below zero; once the status is
/// queued, what remains to be sent is the tail of the CSW that carries the command's own tag
/// and that residue.
pub proof fn lemma_status_reports_tag_and_residue(t: BulkOnly)
    requires
        t.wf(),
        is_data_state(t.state()),
    ensures
        t.cbw().data_transfer_len == residue_of(t.expected(), t.transferred()),
        t.transferred() <= t.expected() ==> t.cbw().data_transfer_len == t.expected()
            - t.transferred(),
        t.sending_status() ==> ({
            let csw = csw_encoded(
                t.cbw().tag,
                residue_of(t.expected(), t.transferred()),
                t.status()->Some_0,
            );
            &&& is_suffix(t.pending(), csw)
            &&& csw_tag(csw) == t.cbw().tag
            &&& csw_residue(csw) == residue_of(t.expected(), t.transferred())
        }),
{
    if t.sending_status() {
        lemma_csw_fields(t.cbw().tag, t.cbw().data_transfer_len, t.status()->Some_0);
    }
}

} // verus!
