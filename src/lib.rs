//! A USB Mass Storage device: the Bulk-Only Transport and the SCSI command set on top of it,
//! serving an abstract block device.
//!
//! Bytes from the host's OUT endpoint go to [`bulk_only::BulkOnly`], which frames them into
//! command block wrappers ([`cbw`]); [`handler::BulkHandler`] decodes each command block
//! ([`command`]), runs it against a [`block_device::BlockDevice`] or answers it from a fixed
//! layout ([`responses`], [`mode_parameter`], [`sense`]), and the transport closes every
//! command with a command status wrapper ([`csw`]). No part of the library performs I/O: the
//! caller moves packets between the endpoints and the transport.
use vstd::prelude::*;

pub mod block_device;
pub mod buffer;
pub mod bulk_only;
pub mod cbw;
pub mod command;
pub mod csw;
pub mod handler;
pub mod mode_parameter;
pub mod partition;
pub mod responses;
pub mod sense;
pub mod storage;
pub mod wire;

verus! {

} // verus!
