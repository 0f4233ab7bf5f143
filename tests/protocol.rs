use pico_usb_mass_storage::block_device::BlockDevice;
use pico_usb_mass_storage::bulk_only::{BulkOnly, BulkOnlyError, Stall, TransportState};
use pico_usb_mass_storage::cbw::{CommandBlockWrapper, DataDirection, Error as CbwError};
use pico_usb_mass_storage::command::{parse_cb, CommandLength, Error, PageControl, ScsiCommand};
use pico_usb_mass_storage::csw::{build_csw, encode_csw, CommandStatus};
use pico_usb_mass_storage::handler::BulkHandler;
use pico_usb_mass_storage::sense::{AdditionalSenseCode, SenseKey};
use pico_usb_mass_storage::storage::Storage;

const PACKET: usize = 64;

fn cbw(tag: u32, len: u32, dir_in: bool, lun: u8, cb: &[u8]) -> Vec<u8> {
    let mut b = vec![0x55, 0x53, 0x42, 0x43];
    b.extend_from_slice(&tag.to_le_bytes());
    b.extend_from_slice(&len.to_le_bytes());
    b.push(if dir_in { 0x80 } else { 0x00 });
    b.push(lun);
    b.push(cb.len() as u8);
    let mut block = [0u8; 16];
    block[..cb.len()].copy_from_slice(cb);
    b.extend_from_slice(&block);
    b
}

fn csw(tag: u32, residue: u32, status: u8) -> Vec<u8> {
    let mut b = vec![0x55, 0x53, 0x42, 0x53];
    b.extend_from_slice(&tag.to_le_bytes());
    b.extend_from_slice(&residue.to_le_bytes());
    b.push(status);
    b
}

struct Device {
    t: BulkOnly,
    h: BulkHandler,
    dev: Storage,
}

impl Device {
    fn new() -> Device {
        Device {
            t: BulkOnly::new(1024, PACKET, 0).unwrap(),
            h: BulkHandler::new(b"CHRISP", b"100k of trunc", b"1.24"),
            dev: Storage::new(),
        }
    }

    /// Drives the engine the way the endpoint task does, until it is idle again or stuck.
    /// Returns every byte sent to the host and the stalls requested.
    fn pump(&mut self, data_out: &[u8]) -> (Vec<u8>, Vec<Stall>) {
        let mut sent = Vec::new();
        let mut stalls = Vec::new();
        let mut fed = 0;
        for _ in 0..10_000 {
            if self.t.transport_state() == TransportState::Idle {
                break;
            }
            if self.t.get_command().is_some() && !self.t.has_status() {
                self.h.process(&mut self.t, &mut self.dev);
            }
            let limit = self.t.read_limit();
            if self.t.transport_state() == TransportState::DataTransferFromHost && limit > 0 && fed < data_out.len() {
                let end = std::cmp::min(fed + limit, data_out.len());
                self.t.read(&data_out[fed..end]).unwrap();
                fed = end;
                continue;
            }
            match self.t.write() {
                Ok(tx) => {
                    if tx.stall != Stall::Neither {
                        stalls.push(tx.stall);
                    }
                    if tx.packet.is_empty() && self.t.get_command().is_some() && !self.t.has_status() {
                        let before = self.t.available_read();
                        self.h.process(&mut self.t, &mut self.dev);
                        if !self.t.has_status() && self.t.available_read() == before && fed >= data_out.len() {
                            break;
                        }
                    }
                    sent.extend_from_slice(&tx.packet);
                }
                Err(BulkOnlyError::FullPacketExpected) => {
                    self.h.process(&mut self.t, &mut self.dev);
                }
                Err(e) => panic!("unexpected transport error {:?}", e),
            }
        }
        (sent, stalls)
    }

    fn command(&mut self, wrapper: &[u8], data_out: &[u8]) -> (Vec<u8>, Vec<Stall>) {
        assert_eq!(self.t.read(wrapper), Ok(Stall::Neither));
        self.pump(data_out)
    }
}

#[test]
fn cbw_round_trip() {
    let c = CommandBlockWrapper {
        tag: 0xDEAD_BEEF,
        data_transfer_len: 512,
        direction: DataDirection::In,
        lun: 3,
        block_len: 10,
        block: [0x28, 0, 0, 0, 0, 7, 0, 0, 1, 0, 0, 0, 0, 0, 0, 0],
    };
    let bytes = c.to_le_bytes();
    let d = CommandBlockWrapper::from_le_bytes(&bytes).unwrap();
    assert_eq!(d.tag, c.tag);
    assert_eq!(d.data_transfer_len, c.data_transfer_len);
    assert_eq!(d.direction, c.direction);
    assert_eq!(d.lun, c.lun);
    assert_eq!(d.block_len, c.block_len);
    assert_eq!(d.block, c.block);
    assert_eq!(&bytes[..], &cbw(0xDEAD_BEEF, 512, true, 3, &[0x28, 0, 0, 0, 0, 7, 0, 0, 1, 0])[..]);
}

#[test]
fn cbw_decoding_fields_and_errors() {
    let b = cbw(7, 0, true, 0xF2, &[0]);
    let d = CommandBlockWrapper::from_le_bytes(&b).unwrap();
    assert_eq!(d.direction, DataDirection::NotExpected);
    assert_eq!(d.lun, 2);
    let b = cbw(7, 8, false, 0, &[0]);
    assert_eq!(CommandBlockWrapper::from_le_bytes(&b).unwrap().direction, DataDirection::Out);
    let mut bad = cbw(7, 8, true, 0, &[0]);
    bad[3] = 0x44;
    assert_eq!(CommandBlockWrapper::from_le_bytes(&bad).unwrap_err(), CbwError::InvalidSignature);
    let mut bad = cbw(7, 8, true, 0, &[0]);
    bad[14] = 0;
    assert_eq!(CommandBlockWrapper::from_le_bytes(&bad).unwrap_err(), CbwError::InvalidLength);
    bad[14] = 17;
    assert_eq!(CommandBlockWrapper::from_le_bytes(&bad).unwrap_err(), CbwError::InvalidLength);
}

#[test]
fn csw_encoding() {
    assert_eq!(encode_csw(0x0102_0304, 5, CommandStatus::Failed).to_vec(), csw(0x0102_0304, 5, 1));
    let c = CommandBlockWrapper::from_le_bytes(&cbw(99, 36, true, 0, &[0x12, 0, 0, 0, 36, 0])).unwrap();
    assert_eq!(build_csw(&c, CommandStatus::PhaseError).to_vec(), csw(99, 36, 2));
}

#[test]
fn read10_decodes_lba_and_length() {
    // Bytes 2..=5 hold the LBA big-endian, bytes 7..=8 the transfer length.
    let cmd = parse_cb(&[0x28, 0, 0, 0x1E, 0x80, 0, 0, 0, 0x08, 0, 0]).unwrap();
    assert_eq!(cmd, ScsiCommand::Read { lba: 0x001E_8000, transfer_length: 8 });
    let cmd = parse_cb(&[0x28, 0, 0, 0, 0x1E, 0x80, 0, 0, 0x08, 0]).unwrap();
    assert_eq!(cmd, ScsiCommand::Read { lba: 0x1E80, transfer_length: 8 });
}

#[test]
fn decoder_variants() {
    assert_eq!(parse_cb(&[0xFF, 0, 0, 0, 0, 0]), Ok(ScsiCommand::Unknown));
    assert_eq!(parse_cb(&[]), Err(Error::InsufficientDataForCommand));
    assert_eq!(parse_cb(&[0x28, 0, 0, 0]), Err(Error::InsufficientDataForCommand));
    assert_eq!(parse_cb(&[0x08, 0xE1, 0x02, 0x03, 0x00, 0]), Ok(ScsiCommand::Read { lba: 0x01_0203, transfer_length: 0 }));
    assert_eq!(parse_cb(&[0xAA, 0, 0, 0, 1, 0, 0, 0, 0, 2, 0, 0]), Ok(ScsiCommand::Write { lba: 0x100, transfer_length: 2 }));
    assert_eq!(
        parse_cb(&[0x12, 1, 0x80, 0x01, 0x02, 0]),
        Ok(ScsiCommand::Inquiry { evpd: true, page_code: 0x80, alloc_len: 0x0102 })
    );
    assert_eq!(
        parse_cb(&[0x1A, 0x08, 0x7F, 0x01, 0xC0, 0]),
        Ok(ScsiCommand::ModeSense {
            length: CommandLength::C6,
            page_control: PageControl::ChangeableValues,
            page_code: 0x3F,
            subpage_code: 1,
            alloc_len: 0xC0,
        })
    );
    assert_eq!(
        parse_cb(&[0x5A, 0, 0x88, 0, 0, 0, 0, 0x01, 0x00, 0]),
        Ok(ScsiCommand::ModeSense {
            length: CommandLength::C10,
            page_control: PageControl::DefaultValues,
            page_code: 0x08,
            subpage_code: 0,
            alloc_len: 0x100,
        })
    );
    assert_eq!(parse_cb(&[0x03, 1, 0, 0, 18, 0]), Ok(ScsiCommand::RequestSense { desc: true, alloc_len: 18 }));
    assert_eq!(
        parse_cb(&[0x9E, 0x10, 0, 0, 0, 0, 0, 0, 0, 0, 0, 0, 0, 0x20, 0, 0]),
        Ok(ScsiCommand::ReadCapacity16 { alloc_len: 0x20 })
    );
    assert_eq!(parse_cb(&[0x23, 0, 0, 0, 0, 0, 0, 0, 0xFC, 0]), Ok(ScsiCommand::ReadFormatCapacities { alloc_len: 0xFC }));
    assert_eq!(parse_cb(&[0x00, 0, 0, 0, 0, 0]), Ok(ScsiCommand::TestUnitReady));
    assert_eq!(parse_cb(&[0xA0, 0, 0, 0, 0, 0, 0, 0, 0, 0, 0, 0]), Ok(ScsiCommand::ReportLuns));
}

#[test]
fn inquiry_default_configuration() {
    let mut d = Device::new();
    let (sent, stalls) = d.command(&cbw(5, 36, true, 0, &[0x12, 0, 0, 0, 36, 0]), &[]);
    let mut expected = vec![0x00, 0x80, 0x04, 0x02, 0, 0, 0, 0];
    expected.extend_from_slice(b"CHRISP  ");
    expected.extend_from_slice(b"100k of trunc   ");
    expected.extend_from_slice(b"1.24");
    assert_eq!(expected.len(), 36);
    assert_eq!(&sent[..36], &expected[..]);
    assert_eq!(&sent[36..], &csw(5, 0, 0)[..]);
    assert!(stalls.is_empty());
    assert_eq!(d.t.transport_state(), TransportState::Idle);
}

#[test]
fn csw_echoes_tag_and_reports_residue() {
    let mut d = Device::new();
    // The host allows 100 bytes; the 36-byte answer leaves 64 untransferred.
    let (sent, stalls) = d.command(&cbw(0xAABB_CCDD, 100, true, 0, &[0x12, 0, 0, 0, 100, 0]), &[]);
    assert_eq!(sent.len(), 36 + 13);
    assert_eq!(&sent[36..], &csw(0xAABB_CCDD, 64, 0)[..]);
    assert_eq!(stalls, vec![Stall::In]);
}

#[test]
fn unknown_opcode_fails_and_sets_sense() {
    let mut d = Device::new();
    let (sent, _) = d.command(&cbw(1, 0, false, 0, &[0xFF, 0, 0, 0, 0, 0]), &[]);
    assert_eq!(sent, csw(1, 0, 1));
    let s = d.h.sense_state();
    assert_eq!(s.sense_key, SenseKey::IllegalRequest);
    assert_eq!(s.additional_sense_code, AdditionalSenseCode::InvalidCommandOperationCode);
}

#[test]
fn request_sense_reports_once_then_clears() {
    let mut d = Device::new();
    d.command(&cbw(1, 0, false, 0, &[0xFF, 0, 0, 0, 0, 0]), &[]);
    let (sent, _) = d.command(&cbw(2, 18, true, 0, &[0x03, 0, 0, 0, 18, 0]), &[]);
    assert_eq!(&sent[..18], &[0xF0, 0, 5, 0, 0, 0, 0, 10, 0, 0, 0, 0, 0x20, 0, 0, 0x80, 0, 0]);
    assert_eq!(&sent[18..], &csw(2, 0, 0)[..]);
    let (sent, _) = d.command(&cbw(3, 18, true, 0, &[0x03, 0, 0, 0, 18, 0]), &[]);
    assert_eq!(&sent[..18], &[0xF0, 0, 0, 0, 0, 0, 0, 10, 0, 0, 0, 0, 0, 0, 0, 0x80, 0, 0]);
}

#[test]
fn short_insufficient_cdb_sets_packet_size_sense() {
    let mut d = Device::new();
    let (sent, _) = d.command(&cbw(4, 0, false, 0, &[0x28, 0, 0]), &[]);
    assert_eq!(sent, csw(4, 0, 1));
    assert_eq!(d.h.sense_state().additional_sense_code, AdditionalSenseCode::InvalidPacketSize);
}

#[test]
fn write_then_read_back_a_block() {
    let mut d = Device::new();
    let data: Vec<u8> = (0..512u32).map(|i| (i % 251) as u8).collect();
    let (sent, stalls) = d.command(&cbw(10, 512, false, 0, &[0x2A, 0, 0, 0, 0, 7, 0, 0, 1, 0]), &data);
    assert_eq!(sent, csw(10, 0, 0));
    assert!(stalls.is_empty());
    let (sent, _) = d.command(&cbw(11, 512, true, 0, &[0x28, 0, 0, 0, 0, 7, 0, 0, 1, 0]), &[]);
    assert_eq!(&sent[..512], &data[..]);
    assert_eq!(&sent[512..], &csw(11, 0, 0)[..]);
}

#[test]
fn short_write_waits_for_the_whole_block() {
    let mut d = Device::new();
    assert_eq!(d.t.read(&cbw(20, 512, false, 0, &[0x2A, 0, 0, 0, 0, 3, 0, 0, 1, 0])), Ok(Stall::Neither));
    assert_eq!(d.t.read(&[7u8; 64]), Ok(Stall::Neither));
    d.h.process(&mut d.t, &mut d.dev);
    assert_eq!(d.t.transport_state(), TransportState::DataTransferFromHost);
    assert!(!d.t.has_status());
    assert_eq!(d.t.data_residue(), 448);
    // The host resets: the command is dropped without a CSW.
    d.t.reset();
    let tx = d.t.write().unwrap();
    assert!(tx.packet.is_empty());
    assert_eq!(d.t.transport_state(), TransportState::Idle);
}

#[test]
fn reset_during_data_to_host_then_next_command() {
    let mut d = Device::new();
    assert_eq!(d.t.read(&cbw(30, 1024, true, 0, &[0x28, 0, 0, 0, 0, 0, 0, 0, 2, 0])), Ok(Stall::Neither));
    d.h.process(&mut d.t, &mut d.dev);
    let first = d.t.write().unwrap();
    assert_eq!(first.packet.len(), PACKET);
    d.t.reset();
    assert_eq!(d.t.transport_state(), TransportState::Reset);
    let (sent, _) = d.command(&cbw(31, 0, false, 0, &[0x00, 0, 0, 0, 0, 0]), &[]);
    assert_eq!(sent, csw(31, 0, 0));
}

#[test]
fn invalid_cbw_stalls_both_endpoints() {
    let mut d = Device::new();
    let mut bad = cbw(1, 0, false, 0, &[0]);
    bad[0] = 0;
    assert_eq!(d.t.read(&bad), Ok(Stall::Both));
    assert_eq!(d.t.transport_state(), TransportState::Idle);
}

#[test]
fn cbw_split_over_packets() {
    let mut t = BulkOnly::new(64, 8, 0).unwrap();
    let b = cbw(9, 0, false, 0, &[0x00, 0, 0, 0, 0, 0]);
    for chunk in b.chunks(8) {
        t.read(chunk).unwrap();
    }
    assert_eq!(t.transport_state(), TransportState::DataTransferNoData);
    t.set_status(CommandStatus::Passed);
    let mut out = Vec::new();
    while t.transport_state() != TransportState::Idle {
        out.extend_from_slice(&t.write().unwrap().packet);
    }
    assert_eq!(out, csw(9, 0, 0));
}

#[test]
fn transport_construction_errors() {
    assert!(matches!(BulkOnly::new(64, 64, 16), Err(BulkOnlyError::InvalidMaxLun)));
    assert!(matches!(BulkOnly::new(30, 8, 0), Err(BulkOnlyError::BufferTooSmall)));
    assert!(matches!(BulkOnly::new(32, 64, 0), Err(BulkOnlyError::BufferTooSmall)));
    assert_eq!(BulkOnly::new(64, 64, 15).unwrap().max_lun(), 15);
}

#[test]
fn full_packet_expected_when_data_is_short() {
    let mut t = BulkOnly::new(256, 64, 0).unwrap();
    t.read(&cbw(1, 128, true, 0, &[0x28, 0, 0, 0, 0, 0, 0, 0, 1, 0])).unwrap();
    assert_eq!(t.write_data(&[1u8; 10]), Ok(10));
    assert!(matches!(t.write(), Err(BulkOnlyError::FullPacketExpected)));
    assert!(matches!(t.read_data(4), Err(BulkOnlyError::InvalidState)));
}

#[test]
fn capacity_and_mode_sense_responses() {
    let mut d = Device::new();
    let (sent, _) = d.command(&cbw(1, 8, true, 0, &[0x25, 0, 0, 0, 0, 0, 0, 0, 0, 0]), &[]);
    assert_eq!(&sent[..8], &[0, 0, 0, 199, 0, 0, 2, 0]);
    let (sent, _) = d.command(&cbw(2, 12, true, 0, &[0x23, 0, 0, 0, 0, 0, 0, 0, 12, 0]), &[]);
    assert_eq!(&sent[..12], &[0, 0, 0, 8, 0, 0, 0, 200, 2, 0, 2, 0]);
    let (sent, _) = d.command(&cbw(3, 4, true, 0, &[0x1A, 0, 0x3F, 0, 4, 0]), &[]);
    assert_eq!(&sent[..4], &[3, 0, 0, 0]);
    let (sent, _) = d.command(&cbw(4, 8, true, 0, &[0x5A, 0, 0x3F, 0, 0, 0, 0, 0, 8, 0]), &[]);
    assert_eq!(&sent[..8], &[0, 6, 0, 0, 0, 0, 0, 0]);
}

#[test]
fn wrong_direction_and_unimplemented_fail_gracefully() {
    let mut d = Device::new();
    let (sent, _) = d.command(&cbw(1, 0, false, 0, &[0x12, 0, 0, 0, 36, 0]), &[]);
    assert_eq!(sent, csw(1, 0, 1));
    let (sent, _) = d.command(&cbw(2, 0, false, 0, &[0x04, 0, 0, 0, 0, 0]), &[]);
    assert_eq!(sent, csw(2, 0, 1));
    assert_eq!(d.h.sense_state().sense_key, SenseKey::IllegalRequest);
}

#[test]
fn read_out_of_range_sets_lba_sense() {
    let mut d = Device::new();
    let (sent, stalls) = d.command(&cbw(1, 512, true, 0, &[0x28, 0, 0, 0, 0, 200, 0, 0, 1, 0]), &[]);
    assert_eq!(sent, csw(1, 512, 1));
    assert_eq!(stalls, vec![Stall::In]);
    assert_eq!(d.h.sense_state().additional_sense_code, AdditionalSenseCode::LogicalBlockAddressOutOfRange);
}

#[test]
fn storage_block_device() {
    let mut s = Storage::new();
    assert_eq!(s.block_count(), 200);
    assert_eq!(s.block_bytes(), 512);
    let block = [9u8; 512];
    assert!(s.write_block(3, &block).is_ok());
    let mut out = [0u8; 512];
    assert!(s.read_block(3, &mut out).is_ok());
    assert_eq!(out, block);
    assert_eq!(s.block(3).as_bytes(), &block[..]);
    assert_eq!(s.read_block(200, &mut out), Err(pico_usb_mass_storage::block_device::BlockDeviceError::InvalidAddress));
    assert_eq!(s.byte_len(), 102400);
}

#[test]
fn multi_block_write_and_read() {
    let mut d = Device::new();
    let data: Vec<u8> = (0..1536u32).map(|i| (i / 3) as u8).collect();
    let (sent, _) = d.command(&cbw(40, 1536, false, 0, &[0x2A, 0, 0, 0, 0, 10, 0, 0, 3, 0]), &data);
    assert_eq!(sent, csw(40, 0, 0));
    let (sent, stalls) = d.command(&cbw(41, 1536, true, 0, &[0xA8, 0, 0, 0, 0, 10, 0, 0, 0, 3, 0, 0]), &[]);
    assert_eq!(&sent[..1536], &data[..]);
    assert_eq!(&sent[1536..], &csw(41, 0, 0)[..]);
    assert!(stalls.is_empty());
    let (sent, _) = d.command(&cbw(42, 512, true, 0, &[0x08, 0, 0, 11, 1, 0]), &[]);
    assert_eq!(&sent[..512], &data[512..1024]);
}

#[test]
fn host_expecting_less_than_the_command_moves_gets_phase_error() {
    let mut d = Device::new();
    let (sent, _) = d.command(&cbw(50, 256, true, 0, &[0x28, 0, 0, 0, 0, 0, 0, 0, 1, 0]), &[]);
    assert_eq!(sent.len(), 256 + 13);
    assert_eq!(&sent[256..], &csw(50, 0, 2)[..]);
}

#[test]
fn write_with_too_little_host_data_fails() {
    let mut d = Device::new();
    let (sent, _) = d.command(&cbw(60, 100, false, 0, &[0x2A, 0, 0, 0, 0, 1, 0, 0, 1, 0]), &[1u8; 100]);
    assert_eq!(sent, csw(60, 0, 1));
    assert_eq!(d.h.sense_state().sense_key, SenseKey::IllegalRequest);
}

#[test]
fn zero_length_read_passes_at_once() {
    let mut d = Device::new();
    let (sent, _) = d.command(&cbw(70, 0, false, 0, &[0x28, 0, 0, 0, 0, 0, 0, 0, 0, 0]), &[]);
    assert_eq!(sent, csw(70, 0, 1));
    let (sent, _) = d.command(&cbw(71, 512, true, 0, &[0x28, 0, 0, 0, 0, 0, 0, 0, 0, 0]), &[]);
    assert_eq!(sent, csw(71, 512, 0));
}

#[test]
fn read_failing_part_way_keeps_earlier_blocks() {
    let mut d = Device::new();
    let block = [0x5Au8; 512];
    assert!(d.dev.write_block(199, &block).is_ok());
    // Blocks 199 and 200: the second is past the end of the device.
    let (sent, stalls) = d.command(&cbw(80, 1024, true, 0, &[0x28, 0, 0, 0, 0, 199, 0, 0, 2, 0]), &[]);
    assert_eq!(&sent[..512], &block[..]);
    assert_eq!(&sent[512..], &csw(80, 512, 1)[..]);
    assert_eq!(stalls, vec![Stall::In]);
    assert_eq!(d.h.sense_state().additional_sense_code, AdditionalSenseCode::LogicalBlockAddressOutOfRange);
}

#[test]
fn write_past_the_end_fails_with_lba_sense() {
    let mut d = Device::new();
    let data = [1u8; 1024];
    let (sent, _) = d.command(&cbw(81, 1024, false, 0, &[0x2A, 0, 0, 0, 0, 199, 0, 0, 2, 0]), &data);
    assert_eq!(&sent[..], &csw(81, 0, 1)[..]);
    assert_eq!(d.h.sense_state().additional_sense_code, AdditionalSenseCode::LogicalBlockAddressOutOfRange);
    let mut out = [0u8; 512];
    assert!(d.dev.read_block(199, &mut out).is_ok());
    assert_eq!(out, [1u8; 512]);
}

#[test]
fn sixteen_byte_read_and_write() {
    let mut cb = [0u8; 16];
    cb[0] = 0x88;
    cb[9] = 5;
    cb[13] = 2;
    assert_eq!(parse_cb(&cb), Ok(ScsiCommand::Read { lba: 5, transfer_length: 2 }));
    cb[0] = 0x8A;
    assert_eq!(parse_cb(&cb), Ok(ScsiCommand::Write { lba: 5, transfer_length: 2 }));
    cb[5] = 1;
    assert_eq!(
        parse_cb(&cb),
        Err(Error::BlockDeviceError(pico_usb_mass_storage::block_device::BlockDeviceError::InvalidAddress))
    );
    assert_eq!(parse_cb(&cb[..10]), Err(Error::InsufficientDataForCommand));
}

#[test]
fn read16_beyond_32_bit_lba_fails_with_lba_sense() {
    let mut d = Device::new();
    let mut cb = [0u8; 16];
    cb[0] = 0x88;
    cb[2] = 1;
    cb[13] = 1;
    let (sent, _) = d.command(&cbw(90, 512, true, 0, &cb), &[]);
    assert_eq!(&sent[..], &csw(90, 512, 1)[..]);
    assert_eq!(d.h.sense_state().additional_sense_code, AdditionalSenseCode::LogicalBlockAddressOutOfRange);
}
