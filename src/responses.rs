//! Fixed-layout payloads of the data-in commands.
use vstd::prelude::*;

use crate::wire::{be_bytes, byte_of, get_byte};

verus! {

/// Length of the standard INQUIRY record.
pub const INQUIRY_LEN: usize = 36;

/// ASCII space, which pads identification strings.
pub const ASCII_SPACE: u8 = 0x20;

pub const VENDOR_LEN: usize = 8;
pub const PRODUCT_LEN: usize = 16;
pub const REVISION_LEN: usize = 4;

/// The SPC version that INQUIRY claims.
#[derive(Debug, Copy, Clone, PartialEq, Eq, Structural)]
pub enum SpcVersion {
    Unclaimed,
    Spc2,
    Spc3,
    Spc4,
}

impl SpcVersion {
    pub open spec fn spec_code(self) -> u8 {
        match self {
            SpcVersion::Unclaimed => 0x00,
            SpcVersion::Spc2 => 0x04,
            SpcVersion::Spc3 => 0x05,
            SpcVersion::Spc4 => 0x06,
        }
    }

    pub fn code(self) -> (r: u8)
        ensures
            r == self.spec_code(),
    {
        match self {
            SpcVersion::Unclaimed => 0x00,
            SpcVersion::Spc2 => 0x04,
            SpcVersion::Spc3 => 0x05,
            SpcVersion::Spc4 => 0x06,
        }
    }
}

/// `s` left-aligned in a field of `n` bytes, padded with spaces.
pub open spec fn space_padded(s: Seq<u8>, n: nat) -> Seq<u8> {
    s + Seq::new((n - s.len()) as nat, |i: int| ASCII_SPACE)
}

fn pad_with_spaces(s: &[u8], n: usize) -> (r: Vec<u8>)
    requires
        s@.len() <= n,
    ensures
        r@ == space_padded(s@, n as nat),
{
    let mut r: Vec<u8> = Vec::new();
    let mut i: usize = 0;
    while i < n
        invariant
            s@.len() <= n,
            i <= n,
            r@.len() == i,
            forall|j: int| 0 <= j < i ==> r@[j] == space_padded(s@, n as nat)[j],
        decreases n - i,
    {
        if i < s.len() {
            r.push(s[i]);
        } else {
            r.push(ASCII_SPACE);
        }
        i += 1;
    }
    assert(r@ =~= space_padded(s@, n as nat));
    r
}

/// The standard INQUIRY data of the device.
pub struct InquiryResponse {
    version: SpcVersion,
    vendor_identification: Vec<u8>,
    product_identification: Vec<u8>,
    product_revision_level: Vec<u8>,
}

/// The 36-byte INQUIRY record: a removable direct-access device, standard response format,
/// then the three identification fields.
pub open spec fn inquiry_bytes(
    version: SpcVersion,
    vendor: Seq<u8>,
    product: Seq<u8>,
    revision: Seq<u8>,
) -> Seq<u8> {
    seq![0x00u8, 0x80, version.spec_code(), 0x02, 0x00, 0x00, 0x00, 0x00] + vendor + product
        + revision
}

impl InquiryResponse {
    pub closed spec fn claimed_version(&self) -> SpcVersion {
        self.version
    }

    pub closed spec fn vendor(&self) -> Seq<u8> {
        self.vendor_identification@
    }

    pub closed spec fn product(&self) -> Seq<u8> {
        self.product_identification@
    }

    pub closed spec fn revision(&self) -> Seq<u8> {
        self.product_revision_level@
    }

    /// Fields of the right widths.
    pub open spec fn wf(&self) -> bool {
        &&& self.vendor().len() == VENDOR_LEN
        &&& self.product().len() == PRODUCT_LEN
        &&& self.revision().len() == REVISION_LEN
    }

    /// INQUIRY data naming the device by the given vendor, product and revision strings, each
    /// padded with spaces to its field's width; it claims SPC-2.
    pub fn new(vendor: &[u8], product: &[u8], revision: &[u8]) -> (r: Self)
        requires
            vendor@.len() <= VENDOR_LEN,
            product@.len() <= PRODUCT_LEN,
            revision@.len() <= REVISION_LEN,
        ensures
            r.wf(),
            r.claimed_version() == SpcVersion::Spc2,
            r.vendor() == space_padded(vendor@, VENDOR_LEN as nat),
            r.product() == space_padded(product@, PRODUCT_LEN as nat),
            r.revision() == space_padded(revision@, REVISION_LEN as nat),
    {
        InquiryResponse {
            version: SpcVersion::Spc2,
            vendor_identification: pad_with_spaces(vendor, VENDOR_LEN),
            product_identification: pad_with_spaces(product, PRODUCT_LEN),
            product_revision_level: pad_with_spaces(revision, REVISION_LEN),
        }
    }

    /// The INQUIRY record.
    pub fn as_bytes(&self) -> (r: Vec<u8>)
        requires
            self.wf(),
        ensures
            r@ == inquiry_bytes(self.claimed_version(), self.vendor(), self.product(), self.revision()),
            r@.len() == INQUIRY_LEN,
    {
        let mut r = vec![0x00u8, 0x80, self.version.code(), 0x02, 0x00, 0x00, 0x00, 0x00];
        let mut i: usize = 0;
        while i < VENDOR_LEN
            invariant
                self.wf(),
                i <= VENDOR_LEN,
                r@ == seq![0x00u8, 0x80, self.version.spec_code(), 0x02, 0x00, 0x00, 0x00, 0x00]
                    + self.vendor().subrange(0, i as int),
            decreases VENDOR_LEN - i,
        {
            r.push(self.vendor_identification[i]);
            i += 1;
            assert(self.vendor().subrange(0, i as int) =~= self.vendor().subrange(0, i - 1).push(
                self.vendor()[i - 1],
            ));
        }
        let ghost head = r@;
        assert(self.vendor().subrange(0, VENDOR_LEN as int) =~= self.vendor());
        let mut i: usize = 0;
        while i < PRODUCT_LEN
            invariant
                self.wf(),
                i <= PRODUCT_LEN,
                r@ == head + self.product().subrange(0, i as int),
            decreases PRODUCT_LEN - i,
        {
            r.push(self.product_identification[i]);
            i += 1;
            assert(self.product().subrange(0, i as int) =~= self.product().subrange(0, i - 1).push(
                self.product()[i - 1],
            ));
        }
        let ghost head2 = r@;
        assert(self.product().subrange(0, PRODUCT_LEN as int) =~= self.product());
        let mut i: usize = 0;
        while i < REVISION_LEN
            invariant
                self.wf(),
                i <= REVISION_LEN,
                r@ == head2 + self.revision().subrange(0, i as int),
            decreases REVISION_LEN - i,
        {
            r.push(self.product_revision_level[i]);
            i += 1;
            assert(self.revision().subrange(0, i as int) =~= self.revision().subrange(
                0,
                i - 1,
            ).push(self.revision()[i - 1]));
        }
        assert(self.revision().subrange(0, REVISION_LEN as int) =~= self.revision());
        assert(r@ =~= inquiry_bytes(self.version, self.vendor(), self.product(), self.revision()));
        r
    }
}

impl Default for InquiryResponse {
    /// Blank identification strings; claims SPC-4.
    fn default() -> (r: Self)
        ensures
            r.wf(),
            r.claimed_version() == SpcVersion::Spc4,
            r.vendor() == Seq::new(VENDOR_LEN as nat, |i: int| ASCII_SPACE),
            r.product() == Seq::new(PRODUCT_LEN as nat, |i: int| ASCII_SPACE),
            r.revision() == Seq::new(REVISION_LEN as nat, |i: int| ASCII_SPACE),
    {
        let e: Vec<u8> = Vec::new();
        let mut r = InquiryResponse::new(e.as_slice(), e.as_slice(), e.as_slice());
        r.version = SpcVersion::Spc4;
        assert(space_padded(e@, VENDOR_LEN as nat) =~= Seq::new(VENDOR_LEN as nat, |i: int| ASCII_SPACE));
        assert(space_padded(e@, PRODUCT_LEN as nat) =~= Seq::new(PRODUCT_LEN as nat, |i: int| ASCII_SPACE));
        assert(space_padded(e@, REVISION_LEN as nat) =~= Seq::new(REVISION_LEN as nat, |i: int| ASCII_SPACE));
        r
    }
}

/// The READ CAPACITY (10) payload.
#[derive(Debug, Copy, Clone, PartialEq, Eq, Structural)]
pub struct ReadCapacity10Response {
    /// Address of the last block.
    pub max_lba: u32,
    /// Bytes per block.
    pub block_size: u32,
}

impl ReadCapacity10Response {
    /// Both fields big-endian.
    pub fn as_bytes(&self) -> (r: Vec<u8>)
        ensures
            r@ == be_bytes(self.max_lba) + be_bytes(self.block_size),
    {
        let r = vec![
            get_byte(self.max_lba, 3),
            get_byte(self.max_lba, 2),
            get_byte(self.max_lba, 1),
            get_byte(self.max_lba, 0),
            get_byte(self.block_size, 3),
            get_byte(self.block_size, 2),
            get_byte(self.block_size, 1),
            get_byte(self.block_size, 0),
        ];
        assert(r@ =~= be_bytes(self.max_lba) + be_bytes(self.block_size));
        r
    }
}

/// The READ FORMAT CAPACITIES payload: a list header announcing one 8-byte descriptor, then
/// the descriptor for formatted media of `block_count` blocks of `block_size` bytes.
pub open spec fn format_capacities_bytes(block_count: u32, block_size: u32) -> Seq<u8> {
    seq![0u8, 0, 0, 0x08] + be_bytes(block_count) + seq![
        0x02u8,
        byte_of(block_size, 2),
        byte_of(block_size, 1),
        byte_of(block_size, 0),
    ]
}

/// Builds the READ FORMAT CAPACITIES payload.
pub fn read_format_capacities(block_count: u32, block_size: u32) -> (r: Vec<u8>)
    ensures
        r@ == format_capacities_bytes(block_count, block_size),
{
    let r = vec![
        0u8,
        0,
        0,
        0x08,
        get_byte(block_count, 3),
        get_byte(block_count, 2),
        get_byte(block_count, 1),
        get_byte(block_count, 0),
        0x02,
        get_byte(block_size, 2),
        get_byte(block_size, 1),
        get_byte(block_size, 0),
    ];
    assert(r@ =~= format_capacities_bytes(block_count, block_size));
    r
}

} // verus!
