//! Mode parameter headers and pages returned by MODE SENSE.
use vstd::prelude::*;

verus! {

/// Length of a MODE SENSE (6) parameter header.
pub const HEADER6_LEN: u8 = 4;

/// Length of a MODE SENSE (10) parameter header.
pub const HEADER10_LEN: u16 = 8;

/// Length of the caching mode page as this device reports it.
pub const CACHING_MODE_PAGE_LEN: u8 = 3;

/// Medium type of the header: direct-access block device.
#[derive(Debug, Copy, Clone, PartialEq, Eq, Structural)]
pub enum MediumType {
    Sbc,
}

/// Mode pages this device knows.
#[derive(Debug, Copy, Clone, PartialEq, Eq, Structural)]
pub enum PageCode {
    CachingModePage,
}

impl PageCode {
    pub open spec fn spec_code(self) -> u8 {
        match self {
            PageCode::CachingModePage => 0x08,
        }
    }
}

/// The device-specific parameter byte of a block device.
#[derive(Debug, Copy, Clone, PartialEq, Eq, Structural)]
pub struct SbcDeviceSpecificParameter {
    pub write_protect: bool,
    pub disable_page_out_and_force_unit_access_available: bool,
}

impl SbcDeviceSpecificParameter {
    pub open spec fn spec_byte(self) -> u8 {
        (if self.write_protect { 0x80u8 } else { 0u8 }) | (if self.disable_page_out_and_force_unit_access_available { 0x10u8 } else { 0u8 })
    }

    pub fn to_byte(self) -> (r: u8)
        ensures
            r == self.spec_byte(),
    {
        (if self.write_protect { 0x80u8 } else { 0u8 }) | (if self.disable_page_out_and_force_unit_access_available { 0x10u8 } else { 0u8 })
    }
}

/// Length in bytes of a mode page.
pub open spec fn page_len(page: PageCode) -> u8 {
    match page {
        PageCode::CachingModePage => CACHING_MODE_PAGE_LEN,
    }
}

/// The header of a MODE SENSE (6) response.
#[derive(Debug, Copy, Clone, PartialEq, Eq, Structural)]
pub struct ModeParameterHeader6 {
    /// Bytes that follow this field.
    pub mode_data_length: u8,
    pub medium_type: MediumType,
    pub device_specific_parameter: SbcDeviceSpecificParameter,
    pub block_descriptor_length: u8,
}

impl ModeParameterHeader6 {
    /// A header with nothing after it: not write-protected, no block descriptors.
    pub fn new() -> (r: Self)
        ensures
            r.mode_data_length == HEADER6_LEN - 1,
            r.medium_type == MediumType::Sbc,
            r.device_specific_parameter.spec_byte() == 0,
            r.block_descriptor_length == 0,
    {
        assert(0u8 | 0u8 == 0u8) by (bit_vector);
        ModeParameterHeader6 {
            mode_data_length: HEADER6_LEN - 1,
            medium_type: MediumType::Sbc,
            device_specific_parameter: SbcDeviceSpecificParameter {
                write_protect: false,
                disable_page_out_and_force_unit_access_available: false,
            },
            block_descriptor_length: 0,
        }
    }

    /// Grows the length field to announce that `page_code` follows the header.
    pub fn increase_length_for_page(&mut self, page_code: PageCode)
        requires
            old(self).mode_data_length + page_len(page_code) <= u8::MAX,
        ensures
            final(self).mode_data_length == old(self).mode_data_length + page_len(page_code),
            final(self).medium_type == old(self).medium_type,
            final(self).device_specific_parameter == old(self).device_specific_parameter,
            final(self).block_descriptor_length == old(self).block_descriptor_length,
    {
        let n = match page_code {
            PageCode::CachingModePage => CACHING_MODE_PAGE_LEN,
        };
        self.mode_data_length = self.mode_data_length + n;
    }

    /// The four header bytes.
    pub fn as_bytes(&self) -> (r: Vec<u8>)
        ensures
            r@ == seq![
                self.mode_data_length,
                0u8,
                self.device_specific_parameter.spec_byte(),
                self.block_descriptor_length,
            ],
    {
        let r = vec![self.mode_data_length, 0u8, self.device_specific_parameter.to_byte(), self.block_descriptor_length];
        assert(r@ =~= seq![
            self.mode_data_length,
            0u8,
            self.device_specific_parameter.spec_byte(),
            self.block_descriptor_length,
        ]);
        r
    }
}

/// The header of a MODE SENSE (10) response.
#[derive(Debug, Copy, Clone, PartialEq, Eq, Structural)]
pub struct ModeParameterHeader10 {
    /// Bytes that follow this field.
    pub mode_data_length: u16,
    pub medium_type: MediumType,
    pub device_specific_parameter: SbcDeviceSpecificParameter,
    pub long_lba: bool,
    pub block_descriptor_length: u16,
}

impl ModeParameterHeader10 {
    /// A header with nothing after it: not write-protected, no block descriptors.
    pub fn new() -> (r: Self)
        ensures
            r.mode_data_length == HEADER10_LEN - 2,
            r.medium_type == MediumType::Sbc,
            r.device_specific_parameter.spec_byte() == 0,
            !r.long_lba,
            r.block_descriptor_length == 0,
    {
        assert(0u8 | 0u8 == 0u8) by (bit_vector);
        ModeParameterHeader10 {
            mode_data_length: HEADER10_LEN - 2,
            medium_type: MediumType::Sbc,
            device_specific_parameter: SbcDeviceSpecificParameter {
                write_protect: false,
                disable_page_out_and_force_unit_access_available: false,
            },
            long_lba: false,
            block_descriptor_length: 0,
        }
    }

    /// Grows the length field to announce that `page_code` follows the header.
    pub fn increase_length_for_page(&mut self, page_code: PageCode)
        requires
            old(self).mode_data_length + page_len(page_code) <= u16::MAX,
        ensures
            final(self).mode_data_length == old(self).mode_data_length + page_len(page_code),
            final(self).medium_type == old(self).medium_type,
            final(self).device_specific_parameter == old(self).device_specific_parameter,
            final(self).long_lba == old(self).long_lba,
            final(self).block_descriptor_length == old(self).block_descriptor_length,
    {
        let n: u16 = match page_code {
            PageCode::CachingModePage => CACHING_MODE_PAGE_LEN as u16,
        };
        self.mode_data_length = self.mode_data_length + n;
    }

    /// The eight header bytes, lengths big-endian.
    pub fn as_bytes(&self) -> (r: Vec<u8>)
        ensures
            r@ == seq![
                (self.mode_data_length >> 8u16) as u8,
                (self.mode_data_length & 0xff) as u8,
                0u8,
                self.device_specific_parameter.spec_byte(),
                if self.long_lba { 1u8 } else { 0u8 },
                0u8,
                (self.block_descriptor_length >> 8u16) as u8,
                (self.block_descriptor_length & 0xff) as u8,
            ],
    {
        let r = vec![
            (self.mode_data_length >> 8u16) as u8,
            (self.mode_data_length & 0xff) as u8,
            0u8,
            self.device_specific_parameter.to_byte(),
            if self.long_lba { 1u8 } else { 0u8 },
            0u8,
            (self.block_descriptor_length >> 8u16) as u8,
            (self.block_descriptor_length & 0xff) as u8,
        ];
        assert(r@ =~= seq![
            (self.mode_data_length >> 8u16) as u8,
            (self.mode_data_length & 0xff) as u8,
            0u8,
            self.device_specific_parameter.spec_byte(),
            if self.long_lba { 1u8 } else { 0u8 },
            0u8,
            (self.block_descriptor_length >> 8u16) as u8,
            (self.block_descriptor_length & 0xff) as u8,
        ]);
        r
    }
}

/// The caching mode page (partial: the cache enable bits only).
#[derive(Debug, Copy, Clone, PartialEq, Eq, Structural)]
pub struct CachingModePage {
    pub page_code: PageCode,
    pub page_length: u8,
    pub write_cache_enabled: bool,
    pub read_cache_disable: bool,
}

impl CachingModePage {
    /// No read or write cache.
    pub fn new() -> (r: Self)
        ensures
            r.page_code == PageCode::CachingModePage,
            r.page_length == CACHING_MODE_PAGE_LEN,
            !r.write_cache_enabled,
            r.read_cache_disable,
    {
        CachingModePage {
            page_code: PageCode::CachingModePage,
            page_length: CACHING_MODE_PAGE_LEN,
            write_cache_enabled: false,
            read_cache_disable: true,
        }
    }
}

} // verus!
