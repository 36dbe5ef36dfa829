//! The HPET description table and what the kernel reads out of it.
use vstd::prelude::*;
use vstd::arithmetic::power2::{pow2, lemma2_to64};
use bit_field::BitField;
use crate::acpi::table::{GenericAddress, SdtHeader, hpet_signature, signature4_is};

verus! {

/// The HPET description table.
#[derive(Debug, Clone, Copy)]
pub struct HpetHeader {
    pub sdt: SdtHeader,
    pub event_timer_block_id: u32,
    pub base_address: GenericAddress,
    pub hpet_number: u8,
    pub clock_tick_unit: u16,
    /// Bits `0..4` specify the page protection guarantee. Bits `4..8` are reserved for OEM attributes.
    pub page_protection_and_oem: u8,
}

/// The facts about the HPET that the kernel uses.
#[derive(Debug, Clone, Copy)]
pub struct HpetInfo {
    pub hardware_rev: u8,
    pub num_comparators: u8,
    pub main_counter_is_64bits: bool,
    pub legacy_irq_capable: bool,
    pub pci_vendor_id: u16,
    pub base_address: usize,
    pub hpet_number: u8,
    pub clock_tick_unit: u16,
    pub page_protection: PageProtection,
}

/// The page-protection guarantee of the HPET registers.
#[derive(Debug, Clone, Copy, PartialEq, Eq, Structural)]
pub enum PageProtection {
    NoProtection,
    Protected4K,
    Protected64K,
    Other,
}

/// Why an HPET table was refused.
#[derive(Debug)]
pub enum HpetInfoError {
    InvalidHpetTable,
}

/// `value.get_bits(start..end)` of the `bit_field` crate on a `u32`. Claimed, as
/// its source shows for a non-empty or empty range inside the word: the bits
/// `start..end` of `value`, shifted down to bit 0.
#[verifier::external_body]
fn u32_get_bits(value: u32, start: usize, end: usize) -> (r: u32)
    requires
        start < 32,
        end <= 32,
        start <= end,
    ensures
        r as int == (value as int / pow2(start as nat) as int) % (pow2((end - start) as nat) as int),
{
    value.get_bits(start..end)
}

/// `value.get_bits(start..end)` of the `bit_field` crate on a `u8`: the bits
/// `start..end` of `value`, shifted down to bit 0.
#[verifier::external_body]
fn u8_get_bits(value: u8, start: usize, end: usize) -> (r: u8)
    requires
        start < 8,
        end <= 8,
        start <= end,
    ensures
        r as int == (value as int / pow2(start as nat) as int) % (pow2((end - start) as nat) as int),
{
    value.get_bits(start..end)
}

/// `value.get_bit(bit)` of the `bit_field` crate on a `u32`: whether bit `bit` of
/// `value` is set.
#[verifier::external_body]
fn u32_get_bit(value: u32, bit: usize) -> (r: bool)
    requires
        bit < 32,
    ensures
        r == ((value as int / pow2(bit as nat) as int) % 2 == 1),
{
    value.get_bit(bit)
}

/// The page protection that the low four bits of the protection byte announce.
pub open spec fn protection_of(bits: int) -> PageProtection {
    if bits == 0 {
        PageProtection::NoProtection
    } else if bits == 1 {
        PageProtection::Protected4K
    } else if bits == 2 {
        PageProtection::Protected64K
    } else {
        PageProtection::Other
    }
}

/// What the kernel reads out of an HPET table whose registers lie in system memory.
pub open spec fn hpet_info_of(header: HpetHeader) -> HpetInfo {
    let id = header.event_timer_block_id as int;
    HpetInfo {
        hardware_rev: (id % 256) as u8,
        num_comparators: ((id / 256) % 32) as u8,
        main_counter_is_64bits: (id / 8192) % 2 == 1,
        legacy_irq_capable: (id / 32768) % 2 == 1,
        pci_vendor_id: (id / 65536) as u16,
        base_address: header.base_address.address as usize,
        hpet_number: header.hpet_number,
        clock_tick_unit: header.clock_tick_unit,
        page_protection: protection_of(header.page_protection_and_oem as int % 16),
    }
}

impl HpetHeader {
    /// Whether this is an HPET table.
    pub fn check_signature(&self) -> (ok: bool)
        ensures
            ok == (self.sdt.signature@ == hpet_signature()),
    {
        signature4_is(&self.sdt.signature, 72, 80, 69, 84)
    }
}

impl HpetInfo {
    /// Decodes an HPET table. It is refused when its registers are not in system
    /// memory (address space other than 0).
    pub fn try_from(header: HpetHeader) -> (r: Result<HpetInfo, HpetInfoError>)
        ensures
            r is Err <==> header.base_address.address_space != 0,
            r is Ok ==> r->Ok_0 == hpet_info_of(header),
            r is Ok ==> r->Ok_0.hardware_rev == header.event_timer_block_id % 256,
            r is Ok ==> r->Ok_0.num_comparators == (header.event_timer_block_id / 256) % 32,
            r is Ok ==> r->Ok_0.main_counter_is_64bits == ((header.event_timer_block_id / 8192) % 2
                == 1),
            r is Ok ==> r->Ok_0.legacy_irq_capable == ((header.event_timer_block_id / 32768) % 2
                == 1),
            r is Ok ==> r->Ok_0.pci_vendor_id == header.event_timer_block_id / 65536,
            r is Ok ==> r->Ok_0.base_address == header.base_address.address as usize,
            r is Ok ==> r->Ok_0.hpet_number == header.hpet_number,
            r is Ok ==> r->Ok_0.clock_tick_unit == header.clock_tick_unit,
            r is Ok ==> (r->Ok_0.page_protection == PageProtection::NoProtection
                <==> header.page_protection_and_oem % 16 == 0),
            r is Ok ==> (r->Ok_0.page_protection == PageProtection::Protected4K
                <==> header.page_protection_and_oem % 16 == 1),
            r is Ok ==> (r->Ok_0.page_protection == PageProtection::Protected64K
                <==> header.page_protection_and_oem % 16 == 2),
    {
        if header.base_address.address_space != 0 {
            return Err(HpetInfoError::InvalidHpetTable);
        }
        proof {
            lemma2_to64();
        }
        let id = header.event_timer_block_id;
        let hardware_rev = u32_get_bits(id, 0, 8);
        let num_comparators = u32_get_bits(id, 8, 13);
        let main_counter_is_64bits = u32_get_bit(id, 13);
        let legacy_irq_capable = u32_get_bit(id, 15);
        let pci_vendor_id = u32_get_bits(id, 16, 32);
        let protection = u8_get_bits(header.page_protection_and_oem, 0, 4);
        let page_protection = if protection == 0 {
            PageProtection::NoProtection
        } else if protection == 1 {
            PageProtection::Protected4K
        } else if protection == 2 {
            PageProtection::Protected64K
        } else {
            PageProtection::Other
        };
        let info = HpetInfo {
            hardware_rev: hardware_rev as u8,
            num_comparators: num_comparators as u8,
            main_counter_is_64bits,
            legacy_irq_capable,
            pci_vendor_id: pci_vendor_id as u16,
            base_address: header.base_address.address as usize,
            hpet_number: header.hpet_number,
            clock_tick_unit: header.clock_tick_unit,
            page_protection,
        };
        assert(pci_vendor_id == (id / 65536) % 65536);
        assert(info == hpet_info_of(header));
        Ok(info)
    }
}

/// The decoded HPET facts are the bit fields of the table: the revision in
/// bits 0..8 of the block id, the comparator count in bits 8..13, the 64-bit
/// counter flag in bit 13, the legacy-replacement flag in bit 15, the PCI vendor
/// in bits 16..32, and the page protection in the low four bits of its byte
/// (0 none, 1 4 KiB, 2 64 KiB, anything else other).
pub proof fn lemma_hpet_fields(header: HpetHeader)
    ensures
        hpet_info_of(header).hardware_rev == header.event_timer_block_id % 256,
        hpet_info_of(header).num_comparators == (header.event_timer_block_id / 256) % 32,
        hpet_info_of(header).main_counter_is_64bits == ((header.event_timer_block_id / 8192) % 2
            == 1),
        hpet_info_of(header).legacy_irq_capable == ((header.event_timer_block_id / 32768) % 2
            == 1),
        hpet_info_of(header).pci_vendor_id == header.event_timer_block_id / 65536,
        hpet_info_of(header).base_address == header.base_address.address as usize,
        (hpet_info_of(header).page_protection == PageProtection::NoProtection)
            <==> header.page_protection_and_oem % 16 == 0,
        (hpet_info_of(header).page_protection == PageProtection::Protected4K)
            <==> header.page_protection_and_oem % 16 == 1,
        (hpet_info_of(header).page_protection == PageProtection::Protected64K)
            <==> header.page_protection_and_oem % 16 == 2,
        (hpet_info_of(header).page_protection == PageProtection::Other)
            <==> header.page_protection_and_oem % 16 > 2,
{
}

} // verus!
