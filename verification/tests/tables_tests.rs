use memsos::acpi::hpet::{HpetHeader, HpetInfo, HpetInfoError, PageProtection};
use memsos::acpi::table::{
    higher_half_page, page_align_down, table_kind, AcpiTables, AcpiVersion, FadtHeader,
    GenericAddress, RsdpHeader, SdtHeader, TableKind,
};
use memsos::acpi::AcpiError;
use memsos::pci::{
    check_device, check_func, get_header_type, get_ids, is_xhci, pci_config_address, PciConfig,
    PciInfo,
};

fn sdt(sig: &[u8; 4], len: u32) -> SdtHeader {
    SdtHeader {
        signature: *sig,
        len,
        revision: 1,
        checksum: 0,
        oem_id: *b"OEMID ",
        oem_table_id: *b"TABLEID ",
        oem_revision: 0,
        creator_id: *b"CRTR",
        creator_revision: 0,
    }
}

fn rsdp(revision: u8, rsdt: u32) -> RsdpHeader {
    RsdpHeader {
        signature: *b"RSD PTR ",
        checksum: 0,
        oem_id: *b"OEMID ",
        revision,
        rsdt_adddress: rsdt,
        len: 20,
        xsdt_address: 0,
        extended_checksum: 0,
        reserved: [0; 3],
    }
}

fn gaddr(space: u8, address: u64) -> GenericAddress {
    GenericAddress { address_space: space, bit_width: 0, bit_offset: 0, access_size: 0, address }
}

fn hpet(space: u8, id: u32, prot: u8) -> HpetHeader {
    HpetHeader {
        sdt: sdt(b"HPET", 56),
        event_timer_block_id: id,
        base_address: gaddr(space, 0xFED0_0000),
        hpet_number: 0,
        clock_tick_unit: 128,
        page_protection_and_oem: prot,
    }
}

#[test]
fn hpet_decoding() {
    // Rev 1, 3 comparators (field 2), 64-bit counter, legacy capable, vendor 0x8086.
    let id = 0x8086_0000 | (1 << 15) | (1 << 13) | (2 << 8) | 1;
    let info = HpetInfo::try_from(hpet(0, id, 0x11)).unwrap();
    assert_eq!(info.hardware_rev, 1);
    assert_eq!(info.num_comparators, 2);
    assert!(info.main_counter_is_64bits);
    assert!(info.legacy_irq_capable);
    assert_eq!(info.pci_vendor_id, 0x8086);
    assert_eq!(info.base_address, 0xFED0_0000);
    assert_eq!(info.clock_tick_unit, 128);
    assert_eq!(info.page_protection, PageProtection::Protected4K);
    let other = HpetInfo::try_from(hpet(0, 0, 0x0F)).unwrap();
    assert_eq!(other.page_protection, PageProtection::Other);
    assert!(!other.main_counter_is_64bits);
    let none = HpetInfo::try_from(hpet(0, 0, 0x20)).unwrap();
    assert_eq!(none.page_protection, PageProtection::NoProtection);
}

#[test]
fn hpet_outside_system_memory() {
    assert!(matches!(HpetInfo::try_from(hpet(1, 0, 0)), Err(HpetInfoError::InvalidHpetTable)));
    assert!(hpet(0, 0, 0).check_signature());
}

#[test]
fn rsdp_versions_and_signatures() {
    assert_eq!(rsdp(0, 0).get_version(), AcpiVersion::V1);
    assert_eq!(rsdp(1, 0).get_version(), AcpiVersion::V1);
    assert_eq!(rsdp(2, 0).get_version(), AcpiVersion::V2);
    assert!(rsdp(0, 0).check_signature());
    let mut bad = rsdp(0, 0);
    bad.signature = *b"RSD PTR?";
    assert!(!bad.check_signature());
    assert!(sdt(b"RSDT", 36).check_signature());
    assert!(!sdt(b"XSDT", 36).check_signature());
}

#[test]
fn rsdt_entries() {
    let t = AcpiTables::new(rsdp(0, 0x1000), sdt(b"RSDT", 36 + 12));
    assert_eq!(t.entry_size(), 4);
    assert_eq!(t.entry_count(), 3);
    assert_eq!(t.get_tables(), vec![0x1024, 0x1028, 0x102C]);
    let t2 = AcpiTables::new(rsdp(2, 0x2000), sdt(b"RSDT", 36 + 16));
    assert_eq!(t2.get_tables(), vec![0x2024, 0x202C]);
}

#[test]
fn pages_and_kinds() {
    assert_eq!(page_align_down(0x1234), 0x1000);
    assert_eq!(higher_half_page(0x1234, 0xFFFF_8000_0000_0000), 0xFFFF_8000_0000_1000);
    assert_eq!(higher_half_page(0x1000, u64::MAX), 0);
    assert_eq!(rsdp(0, 0x3456).get_rsdt_address(0x10_0000), 0x10_3000);
    assert_eq!(table_kind(b"FACP"), TableKind::Fadt);
    assert_eq!(table_kind(b"HPET"), TableKind::Hpet);
    assert_eq!(table_kind(b"APIC"), TableKind::Other);
}

#[test]
fn acpi_error_messages() {
    assert_eq!(AcpiError::NoAcpiTables.message(), "No acpi tables");
    assert_eq!(AcpiError::InvalidRsdp.message(), "Invalid Rsdp");
}

fn fadt_with(sig: &[u8; 4]) -> FadtHeader {
    let g = gaddr(0, 0);
    FadtHeader {
        sdt: sdt(sig, 244),
        firmware_ctrl: 0,
        dsdt: 0,
        reserved: 0,
        prefered_power_management_profile: 2,
        sci_interrupt: 9,
        smi_interrupt: 0,
        acpi_enable: 0,
        acpi_disable: 0,
        s4bios_req: 0,
        pstate_control: 0,
        pm1a_event_block: 0,
        pm1b_event_block: 0,
        pm1a_control_block: 0,
        pm1b_control_block: 0,
        pm2_control_block: 0,
        pmtimer_block: 0,
        gpe0_block: 0,
        gpe1_block: 0,
        pm1_event_length: 0,
        pm2_control_length: 0,
        pm_timer_length: 0,
        gpe0_length: 0,
        gpe1_length: 0,
        gpe1_base: 0,
        cstate_control: 0,
        worst_c2_latency: 0,
        worst_c3_latency: 0,
        flush_size: 0,
        flush_stride: 0,
        duty_offset: 0,
        duty_width: 0,
        day_alarm: 0,
        month_alarm: 0,
        century: 0,
        boot_architecture_flags: 0,
        reserved2: 0,
        flags: 0,
        reset_reg: g,
        x_firmware_control: 0,
        s_dsdt: 0,
        x_pm1a_event_block: g,
        x_pm1b_event_block: g,
        x_pm1a_control_block: g,
        x_pm1b_control_block: g,
        x_pm2_control_block: g,
        x_pmtimer_block: g,
        x_gpe_0_block: g,
        x_gpe_1_block: g,
    }
}

#[test]
fn fadt_signature() {
    assert!(fadt_with(b"FACP").check_signature());
    assert!(!fadt_with(b"FADT").check_signature());
}

#[test]
fn pci_addresses_and_ids() {
    let info = PciInfo { bus: 1, device: 2 };
    assert_eq!(pci_config_address(info, 3, 0x0F), 0x8001_130C);
    assert_eq!(get_ids(0x1234_8086), (0x1234, 0x8086));
    assert!(check_func(0x1234_8086));
    assert!(!check_func(0x0000_FFFF));
    assert_eq!(get_header_type(0x0080_0000), 0x80);
}

fn config(id: u32, header: u32, fns: [u32; 8]) -> PciConfig {
    PciConfig {
        id,
        class: 0x0C03_3000,
        header,
        bars: [1, 2, 3, 4, 5, 6],
        last_row: 0x0000_010B,
        function_ids: fns,
    }
}

#[test]
fn pci_devices() {
    assert!(check_device(0, 1, &config(0xFFFF_FFFF, 0, [0; 8])).is_none());
    let d = check_device(0, 1, &config(0x1234_8086, 0, [0xFFFF_FFFF; 8])).unwrap();
    assert_eq!((d.bus, d.device, d.device_id, d.vendor_id), (0, 1, 0x1234, 0x8086));
    assert_eq!(d.class, 3075);
    assert!(is_xhci(&d));
    assert_eq!(d.bars, [1, 2, 3, 4, 5, 6]);
    assert_eq!(d.supported_fns, [true, false, false, false, false, false, false, false]);
    assert_eq!((d.interrupt_line, d.interrupt_pin), (0x0B, 0x01));
    let mut fns = [0xFFFF_FFFF; 8];
    fns[0] = 0x1234_8086;
    fns[3] = 0x5678_8086;
    let m = check_device(0, 1, &config(0x1234_8086, 0x0080_0000, fns)).unwrap();
    assert_eq!(m.header_type, 0x80);
    assert_eq!(m.supported_fns, [true, false, false, true, false, false, false, false]);
}
