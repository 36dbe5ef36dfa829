use memsos::arch::cpuid::{
    check_feature, get_vendor, try_get_vendor, CpuFeature, CpuInfo, CpuVendor,
};
use memsos::arch::mem::check_addr;
use memsos::arch::rtc::{
    convert_bcd_value, is_binary_format, read_datetime_reg, sleep_rtc_step, update_in_progress,
    Time,
};
use memsos::arch::tsc::{sleep_deadline, tsc_ticks_per_ms, Instant, Timestamp};

fn regs(s: &[u8; 12]) -> (u32, u32, u32) {
    let w = |i: usize| u32::from_le_bytes([s[i], s[i + 1], s[i + 2], s[i + 3]]);
    (w(0), w(4), w(8))
}

#[test]
fn bcd_values() {
    assert_eq!(convert_bcd_value(0x59), 59);
    assert_eq!(convert_bcd_value(0x00), 0);
    assert_eq!(convert_bcd_value(0x23), 23);
    assert_eq!(convert_bcd_value(0xFF), 165);
}

#[test]
fn binary_format_bit() {
    assert!(is_binary_format(0x04));
    assert!(is_binary_format(0x06));
    assert!(!is_binary_format(0x02));
    assert!(update_in_progress(0x80));
    assert!(!update_in_progress(0x7F));
}

#[test]
fn datetime_register_decoding() {
    // 0x45 has bit 2 set: taken as binary.
    assert_eq!(read_datetime_reg(0x45), 0x45);
    // 0x32 has bit 2 clear: taken as BCD.
    assert_eq!(read_datetime_reg(0x32), 32);
}

#[test]
fn time_from_registers_and_elapsed() {
    let start = Time::now(0x10, 0x20, 0x08);
    assert_eq!((start.seconds, start.minutes, start.hours), (10, 20, 8));
    let end = Time { seconds: 5, minutes: 21, hours: 8 };
    let d = start.clone().elapsed(end.clone());
    assert_eq!(d.seconds, 5u8.wrapping_sub(10));
    assert_eq!(d.minutes, 1);
    assert_eq!(d.hours, 0);
    let z = end.clone().sub(end);
    assert_eq!((z.seconds, z.minutes, z.hours), (0, 0, 0));
}

#[test]
fn rtc_sleep_steps() {
    assert_eq!(sleep_rtc_step(10, 0, 10), (10, 0));
    assert_eq!(sleep_rtc_step(10, 0, 13), (13, 3));
    assert_eq!(sleep_rtc_step(58, 3, 1), (1, 6));
}

#[test]
fn timestamp_split() {
    let t = Timestamp::from_secs(3 * 3600 + 25 * 60 + 7);
    assert_eq!((t.hours, t.minutes, t.seconds), (3, 25, 7));
    let t = Timestamp::from_secs(59);
    assert_eq!((t.hours, t.minutes, t.seconds), (0, 0, 59));
    let t = Timestamp::from_secs(3600);
    assert_eq!((t.hours, t.minutes, t.seconds), (1, 0, 0));
}

#[test]
fn instant_elapsed_and_timestamp() {
    let i = Instant::now(1_000);
    assert_eq!(i.elapsed(21_000, 10), 2_000);
    let t = i.to_timestamp(1_000 + 10 * 61_500, 10);
    assert_eq!((t.hours, t.minutes, t.seconds), (0, 1, 1));
}

#[test]
fn deadlines_and_calibration() {
    assert_eq!(sleep_deadline(200, 1_000, 5), 200_005);
    assert_eq!(sleep_deadline(1, 2, u64::MAX), 1);
    assert_eq!(tsc_ticks_per_ms(100, 100 + 50_000), 10);
    assert_eq!(tsc_ticks_per_ms(u64::MAX, 9_999), 2);
}

#[test]
fn aligned_addresses() {
    assert!(check_addr(8));
    assert!(!check_addr(0));
    assert!(!check_addr(12));
}

#[test]
fn feature_bits() {
    assert!(check_feature(CpuFeature::X2Apic, 1 << 21));
    assert!(!check_feature(CpuFeature::X2Apic, 1 << 20));
    assert!(check_feature(CpuFeature::Tsc, 0x10));
    assert!(check_feature(CpuFeature::Msr, 0x20));
    assert!(!check_feature(CpuFeature::Msr, 0x10));
}

#[test]
fn vendors_from_registers() {
    let (b, d, c) = regs(b"GenuineIntel");
    assert_eq!(get_vendor(b, d, c), CpuVendor::Intel);
    let (b, d, c) = regs(b"AuthenticAMD");
    assert_eq!(get_vendor(b, d, c), CpuVendor::Amd);
    let (b, d, c) = regs(b"TCGTCGTCGTCG");
    assert_eq!(get_vendor(b, d, c), CpuVendor::Qemu);
    let (b, d, c) = regs(b" KVMKVMKVM  ");
    assert_eq!(get_vendor(b, d, c), CpuVendor::Kvm);
    let (b, d, c) = regs(b"Microsoft Hv");
    assert_eq!(get_vendor(b, d, c), CpuVendor::HyperV);
    let (b, d, c) = regs(b"SomethingNew");
    assert_eq!(get_vendor(b, d, c), CpuVendor::Unknown);
}

#[test]
fn vendor_of_non_utf8_registers() {
    assert_eq!(try_get_vendor(0xFFFF_FFFF, 0, 0), None);
    let (b, d, c) = regs(b"VBoxVBoxVBox");
    assert_eq!(try_get_vendor(b, d, c), Some(CpuVendor::VirtualBox));
}

#[test]
fn cpu_info_from_registers() {
    let (b, d, c) = regs(b"XenVMMXenVMM");
    let info = CpuInfo::new(b, d, c, 1 << 21);
    assert_eq!(info.vendor, CpuVendor::Xen);
    assert!(info.x2apic_supported);
    assert!(CpuInfo::try_new(0xFF, 0xFF, 0xFF, 0).is_none());
}

#[test]
fn vendor_from_text() {
    assert_eq!(CpuVendor::from("GenuineIntel"), CpuVendor::Intel);
    assert_eq!(CpuVendor::from("AMDisbetter!"), CpuVendor::AmdOld);
    assert_eq!(CpuVendor::from("VMwareVMware"), CpuVendor::Vmware);
    assert_eq!(CpuVendor::from("GenuineIntel "), CpuVendor::Unknown);
}
