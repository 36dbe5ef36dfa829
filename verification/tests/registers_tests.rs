use memsos::acpi::table::{acpi_profile_step, rsdp_present, TableKind};
use memsos::acpi::AcpiError;
use memsos::arch::rtc::{nmi_disabled_select, nmi_enabled_index, try_sleep_rtc_step, CMOS_STATUS_REGISTER_B};
use memsos::arch::tsc::Instant;
use memsos::fb::TextCursor;
use memsos::modules::march_c::march_c_cell;
use memsos::timers::try_sleep_hpet_deadline;
use memsos::os::keyboard::{input_buffer_full, output_buffer_full};
use memsos::os::ui::{menu_frame, try_menu_frame, try_menu_zone};
use memsos::pci::is_multi_function;

#[test]
fn cmos_index_with_nmi_off_and_on() {
    assert_eq!(nmi_disabled_select(CMOS_STATUS_REGISTER_B), 0x8B);
    assert_eq!(nmi_disabled_select(0x8B), 0x8B);
    assert_eq!(nmi_enabled_index(0x8B), 0x0B);
    assert_eq!(nmi_enabled_index(0x0B), 0x0B);
}

#[test]
fn keyboard_controller_status_bits() {
    assert!(output_buffer_full(0x01));
    assert!(!output_buffer_full(0x02));
    assert!(input_buffer_full(0x02));
    assert!(!input_buffer_full(0x1D));
    assert!(input_buffer_full(0xFF) && output_buffer_full(0xFF));
}

#[test]
fn pci_multi_function_bit() {
    assert!(is_multi_function(0x80));
    assert!(is_multi_function(0x81));
    assert!(!is_multi_function(0x7F));
    assert!(!is_multi_function(0x00));
}

#[test]
fn menu_frame_borders() {
    let lines = menu_frame(5, 800, 600);
    assert_eq!(lines[0], ((25, 25), (15, 575)));
    assert_eq!(lines[1], ((25, 575), (775, 575)));
    assert_eq!(lines[2], ((775, 25), (775, 575)));
    assert_eq!(lines[3], ((25, 25), (775, 25)));
}

#[test]
fn checked_menu_geometry() {
    assert_eq!(try_menu_zone(5, 800, 600), Some(((25, 25), (775, 575))));
    assert_eq!(try_menu_zone(5, 20, 600), None);
    assert_eq!(try_menu_zone(-30, 800, 600), None);
    assert_eq!(try_menu_frame(5, 800, 600), Some(menu_frame(5, 800, 600)));
    assert_eq!(try_menu_frame(isize::MAX, 800, 600), None);
    assert_eq!(try_menu_frame(0, isize::MIN, 600), None);
}

#[test]
fn checked_rtc_step() {
    assert_eq!(try_sleep_rtc_step(58, 3, 1), Some((1, 6)));
    assert_eq!(try_sleep_rtc_step(61, 0, 1), None);
    assert_eq!(try_sleep_rtc_step(10, 250, 20), None);
    assert_eq!(try_sleep_rtc_step(10, 4, 10), Some((10, 4)));
}

#[test]
fn checked_hpet_deadline() {
    assert_eq!(try_sleep_hpet_deadline(100, 10, 1_000_000), Some(110));
    assert_eq!(try_sleep_hpet_deadline(100, 10, 0), None);
    assert_eq!(try_sleep_hpet_deadline(u64::MAX, 10, 1), None);
    assert_eq!(try_sleep_hpet_deadline(0, u64::MAX, 1), None);
}

#[test]
fn checked_cursor_step() {
    let mut cur = TextCursor::new();
    let p = cur.try_write_char('a', 8, 8, 800, 600).expect("fits");
    assert_eq!(p.draw_at, Some((0, 0)));
    assert_eq!(cur.x, 8);
    let mut far = TextCursor { x: usize::MAX, y: 0 };
    assert!(far.try_write_char('a', 8, 8, 800, 600).is_none());
    assert_eq!(far.x, usize::MAX);
}

#[test]
fn acpi_walk_helpers() {
    assert_eq!(acpi_profile_step(0, TableKind::Fadt, 3), 3);
    assert_eq!(acpi_profile_step(3, TableKind::Hpet, 7), 3);
    assert_eq!(acpi_profile_step(3, TableKind::Other, 7), 3);
    assert_eq!(rsdp_present(Some(0xE0000)), Ok(0xE0000));
    assert_eq!(rsdp_present(None), Err(AcpiError::NoAcpiTables));
}

#[test]
fn buffer_march_c_cell() {
    assert!(march_c_cell(0, 0));
    assert!(!march_c_cell(1, 0));
    assert!(march_c_cell(1, 1));
}

#[test]
fn instant_start_tick() {
    let i = Instant::now(1234);
    assert_eq!(i.start(), 1234);
    assert_eq!(i.elapsed(1234 + 5000, 1000), 5);
}
