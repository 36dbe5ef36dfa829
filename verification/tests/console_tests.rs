use memsos::arch::msr::{msr_halves, msr_value};
use memsos::arch::speaker::{pit_divisor_bytes, speaker_off_value, speaker_on_value};
use memsos::arch::timer::{timer_freq, Timer};
use memsos::fb::{pixel_color, pixel_offset, Placement, TextCursor};
use memsos::os::cpuid::has_msr;
use memsos::os::ui::{in_drawable_area, menu_zone, StoreError, StoreFb};
use memsos::timers::sleep_hpet_deadline;

#[test]
fn msr_halves_round_trip() {
    let v = 0x1234_5678_9ABC_DEF0u64;
    let (lo, hi) = msr_halves(v);
    assert_eq!((lo, hi), (0x9ABC_DEF0, 0x1234_5678));
    assert_eq!(msr_value(hi, lo), v);
    assert!(has_msr(0x20));
    assert!(!has_msr(0x10));
}

#[test]
fn speaker_values() {
    // 1193180 / 1000 = 1193 = 0x04A9.
    assert_eq!(pit_divisor_bytes(1000), (0xA9, 0x04));
    assert_eq!(speaker_on_value(0x10), Some(0x13));
    assert_eq!(speaker_on_value(0x13), None);
    assert_eq!(speaker_off_value(0x13), 0x10);
}

#[test]
fn stopwatch() {
    let mut t = Timer::new(100, 2_000_000);
    t.reset(500);
    assert_eq!((t.start_tick, t.timer_freq), (500, 2_000_000));
    assert_eq!(timer_freq(10, 2_010), 2_000_000);
}

#[test]
fn pixels() {
    assert_eq!(pixel_offset(3, 2, 4096), 2 * 4096 + 12);
    assert_eq!(pixel_color(0xFF, 0xFF, 0xFF, 0xFF), 0x00FF_FFFF);
    assert_eq!(pixel_color(0x80, 0xFF, 0x00, 0x0F), 0x0080_0000);
}

#[test]
fn cursor_moves() {
    let mut c = TextCursor::new();
    let p = c.write_char('a', 8, 8, 20, 100);
    assert_eq!(p, Placement { clear_screen: false, draw_at: Some((0, 0)) });
    assert_eq!((c.x, c.y), (8, 0));
    // 8 + 8 >= 20 is false, so still on this line.
    let p = c.write_char('b', 8, 8, 20, 100);
    assert_eq!(p.draw_at, Some((8, 0)));
    // 16 + 8 >= 20: wraps to the next line first.
    let p = c.write_char('c', 8, 8, 20, 100);
    assert_eq!(p.draw_at, Some((0, 18)));
    assert_eq!((c.x, c.y), (8, 18));
    c.write_char('\r', 8, 8, 20, 100);
    assert_eq!((c.x, c.y), (1, 18));
    c.write_char('\n', 8, 8, 20, 100);
    assert_eq!((c.x, c.y), (0, 36));
    // 36 + 16 + 1 >= 50: the screen is cleared, the glyph drawn where the cursor is.
    let p = c.write_char('d', 8, 8, 20, 50);
    assert_eq!(p, Placement { clear_screen: true, draw_at: Some((0, 36)) });
}

#[test]
fn widget_store() {
    let mut s: StoreFb<u8> = StoreFb::new();
    assert_eq!(s.push(1), Ok(()));
    assert_eq!(s.push(2), Ok(()));
    assert_eq!(s.head, 2);
    assert_eq!(s.index(1), Some(2));
    s.pop();
    assert_eq!(s.head, 1);
    // The slot under the new head keeps its widget.
    assert_eq!(s.index(1), Some(2));
    for i in 0..124 {
        assert_eq!(s.push(i), Ok(()));
    }
    assert_eq!(s.push(9), Err(StoreError::NoSpaceInBuffer));
    assert_eq!(s.head, 125);
    let mut e: StoreFb<u8> = StoreFb::new();
    e.pop();
    assert_eq!(e.head, 0);
}

#[test]
fn menu_geometry() {
    assert_eq!(menu_zone(5, 800, 600), ((25, 25), (775, 575)));
    assert!(in_drawable_area(20, 20, 100, 100));
    assert!(!in_drawable_area(19, 50, 100, 100));
    assert!(!in_drawable_area(80, 50, 100, 100));
    assert!(in_drawable_area(79, 79, 100, 100));
}

#[test]
fn hpet_deadline() {
    assert_eq!(sleep_hpet_deadline(1_000, 10, 1_000_000), 1_010);
}

#[test]
fn push_then_pop_keeps_the_pushed_slot() {
    let mut s: StoreFb<u8> = StoreFb::new();
    assert_eq!(s.push(1), Ok(()));
    let head = s.head;
    assert_eq!(s.push(5), Ok(()));
    s.pop();
    assert_eq!(s.head, head);
    assert_eq!(s.index(head), Some(5));
    assert_eq!(s.index(head + 1), None);
}
