use keyboard_visualizer::console::{display_layer, parse_console_line};
use keyboard_visualizer::pixels::pack_pixels;

#[test]
fn console_line_with_report_yields_flags() {
    let flags = parse_console_line("foo LAYERS: 01100000 bar").unwrap();
    assert_eq!(
        flags,
        vec![true, true, true, false, false, false, false, false]
    );
}

#[test]
fn base_layer_is_always_active() {
    let flags = parse_console_line("LAYERS:00000000").unwrap();
    assert_eq!(flags[0], true);
    assert!(flags[1..].iter().all(|f| !f));
}

#[test]
fn console_line_without_report_yields_nothing() {
    assert_eq!(parse_console_line("hello world"), None);
}

#[test]
fn console_line_with_short_report_yields_nothing() {
    assert_eq!(parse_console_line("LAYERS: 0110"), None);
}

#[test]
fn pixels_pack_into_little_endian_words() {
    let words = pack_pixels(&[1, 2, 3, 4, 5, 6, 7, 8]);
    assert_eq!(words, vec![0x0403_0201, 0x0807_0605]);
}

#[test]
fn trailing_partial_pixel_is_dropped() {
    let words = pack_pixels(&[0xff, 0x00, 0x10, 0x20, 0x99]);
    assert_eq!(words, vec![0x2010_00ff]);
}

#[test]
fn empty_pixel_data_packs_to_nothing() {
    assert_eq!(pack_pixels(&[]), Vec::<u32>::new());
}

#[test]
fn display_layer_picks_highest_active_flag() {
    assert_eq!(display_layer(&vec![true, false, true, false], 4), 2);
    assert_eq!(display_layer(&vec![false, true, false, false], 4), 1);
}

#[test]
fn display_layer_defaults_to_base() {
    assert_eq!(display_layer(&vec![false, false, false], 3), 0);
    assert_eq!(display_layer(&Vec::new(), 3), 0);
}

#[test]
fn display_layer_is_clamped_to_layer_count() {
    assert_eq!(display_layer(&vec![true, false, false, true], 2), 2);
}
