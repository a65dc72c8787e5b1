use magnifier_ball::window::{overlay_style, wide_title, WINDOW_TITLE};

#[test]
fn titles_are_spelled_in_utf16() {
    assert_eq!(wide_title(""), vec![0]);
    assert_eq!(wide_title("Ab"), vec![0x41, 0x62, 0]);
    assert_eq!(wide_title("\u{e9}\u{20ac}\u{ffff}"), vec![0xe9, 0x20ac, 0xffff, 0]);
    assert_eq!(wide_title("a\u{1f50d}b"), vec![0x61, 0xd83d, 0xdd0d, 0x62, 0]);
    assert_eq!(wide_title("\u{10000}\u{10ffff}"), vec![0xd800, 0xdc00, 0xdbff, 0xdfff, 0]);
}

#[test]
fn the_window_title_can_be_read_back() {
    let wide = wide_title(WINDOW_TITLE);
    assert_eq!(wide.len(), 26);
    assert_eq!(String::from_utf16(&wide[..25]).unwrap(), "EguiMagnifierBall_Overlay");
    assert!(wide[..25].iter().all(|unit| *unit != 0));
    assert_eq!(wide[25], 0);
}

#[test]
fn the_overlay_style_adds_two_bits() {
    assert_eq!(overlay_style(0), 0x0800_0080);
    assert_eq!(overlay_style(0x0000_0008), 0x0800_0088);
    assert_eq!(overlay_style(-1), -1);
    let style = overlay_style(0x0004_0100);
    assert_eq!(style, 0x0804_0180);
    assert_eq!(overlay_style(style), style);
}
