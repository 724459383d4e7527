use clip_translator::hotkey::{toggle_pause_hotkey, Hotkey, HotkeyAction};
use clip_translator::tray::{load_icon, pause_label, IconError, Tray, TrayAction};
use global_hotkey::hotkey::{Code, HotKey, Modifiers};

#[test]
fn pause_label_names_the_next_action() {
    assert_eq!(pause_label(true), "Resume");
    assert_eq!(pause_label(false), "Pause");
}

fn tray() -> Tray {
    Tray { pause_id: "1001".to_string(), quit_id: "1002".to_string() }
}

#[test]
fn tray_classifies_by_item_id() {
    let t = tray();
    assert_eq!(t.classify("1001"), TrayAction::TogglePause);
    assert_eq!(t.classify("1002"), TrayAction::Quit);
    assert_eq!(t.classify("1003"), TrayAction::Other);
    assert_eq!(t.classify(""), TrayAction::Other);
}

#[test]
fn tray_checks_pause_item_first() {
    let t = Tray { pause_id: "same".to_string(), quit_id: "same".to_string() };
    assert_eq!(t.classify("same"), TrayAction::TogglePause);
}

#[test]
fn hotkey_classifies_by_id() {
    let h = Hotkey { toggle_pause_id: 42 };
    assert_eq!(h.classify(42), HotkeyAction::TogglePause);
    assert_eq!(h.classify(43), HotkeyAction::Other);
}

#[test]
fn toggle_pause_hotkey_is_ctrl_alt_p() {
    let (hotkey, id) = toggle_pause_hotkey().expect("the hotkey text parses");
    let expected = HotKey::new(Some(Modifiers::CONTROL | Modifiers::ALT), Code::KeyP);
    assert_eq!(hotkey, expected);
    assert_eq!(id, expected.id());
    assert_eq!(id, 0x0009_0022);
}

fn encode_png(width: u32, height: u32, rgba: Vec<u8>) -> Vec<u8> {
    let img = image::RgbaImage::from_raw(width, height, rgba).expect("buffer fits");
    let mut out = std::io::Cursor::new(Vec::new());
    img.write_to(&mut out, image::ImageFormat::Png).expect("encodes");
    out.into_inner()
}

#[test]
fn icon_is_decoded_to_rgba() {
    let pixels = vec![255, 0, 0, 255, 0, 255, 0, 128, 0, 0, 255, 0];
    let png = encode_png(3, 1, pixels.clone());
    let icon = load_icon(&png).expect("decodes");
    assert_eq!(icon.width, 3);
    assert_eq!(icon.height, 1);
    assert_eq!(icon.rgba, pixels);
    assert_eq!(icon.rgba.len(), 4 * 3 * 1);
    assert_ne!(icon.rgba, png);
}

#[test]
fn garbage_icon_bytes_are_rejected() {
    assert!(matches!(load_icon(b"not an image"), Err(IconError::Decode)));
    assert!(matches!(load_icon(&[]), Err(IconError::Decode)));
}
