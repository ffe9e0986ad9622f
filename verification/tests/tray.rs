use whatsapp_tauri::tray::{create_tray, menu_action, tray_event_action, tray_menu, TrayAction, TrayEvent};

fn shows_main(a: &TrayAction) -> bool {
    matches!(a, TrayAction::ShowWindow(w) if w == "main")
}

#[test]
fn quit_item_quits() {
    assert!(matches!(menu_action("quit"), TrayAction::Quit));
}

#[test]
fn show_item_shows_main_window() {
    assert!(shows_main(&menu_action("show")));
}

#[test]
fn unknown_item_does_nothing() {
    assert!(matches!(menu_action("Show"), TrayAction::Nothing));
    assert!(matches!(menu_action(""), TrayAction::Nothing));
}

#[test]
fn left_click_shows_main_window() {
    assert!(shows_main(&tray_event_action(&TrayEvent::Click { left_button: true })));
    assert!(matches!(tray_event_action(&TrayEvent::Click { left_button: false }), TrayAction::Nothing));
    assert!(matches!(tray_event_action(&TrayEvent::Other), TrayAction::Nothing));
}

#[test]
fn menu_lists_show_then_quit() {
    let m = tray_menu();
    assert_eq!(m.len(), 2);
    assert_eq!(m[0].id, "show");
    assert_eq!(m[0].label, "Show WhatsApp");
    assert!(m[0].enabled);
    assert_eq!(m[1].id, "quit");
    assert_eq!(m[1].label, "Quit");
    assert!(m[1].enabled);
    for item in &m {
        assert!(!matches!(menu_action(&item.id), TrayAction::Nothing));
    }
}

fn png_bytes(width: u32, height: u32) -> Vec<u8> {
    let img = image::RgbaImage::from_fn(width, height, |x, y| image::Rgba([x as u8, y as u8, 7, 255]));
    let mut out = std::io::Cursor::new(Vec::new());
    image::DynamicImage::ImageRgba8(img)
        .write_to(&mut out, image::ImageFormat::Png)
        .expect("encode");
    out.into_inner()
}

#[test]
fn tray_decodes_icon_to_rgba() {
    let png = png_bytes(3, 2);
    let t = create_tray(&png).ok().expect("tray");
    assert_eq!(t.id, "main-tray");
    assert_eq!(t.tooltip, "WhatsApp");
    assert!(!t.show_menu_on_left_click);
    assert_eq!(t.menu.len(), 2);
    assert_eq!(t.icon.width, 3);
    assert_eq!(t.icon.height, 2);
    assert_eq!(t.icon.rgba.len(), 3 * 2 * 4);
    assert_eq!(&t.icon.rgba[0..4], &[0, 0, 7, 255]);
    assert_eq!(&t.icon.rgba[4..8], &[1, 0, 7, 255]);
    assert_ne!(t.icon.rgba, png);
}

#[test]
fn tray_refuses_undecodable_icon() {
    assert!(create_tray(b"definitely not an image").is_err());
    assert!(create_tray(&[]).is_err());
}
