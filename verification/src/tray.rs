//! The system tray icon: its menu, its icon image, and what its menu items
//! and clicks do.

use vstd::prelude::*;

use crate::text::str_equal;

verus! {

/// What a tray interaction does.
pub enum TrayAction {
    /// Reveal and focus the window with the given label.
    ShowWindow(String),
    /// Terminate the process.
    Quit,
    /// Nothing.
    Nothing,
}

/// The model of a [`TrayAction`].
pub enum TrayActionView {
    ShowWindow(Seq<char>),
    Quit,
    Nothing,
}

impl View for TrayAction {
    type V = TrayActionView;

    open spec fn view(&self) -> TrayActionView {
        match self {
            TrayAction::ShowWindow(w) => TrayActionView::ShowWindow(w@),
            TrayAction::Quit => TrayActionView::Quit,
            TrayAction::Nothing => TrayActionView::Nothing,
        }
    }
}

/// What choosing the tray menu item with the given id does: `quit` ends the
/// process, `show` reveals the `main` window.
pub open spec fn menu_item_action(id: Seq<char>) -> TrayActionView {
    if id == "quit"@ {
        TrayActionView::Quit
    } else if id == "show"@ {
        TrayActionView::ShowWindow("main"@)
    } else {
        TrayActionView::Nothing
    }
}

fn show_main() -> (r: TrayAction)
    ensures
        r@ == TrayActionView::ShowWindow("main"@),
{
    TrayAction::ShowWindow(String::from_str("main"))
}

/// What choosing a tray menu item does.
pub fn menu_action(id: &str) -> (r: TrayAction)
    ensures
        r@ == menu_item_action(id@),
{
    if str_equal(id, "quit") {
        TrayAction::Quit
    } else if str_equal(id, "show") {
        show_main()
    } else {
        TrayAction::Nothing
    }
}

/// An event on the tray icon itself.
pub enum TrayEvent {
    /// A click (press or release), with the left button or another.
    Click { left_button: bool },
    /// Any other event (hover, enter, leave, ...).
    Other,
}

/// What an event on the tray icon does: a left click reveals the `main`
/// window.
pub open spec fn tray_icon_action(event: TrayEvent) -> TrayActionView {
    match event {
        TrayEvent::Click { left_button } => if left_button {
            TrayActionView::ShowWindow("main"@)
        } else {
            TrayActionView::Nothing
        },
        TrayEvent::Other => TrayActionView::Nothing,
    }
}

/// What an event on the tray icon does.
pub fn tray_event_action(event: &TrayEvent) -> (r: TrayAction)
    ensures
        r@ == tray_icon_action(*event),
{
    match event {
        TrayEvent::Click { left_button } => if *left_button {
            show_main()
        } else {
            TrayAction::Nothing
        },
        TrayEvent::Other => TrayAction::Nothing,
    }
}

/// An item of the tray menu.
pub struct MenuEntry {
    pub id: String,
    pub label: String,
    pub enabled: bool,
}

/// The model of a [`MenuEntry`].
pub struct MenuEntryView {
    pub id: Seq<char>,
    pub label: Seq<char>,
    pub enabled: bool,
}

impl View for MenuEntry {
    type V = MenuEntryView;

    open spec fn view(&self) -> MenuEntryView {
        MenuEntryView { id: self.id@, label: self.label@, enabled: self.enabled }
    }
}

/// The tray menu: "Show WhatsApp", then "Quit", both enabled.
pub open spec fn tray_menu_spec() -> Seq<MenuEntryView> {
    seq![
        MenuEntryView { id: "show"@, label: "Show WhatsApp"@, enabled: true },
        MenuEntryView { id: "quit"@, label: "Quit"@, enabled: true },
    ]
}

/// The tray menu.
pub fn tray_menu() -> (r: Vec<MenuEntry>)
    ensures
        r@.map_values(|e: MenuEntry| e@) == tray_menu_spec(),
{
    let mut menu: Vec<MenuEntry> = Vec::new();
    menu.push(
        MenuEntry {
            id: String::from_str("show"),
            label: String::from_str("Show WhatsApp"),
            enabled: true,
        },
    );
    menu.push(
        MenuEntry { id: String::from_str("quit"), label: String::from_str("Quit"), enabled: true },
    );
    assert(menu@.map_values(|e: MenuEntry| e@) =~= tray_menu_spec());
    menu
}

#[verifier::external_type_specification]
#[verifier::external_body]
pub struct ExImageError(image::ImageError);

/// The 8-bit RGBA pixels, width and height of an encoded image as
/// `image::load_from_memory` decodes it and `DynamicImage::to_rgba8`
/// converts it; `None` where the image cannot be decoded.
pub uninterp spec fn rgba8_of(encoded: Seq<u8>) -> Option<(Seq<u8>, u32, u32)>;

/// Calls `image::load_from_memory`, converts the image with `to_rgba8` and
/// takes its raw buffer, width and height. The result is named [`rgba8_of`]
/// of the input; decoding is not restated here. The buffer holds four bytes
/// per pixel: the decoders fill a buffer of exactly `width * height` pixels
/// (`decoder_to_vec`), and `to_rgba8` either clones an RGBA8 buffer or casts
/// into one of the same pixel count.
#[verifier::external_body]
fn decode_rgba8(encoded: &[u8]) -> (r: Result<(Vec<u8>, u32, u32), image::ImageError>)
    ensures
        match r {
            Ok(d) => rgba8_of(encoded@) == Some((d.0@, d.1, d.2)) && d.0@.len() == 4 * d.1 * d.2,
            Err(_) => rgba8_of(encoded@) is None,
        },
{
    match image::load_from_memory(encoded) {
        Ok(img) => {
            let rgba = img.to_rgba8();
            let width = rgba.width();
            let height = rgba.height();
            Ok((rgba.into_raw(), width, height))
        },
        Err(e) => Err(e),
    }
}

/// An icon as 8-bit RGBA pixels.
pub struct IconImage {
    pub rgba: Vec<u8>,
    pub width: u32,
    pub height: u32,
}

/// Why the tray could not be set up.
pub enum TrayError {
    /// The bundled icon could not be decoded, for the reason given.
    IconDecode(image::ImageError),
}

/// The tray icon as it is built: its id, tooltip, menu and icon, with the
/// menu shown on right click only.
pub struct TraySpec {
    pub id: String,
    pub tooltip: String,
    pub show_menu_on_left_click: bool,
    pub menu: Vec<MenuEntry>,
    pub icon: IconImage,
}

/// Builds the tray from the bundled icon (PNG bytes), decoded to 8-bit RGBA
/// explicitly (the generated icons can be 16-bit, which the tray refuses).
pub fn create_tray(icon_png: &[u8]) -> (r: Result<TraySpec, TrayError>)
    ensures
        r is Err <==> rgba8_of(icon_png@) is None,
        r matches Ok(t) ==> {
            &&& t.id@ == "main-tray"@
            &&& t.tooltip@ == "WhatsApp"@
            &&& !t.show_menu_on_left_click
            &&& t.menu@.map_values(|e: MenuEntry| e@) == tray_menu_spec()
            &&& rgba8_of(icon_png@) == Some((t.icon.rgba@, t.icon.width, t.icon.height))
            &&& t.icon.rgba@.len() == 4 * t.icon.width * t.icon.height
        },
{
    let (rgba, width, height) = match decode_rgba8(icon_png) {
        Ok(d) => d,
        Err(e) => return Err(TrayError::IconDecode(e)),
    };
    Ok(
        TraySpec {
            id: String::from_str("main-tray"),
            tooltip: String::from_str("WhatsApp"),
            show_menu_on_left_click: false,
            menu: tray_menu(),
            icon: IconImage { rgba, width, height },
        },
    )
}


/// The menu's "Show WhatsApp" item and a left click on the icon do the same
/// thing: reveal the `main` window.
pub proof fn show_item_and_left_click_agree()
    ensures
        menu_item_action("show"@) == tray_icon_action(TrayEvent::Click { left_button: true }),
        menu_item_action("show"@) == TrayActionView::ShowWindow("main"@),
{
    reveal_strlit("show");
    reveal_strlit("quit");
    assert("show"@[0] != "quit"@[0]);
}

/// Every item of the tray menu does something, and the "Quit" item ends the
/// process.
pub proof fn every_menu_item_acts()
    ensures
        forall|i: int|
            0 <= i < tray_menu_spec().len() ==> menu_item_action(#[trigger] tray_menu_spec()[i].id)
                != TrayActionView::Nothing,
        menu_item_action(tray_menu_spec()[1].id) == TrayActionView::Quit,
{
    reveal_strlit("show");
    reveal_strlit("quit");
    assert("show"@[0] != "quit"@[0]);
    assert(tray_menu_spec()[0].id == "show"@);
    assert(tray_menu_spec()[1].id == "quit"@);
}

} // verus!
