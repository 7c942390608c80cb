use tray_icon::decimal::decimal_string;
use tray_icon::error::{MenuError, TrayError, WinError};
use tray_icon::menu::{ActionId, MenuItem};
use tray_icon::string::NativeString;
use tray_icon::tray::{IconImage, MenuEntry, Tray};
use tray_icon::util::{get_x, get_y, hiword, loword};

#[test]
fn loword_and_hiword_split_the_low_word() {
    let packed: usize = 0xABCD_1234;
    assert_eq!(loword(packed), 0x1234);
    assert_eq!(hiword(packed), 0xABCD);
    assert_eq!(loword(0), 0);
    assert_eq!(hiword(0), 0);
}

#[test]
fn hiword_ignores_bits_above_32() {
    let packed: usize = 0xFFFF_0005_0001_0002;
    assert_eq!(loword(packed), 0x0002);
    assert_eq!(hiword(packed), 0x0001);
}

#[test]
fn coordinates_are_signed_16_bit() {
    // x = -1, y = -2 packed as two's complement halves
    let packed: usize = 0xFFFE_FFFF;
    assert_eq!(get_x(packed), -1);
    assert_eq!(get_y(packed), -2);
    let packed2: usize = 0x0040_0030;
    assert_eq!(get_x(packed2), 0x30);
    assert_eq!(get_y(packed2), 0x40);
    assert_eq!(get_x(0x8000), -32768);
    assert_eq!(get_x(0x7FFF), 32767);
}

#[test]
fn native_string_encodes_utf16_with_terminator() {
    let s = NativeString::new("Hi");
    assert_eq!(s.as_ptr(), &[0x48u16, 0x69, 0][..]);
    assert_eq!(s.len(), 3);
}

#[test]
fn native_string_encodes_surrogate_pairs() {
    // U+1F600 encodes as the pair D83D DE00
    let s = NativeString::new("a\u{1F600}");
    assert_eq!(s.as_ptr(), &[0x61u16, 0xD83D, 0xDE00, 0][..]);
    assert_eq!(s.len(), 4);
}

#[test]
fn native_string_empty_is_just_the_terminator() {
    let s = NativeString::new("");
    assert_eq!(s.as_ptr(), &[0u16][..]);
    assert_eq!(s.len(), 1);
}

#[test]
fn native_string_pads_to_fixed_fields() {
    let s = NativeString::new("ab");
    let padded = s.to_padded(6);
    assert_eq!(padded, vec![0x61, 0x62, 0, 0, 0, 0]);
}

#[test]
fn decimal_string_renders_small_values() {
    assert_eq!(decimal_string(0), "0");
    assert_eq!(decimal_string(7), "7");
    assert_eq!(decimal_string(10), "10");
    assert_eq!(decimal_string(12345), "12345");
}

#[test]
fn decimal_string_renders_the_largest_identifier() {
    assert_eq!(
        decimal_string(u128::MAX),
        "340282366920938463463374607431768211455"
    );
}

#[test]
fn win_error_carries_code_and_message() {
    let e = WinError::new(5, String::from("Access is denied."));
    assert_eq!(e.code(), 5);
    assert_eq!(e.message().as_str(), "Access is denied.");
}

#[test]
fn tray_error_descriptions_and_sources() {
    let e = WinError::new(2, String::from("not found"));
    let err = TrayError::WindowCreate(e);
    assert_eq!(err.describe(), "Failed to create tray window.");
    assert_eq!(err.source_error().unwrap().code(), 2);
    assert_eq!(TrayError::Display.describe(), "Failed to display notify icon.");
    assert!(TrayError::Display.source_error().is_none());
    assert_eq!(
        TrayError::Version.describe(),
        "Notify icon API version is not supported by the OS."
    );
    assert!(TrayError::Version.source_error().is_none());
    assert_eq!(TrayError::Dbus.describe(), "DBus error");
}

#[test]
fn menu_error_descriptions() {
    let e = WinError::new(8, String::from("out of memory"));
    assert_eq!(
        MenuError::Create(e).describe(),
        "Failed to create popup menu."
    );
    assert_eq!(
        MenuError::WindowForground.describe(),
        "Failed to bring dummy window to foreground."
    );
}

#[test]
fn tray_exposes_its_configuration() {
    let mut tray = Tray::new(42, "My App");
    assert_eq!(tray.guid(), 42);
    assert_eq!(tray.id(), "42");
    assert_eq!(tray.title(), "My App");
    assert_eq!(tray.category(), "ApplicationStatus");
    assert!(!tray.watcher_offine());
    assert!(tray.activate().is_none());
    tray.set_click(ActionId(3));
    assert_eq!(tray.activate(), Some(ActionId(3)));
}

#[test]
fn tray_icon_pixmap_defaults_to_empty() {
    let tray = Tray::new(1, "t");
    assert!(tray.icon_pixmap().is_empty());
}

#[test]
fn tray_icon_pixmap_returns_the_images() {
    let mut tray = Tray::new(1, "t");
    tray.set_icon(vec![IconImage { width: 2, height: 2, data: vec![1, 2, 3, 4] }]);
    let px = tray.icon_pixmap();
    assert_eq!(px.len(), 1);
    assert_eq!(px[0].width, 2);
    assert_eq!(px[0].height, 2);
    assert_eq!(px[0].data, vec![1, 2, 3, 4]);
}

#[test]
fn menu_renders_items_in_order() {
    let mut tray = Tray::new(9, "t");
    tray.set_menu(vec![
        MenuItem::button("Open", ActionId(1)),
        MenuItem::label("Status: idle"),
        MenuItem::separator(),
        MenuItem::button("Quit", ActionId(2)),
    ]);
    let entries = tray.menu();
    assert_eq!(entries.len(), 4);
    match &entries[0] {
        MenuEntry::Standard { label, enabled, action } => {
            assert_eq!(label.as_str(), "Open");
            assert!(*enabled);
            assert_eq!(*action, Some(ActionId(1)));
        }
        MenuEntry::Separator => panic!("expected a standard entry"),
    }
    match &entries[1] {
        MenuEntry::Standard { label, enabled, action } => {
            assert_eq!(label.as_str(), "Status: idle");
            assert!(!*enabled);
            assert!(action.is_none());
        }
        MenuEntry::Separator => panic!("expected a standard entry"),
    }
    assert!(matches!(entries[2], MenuEntry::Separator));
    match &entries[3] {
        MenuEntry::Standard { label, enabled, action } => {
            assert_eq!(label.as_str(), "Quit");
            assert!(*enabled);
            assert_eq!(*action, Some(ActionId(2)));
        }
        MenuEntry::Separator => panic!("expected a standard entry"),
    }
}

#[test]
fn menu_of_a_tray_without_one_is_empty() {
    let tray = Tray::new(9, "t");
    assert!(tray.menu().is_empty());
}
