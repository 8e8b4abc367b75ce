use iced_winit::clipboard::{Clipboard, Kind};

#[test]
fn unconnected_clipboard_reads_nothing() {
    let clipboard = Clipboard::unconnected();
    assert_eq!(clipboard.read(Kind::Standard), None);
    assert_eq!(clipboard.read(Kind::Primary), None);
    assert_eq!(clipboard.window_id(), None);
}

#[test]
fn unconnected_clipboard_never_holds_a_value() {
    let mut clipboard = Clipboard::unconnected();
    clipboard.write(Kind::Standard, String::from("hello"));
    assert_eq!(clipboard.read(Kind::Standard), None);
    clipboard.write(Kind::Primary, String::from("selection"));
    assert_eq!(clipboard.read(Kind::Primary), None);
}

#[test]
fn connected_clipboard_reports_its_window() {
    let clipboard = Clipboard::connect(42);
    assert_eq!(clipboard.window_id(), Some(42));
    assert_eq!(clipboard.read(Kind::Standard), None);
    assert_eq!(clipboard.read(Kind::Primary), None);
}

#[test]
fn connected_clipboard_gives_back_last_write() {
    let mut clipboard = Clipboard::connect(7);
    clipboard.write(Kind::Standard, String::from("first"));
    assert_eq!(clipboard.read(Kind::Standard), Some(String::from("first")));
    assert_eq!(clipboard.read(Kind::Primary), None);
    clipboard.write(Kind::Standard, String::from("second"));
    clipboard.write(Kind::Primary, String::from("selected"));
    assert_eq!(clipboard.read(Kind::Standard), Some(String::from("second")));
    assert_eq!(clipboard.read(Kind::Primary), Some(String::from("selected")));
    assert_eq!(clipboard.window_id(), Some(7));
}
