use freya_platform::clipboard::{ClipboardError, ClipboardImage, WebClipboard};

#[test]
fn get_text_returns_the_paste() {
    let mut clipboard = WebClipboard;
    assert_eq!(clipboard.get_text(Some("hello".to_string())), Ok("hello".to_string()));
    assert_eq!(clipboard.get_text(Some(String::new())), Ok(String::new()));
}

#[test]
fn get_text_without_paste_fails_to_read() {
    let mut clipboard = WebClipboard;
    assert_eq!(clipboard.get_text(None), Err(ClipboardError::FailedToRead));
}

#[test]
fn copy_script_plain_text() {
    assert_eq!(WebClipboard::copy_script("hello"), "window.__freyaIme.copy(\"hello\");");
    assert_eq!(WebClipboard::copy_script(""), "window.__freyaIme.copy(\"\");");
}

#[test]
fn copy_script_escapes_contents() {
    assert_eq!(
        WebClipboard::copy_script("say \"hi\"\n\\"),
        "window.__freyaIme.copy(\"say \\\"hi\\\"\\n\\\\\");"
    );
    let contents = "a\"b\tc";
    assert_eq!(
        WebClipboard::copy_script(contents),
        format!("window.__freyaIme.copy({contents:?});")
    );
}

#[test]
fn images_are_not_available() {
    let mut clipboard = WebClipboard;
    assert_eq!(clipboard.get_image(), Err(ClipboardError::NotAvailable));
    let image = ClipboardImage { width: 1, height: 1, bytes: vec![0, 0, 0, 255] };
    assert_eq!(clipboard.set_image(image), Err(ClipboardError::NotAvailable));
}
