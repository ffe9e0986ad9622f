use whatsapp_tauri::filebridge::{
    dropped_file_entries, entry_for, inject_clipboard, inject_paths, inject_script, mime_for,
    mime_for_lowercase, payload_for, ClipboardOutcome, DroppedFile, FileEntry, MAX_BYTES,
};
use whatsapp_tauri::json::{entry_object, files_payload};

fn file(name: &str, data: &[u8]) -> DroppedFile {
    DroppedFile { name: Some(name.to_string()), data: Some(data.to_vec()) }
}

fn entry(name: &str, mime: &str, b64: &str) -> FileEntry {
    FileEntry { name: name.to_string(), mime: mime.to_string(), b64: b64.to_string() }
}

#[test]
fn mime_table_by_lowercase_extension() {
    let table = [
        ("png", "image/png"),
        ("jpg", "image/jpeg"),
        ("jpeg", "image/jpeg"),
        ("gif", "image/gif"),
        ("webp", "image/webp"),
        ("bmp", "image/bmp"),
        ("svg", "image/svg+xml"),
        ("heic", "image/heic"),
        ("heif", "image/heic"),
        ("mp4", "video/mp4"),
        ("mov", "video/quicktime"),
        ("webm", "video/webm"),
        ("mkv", "video/x-matroska"),
        ("mp3", "audio/mpeg"),
        ("ogg", "audio/ogg"),
        ("opus", "audio/ogg"),
        ("wav", "audio/wav"),
        ("m4a", "audio/mp4"),
        ("pdf", "application/pdf"),
        ("txt", "text/plain"),
        ("zip", "application/zip"),
        ("exe", "application/octet-stream"),
        ("", "application/octet-stream"),
    ];
    for (ext, mime) in table {
        assert_eq!(mime_for_lowercase(ext), mime);
        assert_eq!(mime_for(Some(ext)), mime);
    }
}

#[test]
fn mime_ignores_case() {
    assert_eq!(mime_for(Some("PNG")), "image/png");
    assert_eq!(mime_for(Some("JpEg")), "image/jpeg");
    assert_eq!(mime_for_lowercase("PNG"), "application/octet-stream");
}

#[test]
fn mime_unicode_lowercase_applies() {
    // KELVIN SIGN lowercases to an ASCII `k`.
    assert_eq!(mime_for(Some("M\u{212A}V")), "video/x-matroska");
}

#[test]
fn mime_without_extension() {
    assert_eq!(mime_for(None), "application/octet-stream");
}

#[test]
fn entry_encodes_base64() {
    let e = entry_for("note.txt", "text/plain", b"hello").expect("an entry");
    assert_eq!(e.name, "note.txt");
    assert_eq!(e.mime, "text/plain");
    assert_eq!(e.b64, "aGVsbG8=");
}

#[test]
fn entry_of_empty_file() {
    let e = entry_for("empty", "application/octet-stream", b"").expect("an entry");
    assert_eq!(e.b64, "");
}

#[test]
fn entry_at_size_limit_is_kept() {
    let data = vec![0u8; MAX_BYTES as usize];
    let e = entry_for("big.bin", "application/octet-stream", &data).expect("an entry");
    assert_eq!(e.b64.len(), (MAX_BYTES as usize).div_ceil(3) * 4);
}

#[test]
fn entry_over_size_limit_is_skipped() {
    let data = vec![0u8; MAX_BYTES as usize + 1];
    assert!(entry_for("big.bin", "application/octet-stream", &data).is_none());
}

#[test]
fn entry_object_frames_fields() {
    assert_eq!(
        entry_object("\"QQ==\"", "\"text/plain\"", "\"a.txt\""),
        "{\"b64\":\"QQ==\",\"mime\":\"text/plain\",\"name\":\"a.txt\"}"
    );
}

#[test]
fn files_payload_joins_with_commas() {
    assert_eq!(files_payload(&vec![]), "[]");
    assert_eq!(files_payload(&vec!["1".to_string()]), "[1]");
    assert_eq!(
        files_payload(&vec!["{}".to_string(), "2".to_string(), "\"x\"".to_string()]),
        "[{},2,\"x\"]"
    );
}

#[test]
fn payload_escapes_strings() {
    let p = payload_for(&vec![entry("say \"hi\".txt", "text/plain", "QQ==")]);
    assert_eq!(p, "[{\"b64\":\"QQ==\",\"mime\":\"text/plain\",\"name\":\"say \\\"hi\\\".txt\"}]");
}

#[test]
fn inject_script_wraps_payload() {
    let s = inject_script(&vec![entry("a.png", "image/png", "AAEC"), entry("b", "text/plain", "")]);
    assert_eq!(
        s,
        Some(
            "if(window.__injectFiles){window.__injectFiles([{\"b64\":\"AAEC\",\"mime\":\"image/png\",\"name\":\"a.png\"},{\"b64\":\"\",\"mime\":\"text/plain\",\"name\":\"b\"}]);}"
                .to_string()
        )
    );
}

#[test]
fn inject_script_of_nothing() {
    assert_eq!(inject_script(&vec![]), None);
}

#[test]
fn dropped_files_become_entries_in_order() {
    let files = vec![
        file("a.PNG", &[0, 1, 2]),
        file("notes", b"hi"),
        file("doc.pdf", b"%PDF"),
    ];
    let entries = dropped_file_entries(&files);
    assert_eq!(entries.len(), 3);
    assert_eq!(entries[0].name, "a.PNG");
    assert_eq!(entries[0].mime, "image/png");
    assert_eq!(entries[0].b64, "AAEC");
    assert_eq!(entries[1].mime, "application/octet-stream");
    assert_eq!(entries[1].b64, "aGk=");
    assert_eq!(entries[2].mime, "application/pdf");
    assert_eq!(entries[2].b64, "JVBERg==");
}

#[test]
fn oversized_dropped_file_is_left_out() {
    let big = vec![1u8; MAX_BYTES as usize + 1];
    let files = vec![
        file("big.zip", &big),
        file("small.txt", b"x"),
    ];
    let entries = dropped_file_entries(&files);
    assert_eq!(entries.len(), 1);
    assert_eq!(entries[0].name, "small.txt");
    let script = inject_paths(&files).expect("a script");
    assert!(script.contains("\"name\":\"small.txt\""));
    assert!(!script.contains("big.zip"));
}

#[test]
fn drop_of_nothing_usable_injects_nothing() {
    assert_eq!(inject_paths(&vec![]), None);
    let big = vec![1u8; MAX_BYTES as usize + 1];
    assert_eq!(inject_paths(&vec![file("big", &big)]), None);
}

#[test]
fn clipboard_image_is_injected() {
    match inject_clipboard(true, &[137, 80, 78, 71]) {
        ClipboardOutcome::Inject(js) => assert_eq!(
            js,
            "if(window.__injectFiles){window.__injectFiles([{\"b64\":\"iVBORw==\",\"mime\":\"image/png\",\"name\":\"pasted-image.png\"}]);}"
        ),
        _ => panic!("expected an injection"),
    }
}

#[test]
fn clipboard_without_image_does_nothing() {
    assert!(matches!(inject_clipboard(true, &[]), ClipboardOutcome::NoImage));
    assert!(matches!(inject_clipboard(false, &[1, 2, 3]), ClipboardOutcome::NoImage));
}

#[test]
fn clipboard_oversized_image_is_skipped() {
    let big = vec![1u8; MAX_BYTES as usize + 1];
    assert!(matches!(inject_clipboard(true, &big), ClipboardOutcome::Oversized));
}

#[test]
fn unreadable_or_nameless_files_are_left_out() {
    let files = vec![
        DroppedFile { name: Some("gone.txt".to_string()), data: None },
        DroppedFile { name: None, data: Some(b"x".to_vec()) },
        file("kept.gif", b"GIF"),
    ];
    let entries = dropped_file_entries(&files);
    assert_eq!(entries.len(), 1);
    assert_eq!(entries[0].name, "kept.gif");
    assert_eq!(entries[0].mime, "image/gif");
    assert_eq!(inject_paths(&files), inject_paths(&vec![file("kept.gif", b"GIF")]));
}

#[test]
fn unusable_file_anywhere_changes_nothing() {
    let base = vec![file("a.txt", b"a"), file("b.txt", b"b")];
    let expected = inject_paths(&base);
    let big = vec![0u8; MAX_BYTES as usize + 1];
    for at in 0..=base.len() {
        let mut with = vec![file("a.txt", b"a"), file("b.txt", b"b")];
        with.insert(at, file("huge.bin", &big));
        assert_eq!(inject_paths(&with), expected);
        let mut with = vec![file("a.txt", b"a"), file("b.txt", b"b")];
        with.insert(at, DroppedFile { name: None, data: Some(b"z".to_vec()) });
        assert_eq!(inject_paths(&with), expected);
    }
}

#[test]
fn mime_from_file_name_extension() {
    let entries = dropped_file_entries(&vec![
        file(".bashrc", b"x"),
        file("archive.tar.zip", b"x"),
        file("video.MKV", b"x"),
        file("trailing.", b"x"),
        file(".hidden.pdf", b"x"),
    ]);
    assert_eq!(entries[0].mime, "application/octet-stream");
    assert_eq!(entries[1].mime, "application/zip");
    assert_eq!(entries[2].mime, "video/x-matroska");
    assert_eq!(entries[3].mime, "application/octet-stream");
    assert_eq!(entries[4].mime, "application/pdf");
}

#[test]
fn entry_json_escapes_control_characters() {
    let p = payload_for(&vec![entry("a\nb\u{1}\\", "text/plain", "")]);
    assert_eq!(p, "[{\"b64\":\"\",\"mime\":\"text/plain\",\"name\":\"a\\nb\\u0001\\\\\"}]");
}

#[test]
fn base64_lengths() {
    for n in 0..10usize {
        let data = vec![0xABu8; n];
        let e = entry_for("f", "x", &data).expect("an entry");
        assert_eq!(e.b64.len(), n.div_ceil(3) * 4);
    }
    assert_eq!(entry_for("f", "x", b"f").unwrap().b64, "Zg==");
    assert_eq!(entry_for("f", "x", b"fo").unwrap().b64, "Zm8=");
    assert_eq!(entry_for("f", "x", b"foo").unwrap().b64, "Zm9v");
    assert_eq!(entry_for("f", "x", &[0xfb, 0xff]).unwrap().b64, "+/8=");
}
