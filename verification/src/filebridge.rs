//! Feeding files from the operating system (dropped files, a pasted
//! clipboard image) into the WhatsApp Web page: the MIME type of each file,
//! its Base64 encoding, and the script that hands the batch to the page.

use vstd::prelude::*;

use crate::encoding::{base64_decode, base64_length, base64_round_trip, base64_standard, encode_base64};
use crate::json::{entry_object, files_payload, json_array, json_object, json_string, quote_json, strings_view};
use crate::text::{extension_of, file_extension, opt_view, str_equal, to_lowercase, unicode_lowercase};

verus! {

/// The largest payload, in bytes, that is handed to the page (100 MiB).
pub const MAX_BYTES: u64 = 100 * 1024 * 1024;

/// The MIME type that a lowercase file extension stands for.
pub open spec fn mime_of_lowercase(ext: Seq<char>) -> Seq<char> {
    if ext == "png"@ {
        "image/png"@
    } else if ext == "jpg"@ || ext == "jpeg"@ {
        "image/jpeg"@
    } else if ext == "gif"@ {
        "image/gif"@
    } else if ext == "webp"@ {
        "image/webp"@
    } else if ext == "bmp"@ {
        "image/bmp"@
    } else if ext == "svg"@ {
        "image/svg+xml"@
    } else if ext == "heic"@ || ext == "heif"@ {
        "image/heic"@
    } else if ext == "mp4"@ {
        "video/mp4"@
    } else if ext == "mov"@ {
        "video/quicktime"@
    } else if ext == "webm"@ {
        "video/webm"@
    } else if ext == "mkv"@ {
        "video/x-matroska"@
    } else if ext == "mp3"@ {
        "audio/mpeg"@
    } else if ext == "ogg"@ || ext == "opus"@ {
        "audio/ogg"@
    } else if ext == "wav"@ {
        "audio/wav"@
    } else if ext == "m4a"@ {
        "audio/mp4"@
    } else if ext == "pdf"@ {
        "application/pdf"@
    } else if ext == "txt"@ {
        "text/plain"@
    } else if ext == "zip"@ {
        "application/zip"@
    } else {
        "application/octet-stream"@
    }
}

/// The MIME type of a file with the given (optional) extension: the type of
/// the extension's lowercase form, or `application/octet-stream` where the
/// file has no extension that is valid Unicode.
pub open spec fn mime_of_extension(ext: Option<Seq<char>>) -> Seq<char> {
    match ext {
        Some(e) => mime_of_lowercase(unicode_lowercase(e)),
        None => "application/octet-stream"@,
    }
}

/// The MIME type of a file depends on its extension only through the
/// extension's lowercase form: extensions that differ only in case give the
/// same type.
pub proof fn mime_ignores_case(a: Seq<char>, b: Seq<char>)
    requires
        unicode_lowercase(a) == unicode_lowercase(b),
    ensures
        mime_of_extension(Some(a)) == mime_of_extension(Some(b)),
{
}

/// The MIME type that an already lowercase extension stands for.
pub fn mime_for_lowercase(ext: &str) -> (r: &'static str)
    ensures
        r@ == mime_of_lowercase(ext@),
{
    if str_equal(ext, "png") {
        "image/png"
    } else if str_equal(ext, "jpg") || str_equal(ext, "jpeg") {
        "image/jpeg"
    } else if str_equal(ext, "gif") {
        "image/gif"
    } else if str_equal(ext, "webp") {
        "image/webp"
    } else if str_equal(ext, "bmp") {
        "image/bmp"
    } else if str_equal(ext, "svg") {
        "image/svg+xml"
    } else if str_equal(ext, "heic") || str_equal(ext, "heif") {
        "image/heic"
    } else if str_equal(ext, "mp4") {
        "video/mp4"
    } else if str_equal(ext, "mov") {
        "video/quicktime"
    } else if str_equal(ext, "webm") {
        "video/webm"
    } else if str_equal(ext, "mkv") {
        "video/x-matroska"
    } else if str_equal(ext, "mp3") {
        "audio/mpeg"
    } else if str_equal(ext, "ogg") || str_equal(ext, "opus") {
        "audio/ogg"
    } else if str_equal(ext, "wav") {
        "audio/wav"
    } else if str_equal(ext, "m4a") {
        "audio/mp4"
    } else if str_equal(ext, "pdf") {
        "application/pdf"
    } else if str_equal(ext, "txt") {
        "text/plain"
    } else if str_equal(ext, "zip") {
        "application/zip"
    } else {
        "application/octet-stream"
    }
}

/// The MIME type of a file from its extension (`Path::extension` read as
/// UTF-8), matched case-insensitively.
pub fn mime_for(extension: Option<&str>) -> (r: &'static str)
    ensures
        r@ == mime_of_extension(
            match extension {
                Some(e) => Some(e@),
                None => None,
            },
        ),
{
    match extension {
        Some(e) => {
            let lower = to_lowercase(e);
            mime_for_lowercase(lower.as_str())
        },
        None => "application/octet-stream",
    }
}


/// A file prepared for the page: its name, MIME type and Base64 content.
pub struct FileEntry {
    pub name: String,
    pub mime: String,
    pub b64: String,
}

/// The model of a [`FileEntry`].
pub struct FileEntryView {
    pub name: Seq<char>,
    pub mime: Seq<char>,
    pub b64: Seq<char>,
}

impl View for FileEntry {
    type V = FileEntryView;

    open spec fn view(&self) -> FileEntryView {
        FileEntryView { name: self.name@, mime: self.mime@, b64: self.b64@ }
    }
}

/// The views of a list of entries.
pub open spec fn entries_view(entries: Seq<FileEntry>) -> Seq<FileEntryView> {
    entries.map_values(|e: FileEntry| e@)
}

/// The entry made of a file, or none where the file is larger than
/// [`MAX_BYTES`].
pub open spec fn entry_of(name: Seq<char>, mime: Seq<char>, data: Seq<u8>) -> Option<FileEntryView> {
    if data.len() > MAX_BYTES {
        None
    } else {
        Some(FileEntryView { name, mime, b64: base64_standard(data) })
    }
}

/// The view of an optional entry.
pub open spec fn opt_entry_view(e: Option<FileEntry>) -> Option<FileEntryView> {
    match e {
        Some(x) => Some(x@),
        None => None,
    }
}

/// Prepares one file for the page; skips (returns `None` for) a payload
/// larger than [`MAX_BYTES`].
pub fn entry_for(name: &str, mime: &str, data: &[u8]) -> (r: Option<FileEntry>)
    ensures
        opt_entry_view(r) == entry_of(name@, mime@, data@),
{
    if data.len() as u64 > MAX_BYTES {
        return None;
    }
    let b64 = encode_base64(data);
    Some(FileEntry { name: name.to_owned(), mime: mime.to_owned(), b64 })
}


/// The JSON object of one entry.
pub open spec fn entry_json(e: FileEntryView) -> Seq<char> {
    json_object(json_string(e.b64), json_string(e.mime), json_string(e.name))
}

/// The JSON array handed to the page: one object per entry, in order.
pub open spec fn entries_payload(entries: Seq<FileEntryView>) -> Seq<char> {
    json_array(entries.map_values(|e: FileEntryView| entry_json(e)))
}

/// The script that hands a JSON payload to the page's `__injectFiles` hook,
/// if the page has one.
pub open spec fn inject_call(payload: Seq<char>) -> Seq<char> {
    "if(window.__injectFiles){window.__injectFiles("@ + payload + ");}"@
}

/// The script for a batch of entries; none for an empty batch.
pub open spec fn script_for(entries: Seq<FileEntryView>) -> Option<Seq<char>> {
    if entries.len() == 0 {
        None
    } else {
        Some(inject_call(entries_payload(entries)))
    }
}

/// Writes the JSON object of one entry.
fn entry_json_text(e: &FileEntry) -> (r: String)
    ensures
        r@ == entry_json(e@),
{
    let b = quote_json(e.b64.as_str()).unwrap();
    let m = quote_json(e.mime.as_str()).unwrap();
    let n = quote_json(e.name.as_str()).unwrap();
    entry_object(b.as_str(), m.as_str(), n.as_str())
}

/// The JSON array of a batch of entries.
pub fn payload_for(entries: &Vec<FileEntry>) -> (r: String)
    ensures
        r@ == entries_payload(entries_view(entries@)),
{
    let ghost all = entries_view(entries@);
    let ghost objects = all.map_values(|e: FileEntryView| entry_json(e));
    let mut items: Vec<String> = Vec::new();
    let mut i: usize = 0;
    while i < entries.len()
        invariant
            i <= entries.len(),
            all == entries_view(entries@),
            objects == all.map_values(|e: FileEntryView| entry_json(e)),
            strings_view(items@) == objects.take(i as int),
        decreases entries.len() - i,
    {
        let text = entry_json_text(&entries[i]);
        let ghost before = items@;
        items.push(text);
        assert(all[i as int] == entries@[i as int]@);
        assert(objects[i as int] == entry_json(all[i as int]));
        assert(strings_view(items@) =~= strings_view(before).push(text@));
        assert(objects.take(i + 1) =~= objects.take(i as int).push(objects[i as int]));
        assert(strings_view(items@) =~= objects.take(i + 1));
        i = i + 1;
    }
    assert(objects.take(entries.len() as int) =~= objects);
    files_payload(&items)
}

/// The script that hands a batch of entries to the page; `None` (nothing to
/// run) for an empty batch.
pub fn inject_script(entries: &Vec<FileEntry>) -> (r: Option<String>)
    ensures
        opt_view(r) == script_for(entries_view(entries@)),
{
    if entries.len() == 0 {
        return None;
    }
    let payload = payload_for(entries);
    let mut js = String::from_str("if(window.__injectFiles){window.__injectFiles(");
    js.append(payload.as_str());
    js.append(");}");
    Some(js)
}


/// A dropped file as it was found: its name (lossily decoded; none where
/// the path has no file name) and its content (none where it could not be
/// read).
pub struct DroppedFile {
    pub name: Option<String>,
    pub data: Option<Vec<u8>>,
}

/// The model of a [`DroppedFile`].
pub struct DroppedFileView {
    pub name: Option<Seq<char>>,
    pub data: Option<Seq<u8>>,
}

impl View for DroppedFile {
    type V = DroppedFileView;

    open spec fn view(&self) -> DroppedFileView {
        DroppedFileView {
            name: opt_view(self.name),
            data: match self.data {
                Some(d) => Some(d@),
                None => None,
            },
        }
    }
}

/// The views of a list of dropped files.
pub open spec fn dropped_view(files: Seq<DroppedFile>) -> Seq<DroppedFileView> {
    files.map_values(|f: DroppedFile| f@)
}

/// The entry made of a dropped file: none where it has no name, could not be
/// read, or is over the size limit; otherwise its name, the MIME type of its
/// name's extension, and its content in Base64.
#[verifier::opaque]
pub open spec fn dropped_entry(f: DroppedFileView) -> Option<FileEntryView> {
    match (f.name, f.data) {
        (Some(n), Some(d)) => entry_of(n, mime_of_extension(file_extension(n)), d),
        _ => None,
    }
}

/// The entries of a batch of dropped files, in order, leaving out those that
/// make none.
pub open spec fn dropped_entries(files: Seq<DroppedFileView>) -> Seq<FileEntryView>
    decreases files.len(),
{
    if files.len() == 0 {
        Seq::empty()
    } else {
        match dropped_entry(files.last()) {
            Some(e) => dropped_entries(files.drop_last()).push(e),
            None => dropped_entries(files.drop_last()),
        }
    }
}

/// The entry of one dropped file, if it makes one.
fn dropped_file_entry(f: &DroppedFile) -> (r: Option<FileEntry>)
    ensures
        opt_entry_view(r) == dropped_entry(f@),
{
    reveal(dropped_entry);
    match (&f.name, &f.data) {
        (Some(name), Some(data)) => {
            let ext = extension_of(name.as_str());
            let mime = match &ext {
                Some(e) => mime_for(Some(e.as_str())),
                None => mime_for(None),
            };
            entry_for(name.as_str(), mime, data.as_slice())
        },
        _ => None,
    }
}

/// The entries of a batch of dropped files, in order, leaving out those that
/// have no name, could not be read or are over the size limit.
pub fn dropped_file_entries(files: &Vec<DroppedFile>) -> (r: Vec<FileEntry>)
    ensures
        entries_view(r@) == dropped_entries(dropped_view(files@)),
{
    let ghost all = dropped_view(files@);
    let mut entries: Vec<FileEntry> = Vec::new();
    let mut i: usize = 0;
    assert(all.take(0) =~= Seq::<DroppedFileView>::empty());
    assert(entries_view(entries@) =~= Seq::<FileEntryView>::empty());
    while i < files.len()
        invariant
            i <= files.len(),
            all == dropped_view(files@),
            entries_view(entries@) == dropped_entries(all.take(i as int)),
        decreases files.len() - i,
    {
        assert(all.take(i + 1).drop_last() =~= all.take(i as int));
        assert(all.take(i + 1).last() == files@[i as int]@);
        match dropped_file_entry(&files[i]) {
            Some(e) => {
                let ghost before = entries@;
                entries.push(e);
                assert(entries_view(entries@) =~= entries_view(before).push(entries@.last()@));
            },
            None => {},
        }
        i = i + 1;
    }
    assert(all.take(files.len() as int) =~= all);
    entries
}

/// The script that hands a batch of dropped files to the page; `None` when
/// no file of the batch is within the size limit.
pub fn inject_paths(files: &Vec<DroppedFile>) -> (r: Option<String>)
    ensures
        opt_view(r) == script_for(dropped_entries(dropped_view(files@))),
{
    let entries = dropped_file_entries(files);
    inject_script(&entries)
}

/// What becomes of a clipboard read.
pub enum ClipboardOutcome {
    /// The clipboard holds no image (or could not be read): nothing is done,
    /// so that pasting text keeps working through the native path.
    NoImage,
    /// The image is larger than [`MAX_BYTES`] and is skipped.
    Oversized,
    /// The script that hands the image to the page.
    Inject(String),
}

/// The model of a [`ClipboardOutcome`].
pub enum Clipboard {
    NoImage,
    Oversized,
    Inject(Seq<char>),
}

impl View for ClipboardOutcome {
    type V = Clipboard;

    open spec fn view(&self) -> Clipboard {
        match self {
            ClipboardOutcome::NoImage => Clipboard::NoImage,
            ClipboardOutcome::Oversized => Clipboard::Oversized,
            ClipboardOutcome::Inject(s) => Clipboard::Inject(s@),
        }
    }
}

/// The outcome of reading a PNG image from the system clipboard: `read_ok`
/// says whether a clipboard tool ran and reported success, `image` is what
/// it wrote.
pub open spec fn clipboard_outcome(read_ok: bool, image: Seq<u8>) -> Clipboard {
    if !read_ok || image.len() == 0 {
        Clipboard::NoImage
    } else {
        match entry_of("pasted-image.png"@, "image/png"@, image) {
            Some(e) => Clipboard::Inject(inject_call(entries_payload(seq![e]))),
            None => Clipboard::Oversized,
        }
    }
}

/// Hands an image read from the system clipboard to the page as
/// `pasted-image.png`; does nothing when the clipboard holds no image.
pub fn inject_clipboard(read_ok: bool, image: &[u8]) -> (r: ClipboardOutcome)
    ensures
        r@ == clipboard_outcome(read_ok, image@),
{
    if !read_ok || image.len() == 0 {
        return ClipboardOutcome::NoImage;
    }
    match entry_for("pasted-image.png", "image/png", image) {
        Some(e) => {
            let mut entries: Vec<FileEntry> = Vec::new();
            entries.push(e);
            assert(entries_view(entries@) =~= seq![entries@[0]@]);
            match inject_script(&entries) {
                Some(js) => ClipboardOutcome::Inject(js),
                None => ClipboardOutcome::NoImage,
            }
        },
        None => ClipboardOutcome::Oversized,
    }
}


/// A dropped file reaches the page: it has a name, could be read, and is
/// within the size limit.
pub open spec fn usable(f: DroppedFileView) -> bool {
    &&& f.name is Some
    &&& f.data is Some
    &&& f.data->0.len() <= MAX_BYTES
}

/// The entry of a usable file: its name, the MIME type of its name's
/// extension and its Base64 content.
pub open spec fn entry_of_file(f: DroppedFileView) -> FileEntryView {
    FileEntryView {
        name: f.name->0,
        mime: mime_of_extension(file_extension(f.name->0)),
        b64: base64_standard(f.data->0),
    }
}

/// Of a batch of dropped files, exactly the usable ones reach the page, each
/// once and in the order of the batch.
pub proof fn dropped_batch_keeps_usable_files(files: Seq<DroppedFileView>)
    ensures
        dropped_entries(files) == files.filter(|f: DroppedFileView| usable(f)).map_values(
            |f: DroppedFileView| entry_of_file(f),
        ),
    decreases files.len(),
{
    reveal(Seq::filter);
    reveal(dropped_entry);
    let pred = |f: DroppedFileView| usable(f);
    let made = |f: DroppedFileView| entry_of_file(f);
    if files.len() > 0 {
        dropped_batch_keeps_usable_files(files.drop_last());
        let rest = files.drop_last().filter(pred);
        if usable(files.last()) {
            assert(rest.push(files.last()).map_values(made) =~= rest.map_values(made).push(
                made(files.last()),
            ));
        }
    } else {
        assert(files.filter(pred).map_values(made) =~= Seq::<FileEntryView>::empty());
    }
}

proof fn lemma_dropped_entries_append(a: Seq<DroppedFileView>, b: Seq<DroppedFileView>)
    ensures
        dropped_entries(a + b) == dropped_entries(a) + dropped_entries(b),
    decreases b.len(),
{
    if b.len() == 0 {
        assert(a + b =~= a);
        assert(dropped_entries(a) + dropped_entries(b) =~= dropped_entries(a));
    } else {
        lemma_dropped_entries_append(a, b.drop_last());
        assert((a + b).drop_last() =~= a + b.drop_last());
        assert((a + b).last() == b.last());
        match dropped_entry(b.last()) {
            Some(e) => {
                assert(dropped_entries(a) + dropped_entries(b.drop_last()).push(e) =~= (
                dropped_entries(a) + dropped_entries(b.drop_last())).push(e));
            },
            None => {},
        }
    }
}

/// One file that cannot reach the page (no name, unreadable, or over the size
/// limit), put anywhere into a batch of dropped files, changes nothing: the
/// others are handed over exactly as without it, and the script is the same.
pub proof fn unusable_file_changes_nothing(files: Seq<DroppedFileView>, at: int, f: DroppedFileView)
    requires
        0 <= at <= files.len(),
        dropped_entry(f) is None,
    ensures
        dropped_entries(files.insert(at, f)) == dropped_entries(files),
        script_for(dropped_entries(files.insert(at, f))) == script_for(dropped_entries(files)),
{
    let front = files.take(at);
    let back = files.skip(at);
    let one = seq![f];
    assert(files.insert(at, f) =~= front + (one + back));
    assert(files =~= front + back);
    assert(dropped_entries(one) =~= Seq::<FileEntryView>::empty()) by {
        assert(one.drop_last() =~= Seq::<DroppedFileView>::empty());
        assert(one.last() == f);
        assert(dropped_entries(one.drop_last()) =~= Seq::<FileEntryView>::empty());
    }
    assert(dropped_entries(one + back) == dropped_entries(back)) by {
        lemma_dropped_entries_append(one, back);
        assert(Seq::<FileEntryView>::empty() + dropped_entries(back) =~= dropped_entries(back));
    }
    lemma_dropped_entries_append(front, one + back);
    lemma_dropped_entries_append(front, back);
}

/// A file within the size limit is handed over whole: its entry keeps its
/// name and type, and its Base64 text, four characters for every started
/// group of three bytes, decodes back to exactly its content.
pub proof fn entry_content_reads_back(name: Seq<char>, mime: Seq<char>, data: Seq<u8>)
    requires
        data.len() <= 100 * 1024 * 1024,
    ensures
        entry_of(name, mime, data) is Some,
        entry_of(name, mime, data)->0.name == name,
        entry_of(name, mime, data)->0.mime == mime,
        base64_decode(entry_of(name, mime, data)->0.b64) == data,
        entry_of(name, mime, data)->0.b64.len() == 4 * ((data.len() + 2) / 3),
{
    base64_round_trip(data);
    base64_length(data);
}

/// A clipboard read that succeeded with a non-empty image of at most
/// 100 MiB is handed to the page, as `pasted-image.png` of type `image/png`
/// with the image's Base64 content; only a larger image is skipped as
/// oversized, and a failed or empty read does nothing.
pub proof fn clipboard_images_up_to_limit_are_pasted(read_ok: bool, image: Seq<u8>)
    ensures
        read_ok && 0 < image.len() <= 100 * 1024 * 1024 ==> clipboard_outcome(read_ok, image)
            == Clipboard::Inject(
            inject_call(
                entries_payload(
                    seq![
                        FileEntryView {
                            name: "pasted-image.png"@,
                            mime: "image/png"@,
                            b64: base64_standard(image),
                        },
                    ],
                ),
            ),
        ),
        (clipboard_outcome(read_ok, image) == Clipboard::Oversized) <==> (read_ok && image.len()
            > 100 * 1024 * 1024),
        (clipboard_outcome(read_ok, image) == Clipboard::NoImage) <==> (!read_ok || image.len()
            == 0),
{
}

/// Extensions outside the table get the generic type: any lowercase
/// extension other than `png`, `jpg`, `jpeg`, `gif`, `webp`, `bmp`, `svg`,
/// `heic`, `heif`, `mp4`, `mov`, `webm`, `mkv`, `mp3`, `ogg`, `opus`, `wav`,
/// `m4a`, `pdf`, `txt` and `zip` is `application/octet-stream`.
pub proof fn unknown_extensions_are_octet_stream(ext: Seq<char>)
    requires
        ext != "png"@,
        ext != "jpg"@,
        ext != "jpeg"@,
        ext != "gif"@,
        ext != "webp"@,
        ext != "bmp"@,
        ext != "svg"@,
        ext != "heic"@,
        ext != "heif"@,
        ext != "mp4"@,
        ext != "mov"@,
        ext != "webm"@,
        ext != "mkv"@,
        ext != "mp3"@,
        ext != "ogg"@,
        ext != "opus"@,
        ext != "wav"@,
        ext != "m4a"@,
        ext != "pdf"@,
        ext != "txt"@,
        ext != "zip"@,
    ensures
        mime_of_lowercase(ext) == "application/octet-stream"@,
{
}

/// Only `pdf` is labelled `application/pdf`.
pub proof fn only_pdf_is_pdf(ext: Seq<char>)
    requires
        mime_of_lowercase(ext) == "application/pdf"@,
    ensures
        ext == "pdf"@,
{
    reveal_strlit("application/pdf");
    reveal_strlit("image/png");
    reveal_strlit("image/jpeg");
    reveal_strlit("image/gif");
    reveal_strlit("image/webp");
    reveal_strlit("image/bmp");
    reveal_strlit("image/svg+xml");
    reveal_strlit("image/heic");
    reveal_strlit("video/mp4");
    reveal_strlit("video/quicktime");
    reveal_strlit("video/webm");
    reveal_strlit("video/x-matroska");
    reveal_strlit("audio/mpeg");
    reveal_strlit("audio/ogg");
    reveal_strlit("audio/wav");
    reveal_strlit("audio/mp4");
    reveal_strlit("text/plain");
    reveal_strlit("application/zip");
    reveal_strlit("application/octet-stream");
    assert("application/pdf"@[0] != "video/quicktime"@[0]);
    assert("application/pdf"@[12] != "application/zip"@[12]);
    assert("image/png"@.len() == 9);
    assert("image/png"@ != "application/pdf"@);
    assert("image/jpeg"@.len() == 10);
    assert("image/jpeg"@ != "application/pdf"@);
    assert("image/gif"@.len() == 9);
    assert("image/gif"@ != "application/pdf"@);
    assert("image/webp"@.len() == 10);
    assert("image/webp"@ != "application/pdf"@);
    assert("image/bmp"@.len() == 9);
    assert("image/bmp"@ != "application/pdf"@);
    assert("image/svg+xml"@.len() == 13);
    assert("image/svg+xml"@ != "application/pdf"@);
    assert("image/heic"@.len() == 10);
    assert("image/heic"@ != "application/pdf"@);
    assert("video/mp4"@.len() == 9);
    assert("video/mp4"@ != "application/pdf"@);
    assert("video/webm"@.len() == 10);
    assert("video/webm"@ != "application/pdf"@);
    assert("video/x-matroska"@.len() == 16);
    assert("video/x-matroska"@ != "application/pdf"@);
    assert("audio/mpeg"@.len() == 10);
    assert("audio/mpeg"@ != "application/pdf"@);
    assert("audio/ogg"@.len() == 9);
    assert("audio/ogg"@ != "application/pdf"@);
    assert("audio/wav"@.len() == 9);
    assert("audio/wav"@ != "application/pdf"@);
    assert("audio/mp4"@.len() == 9);
    assert("audio/mp4"@ != "application/pdf"@);
    assert("text/plain"@.len() == 10);
    assert("text/plain"@ != "application/pdf"@);
    assert("application/octet-stream"@.len() == 24);
    assert("application/octet-stream"@ != "application/pdf"@);
    assert("application/pdf"@.len() == 15);
    assert("video/quicktime"@ != "application/pdf"@);
    assert("application/zip"@ != "application/pdf"@);
}

/// Only a payload over 100 MiB is skipped.
pub proof fn only_payloads_over_limit_are_skipped(name: Seq<char>, mime: Seq<char>, data: Seq<u8>)
    ensures
        (entry_of(name, mime, data) is None) <==> data.len() > 100 * 1024 * 1024,
{
}

/// The MIME table: each listed extension stands for its type.
pub proof fn mime_table()
    ensures
        mime_of_lowercase("png"@) == "image/png"@,
        mime_of_lowercase("jpg"@) == "image/jpeg"@,
        mime_of_lowercase("jpeg"@) == "image/jpeg"@,
        mime_of_lowercase("gif"@) == "image/gif"@,
        mime_of_lowercase("webp"@) == "image/webp"@,
        mime_of_lowercase("bmp"@) == "image/bmp"@,
        mime_of_lowercase("svg"@) == "image/svg+xml"@,
        mime_of_lowercase("heic"@) == "image/heic"@,
        mime_of_lowercase("heif"@) == "image/heic"@,
        mime_of_lowercase("mp4"@) == "video/mp4"@,
        mime_of_lowercase("mov"@) == "video/quicktime"@,
        mime_of_lowercase("webm"@) == "video/webm"@,
        mime_of_lowercase("mkv"@) == "video/x-matroska"@,
        mime_of_lowercase("mp3"@) == "audio/mpeg"@,
        mime_of_lowercase("ogg"@) == "audio/ogg"@,
        mime_of_lowercase("opus"@) == "audio/ogg"@,
        mime_of_lowercase("wav"@) == "audio/wav"@,
        mime_of_lowercase("m4a"@) == "audio/mp4"@,
        mime_of_lowercase("pdf"@) == "application/pdf"@,
        mime_of_lowercase("txt"@) == "text/plain"@,
        mime_of_lowercase("zip"@) == "application/zip"@,
{
    let exts = seq![
        "png"@, "jpg"@, "jpeg"@, "gif"@, "webp"@, "bmp"@, "svg"@, "heic"@, "heif"@, "mp4"@, "mov"@,
        "webm"@, "mkv"@, "mp3"@, "ogg"@, "opus"@, "wav"@, "m4a"@, "pdf"@, "txt"@, "zip"@,
    ];
    reveal_strlit("png");
    reveal_strlit("jpg");
    reveal_strlit("jpeg");
    reveal_strlit("gif");
    reveal_strlit("webp");
    reveal_strlit("bmp");
    reveal_strlit("svg");
    reveal_strlit("heic");
    reveal_strlit("heif");
    reveal_strlit("mp4");
    reveal_strlit("mov");
    reveal_strlit("webm");
    reveal_strlit("mkv");
    reveal_strlit("mp3");
    reveal_strlit("ogg");
    reveal_strlit("opus");
    reveal_strlit("wav");
    reveal_strlit("m4a");
    reveal_strlit("pdf");
    reveal_strlit("txt");
    reveal_strlit("zip");
    assert forall|i: int, j: int| 0 <= i < j < exts.len() implies #[trigger] exts[i]
        != #[trigger] exts[j] by {
        if exts[i].len() == exts[j].len() {
            if exts[i].len() == 3 {
                assert(exts[i][0] != exts[j][0] || exts[i][1] != exts[j][1] || exts[i][2]
                    != exts[j][2]);
            } else {
                assert(exts[i][0] != exts[j][0] || exts[i][1] != exts[j][1] || exts[i][2]
                    != exts[j][2] || exts[i][3] != exts[j][3]);
            }
        }
    }
    assert(exts[0] == "png"@);
}

} // verus!
