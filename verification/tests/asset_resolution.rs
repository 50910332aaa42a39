use include_dir::{Dir, DirEntry, File};
use player_gateway::assets::resolve;

const ROOT_INDEX: &[u8] = b"<html>root</html>";
const APP_JS: &[u8] = b"console.log(\"player\");";
const SUB_INDEX: &[u8] = b"<html>sub</html>";
const NOTES: &[u8] = b"plain notes";

fn ui_tree() -> Dir<'static> {
    let sub_entries: &'static [DirEntry<'static>] = Box::leak(Box::new([DirEntry::File(
        File::new("sub/index.html", SUB_INDEX),
    )]));
    let bare_entries: &'static [DirEntry<'static>] = Box::leak(Box::new([DirEntry::File(
        File::new("bare/notes.txt", NOTES),
    )]));
    let entries: &'static [DirEntry<'static>] = Box::leak(Box::new([
        DirEntry::File(File::new("index.html", ROOT_INDEX)),
        DirEntry::File(File::new("app.js", APP_JS)),
        DirEntry::Dir(Dir::new("sub", sub_entries)),
        DirEntry::Dir(Dir::new("bare", bare_entries)),
    ]));
    Dir::new("", entries)
}

#[test]
fn root_serves_index_html() {
    let tree = ui_tree();
    let r = resolve(&tree, "");
    assert_eq!(r.status, 200);
    assert_eq!(r.content_type, "text/html");
    assert_eq!(r.body, ROOT_INDEX.to_vec());
}

#[test]
fn known_file_served_with_guessed_content_type() {
    let tree = ui_tree();
    let r = resolve(&tree, "app.js");
    assert_eq!(r.status, 200);
    assert_eq!(r.body, APP_JS.to_vec());
    // The content type must be the guess for the path, not the path itself.
    assert_eq!(
        r.content_type,
        mime_guess::from_path("app.js").first_or_octet_stream().to_string()
    );
    assert!(r.content_type.contains("javascript"));
}

#[test]
fn unknown_extension_gets_octet_stream() {
    let tree = ui_tree();
    let r = resolve(&tree, "sub/index.html");
    assert_eq!(r.status, 200);
    assert_eq!(r.content_type, "text/html");
    let entries: &'static [DirEntry<'static>] = Box::leak(Box::new([DirEntry::File(File::new(
        "blob.xyzzy",
        b"\x00\x01".as_slice(),
    ))]));
    let tree2 = Dir::new("", entries);
    let r2 = resolve(&tree2, "blob.xyzzy");
    assert_eq!(r2.status, 200);
    assert_eq!(r2.content_type, "application/octet-stream");
}

#[test]
fn missing_path_is_not_found() {
    let tree = ui_tree();
    let r = resolve(&tree, "missing");
    assert_eq!(r.status, 404);
    assert_eq!(r.content_type, "text/plain");
    assert_eq!(r.body, b"File Not Found".to_vec());
}

#[test]
fn directory_path_serves_its_index() {
    let tree = ui_tree();
    let r = resolve(&tree, "sub");
    assert_eq!(r.status, 200);
    assert_eq!(r.content_type, "text/html");
    assert_eq!(r.body, SUB_INDEX.to_vec());
}

#[test]
fn directory_without_index_is_not_found() {
    let tree = ui_tree();
    let r = resolve(&tree, "bare");
    assert_eq!(r.status, 404);
    assert_eq!(r.body, b"File Not Found".to_vec());
    // The file inside it is still served directly.
    let f = resolve(&tree, "bare/notes.txt");
    assert_eq!(f.status, 200);
    assert_eq!(f.body, NOTES.to_vec());
    assert_eq!(f.content_type, "text/plain");
}

#[test]
fn empty_tree_root_is_not_found() {
    let entries: &'static [DirEntry<'static>] = Box::leak(Box::new([]));
    let tree = Dir::new("", entries);
    let r = resolve(&tree, "");
    assert_eq!(r.status, 404);
    assert_eq!(r.content_type, "text/plain");
    assert_eq!(r.body, b"File Not Found".to_vec());
}
