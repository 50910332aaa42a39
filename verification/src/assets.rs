//! Static-asset resolution against the embedded, immutable asset tree:
//! serve a file at its exact path with a content type guessed from its
//! extension, fall back to `index.html` for the root and for directory
//! paths, and answer anything else with a plain-text not-found response.
use vstd::prelude::*;
use vstd::string::StringSliceAdditionalSpecFns;

use include_dir::Dir;

verus! {

#[verifier::external_type_specification]
#[verifier::external_body]
pub struct ExDir<'a>(Dir<'a>);

/// The files the embedded tree serves: for each path string under which a
/// lookup finds a file, the bytes of that file.
pub uninterp spec fn dir_files(d: Dir<'static>) -> Map<Seq<char>, Seq<u8>>;

/// The path strings under which a lookup finds a directory of the tree.
pub uninterp spec fn dir_dirs(d: Dir<'static>) -> Set<Seq<char>>;

/// Relies on include_dir::Dir::get_file and include_dir::File::contents:
/// looks a file up by its relative path and yields its raw bytes, finding
/// one exactly for the paths the tree stores a file under.
#[verifier::external_body]
fn lookup_file(d: &Dir<'static>, path: &str) -> (r: Option<Vec<u8>>)
    ensures
        r is Some <==> dir_files(*d).contains_key(path@),
        r is Some ==> r->Some_0@ == dir_files(*d)[path@],
{
    d.get_file(path).map(|f| f.contents().to_vec())
}

/// Relies on include_dir::Dir::get_dir: tells whether the tree stores a
/// directory under this relative path.
#[verifier::external_body]
fn lookup_dir(d: &Dir<'static>, path: &str) -> (r: bool)
    ensures
        r == dir_dirs(*d).contains(path@),
{
    d.get_dir(path).is_some()
}

/// The content type guessed for a path: a pure function of the path alone.
pub uninterp spec fn guessed_mime(path: Seq<char>) -> Seq<char>;

/// Relies on mime_guess::from_path and MimeGuess::first_or_octet_stream: the
/// guess is computed from the path's extension against a fixed table, with
/// application/octet-stream for an unknown extension, so it depends on the
/// path alone.
#[verifier::external_body]
fn guess_mime(path: &str) -> (r: String)
    ensures
        r@ == guessed_mime(path@),
{
    mime_guess::from_path(path).first_or_octet_stream().to_string()
}

/// How a static-asset request is answered.
pub struct AssetResponse {
    pub status: u16,
    pub content_type: String,
    pub body: Vec<u8>,
}

/// The mathematical content of an asset response.
pub struct AssetResponseModel {
    pub status: int,
    pub content_type: Seq<char>,
    pub body: Seq<u8>,
}

impl View for AssetResponse {
    type V = AssetResponseModel;

    open spec fn view(&self) -> AssetResponseModel {
        AssetResponseModel {
            status: self.status as int,
            content_type: self.content_type@,
            body: self.body@,
        }
    }
}

/// The index file consulted for a path: `index.html` at the tree root for
/// the empty (root) path, `<path>/index.html` below a directory.
pub open spec fn index_path(path: Seq<char>) -> Seq<char> {
    if path.len() == 0 {
        "index.html"@
    } else {
        path + "/index.html"@
    }
}

/// The not-found response: a terse plain-text body, exposing no internal
/// detail.
pub open spec fn spec_not_found() -> AssetResponseModel {
    AssetResponseModel {
        status: 404,
        content_type: "text/plain"@,
        body: "File Not Found".spec_bytes(),
    }
}

/// The directory-index fallback: the index file under the path if the tree
/// has it, served as text/html, else not found.
pub open spec fn spec_serve_index(
    files: Map<Seq<char>, Seq<u8>>,
    path: Seq<char>,
) -> AssetResponseModel {
    if files.contains_key(index_path(path)) {
        AssetResponseModel {
            status: 200,
            content_type: "text/html"@,
            body: files[index_path(path)],
        }
    } else {
        spec_not_found()
    }
}

/// The resolution policy: the root path serves the root index file; a path
/// naming a file serves that file with its guessed content type; a path
/// naming a directory serves that directory's index file; anything else is
/// not found.
pub open spec fn spec_resolve(
    files: Map<Seq<char>, Seq<u8>>,
    dirs: Set<Seq<char>>,
    path: Seq<char>,
) -> AssetResponseModel {
    if path.len() == 0 {
        spec_serve_index(files, path)
    } else if files.contains_key(path) {
        AssetResponseModel { status: 200, content_type: guessed_mime(path), body: files[path] }
    } else if dirs.contains(path) {
        spec_serve_index(files, path)
    } else {
        spec_not_found()
    }
}

fn not_found_response() -> (r: AssetResponse)
    ensures
        r@ == spec_not_found(),
{
    AssetResponse {
        status: 404,
        content_type: String::from_str("text/plain"),
        body: "File Not Found".as_bytes_vec(),
    }
}

fn serve_index(tree: &Dir<'static>, path: &str) -> (r: AssetResponse)
    ensures
        r@ == spec_serve_index(dir_files(*tree), path@),
{
    let joined: String = if path.is_empty() {
        String::from_str("index.html")
    } else {
        let mut s = String::from_str(path);
        s.append("/index.html");
        s
    };
    assert(joined@ == index_path(path@));
    match lookup_file(tree, joined.as_str()) {
        Some(body) => AssetResponse {
            status: 200,
            content_type: String::from_str("text/html"),
            body,
        },
        None => not_found_response(),
    }
}

/// Resolve a request path against the embedded tree, exactly as the
/// resolution policy prescribes.
pub fn resolve(tree: &Dir<'static>, path: &str) -> (r: AssetResponse)
    ensures
        r@ == spec_resolve(dir_files(*tree), dir_dirs(*tree), path@),
{
    if path.is_empty() {
        return serve_index(tree, path);
    }
    match lookup_file(tree, path) {
        Some(body) => AssetResponse { status: 200, content_type: guess_mime(path), body },
        None => if lookup_dir(tree, path) {
            serve_index(tree, path)
        } else {
            not_found_response()
        },
    }
}

} // verus!
