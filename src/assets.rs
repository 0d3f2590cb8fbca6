use vstd::prelude::*;

use crate::path::{skip_leading_slashes, strip_leading_slashes};
use crate::text::{has_prefix, text_eq, text_starts_with};

verus! {

/// The media type registered for a path's extension, or
/// `application/octet-stream` where there is none.
pub uninterp spec fn mime_for(path: Seq<char>) -> Seq<char>;

/// Relies on `mime_guess::from_path` and `MimeGuess::first_or_octet_stream`:
/// the guess is read from a fixed table by the path's extension, so it
/// depends on the path alone.
#[verifier::external_body]
fn guess_mime(path: &str) -> (r: String)
    ensures
        r@ == mime_for(path@),
{
    mime_guess::from_path(path).first_or_octet_stream().to_string()
}

/// The media type under which a file or an asset is sent.
pub fn content_type_for(path: &str) -> (r: String)
    ensures
        r@ == mime_for(path@),
{
    guess_mime(path)
}

/// The `Content-Disposition` value that shows a file in place under its name.
pub open spec fn disposition(name: Seq<char>) -> Seq<char> {
    "inline; filename=\""@ + name + "\""@
}

/// The content type and the disposition of a downloaded file.
pub fn download_headers(file_name: &str) -> (r: (String, String))
    ensures
        r.0@ == mime_for(file_name@),
        r.1@ == disposition(file_name@),
{
    let mime = guess_mime(file_name);
    let mut d = String::from_str("inline; filename=\"");
    d.append(file_name);
    d.append("\"");
    (mime, d)
}

/// Two dots stand in `p` at `i` and `i + 1`.
pub open spec fn dots_at(p: Seq<char>, i: int) -> bool {
    0 <= i && i + 1 < p.len() && p[i] == '.' && p[i + 1] == '.'
}

/// `p` holds two dots in a row.
pub open spec fn has_dot_dot(p: Seq<char>) -> bool {
    exists|i: int| #[trigger] dots_at(p, i)
}

/// The asset that a request path names: leading slashes dropped, the index
/// page for an empty path, and nothing where the path holds `..`.
pub open spec fn asset_path_spec(uri_path: Seq<char>) -> Option<Seq<char>> {
    let t = strip_leading_slashes(uri_path);
    let p = if t.len() == 0 {
        "index.html"@
    } else {
        t
    };
    if has_dot_dot(p) {
        None
    } else {
        Some(p)
    }
}

fn find_dot_dot(s: &str) -> (r: bool)
    ensures
        r == has_dot_dot(s@),
{
    let n = s.unicode_len();
    if n < 2 {
        proof {
            assert forall|j: int| !#[trigger] dots_at(s@, j) by {}
        }
        return false;
    }
    let mut i: usize = 0;
    while i + 1 < n
        invariant
            n == s@.len(),
            n >= 2,
            i + 1 <= n,
            forall|j: int| 0 <= j < i ==> !#[trigger] dots_at(s@, j),
        decreases n - i,
    {
        if s.get_char(i) == '.' && s.get_char(i + 1) == '.' {
            proof {
                assert(dots_at(s@, i as int));
            }
            return true;
        }
        i = i + 1;
    }
    false
}

/// The asset that the request path `uri_path` names, if it may be served.
pub fn asset_path(uri_path: &str) -> (r: Option<String>)
    ensures
        r is Some <==> asset_path_spec(uri_path@) is Some,
        r is Some ==> r->Some_0@ == asset_path_spec(uri_path@)->Some_0,
{
    let n = uri_path.unicode_len();
    let k = skip_leading_slashes(uri_path);
    let p = if k == n {
        String::from_str("index.html")
    } else {
        String::from_str(uri_path.substring_char(k, n))
    };
    if find_dot_dot(p.as_str()) {
        None
    } else {
        Some(p)
    }
}

/// Whether a missing asset is answered with the index page, so that the
/// single-page client can route it: never for the API, and, when assets come
/// from disk, not for the index page itself.
pub fn index_fallback(path: &str, from_disk: bool) -> (r: bool)
    ensures
        r == (!has_prefix(path@, "api/"@) && !(from_disk && path@ == "index.html"@)),
{
    !text_starts_with(path, "api/") && !(from_disk && text_eq(path, "index.html"))
}

} // verus!
