//! The compute side of the asset resolver and the static-file collaborator:
//! normalizing an asset request's path, picking a MIME type for a file
//! extension, and reading the request target out of an HTTP request line.
//! The platform layer does the reading and writing.

use vstd::prelude::*;
use vstd::string::{StrSliceExecFns, StringExecFns};
use crate::strutil::str_eq;

verus! {

/// The MIME type served for an asset file's extension.
pub open spec fn spec_asset_mime(ext: Seq<char>) -> Seq<char> {
    if ext == "png"@ {
        "image/png"@
    } else if ext == "svg"@ {
        "image/svg+xml"@
    } else if ext == "ico"@ {
        "image/x-icon"@
    } else if ext == "html"@ {
        "text/html"@
    } else if ext == "css"@ {
        "text/css"@
    } else if ext == "js"@ {
        "text/javascript"@
    } else {
        "application/octet-stream"@
    }
}

/// Picks the MIME type for an asset file's extension, as `spec_asset_mime`
/// says.
pub fn asset_mime_type(ext: &str) -> (r: &'static str)
    ensures
        r@ == spec_asset_mime(ext@),
{
    if str_eq(ext, "png") {
        "image/png"
    } else if str_eq(ext, "svg") {
        "image/svg+xml"
    } else if str_eq(ext, "ico") {
        "image/x-icon"
    } else if str_eq(ext, "html") {
        "text/html"
    } else if str_eq(ext, "css") {
        "text/css"
    } else if str_eq(ext, "js") {
        "text/javascript"
    } else {
        "application/octet-stream"
    }
}

/// The content type the static-file collaborator serves for an extension.
pub open spec fn spec_static_content_type(ext: Seq<char>) -> Seq<char> {
    if ext == "html"@ {
        "text/html"@
    } else if ext == "css"@ {
        "text/css"@
    } else if ext == "js"@ {
        "application/javascript"@
    } else if ext == "json"@ {
        "application/json"@
    } else if ext == "png"@ {
        "image/png"@
    } else if ext == "jpg"@ || ext == "jpeg"@ {
        "image/jpeg"@
    } else if ext == "svg"@ {
        "image/svg+xml"@
    } else {
        "application/octet-stream"@
    }
}

/// Picks the content type for a served file's extension, as
/// `spec_static_content_type` says.
pub fn static_content_type(ext: &str) -> (r: &'static str)
    ensures
        r@ == spec_static_content_type(ext@),
{
    if str_eq(ext, "html") {
        "text/html"
    } else if str_eq(ext, "css") {
        "text/css"
    } else if str_eq(ext, "js") {
        "application/javascript"
    } else if str_eq(ext, "json") {
        "application/json"
    } else if str_eq(ext, "png") {
        "image/png"
    } else if str_eq(ext, "jpg") || str_eq(ext, "jpeg") {
        "image/jpeg"
    } else if str_eq(ext, "svg") {
        "image/svg+xml"
    } else {
        "application/octet-stream"
    }
}

/// The relative file path of an asset request: the URI's host — which may
/// carry the first path segment — rejoined with the path, with one leading
/// slash stripped.
pub open spec fn spec_asset_path(host: Option<Seq<char>>, path: Seq<char>) -> Seq<char> {
    let joined = match host {
        Some(h) => h + path,
        None => path,
    };
    if joined.len() > 0 && joined[0] == '/' {
        joined.subrange(1, joined.len() as int)
    } else {
        joined
    }
}

/// Rejoins an asset URI's host and path into the relative file path, as
/// `spec_asset_path` says.
pub fn asset_request_path(host: Option<&str>, path: &str) -> (r: String)
    ensures
        r@ == spec_asset_path(
            match host {
                Some(h) => Some(h@),
                None => None,
            },
            path@,
        ),
{
    let mut joined = String::new();
    match host {
        Some(h) => {
            joined.append(h);
            joined.append(path);
        },
        None => {
            joined.append(path);
        },
    }
    let n = joined.as_str().unicode_len();
    if n > 0 && joined.as_str().get_char(0) == '/' {
        let stripped = joined.as_str().substring_char(1, n).to_owned();
        proof {
            assert(stripped@ =~= spec_asset_path(
                match host {
                    Some(h) => Some(h@),
                    None => None,
                },
                path@,
            ));
        }
        stripped
    } else {
        proof {
            assert(joined@ =~= spec_asset_path(
                match host {
                    Some(h) => Some(h@),
                    None => None,
                },
                path@,
            ));
        }
        joined
    }
}

/// ASCII whitespace as it appears in an HTTP request line.
pub open spec fn is_http_ws(c: char) -> bool {
    c == ' ' || c == '\t' || c == '\r' || c == '\n'
}

/// Whether the character is request-line whitespace.
pub fn is_ws_char(c: char) -> (r: bool)
    ensures
        r == is_http_ws(c),
{
    c == ' ' || c == '\t' || c == '\r' || c == '\n'
}

/// The first position at or after `i` holding non-whitespace, or the end.
pub open spec fn skip_ws(s: Seq<char>, i: int) -> int
    decreases s.len() - i,
{
    if i >= s.len() {
        i
    } else if is_http_ws(s[i]) {
        skip_ws(s, i + 1)
    } else {
        i
    }
}

/// The first position at or after `i` holding whitespace, or the end.
pub open spec fn skip_token(s: Seq<char>, i: int) -> int
    decreases s.len() - i,
{
    if i >= s.len() {
        i
    } else if is_http_ws(s[i]) {
        i
    } else {
        skip_token(s, i + 1)
    }
}

/// The request target of an HTTP request line: its second
/// whitespace-separated token, or "/" when the line has fewer than two.
pub open spec fn spec_request_target(s: Seq<char>) -> Seq<char> {
    let a = skip_ws(s, 0);
    let b = skip_token(s, a);
    let c = skip_ws(s, b);
    let d = skip_token(s, c);
    if c >= s.len() {
        "/"@
    } else {
        s.subrange(c, d)
    }
}

/// Reads the request target out of a request line, as
/// `spec_request_target` says.
pub fn request_target(line: &str) -> (r: String)
    ensures
        r@ == spec_request_target(line@),
{
    let n = line.unicode_len();
    let mut a: usize = 0;
    while a < n && is_ws_char(line.get_char(a))
        invariant
            n == line@.len(),
            a <= n,
            skip_ws(line@, 0) == skip_ws(line@, a as int),
        decreases n - a,
    {
        a = a + 1;
    }
    let mut b: usize = a;
    while b < n && !is_ws_char(line.get_char(b))
        invariant
            n == line@.len(),
            a <= b <= n,
            skip_ws(line@, 0) == a as int,
            skip_token(line@, a as int) == skip_token(line@, b as int),
        decreases n - b,
    {
        b = b + 1;
    }
    let mut c: usize = b;
    while c < n && is_ws_char(line.get_char(c))
        invariant
            n == line@.len(),
            b <= c <= n,
            skip_ws(line@, 0) == a as int,
            skip_token(line@, a as int) == b as int,
            skip_ws(line@, b as int) == skip_ws(line@, c as int),
        decreases n - c,
    {
        c = c + 1;
    }
    if c >= n {
        "/".to_owned()
    } else {
        let mut d: usize = c;
        while d < n && !is_ws_char(line.get_char(d))
            invariant
                n == line@.len(),
                c <= d <= n,
                skip_ws(line@, 0) == a as int,
                skip_token(line@, a as int) == b as int,
                skip_ws(line@, b as int) == c as int,
                skip_token(line@, c as int) == skip_token(line@, d as int),
            decreases n - d,
        {
            d = d + 1;
        }
        line.substring_char(c, d).to_owned()
    }
}

} // verus!
