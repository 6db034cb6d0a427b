//! The decisions of the static file server: which file a request path names,
//! and what is answered once the file has been looked up.

use vstd::prelude::*;
use vstd::string::StrSliceExecFns;
use vstd::string::StringExecFns;
use vstd::string::StringSliceAdditionalSpecFns;
use crate::text::same_text;
use crate::paths::{path_within, within_base};

verus! {

/// `s` without its leading `/` characters.
pub open spec fn trim_leading_slashes(s: Seq<char>) -> Seq<char>
    decreases s.len(),
{
    if s.len() > 0 && s[0] == '/' {
        trim_leading_slashes(s.drop_first())
    } else {
        s
    }
}

/// The file, relative to the served directory, that a request for `path`
/// asks for: `index.html` for the root, the path without its leading slashes
/// otherwise.
pub open spec fn requested_file(path: Seq<char>) -> Seq<char> {
    if path == "/"@ || path.len() == 0 {
        "index.html"@
    } else {
        trim_leading_slashes(path)
    }
}

/// The file, relative to the served directory, that a request for the URI
/// path `path` asks for.
pub fn request_path(path: &str) -> (r: String)
    ensures
        r@ == requested_file(path@),
{
    let n: usize = path.unicode_len();
    if n == 0 || same_text(path, "/") {
        return String::from_str("index.html");
    }
    let mut k: usize = 0;
    assert(path@.skip(0) =~= path@);
    while k < n && path.get_char(k) == '/'
        invariant
            n == path@.len(),
            k <= n,
            trim_leading_slashes(path@) == trim_leading_slashes(path@.skip(k as int)),
        decreases n - k,
    {
        assert(path@.skip(k as int).drop_first() =~= path@.skip(k + 1));
        k = k + 1;
    }
    let rest = path.substring_char(k, n);
    assert(rest@ =~= path@.skip(k as int));
    String::from_str(rest)
}

/// A leading-slash-free path is its own trimmed form, and trimming leaves no
/// leading slash.
pub proof fn lemma_trim_has_no_leading_slash(s: Seq<char>)
    ensures
        trim_leading_slashes(s).len() > 0 ==> trim_leading_slashes(s)[0] != '/',
        trim_leading_slashes(trim_leading_slashes(s)) == trim_leading_slashes(s),
    decreases s.len(),
{
    if s.len() > 0 && s[0] == '/' {
        lemma_trim_has_no_leading_slash(s.drop_first());
    }
}

/// The root of the site, asked for as `/` or as nothing, is `index.html`;
/// any other request keeps its path after the leading slashes.
pub proof fn lemma_root_requests_index(path: Seq<char>)
    ensures
        requested_file("/"@) == "index.html"@,
        requested_file(Seq::empty()) == "index.html"@,
        path.len() > 0 && path != "/"@ ==> requested_file(path) == trim_leading_slashes(path),
{
}

/// Trimming removes exactly the run of `/` that begins `s`: what remains is
/// the end of `s`, and everything before it is `/`.
pub proof fn lemma_trim_removes_leading_run(s: Seq<char>)
    ensures
        trim_leading_slashes(s).len() <= s.len(),
        trim_leading_slashes(s) == s.skip(s.len() - trim_leading_slashes(s).len()),
        forall|j: int| 0 <= j < s.len() - trim_leading_slashes(s).len() ==> s[j] == '/',
    decreases s.len(),
{
    if s.len() > 0 && s[0] == '/' {
        lemma_trim_removes_leading_run(s.drop_first());
        let t = trim_leading_slashes(s.drop_first());
        assert(s.drop_first().skip(s.drop_first().len() - t.len()) =~= s.skip(s.len() - t.len()));
        assert forall|j: int| 0 <= j < s.len() - t.len() implies s[j] == '/' by {
            if j > 0 {
                assert(s[j] == s.drop_first()[j - 1]);
            }
        }
    } else {
        assert(s.skip(0) =~= s);
    }
}

/// A file named by a request never starts with `/`, so it always lies under
/// the served directory's name.
pub proof fn lemma_requested_file_is_relative(path: Seq<char>)
    ensures
        requested_file(path).len() > 0 ==> requested_file(path)[0] != '/',
{
    reveal_strlit("index.html");
    lemma_trim_has_no_leading_slash(path);
}

/// The answer the server sends.
pub struct StaticResponse {
    pub status: u16,
    pub content_type: String,
    pub body: Vec<u8>,
}

/// The answer to a request for a file outside the served directory.
pub fn forbidden() -> (r: StaticResponse)
    ensures
        r.status == 403,
        r.content_type@ == "text/plain"@,
        r.body@ == "403 Forbidden".spec_bytes(),
{
    StaticResponse {
        status: 403,
        content_type: String::from_str("text/plain"),
        body: "403 Forbidden".as_bytes_vec(),
    }
}

/// The answer to a request for a file that cannot be read.
pub fn not_found() -> (r: StaticResponse)
    ensures
        r.status == 404,
        r.content_type@ == "text/plain"@,
        r.body@ == "404 Not Found".spec_bytes(),
{
    StaticResponse {
        status: 404,
        content_type: String::from_str("text/plain"),
        body: "404 Not Found".as_bytes_vec(),
    }
}

/// The answer carrying a file's contents with its content type.
pub fn found(content_type: String, data: Vec<u8>) -> (r: StaticResponse)
    ensures
        r.status == 200,
        r.content_type@ == content_type@,
        r.body@ == data@,
{
    StaticResponse { status: 200, content_type, body: data }
}

/// The content type `mime_guess` gives a file at `path`: the first type its
/// table lists for the path's extension, or `text/plain` where there is none,
/// written as text.
pub uninterp spec fn guessed_mime(path: Seq<char>) -> Seq<char>;

/// Calls `mime_guess::from_path(path).first_or_text_plain()` and renders the
/// type as text. The crate looks the extension up in a fixed table, so the
/// result depends on the path alone; a path without any `.` has no extension
/// and gets `text/plain`.
#[verifier::external_body]
fn guess_mime(path: &str) -> (r: String)
    ensures
        r@ == guessed_mime(path@),
        !path@.contains('.') ==> r@ == "text/plain"@,
{
    mime_guess::from_path(path).first_or_text_plain().to_string()
}

/// Decides the answer to a request for `path` in the served directory
/// `base`, once the file has been looked up.
///
/// `final_path` is the file that was read (`index.html` inside a requested
/// directory) and `contents` what reading it gave. A path that leads out of
/// the directory (see [`path_within`]) is refused whatever was read, and its
/// file should not be read at all; unreadable files are not found; a
/// readable file is sent with the content type guessed from its path.
pub fn serve_static(base: &str, path: &str, final_path: &str, contents: Option<Vec<u8>>) -> (r:
    StaticResponse)
    ensures
        !path_within(base@, path@) ==> r.status == 403 && r.content_type@ == "text/plain"@
            && r.body@ == "403 Forbidden".spec_bytes(),
        path_within(base@, path@) && contents is None ==> r.status == 404 && r.content_type@
            == "text/plain"@ && r.body@ == "404 Not Found".spec_bytes(),
        path_within(base@, path@) && contents is Some ==> r.status == 200 && r.content_type@
            == guessed_mime(final_path@) && r.body@ == contents->0@,
{
    if !within_base(base, path) {
        return forbidden();
    }
    match contents {
        None => not_found(),
        Some(data) => found(guess_mime(final_path), data),
    }
}

} // verus!
