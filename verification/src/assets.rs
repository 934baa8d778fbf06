//! The files of the web interface.
use vstd::prelude::*;
use vstd::string::StringExecFns;

use crate::web::{Reply, ReplyView};

verus! {

/// The content type that `mime_guess::from_path` guesses for a file at `path`, by the
/// extension, or that of an octet stream where it makes no guess.
pub uninterp spec fn guessed_content_type(path: Seq<char>) -> Seq<char>;

/// Whether all systems agree on the parts of the path: it holds no backslash, and begins
/// neither with two slashes nor in a way that can be read as a drive.
pub open spec fn is_portable(path: Seq<char>) -> bool {
    &&& forall|i: int| 0 <= i < path.len() ==> #[trigger] path[i] != '\\'
    &&& !(path.len() >= 2 && path[0] == '/' && path[1] == '/')
    &&& !(path.len() >= 2 && path[1] == ':')
}

/// Calls `mime_guess::from_path` and `first_or_octet_stream`, which look the extension of
/// the path up in a table. Where the name of the file begins depends on the system if the
/// path is not portable: the result for such a path is left unsaid.
#[verifier::external_body]
pub(crate) fn guess_content_type(path: &str) -> (r: String)
    ensures
        is_portable(path@) ==> r@ == guessed_content_type(path@),
{
    mime_guess::from_path(path).first_or_octet_stream().as_ref().to_string()
}

/// The file that a path asks for.
pub open spec fn requested_file(path: Seq<char>) -> Seq<char> {
    if path.len() == 0 {
        "index.html"@
    } else {
        path
    }
}

/// The file that a path asks for.
pub fn file_for(path: String) -> (r: String)
    ensures
        r@ == requested_file(path@),
{
    if path.as_str().is_empty() {
        "index.html".to_owned()
    } else {
        path
    }
}

/// Where the file lies on disk.
pub fn location_of(file: &str) -> (r: String)
    ensures
        r@ == "web/dist/"@ + file@,
{
    "web/dist/".to_owned().concat(file)
}

/// The answer for a file that does not exist, among those built into the program or on
/// disk.
pub open spec fn missing(embedded: bool) -> ReplyView {
    ReplyView::NotFound(
        if embedded {
            "404 Not Found"@
        } else {
            "404"@
        },
    )
}

/// The answer for a file of this content type, or for one that does not exist.
pub fn reply_with(content_type: String, content: Option<Vec<u8>>, embedded: bool) -> (r: Reply)
    ensures
        r@ == (match content {
            Some(bytes) => ReplyView::File(content_type@, bytes@),
            None => missing(embedded),
        }),
{
    match content {
        Some(bytes) => Reply::File(content_type, bytes),
        None => Reply::NotFound(
            if embedded {
                "404 Not Found".to_owned()
            } else {
                "404".to_owned()
            },
        ),
    }
}

/// The answer for the file at `path` with this content, or for one that does not exist.
/// The content type is the one guessed from the path; of a path on whose parts systems do
/// not agree, it is left unsaid which one that is.
pub fn reply_for(path: &str, content: Option<Vec<u8>>, embedded: bool) -> (r: Reply)
    ensures
        match content {
            Some(bytes) => {
                &&& r@ matches ReplyView::File(content_type, sent)
                &&& sent == bytes@
                &&& is_portable(path@) ==> content_type == guessed_content_type(path@)
            },
            None => r@ == missing(embedded),
        },
{
    reply_with(guess_content_type(path), content, embedded)
}

/// Every path but the empty one asks for the file of that name, and the empty one for the
/// start page.
pub proof fn law_path_names_the_file(path: Seq<char>)
    ensures
        path.len() > 0 ==> requested_file(path) == path,
        requested_file(Seq::empty()) == "index.html"@,
{
    assert(path.len() == 0 ==> path =~= Seq::empty());
}

/// A missing file is answered as not found, in more words where the files are built in.
pub proof fn law_missing_file()
    ensures
        missing(true) == ReplyView::NotFound("404 Not Found"@),
        missing(false) == ReplyView::NotFound("404"@),
{
}

/// Systems agree on the parts of a path without backslashes, unless it begins with two slashes
/// or its second character is a colon; of a path with a backslash they do not.
pub proof fn law_portable_paths(path: Seq<char>)
    ensures
        path.contains('\\') ==> !is_portable(path),
        !path.contains('\\') && path.len() < 2 ==> is_portable(path),
        !path.contains('\\') && path.len() >= 2 ==> (is_portable(path) <==> path[1] != ':' && !(
        path[0] == '/' && path[1] == '/')),
{
}

} // verus!
