//! The content type of a file, guessed from its name.

use vstd::prelude::*;

verus! {

/// The content type that the extension table of `mime_guess` gives for a
/// path: the essence (type and subtype, no parameters) of the first media
/// type listed for the path's extension, or of `text/plain` where the path has
/// no extension or the table does not know it.
pub uninterp spec fn guessed_content_type(path: Seq<char>) -> Seq<char>;

/// Calls `mime_guess::from_path(path).first_or_text_plain()` and takes the
/// `essence_str()` of the media type that comes back.
///
/// Trusted, not proved: the result is a function of the path's text alone.
/// The lookup reads a table compiled into `mime_guess`; nothing on disk is
/// read, and the file need not exist.
#[verifier::external_body]
pub(crate) fn guess_content_type(path: &str) -> (content_type: String)
    ensures
        content_type@ == guessed_content_type(path@),
{
    mime_guess::from_path(path).first_or_text_plain().essence_str().to_string()
}

} // verus!
