//! Replies to requests for the packaged static files.

use vstd::prelude::*;
use vstd::string::{StrSliceExecFns, StringSliceAdditionalSpecFns};

verus! {

/// The status of a reply that carries a file.
pub const STATUS_OK: u16 = 200;

/// The status of a reply for a path that names no file.
pub const STATUS_NOT_FOUND: u16 = 404;

/// The body of a reply for a path that names no file.
pub const NOT_FOUND_BODY: &'static str = "File not found.";

/// The content type of a path whose extension tells nothing.
pub const TEXT_PLAIN: &'static str = "text/plain";

/// What is sent back for a static file: the status code, the value of the
/// `Content-Type` header, and the body.
#[derive(Clone, Debug, PartialEq, Eq)]
pub struct StaticReply {
    pub status: u16,
    pub content_type: String,
    pub body: Vec<u8>,
}

/// `mime_guess::from_path` followed by `MimeGuess::first_or_text_plain`: the
/// media type guessed from the extension of `path`. How a path is split into
/// its parts is the platform's, so only this is claimed: a path without a dot
/// has no extension, and the guess is then `text/plain`.
#[verifier::external_body]
fn guess_content_type(path: &str) -> (content_type: String)
    ensures
        !path@.contains('.') ==> content_type@ == TEXT_PLAIN@,
{
    mime_guess::from_path(path).first_or_text_plain().as_ref().to_owned()
}

/// The reply for a file looked up in the package: the file with status 200
/// where it was found, the not-found text with status 404 where it was not.
/// The content type is sent along either way.
pub fn static_reply(content_type: String, file: Option<&[u8]>) -> (reply: StaticReply)
    ensures
        reply.content_type@ == content_type@,
        match file {
            Some(contents) => reply.status == STATUS_OK && reply.body@ == contents@,
            None => reply.status == STATUS_NOT_FOUND && reply.body@ == NOT_FOUND_BODY.spec_bytes(),
        },
{
    match file {
        Some(contents) => StaticReply {
            status: STATUS_OK,
            content_type,
            body: vstd::slice::slice_to_vec(contents),
        },
        None => StaticReply {
            status: STATUS_NOT_FOUND,
            content_type,
            body: NOT_FOUND_BODY.as_bytes_vec(),
        },
    }
}

/// The reply to a request for the static file at `path`, where `file` is
/// what the package holds under that path. The content type is guessed from
/// the path's extension.
pub fn serve_static(path: &str, file: Option<&[u8]>) -> (reply: StaticReply)
    ensures
        !path@.contains('.') ==> reply.content_type@ == TEXT_PLAIN@,
        match file {
            Some(contents) => reply.status == STATUS_OK && reply.body@ == contents@,
            None => reply.status == STATUS_NOT_FOUND && reply.body@ == NOT_FOUND_BODY.spec_bytes(),
        },
{
    static_reply(guess_content_type(path), file)
}

} // verus!
