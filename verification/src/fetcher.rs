//! Fetching a file's content as text: the part that decides.
//!
//! Reading is the caller's business. The caller asks the file system for
//! the file's bytes and hands over what came back; the fetcher turns it
//! into the text, owned by the caller, or into the reason why there is
//! none.

use vstd::prelude::*;
use vstd::utf8::decode_utf8;
use vstd::utf8::valid_utf8;

verus! {

/// The kind of failure that the file system reported for a read.
#[derive(Clone, Copy, Debug, PartialEq, Eq)]
pub enum IoFailure {
    /// There is no file of that name.
    NotFound,
    /// The file may not be read.
    PermissionDenied,
    /// The file's content is not what was asked for.
    InvalidData,
    /// Any other failure.
    Other,
}

/// Why a file's content could not be fetched.
#[derive(Debug, PartialEq, Eq)]
pub enum ReadError {
    /// There is no file of that name.
    NotFound,
    /// The file may not be read.
    PermissionDenied,
    /// The file's bytes are not text in UTF-8.
    InvalidEncoding,
    /// Any other failure, with the file system's description of it.
    Other(String),
}

/// What the file system answered when asked for a file's bytes.
#[derive(Debug, PartialEq, Eq)]
pub enum RawRead {
    /// The file's bytes, all of them.
    Bytes(Vec<u8>),
    /// The failure, with the file system's description of it.
    Failed(IoFailure, String),
}

/// Fetches the content of local files.
#[derive(Clone, Copy, Debug, PartialEq, Eq)]
pub struct LocalFetcher;

/// The error that stands for a failed read: the three kinds that callers
/// tell apart map to the variant of their own, where the description is
/// dropped; every other kind keeps the description.
pub open spec fn read_error_spec(failure: IoFailure, description: String) -> ReadError {
    match failure {
        IoFailure::NotFound => ReadError::NotFound,
        IoFailure::PermissionDenied => ReadError::PermissionDenied,
        IoFailure::InvalidData => ReadError::InvalidEncoding,
        IoFailure::Other => ReadError::Other(description),
    }
}

/// The fetched content for what the file system answered: the text that
/// the bytes encode in UTF-8, or the error that says why there is none.
pub open spec fn content_spec(raw: RawRead, content: Result<String, ReadError>) -> bool {
    match raw {
        RawRead::Bytes(bytes) => if valid_utf8(bytes@) {
            content is Ok && content->Ok_0@ == decode_utf8(bytes@)
        } else {
            content == Err::<String, ReadError>(ReadError::InvalidEncoding)
        },
        RawRead::Failed(failure, description) => content == Err::<String, ReadError>(
            read_error_spec(failure, description),
        ),
    }
}

/// `String::from_utf8` of std, with the error dropped: the string that
/// `bytes` encode, if and only if they are valid UTF-8. Trusted: the body
/// is std's and is not verified.
#[verifier::external_body]
fn text_from_utf8(bytes: Vec<u8>) -> (text: Option<String>)
    ensures
        text is Some <==> valid_utf8(bytes@),
        text matches Some(s) ==> s@ == decode_utf8(bytes@),
{
    String::from_utf8(bytes).ok()
}

impl LocalFetcher {
    /// The content of a file, given what the file system answered when
    /// asked for its bytes: the text that the bytes encode, as a string of
    /// the caller's own, or the reason why there is none.
    pub fn content(&self, raw: RawRead) -> (content: Result<String, ReadError>)
        ensures
            content_spec(raw, content),
    {
        match raw {
            RawRead::Bytes(bytes) => match text_from_utf8(bytes) {
                Some(text) => Ok(text),
                None => Err(ReadError::InvalidEncoding),
            },
            RawRead::Failed(IoFailure::NotFound, _) => Err(ReadError::NotFound),
            RawRead::Failed(IoFailure::PermissionDenied, _) => Err(ReadError::PermissionDenied),
            RawRead::Failed(IoFailure::InvalidData, _) => Err(ReadError::InvalidEncoding),
            RawRead::Failed(IoFailure::Other, description) => Err(ReadError::Other(description)),
        }
    }
}

} // verus!
