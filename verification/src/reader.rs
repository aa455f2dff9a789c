//! What becomes of a file once it has been read.
//!
//! Reading itself is left to the caller, who hands over the outcome: the
//! bytes of the file, or the text of the failure. The functions here tag a
//! failure with the path of the file and tell a file that could not be read
//! from one that was read but does not hold text.

use crate::error::{AssetError, ErrorModel};
use vstd::prelude::*;
use vstd::string::*;
use vstd::utf8::{decode_utf8, valid_utf8};

verus! {

/// What an attempt to read a file produced: its bytes, or the text of the
/// failure.
pub type ReadOutcome = Result<Vec<u8>, String>;

/// What `slurp_bytes` returns for a file at `path` and the outcome of
/// reading it.
pub open spec fn bytes_of(path: Seq<char>, outcome: Result<Seq<u8>, Seq<char>>) -> Result<
    Seq<u8>,
    ErrorModel,
> {
    match outcome {
        Ok(bytes) => Ok(bytes),
        Err(cause) => Err(ErrorModel::Io { path, cause }),
    }
}

/// What `slurp` returns for a file at `path` and the outcome of reading it.
pub open spec fn text_of(path: Seq<char>, outcome: Result<Seq<u8>, Seq<char>>) -> Result<
    Seq<char>,
    ErrorModel,
> {
    match outcome {
        Ok(bytes) => if valid_utf8(bytes) {
            Ok(decode_utf8(bytes))
        } else {
            Err(ErrorModel::Utf8 { path })
        },
        Err(cause) => Err(ErrorModel::Io { path, cause }),
    }
}

/// The model of a read outcome.
pub open spec fn outcome_model(outcome: ReadOutcome) -> Result<Seq<u8>, Seq<char>> {
    match outcome {
        Ok(bytes) => Ok(bytes@),
        Err(cause) => Err(cause@),
    }
}

/// `String::from_utf8` of the standard library. Taken on trust: the bytes
/// become a string exactly when they are valid UTF-8, and the string then
/// holds the characters that the bytes encode.
#[verifier::external_body]
fn string_from_utf8(bytes: Vec<u8>) -> (text: Option<String>)
    ensures
        text is Some <==> valid_utf8(bytes@),
        text matches Some(s) ==> s@ == decode_utf8(bytes@),
{
    match String::from_utf8(bytes) {
        Ok(s) => Some(s),
        Err(_) => None,
    }
}

/// The bytes of the file at `path`, or the failure to read it, tagged with
/// the path.
pub fn slurp_bytes(path: &str, outcome: ReadOutcome) -> (r: Result<Vec<u8>, AssetError>)
    ensures
        match (r, bytes_of(path@, outcome_model(outcome))) {
            (Ok(bytes), Ok(expected)) => bytes@ == expected,
            (Err(e), Err(expected)) => e@ == expected,
            _ => false,
        },
{
    match outcome {
        Ok(bytes) => Ok(bytes),
        Err(cause) => Err(AssetError::Io { path: String::from_str(path), cause }),
    }
}

/// The text of the file at `path`. A file that could not be read gives an
/// `Io` failure, a file whose bytes are not valid UTF-8 gives a `Utf8`
/// failure; both name the path.
pub fn slurp(path: &str, outcome: ReadOutcome) -> (r: Result<String, AssetError>)
    ensures
        match (r, text_of(path@, outcome_model(outcome))) {
            (Ok(text), Ok(expected)) => text@ == expected,
            (Err(e), Err(expected)) => e@ == expected,
            _ => false,
        },
{
    match slurp_bytes(path, outcome) {
        Ok(bytes) => match string_from_utf8(bytes) {
            Some(text) => Ok(text),
            None => Err(AssetError::Utf8 { path: String::from_str(path) }),
        },
        Err(e) => Err(e),
    }
}

/// A file that was read but whose bytes are not valid UTF-8 is reported as
/// such, with its path, and never as a failure to read.
pub proof fn lemma_invalid_text_is_not_an_io_failure(path: Seq<char>, bytes: Seq<u8>)
    requires
        !valid_utf8(bytes),
    ensures
        text_of(path, Ok(bytes)) == Err::<Seq<char>, ErrorModel>(ErrorModel::Utf8 { path }),
        !(text_of(path, Ok(bytes)) matches Err(ErrorModel::Io { .. })),
{
}

/// A failure to read is reported with the path that was asked for, whatever
/// the file would have held.
pub proof fn lemma_unreadable_file_names_its_path(path: Seq<char>, cause: Seq<char>)
    ensures
        text_of(path, Err(cause)) == Err::<Seq<char>, ErrorModel>(
            ErrorModel::Io { path, cause },
        ),
        bytes_of(path, Err(cause)) == Err::<Seq<u8>, ErrorModel>(ErrorModel::Io { path, cause }),
{
}

} // verus!
