//! The error type shared by every stage.

use vstd::prelude::*;
use vstd::std_specs::convert::IntoSpec;

verus! {

/// Why an extraction stopped.
#[derive(Debug, PartialEq, Eq)]
pub enum ExtractorError {
    /// A pattern found nothing in the text it was applied to; the field says
    /// what was being looked for.
    NoCaptures(&'static str),
    /// The helper executable (first field) is not in the directory that was
    /// searched (second field).
    HelperNotFound(&'static str, String),
    /// A registry key (second field) of an application (first field) is absent.
    RegistryKeyNotFound(&'static str, &'static str),
    /// Something that should always hold did not.
    AssertionFailed(String),
    /// A one-off failure described by its message.
    Other(String),
    /// A text that should be hexadecimal has odd length or a character that
    /// is no hexadecimal digit.
    InvalidHex,
    /// A text that should be base64 (standard alphabet, padded) is malformed.
    InvalidBase64,
    /// A program could not be started, or what it printed could not be read as
    /// text; the field carries the reason.
    HelperExecutionFailed(String),
    /// The helper ran, but none of the lines it printed is a result line.
    UnprotectOutputUnparseable,
    /// The unprotected device key does not have the length of an AES-128 key.
    InvalidKeyLength { expected: usize, actual: usize },
    /// The decrypted licence key is shorter than the header that precedes the
    /// content key.
    PlaintextTooShort,
}

/// What an [`ExtractorError`] says, with every text as its characters.
pub enum ErrorView {
    NoCaptures(Seq<char>),
    HelperNotFound(Seq<char>, Seq<char>),
    RegistryKeyNotFound(Seq<char>, Seq<char>),
    AssertionFailed(Seq<char>),
    Other(Seq<char>),
    InvalidHex,
    InvalidBase64,
    HelperExecutionFailed(Seq<char>),
    UnprotectOutputUnparseable,
    InvalidKeyLength { expected: nat, actual: nat },
    PlaintextTooShort,
}

impl View for ExtractorError {
    type V = ErrorView;

    open spec fn view(&self) -> ErrorView {
        match *self {
            ExtractorError::NoCaptures(what) => ErrorView::NoCaptures(what@),
            ExtractorError::HelperNotFound(name, dir) => ErrorView::HelperNotFound(name@, dir@),
            ExtractorError::RegistryKeyNotFound(app, key) => ErrorView::RegistryKeyNotFound(
                app@,
                key@,
            ),
            ExtractorError::AssertionFailed(msg) => ErrorView::AssertionFailed(msg@),
            ExtractorError::Other(msg) => ErrorView::Other(msg@),
            ExtractorError::InvalidHex => ErrorView::InvalidHex,
            ExtractorError::InvalidBase64 => ErrorView::InvalidBase64,
            ExtractorError::HelperExecutionFailed(reason) => ErrorView::HelperExecutionFailed(
                reason@,
            ),
            ExtractorError::UnprotectOutputUnparseable => ErrorView::UnprotectOutputUnparseable,
            ExtractorError::InvalidKeyLength { expected, actual } => ErrorView::InvalidKeyLength {
                expected: expected as nat,
                actual: actual as nat,
            },
            ExtractorError::PlaintextTooShort => ErrorView::PlaintextTooShort,
        }
    }
}

impl ExtractorError {
    /// The error for a pattern that found nothing; `msg` names what was
    /// looked for.
    pub fn no_captures(msg: &'static str) -> (e: Self)
        ensures
            e@ == ErrorView::NoCaptures(msg@),
    {
        ExtractorError::NoCaptures(msg)
    }

    /// The error for a registry key of Adept that is absent.
    pub fn no_adept_reg_key(key: &'static str) -> (e: Self)
        ensures
            e@ == ErrorView::RegistryKeyNotFound("Adept"@, key@),
    {
        ExtractorError::RegistryKeyNotFound("Adept", key)
    }

    /// The error for an expectation that failed, in place of a panic.
    pub fn assertion_failed(msg: String) -> (e: Self)
        ensures
            e@ == ErrorView::AssertionFailed(msg@),
    {
        ExtractorError::AssertionFailed(msg)
    }

    /// An error with a one-off meaning.
    pub fn other<M>(msg: M) -> (e: Self) where M: Into<String>
        ensures
            e is Other,
            <M as IntoSpec<String>>::obeys_into_spec() ==> e@ == ErrorView::Other(
                <M as IntoSpec<String>>::into_spec(msg)@,
            ),
    {
        ExtractorError::Other(msg.into())
    }
}

/// A result with its value and its error each taken by their view.
pub open spec fn result_view<T: View>(r: Result<T, ExtractorError>) -> Result<T::V, ErrorView> {
    match r {
        Ok(value) => Ok(value@),
        Err(e) => Err(e@),
    }
}

} // verus!
