//! The rules on what a caller may choose.

use crate::error::ErrorView;
use crate::error::ExtractorError;
use vstd::prelude::*;
use vstd::string::StringExecFns;

verus! {

/// The file that the content key is written to where no other is named.
pub const KEY_DEFAULT_FILENAME: &'static str = "ade_key.der";

/// What is said where no device key is given.
pub const EMPTY_KEY: &'static str = "Key cannot be empty";

/// What is said where no licence key is given.
pub const EMPTY_ADEPT_KEY: &'static str = "Adept Key cannot be empty";

/// What is said of a verbosity above 3.
pub const VERBOSITY_RANGE: &'static str =
    "Expected verbosity integer range between 0 and 3 (inclusive)";

/// What is wrong with the two texts from which the second stage is taken up
/// again: the first that is empty, the device key before the licence key.
pub open spec fn resume_fault(key: Seq<char>, adept_key: Seq<char>) -> Option<ErrorView> {
    if key.len() == 0 {
        Some(ErrorView::Other(EMPTY_KEY@))
    } else if adept_key.len() == 0 {
        Some(ErrorView::Other(EMPTY_ADEPT_KEY@))
    } else {
        None
    }
}

/// Checks the two texts from which the second stage is taken up again: the
/// unprotected device key and the licence key. Neither may be empty.
pub fn check_resume(key: &str, adept_key: &str) -> (r: Result<(), ExtractorError>)
    ensures
        match r {
            Ok(_) => resume_fault(key@, adept_key@) is None,
            Err(e) => resume_fault(key@, adept_key@) == Some(e@),
        },
{
    if key.is_empty() {
        return Err(ExtractorError::Other(String::from_str(EMPTY_KEY)));
    }
    if adept_key.is_empty() {
        return Err(ExtractorError::Other(String::from_str(EMPTY_ADEPT_KEY)));
    }
    Ok(())
}

/// The logging level for a verbosity: none is chosen at 0, then `info`,
/// `debug` and `trace`; there is none above 3.
pub open spec fn level_of(verbosity: u8) -> Result<Option<Seq<char>>, ErrorView> {
    if verbosity == 0 {
        Ok(None)
    } else if verbosity == 1 {
        Ok(Some("info"@))
    } else if verbosity == 2 {
        Ok(Some("debug"@))
    } else if verbosity == 3 {
        Ok(Some("trace"@))
    } else {
        Err(ErrorView::Other(VERBOSITY_RANGE@))
    }
}

/// Gives the logging level that a verbosity asks for, `None` where the level
/// is left as it is.
pub fn log_level(verbosity: u8) -> (r: Result<Option<&'static str>, ExtractorError>)
    ensures
        match r {
            Ok(Some(level)) => level_of(verbosity) == Ok::<Option<Seq<char>>, ErrorView>(
                Some(level@),
            ),
            Ok(None) => level_of(verbosity) == Ok::<Option<Seq<char>>, ErrorView>(None),
            Err(e) => level_of(verbosity) == Err::<Option<Seq<char>>, ErrorView>(e@),
        },
{
    match verbosity {
        0 => Ok(None),
        1 => Ok(Some("info")),
        2 => Ok(Some("debug")),
        3 => Ok(Some("trace")),
        _ => Err(ExtractorError::Other(String::from_str(VERBOSITY_RANGE))),
    }
}

} // verus!
