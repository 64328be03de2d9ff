//! The error kinds of the signing pipeline.

use vstd::prelude::*;

verus! {

/// Why an operation of the pipeline was given up. Every kind is terminal for
/// the operation that raised it.
#[derive(Debug, Clone, Copy, PartialEq, Eq, Structural)]
pub enum TikTokRsErr {
    /// The browser session could not be opened.
    InitFailure,
    /// The session refused to be closed.
    CloseFailure,
    /// Navigating to the target origin failed.
    PrepareFailure,
    /// Reserved for device-profile validation.
    UnknownDevice,
    /// The session rejected a script.
    ScriptEvalFailed,
    /// The source of a vendor script could not be read.
    ScriptLoadFailed,
    /// Reserved.
    EvaluationFailure,
    /// The address does not parse as an absolute URL, or has no query.
    InvalidUrlFormat,
    /// The cipher could not produce the header value.
    CipherEncryptFailure,
    /// The device snapshot did not have the expected shape.
    NavigationParseError,
}

} // verus!
