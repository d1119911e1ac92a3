//! Typed error codes for the assembler.
//!
//! Every failing operation reports a `(code, message)` pair; the code is the
//! machine-readable classification and the message is prose for the user.

use vstd::prelude::*;

verus! {

/// Classification of every failure the assembler can report.
#[derive(Clone, Copy, PartialEq, Eq, Structural, Debug)]
pub enum ErrorCode {
    NoError,
    Usage,
    OverwriteSource,
    FileOpen,
    FileRead,
    FileCreate,
    FileWrite,
    NoValidOpcode,
    UnknownInstruction,
    UnknownLabel,
    UnknownSyntax,
    DuplicateLabel,
    UnknownDirective,
    AddressExpected,
    HexExpected,
    MalformedEqu,
}

pub type ErrorMsg = String;

/// A failure: its classification together with a human-readable message.
pub type Error = (ErrorCode, ErrorMsg);

/// Builds an `Error` from its parts.
pub fn error(code: ErrorCode, msg: ErrorMsg) -> (r: Error)
    ensures
        r.0 == code,
        r.1 == msg,
{
    (code, msg)
}

} // verus!
