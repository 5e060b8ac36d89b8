//! The one error value that crosses the boundary, and the message it carries.

use vstd::prelude::*;
use vstd::string::*;

verus! {

/// Why a call produced no snapshot. Callers show the message and do not
/// branch on the kind.
#[derive(Clone, Debug, PartialEq, Eq)]
pub enum BoundaryError {
    /// Neither a combined file nor both a configuration and a data file was
    /// supplied.
    InvalidInputShape,
    /// The parser rejected the input; holds the debug rendering of its cause.
    ParseError(String),
    /// The parser terminated abnormally; holds the text that the termination
    /// carried, if it carried any.
    AbnormalTermination(Option<String>),
}

/// Message of `BoundaryError::InvalidInputShape`.
pub open spec fn invalid_shape_message() -> Seq<char> {
    "Invalid file combination: either a CFF file, or both a CFG and a DAT file must be provided."@
}

/// What the message of a `BoundaryError::ParseError` starts with.
pub open spec fn parse_error_prefix() -> Seq<char> {
    "Error parsing COMTRADE file: "@
}

/// Message of an abnormal termination that carried no text.
pub open spec fn fallback_message() -> Seq<char> {
    "A panic occurred while parsing the COMTRADE file. This may be due to a malformed file."@
}

impl BoundaryError {
    /// The message that the error is reported with.
    pub open spec fn message_text(&self) -> Seq<char> {
        match self {
            BoundaryError::InvalidInputShape => invalid_shape_message(),
            BoundaryError::ParseError(cause) => parse_error_prefix() + cause@,
            BoundaryError::AbnormalTermination(Some(text)) => text@,
            BoundaryError::AbnormalTermination(None) => fallback_message(),
        }
    }

    /// The message that the error is reported with.
    pub fn message(&self) -> (message: String)
        ensures
            message@ == self.message_text(),
    {
        match self {
            BoundaryError::InvalidInputShape => {
                "Invalid file combination: either a CFF file, or both a CFG and a DAT file must be provided.".to_owned()
            },
            BoundaryError::ParseError(cause) => {
                "Error parsing COMTRADE file: ".to_owned().concat(cause.as_str())
            },
            BoundaryError::AbnormalTermination(Some(text)) => text.clone(),
            BoundaryError::AbnormalTermination(None) => {
                "A panic occurred while parsing the COMTRADE file. This may be due to a malformed file.".to_owned()
            },
        }
    }
}

} // verus!
