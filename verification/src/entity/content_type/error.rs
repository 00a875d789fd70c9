use vstd::prelude::*;

verus! {

/// Reasons for which a `ContentType` or a `Mime` source is refused.
#[derive(Debug, Clone, Copy, PartialEq, Eq, Structural)]
pub enum Error {
    /// The source is longer than 128 bytes.
    LengthExceeded,
    /// No `/` separates the type from the subtype.
    MissingTypeSeparator,
    /// Nothing stands before the `/`.
    MissingType,
    /// The type holds a byte that is not a type token.
    InvalidTypeChar,
    /// Nothing stands between the `/` and the first `;` (or the end).
    MissingSubtype,
    /// The subtype holds a byte that is not a subtype token.
    InvalidSubtypeChar,
    /// A parameter does not start with `;`, or the subtype holds an `=`.
    MissingParameterSeparator,
    /// A parameter key holds a byte that is not a parameter token.
    InvalidParameterKey,
    /// A parameter key is empty or is not followed by `=`.
    MissingParameterAssignment,
    /// A parameter value is empty, holds a byte that is not a parameter token,
    /// or holds too many quotes.
    InvalidParameterValue,
}

/// The message that goes with each error, as a sequence of characters.
pub open spec fn error_message(e: Error) -> Seq<char> {
    match e {
        Error::LengthExceeded => "`ContentType` exceeds maximum length of `[char; 128]`."@,
        Error::MissingTypeSeparator => "`ContentType` missing type-subtype separator: '/'."@,
        Error::MissingType => "`ContentType` missing type before type-subtype separator: '/'."@,
        Error::InvalidTypeChar => "`ContentType` type contains an invalid character"@,
        Error::MissingSubtype => "`ContentType` missing subtype after type-subtype separator: '/'."@,
        Error::InvalidSubtypeChar => "`ContentType` subtype contains an invalid character"@,
        Error::MissingParameterSeparator => "`ContentType` invalid parameter separator, expected ';'."@,
        Error::InvalidParameterKey => "`ContentType` invalid character in parameter key."@,
        Error::MissingParameterAssignment => "`ContentType` invalid parameter key or missing '='."@,
        Error::InvalidParameterValue => "`ContentType` invalid character or empty parameter value."@,
    }
}

impl Error {
    /// The message of this error as a static string.
    pub fn as_static_str(&self) -> (r: &'static str)
        ensures
            r@ == error_message(*self),
    {
        match self {
            Error::LengthExceeded => "`ContentType` exceeds maximum length of `[char; 128]`.",
            Error::MissingTypeSeparator => "`ContentType` missing type-subtype separator: '/'.",
            Error::MissingType => "`ContentType` missing type before type-subtype separator: '/'.",
            Error::InvalidTypeChar => "`ContentType` type contains an invalid character",
            Error::MissingSubtype => "`ContentType` missing subtype after type-subtype separator: '/'.",
            Error::InvalidSubtypeChar => "`ContentType` subtype contains an invalid character",
            Error::MissingParameterSeparator => "`ContentType` invalid parameter separator, expected ';'.",
            Error::InvalidParameterKey => "`ContentType` invalid character in parameter key.",
            Error::MissingParameterAssignment => "`ContentType` invalid parameter key or missing '='.",
            Error::InvalidParameterValue => "`ContentType` invalid character or empty parameter value.",
        }
    }
}

} // verus!
