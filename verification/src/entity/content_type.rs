//! `ContentType` refers to what is now called a media type, more commonly
//! known as a MIME type.
pub mod error;
pub mod mime;

pub use error::Error;

use vstd::prelude::*;
use vstd::string::StrSliceExecFns;
use vstd::string::StringSliceAdditionalSpecFns;
use vstd::utf8::encode_utf8;

use mime::{Mime, mime_outcome};

verus! {

/// The longest source (in characters) that Arkiv accepts as a content type.
pub const MAX_CONTENT_TYPE_LEN: usize = 128;

/// What the length check of a content type source gives.
pub open spec fn length_outcome(source: Seq<char>) -> Result<(), Error> {
    if source.len() > MAX_CONTENT_TYPE_LEN {
        Err(Error::LengthExceeded)
    } else {
        Ok(())
    }
}

/// What validation of a content type source gives: the length check first, then
/// the MIME grammar (RFC 2045 and RFC 7231) on its UTF-8 bytes.
pub open spec fn content_type_outcome(source: Seq<char>) -> Result<(), Error> {
    match length_outcome(source) {
        Err(e) => Err(e),
        Ok(()) => mime_outcome(encode_utf8(source)),
    }
}

/// A source of more than 128 characters is refused for its length, before its
/// grammar is looked at; a source of at most 128 characters (of any byte length) is
/// accepted exactly where the MIME grammar accepts its UTF-8 bytes.
pub proof fn law_length_in_characters_then_grammar(source: Seq<char>)
    ensures
        source.len() > 128 ==> content_type_outcome(source) == Err::<(), Error>(Error::LengthExceeded),
        source.len() <= 128 ==> content_type_outcome(source) == mime_outcome(encode_utf8(source)),
{
}

/// The content type of an entity.
///
/// Validation follows the RFC 2045 and RFC 7231 MIME grammar, and Arkiv in
/// addition requires the source to be at most 128 characters long.
#[derive(Debug, Clone)]
pub struct ContentType(pub(crate) String);

impl ContentType {
    /// The source as a sequence of characters.
    pub closed spec fn view_source(&self) -> Seq<char> {
        self.0@
    }

    /// Make a content type from a source, without validation.
    pub fn new(mime: &str) -> (c: ContentType)
        ensures
            c.view_source() == mime@,
    {
        ContentType(mime.to_owned())
    }

    /// A reference to the underlying source.
    pub fn source(&self) -> (r: &str)
        ensures
            r@ == self.view_source(),
    {
        self.0.as_str()
    }

    /// Arkiv content type validation requires the source length to be at most 128 characters.
    pub fn validate_source(source: &str) -> (r: Result<(), Error>)
        ensures
            r == length_outcome(source@),
    {
        if source.unicode_len() > MAX_CONTENT_TYPE_LEN {
            return Err(Error::LengthExceeded);
        }
        Ok(())
    }

    /// Return an error if validation fails (the length first, then the MIME
    /// grammar), else the content type itself.
    pub fn validate(self) -> (r: Result<ContentType, Error>)
        ensures
            content_type_outcome(self.view_source()) matches Err(e) ==> r == Err::<ContentType, Error>(e),
            content_type_outcome(self.view_source()) is Ok ==> (r matches Ok(c)
                && c.view_source() == self.view_source()),
    {
        let source = self.0.as_str();
        match Self::validate_source(source) {
            Ok(()) => {},
            Err(e) => return Err(e),
        }
        assert(source.spec_bytes() == encode_utf8(source@));
        match Mime::validate_source(source) {
            Ok(()) => Ok(self),
            Err(e) => Err(e),
        }
    }

    /// A content type made from a `Mime`, which was validated when it was made.
    pub fn from_mime(value: Mime) -> (c: ContentType)
        ensures
            c.view_source() == value.view_source(),
    {
        ContentType(value.into_source())
    }
}

impl vstd::std_specs::convert::TryFromSpecImpl<&str> for ContentType {
    open spec fn obeys_try_from_spec() -> bool {
        false
    }

    open spec fn try_from_spec(v: &str) -> Result<Self, Self::Error> {
        arbitrary()
    }
}

impl TryFrom<&str> for ContentType {
    type Error = Error;

    /// Validate a source and make a content type from it.
    fn try_from(source: &str) -> (r: Result<ContentType, Error>)
        ensures
            content_type_outcome(source@) matches Err(e) ==> r == Err::<ContentType, Error>(e),
            content_type_outcome(source@) is Ok ==> (r matches Ok(c) && c.view_source() == source@),
    {
        ContentType(source.to_owned()).validate()
    }
}

impl vstd::std_specs::convert::TryFromSpecImpl<String> for ContentType {
    open spec fn obeys_try_from_spec() -> bool {
        false
    }

    open spec fn try_from_spec(v: String) -> Result<Self, Self::Error> {
        arbitrary()
    }
}

impl TryFrom<String> for ContentType {
    type Error = Error;

    /// Validate a source and make a content type from it.
    fn try_from(source: String) -> (r: Result<ContentType, Error>)
        ensures
            content_type_outcome(source@) matches Err(e) ==> r == Err::<ContentType, Error>(e),
            content_type_outcome(source@) is Ok ==> (r matches Ok(c) && c.view_source() == source@),
    {
        ContentType(source).validate()
    }
}

} // verus!
