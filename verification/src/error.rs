//! Errors raised while decoding a reply or attaching an extension.

use vstd::prelude::*;

verus! {

/// Why an element tree could not be decoded into a typed value.
///
/// The payload of a variant names the field concerned, as `Type::field`.
#[derive(Debug, PartialEq, Eq)]
pub enum DecodeError {
    /// A scalar or optional field occurs more than once.
    DuplicateValue(&'static str),
    /// A required field does not occur.
    MissingValue(&'static str),
    /// A numeric field holds text that is not a number.
    MalformedNumber(&'static str),
    /// A boolean field holds text that is not a boolean.
    UnexpectedValue(&'static str),
    /// The root element is not the one the reply type is bound to.
    UnexpectedElement,
    /// The text is not a well-formed document. The payload is the error of
    /// `instant_xml`, as it gave it.
    Malformed(instant_xml::Error),
}

/// Why one occurrence of a field could not be read from a reader of
/// `instant_xml`.
#[derive(Debug, PartialEq, Eq)]
pub enum ReadError {
    /// The slot of the field is already filled. The payload names the field.
    DuplicateValue(&'static str),
    /// The reader gave no text. The payload is the error of the reader, as
    /// it gave it.
    Reader(instant_xml::Error),
}

/// The first of two possible errors, in order.
pub open spec fn first_error(a: Option<DecodeError>, b: Option<DecodeError>) -> Option<
    DecodeError,
> {
    if a is Some {
        a
    } else {
        b
    }
}

/// The error of a result, if it is one.
pub open spec fn error_of<T>(r: Result<T, DecodeError>) -> Option<DecodeError> {
    match r {
        Ok(_) => None,
        Err(e) => Some(e),
    }
}

/// The value of a result, where it is one.
pub open spec fn value_of<T>(r: Result<T, DecodeError>) -> T {
    match r {
        Ok(v) => v,
        Err(_) => arbitrary(),
    }
}

} // verus!
