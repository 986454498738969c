//! Typed extractors: read-only coercions from a located document node to an
//! expected type, reporting precisely why extraction failed when it does.
//!
//! A node that is absent or null is `PathNotFound` for required targets; a
//! node of the wrong shape is `TypeMismatch`; text that fails to parse as
//! the expected scalar is `ValueInvalid`.

use vstd::prelude::*;

use crate::decimal::{all_digits, dec_val, parse_u64};
use crate::document::{Document, Located, Location};

verus! {

/// Why one extraction failed.
#[derive(Clone, Copy, Debug, PartialEq, Eq, Structural)]
pub enum ExtractionFailure {
    /// The path did not resolve, or resolved to null for a required target.
    PathNotFound,
    /// The path resolved to a node of the wrong shape.
    TypeMismatch,
    /// The located text failed to parse as the expected scalar.
    ValueInvalid,
}

/// What extracting a required string from a located node yields.
pub open spec fn extract_string_spec(l: Location) -> Result<Seq<char>, ExtractionFailure> {
    match l {
        Location::Found(d) => match d {
            Document::Text(s) => Ok(s@),
            Document::Null => Err(ExtractionFailure::PathNotFound),
            _ => Err(ExtractionFailure::TypeMismatch),
        },
        Location::MissingFinal => Err(ExtractionFailure::PathNotFound),
        Location::MissingIntermediate => Err(ExtractionFailure::PathNotFound),
    }
}

/// What extracting an optional string yields: a missing final segment or a
/// null node is an absent value, not a failure.
pub open spec fn extract_opt_string_spec(l: Location) -> Result<
    Option<Seq<char>>,
    ExtractionFailure,
> {
    match l {
        Location::Found(d) => match d {
            Document::Text(s) => Ok(Some(s@)),
            Document::Null => Ok(None),
            _ => Err(ExtractionFailure::TypeMismatch),
        },
        Location::MissingFinal => Ok(None),
        Location::MissingIntermediate => Err(ExtractionFailure::PathNotFound),
    }
}

/// What extracting an identifier yields: identifiers travel as decimal
/// strings and must fit in a `u64`.
pub open spec fn extract_id_spec(l: Location) -> Result<u64, ExtractionFailure> {
    match l {
        Location::Found(d) => match d {
            Document::Text(s) => if s@.len() > 0 && all_digits(s@) && dec_val(s@) <= u64::MAX {
                Ok(dec_val(s@) as u64)
            } else {
                Err(ExtractionFailure::ValueInvalid)
            },
            Document::Null => Err(ExtractionFailure::PathNotFound),
            _ => Err(ExtractionFailure::TypeMismatch),
        },
        Location::MissingFinal => Err(ExtractionFailure::PathNotFound),
        Location::MissingIntermediate => Err(ExtractionFailure::PathNotFound),
    }
}

/// Coerces a located node to a required string.
pub fn extract_string(l: Located<'_>) -> (r: Result<String, ExtractionFailure>)
    ensures
        match extract_string_spec(l@) {
            Ok(v) => r matches Ok(s) && s@ == v,
            Err(e) => r == Err::<String, ExtractionFailure>(e),
        },
{
    match l {
        Located::Found(d) => match d {
            Document::Text(s) => Ok(s.clone()),
            Document::Null => Err(ExtractionFailure::PathNotFound),
            _ => Err(ExtractionFailure::TypeMismatch),
        },
        _ => Err(ExtractionFailure::PathNotFound),
    }
}

/// Coerces a located node to an optional string.
pub fn extract_opt_string(l: Located<'_>) -> (r: Result<Option<String>, ExtractionFailure>)
    ensures
        match extract_opt_string_spec(l@) {
            Ok(Some(v)) => r matches Ok(Some(s)) && s@ == v,
            Ok(None) => r == Ok::<Option<String>, ExtractionFailure>(None),
            Err(e) => r == Err::<Option<String>, ExtractionFailure>(e),
        },
{
    match l {
        Located::Found(d) => match d {
            Document::Text(s) => Ok(Some(s.clone())),
            Document::Null => Ok(None),
            _ => Err(ExtractionFailure::TypeMismatch),
        },
        Located::MissingFinal => Ok(None),
        Located::MissingIntermediate => Err(ExtractionFailure::PathNotFound),
    }
}

/// Coerces a located node to a 64-bit unsigned identifier.
pub fn extract_id(l: Located<'_>) -> (r: Result<u64, ExtractionFailure>)
    ensures
        r == extract_id_spec(l@),
{
    match l {
        Located::Found(d) => match d {
            Document::Text(s) => match parse_u64(s.as_str()) {
                Some(v) => Ok(v),
                None => Err(ExtractionFailure::ValueInvalid),
            },
            Document::Null => Err(ExtractionFailure::PathNotFound),
            _ => Err(ExtractionFailure::TypeMismatch),
        },
        _ => Err(ExtractionFailure::PathNotFound),
    }
}

} // verus!
