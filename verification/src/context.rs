//! Extraction contexts: one per raw source event, borrowing its payload and
//! combining a path with an extractor, translating "not found / wrong
//! shape" into a typed failure that names the offending path.

use vstd::prelude::*;

use crate::document::{locate, locate_spec, Document, Located};
use crate::extract::{
    extract_id, extract_id_spec, extract_opt_string, extract_opt_string_spec, extract_string,
    extract_string_spec, ExtractionFailure,
};
use crate::decimal::{all_digits, dec_val, parse_u16};
use crate::path::Path;

verus! {

/// One raw gateway event: the decoded payload plus the envelope fields that
/// are always present and carry no parse risk.
pub struct GatewaySource {
    /// The decoded wire payload.
    pub inner: Document,
    /// When the event entered the pipeline, in milliseconds since the epoch.
    pub ingress_timestamp: u64,
    /// Scope identifier.
    pub guild_id: u64,
}

/// Why normalizing one event failed.
#[derive(Clone, Copy, Debug, PartialEq, Eq, Structural)]
pub enum FailureCause {
    /// A required field failed to extract.
    Extraction(ExtractionFailure),
    /// A timestamp field was present but not a well-formed date-and-time.
    TimestampParseError,
    /// A derived signed timestamp did not fit the unsigned record field.
    IntegerConversionOverflow,
}

/// A failed normalization: the offending path and the underlying cause.
#[derive(Clone, Debug, PartialEq, Eq)]
pub struct NormalizationFailure {
    pub path: Path,
    pub cause: FailureCause,
}

/// What a required identifier lookup at `segs` yields.
pub open spec fn required_id_at(doc: Document, segs: Seq<Seq<char>>) -> Result<
    u64,
    ExtractionFailure,
> {
    extract_id_spec(locate_spec(doc, segs))
}

/// What a required string lookup at `segs` yields.
pub open spec fn required_string_at(doc: Document, segs: Seq<Seq<char>>) -> Result<
    Seq<char>,
    ExtractionFailure,
> {
    extract_string_spec(locate_spec(doc, segs))
}

/// What an optional string lookup at `segs` yields: any failure is
/// downgraded to an absent value.
pub open spec fn optional_string_at(doc: Document, segs: Seq<Seq<char>>) -> Option<Seq<char>> {
    match extract_string_spec(locate_spec(doc, segs)) {
        Ok(v) => Some(v),
        Err(_) => None,
    }
}

/// What an optional nullable string lookup at `segs` yields: the outer
/// option is absent on failure, the inner one reflects a null or missing
/// final value.
pub open spec fn optional_nullable_string_at(doc: Document, segs: Seq<Seq<char>>) -> Option<
    Option<Seq<char>>,
> {
    match extract_opt_string_spec(locate_spec(doc, segs)) {
        Ok(v) => Some(v),
        Err(_) => None,
    }
}

/// What an optional 16-bit decimal field at `segs` yields: a missing field
/// or unparseable text is absent, never an error.
pub open spec fn optional_u16_at(doc: Document, segs: Seq<Seq<char>>) -> Option<u16> {
    match extract_string_spec(locate_spec(doc, segs)) {
        Ok(s) => if s.len() > 0 && all_digits(s) && dec_val(s) <= u16::MAX {
            Some(dec_val(s) as u16)
        } else {
            None
        },
        Err(_) => None,
    }
}

/// Convenience accessors over one borrowed raw event.
pub struct Context<'a> {
    pub payload: &'a Document,
    pub ingress_timestamp: u64,
    pub guild_id: u64,
}

impl GatewaySource {
    /// Opens an extraction context over this event. Cheap and idempotent:
    /// it borrows the payload, it does not copy it.
    pub fn context(&self) -> (r: Context<'_>)
        ensures
            *r.payload == self.inner,
            r.ingress_timestamp == self.ingress_timestamp,
            r.guild_id == self.guild_id,
    {
        Context {
            payload: &self.inner,
            ingress_timestamp: self.ingress_timestamp,
            guild_id: self.guild_id,
        }
    }
}

impl<'a> Context<'a> {
    /// Walks `path` into the payload.
    pub fn locate(&self, path: &Path) -> (r: Located<'a>)
        ensures
            r@ == locate_spec(*self.payload, path@),
    {
        locate(self.payload, path)
    }

    /// A required identifier; failure names the path.
    pub fn require_id(&self, path: &Path) -> (r: Result<u64, NormalizationFailure>)
        ensures
            match required_id_at(*self.payload, path@) {
                Ok(v) => r == Ok::<u64, NormalizationFailure>(v),
                Err(e) => r matches Err(f) && f.path@ == path@ && f.cause
                    == FailureCause::Extraction(e),
            },
    {
        match extract_id(self.locate(path)) {
            Ok(v) => Ok(v),
            Err(e) => Err(
                NormalizationFailure { path: path.dup(), cause: FailureCause::Extraction(e) },
            ),
        }
    }

    /// A required string; failure names the path.
    pub fn require_string(&self, path: &Path) -> (r: Result<String, NormalizationFailure>)
        ensures
            match required_string_at(*self.payload, path@) {
                Ok(v) => r matches Ok(s) && s@ == v,
                Err(e) => r matches Err(f) && f.path@ == path@ && f.cause
                    == FailureCause::Extraction(e),
            },
    {
        match extract_string(self.locate(path)) {
            Ok(v) => Ok(v),
            Err(e) => Err(
                NormalizationFailure { path: path.dup(), cause: FailureCause::Extraction(e) },
            ),
        }
    }

    /// An optional string: extraction failure downgrades to absent.
    pub fn optional_string(&self, path: &Path) -> (r: Option<String>)
        ensures
            match optional_string_at(*self.payload, path@) {
                Some(v) => r matches Some(s) && s@ == v,
                None => r is None,
            },
    {
        match extract_string(self.locate(path)) {
            Ok(v) => Some(v),
            Err(_) => None,
        }
    }

    /// An optional nullable string: extraction failure downgrades to
    /// absent; a null or missing final value is present-but-empty.
    pub fn optional_nullable_string(&self, path: &Path) -> (r: Option<Option<String>>)
        ensures
            match optional_nullable_string_at(*self.payload, path@) {
                Some(Some(v)) => r matches Some(Some(s)) && s@ == v,
                Some(None) => r == Some::<Option<String>>(None),
                None => r is None,
            },
    {
        match extract_opt_string(self.locate(path)) {
            Ok(v) => Some(v),
            Err(_) => None,
        }
    }

    /// An optional 16-bit decimal field carried as text: a missing field or
    /// unparseable text downgrades to absent.
    pub fn optional_u16(&self, path: &Path) -> (r: Option<u16>)
        ensures
            r == optional_u16_at(*self.payload, path@),
    {
        match extract_string(self.locate(path)) {
            Ok(s) => parse_u16(s.as_str()),
            Err(_) => None,
        }
    }
}

} // verus!
