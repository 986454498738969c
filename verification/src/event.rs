//! The normalized event record and its constituent types: the assembled,
//! strongly-typed output of one successful normalization, immutable once
//! constructed.

use vstd::prelude::*;

use crate::document::Document;

verus! {

/// The closed enumeration of normalized event kinds this core produces.
#[derive(Clone, Copy, Debug, PartialEq, Eq, Structural)]
pub enum EventType {
    MemberJoin,
    MemberLeave,
}

/// Which upstream source kind produced a record.
#[derive(Clone, Copy, Debug, PartialEq, Eq, Structural)]
pub enum EventOrigin {
    Gateway,
    AuditLog,
    Hybrid,
}

/// The ordered tuple of values from which a record's stable natural key is
/// derived; its arity varies by event kind.
#[derive(Clone, Copy, Debug, PartialEq, Eq, Structural)]
pub enum IdParams {
    One(u64),
    Two(u64, u64),
}

/// A member's guild-specific nickname: a custom one, or none set.
#[derive(Clone, Debug, PartialEq, Eq)]
pub struct Nickname {
    pub custom: Option<String>,
}

impl Nickname {
    /// Wraps an extracted, possibly-null nickname value.
    pub fn from_option(custom: Option<String>) -> (r: Nickname)
        ensures
            r.custom == custom,
    {
        Nickname { custom }
    }
}

/// A user-like participant, carrying only the fields known at
/// normalization time.
#[derive(Clone, Debug, PartialEq, Eq)]
pub struct UserLike {
    pub id: u64,
    pub name: Option<String>,
    pub nickname: Option<Nickname>,
    pub discriminator: Option<u16>,
}

/// A channel-like participant.
#[derive(Clone, Debug, PartialEq, Eq)]
pub struct ChannelLike {
    pub id: u64,
    pub name: Option<String>,
}

/// A role-like participant.
#[derive(Clone, Debug, PartialEq, Eq)]
pub struct RoleLike {
    pub id: u64,
    pub name: Option<String>,
}

/// A participant in a normalized record: a tagged union over the kinds of
/// entity an event can involve.
#[derive(Clone, Debug, PartialEq, Eq)]
pub enum Entity {
    UserLike(UserLike),
    ChannelLike(ChannelLike),
    RoleLike(RoleLike),
}

/// Rendered human-readable content plus the identifiers mentioned in it.
#[derive(Clone, Debug, PartialEq, Eq)]
pub struct Content {
    pub inner: String,
    pub users_mentioned: Vec<u64>,
    pub channels_mentioned: Vec<u64>,
    pub roles_mentioned: Vec<u64>,
}

impl Default for Content {
    /// Empty content: no text and nothing mentioned.
    fn default() -> (r: Content)
        ensures
            r.inner@.len() == 0,
            r.users_mentioned@.len() == 0,
            r.channels_mentioned@.len() == 0,
            r.roles_mentioned@.len() == 0,
    {
        Content {
            inner: String::new(),
            users_mentioned: Vec::new(),
            channels_mentioned: Vec::new(),
            roles_mentioned: Vec::new(),
        }
    }
}

/// The original raw payload retained in the record for audit and debugging,
/// by the upstream source kind it arrived from.
#[derive(Debug, PartialEq, Eq)]
pub struct Source {
    pub gateway: Option<Document>,
    pub audit_log: Option<Document>,
}

impl Default for Source {
    /// No retained payload.
    fn default() -> (r: Source)
        ensures
            r.gateway is None,
            r.audit_log is None,
    {
        Source { gateway: None, audit_log: None }
    }
}

/// One normalized event record.
#[derive(Debug, PartialEq, Eq)]
pub struct NormalizedEvent {
    pub event_type: EventType,
    pub id_params: IdParams,
    /// Milliseconds since the epoch.
    pub timestamp: u64,
    /// Scope identifier.
    pub guild_id: u64,
    pub reason: Option<String>,
    pub audit_log_id: Option<u64>,
    pub channel: Option<ChannelLike>,
    /// The actor, when distinct from the subject.
    pub agent: Option<Entity>,
    pub subject: Option<Entity>,
    pub auxiliary: Option<Entity>,
    pub content: Content,
    pub origin: EventOrigin,
    pub source: Source,
}

} // verus!
