//! Processors for member events: one turns a raw member-join event into a
//! normalized record, the other a raw member-leave event. Both follow the
//! general processor pattern: extract required identity fields first,
//! downgrade optional descriptive fields to absent, derive the natural key
//! from fields that reproducibly identify the occurrence, render content
//! through the shared mention helper, and move the raw payload into the
//! record last.

use vstd::prelude::*;

use crate::context::{
    optional_nullable_string_at, optional_string_at, optional_u16_at, required_id_at,
    required_string_at, FailureCause, GatewaySource, NormalizationFailure,
};
use crate::decimal::dec_rep;
use crate::document::Document;
use crate::event::{
    Content, Entity, EventOrigin, EventType, IdParams, Nickname, NormalizedEvent, Source, UserLike,
};
use crate::fleet::{GatewayEventKind, Processor, ProcessorFleet, RegistrationError};
use crate::path::{split_dotted, Path};
use crate::time::{parse_rfc3339_millis, rfc3339_millis, timestamp_from_parsed};

verus! {

/// Segments of the path to the subject identifier.
pub open spec fn user_id_segs() -> Seq<Seq<char>> {
    split_dotted("user.id"@)
}

/// Segments of the path to the join timestamp.
pub open spec fn joined_at_segs() -> Seq<Seq<char>> {
    split_dotted("joined_at"@)
}

/// Segments of the path to the subject's username.
pub open spec fn username_segs() -> Seq<Seq<char>> {
    split_dotted("user.username"@)
}

/// Segments of the path to the subject's discriminator tag.
pub open spec fn discriminator_segs() -> Seq<Seq<char>> {
    split_dotted("user.discriminator"@)
}

/// Segments of the path to the subject's nickname.
pub open spec fn nick_segs() -> Seq<Seq<char>> {
    split_dotted("nick"@)
}

/// The rich-mention rendering of an identifier.
pub open spec fn mention_text(id: u64) -> Seq<char> {
    "<@"@ + dec_rep(id as nat) + ">"@
}

/// Appends the fixed rich-mention syntax for `id` to `writer`. Total: any
/// 64-bit identifier renders, and a growable text buffer cannot refuse it.
pub fn write_mention(writer: &mut String, id: u64)
    ensures
        final(writer)@ == old(writer)@ + mention_text(id),
{
    writer.append("<@");
    crate::decimal::push_dec(writer, id);
    writer.append(">");
    proof {
        assert(final(writer)@ =~= old(writer)@ + mention_text(id));
    }
}

/// View of an optional owned string.
pub open spec fn opt_string_view(o: Option<String>) -> Option<Seq<char>> {
    match o {
        Some(s) => Some(s@),
        None => None,
    }
}

/// View of an optional nickname.
pub open spec fn opt_nickname_view(o: Option<Nickname>) -> Option<Option<Seq<char>>> {
    match o {
        Some(n) => Some(opt_string_view(n.custom)),
        None => None,
    }
}

/// The subject entity both member processors build: the extracted
/// identifier plus whatever optional descriptive fields were present, each
/// downgraded to absent when missing or malformed.
pub open spec fn member_subject_ok(
    payload: Document,
    id: u64,
    with_nickname: bool,
    subject: Option<Entity>,
) -> bool {
    &&& subject matches Some(Entity::UserLike(u)) && {
        &&& u.id == id
        &&& opt_string_view(u.name) == optional_string_at(payload, username_segs())
        &&& u.discriminator == optional_u16_at(payload, discriminator_segs())
        &&& if with_nickname {
            opt_nickname_view(u.nickname) == optional_nullable_string_at(payload, nick_segs())
        } else {
            u.nickname is None
        }
    }
}

/// The fields common to both member records: scope, provenance, rendered
/// content mentioning exactly the subject, and the raw payload moved into
/// the record.
pub open spec fn member_common_ok(
    source: GatewaySource,
    id: u64,
    verb: Seq<char>,
    ev: NormalizedEvent,
) -> bool {
    &&& ev.guild_id == source.guild_id
    &&& ev.reason is None
    &&& ev.audit_log_id is None
    &&& ev.channel is None
    &&& ev.agent is None
    &&& ev.auxiliary is None
    &&& ev.content.inner@ == mention_text(id) + verb
    &&& ev.content.users_mentioned@ == seq![id]
    &&& ev.content.channels_mentioned@.len() == 0
    &&& ev.content.roles_mentioned@.len() == 0
    &&& ev.origin == EventOrigin::Gateway
    &&& ev.source.gateway == Some(source.inner)
    &&& ev.source.audit_log is None
}

/// Everything the member-join processor promises of a successful record,
/// given the extracted subject identifier and derived join timestamp.
pub open spec fn member_join_fields(
    source: GatewaySource,
    id: u64,
    ts: u64,
    ev: NormalizedEvent,
) -> bool {
    &&& ev.event_type == EventType::MemberJoin
    &&& ev.id_params == IdParams::Two(id, ts)
    &&& ev.timestamp == ts
    &&& member_subject_ok(source.inner, id, true, ev.subject)
    &&& member_common_ok(source, id, " joined"@, ev)
}

/// What processing a member-join event yields, as a function of the raw
/// event alone: the subject identifier is required, then the join
/// timestamp, which must be a well-formed RFC-3339 instant no earlier than
/// the epoch; the derived millisecond timestamp is both the record's
/// timestamp and the second natural-key component.
pub open spec fn member_join_post(
    source: GatewaySource,
    r: Result<NormalizedEvent, NormalizationFailure>,
) -> bool {
    match required_id_at(source.inner, user_id_segs()) {
        Err(e) => r matches Err(f) && f.path@ == user_id_segs() && f.cause
            == FailureCause::Extraction(e),
        Ok(id) => match required_string_at(source.inner, joined_at_segs()) {
            Err(e) => r matches Err(f) && f.path@ == joined_at_segs() && f.cause
                == FailureCause::Extraction(e),
            Ok(ja) => match rfc3339_millis(ja) {
                None => r matches Err(f) && f.path@ == joined_at_segs() && f.cause
                    == FailureCause::TimestampParseError,
                Some(ms) => if ms >= 0 {
                    r matches Ok(ev) && member_join_fields(source, id, ms as u64, ev)
                } else {
                    r matches Err(f) && f.path@ == joined_at_segs() && f.cause
                        == FailureCause::IntegerConversionOverflow
                },
            },
        },
    }
}

/// Everything the member-leave processor promises of a successful record:
/// leave events carry no reliable removal timestamp upstream, so the
/// envelope's ingress timestamp is the record's timestamp and the second
/// natural-key component.
pub open spec fn member_leave_fields(source: GatewaySource, id: u64, ev: NormalizedEvent) -> bool {
    &&& ev.event_type == EventType::MemberLeave
    &&& ev.id_params == IdParams::Two(id, source.ingress_timestamp)
    &&& ev.timestamp == source.ingress_timestamp
    &&& member_subject_ok(source.inner, id, false, ev.subject)
    &&& member_common_ok(source, id, " left"@, ev)
}

/// What processing a member-leave event yields, as a function of the raw
/// event alone: only the subject identifier is required.
pub open spec fn member_leave_post(
    source: GatewaySource,
    r: Result<NormalizedEvent, NormalizationFailure>,
) -> bool {
    match required_id_at(source.inner, user_id_segs()) {
        Err(e) => r matches Err(f) && f.path@ == user_id_segs() && f.cause
            == FailureCause::Extraction(e),
        Ok(id) => r matches Ok(ev) && member_leave_fields(source, id, ev),
    }
}

/// Normalizes one member-join event.
pub fn process_member_join(source: GatewaySource) -> (r: Result<
    NormalizedEvent,
    NormalizationFailure,
>)
    ensures
        member_join_post(source, r),
{
    let id_path = Path::from("user.id");
    let joined_at_path = Path::from("joined_at");
    let username_path = Path::from("user.username");
    let discriminator_path = Path::from("user.discriminator");
    let nick_path = Path::from("nick");

    let ctx = source.context();

    let user_id = match ctx.require_id(&id_path) {
        Ok(v) => v,
        Err(f) => {
            return Err(f);
        },
    };
    let username = ctx.optional_string(&username_path);
    let discriminator = ctx.optional_u16(&discriminator_path);
    let nickname = match ctx.optional_nullable_string(&nick_path) {
        Some(o) => Some(Nickname::from_option(o)),
        None => None,
    };
    let joined_at = match ctx.require_string(&joined_at_path) {
        Ok(v) => v,
        Err(f) => {
            return Err(f);
        },
    };
    let parsed = parse_rfc3339_millis(joined_at.as_str());
    let timestamp = match timestamp_from_parsed(parsed) {
        Ok(v) => v,
        Err(cause) => {
            return Err(NormalizationFailure { path: joined_at_path, cause });
        },
    };

    let mut text = String::new();
    write_mention(&mut text, user_id);
    text.append(" joined");
    let mut users_mentioned: Vec<u64> = Vec::new();
    users_mentioned.push(user_id);
    proof {
        assert(text@ =~= mention_text(user_id) + " joined"@);
        assert(users_mentioned@ =~= seq![user_id]);
    }

    Ok(
        NormalizedEvent {
            event_type: EventType::MemberJoin,
            id_params: IdParams::Two(user_id, timestamp),
            timestamp,
            guild_id: source.guild_id,
            reason: None,
            audit_log_id: None,
            channel: None,
            agent: None,
            subject: Some(
                Entity::UserLike(
                    UserLike { id: user_id, name: username, nickname, discriminator },
                ),
            ),
            auxiliary: None,
            content: Content {
                inner: text,
                users_mentioned,
                channels_mentioned: Vec::new(),
                roles_mentioned: Vec::new(),
            },
            origin: EventOrigin::Gateway,
            source: Source { gateway: Some(source.inner), audit_log: None },
        },
    )
}

/// Normalizes one member-leave event.
pub fn process_member_leave(source: GatewaySource) -> (r: Result<
    NormalizedEvent,
    NormalizationFailure,
>)
    ensures
        member_leave_post(source, r),
{
    let id_path = Path::from("user.id");
    let username_path = Path::from("user.username");
    let discriminator_path = Path::from("user.discriminator");

    let ctx = source.context();

    let user_id = match ctx.require_id(&id_path) {
        Ok(v) => v,
        Err(f) => {
            return Err(f);
        },
    };
    let username = ctx.optional_string(&username_path);
    let discriminator = ctx.optional_u16(&discriminator_path);
    let timestamp = ctx.ingress_timestamp;

    let mut text = String::new();
    write_mention(&mut text, user_id);
    text.append(" left");
    let mut users_mentioned: Vec<u64> = Vec::new();
    users_mentioned.push(user_id);
    proof {
        assert(text@ =~= mention_text(user_id) + " left"@);
        assert(users_mentioned@ =~= seq![user_id]);
    }

    Ok(
        NormalizedEvent {
            event_type: EventType::MemberLeave,
            id_params: IdParams::Two(user_id, timestamp),
            timestamp,
            guild_id: source.guild_id,
            reason: None,
            audit_log_id: None,
            channel: None,
            agent: None,
            subject: Some(
                Entity::UserLike(
                    UserLike { id: user_id, name: username, nickname: None, discriminator },
                ),
            ),
            auxiliary: None,
            content: Content {
                inner: text,
                users_mentioned,
                channels_mentioned: Vec::new(),
                roles_mentioned: Vec::new(),
            },
            origin: EventOrigin::Gateway,
            source: Source { gateway: Some(source.inner), audit_log: None },
        },
    )
}

/// Registers the member processors: member-join under the member-add
/// discriminant and member-leave under member-remove. Registration is a
/// startup-time call; a discriminant that is already taken fails the whole
/// registration fast and leaves the fleet unchanged.
pub fn register_all(fleet: &mut ProcessorFleet) -> (r: Result<(), RegistrationError>)
    ensures
        r is Ok <==> (old(fleet).registered(GatewayEventKind::MemberAdd) is None
            && old(fleet).registered(GatewayEventKind::MemberRemove) is None),
        r is Err ==> *final(fleet) == *old(fleet) && r == Err::<(), RegistrationError>(
            RegistrationError::DuplicateRegistration,
        ),
        r is Ok ==> final(fleet).registered(GatewayEventKind::MemberAdd) == Some(
            Processor::MemberJoin,
        ) && final(fleet).registered(GatewayEventKind::MemberRemove) == Some(
            Processor::MemberLeave,
        ) && (forall|k: GatewayEventKind|
            k != GatewayEventKind::MemberAdd && k != GatewayEventKind::MemberRemove
                ==> final(fleet).registered(k) == old(fleet).registered(k)),
{
    if fleet.get(GatewayEventKind::MemberAdd).is_some() || fleet.get(
        GatewayEventKind::MemberRemove,
    ).is_some() {
        return Err(RegistrationError::DuplicateRegistration);
    }
    match fleet.register(GatewayEventKind::MemberAdd, Processor::MemberJoin) {
        Ok(u) => u,
        Err(e) => {
            return Err(e);
        },
    };
    match fleet.register(GatewayEventKind::MemberRemove, Processor::MemberLeave) {
        Ok(u) => u,
        Err(e) => {
            return Err(e);
        },
    };
    Ok(())
}

/// Law: normalizing the same raw member-join event twice yields records
/// with the same event type, the same natural key, and the same timestamp —
/// and fails the one time exactly when it fails the other.
pub proof fn lemma_member_join_idempotent(
    source: GatewaySource,
    r1: Result<NormalizedEvent, NormalizationFailure>,
    r2: Result<NormalizedEvent, NormalizationFailure>,
)
    requires
        member_join_post(source, r1),
        member_join_post(source, r2),
    ensures
        r1 is Ok <==> r2 is Ok,
        r1 matches Ok(e1) ==> (r2 matches Ok(e2) ==> e1.event_type == e2.event_type
            && e1.id_params == e2.id_params && e1.timestamp == e2.timestamp),
{
}

/// Law: normalizing the same raw member-leave event twice yields records
/// with the same event type, the same natural key, and the same timestamp —
/// and fails the one time exactly when it fails the other.
pub proof fn lemma_member_leave_idempotent(
    source: GatewaySource,
    r1: Result<NormalizedEvent, NormalizationFailure>,
    r2: Result<NormalizedEvent, NormalizationFailure>,
)
    requires
        member_leave_post(source, r1),
        member_leave_post(source, r2),
    ensures
        r1 is Ok <==> r2 is Ok,
        r1 matches Ok(e1) ==> (r2 matches Ok(e2) ==> e1.event_type == e2.event_type
            && e1.id_params == e2.id_params && e1.timestamp == e2.timestamp),
{
}

} // verus!
