use gateway_normalize::context::GatewaySource;
use gateway_normalize::decimal::{parse_u16, parse_u64, push_dec};
use gateway_normalize::document::{locate, Document, Field, Located};
use gateway_normalize::event::{EventType, IdParams};
use gateway_normalize::extract::{extract_id, extract_opt_string, extract_string, ExtractionFailure};
use gateway_normalize::fleet::{GatewayEventKind, Processor, ProcessorFleet, RegistrationError};
use gateway_normalize::path::Path;
use gateway_normalize::processors::{register_all, write_mention};
use gateway_normalize::time::timestamp_from_parsed;
use gateway_normalize::context::FailureCause;

fn text(s: &str) -> Document {
    Document::Text(String::from(s))
}

fn field(name: &str, value: Document) -> Field {
    Field { name: String::from(name), value }
}

fn sample_payload() -> Document {
    Document::Object(vec![
        field(
            "user",
            Document::Object(vec![
                field("id", text("31337")),
                field("username", text("someone")),
            ]),
        ),
        field("joined_at", text("2022-06-15T12:30:45Z")),
        field("count", Document::Int(3)),
        field("gone", Document::Null),
    ])
}

#[test]
fn write_mention_renders_fixed_syntax() {
    let mut buffer = String::new();
    write_mention(&mut buffer, 123456789);
    assert_eq!(buffer, "<@123456789>");
    write_mention(&mut buffer, 0);
    assert_eq!(buffer, "<@123456789><@0>");
}

#[test]
fn push_dec_renders_decimal_digits() {
    let mut buffer = String::new();
    push_dec(&mut buffer, 0);
    assert_eq!(buffer, "0");
    let mut buffer = String::new();
    push_dec(&mut buffer, u64::MAX);
    assert_eq!(buffer, "18446744073709551615");
}

#[test]
fn parse_u64_exact_values() {
    assert_eq!(parse_u64("0"), Some(0));
    assert_eq!(parse_u64("007"), Some(7));
    assert_eq!(parse_u64("123456789"), Some(123456789));
    assert_eq!(parse_u64("18446744073709551615"), Some(u64::MAX));
    assert_eq!(parse_u64("18446744073709551616"), None);
    assert_eq!(parse_u64(""), None);
    assert_eq!(parse_u64("12a"), None);
    assert_eq!(parse_u64("-5"), None);
    assert_eq!(parse_u64("+5"), None);
}

#[test]
fn parse_u16_exact_values() {
    assert_eq!(parse_u16("1234"), Some(1234));
    assert_eq!(parse_u16("65535"), Some(u16::MAX));
    assert_eq!(parse_u16("65536"), None);
    assert_eq!(parse_u16("classic"), None);
    assert_eq!(parse_u16(""), None);
}

#[test]
fn path_from_splits_on_dots() {
    let p = Path::from("user.id");
    assert_eq!(p.len(), 2);
    assert_eq!(p.segment(0), "user");
    assert_eq!(p.segment(1), "id");
}

#[test]
fn path_from_empty_is_one_empty_segment() {
    let p = Path::from("");
    assert_eq!(p.len(), 1);
    assert_eq!(p.segment(0), "");
}

#[test]
fn path_from_keeps_empty_interior_segments() {
    let p = Path::from("a..b.");
    assert_eq!(p.len(), 4);
    assert_eq!(p.segment(0), "a");
    assert_eq!(p.segment(1), "");
    assert_eq!(p.segment(2), "b");
    assert_eq!(p.segment(3), "");
}

#[test]
fn path_equality_is_by_segments() {
    assert_eq!(Path::from("user.id"), Path::from("user.id").dup());
    assert_ne!(Path::from("user.id"), Path::from("user"));
}

#[test]
fn locate_walks_nested_objects() {
    let payload = sample_payload();
    match locate(&payload, &Path::from("user.id")) {
        Located::Found(Document::Text(s)) => assert_eq!(s, "31337"),
        other => panic!("expected to find a text node, got {:?}", other),
    }
    assert!(matches!(locate(&payload, &Path::from("user.missing")), Located::MissingFinal));
    assert!(matches!(
        locate(&payload, &Path::from("absent.id")),
        Located::MissingIntermediate
    ));
    assert!(matches!(
        locate(&payload, &Path::from("count.inner")),
        Located::MissingIntermediate
    ));
}

#[test]
fn extractors_report_precise_failures() {
    let payload = sample_payload();
    assert_eq!(
        extract_string(locate(&payload, &Path::from("user.username"))).unwrap(),
        "someone"
    );
    assert_eq!(
        extract_string(locate(&payload, &Path::from("count"))),
        Err(ExtractionFailure::TypeMismatch)
    );
    assert_eq!(
        extract_string(locate(&payload, &Path::from("gone"))),
        Err(ExtractionFailure::PathNotFound)
    );
    assert_eq!(extract_id(locate(&payload, &Path::from("user.id"))), Ok(31337));
    assert_eq!(
        extract_id(locate(&payload, &Path::from("user.username"))),
        Err(ExtractionFailure::ValueInvalid)
    );
    assert_eq!(
        extract_id(locate(&payload, &Path::from("count"))),
        Err(ExtractionFailure::TypeMismatch)
    );
    assert_eq!(
        extract_id(locate(&payload, &Path::from("user.absent"))),
        Err(ExtractionFailure::PathNotFound)
    );
    assert_eq!(
        extract_opt_string(locate(&payload, &Path::from("gone"))),
        Ok(None)
    );
    assert_eq!(
        extract_opt_string(locate(&payload, &Path::from("absent"))),
        Ok(None)
    );
    assert_eq!(
        extract_opt_string(locate(&payload, &Path::from("absent.inner"))),
        Err(ExtractionFailure::PathNotFound)
    );
    assert_eq!(
        extract_opt_string(locate(&payload, &Path::from("count"))),
        Err(ExtractionFailure::TypeMismatch)
    );
}

#[test]
fn timestamp_from_parsed_distinguishes_failures() {
    assert_eq!(timestamp_from_parsed(Some(1000)), Ok(1000));
    assert_eq!(timestamp_from_parsed(Some(0)), Ok(0));
    assert_eq!(
        timestamp_from_parsed(Some(-1)),
        Err(FailureCause::IntegerConversionOverflow)
    );
    assert_eq!(timestamp_from_parsed(None), Err(FailureCause::TimestampParseError));
}

#[test]
fn dispatch_of_unregistered_kind_is_a_no_op() {
    let mut fleet = ProcessorFleet::new();
    register_all(&mut fleet).unwrap();
    let source = GatewaySource { inner: sample_payload(), ingress_timestamp: 5, guild_id: 1 };
    assert!(fleet.dispatch(GatewayEventKind::MessageCreate, source).is_none());
    let source = GatewaySource { inner: sample_payload(), ingress_timestamp: 5, guild_id: 1 };
    assert!(fleet.dispatch(GatewayEventKind::ReactionAdd, source).is_none());
}

#[test]
fn dispatch_runs_the_registered_processor() {
    let mut fleet = ProcessorFleet::new();
    register_all(&mut fleet).unwrap();
    let source = GatewaySource { inner: sample_payload(), ingress_timestamp: 5, guild_id: 1 };
    let ev = fleet
        .dispatch(GatewayEventKind::MemberAdd, source)
        .expect("registered")
        .expect("normalizes");
    assert_eq!(ev.event_type, EventType::MemberJoin);
    assert_eq!(ev.id_params, IdParams::Two(31337, 1_655_296_245_000));
    let source = GatewaySource { inner: sample_payload(), ingress_timestamp: 5, guild_id: 1 };
    let ev = fleet
        .dispatch(GatewayEventKind::MemberRemove, source)
        .expect("registered")
        .expect("normalizes");
    assert_eq!(ev.event_type, EventType::MemberLeave);
    assert_eq!(ev.id_params, IdParams::Two(31337, 5));
}

#[test]
fn duplicate_registration_is_rejected() {
    let mut fleet = ProcessorFleet::new();
    assert_eq!(fleet.register(GatewayEventKind::MemberAdd, Processor::MemberJoin), Ok(()));
    assert_eq!(
        fleet.register(GatewayEventKind::MemberAdd, Processor::MemberLeave),
        Err(RegistrationError::DuplicateRegistration)
    );
    assert_eq!(fleet.get(GatewayEventKind::MemberAdd), Some(Processor::MemberJoin));
    assert_eq!(fleet.get(GatewayEventKind::MemberRemove), None);
}

#[test]
fn register_all_rejects_a_taken_discriminant() {
    let mut fleet = ProcessorFleet::new();
    fleet
        .register(GatewayEventKind::MemberRemove, Processor::MemberLeave)
        .unwrap();
    assert_eq!(
        register_all(&mut fleet),
        Err(RegistrationError::DuplicateRegistration)
    );
    assert_eq!(fleet.get(GatewayEventKind::MemberAdd), None);
}
