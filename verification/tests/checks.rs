use kovi_event_extra::event::notice::shape::{
    require_integer, require_notice_type, require_post_type, require_sub_type, require_text,
    unable_convert,
};
use kovi_event_extra::event::notice::{NoticeType, SubType};
use kovi_event_extra::event::{Error, Field, NoticeEvent, PostType, Reason, Value};

fn record_with(name: &str, value: Value) -> NoticeEvent {
    let mut record = NoticeEvent::new();
    record.insert(name, value);
    record
}

fn failure(target: &str, because: Reason) -> Error {
    Error::UnableConvert {
        source_event: "NoticeEvent".to_string(),
        target_event: target.to_string(),
        because,
    }
}

#[test]
fn unable_convert_fills_in_the_record_kind() {
    assert_eq!(
        unable_convert("Target", Reason::MissingField { field: Field::TargetId }),
        failure("Target", Reason::MissingField { field: Field::TargetId })
    );
}

#[test]
fn require_text_gives_the_string_or_names_the_field() {
    let record = record_with("sub_type", Value::Text("poke".to_string()));
    assert_eq!(require_text(&record, Field::SubType, "T"), Ok("poke"));
    assert_eq!(
        require_text(&record, Field::PostType, "T"),
        Err(failure("T", Reason::MissingField { field: Field::PostType }))
    );
    let record = record_with("sub_type", Value::Integer(4));
    assert_eq!(
        require_text(&record, Field::SubType, "T"),
        Err(failure("T", Reason::MissingField { field: Field::SubType }))
    );
}

#[test]
fn require_integer_gives_the_integer_or_names_the_field() {
    let record = record_with("operator_id", Value::Integer(-9));
    assert_eq!(require_integer(&record, Field::OperatorId, "T"), Ok(-9));
    assert_eq!(
        require_integer(&record, Field::UserId, "T"),
        Err(failure("T", Reason::MissingField { field: Field::UserId }))
    );
    let record = record_with("operator_id", Value::Text("-9".to_string()));
    assert_eq!(
        require_integer(&record, Field::OperatorId, "T"),
        Err(failure("T", Reason::MissingField { field: Field::OperatorId }))
    );
}

#[test]
fn require_post_type_accepts_notices_only() {
    let record = record_with("post_type", Value::Text("notice".to_string()));
    assert_eq!(require_post_type(&record, "T"), Ok(PostType::Notice));
    for other in ["message", "meta_event", "request"] {
        let record = record_with("post_type", Value::Text(other.to_string()));
        assert_eq!(
            require_post_type(&record, "T"),
            Err(failure(
                "T",
                Reason::ShapeMismatch {
                    field: Field::PostType,
                    found: other.to_string(),
                    accepted: vec!["notice".to_string()],
                }
            ))
        );
    }
    let record = record_with("post_type", Value::Text("notices".to_string()));
    assert_eq!(
        require_post_type(&record, "T"),
        Err(failure(
            "T",
            Reason::UnknownDiscriminator { field: Field::PostType, value: "notices".to_string() }
        ))
    );
    assert_eq!(
        require_post_type(&NoticeEvent::new(), "T"),
        Err(failure("T", Reason::MissingField { field: Field::PostType }))
    );
}

#[test]
fn require_notice_type_accepts_the_pinned_one_only() {
    let record = record_with("notice_type", Value::Text("group_ban".to_string()));
    assert_eq!(require_notice_type(&record, NoticeType::GroupBan, "T"), Ok(NoticeType::GroupBan));
    assert_eq!(
        require_notice_type(&record, NoticeType::FriendAdd, "T"),
        Err(failure(
            "T",
            Reason::ShapeMismatch {
                field: Field::NoticeType,
                found: "group_ban".to_string(),
                accepted: vec!["friend_add".to_string()],
            }
        ))
    );
    let record = record_with("notice_type", Value::Text("ban".to_string()));
    assert_eq!(
        require_notice_type(&record, NoticeType::GroupBan, "T"),
        Err(failure(
            "T",
            Reason::UnknownDiscriminator { field: Field::NoticeType, value: "ban".to_string() }
        ))
    );
}

#[test]
fn require_sub_type_accepts_the_listed_ones_only() {
    let accepted = vec![SubType::Ban, SubType::LiftBan];
    let record = record_with("sub_type", Value::Text("lift_ban".to_string()));
    assert_eq!(require_sub_type(&record, &accepted, "T"), Ok(SubType::LiftBan));
    let record = record_with("sub_type", Value::Text("honor".to_string()));
    assert_eq!(
        require_sub_type(&record, &accepted, "T"),
        Err(failure(
            "T",
            Reason::ShapeMismatch {
                field: Field::SubType,
                found: "honor".to_string(),
                accepted: vec!["ban".to_string(), "lift_ban".to_string()],
            }
        ))
    );
    assert_eq!(
        require_sub_type(&record, &Vec::new(), "T"),
        Err(failure(
            "T",
            Reason::ShapeMismatch {
                field: Field::SubType,
                found: "honor".to_string(),
                accepted: Vec::new(),
            }
        ))
    );
    let record = record_with("sub_type", Value::Text("Honor".to_string()));
    assert_eq!(
        require_sub_type(&record, &accepted, "T"),
        Err(failure(
            "T",
            Reason::UnknownDiscriminator { field: Field::SubType, value: "Honor".to_string() }
        ))
    );
}

#[test]
fn reasons_give_their_field_and_code() {
    let unknown = Reason::UnknownDiscriminator { field: Field::NoticeType, value: "x".to_string() };
    assert_eq!(unknown.field(), Field::NoticeType);
    assert_eq!(unknown.code(), "notice_type unknown");
    let mismatch = Reason::ShapeMismatch {
        field: Field::PostType,
        found: "message".to_string(),
        accepted: vec!["notice".to_string()],
    };
    assert_eq!(mismatch.field(), Field::PostType);
    assert_eq!(mismatch.code(), "post_type mismatch");
    let missing = Reason::MissingField { field: Field::GroupId };
    assert_eq!(missing.field(), Field::GroupId);
    assert_eq!(missing.code(), "group_id missing");
}
