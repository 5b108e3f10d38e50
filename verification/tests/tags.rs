use kovi_event_extra::event::notice::{NoticeType, SubType};
use kovi_event_extra::event::{Error, PostType};

fn all_post_types() -> Vec<(PostType, &'static str)> {
    vec![
        (PostType::Message, "message"),
        (PostType::MetaEvent, "meta_event"),
        (PostType::Notice, "notice"),
        (PostType::Request, "request"),
    ]
}

fn all_notice_types() -> Vec<(NoticeType, &'static str)> {
    vec![
        (NoticeType::GroupUpload, "group_upload"),
        (NoticeType::GroupAdmin, "group_admin"),
        (NoticeType::GroupDecrease, "group_decrease"),
        (NoticeType::GroupIncrease, "group_increase"),
        (NoticeType::GroupBan, "group_ban"),
        (NoticeType::FriendAdd, "friend_add"),
        (NoticeType::GroupRecall, "group_recall"),
        (NoticeType::FriendRecall, "friend_recall"),
        (NoticeType::Notify, "notify"),
    ]
}

fn all_sub_types() -> Vec<(SubType, &'static str)> {
    vec![
        (SubType::SetAdmin, "set"),
        (SubType::Unset, "unset"),
        (SubType::Leave, "leave"),
        (SubType::Kick, "kick"),
        (SubType::KickMe, "kick_me"),
        (SubType::Approve, "approve"),
        (SubType::Invite, "invite"),
        (SubType::Ban, "ban"),
        (SubType::LiftBan, "lift_ban"),
        (SubType::Poke, "poke"),
        (SubType::LuckyKing, "lucky_king"),
        (SubType::Honor, "honor"),
    ]
}

#[test]
fn post_type_writes_its_wire_string() {
    for (tag, wire) in all_post_types() {
        assert_eq!(tag.as_str(), wire);
        assert_eq!(tag.to_string(), wire.to_string());
    }
}

#[test]
fn post_type_reads_each_wire_string() {
    for (tag, wire) in all_post_types() {
        assert_eq!(PostType::try_from(wire), Ok(tag));
    }
}

#[test]
fn post_type_round_trip_is_stable() {
    for (_, wire) in all_post_types() {
        let first = PostType::try_from(wire);
        let again = PostType::try_from(first.clone().unwrap().as_str());
        assert_eq!(again, first);
    }
}

#[test]
fn post_type_rejects_strings_outside_the_set() {
    for s in ["", "Notice", "NOTICE", " notice", "notice ", "notic", "notices", "meta-event"] {
        assert_eq!(PostType::try_from(s), Err(Error::UnknownPostType(s.to_string())));
    }
}

#[test]
fn notice_type_writes_its_wire_string() {
    for (tag, wire) in all_notice_types() {
        assert_eq!(tag.as_str(), wire);
        assert_eq!(tag.to_string(), wire.to_string());
    }
}

#[test]
fn notice_type_reads_each_wire_string() {
    for (tag, wire) in all_notice_types() {
        assert_eq!(NoticeType::try_from(wire), Ok(tag));
    }
}

#[test]
fn notice_type_round_trip_is_stable() {
    for (_, wire) in all_notice_types() {
        let first = NoticeType::try_from(wire);
        let again = NoticeType::try_from(first.clone().unwrap().as_str());
        assert_eq!(again, first);
    }
}

#[test]
fn notice_type_rejects_strings_outside_the_set() {
    for s in ["", "Group_Admin", "group admin", "groupadmin", "group_admin\n", "notice", "set"] {
        assert_eq!(NoticeType::try_from(s), Err(Error::UnknownNoticeType(s.to_string())));
    }
}

#[test]
fn sub_type_writes_its_wire_string() {
    for (tag, wire) in all_sub_types() {
        assert_eq!(tag.as_str(), wire);
        assert_eq!(tag.to_string(), wire.to_string());
    }
}

#[test]
fn sub_type_reads_each_wire_string() {
    for (tag, wire) in all_sub_types() {
        assert_eq!(SubType::try_from(wire), Ok(tag));
    }
}

#[test]
fn sub_type_round_trip_is_stable() {
    for (_, wire) in all_sub_types() {
        let first = SubType::try_from(wire);
        let again = SubType::try_from(first.clone().unwrap().as_str());
        assert_eq!(again, first);
    }
}

#[test]
fn sub_type_rejects_strings_outside_the_set() {
    for s in ["", "Set", "SET", "kickme", "kick-me", "lift ban", "pok\u{e9}", "notify"] {
        assert_eq!(SubType::try_from(s), Err(Error::UnknownSubType(s.to_string())));
    }
}

#[test]
fn wire_strings_are_pairwise_distinct() {
    let posts = all_post_types();
    for (i, (_, a)) in posts.iter().enumerate() {
        for (j, (_, b)) in posts.iter().enumerate() {
            assert_eq!(a == b, i == j);
        }
    }
    let notices = all_notice_types();
    for (i, (_, a)) in notices.iter().enumerate() {
        for (j, (_, b)) in notices.iter().enumerate() {
            assert_eq!(a == b, i == j);
        }
    }
    let subs = all_sub_types();
    for (i, (_, a)) in subs.iter().enumerate() {
        for (j, (_, b)) in subs.iter().enumerate() {
            assert_eq!(a == b, i == j);
        }
    }
}

#[test]
fn a_tag_of_one_kind_is_unknown_to_another() {
    assert_eq!(PostType::try_from("notify"), Err(Error::UnknownPostType("notify".to_string())));
    assert_eq!(
        NoticeType::try_from("message"),
        Err(Error::UnknownNoticeType("message".to_string()))
    );
    assert_eq!(SubType::try_from("group_ban"), Err(Error::UnknownSubType("group_ban".to_string())));
}
