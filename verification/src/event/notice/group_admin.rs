//! The notice that a group administrator was set or unset.

use vstd::prelude::*;

use crate::event::error::{Error, ErrorView, Field, ReasonView};
use crate::event::notice::notice_type::{lemma_notice_type_parse_iff_wire, NoticeType};
use crate::event::notice::shape::{
    expect_integer, expect_notice_type, expect_post_type, expect_sub_type, require_integer,
    require_notice_type, require_post_type, require_sub_type, unable, viewed,
};
use crate::event::notice::sub_type::{lemma_sub_type_parse_iff_wire, SubType};
use crate::event::post_type::{lemma_post_type_parse_iff_wire, PostType};
use crate::event::record::{integer_at, text_at, Fields, NoticeEvent};

verus! {

/// A change of a group's administrators.
///
/// [`GroupAdminNoticeEvent::try_from`] makes such a value from a record
/// that passes every check; [`GroupAdminNoticeEvent::wf`] says what then holds
/// of it.
#[derive(Debug, Clone)]
pub struct GroupAdminNoticeEvent {
    /// The post type: always [`PostType::Notice`].
    pub post_type: PostType,
    /// The notice type: always [`NoticeType::GroupAdmin`].
    pub notice_type: NoticeType,
    /// The sub type: [`SubType::SetAdmin`] or [`SubType::Unset`].
    pub sub_type: SubType,
    /// The group.
    pub group_id: i64,
    /// The administrator.
    pub user_id: i64,
    /// The record that this event was made from.
    pub original_event: NoticeEvent,
}

/// What a [`GroupAdminNoticeEvent`] holds, with its record as a mapping.
pub ghost struct GroupAdminNoticeEventView {
    pub post_type: PostType,
    pub notice_type: NoticeType,
    pub sub_type: SubType,
    pub group_id: i64,
    pub user_id: i64,
    pub original_event: Fields,
}

impl View for GroupAdminNoticeEvent {
    type V = GroupAdminNoticeEventView;

    open spec fn view(&self) -> GroupAdminNoticeEventView {
        GroupAdminNoticeEventView {
            post_type: self.post_type,
            notice_type: self.notice_type,
            sub_type: self.sub_type,
            group_id: self.group_id,
            user_id: self.user_id,
            original_event: self.original_event@,
        }
    }
}

impl GroupAdminNoticeEvent {
    /// The name of this kind of event, as errors give it.
    pub open spec fn kind_name() -> Seq<char> {
        "GroupAdminNoticeEvent"@
    }

    /// The sub types that this kind of event accepts.
    pub open spec fn accepted_sub_types() -> Seq<SubType> {
        seq![SubType::SetAdmin, SubType::Unset]
    }

    /// What the conversion of a record gives. The checks are, in this order:
    /// post type, notice type, sub type, `group_id`, `user_id`. The first of
    /// them that fails decides the error; where none fails, the event holds
    /// what they found, and the record itself.
    pub open spec fn classify(fields: Fields) -> Result<GroupAdminNoticeEventView, ErrorView> {
        let target = Self::kind_name();
        let post_type = expect_post_type(fields, target);
        let notice_type = expect_notice_type(fields, NoticeType::GroupAdmin, target);
        let sub_type = expect_sub_type(fields, Self::accepted_sub_types(), target);
        let group_id = expect_integer(fields, Field::GroupId, target);
        let user_id = expect_integer(fields, Field::UserId, target);
        if post_type is Err {
            Err(post_type->Err_0)
        } else if notice_type is Err {
            Err(notice_type->Err_0)
        } else if sub_type is Err {
            Err(sub_type->Err_0)
        } else if group_id is Err {
            Err(group_id->Err_0)
        } else if user_id is Err {
            Err(user_id->Err_0)
        } else {
            Ok(
                GroupAdminNoticeEventView {
                    post_type: post_type->Ok_0,
                    notice_type: notice_type->Ok_0,
                    sub_type: sub_type->Ok_0,
                    group_id: group_id->Ok_0,
                    user_id: user_id->Ok_0,
                    original_event: fields,
                },
            )
        }
    }

    /// Whether the three tags of a record are the ones that this kind of event
    /// is pinned to.
    pub open spec fn tags_fit(fields: Fields) -> bool {
        let target = Self::kind_name();
        &&& expect_post_type(fields, target) is Ok
        &&& expect_notice_type(fields, NoticeType::GroupAdmin, target) is Ok
        &&& expect_sub_type(fields, Self::accepted_sub_types(), target) is Ok
    }

    /// Whether this event is what the conversion of its own record gives.
    pub open spec fn wf(&self) -> bool {
        Self::classify(self@.original_event) == Ok::<GroupAdminNoticeEventView, ErrorView>(self@)
    }

    /// The name of this kind of event, as errors give it.
    pub fn struct_name() -> (name: &'static str)
        ensures
            name@ == Self::kind_name(),
    {
        "GroupAdminNoticeEvent"
    }

    /// Converts a record into a change of administrators, or says which check
    /// it fails. The record is kept in the event.
    pub fn try_from(value: NoticeEvent) -> (r: Result<GroupAdminNoticeEvent, Error>)
        ensures
            viewed(r) == Self::classify(value@),
            r matches Ok(event) ==> event.wf(),
    {
        let target = Self::struct_name();
        let post_type = require_post_type(&value, target)?;
        let notice_type = require_notice_type(&value, NoticeType::GroupAdmin, target)?;
        let accepted = [SubType::SetAdmin, SubType::Unset];
        assert(accepted@ =~= Self::accepted_sub_types());
        let sub_type = require_sub_type(&value, &accepted, target)?;
        let group_id = require_integer(&value, Field::GroupId, target)?;
        let user_id = require_integer(&value, Field::UserId, target)?;
        Ok(
            GroupAdminNoticeEvent {
                post_type,
                notice_type,
                sub_type,
                group_id,
                user_id,
                original_event: value,
            },
        )
    }

    /// Converts a copy of a record, and leaves the record with the caller.
    pub fn try_from_ref(value: &NoticeEvent) -> (r: Result<GroupAdminNoticeEvent, Error>)
        ensures
            viewed(r) == Self::classify(value@),
            r matches Ok(event) ==> event.wf(),
    {
        Self::try_from(value.clone())
    }
}

impl core::ops::Deref for GroupAdminNoticeEvent {
    type Target = NoticeEvent;

    /// The record that this event was made from.
    fn deref(&self) -> (record: &NoticeEvent)
        ensures
            record@ == self@.original_event,
    {
        &self.original_event
    }
}

/// A record converts into a change of administrators exactly when its three
/// tags are the pinned ones and both required fields hold integers. The event
/// then holds those tags and integers, and the record itself.
pub proof fn lemma_group_admin_classified_iff(fields: Fields)
    ensures
        GroupAdminNoticeEvent::classify(fields) is Ok <==> {
            &&& text_at(fields, Field::PostType.name()) == Some(PostType::Notice.wire())
            &&& text_at(fields, Field::NoticeType.name()) == Some(NoticeType::GroupAdmin.wire())
            &&& (text_at(fields, Field::SubType.name()) == Some(SubType::SetAdmin.wire())
                || text_at(fields, Field::SubType.name()) == Some(SubType::Unset.wire()))
            &&& integer_at(fields, Field::GroupId.name()) is Some
            &&& integer_at(fields, Field::UserId.name()) is Some
        },
        GroupAdminNoticeEvent::classify(fields) matches Ok(event) ==> {
            &&& event.post_type == PostType::Notice
            &&& event.notice_type == NoticeType::GroupAdmin
            &&& Some(event.sub_type.wire()) == text_at(fields, Field::SubType.name())
            &&& Some(event.group_id) == integer_at(fields, Field::GroupId.name())
            &&& Some(event.user_id) == integer_at(fields, Field::UserId.name())
            &&& event.original_event == fields
        },
{
    let accepted = GroupAdminNoticeEvent::accepted_sub_types();
    assert(accepted[0] == SubType::SetAdmin);
    assert(accepted[1] == SubType::Unset);
    match text_at(fields, Field::PostType.name()) {
        Some(s) => lemma_post_type_parse_iff_wire(s, PostType::Notice),
        None => {},
    }
    match text_at(fields, Field::NoticeType.name()) {
        Some(s) => lemma_notice_type_parse_iff_wire(s, NoticeType::GroupAdmin),
        None => {},
    }
    match text_at(fields, Field::SubType.name()) {
        Some(s) => {
            lemma_sub_type_parse_iff_wire(s, SubType::SetAdmin);
            lemma_sub_type_parse_iff_wire(s, SubType::Unset);
            if SubType::parse(s) is Some {
                lemma_sub_type_parse_iff_wire(s, SubType::parse(s)->0);
            }
        },
        None => {},
    }
}

/// Converting is a function of the record: whatever two conversions of one
/// record return, they return the same.
pub proof fn lemma_group_admin_deterministic(
    value: NoticeEvent,
    first: Result<GroupAdminNoticeEvent, Error>,
    second: Result<GroupAdminNoticeEvent, Error>,
)
    requires
        call_ensures(GroupAdminNoticeEvent::try_from, (value,), first),
        call_ensures(GroupAdminNoticeEvent::try_from, (value,), second),
    ensures
        viewed(first) == viewed(second),
{
}

/// A record without an integer `user_id` is no change of administrators.
pub proof fn lemma_group_admin_needs_user_id(fields: Fields)
    requires
        integer_at(fields, Field::UserId.name()) is None,
    ensures
        GroupAdminNoticeEvent::classify(fields) is Err,
{
}

/// Where the three tags fit and `group_id` holds an integer, a record without
/// an integer `user_id` fails with the error that names `user_id`.
pub proof fn lemma_group_admin_missing_user_id(fields: Fields)
    requires
        GroupAdminNoticeEvent::tags_fit(fields),
        integer_at(fields, Field::GroupId.name()) is Some,
        integer_at(fields, Field::UserId.name()) is None,
    ensures
        GroupAdminNoticeEvent::classify(fields) == Err::<GroupAdminNoticeEventView, ErrorView>(
            unable(
                GroupAdminNoticeEvent::kind_name(),
                ReasonView::MissingField { field: Field::UserId },
            ),
        ),
{
}

} // verus!
