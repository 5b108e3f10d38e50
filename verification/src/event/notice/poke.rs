//! The notice of a poke.

use vstd::prelude::*;

use crate::event::error::{Error, ErrorView, Field, ReasonView};
use crate::event::notice::notice_type::{lemma_notice_type_parse_iff_wire, NoticeType};
use crate::event::notice::shape::{
    expect_integer, expect_notice_type, expect_post_type, expect_sub_type, require_integer,
    require_notice_type, require_post_type, require_sub_type, unable, viewed,
};
use crate::event::notice::sub_type::{lemma_sub_type_parse_iff_wire, SubType};
use crate::event::post_type::{lemma_post_type_parse_iff_wire, PostType};
use crate::event::record::{integer_at, text_at, Fields, NoticeEvent};

verus! {

/// A poke, in a group or in a private chat.
///
/// [`PokeNoticeEvent::try_from`] makes such a value from a record
/// that passes every check; [`PokeNoticeEvent::wf`] says what then holds
/// of it.
#[derive(Debug, Clone)]
pub struct PokeNoticeEvent {
    /// The post type: always [`PostType::Notice`].
    pub post_type: PostType,
    /// The notice type: always [`NoticeType::Notify`].
    pub notice_type: NoticeType,
    /// The sub type: always [`SubType::Poke`].
    pub sub_type: SubType,
    /// The group, or `None` for a poke in a private chat.
    pub group_id: Option<i64>,
    /// Who poked.
    pub user_id: i64,
    /// Who was poked.
    pub target_id: i64,
    /// The record that this event was made from.
    pub original_event: NoticeEvent,
}

/// What a [`PokeNoticeEvent`] holds, with its record as a mapping.
pub ghost struct PokeNoticeEventView {
    pub post_type: PostType,
    pub notice_type: NoticeType,
    pub sub_type: SubType,
    pub group_id: Option<i64>,
    pub user_id: i64,
    pub target_id: i64,
    pub original_event: Fields,
}

impl View for PokeNoticeEvent {
    type V = PokeNoticeEventView;

    open spec fn view(&self) -> PokeNoticeEventView {
        PokeNoticeEventView {
            post_type: self.post_type,
            notice_type: self.notice_type,
            sub_type: self.sub_type,
            group_id: self.group_id,
            user_id: self.user_id,
            target_id: self.target_id,
            original_event: self.original_event@,
        }
    }
}

impl PokeNoticeEvent {
    /// The name of this kind of event, as errors give it.
    pub open spec fn kind_name() -> Seq<char> {
        "PokeNoticeEvent"@
    }

    /// The sub types that this kind of event accepts.
    pub open spec fn accepted_sub_types() -> Seq<SubType> {
        seq![SubType::Poke]
    }

    /// What the conversion of a record gives. The checks are, in this order:
    /// post type, notice type, sub type, `user_id`, `target_id`. The first of
    /// them that fails decides the error; where none fails, the event holds
    /// what they found, the record itself, and the integer of `group_id` if
    /// the record has one: that field is optional.
    pub open spec fn classify(fields: Fields) -> Result<PokeNoticeEventView, ErrorView> {
        let target = Self::kind_name();
        let post_type = expect_post_type(fields, target);
        let notice_type = expect_notice_type(fields, NoticeType::Notify, target);
        let sub_type = expect_sub_type(fields, Self::accepted_sub_types(), target);
        let user_id = expect_integer(fields, Field::UserId, target);
        let target_id = expect_integer(fields, Field::TargetId, target);
        if post_type is Err {
            Err(post_type->Err_0)
        } else if notice_type is Err {
            Err(notice_type->Err_0)
        } else if sub_type is Err {
            Err(sub_type->Err_0)
        } else if user_id is Err {
            Err(user_id->Err_0)
        } else if target_id is Err {
            Err(target_id->Err_0)
        } else {
            Ok(
                PokeNoticeEventView {
                    post_type: post_type->Ok_0,
                    notice_type: notice_type->Ok_0,
                    sub_type: sub_type->Ok_0,
                    group_id: integer_at(fields, Field::GroupId.name()),
                    user_id: user_id->Ok_0,
                    target_id: target_id->Ok_0,
                    original_event: fields,
                },
            )
        }
    }

    /// Whether the three tags of a record are the ones that this kind of event
    /// is pinned to.
    pub open spec fn tags_fit(fields: Fields) -> bool {
        let target = Self::kind_name();
        &&& expect_post_type(fields, target) is Ok
        &&& expect_notice_type(fields, NoticeType::Notify, target) is Ok
        &&& expect_sub_type(fields, Self::accepted_sub_types(), target) is Ok
    }

    /// Whether this event is what the conversion of its own record gives.
    pub open spec fn wf(&self) -> bool {
        Self::classify(self@.original_event) == Ok::<PokeNoticeEventView, ErrorView>(self@)
    }

    /// The name of this kind of event, as errors give it.
    pub fn struct_name() -> (name: &'static str)
        ensures
            name@ == Self::kind_name(),
    {
        "PokeNoticeEvent"
    }

    /// Converts a record into a poke, or says which check it fails. The record
    /// is kept in the event.
    pub fn try_from(value: NoticeEvent) -> (r: Result<PokeNoticeEvent, Error>)
        ensures
            viewed(r) == Self::classify(value@),
            r matches Ok(event) ==> event.wf(),
    {
        let target = Self::struct_name();
        let post_type = require_post_type(&value, target)?;
        let notice_type = require_notice_type(&value, NoticeType::Notify, target)?;
        let accepted = [SubType::Poke];
        assert(accepted@ =~= Self::accepted_sub_types());
        let sub_type = require_sub_type(&value, &accepted, target)?;
        let group_id = value.get_int(Field::GroupId.as_str());
        let user_id = require_integer(&value, Field::UserId, target)?;
        let target_id = require_integer(&value, Field::TargetId, target)?;
        Ok(
            PokeNoticeEvent {
                post_type,
                notice_type,
                sub_type,
                group_id,
                user_id,
                target_id,
                original_event: value,
            },
        )
    }

    /// Converts a copy of a record, and leaves the record with the caller.
    pub fn try_from_ref(value: &NoticeEvent) -> (r: Result<PokeNoticeEvent, Error>)
        ensures
            viewed(r) == Self::classify(value@),
            r matches Ok(event) ==> event.wf(),
    {
        Self::try_from(value.clone())
    }

    /// Whether the poke happened in a group.
    pub fn is_group(&self) -> (yes: bool)
        ensures
            yes == self@.group_id is Some,
    {
        self.group_id.is_some()
    }

    /// Whether the poke happened in a private chat.
    pub fn is_private(&self) -> (yes: bool)
        ensures
            yes == self@.group_id is None,
    {
        self.group_id.is_none()
    }
}

impl core::ops::Deref for PokeNoticeEvent {
    type Target = NoticeEvent;

    /// The record that this event was made from.
    fn deref(&self) -> (record: &NoticeEvent)
        ensures
            record@ == self@.original_event,
    {
        &self.original_event
    }
}

/// A record converts into a poke exactly when its three tags are the pinned
/// ones and both required fields hold integers. The event then holds those
/// tags and integers, the integer of `group_id` if there is one, and the
/// record itself.
pub proof fn lemma_poke_classified_iff(fields: Fields)
    ensures
        PokeNoticeEvent::classify(fields) is Ok <==> {
            &&& text_at(fields, Field::PostType.name()) == Some(PostType::Notice.wire())
            &&& text_at(fields, Field::NoticeType.name()) == Some(NoticeType::Notify.wire())
            &&& text_at(fields, Field::SubType.name()) == Some(SubType::Poke.wire())
            &&& integer_at(fields, Field::UserId.name()) is Some
            &&& integer_at(fields, Field::TargetId.name()) is Some
        },
        PokeNoticeEvent::classify(fields) matches Ok(event) ==> {
            &&& event.post_type == PostType::Notice
            &&& event.notice_type == NoticeType::Notify
            &&& Some(event.sub_type.wire()) == text_at(fields, Field::SubType.name())
            &&& event.group_id == integer_at(fields, Field::GroupId.name())
            &&& Some(event.user_id) == integer_at(fields, Field::UserId.name())
            &&& Some(event.target_id) == integer_at(fields, Field::TargetId.name())
            &&& event.original_event == fields
        },
{
    let accepted = PokeNoticeEvent::accepted_sub_types();
    assert(accepted[0] == SubType::Poke);
    match text_at(fields, Field::PostType.name()) {
        Some(s) => lemma_post_type_parse_iff_wire(s, PostType::Notice),
        None => {},
    }
    match text_at(fields, Field::NoticeType.name()) {
        Some(s) => lemma_notice_type_parse_iff_wire(s, NoticeType::Notify),
        None => {},
    }
    match text_at(fields, Field::SubType.name()) {
        Some(s) => {
            lemma_sub_type_parse_iff_wire(s, SubType::Poke);
            if SubType::parse(s) is Some {
                lemma_sub_type_parse_iff_wire(s, SubType::parse(s)->0);
            }
        },
        None => {},
    }
}

/// Converting is a function of the record: whatever two conversions of one
/// record return, they return the same.
pub proof fn lemma_poke_deterministic(
    value: NoticeEvent,
    first: Result<PokeNoticeEvent, Error>,
    second: Result<PokeNoticeEvent, Error>,
)
    requires
        call_ensures(PokeNoticeEvent::try_from, (value,), first),
        call_ensures(PokeNoticeEvent::try_from, (value,), second),
    ensures
        viewed(first) == viewed(second),
{
}

/// A record without an integer `user_id` is no poke.
pub proof fn lemma_poke_needs_user_id(fields: Fields)
    requires
        integer_at(fields, Field::UserId.name()) is None,
    ensures
        PokeNoticeEvent::classify(fields) is Err,
{
}

/// Where the three tags fit, a record without an integer `user_id` fails with
/// the error that names `user_id`.
pub proof fn lemma_poke_missing_user_id(fields: Fields)
    requires
        PokeNoticeEvent::tags_fit(fields),
        integer_at(fields, Field::UserId.name()) is None,
    ensures
        PokeNoticeEvent::classify(fields) == Err::<PokeNoticeEventView, ErrorView>(
            unable(
                PokeNoticeEvent::kind_name(),
                ReasonView::MissingField { field: Field::UserId },
            ),
        ),
{
}

} // verus!
