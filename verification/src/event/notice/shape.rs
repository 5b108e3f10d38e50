//! The checks that every conversion of a record into a typed notice is made
//! of: the three pinned tags, and the required fields.
//!
//! Each check has a spec function that says what it gives for a mapping of
//! fields, and an executable function that computes exactly that.

use vstd::prelude::*;

use crate::event::error::{Error, ErrorView, Field, Reason, ReasonView};
use crate::event::notice::notice_type::NoticeType;
use crate::event::notice::sub_type::SubType;
use crate::event::post_type::PostType;
use crate::event::record::{integer_at, text_at, Fields, NoticeEvent};

verus! {

/// The error of a record that is no event of the kind `target`.
pub open spec fn unable(target: Seq<char>, because: ReasonView) -> ErrorView {
    ErrorView::UnableConvert {
        source_event: NoticeEvent::kind_name(),
        target_event: target,
        because,
    }
}

/// The string in a required field, or the error that names the field.
pub open spec fn expect_text(fields: Fields, field: Field, target: Seq<char>) -> Result<
    Seq<char>,
    ErrorView,
> {
    match text_at(fields, field.name()) {
        Some(text) => Ok(text),
        None => Err(unable(target, ReasonView::MissingField { field })),
    }
}

/// The integer in a required field, or the error that names the field.
pub open spec fn expect_integer(fields: Fields, field: Field, target: Seq<char>) -> Result<
    i64,
    ErrorView,
> {
    match integer_at(fields, field.name()) {
        Some(number) => Ok(number),
        None => Err(unable(target, ReasonView::MissingField { field })),
    }
}

/// The post type of a notice, or the first error on the way to it: the field
/// is missing, its string is no post type, or the post type is not `Notice`.
pub open spec fn expect_post_type(fields: Fields, target: Seq<char>) -> Result<
    PostType,
    ErrorView,
> {
    let field = Field::PostType;
    match expect_text(fields, field, target) {
        Err(e) => Err(e),
        Ok(found) => match PostType::parse(found) {
            None => Err(unable(target, ReasonView::UnknownDiscriminator { field, value: found })),
            Some(tag) => if tag == PostType::Notice {
                Ok(tag)
            } else {
                Err(
                    unable(
                        target,
                        ReasonView::ShapeMismatch {
                            field,
                            found,
                            accepted: seq![PostType::Notice.wire()],
                        },
                    ),
                )
            },
        },
    }
}

/// The notice type `pinned`, or the first error on the way to it: the field
/// is missing, its string is no notice type, or the notice type is another.
pub open spec fn expect_notice_type(
    fields: Fields,
    pinned: NoticeType,
    target: Seq<char>,
) -> Result<NoticeType, ErrorView> {
    let field = Field::NoticeType;
    match expect_text(fields, field, target) {
        Err(e) => Err(e),
        Ok(found) => match NoticeType::parse(found) {
            None => Err(unable(target, ReasonView::UnknownDiscriminator { field, value: found })),
            Some(tag) => if tag == pinned {
                Ok(tag)
            } else {
                Err(
                    unable(
                        target,
                        ReasonView::ShapeMismatch { field, found, accepted: seq![pinned.wire()] },
                    ),
                )
            },
        },
    }
}

/// The wire strings of a run of sub types, in order.
pub open spec fn sub_type_wires(tags: Seq<SubType>) -> Seq<Seq<char>> {
    tags.map_values(|tag: SubType| tag.wire())
}

/// A sub type among `accepted`, or the first error on the way to it: the
/// field is missing, its string is no sub type, or the sub type is not among
/// them.
pub open spec fn expect_sub_type(
    fields: Fields,
    accepted: Seq<SubType>,
    target: Seq<char>,
) -> Result<SubType, ErrorView> {
    let field = Field::SubType;
    match expect_text(fields, field, target) {
        Err(e) => Err(e),
        Ok(found) => match SubType::parse(found) {
            None => Err(unable(target, ReasonView::UnknownDiscriminator { field, value: found })),
            Some(tag) => if accepted.contains(tag) {
                Ok(tag)
            } else {
                Err(
                    unable(
                        target,
                        ReasonView::ShapeMismatch {
                            field,
                            found,
                            accepted: sub_type_wires(accepted),
                        },
                    ),
                )
            },
        },
    }
}

/// What a check gave, with the error as its view.
pub open spec fn outcome<T>(r: Result<T, Error>) -> Result<T, ErrorView> {
    match r {
        Ok(value) => Ok(value),
        Err(e) => Err(e@),
    }
}

/// What a check or a conversion gave, with both sides as their views.
pub open spec fn viewed<T: View>(r: Result<T, Error>) -> Result<T::V, ErrorView> {
    match r {
        Ok(value) => Ok(value@),
        Err(e) => Err(e@),
    }
}

/// Builds the error of a record that is no event of the kind `target`.
pub fn unable_convert(target: &str, because: Reason) -> (e: Error)
    ensures
        e@ == unable(target@, because@),
{
    Error::UnableConvert {
        source_event: NoticeEvent::struct_name().to_owned(),
        target_event: target.to_owned(),
        because,
    }
}

/// Takes the string of a required field out of a record.
pub fn require_text<'a>(record: &'a NoticeEvent, field: Field, target: &str) -> (r: Result<
    &'a str,
    Error,
>)
    ensures
        viewed(r) == expect_text(record@, field, target@),
{
    match record.get_string(field.as_str()) {
        Some(text) => Ok(text),
        None => Err(unable_convert(target, Reason::MissingField { field })),
    }
}

/// Takes the integer of a required field out of a record.
pub fn require_integer(record: &NoticeEvent, field: Field, target: &str) -> (r: Result<i64, Error>)
    ensures
        outcome(r) == expect_integer(record@, field, target@),
{
    match record.get_int(field.as_str()) {
        Some(number) => Ok(number),
        None => Err(unable_convert(target, Reason::MissingField { field })),
    }
}

/// A list that holds one string.
fn one_wire(wire: &str) -> (wires: Vec<String>)
    ensures
        wires@.map_values(|s: String| s@) == seq![wire@],
{
    let mut wires: Vec<String> = Vec::new();
    wires.push(wire.to_owned());
    assert(wires@.map_values(|s: String| s@) =~= seq![wire@]);
    wires
}

/// Checks that a record is a notice.
pub fn require_post_type(record: &NoticeEvent, target: &str) -> (r: Result<PostType, Error>)
    ensures
        outcome(r) == expect_post_type(record@, target@),
{
    let field = Field::PostType;
    let found = require_text(record, field, target)?;
    match PostType::try_from(found) {
        Err(_) => Err(
            unable_convert(target, Reason::UnknownDiscriminator { field, value: found.to_owned() }),
        ),
        Ok(tag) => {
            if tag == PostType::Notice {
                Ok(tag)
            } else {
                let accepted = one_wire(PostType::Notice.as_str());
                Err(
                    unable_convert(
                        target,
                        Reason::ShapeMismatch { field, found: found.to_owned(), accepted },
                    ),
                )
            }
        },
    }
}

/// Checks that a record has the notice type `pinned`.
pub fn require_notice_type(record: &NoticeEvent, pinned: NoticeType, target: &str) -> (r: Result<
    NoticeType,
    Error,
>)
    ensures
        outcome(r) == expect_notice_type(record@, pinned, target@),
{
    let field = Field::NoticeType;
    let found = require_text(record, field, target)?;
    match NoticeType::try_from(found) {
        Err(_) => Err(
            unable_convert(target, Reason::UnknownDiscriminator { field, value: found.to_owned() }),
        ),
        Ok(tag) => {
            if tag == pinned {
                Ok(tag)
            } else {
                let accepted = one_wire(pinned.as_str());
                Err(
                    unable_convert(
                        target,
                        Reason::ShapeMismatch { field, found: found.to_owned(), accepted },
                    ),
                )
            }
        },
    }
}

/// Whether `tag` is among `accepted`.
fn accepts(accepted: &[SubType], tag: SubType) -> (yes: bool)
    ensures
        yes == accepted@.contains(tag),
{
    let mut i: usize = 0;
    while i < accepted.len()
        invariant
            i <= accepted.len(),
            forall|j: int| 0 <= j < i ==> accepted@[j] != tag,
        decreases accepted.len() - i,
    {
        if accepted[i] == tag {
            return true;
        }
        i += 1;
    }
    false
}

/// The wire strings of `accepted`, in order.
fn wires_of(accepted: &[SubType]) -> (wires: Vec<String>)
    ensures
        wires@.map_values(|s: String| s@) == sub_type_wires(accepted@),
{
    let mut wires: Vec<String> = Vec::new();
    let mut i: usize = 0;
    while i < accepted.len()
        invariant
            i <= accepted.len(),
            wires@.len() == i,
            forall|j: int| 0 <= j < i ==> (#[trigger] wires@[j])@ == accepted@[j].wire(),
        decreases accepted.len() - i,
    {
        wires.push(accepted[i].to_string());
        i += 1;
    }
    assert(wires@.map_values(|s: String| s@) =~= sub_type_wires(accepted@));
    wires
}

/// Checks that a record has one of the sub types `accepted`.
pub fn require_sub_type(record: &NoticeEvent, accepted: &[SubType], target: &str) -> (r: Result<
    SubType,
    Error,
>)
    ensures
        outcome(r) == expect_sub_type(record@, accepted@, target@),
{
    let field = Field::SubType;
    let found = require_text(record, field, target)?;
    match SubType::try_from(found) {
        Err(_) => Err(
            unable_convert(target, Reason::UnknownDiscriminator { field, value: found.to_owned() }),
        ),
        Ok(tag) => {
            if accepts(accepted, tag) {
                Ok(tag)
            } else {
                let wires = wires_of(accepted);
                Err(
                    unable_convert(
                        target,
                        Reason::ShapeMismatch { field, found: found.to_owned(), accepted: wires },
                    ),
                )
            }
        },
    }
}

} // verus!
