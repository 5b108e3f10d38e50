//! Why a string is no tag, and why a record is no event of a given kind.

use vstd::prelude::*;
use vstd::string::StringExecFns;

verus! {

/// The fields of a record that classification reads.
#[derive(Debug, Clone, Copy, PartialEq, Eq, Structural)]
pub enum Field {
    /// The post type tag.
    PostType,
    /// The notice type tag.
    NoticeType,
    /// The sub type tag.
    SubType,
    /// The group in which the event happened.
    GroupId,
    /// Who acted.
    OperatorId,
    /// Whom the event is about.
    UserId,
    /// Whom the action was aimed at.
    TargetId,
}

impl Field {
    /// The name under which a record holds this field.
    pub open spec fn name(self) -> Seq<char> {
        match self {
            Field::PostType => "post_type"@,
            Field::NoticeType => "notice_type"@,
            Field::SubType => "sub_type"@,
            Field::GroupId => "group_id"@,
            Field::OperatorId => "operator_id"@,
            Field::UserId => "user_id"@,
            Field::TargetId => "target_id"@,
        }
    }

    /// The name under which a record holds this field.
    pub fn as_str(&self) -> (name: &'static str)
        ensures
            name@ == self.name(),
    {
        match self {
            Field::PostType => "post_type",
            Field::NoticeType => "notice_type",
            Field::SubType => "sub_type",
            Field::GroupId => "group_id",
            Field::OperatorId => "operator_id",
            Field::UserId => "user_id",
            Field::TargetId => "target_id",
        }
    }
}

/// The length of each field name, and the character that tells those of one
/// length apart.
proof fn reveal_names()
    ensures
        "post_type"@.len() == 9,
        "post_type"@[0] == 'p',
        "notice_type"@.len() == 11,
        "notice_type"@[0] == 'n',
        "sub_type"@.len() == 8,
        "sub_type"@[0] == 's',
        "group_id"@.len() == 8,
        "group_id"@[0] == 'g',
        "operator_id"@.len() == 11,
        "operator_id"@[0] == 'o',
        "user_id"@.len() == 7,
        "user_id"@[0] == 'u',
        "target_id"@.len() == 9,
        "target_id"@[0] == 't',
{
    reveal_strlit("post_type");
    reveal_strlit("notice_type");
    reveal_strlit("sub_type");
    reveal_strlit("group_id");
    reveal_strlit("operator_id");
    reveal_strlit("user_id");
    reveal_strlit("target_id");
}

/// No two fields share a name: what a record holds under one field says
/// nothing of what it holds under another.
pub proof fn lemma_field_name_injective(a: Field, b: Field)
    requires
        a.name() == b.name(),
    ensures
        a == b,
{
    reveal_names();
    if a != b {
        assert(a.name().len() != b.name().len() || a.name()[0] != b.name()[0]);
    }
}

/// Which check of a conversion failed.
#[derive(Debug, Clone, PartialEq, Eq)]
pub enum Reason {
    /// A tag field holds a string outside its closed set.
    UnknownDiscriminator {
        /// The tag field.
        field: Field,
        /// The string found there.
        value: String,
    },
    /// A tag is known, but it is not one that the target kind is pinned to.
    ShapeMismatch {
        /// The tag field.
        field: Field,
        /// The wire string found there.
        found: String,
        /// The wire strings that the target kind accepts there.
        accepted: Vec<String>,
    },
    /// A required field is absent, or holds a value of another primitive kind.
    MissingField {
        /// The field.
        field: Field,
    },
}

/// What a [`Reason`] says, with strings as character sequences.
pub ghost enum ReasonView {
    UnknownDiscriminator { field: Field, value: Seq<char> },
    ShapeMismatch { field: Field, found: Seq<char>, accepted: Seq<Seq<char>> },
    MissingField { field: Field },
}

impl View for Reason {
    type V = ReasonView;

    open spec fn view(&self) -> ReasonView {
        match *self {
            Reason::UnknownDiscriminator { field, value } => ReasonView::UnknownDiscriminator {
                field,
                value: value@,
            },
            Reason::ShapeMismatch { field, found, accepted } => ReasonView::ShapeMismatch {
                field,
                found: found@,
                accepted: accepted@.map_values(|s: String| s@),
            },
            Reason::MissingField { field } => ReasonView::MissingField { field },
        }
    }
}

impl ReasonView {
    /// The field whose check failed.
    pub open spec fn field(self) -> Field {
        match self {
            ReasonView::UnknownDiscriminator { field, .. } => field,
            ReasonView::ShapeMismatch { field, .. } => field,
            ReasonView::MissingField { field } => field,
        }
    }

    /// The reason as a short code: the field's name, a space, and one of
    /// `unknown`, `mismatch` and `missing`.
    pub open spec fn code(self) -> Seq<char> {
        match self {
            ReasonView::UnknownDiscriminator { field, .. } => field.name() + " unknown"@,
            ReasonView::ShapeMismatch { field, .. } => field.name() + " mismatch"@,
            ReasonView::MissingField { field } => field.name() + " missing"@,
        }
    }
}

impl Reason {
    /// The field whose check failed.
    pub fn field(&self) -> (field: Field)
        ensures
            field == self@.field(),
    {
        match self {
            Reason::UnknownDiscriminator { field, .. } => *field,
            Reason::ShapeMismatch { field, .. } => *field,
            Reason::MissingField { field } => *field,
        }
    }

    /// The reason as a short code that does not depend on any language, such
    /// as `post_type mismatch` or `user_id missing`.
    pub fn code(&self) -> (code: String)
        ensures
            code@ == self@.code(),
    {
        let name = self.field().as_str().to_owned();
        match self {
            Reason::UnknownDiscriminator { .. } => name.concat(" unknown"),
            Reason::ShapeMismatch { .. } => name.concat(" mismatch"),
            Reason::MissingField { .. } => name.concat(" missing"),
        }
    }
}

/// Errors of this crate.
#[derive(Debug, Clone, PartialEq, Eq)]
pub enum Error {
    /// The string is no post type.
    UnknownPostType(String),
    /// The string is no notice type.
    UnknownNoticeType(String),
    /// The string is no sub type.
    UnknownSubType(String),
    /// A record is not an event of the kind asked for.
    UnableConvert {
        /// The kind of the record.
        source_event: String,
        /// The kind of event asked for.
        target_event: String,
        /// The check that failed.
        because: Reason,
    },
}

/// What an [`Error`] says, with strings as character sequences.
pub ghost enum ErrorView {
    UnknownPostType(Seq<char>),
    UnknownNoticeType(Seq<char>),
    UnknownSubType(Seq<char>),
    UnableConvert { source_event: Seq<char>, target_event: Seq<char>, because: ReasonView },
}

impl View for Error {
    type V = ErrorView;

    open spec fn view(&self) -> ErrorView {
        match *self {
            Error::UnknownPostType(value) => ErrorView::UnknownPostType(value@),
            Error::UnknownNoticeType(value) => ErrorView::UnknownNoticeType(value@),
            Error::UnknownSubType(value) => ErrorView::UnknownSubType(value@),
            Error::UnableConvert { source_event, target_event, because } => {
                ErrorView::UnableConvert {
                    source_event: source_event@,
                    target_event: target_event@,
                    because: because@,
                }
            },
        }
    }
}

} // verus!
