//! The notice type tag.

use vstd::prelude::*;

use crate::event::error::{Error, ErrorView};
use crate::text::str_eq;

verus! {

/// What a notice is about.
#[derive(Debug, Clone, Copy, PartialEq, Eq, Structural)]
pub enum NoticeType {
    /// A file was uploaded to a group.
    GroupUpload,
    /// A group administrator was set or unset.
    GroupAdmin,
    /// A member left a group.
    GroupDecrease,
    /// A member joined a group.
    GroupIncrease,
    /// A member was muted or unmuted.
    GroupBan,
    /// A friend was added.
    FriendAdd,
    /// A group message was recalled.
    GroupRecall,
    /// A private message was recalled.
    FriendRecall,
    /// A poke, a lucky king, or a change of honor.
    Notify,
}

impl NoticeType {
    /// The one wire string of this tag.
    pub open spec fn wire(self) -> Seq<char> {
        match self {
            NoticeType::GroupUpload => "group_upload"@,
            NoticeType::GroupAdmin => "group_admin"@,
            NoticeType::GroupDecrease => "group_decrease"@,
            NoticeType::GroupIncrease => "group_increase"@,
            NoticeType::GroupBan => "group_ban"@,
            NoticeType::FriendAdd => "friend_add"@,
            NoticeType::GroupRecall => "group_recall"@,
            NoticeType::FriendRecall => "friend_recall"@,
            NoticeType::Notify => "notify"@,
        }
    }

    /// The tag that a wire string stands for, if it stands for one. The match
    /// is exact: no trimming, no folding of case.
    pub open spec fn parse(s: Seq<char>) -> Option<NoticeType> {
        if s == NoticeType::GroupUpload.wire() {
            Some(NoticeType::GroupUpload)
        } else if s == NoticeType::GroupAdmin.wire() {
            Some(NoticeType::GroupAdmin)
        } else if s == NoticeType::GroupDecrease.wire() {
            Some(NoticeType::GroupDecrease)
        } else if s == NoticeType::GroupIncrease.wire() {
            Some(NoticeType::GroupIncrease)
        } else if s == NoticeType::GroupBan.wire() {
            Some(NoticeType::GroupBan)
        } else if s == NoticeType::FriendAdd.wire() {
            Some(NoticeType::FriendAdd)
        } else if s == NoticeType::GroupRecall.wire() {
            Some(NoticeType::GroupRecall)
        } else if s == NoticeType::FriendRecall.wire() {
            Some(NoticeType::FriendRecall)
        } else if s == NoticeType::Notify.wire() {
            Some(NoticeType::Notify)
        } else {
            None
        }
    }

    /// The wire string of this tag.
    pub fn as_str(&self) -> (s: &'static str)
        ensures
            s@ == self.wire(),
    {
        match self {
            NoticeType::GroupUpload => "group_upload",
            NoticeType::GroupAdmin => "group_admin",
            NoticeType::GroupDecrease => "group_decrease",
            NoticeType::GroupIncrease => "group_increase",
            NoticeType::GroupBan => "group_ban",
            NoticeType::FriendAdd => "friend_add",
            NoticeType::GroupRecall => "group_recall",
            NoticeType::FriendRecall => "friend_recall",
            NoticeType::Notify => "notify",
        }
    }

    /// The wire string of this tag, owned.
    pub fn to_string(&self) -> (s: String)
        ensures
            s@ == self.wire(),
    {
        self.as_str().to_owned()
    }

    /// Reads a tag from its wire string. A string outside the closed set is
    /// handed back in the error.
    pub fn try_from(value: &str) -> (r: Result<NoticeType, Error>)
        ensures
            match r {
                Ok(tag) => NoticeType::parse(value@) == Some(tag),
                Err(e) => NoticeType::parse(value@) is None && e@ == ErrorView::UnknownNoticeType(
                    value@,
                ),
            },
    {
        if str_eq(value, "group_upload") {
            Ok(NoticeType::GroupUpload)
        } else if str_eq(value, "group_admin") {
            Ok(NoticeType::GroupAdmin)
        } else if str_eq(value, "group_decrease") {
            Ok(NoticeType::GroupDecrease)
        } else if str_eq(value, "group_increase") {
            Ok(NoticeType::GroupIncrease)
        } else if str_eq(value, "group_ban") {
            Ok(NoticeType::GroupBan)
        } else if str_eq(value, "friend_add") {
            Ok(NoticeType::FriendAdd)
        } else if str_eq(value, "group_recall") {
            Ok(NoticeType::GroupRecall)
        } else if str_eq(value, "friend_recall") {
            Ok(NoticeType::FriendRecall)
        } else if str_eq(value, "notify") {
            Ok(NoticeType::Notify)
        } else {
            Err(Error::UnknownNoticeType(value.to_owned()))
        }
    }
}

/// The length of each wire string of the notice types, and the character that
/// tells those of one length apart.
proof fn reveal_wires()
    ensures
        "group_upload"@.len() == 12,
        "group_upload"@[6] == 'u',
        "group_admin"@.len() == 11,
        "group_admin"@[6] == 'a',
        "group_decrease"@.len() == 14,
        "group_decrease"@[6] == 'd',
        "group_increase"@.len() == 14,
        "group_increase"@[6] == 'i',
        "group_ban"@.len() == 9,
        "group_ban"@[6] == 'b',
        "friend_add"@.len() == 10,
        "friend_add"@[6] == '_',
        "group_recall"@.len() == 12,
        "group_recall"@[6] == 'r',
        "friend_recall"@.len() == 13,
        "friend_recall"@[6] == '_',
        "notify"@.len() == 6,
{
    reveal_strlit("group_upload");
    reveal_strlit("group_admin");
    reveal_strlit("group_decrease");
    reveal_strlit("group_increase");
    reveal_strlit("group_ban");
    reveal_strlit("friend_add");
    reveal_strlit("group_recall");
    reveal_strlit("friend_recall");
    reveal_strlit("notify");
}

/// No two notice types share a wire string.
pub proof fn lemma_notice_type_wire_injective(a: NoticeType, b: NoticeType)
    requires
        a.wire() == b.wire(),
    ensures
        a == b,
{
    reveal_wires();
    if a != b {
        assert(a.wire().len() != b.wire().len() || a.wire()[6] != b.wire()[6]);
    }
}

/// Every notice type is read back from its own wire string.
pub proof fn lemma_notice_type_parse_wire(tag: NoticeType)
    ensures
        NoticeType::parse(tag.wire()) == Some(tag),
{
    let found = NoticeType::parse(tag.wire());
    assert(found is Some);
    lemma_notice_type_wire_injective(found->0, tag);
}

/// A string is read as a notice type exactly when it is that type's wire string.
pub proof fn lemma_notice_type_parse_iff_wire(s: Seq<char>, tag: NoticeType)
    ensures
        NoticeType::parse(s) == Some(tag) <==> s == tag.wire(),
{
    lemma_notice_type_parse_wire(tag);
}

/// For a string that is the wire string of a tag: reading it, writing the
/// tag and reading again gives what the first reading gave.
pub proof fn lemma_notice_type_round_trip(s: Seq<char>)
    requires
        exists|tag: NoticeType| s == #[trigger] tag.wire(),
    ensures
        NoticeType::parse(s) is Some,
        NoticeType::parse(NoticeType::parse(s)->0.wire()) == NoticeType::parse(s),
{
    let tag = choose|tag: NoticeType| s == #[trigger] tag.wire();
    lemma_notice_type_parse_wire(tag);
}

/// A string is read as no notice type exactly when it is the wire string of none.
pub proof fn lemma_notice_type_unknown(s: Seq<char>)
    ensures
        NoticeType::parse(s) is None <==> (forall|tag: NoticeType| s != #[trigger] tag.wire()),
{
    if NoticeType::parse(s) is None {
        assert forall|tag: NoticeType| s != #[trigger] tag.wire() by {
            lemma_notice_type_parse_iff_wire(s, tag);
        }
    } else {
        let tag = NoticeType::parse(s)->0;
        lemma_notice_type_parse_iff_wire(s, tag);
    }
}

} // verus!
