//! The sub type tag.

use vstd::prelude::*;

use crate::event::error::{Error, ErrorView};
use crate::text::str_eq;

verus! {

/// The finer kind of a notice.
#[derive(Debug, Clone, Copy, PartialEq, Eq, Structural)]
pub enum SubType {
    /// An administrator was set.
    SetAdmin,
    /// An administrator was unset.
    Unset,
    /// The member left by choice.
    Leave,
    /// The member was removed.
    Kick,
    /// The account that receives the events was removed.
    KickMe,
    /// An administrator approved the join.
    Approve,
    /// An administrator invited the member.
    Invite,
    /// The member was muted.
    Ban,
    /// The member was unmuted.
    LiftBan,
    /// A poke.
    Poke,
    /// The lucky king of a red packet.
    LuckyKing,
    /// A change of a member's honor.
    Honor,
}

impl SubType {
    /// The one wire string of this tag.
    pub open spec fn wire(self) -> Seq<char> {
        match self {
            SubType::SetAdmin => "set"@,
            SubType::Unset => "unset"@,
            SubType::Leave => "leave"@,
            SubType::Kick => "kick"@,
            SubType::KickMe => "kick_me"@,
            SubType::Approve => "approve"@,
            SubType::Invite => "invite"@,
            SubType::Ban => "ban"@,
            SubType::LiftBan => "lift_ban"@,
            SubType::Poke => "poke"@,
            SubType::LuckyKing => "lucky_king"@,
            SubType::Honor => "honor"@,
        }
    }

    /// The tag that a wire string stands for, if it stands for one. The match
    /// is exact: no trimming, no folding of case.
    pub open spec fn parse(s: Seq<char>) -> Option<SubType> {
        if s == SubType::SetAdmin.wire() {
            Some(SubType::SetAdmin)
        } else if s == SubType::Unset.wire() {
            Some(SubType::Unset)
        } else if s == SubType::Leave.wire() {
            Some(SubType::Leave)
        } else if s == SubType::Kick.wire() {
            Some(SubType::Kick)
        } else if s == SubType::KickMe.wire() {
            Some(SubType::KickMe)
        } else if s == SubType::Approve.wire() {
            Some(SubType::Approve)
        } else if s == SubType::Invite.wire() {
            Some(SubType::Invite)
        } else if s == SubType::Ban.wire() {
            Some(SubType::Ban)
        } else if s == SubType::LiftBan.wire() {
            Some(SubType::LiftBan)
        } else if s == SubType::Poke.wire() {
            Some(SubType::Poke)
        } else if s == SubType::LuckyKing.wire() {
            Some(SubType::LuckyKing)
        } else if s == SubType::Honor.wire() {
            Some(SubType::Honor)
        } else {
            None
        }
    }

    /// The wire string of this tag.
    pub fn as_str(&self) -> (s: &'static str)
        ensures
            s@ == self.wire(),
    {
        match self {
            SubType::SetAdmin => "set",
            SubType::Unset => "unset",
            SubType::Leave => "leave",
            SubType::Kick => "kick",
            SubType::KickMe => "kick_me",
            SubType::Approve => "approve",
            SubType::Invite => "invite",
            SubType::Ban => "ban",
            SubType::LiftBan => "lift_ban",
            SubType::Poke => "poke",
            SubType::LuckyKing => "lucky_king",
            SubType::Honor => "honor",
        }
    }

    /// The wire string of this tag, owned.
    pub fn to_string(&self) -> (s: String)
        ensures
            s@ == self.wire(),
    {
        self.as_str().to_owned()
    }

    /// Reads a tag from its wire string. A string outside the closed set is
    /// handed back in the error.
    pub fn try_from(value: &str) -> (r: Result<SubType, Error>)
        ensures
            match r {
                Ok(tag) => SubType::parse(value@) == Some(tag),
                Err(e) => SubType::parse(value@) is None && e@ == ErrorView::UnknownSubType(
                    value@,
                ),
            },
    {
        if str_eq(value, "set") {
            Ok(SubType::SetAdmin)
        } else if str_eq(value, "unset") {
            Ok(SubType::Unset)
        } else if str_eq(value, "leave") {
            Ok(SubType::Leave)
        } else if str_eq(value, "kick") {
            Ok(SubType::Kick)
        } else if str_eq(value, "kick_me") {
            Ok(SubType::KickMe)
        } else if str_eq(value, "approve") {
            Ok(SubType::Approve)
        } else if str_eq(value, "invite") {
            Ok(SubType::Invite)
        } else if str_eq(value, "ban") {
            Ok(SubType::Ban)
        } else if str_eq(value, "lift_ban") {
            Ok(SubType::LiftBan)
        } else if str_eq(value, "poke") {
            Ok(SubType::Poke)
        } else if str_eq(value, "lucky_king") {
            Ok(SubType::LuckyKing)
        } else if str_eq(value, "honor") {
            Ok(SubType::Honor)
        } else {
            Err(Error::UnknownSubType(value.to_owned()))
        }
    }
}

/// The length of each wire string of the sub types, and the character that
/// tells those of one length apart.
proof fn reveal_wires()
    ensures
        "set"@.len() == 3,
        "set"@[0] == 's',
        "unset"@.len() == 5,
        "unset"@[0] == 'u',
        "leave"@.len() == 5,
        "leave"@[0] == 'l',
        "kick"@.len() == 4,
        "kick"@[0] == 'k',
        "kick_me"@.len() == 7,
        "kick_me"@[0] == 'k',
        "approve"@.len() == 7,
        "approve"@[0] == 'a',
        "invite"@.len() == 6,
        "invite"@[0] == 'i',
        "ban"@.len() == 3,
        "ban"@[0] == 'b',
        "lift_ban"@.len() == 8,
        "lift_ban"@[0] == 'l',
        "poke"@.len() == 4,
        "poke"@[0] == 'p',
        "lucky_king"@.len() == 10,
        "lucky_king"@[0] == 'l',
        "honor"@.len() == 5,
        "honor"@[0] == 'h',
{
    reveal_strlit("set");
    reveal_strlit("unset");
    reveal_strlit("leave");
    reveal_strlit("kick");
    reveal_strlit("kick_me");
    reveal_strlit("approve");
    reveal_strlit("invite");
    reveal_strlit("ban");
    reveal_strlit("lift_ban");
    reveal_strlit("poke");
    reveal_strlit("lucky_king");
    reveal_strlit("honor");
}

/// No two sub types share a wire string.
pub proof fn lemma_sub_type_wire_injective(a: SubType, b: SubType)
    requires
        a.wire() == b.wire(),
    ensures
        a == b,
{
    reveal_wires();
    if a != b {
        assert(a.wire().len() != b.wire().len() || a.wire()[0] != b.wire()[0]);
    }
}

/// Every sub type is read back from its own wire string.
pub proof fn lemma_sub_type_parse_wire(tag: SubType)
    ensures
        SubType::parse(tag.wire()) == Some(tag),
{
    let found = SubType::parse(tag.wire());
    assert(found is Some);
    lemma_sub_type_wire_injective(found->0, tag);
}

/// A string is read as a sub type exactly when it is that type's wire string.
pub proof fn lemma_sub_type_parse_iff_wire(s: Seq<char>, tag: SubType)
    ensures
        SubType::parse(s) == Some(tag) <==> s == tag.wire(),
{
    lemma_sub_type_parse_wire(tag);
}

/// For a string that is the wire string of a tag: reading it, writing the
/// tag and reading again gives what the first reading gave.
pub proof fn lemma_sub_type_round_trip(s: Seq<char>)
    requires
        exists|tag: SubType| s == #[trigger] tag.wire(),
    ensures
        SubType::parse(s) is Some,
        SubType::parse(SubType::parse(s)->0.wire()) == SubType::parse(s),
{
    let tag = choose|tag: SubType| s == #[trigger] tag.wire();
    lemma_sub_type_parse_wire(tag);
}

/// A string is read as no sub type exactly when it is the wire string of none.
pub proof fn lemma_sub_type_unknown(s: Seq<char>)
    ensures
        SubType::parse(s) is None <==> (forall|tag: SubType| s != #[trigger] tag.wire()),
{
    if SubType::parse(s) is None {
        assert forall|tag: SubType| s != #[trigger] tag.wire() by {
            lemma_sub_type_parse_iff_wire(s, tag);
        }
    } else {
        let tag = SubType::parse(s)->0;
        lemma_sub_type_parse_iff_wire(s, tag);
    }
}

} // verus!
