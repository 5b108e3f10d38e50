//! The post type tag.

use vstd::prelude::*;

use crate::event::error::{Error, ErrorView};
use crate::text::str_eq;

verus! {

/// What kind of report a record is.
#[derive(Debug, Clone, Copy, PartialEq, Eq, Structural)]
pub enum PostType {
    /// A message.
    Message,
    /// An event about the connection itself.
    MetaEvent,
    /// A notice.
    Notice,
    /// A request.
    Request,
}

impl PostType {
    /// The one wire string of this tag.
    pub open spec fn wire(self) -> Seq<char> {
        match self {
            PostType::Message => "message"@,
            PostType::MetaEvent => "meta_event"@,
            PostType::Notice => "notice"@,
            PostType::Request => "request"@,
        }
    }

    /// The tag that a wire string stands for, if it stands for one. The match
    /// is exact: no trimming, no folding of case.
    pub open spec fn parse(s: Seq<char>) -> Option<PostType> {
        if s == PostType::Message.wire() {
            Some(PostType::Message)
        } else if s == PostType::MetaEvent.wire() {
            Some(PostType::MetaEvent)
        } else if s == PostType::Notice.wire() {
            Some(PostType::Notice)
        } else if s == PostType::Request.wire() {
            Some(PostType::Request)
        } else {
            None
        }
    }

    /// The wire string of this tag.
    pub fn as_str(&self) -> (s: &'static str)
        ensures
            s@ == self.wire(),
    {
        match self {
            PostType::Message => "message",
            PostType::MetaEvent => "meta_event",
            PostType::Notice => "notice",
            PostType::Request => "request",
        }
    }

    /// The wire string of this tag, owned.
    pub fn to_string(&self) -> (s: String)
        ensures
            s@ == self.wire(),
    {
        self.as_str().to_owned()
    }

    /// Reads a tag from its wire string. A string outside the closed set is
    /// handed back in the error.
    pub fn try_from(value: &str) -> (r: Result<PostType, Error>)
        ensures
            match r {
                Ok(tag) => PostType::parse(value@) == Some(tag),
                Err(e) => PostType::parse(value@) is None && e@ == ErrorView::UnknownPostType(
                    value@,
                ),
            },
    {
        if str_eq(value, "message") {
            Ok(PostType::Message)
        } else if str_eq(value, "meta_event") {
            Ok(PostType::MetaEvent)
        } else if str_eq(value, "notice") {
            Ok(PostType::Notice)
        } else if str_eq(value, "request") {
            Ok(PostType::Request)
        } else {
            Err(Error::UnknownPostType(value.to_owned()))
        }
    }
}

/// The length of each wire string of the post types, and the character that
/// tells those of one length apart.
proof fn reveal_wires()
    ensures
        "message"@.len() == 7,
        "message"@[2] == 's',
        "meta_event"@.len() == 10,
        "meta_event"@[2] == 't',
        "notice"@.len() == 6,
        "notice"@[2] == 't',
        "request"@.len() == 7,
        "request"@[2] == 'q',
{
    reveal_strlit("message");
    reveal_strlit("meta_event");
    reveal_strlit("notice");
    reveal_strlit("request");
}

/// No two post types share a wire string.
pub proof fn lemma_post_type_wire_injective(a: PostType, b: PostType)
    requires
        a.wire() == b.wire(),
    ensures
        a == b,
{
    reveal_wires();
    if a != b {
        assert(a.wire().len() != b.wire().len() || a.wire()[2] != b.wire()[2]);
    }
}

/// Every post type is read back from its own wire string.
pub proof fn lemma_post_type_parse_wire(tag: PostType)
    ensures
        PostType::parse(tag.wire()) == Some(tag),
{
    let found = PostType::parse(tag.wire());
    assert(found is Some);
    lemma_post_type_wire_injective(found->0, tag);
}

/// A string is read as a post type exactly when it is that type's wire string.
pub proof fn lemma_post_type_parse_iff_wire(s: Seq<char>, tag: PostType)
    ensures
        PostType::parse(s) == Some(tag) <==> s == tag.wire(),
{
    lemma_post_type_parse_wire(tag);
}

/// For a string that is the wire string of a tag: reading it, writing the
/// tag and reading again gives what the first reading gave.
pub proof fn lemma_post_type_round_trip(s: Seq<char>)
    requires
        exists|tag: PostType| s == #[trigger] tag.wire(),
    ensures
        PostType::parse(s) is Some,
        PostType::parse(PostType::parse(s)->0.wire()) == PostType::parse(s),
{
    let tag = choose|tag: PostType| s == #[trigger] tag.wire();
    lemma_post_type_parse_wire(tag);
}

/// A string is read as no post type exactly when it is the wire string of none.
pub proof fn lemma_post_type_unknown(s: Seq<char>)
    ensures
        PostType::parse(s) is None <==> (forall|tag: PostType| s != #[trigger] tag.wire()),
{
    if PostType::parse(s) is None {
        assert forall|tag: PostType| s != #[trigger] tag.wire() by {
            lemma_post_type_parse_iff_wire(s, tag);
        }
    } else {
        let tag = PostType::parse(s)->0;
        lemma_post_type_parse_iff_wire(s, tag);
    }
}

} // verus!
