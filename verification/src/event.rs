//! Events: the discriminator tags, the raw record, and the errors that
//! classification can end in.

mod error;
pub mod notice;
mod post_type;
mod record;

pub use error::{lemma_field_name_injective, Error, ErrorView, Field, Reason, ReasonView};
pub use post_type::{
    lemma_post_type_parse_iff_wire, lemma_post_type_parse_wire, lemma_post_type_round_trip,
    lemma_post_type_unknown, lemma_post_type_wire_injective, PostType,
};
pub use record::{integer_at, text_at, Fields, NoticeEvent, Value, ValueView};
