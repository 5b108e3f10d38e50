//! Notices: their tags and the typed events that a notice can be.

mod group_admin;
mod group_decrease;
mod notice_type;
mod poke;
pub mod shape;
mod sub_type;

pub use group_admin::{
    lemma_group_admin_classified_iff, lemma_group_admin_deterministic,
    lemma_group_admin_missing_user_id, lemma_group_admin_needs_user_id, GroupAdminNoticeEvent,
    GroupAdminNoticeEventView,
};
pub use group_decrease::{
    lemma_group_decrease_classified_iff, lemma_group_decrease_deterministic,
    lemma_group_decrease_missing_user_id, lemma_group_decrease_needs_user_id,
    GroupDecreaseNoticeEvent, GroupDecreaseNoticeEventView,
};
pub use notice_type::{
    lemma_notice_type_parse_iff_wire, lemma_notice_type_parse_wire, lemma_notice_type_round_trip,
    lemma_notice_type_unknown, lemma_notice_type_wire_injective, NoticeType,
};
pub use poke::{
    lemma_poke_classified_iff, lemma_poke_deterministic, lemma_poke_missing_user_id,
    lemma_poke_needs_user_id, PokeNoticeEvent, PokeNoticeEventView,
};
pub use sub_type::{
    lemma_sub_type_parse_iff_wire, lemma_sub_type_parse_wire, lemma_sub_type_round_trip,
    lemma_sub_type_unknown, lemma_sub_type_wire_injective, SubType,
};
