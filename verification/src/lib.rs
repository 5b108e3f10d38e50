//! Typed views of notice events.
//!
//! A notice arrives as a loosely typed record: a flat mapping from field
//! names to strings and integers. This crate sorts such a record into one of
//! a closed set of typed events, or says exactly why it does not fit.
//!
//! - The three tags of a record ([`event::PostType`],
//!   [`event::notice::NoticeType`], [`event::notice::SubType`]) are closed
//!   enumerations. Each tag has one wire string, and reading and writing are
//!   inverse to each other.
//! - [`event::NoticeEvent`] is the record. Its view is a mathematical map, and
//!   every contract of this crate speaks of that map.
//! - Each typed event has a `try_from` that checks the tags, then the
//!   required fields, in a fixed order. Its spec function `classify` is the
//!   whole of what it returns: the event for a record that fits, and for any
//!   other record the error of the first check that fails.
//!
//! Every function is a pure function of its input: nothing here shares
//! state, reads a clock or touches the outside world.

pub mod event;
pub mod text;
