//! Attach named, typed tags ("labels") to functions and values scattered over
//! a program, and enumerate every tagged item at run time through a per-label
//! registry, with no hand-maintained central list.
//!
//! The crate is organised around the two halves of the mechanism:
//!
//! * declaring a label turns a name and a signature into a namespace holding a
//!   registry ([`registry::Registry`]) with an append operation and the query
//!   operations `iter` and `iter_named` ([`parse`] reads the declarations,
//!   refusing every generic form but lifetimes, and [`definition`] builds the
//!   namespace description from each);
//! * attaching a label to an item strips the attachment annotations from the
//!   item and schedules one registration per annotation to run before the
//!   program's entry point ([`rewrite`]), resolving each annotation's path to
//!   the label's namespace ([`path`], [`resolve`]).
//!
//! The startup phase itself — every scheduled registration running once,
//! before any reader — is modelled by [`startup`], which also proves the
//! properties the mechanism is used for: every registration lands in its
//! target registry, duplicates are kept, and labels do not disturb each other.

pub mod definition;
pub mod item;
pub mod parse;
pub mod path;
pub mod registry;
pub mod resolve;
pub mod rewrite;
mod seq_facts;
pub mod startup;
