//! A typed client library for a music-metadata catalog served as JSON
//! documents. The heart of the crate is the mapping layer that turns
//! loosely-typed, partially optional JSON trees into strongly typed
//! domain entities (artists and release groups), with a closed error
//! taxonomy and verified codecs for identifiers and category vocabularies.
use vstd::prelude::*;

pub mod album;
pub mod artist;
pub mod document;
pub mod enums;
pub mod mapper;
pub mod error;
pub mod mbid;
pub mod release_group;
pub mod text;

pub use mbid::Uuid;

verus! {

} // verus!
