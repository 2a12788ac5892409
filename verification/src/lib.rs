//! Turns the pages of a documentation site into markdown documents, splits
//! large documents into topic-sized chunks and describes every document in a
//! manifest record.

pub mod chunk;
pub mod engine;
pub mod keywords;
pub mod manifest;
pub mod nav;
pub mod normalize;
pub mod paths;
pub mod slug;
pub mod tables;
pub mod text;
