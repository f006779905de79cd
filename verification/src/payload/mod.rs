//! Payload adapters: the native representations of a list of files.

pub mod hdrop;
pub mod uri_list;
pub mod utf16;
