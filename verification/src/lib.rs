//! Dragging files out of a list and dropping files into it: the payload
//! format, the choice of what a drag carries, the handling of a drop, and the
//! collection of file entries behind the visible list.

pub mod compact_view;
pub mod config;
pub mod drag_source;
pub mod drop_target;
pub mod file_model;
pub mod file_object;
pub mod list_view;
pub mod materialize;
pub mod session;
pub mod text;
pub mod uri_list;
pub mod uri_list_lemmas;
