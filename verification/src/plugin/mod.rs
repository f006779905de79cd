//! What the application-framework plugins decide: how the payloads of their
//! commands become a drag request.

pub mod codec;
pub mod drag;
pub mod drag_as_window;
pub mod text_map;
pub mod v1;
