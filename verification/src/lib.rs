//! Retained-mode draw addressing: generation-stamped area handles over a
//! scene graph of views and draw calls, with validated access to instance
//! and uniform buffers.

pub mod area;
pub mod build_protocol;
pub mod char_ext;
pub mod context;
pub mod draw_call;
pub mod fish_blocks;
pub mod geom;
pub mod laws;
pub mod lhs_check;
pub mod mapping;
pub mod refs;
pub mod text;
pub mod video;
pub mod view_node;

pub use geom::Rect;
pub use geom::Vec2;
