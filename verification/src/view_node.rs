//! A node of the render tree: geometry, scroll state, draw calls and the
//! generation counter that handle validity is judged against.

use vstd::prelude::*;

use crate::draw_call::DrawItem;
use crate::geom::Rect;
use crate::geom::Vec2;

verus! {

/// A node of the render tree.
#[derive(Clone, Debug)]
pub struct ViewNode {
    /// The node's rectangle in view space.
    pub rect: Rect,
    /// Scroll offset propagated from the parent chain.
    pub parent_scroll: Vec2,
    /// The node's own scroll offset, snapped to whole units.
    pub snapped_scroll: Vec2,
    /// The node's own scroll offset before snapping.
    pub unsnapped_scroll: Vec2,
    /// Whether the node participates in horizontal scrolling.
    pub do_h_scroll: bool,
    /// Whether the node participates in vertical scrolling.
    pub do_v_scroll: bool,
    /// The draw calls repopulated on every rebuild.
    pub draw_items: Vec<DrawItem>,
    /// The render pass this node contributes to.
    pub pass_id: usize,
    /// Generation stamp: changes every time this node is rebuilt.
    pub redraw_id: u64,
}

impl ViewNode {
    /// All fields other than `draw_items` agree between `o` and `n`.
    pub open spec fn same_but_items(o: ViewNode, n: ViewNode) -> bool {
        &&& n.rect == o.rect
        &&& n.parent_scroll == o.parent_scroll
        &&& n.snapped_scroll == o.snapped_scroll
        &&& n.unsnapped_scroll == o.unsnapped_scroll
        &&& n.do_h_scroll == o.do_h_scroll
        &&& n.do_v_scroll == o.do_v_scroll
        &&& n.pass_id == o.pass_id
        &&& n.redraw_id == o.redraw_id
    }

    /// All fields other than `draw_items` and `redraw_id` agree.
    pub open spec fn same_but_generation(o: ViewNode, n: ViewNode) -> bool {
        &&& n.rect == o.rect
        &&& n.parent_scroll == o.parent_scroll
        &&& n.snapped_scroll == o.snapped_scroll
        &&& n.unsnapped_scroll == o.unsnapped_scroll
        &&& n.do_h_scroll == o.do_h_scroll
        &&& n.do_v_scroll == o.do_v_scroll
        &&& n.pass_id == o.pass_id
    }
}

/// A render pass; the subsystem only tracks its repaint flag.
#[derive(Clone, Copy, Debug, PartialEq, Eq, Structural)]
pub struct Pass {
    /// Set when some write reference was handed out into this pass.
    pub paint_dirty: bool,
}

} // verus!
