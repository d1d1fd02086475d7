//! The guarantees the handle subsystem is built around, each proved once
//! and for all over the same spec functions the operations' contracts use.

use vstd::prelude::*;

use crate::area::area_is_valid;
use crate::area::instance_call;
use crate::area::instance_mapping;
use crate::area::instance_rect_readable;
use crate::area::instance_screen_rect;
use crate::area::view_screen_rect;
use crate::area::Area;
use crate::area::InstanceArea;
use crate::area::ViewArea;
use crate::context::RenderContext;
use crate::geom::Rect;
use crate::geom::Vec2;
use crate::refs::dirtied;
use crate::view_node::ViewNode;

verus! {

/// A handle captured in generation `g` is valid exactly while the owning
/// view's live generation equals `g`: `is_valid` answers true then, and
/// false for every other live generation.
pub proof fn lemma_validity_tracks_generation(ctx: RenderContext, ia: InstanceArea)
    requires
        ia.instance_count > 0,
        (ia.view_id as int) < ctx.views@.len(),
    ensures
        area_is_valid(ctx, Area::Instance(ia)) <==> ctx.views@[ia.view_id as int].redraw_id
            == ia.redraw_id,
{
}

/// Validity depends only on the live generation stamps, never on what the
/// views hold: rebuilding a view with different draw calls — including
/// none at all — changes the verdict only through the stamp.
pub proof fn lemma_validity_ignores_draw_items(c1: RenderContext, c2: RenderContext, a: Area)
    requires
        c1.views@.len() == c2.views@.len(),
        forall|i: int|
            0 <= i < c1.views@.len() ==> (#[trigger] c1.views@[i]).redraw_id
                == c2.views@[i].redraw_id,
    ensures
        area_is_valid(c1, a) == area_is_valid(c2, a),
{
}

/// The screen rectangle of a valid view handle is exactly the view's
/// rectangle translated by its parent scroll, with the size untouched.
pub proof fn lemma_view_rect_formula(ctx: RenderContext, va: ViewArea)
    requires
        ctx.wf(),
        area_is_valid(ctx, Area::View(va)),
    ensures
        ({
            let v = ctx.views@[va.view_id as int];
            let r = view_screen_rect(v);
            &&& r.pos.x == v.rect.pos.x - v.parent_scroll.x
            &&& r.pos.y == v.rect.pos.y - v.parent_scroll.y
            &&& r.size == v.rect.size
        }),
{
    assert(ctx.view_wf(ctx.views@[va.view_id as int]));
}

/// Writing a rectangle through a valid view handle and reading it back in
/// the same generation returns the written value, provided the view has no
/// parent scroll. `o` is the context before the write, `n` the context
/// `set_rect` leaves behind.
pub proof fn lemma_view_rect_round_trip(o: RenderContext, n: RenderContext, va: ViewArea, r: Rect)
    requires
        o.wf(),
        r.wf(),
        area_is_valid(o, Area::View(va)),
        o.views@[va.view_id as int].parent_scroll == (Vec2 { x: 0i64, y: 0i64 }),
        n.views@ == o.views@.update(
            va.view_id as int,
            ViewNode { rect: r, ..o.views@[va.view_id as int] },
        ),
        RenderContext::same_but_views(o, n),
    ensures
        area_is_valid(n, Area::View(va)),
        view_screen_rect(n.views@[va.view_id as int]) == r,
{
}

/// Feeding a valid view handle's own screen origin back through the
/// coordinate transform yields exactly the view's unsnapped scroll offset:
/// the rectangle's origin is the local zero point, modulo scroll.
pub proof fn lemma_origin_maps_to_scroll_view(ctx: RenderContext, va: ViewArea)
    requires
        ctx.wf(),
        area_is_valid(ctx, Area::View(va)),
    ensures
        ({
            let v = ctx.views@[va.view_id as int];
            let p = view_screen_rect(v).pos;
            &&& p.x - v.rect.pos.x + v.parent_scroll.x + v.unsnapped_scroll.x
                == v.unsnapped_scroll.x
            &&& p.y - v.rect.pos.y + v.parent_scroll.y + v.unsnapped_scroll.y
                == v.unsnapped_scroll.y
        }),
{
    assert(ctx.view_wf(ctx.views@[va.view_id as int]));
}

/// Feeding a valid instance handle's own screen origin back through the
/// coordinate transform yields the zero vector, provided the clip
/// rectangle does not cut that origin away: subtracting the stored
/// rectangle position and adding back the draw scroll cancels exactly.
pub proof fn lemma_origin_maps_to_scroll_instance(ctx: RenderContext, ia: InstanceArea)
    requires
        ctx.wf(),
        area_is_valid(ctx, Area::Instance(ia)),
        instance_rect_readable(ctx, ia),
        ({
            let dc = instance_call(ctx, ia);
            let buf = dc.instances->Some_0@;
            let rp = ia.instance_offset + (instance_mapping(ctx, ia).rect_pos->Some_0 as int);
            &&& dc.clip_min.x <= buf[rp] - dc.draw_scroll.x <= dc.clip_max.x
            &&& dc.clip_min.y <= buf[rp + 1] - dc.draw_scroll.y <= dc.clip_max.y
        }),
    ensures
        ({
            let dc = instance_call(ctx, ia);
            let buf = dc.instances->Some_0@;
            let rp = ia.instance_offset + (instance_mapping(ctx, ia).rect_pos->Some_0 as int);
            let p = instance_screen_rect(ctx, ia).pos;
            &&& p.x - buf[rp] + dc.draw_scroll.x == 0
            &&& p.y - buf[rp + 1] + dc.draw_scroll.y == 0
        }),
{
    assert(ctx.view_wf(ctx.views@[ia.view_id as int]));
    assert(ctx.draw_item_wf(ctx.views@[ia.view_id as int].draw_items@[ia.draw_item_id as int]));
}

/// Handing out a write reference marks the owning pass as needing repaint,
/// whether or not anything is ever written through the reference: `n` is
/// the context `get_write_ref` leaves behind whenever it found the field.
pub proof fn lemma_write_ref_marks_pass_dirty(
    o: RenderContext,
    n: RenderContext,
    ia: InstanceArea,
    uniforms: bool,
    instances: bool,
)
    requires
        (ia.view_id as int) < o.views@.len(),
        (o.views@[ia.view_id as int].pass_id as int) < o.passes@.len(),
        dirtied(o, n, ia, uniforms, instances),
    ensures
        n.passes@[o.views@[ia.view_id as int].pass_id as int].paint_dirty,
{
}

} // verus!
