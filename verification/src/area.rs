//! Area handles: weak, generation-stamped references into the render tree.
//!
//! A handle never owns what it points at. Every operation first compares
//! the handle's stamped generation against the live generation of the
//! referenced view node; a stale handle yields a default value or no effect
//! and never reaches into a possibly reallocated buffer.

use vstd::prelude::*;

use crate::context::RenderContext;
use crate::draw_call::DrawCall;
use crate::draw_call::DrawItem;
use crate::geom::Rect;
use crate::geom::Vec2;
use crate::geom::COORD_LIMIT;
use crate::mapping::ShaderMapping;
use crate::view_node::ViewNode;

verus! {

/// Reference to one instance record (or a contiguous run) inside a draw
/// call's instance buffer, stamped with the generation observed when it was
/// handed out.
#[derive(Clone, Copy, Debug, PartialEq, Eq, Structural)]
pub struct InstanceArea {
    pub view_id: usize,
    pub draw_item_id: usize,
    /// First slot of the run inside the instance buffer.
    pub instance_offset: usize,
    /// Number of records in the run; zero marks a handle with no content.
    pub instance_count: usize,
    /// Generation of the owning view when the handle was captured.
    pub redraw_id: u64,
}

/// Reference to a whole view node's rectangle and scroll state, stamped
/// with the generation observed when it was handed out.
#[derive(Clone, Copy, Debug, PartialEq, Eq, Structural)]
pub struct ViewArea {
    pub view_id: usize,
    /// Generation of the view when the handle was captured.
    pub redraw_id: u64,
}

/// A weak reference into the render tree: empty, one instance run, or one
/// whole view.
#[derive(Clone, Copy, Debug, PartialEq, Eq, Structural)]
pub enum Area {
    Empty,
    Instance(InstanceArea),
    View(ViewArea),
}

impl Default for Area {
    /// The empty handle.
    fn default() -> (r: Area)
        ensures
            r == Area::Empty,
    {
        Area::Empty
    }
}

/// Validity of a handle against the live tree: the stamped generation must
/// equal the referenced view's current generation, and an instance run must
/// be non-empty. An out-of-range view id never validates.
pub open spec fn area_is_valid(ctx: RenderContext, a: Area) -> bool {
    match a {
        Area::Empty => false,
        Area::Instance(ia) => {
            &&& ia.instance_count > 0
            &&& (ia.view_id as int) < ctx.views@.len()
            &&& ctx.views@[ia.view_id as int].redraw_id == ia.redraw_id
        },
        Area::View(va) => {
            &&& (va.view_id as int) < ctx.views@.len()
            &&& ctx.views@[va.view_id as int].redraw_id == va.redraw_id
        },
    }
}

/// A valid instance handle whose draw item still exists and still carries a
/// draw call.
pub open spec fn instance_target_ok(ctx: RenderContext, ia: InstanceArea) -> bool {
    &&& area_is_valid(ctx, Area::Instance(ia))
    &&& (ia.draw_item_id as int) < ctx.views@[ia.view_id as int].draw_items@.len()
    &&& ctx.views@[ia.view_id as int].draw_items@[ia.draw_item_id as int].draw_call is Some
}

/// The draw call an instance handle points into (meaningful under
/// `instance_target_ok`).
pub open spec fn instance_call(ctx: RenderContext, ia: InstanceArea) -> DrawCall {
    ctx.views@[ia.view_id as int].draw_items@[ia.draw_item_id as int].draw_call->Some_0
}

/// The shader mapping of the draw call an instance handle points into.
pub open spec fn instance_mapping(ctx: RenderContext, ia: InstanceArea) -> ShaderMapping {
    ctx.draw_shaders@[instance_call(ctx, ia).shader_id as int]
}

/// The instance buffer behind the handle exists and holds both rectangle
/// fields of the handle's first record: the shader declares rectangle
/// position and size, and both field pairs lie inside the buffer.
pub open spec fn instance_rect_readable(ctx: RenderContext, ia: InstanceArea) -> bool {
    &&& instance_target_ok(ctx, ia)
    &&& instance_call(ctx, ia).instances matches Some(buf) && buf@.len() > 0
    &&& instance_mapping(ctx, ia).rect_pos is Some
    &&& instance_mapping(ctx, ia).rect_size is Some
    &&& ia.instance_offset + (instance_mapping(ctx, ia).rect_pos->Some_0 as int) + 1
        < instance_call(ctx, ia).instances->Some_0@.len()
    &&& ia.instance_offset + (instance_mapping(ctx, ia).rect_size->Some_0 as int) + 1
        < instance_call(ctx, ia).instances->Some_0@.len()
}

/// As `instance_rect_readable`, but asking only for the rectangle-position
/// field, which is all `abs_to_rel` reads.
pub open spec fn instance_pos_readable(ctx: RenderContext, ia: InstanceArea) -> bool {
    &&& instance_target_ok(ctx, ia)
    &&& instance_call(ctx, ia).instances is Some
    &&& instance_mapping(ctx, ia).rect_pos is Some
    &&& ia.instance_offset + (instance_mapping(ctx, ia).rect_pos->Some_0 as int) + 1
        < instance_call(ctx, ia).instances->Some_0@.len()
}

/// The screen rectangle of a readable instance run: the raw rectangle
/// fields of its first record put through the draw call's clip-and-scroll
/// composition.
pub open spec fn instance_screen_rect(ctx: RenderContext, ia: InstanceArea) -> Rect {
    let dc = instance_call(ctx, ia);
    let m = instance_mapping(ctx, ia);
    let buf = dc.instances->Some_0@;
    let rp = ia.instance_offset + (m.rect_pos->Some_0 as int);
    let rs = ia.instance_offset + (m.rect_size->Some_0 as int);
    dc.clip_and_scroll_spec(
        buf[rp] as int,
        buf[rp + 1] as int,
        buf[rs] as int,
        buf[rs + 1] as int,
    )
}

/// The instance buffer after writing `rect` into the rectangle fields of
/// the record at slot `off`: each of the two field pairs is written only
/// where the shader declares it and it lies inside the buffer.
pub open spec fn rect_written_buf(buf: Seq<i64>, m: ShaderMapping, off: int, rect: Rect) -> Seq<
    i64,
> {
    let b1 = match m.rect_pos {
        Some(rp) => if off + rp + 1 < buf.len() {
            buf.update(off + rp, rect.pos.x).update(off + rp + 1, rect.pos.y)
        } else {
            buf
        },
        None => buf,
    };
    match m.rect_size {
        Some(rs) => if off + rs + 1 < b1.len() {
            b1.update(off + rs, rect.size.x).update(off + rs + 1, rect.size.y)
        } else {
            b1
        },
        None => b1,
    }
}

/// The screen rectangle of a view node: its rectangle translated by the
/// scroll its parent chain propagated to it.
pub open spec fn view_screen_rect(v: ViewNode) -> Rect {
    Rect {
        pos: Vec2 {
            x: (v.rect.pos.x - v.parent_scroll.x) as i64,
            y: (v.rect.pos.y - v.parent_scroll.y) as i64,
        },
        size: v.rect.size,
    }
}

impl Area {
    /// Whether this is the empty handle.
    pub fn is_empty(&self) -> (r: bool)
        ensures
            r == (*self is Empty),
    {
        if let Area::Empty = self {
            return true;
        }
        false
    }

    /// The id of the view this handle points into, if any.
    pub fn view_id(&self) -> (r: Option<usize>)
        ensures
            match *self {
                Area::Instance(ia) => r == Some(ia.view_id),
                Area::View(va) => r == Some(va.view_id),
                Area::Empty => r is None,
            },
    {
        match self {
            Area::Instance(inst) => Some(inst.view_id),
            Area::View(view) => Some(view.view_id),
            _ => None,
        }
    }

    /// Whether this handle points at the first instance record of its draw
    /// call.
    pub fn is_first_instance(&self) -> (r: bool)
        ensures
            r == (*self matches Area::Instance(ia) && ia.instance_offset == 0),
    {
        match self {
            Area::Instance(inst) => inst.instance_offset == 0,
            _ => false,
        }
    }

    /// The validity test every other operation applies first: stale,
    /// empty or out-of-range handles are invalid, and an instance run of
    /// zero records is invalid as well.
    pub fn is_valid(&self, ctx: &RenderContext) -> (r: bool)
        ensures
            r == area_is_valid(*ctx, *self),
    {
        match self {
            Area::Instance(inst) => {
                if inst.instance_count == 0 {
                    return false;
                }
                if inst.view_id >= ctx.views.len() {
                    return false;
                }
                let cxview = &ctx.views[inst.view_id];
                cxview.redraw_id == inst.redraw_id
            },
            Area::View(view_area) => {
                if view_area.view_id >= ctx.views.len() {
                    return false;
                }
                let cxview = &ctx.views[view_area.view_id];
                cxview.redraw_id == view_area.redraw_id
            },
            _ => false,
        }
    }

    /// The instance run behind this handle, if the handle is an instance
    /// handle and currently valid.
    pub fn valid_instance(&self, ctx: &RenderContext) -> (r: Option<&InstanceArea>)
        ensures
            match r {
                Some(ia) => *self == Area::Instance(*ia) && area_is_valid(*ctx, *self),
                None => !(*self matches Area::Instance(_) && area_is_valid(*ctx, *self)),
            },
    {
        if self.is_valid(ctx) {
            if let Area::Instance(inst) = self {
                return Some(inst);
            }
        }
        None
    }

    /// The unsnapped scroll offset of the handle's view. An instance handle
    /// answers only while its generation is live; a view handle answers
    /// from whatever view its id names, as the layout pass uses it while
    /// rebuilding.
    pub fn get_local_scroll_pos(&self, ctx: &RenderContext) -> (r: Vec2)
        requires
            ctx.wf(),
        ensures
            match *self {
                Area::Instance(ia) => {
                    if (ia.view_id as int) < ctx.views@.len()
                        && ctx.views@[ia.view_id as int].redraw_id == ia.redraw_id {
                        r == ctx.views@[ia.view_id as int].unsnapped_scroll
                    } else {
                        r == (Vec2 { x: 0i64, y: 0i64 })
                    }
                },
                Area::View(va) => {
                    if (va.view_id as int) < ctx.views@.len() {
                        r == ctx.views@[va.view_id as int].unsnapped_scroll
                    } else {
                        r == (Vec2 { x: 0i64, y: 0i64 })
                    }
                },
                Area::Empty => r == (Vec2 { x: 0i64, y: 0i64 }),
            },
    {
        match self {
            Area::Instance(inst) => {
                if inst.view_id >= ctx.views.len() {
                    return Vec2::zero();
                }
                let cxview = &ctx.views[inst.view_id];
                if cxview.redraw_id != inst.redraw_id {
                    Vec2::zero()
                } else {
                    cxview.unsnapped_scroll
                }
            },
            Area::View(view_area) => {
                if view_area.view_id >= ctx.views.len() {
                    return Vec2::zero();
                }
                let cxview = &ctx.views[view_area.view_id];
                cxview.unsnapped_scroll
            },
            _ => Vec2::zero(),
        }
    }

    /// The scroll offset applied to the handle's target when it was drawn:
    /// for an instance, its draw call's accumulated scroll uniform; for a
    /// view, the scroll its parent chain propagated to it.
    pub fn get_scroll_pos(&self, ctx: &RenderContext) -> (r: Vec2)
        requires
            ctx.wf(),
        ensures
            match *self {
                Area::Instance(ia) => {
                    if (ia.view_id as int) < ctx.views@.len()
                        && ctx.views@[ia.view_id as int].redraw_id == ia.redraw_id {
                        if (ia.draw_item_id as int)
                            < ctx.views@[ia.view_id as int].draw_items@.len()
                            && ctx.views@[ia.view_id as int].draw_items@[ia.draw_item_id as int].draw_call
                             is Some {
                            r == instance_call(*ctx, ia).draw_scroll
                        } else {
                            r == (Vec2 { x: 0i64, y: 0i64 })
                        }
                    } else {
                        r == (Vec2 { x: 0i64, y: 0i64 })
                    }
                },
                Area::View(va) => {
                    if (va.view_id as int) < ctx.views@.len() {
                        r == ctx.views@[va.view_id as int].parent_scroll
                    } else {
                        r == (Vec2 { x: 0i64, y: 0i64 })
                    }
                },
                Area::Empty => r == (Vec2 { x: 0i64, y: 0i64 }),
            },
    {
        match self {
            Area::Instance(inst) => {
                if inst.view_id >= ctx.views.len() {
                    return Vec2::zero();
                }
                let cxview = &ctx.views[inst.view_id];
                if cxview.redraw_id != inst.redraw_id {
                    return Vec2::zero();
                }
                if inst.draw_item_id >= cxview.draw_items.len() {
                    return Vec2::zero();
                }
                match &cxview.draw_items[inst.draw_item_id].draw_call {
                    Some(draw_call) => draw_call.draw_scroll,
                    None => Vec2::zero(),
                }
            },
            Area::View(view_area) => {
                if view_area.view_id >= ctx.views.len() {
                    return Vec2::zero();
                }
                let cxview = &ctx.views[view_area.view_id];
                cxview.parent_scroll
            },
            _ => Vec2::zero(),
        }
    }

    /// The final screen rectangle of the handle's target. A view handle
    /// yields its view's rectangle translated by the parent scroll; an
    /// instance handle yields the rectangle fields read out of its first
    /// record, put through the draw call's clip-and-scroll composition.
    /// A stale or empty handle, or a shader without rectangle fields,
    /// yields the zero rectangle: those are "no geometry" results, not
    /// errors.
    pub fn get_rect(&self, ctx: &RenderContext) -> (r: Rect)
        requires
            ctx.wf(),
        ensures
            !area_is_valid(*ctx, *self) ==> r == Rect::zero_spec(),
            *self matches Area::View(va) ==> (area_is_valid(*ctx, *self)
                ==> r == view_screen_rect(ctx.views@[va.view_id as int])),
            *self matches Area::Instance(ia) ==> ((area_is_valid(*ctx, *self)
                && instance_rect_readable(*ctx, ia)) ==> r == instance_screen_rect(*ctx, ia)),
            *self matches Area::Instance(ia) ==> ((area_is_valid(*ctx, *self)
                && !instance_rect_readable(*ctx, ia)) ==> r == Rect::zero_spec()),
            -2 * (COORD_LIMIT as int) <= r.pos.x as int <= 2 * (COORD_LIMIT as int),
            -2 * (COORD_LIMIT as int) <= r.pos.y as int <= 2 * (COORD_LIMIT as int),
            -2 * (COORD_LIMIT as int) <= r.size.x as int <= 2 * (COORD_LIMIT as int),
            -2 * (COORD_LIMIT as int) <= r.size.y as int <= 2 * (COORD_LIMIT as int),
    {
        match self {
            Area::Instance(inst) => {
                if inst.instance_count == 0 {
                    return Rect::zero();
                }
                if inst.view_id >= ctx.views.len() {
                    return Rect::zero();
                }
                let cxview = &ctx.views[inst.view_id];
                if cxview.redraw_id != inst.redraw_id {
                    return Rect::zero();
                }
                if inst.draw_item_id >= cxview.draw_items.len() {
                    return Rect::zero();
                }
                let draw_call = match &cxview.draw_items[inst.draw_item_id].draw_call {
                    Some(dc) => dc,
                    None => {
                        return Rect::zero();
                    },
                };
                let sh = &ctx.draw_shaders[draw_call.shader_id];
                let buf = match &draw_call.instances {
                    Some(b) => b,
                    None => {
                        return Rect::zero();
                    },
                };
                if buf.len() == 0 {
                    return Rect::zero();
                }
                let rect_pos = match sh.rect_pos {
                    Some(o) => o,
                    None => {
                        return Rect::zero();
                    },
                };
                let rect_size = match sh.rect_size {
                    Some(o) => o,
                    None => {
                        return Rect::zero();
                    },
                };
                if inst.instance_offset >= buf.len() {
                    return Rect::zero();
                }
                if rect_pos + 1 >= buf.len() - inst.instance_offset {
                    return Rect::zero();
                }
                if rect_size + 1 >= buf.len() - inst.instance_offset {
                    return Rect::zero();
                }
                let x = buf[inst.instance_offset + rect_pos];
                let y = buf[inst.instance_offset + rect_pos + 1];
                let w = buf[inst.instance_offset + rect_size];
                let h = buf[inst.instance_offset + rect_size + 1];
                draw_call.clip_and_scroll_rect(x, y, w, h)
            },
            Area::View(view_area) => {
                if view_area.view_id >= ctx.views.len() {
                    return Rect::zero();
                }
                let cxview = &ctx.views[view_area.view_id];
                if cxview.redraw_id != view_area.redraw_id {
                    return Rect::zero();
                }
                Rect {
                    pos: Vec2 {
                        x: cxview.rect.pos.x - cxview.parent_scroll.x,
                        y: cxview.rect.pos.y - cxview.parent_scroll.y,
                    },
                    size: cxview.rect.size,
                }
            },
            _ => Rect::zero(),
        }
    }

    /// Convert an absolute point into the local space of the handle's
    /// target: a view handle undoes the scroll translation applied during
    /// layout, an instance handle subtracts its rectangle origin and adds
    /// back the draw call's scroll. A stale handle or a shader without a
    /// rectangle-position field yields `abs` unchanged, so hit-testing
    /// degrades gracefully instead of failing.
    pub fn abs_to_rel(&self, ctx: &RenderContext, abs: Vec2) -> (r: Vec2)
        requires
            ctx.wf(),
            -4 * (COORD_LIMIT as int) <= abs.x as int <= 4 * (COORD_LIMIT as int),
            -4 * (COORD_LIMIT as int) <= abs.y as int <= 4 * (COORD_LIMIT as int),
        ensures
            !area_is_valid(*ctx, *self) ==> r == abs,
            *self matches Area::View(va) ==> (area_is_valid(*ctx, *self) ==> {
                let v = ctx.views@[va.view_id as int];
                &&& r.x as int == abs.x - v.rect.pos.x + v.parent_scroll.x + v.unsnapped_scroll.x
                &&& r.y as int == abs.y - v.rect.pos.y + v.parent_scroll.y + v.unsnapped_scroll.y
            }),
            *self matches Area::Instance(ia) ==> ((area_is_valid(*ctx, *self)
                && instance_pos_readable(*ctx, ia)) ==> {
                let dc = instance_call(*ctx, ia);
                let buf = dc.instances->Some_0@;
                let rp = ia.instance_offset + (instance_mapping(*ctx, ia).rect_pos->Some_0 as int);
                &&& r.x as int == abs.x - buf[rp] + dc.draw_scroll.x
                &&& r.y as int == abs.y - buf[rp + 1] + dc.draw_scroll.y
            }),
            *self matches Area::Instance(ia) ==> ((area_is_valid(*ctx, *self)
                && !instance_pos_readable(*ctx, ia)) ==> r == abs),
    {
        match self {
            Area::Instance(inst) => {
                if inst.instance_count == 0 {
                    return abs;
                }
                if inst.view_id >= ctx.views.len() {
                    return abs;
                }
                let cxview = &ctx.views[inst.view_id];
                if cxview.redraw_id != inst.redraw_id {
                    return abs;
                }
                if inst.draw_item_id >= cxview.draw_items.len() {
                    return abs;
                }
                let draw_call = match &cxview.draw_items[inst.draw_item_id].draw_call {
                    Some(dc) => dc,
                    None => {
                        return abs;
                    },
                };
                let sh = &ctx.draw_shaders[draw_call.shader_id];
                let rect_pos = match sh.rect_pos {
                    Some(o) => o,
                    None => {
                        return abs;
                    },
                };
                let buf = match &draw_call.instances {
                    Some(b) => b,
                    None => {
                        return abs;
                    },
                };
                if inst.instance_offset >= buf.len() {
                    return abs;
                }
                if rect_pos + 1 >= buf.len() - inst.instance_offset {
                    return abs;
                }
                let x = buf[inst.instance_offset + rect_pos];
                let y = buf[inst.instance_offset + rect_pos + 1];
                Vec2 {
                    x: abs.x - x + draw_call.draw_scroll.x,
                    y: abs.y - y + draw_call.draw_scroll.y,
                }
            },
            Area::View(view_area) => {
                if view_area.view_id >= ctx.views.len() {
                    return abs;
                }
                let cxview = &ctx.views[view_area.view_id];
                if cxview.redraw_id != view_area.redraw_id {
                    return abs;
                }
                Vec2 {
                    x: abs.x - cxview.rect.pos.x + cxview.parent_scroll.x
                        + cxview.unsnapped_scroll.x,
                    y: abs.y - cxview.rect.pos.y + cxview.parent_scroll.y
                        + cxview.unsnapped_scroll.y,
                }
            },
            _ => abs,
        }
    }

    /// Write a rectangle back through the handle: a view handle overwrites
    /// its view's rectangle, an instance handle writes the position and
    /// size fields of its first record, each only where the shader declares
    /// it. A stale handle is a no-op. No dirty flag is touched: the
    /// rectangle fields are addressed directly, unlike uniform writes.
    pub fn set_rect(&self, ctx: &mut RenderContext, rect: &Rect)
        requires
            old(ctx).wf(),
            rect.wf(),
        ensures
            final(ctx).wf(),
            !area_is_valid(*old(ctx), *self) ==> *final(ctx) == *old(ctx),
            *self matches Area::View(va) ==> (area_is_valid(*old(ctx), *self) ==> {
                &&& final(ctx).views@ == old(ctx).views@.update(
                    va.view_id as int,
                    ViewNode { rect: *rect, ..old(ctx).views@[va.view_id as int] },
                )
                &&& RenderContext::same_but_views(*old(ctx), *final(ctx))
            }),
            *self matches Area::Instance(ia) ==> ((area_is_valid(*old(ctx), *self)
                && instance_target_ok(*old(ctx), ia) && instance_call(*old(ctx), ia).instances
                 is Some) ==> {
                let oview = old(ctx).views@[ia.view_id as int];
                let odc = instance_call(*old(ctx), ia);
                let nview = final(ctx).views@[ia.view_id as int];
                &&& RenderContext::views_same_except(
                    old(ctx).views@,
                    final(ctx).views@,
                    ia.view_id as int,
                )
                &&& ViewNode::same_but_items(oview, nview)
                &&& nview.draw_items@.len() == oview.draw_items@.len()
                &&& forall|k: int|
                    0 <= k < oview.draw_items@.len() && k != ia.draw_item_id as int
                        ==> nview.draw_items@[k] == oview.draw_items@[k]
                &&& nview.draw_items@[ia.draw_item_id as int].draw_call matches Some(ndc) && {
                    &&& DrawCall::same_but_instances(odc, ndc)
                    &&& ndc.instances matches Some(nb) && nb@ == rect_written_buf(
                        odc.instances->Some_0@,
                        instance_mapping(*old(ctx), ia),
                        ia.instance_offset as int,
                        *rect,
                    )
                }
                &&& RenderContext::same_but_views(*old(ctx), *final(ctx))
            }),
            *self matches Area::Instance(ia) ==> ((area_is_valid(*old(ctx), *self) && !(
            instance_target_ok(*old(ctx), ia) && instance_call(*old(ctx), ia).instances is Some))
                ==> *final(ctx) == *old(ctx)),
    {
        match self {
            Area::Instance(inst) => {
                if inst.instance_count == 0 {
                    return ;
                }
                if inst.view_id >= ctx.views.len() {
                    return ;
                }
                if ctx.views[inst.view_id].redraw_id != inst.redraw_id {
                    return ;
                }
                if inst.draw_item_id >= ctx.views[inst.view_id].draw_items.len() {
                    return ;
                }
                let shader_id = match &ctx.views[inst.view_id].draw_items[inst.draw_item_id].draw_call {
                    Some(dc) => {
                        if dc.instances.is_none() {
                            return ;
                        }
                        dc.shader_id
                    },
                    None => {
                        return ;
                    },
                };
                let rect_pos = ctx.draw_shaders[shader_id].rect_pos;
                let rect_size = ctx.draw_shaders[shader_id].rect_size;
                let view = &mut ctx.views[inst.view_id];
                let item = &mut view.draw_items[inst.draw_item_id];
                if let Some(draw_call) = &mut item.draw_call {
                    if let Some(buf) = &mut draw_call.instances {
                        if let Some(rp) = rect_pos {
                            if inst.instance_offset < buf.len() && rp + 1 < buf.len()
                                - inst.instance_offset {
                                buf[inst.instance_offset + rp] = rect.pos.x;
                                buf[inst.instance_offset + rp + 1] = rect.pos.y;
                            }
                        }
                        if let Some(rs) = rect_size {
                            if inst.instance_offset < buf.len() && rs + 1 < buf.len()
                                - inst.instance_offset {
                                buf[inst.instance_offset + rs] = rect.size.x;
                                buf[inst.instance_offset + rs + 1] = rect.size.y;
                            }
                        }
                    }
                }
                proof {
                    assert forall|i: int|
                        0 <= i < ctx.views@.len() implies ctx.view_wf(
                        #[trigger] ctx.views@[i],
                    ) by {
                        if i != inst.view_id as int {
                            assert(old(ctx).view_wf(old(ctx).views@[i]));
                        } else {
                            let ov = old(ctx).views@[i];
                            let nv = ctx.views@[i];
                            assert(old(ctx).view_wf(ov));
                            assert forall|k: int|
                                0 <= k < nv.draw_items@.len() implies ctx.draw_item_wf(
                                #[trigger] nv.draw_items@[k],
                            ) by {
                                assert(old(ctx).draw_item_wf(ov.draw_items@[k]));
                            }
                        }
                    }
                }
            },
            Area::View(view_area) => {
                if view_area.view_id >= ctx.views.len() {
                    return ;
                }
                if ctx.views[view_area.view_id].redraw_id != view_area.redraw_id {
                    return ;
                }
                let view = &mut ctx.views[view_area.view_id];
                view.rect = *rect;
                proof {
                    assert(final(ctx).views@ =~= old(ctx).views@.update(
                        view_area.view_id as int,
                        ViewNode { rect: *rect, ..old(ctx).views@[view_area.view_id as int] },
                    ));
                    assert forall|i: int|
                        0 <= i < ctx.views@.len() implies ctx.view_wf(
                        #[trigger] ctx.views@[i],
                    ) by {
                        if i != view_area.view_id as int {
                            assert(old(ctx).view_wf(old(ctx).views@[i]));
                        } else {
                            assert(old(ctx).view_wf(old(ctx).views@[i]));
                        }
                    }
                }
            },
            _ => (),
        }
    }

    /// Set scroll participation: a view handle sets its view's flags, an
    /// instance handle sets its draw call's flags. A stale handle is a
    /// no-op, not an error.
    pub fn set_do_scroll(&self, ctx: &mut RenderContext, hor: bool, ver: bool)
        requires
            old(ctx).wf(),
        ensures
            final(ctx).wf(),
            !area_is_valid(*old(ctx), *self) ==> *final(ctx) == *old(ctx),
            *self matches Area::View(va) ==> (area_is_valid(*old(ctx), *self) ==> {
                &&& final(ctx).views@ == old(ctx).views@.update(
                    va.view_id as int,
                    ViewNode {
                        do_h_scroll: hor,
                        do_v_scroll: ver,
                        ..old(ctx).views@[va.view_id as int]
                    },
                )
                &&& RenderContext::same_but_views(*old(ctx), *final(ctx))
            }),
            *self matches Area::Instance(ia) ==> ((area_is_valid(*old(ctx), *self)
                && instance_target_ok(*old(ctx), ia)) ==> {
                let oview = old(ctx).views@[ia.view_id as int];
                let nview = final(ctx).views@[ia.view_id as int];
                &&& RenderContext::views_same_except(
                    old(ctx).views@,
                    final(ctx).views@,
                    ia.view_id as int,
                )
                &&& ViewNode::same_but_items(oview, nview)
                &&& nview.draw_items@ == oview.draw_items@.update(
                    ia.draw_item_id as int,
                    DrawItem {
                        draw_call: Some(
                            DrawCall {
                                do_h_scroll: hor,
                                do_v_scroll: ver,
                                ..instance_call(*old(ctx), ia)
                            },
                        ),
                    },
                )
                &&& RenderContext::same_but_views(*old(ctx), *final(ctx))
            }),
            *self matches Area::Instance(ia) ==> ((area_is_valid(*old(ctx), *self)
                && !instance_target_ok(*old(ctx), ia)) ==> *final(ctx) == *old(ctx)),
    {
        match self {
            Area::Instance(inst) => {
                if inst.instance_count == 0 {
                    return ;
                }
                if inst.view_id >= ctx.views.len() {
                    return ;
                }
                if ctx.views[inst.view_id].redraw_id != inst.redraw_id {
                    return ;
                }
                if inst.draw_item_id >= ctx.views[inst.view_id].draw_items.len() {
                    return ;
                }
                if ctx.views[inst.view_id].draw_items[inst.draw_item_id].draw_call.is_none() {
                    return ;
                }
                let view = &mut ctx.views[inst.view_id];
                let item = &mut view.draw_items[inst.draw_item_id];
                if let Some(draw_call) = &mut item.draw_call {
                    draw_call.do_h_scroll = hor;
                    draw_call.do_v_scroll = ver;
                }
                proof {
                    if instance_target_ok(*old(ctx), *inst) {
                        assert(final(ctx).views@[inst.view_id as int].draw_items@ =~= old(
                            ctx,
                        ).views@[inst.view_id as int].draw_items@.update(
                            inst.draw_item_id as int,
                            DrawItem {
                                draw_call: Some(
                                    DrawCall {
                                        do_h_scroll: hor,
                                        do_v_scroll: ver,
                                        ..instance_call(*old(ctx), *inst)
                                    },
                                ),
                            },
                        ));
                    }
                    assert forall|i: int|
                        0 <= i < ctx.views@.len() implies ctx.view_wf(
                        #[trigger] ctx.views@[i],
                    ) by {
                        if i != inst.view_id as int {
                            assert(old(ctx).view_wf(old(ctx).views@[i]));
                        } else {
                            let ov = old(ctx).views@[i];
                            let nv = ctx.views@[i];
                            assert(old(ctx).view_wf(ov));
                            assert forall|k: int|
                                0 <= k < nv.draw_items@.len() implies ctx.draw_item_wf(
                                #[trigger] nv.draw_items@[k],
                            ) by {
                                assert(old(ctx).draw_item_wf(ov.draw_items@[k]));
                            }
                        }
                    }
                }
            },
            Area::View(view_area) => {
                if view_area.view_id >= ctx.views.len() {
                    return ;
                }
                if ctx.views[view_area.view_id].redraw_id != view_area.redraw_id {
                    return ;
                }
                let view = &mut ctx.views[view_area.view_id];
                view.do_h_scroll = hor;
                view.do_v_scroll = ver;
                proof {
                    assert(final(ctx).views@ =~= old(ctx).views@.update(
                        view_area.view_id as int,
                        ViewNode {
                            do_h_scroll: hor,
                            do_v_scroll: ver,
                            ..old(ctx).views@[view_area.view_id as int]
                        },
                    ));
                    assert forall|i: int|
                        0 <= i < ctx.views@.len() implies ctx.view_wf(
                        #[trigger] ctx.views@[i],
                    ) by {
                        assert(old(ctx).view_wf(old(ctx).views@[i]));
                    }
                }
            },
            _ => (),
        }
    }
}

impl RenderContext {
    /// Append one instance record to a draw call's buffer and hand back
    /// the generation-stamped handle referencing it. The record must have
    /// exactly the stride its shader declares.
    pub fn add_instance(&mut self, view_id: usize, draw_item_id: usize, data: &Vec<i64>) -> (r:
        Area)
        requires
            old(self).wf(),
            (view_id as int) < old(self).views@.len(),
            (draw_item_id as int) < old(self).views@[view_id as int].draw_items@.len(),
            old(self).views@[view_id as int].draw_items@[draw_item_id as int].draw_call matches Some(
                dc,
            ) && {
                &&& data@.len() == old(self).draw_shaders@[dc.shader_id as int].instances.total_slots
                &&& (match dc.instances {
                    Some(buf) => buf@.len() as int,
                    None => 0int,
                }) + data@.len() <= crate::mapping::BUF_LIMIT
            },
            crate::draw_call::slots_ok(data@),
        ensures
            final(self).wf(),
            r matches Area::Instance(ia) && {
                let odc =
                    old(self).views@[view_id as int].draw_items@[draw_item_id as int].draw_call->Some_0;
                let obuf = match odc.instances {
                    Some(buf) => buf@,
                    None => Seq::<i64>::empty(),
                };
                &&& ia.view_id == view_id
                &&& ia.draw_item_id == draw_item_id
                &&& ia.instance_offset == obuf.len()
                &&& ia.instance_count == 1
                &&& ia.redraw_id == old(self).views@[view_id as int].redraw_id
                &&& area_is_valid(*final(self), r)
                &&& instance_target_ok(*final(self), ia)
                &&& RenderContext::views_same_except(
                    old(self).views@,
                    final(self).views@,
                    view_id as int,
                )
                &&& ViewNode::same_but_items(
                    old(self).views@[view_id as int],
                    final(self).views@[view_id as int],
                )
                &&& ({
                    let oitems = old(self).views@[view_id as int].draw_items@;
                    let nitems = final(self).views@[view_id as int].draw_items@;
                    &&& nitems.len() == oitems.len()
                    &&& forall|k: int|
                        0 <= k < oitems.len() && k != draw_item_id as int ==> nitems[k]
                            == oitems[k]
                    &&& nitems[draw_item_id as int].draw_call matches Some(ndc) && {
                        &&& DrawCall::same_but_instances(odc, ndc)
                        &&& ndc.instances matches Some(nb) && nb@ == obuf + data@
                    }
                })
                &&& RenderContext::same_but_views(*old(self), *final(self))
            },
    {
        let view = &mut self.views[view_id];
        let generation = view.redraw_id;
        let item = &mut view.draw_items[draw_item_id];
        let mut offset: usize = 0;
        match &mut item.draw_call {
            Some(draw_call) => {
                match &mut draw_call.instances {
                    Some(buf) => {
                        offset = buf.len();
                        let ghost obuf = buf@;
                        let mut i: usize = 0;
                        while i < data.len()
                            invariant
                                i <= data@.len(),
                                buf@ == obuf + data@.subrange(0, i as int),
                            decreases data@.len() - i,
                        {
                            buf.push(data[i]);
                            proof {
                                assert(data@.subrange(0, i + 1 as int) == data@.subrange(
                                    0,
                                    i as int,
                                ).push(data@[i as int]));
                            }
                            i += 1;
                        }
                        proof {
                            assert(data@.subrange(0, data@.len() as int) == data@);
                        }
                    },
                    None => {
                        let mut fresh: Vec<i64> = Vec::new();
                        let mut i: usize = 0;
                        while i < data.len()
                            invariant
                                i <= data@.len(),
                                fresh@ == data@.subrange(0, i as int),
                            decreases data@.len() - i,
                        {
                            fresh.push(data[i]);
                            proof {
                                assert(data@.subrange(0, i + 1 as int) == data@.subrange(
                                    0,
                                    i as int,
                                ).push(data@[i as int]));
                            }
                            i += 1;
                        }
                        proof {
                            assert(data@.subrange(0, data@.len() as int) == data@);
                            assert(Seq::<i64>::empty() + data@ == data@);
                        }
                        draw_call.instances = Some(fresh);
                    },
                }
            },
            None => {
                proof {
                    assert(false);
                }
            },
        }
        proof {
            assert forall|i: int|
                0 <= i < self.views@.len() implies self.view_wf(#[trigger] self.views@[i]) by {
                if i != view_id as int {
                    assert(old(self).view_wf(old(self).views@[i]));
                } else {
                    let ov = old(self).views@[i];
                    let nv = self.views@[i];
                    assert(old(self).view_wf(ov));
                    assert forall|k: int|
                        0 <= k < nv.draw_items@.len() implies self.draw_item_wf(
                        #[trigger] nv.draw_items@[k],
                    ) by {
                        assert(old(self).draw_item_wf(ov.draw_items@[k]));
                    }
                }
            }
        }
        Area::Instance(
            InstanceArea {
                view_id,
                draw_item_id,
                instance_offset: offset,
                instance_count: 1,
                redraw_id: generation,
            },
        )
    }
}

} // verus!
