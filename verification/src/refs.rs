//! Typed access to uniform and per-instance fields through area handles.
//!
//! Looking a field up by name can fail two ways that are programmer errors,
//! not data conditions: the field is absent from the shader mapping, or it
//! is declared with a different type. Both surface as `FieldError` so the
//! caller can fail fast. A stale handle, by contrast, quietly yields no
//! reference.

use vstd::prelude::*;

use crate::area::area_is_valid;
use crate::area::instance_call;
use crate::area::instance_mapping;
use crate::area::instance_target_ok;
use crate::area::Area;
use crate::context::RenderContext;
use crate::draw_call::DrawCall;
use crate::geom::coord_ok;
use crate::mapping::has_input;
use crate::mapping::input_at;
use crate::mapping::ShaderTy;
use crate::view_node::Pass;
use crate::view_node::ViewNode;

verus! {

/// A contract violation between shader authoring and accessing code.
#[derive(Clone, Copy, Debug, PartialEq, Eq, Structural)]
pub enum FieldError {
    /// The requested field is not declared by the shader mapping at all.
    FieldNotFound,
    /// The field is declared, but with a different type than requested.
    TypeMismatch,
}

/// A read-out field: `repeat` repeats of the field, `stride` slots apart,
/// starting at the beginning of `buffer`.
#[derive(Clone, Debug, PartialEq, Eq)]
pub struct DrawReadRef {
    pub repeat: usize,
    pub stride: usize,
    /// Copy of the backing storage from the field's first slot onwards.
    pub buffer: Vec<i64>,
}

/// Which storage of a draw call a write reference points into.
#[derive(Clone, Copy, Debug, PartialEq, Eq, Structural)]
pub enum WriteKind {
    Uniform,
    Instance,
}

/// A writable field: `repeat` repeats, `stride` slots apart, starting at
/// slot `start` of the draw call's uniform or instance storage. Writes go
/// back through the owning context, so obtaining the reference alone
/// already marked the pass dirty.
#[derive(Clone, Copy, Debug, PartialEq, Eq, Structural)]
pub struct DrawWriteRef {
    pub repeat: usize,
    pub stride: usize,
    pub view_id: usize,
    pub draw_item_id: usize,
    pub kind: WriteKind,
    /// First slot of the field inside the chosen storage.
    pub start: usize,
}

/// The storage a write reference points into.
pub open spec fn write_ref_buffer(ctx: RenderContext, w: DrawWriteRef) -> Seq<i64> {
    let dc = ctx.views@[w.view_id as int].draw_items@[w.draw_item_id as int].draw_call->Some_0;
    match w.kind {
        WriteKind::Uniform => dc.user_uniforms@,
        WriteKind::Instance => dc.instances->Some_0@,
    }
}

/// The write reference still points at existing storage.
pub open spec fn write_ref_backed(ctx: RenderContext, w: DrawWriteRef) -> bool {
    &&& (w.view_id as int) < ctx.views@.len()
    &&& (w.draw_item_id as int) < ctx.views@[w.view_id as int].draw_items@.len()
    &&& ctx.views@[w.view_id as int].draw_items@[w.draw_item_id as int].draw_call is Some
    &&& (w.kind matches WriteKind::Instance ==> ctx.views@[w.view_id as int].draw_items@[w.draw_item_id as int].draw_call->Some_0.instances is Some)
    &&& w.start <= write_ref_buffer(ctx, w).len()
}

impl DrawWriteRef {
    /// Runtime check of `write_ref_backed`, for callers outside the
    /// verified world.
    pub fn backed(&self, ctx: &RenderContext) -> (r: bool)
        ensures
            r == write_ref_backed(*ctx, *self),
    {
        if self.view_id >= ctx.views.len() {
            return false;
        }
        if self.draw_item_id >= ctx.views[self.view_id].draw_items.len() {
            return false;
        }
        match &ctx.views[self.view_id].draw_items[self.draw_item_id].draw_call {
            Some(dc) => match self.kind {
                WriteKind::Uniform => self.start <= dc.user_uniforms.len(),
                WriteKind::Instance => match &dc.instances {
                    Some(buf) => self.start <= buf.len(),
                    None => false,
                },
            },
            None => false,
        }
    }

    /// Read the slot `i` slots past the field's first slot.
    pub fn read_slot(&self, ctx: &RenderContext, i: usize) -> (r: i64)
        requires
            ctx.wf(),
            write_ref_backed(*ctx, *self),
            self.start + i < write_ref_buffer(*ctx, *self).len(),
        ensures
            r == write_ref_buffer(*ctx, *self)[self.start + i],
    {
        let dc = match &ctx.views[self.view_id].draw_items[self.draw_item_id].draw_call {
            Some(dc) => dc,
            None => {
                proof {
                    assert(false);
                }
                return 0;
            },
        };
        match self.kind {
            WriteKind::Uniform => dc.user_uniforms[self.start + i],
            WriteKind::Instance => match &dc.instances {
                Some(buf) => buf[self.start + i],
                None => {
                    proof {
                        assert(false);
                    }
                    0
                },
            },
        }
    }

    /// Write the slot `i` slots past the field's first slot, leaving every
    /// other slot and every other part of the context unchanged.
    pub fn write_slot(&self, ctx: &mut RenderContext, i: usize, v: i64)
        requires
            old(ctx).wf(),
            write_ref_backed(*old(ctx), *self),
            self.start + i < write_ref_buffer(*old(ctx), *self).len(),
            coord_ok(v as int),
        ensures
            final(ctx).wf(),
            write_ref_backed(*final(ctx), *self),
            write_ref_buffer(*final(ctx), *self) == write_ref_buffer(*old(ctx), *self).update(
                self.start + i,
                v,
            ),
            RenderContext::views_same_except(
                old(ctx).views@,
                final(ctx).views@,
                self.view_id as int,
            ),
            ViewNode::same_but_items(
                old(ctx).views@[self.view_id as int],
                final(ctx).views@[self.view_id as int],
            ),
            ({
                let oitems = old(ctx).views@[self.view_id as int].draw_items@;
                let nitems = final(ctx).views@[self.view_id as int].draw_items@;
                &&& nitems.len() == oitems.len()
                &&& forall|k: int|
                    0 <= k < oitems.len() && k != self.draw_item_id as int ==> nitems[k]
                        == oitems[k]
                &&& nitems[self.draw_item_id as int].draw_call matches Some(ndc) && (match self.kind {
                    WriteKind::Uniform => DrawCall::same_but_uniforms(
                        oitems[self.draw_item_id as int].draw_call->Some_0,
                        ndc,
                    ),
                    WriteKind::Instance => DrawCall::same_but_instances(
                        oitems[self.draw_item_id as int].draw_call->Some_0,
                        ndc,
                    ),
                })
            }),
            RenderContext::same_but_views(*old(ctx), *final(ctx)),
    {
        let view = &mut ctx.views[self.view_id];
        let item = &mut view.draw_items[self.draw_item_id];
        match &mut item.draw_call {
            Some(dc) => {
                match self.kind {
                    WriteKind::Uniform => {
                        dc.user_uniforms[self.start + i] = v;
                    },
                    WriteKind::Instance => {
                        match &mut dc.instances {
                            Some(buf) => {
                                buf[self.start + i] = v;
                            },
                            None => {
                                proof {
                                    assert(false);
                                }
                            },
                        }
                    },
                }
            },
            None => {
                proof {
                    assert(false);
                }
            },
        }
        proof {
            assert forall|idx: int|
                0 <= idx < ctx.views@.len() implies ctx.view_wf(#[trigger] ctx.views@[idx]) by {
                if idx != self.view_id as int {
                    assert(old(ctx).view_wf(old(ctx).views@[idx]));
                } else {
                    let ov = old(ctx).views@[idx];
                    let nv = ctx.views@[idx];
                    assert(old(ctx).view_wf(ov));
                    assert forall|k: int|
                        0 <= k < nv.draw_items@.len() implies ctx.draw_item_wf(
                        #[trigger] nv.draw_items@[k],
                    ) by {
                        assert(old(ctx).draw_item_wf(ov.draw_items@[k]));
                    }
                }
            }
        }
    }
}

impl Area {
    /// Look up the field `id` of the handle's draw call, first among the
    /// user uniforms, then among the per-instance inputs, and hand back a
    /// read-out copy of its storage. A handle that is stale, not an
    /// instance handle, or whose buffer no longer covers the run yields
    /// `Ok(None)`. An absent field or a mismatched declared type is a
    /// programmer error and yields the distinguishing `FieldError`.
    pub fn get_read_ref(&self, ctx: &RenderContext, id: u64, ty: ShaderTy) -> (r: Result<
        Option<DrawReadRef>,
        FieldError,
    >)
        requires
            ctx.wf(),
        ensures
            !(*self matches Area::Instance(ia) && area_is_valid(*ctx, *self)
                && instance_target_ok(*ctx, ia)) ==> (r matches Ok(o) && o is None),
            *self matches Area::Instance(ia) ==> ((area_is_valid(*ctx, *self)
                && instance_target_ok(*ctx, ia)) ==> {
                let m = instance_mapping(*ctx, ia);
                let dc = instance_call(*ctx, ia);
                let uu = m.user_uniforms.inputs@;
                let ii = m.instances.inputs@;
                &&& (has_input(uu, id) && input_at(uu, id).ty != ty) ==> (r matches Err(e) && e
                    == FieldError::TypeMismatch)
                &&& (has_input(uu, id) && input_at(uu, id).ty == ty) ==> (r matches Ok(o) && o
                    matches Some(rr) && rr.repeat == 1 && rr.stride == 0 && rr.buffer@
                    == dc.user_uniforms@.skip(input_at(uu, id).offset as int))
                &&& (!has_input(uu, id) && has_input(ii, id) && input_at(ii, id).ty != ty) ==> (r
                    matches Err(e) && e == FieldError::TypeMismatch)
                &&& (!has_input(uu, id) && has_input(ii, id) && input_at(ii, id).ty == ty) ==> {
                    if dc.instances matches Some(buf) && ia.instance_offset + (input_at(
                        ii,
                        id,
                    ).offset as int) <= buf@.len() {
                        r matches Ok(o) && o matches Some(rr) && rr.repeat == ia.instance_count
                            && rr.stride == m.instances.total_slots && rr.buffer@
                            == dc.instances->Some_0@.skip(
                            ia.instance_offset + (input_at(ii, id).offset as int),
                        )
                    } else {
                        r matches Ok(o) && o is None
                    }
                }
                &&& (!has_input(uu, id) && !has_input(ii, id)) ==> (r matches Err(e) && e
                    == FieldError::FieldNotFound)
            }),
    {
        let inst = match self {
            Area::Instance(inst) => inst,
            _ => {
                return Ok(None);
            },
        };
        if inst.instance_count == 0 {
            return Ok(None);
        }
        if inst.view_id >= ctx.views.len() {
            return Ok(None);
        }
        let cxview = &ctx.views[inst.view_id];
        if cxview.redraw_id != inst.redraw_id {
            return Ok(None);
        }
        if inst.draw_item_id >= cxview.draw_items.len() {
            return Ok(None);
        }
        let draw_call = match &cxview.draw_items[inst.draw_item_id].draw_call {
            Some(dc) => dc,
            None => {
                return Ok(None);
            },
        };
        let sh = &ctx.draw_shaders[draw_call.shader_id];
        if let Some(idx) = sh.user_uniforms.find(id) {
            let input = sh.user_uniforms.inputs[idx];
            if input.ty != ty {
                return Err(FieldError::TypeMismatch);
            }
            let buffer = copy_from(&draw_call.user_uniforms, input.offset);
            return Ok(Some(DrawReadRef { repeat: 1, stride: 0, buffer }));
        }
        if let Some(idx) = sh.instances.find(id) {
            let input = sh.instances.inputs[idx];
            if input.ty != ty {
                return Err(FieldError::TypeMismatch);
            }
            let buf = match &draw_call.instances {
                Some(b) => b,
                None => {
                    return Ok(None);
                },
            };
            if inst.instance_offset > buf.len() {
                return Ok(None);
            }
            if input.offset > buf.len() - inst.instance_offset {
                return Ok(None);
            }
            let buffer = copy_from(buf, inst.instance_offset + input.offset);
            return Ok(
                Some(
                    DrawReadRef {
                        repeat: inst.instance_count,
                        stride: sh.instances.total_slots,
                        buffer,
                    },
                ),
            );
        }
        Err(FieldError::FieldNotFound)
    }

    /// As `get_read_ref`, but hand back a writable reference, and mark the
    /// owning pass and the draw call dirty as soon as the field is found
    /// with the right type: the reference's mere existence counts as an
    /// intent to mutate, whether or not anything is written through it.
    /// `name` is the caller's label for the field in diagnostics.
    #[allow(unused_variables)]
    pub fn get_write_ref(&self, ctx: &mut RenderContext, id: u64, ty: ShaderTy, name: &str) -> (r:
        Result<Option<DrawWriteRef>, FieldError>)
        requires
            old(ctx).wf(),
        ensures
            final(ctx).wf(),
            !(*self matches Area::Instance(ia) && area_is_valid(*old(ctx), *self)
                && instance_target_ok(*old(ctx), ia)) ==> (r matches Ok(o) && o is None
                && *final(ctx) == *old(ctx)),
            *self matches Area::Instance(ia) ==> ((area_is_valid(*old(ctx), *self)
                && instance_target_ok(*old(ctx), ia)) ==> {
                let m = instance_mapping(*old(ctx), ia);
                let dc = instance_call(*old(ctx), ia);
                let uu = m.user_uniforms.inputs@;
                let ii = m.instances.inputs@;
                let pid = old(ctx).views@[ia.view_id as int].pass_id as int;
                &&& (has_input(uu, id) && input_at(uu, id).ty != ty) ==> (r matches Err(e) && e
                    == FieldError::TypeMismatch && *final(ctx) == *old(ctx))
                &&& (has_input(uu, id) && input_at(uu, id).ty == ty) ==> {
                    &&& r matches Ok(o) && o matches Some(w) && w == (DrawWriteRef {
                        repeat: 1,
                        stride: 0,
                        view_id: ia.view_id,
                        draw_item_id: ia.draw_item_id,
                        kind: WriteKind::Uniform,
                        start: input_at(uu, id).offset,
                    })
                    &&& dirtied(*old(ctx), *final(ctx), ia, true, false)
                    &&& write_ref_backed(*final(ctx), r->Ok_0->Some_0)
                    &&& write_ref_buffer(*final(ctx), r->Ok_0->Some_0) == dc.user_uniforms@
                    &&& input_at(uu, id).offset + input_at(uu, id).ty.slot_count()
                        <= dc.user_uniforms@.len()
                }
                &&& (!has_input(uu, id) && has_input(ii, id) && input_at(ii, id).ty != ty) ==> (r
                    matches Err(e) && e == FieldError::TypeMismatch && *final(ctx) == *old(ctx))
                &&& (!has_input(uu, id) && has_input(ii, id) && input_at(ii, id).ty == ty) ==> {
                    &&& dirtied(*old(ctx), *final(ctx), ia, false, true)
                    &&& (if dc.instances matches Some(buf) && ia.instance_offset + (input_at(
                        ii,
                        id,
                    ).offset as int) <= buf@.len() {
                        &&& r matches Ok(o) && o matches Some(w) && w == (DrawWriteRef {
                            repeat: ia.instance_count,
                            stride: m.instances.total_slots,
                            view_id: ia.view_id,
                            draw_item_id: ia.draw_item_id,
                            kind: WriteKind::Instance,
                            start: (ia.instance_offset + input_at(ii, id).offset) as usize,
                        })
                        &&& write_ref_backed(*final(ctx), r->Ok_0->Some_0)
                        &&& write_ref_buffer(*final(ctx), r->Ok_0->Some_0)
                            == dc.instances->Some_0@
                    } else {
                        r matches Ok(o) && o is None
                    })
                }
                &&& (!has_input(uu, id) && !has_input(ii, id)) ==> (r matches Err(e) && e
                    == FieldError::FieldNotFound && *final(ctx) == *old(ctx))
            }),
    {
        let inst = match self {
            Area::Instance(inst) => inst,
            _ => {
                return Ok(None);
            },
        };
        if inst.instance_count == 0 {
            return Ok(None);
        }
        if inst.view_id >= ctx.views.len() {
            return Ok(None);
        }
        if ctx.views[inst.view_id].redraw_id != inst.redraw_id {
            return Ok(None);
        }
        if inst.draw_item_id >= ctx.views[inst.view_id].draw_items.len() {
            return Ok(None);
        }
        let pass_id = ctx.views[inst.view_id].pass_id;
        let shader_id = match &ctx.views[inst.view_id].draw_items[inst.draw_item_id].draw_call {
            Some(dc) => dc.shader_id,
            None => {
                return Ok(None);
            },
        };
        let sh = &ctx.draw_shaders[shader_id];
        if let Some(idx) = sh.user_uniforms.find(id) {
            let input = sh.user_uniforms.inputs[idx];
            if input.ty != ty {
                return Err(FieldError::TypeMismatch);
            }
            ctx.passes[pass_id].paint_dirty = true;
            let view = &mut ctx.views[inst.view_id];
            let item = &mut view.draw_items[inst.draw_item_id];
            if let Some(draw_call) = &mut item.draw_call {
                draw_call.uniforms_dirty = true;
            }
            proof {
                preserve_wf_after_dirty(*old(ctx), *ctx, *inst);
            }
            return Ok(
                Some(
                    DrawWriteRef {
                        repeat: 1,
                        stride: 0,
                        view_id: inst.view_id,
                        draw_item_id: inst.draw_item_id,
                        kind: WriteKind::Uniform,
                        start: input.offset,
                    },
                ),
            );
        }
        let instance_idx = sh.instances.find(id);
        let total_slots = sh.instances.total_slots;
        if let Some(idx) = instance_idx {
            let input = sh.instances.inputs[idx];
            if input.ty != ty {
                return Err(FieldError::TypeMismatch);
            }
            ctx.passes[pass_id].paint_dirty = true;
            let view = &mut ctx.views[inst.view_id];
            let item = &mut view.draw_items[inst.draw_item_id];
            let mut slice_start: Option<usize> = None;
            if let Some(draw_call) = &mut item.draw_call {
                draw_call.instance_dirty = true;
                if let Some(buf) = &draw_call.instances {
                    if inst.instance_offset <= buf.len() && input.offset <= buf.len()
                        - inst.instance_offset {
                        slice_start = Some(inst.instance_offset + input.offset);
                    }
                }
            }
            proof {
                preserve_wf_after_dirty(*old(ctx), *ctx, *inst);
            }
            match slice_start {
                Some(start) => {
                    return Ok(
                        Some(
                            DrawWriteRef {
                                repeat: inst.instance_count,
                                stride: total_slots,
                                view_id: inst.view_id,
                                draw_item_id: inst.draw_item_id,
                                kind: WriteKind::Instance,
                                start,
                            },
                        ),
                    );
                },
                None => {
                    return Ok(None);
                },
            }
        }
        Err(FieldError::FieldNotFound)
    }
}

/// The context after a write reference into the run `ia` was handed out:
/// the owning pass is marked dirty, the draw call's matching dirty flag is
/// set, and nothing else changed.
pub open spec fn dirtied(
    o: RenderContext,
    n: RenderContext,
    ia: crate::area::InstanceArea,
    uniforms: bool,
    instances: bool,
) -> bool {
    let pid = o.views@[ia.view_id as int].pass_id as int;
    let oitems = o.views@[ia.view_id as int].draw_items@;
    let nitems = n.views@[ia.view_id as int].draw_items@;
    &&& n.passes@ == o.passes@.update(pid, Pass { paint_dirty: true })
    &&& n.draw_shaders@ == o.draw_shaders@
    &&& n.redraw_id == o.redraw_id
    &&& RenderContext::views_same_except(o.views@, n.views@, ia.view_id as int)
    &&& ViewNode::same_but_items(o.views@[ia.view_id as int], n.views@[ia.view_id as int])
    &&& nitems.len() == oitems.len()
    &&& forall|k: int|
        0 <= k < oitems.len() && k != ia.draw_item_id as int ==> nitems[k] == oitems[k]
    &&& nitems[ia.draw_item_id as int].draw_call matches Some(ndc) && {
        let odc = oitems[ia.draw_item_id as int].draw_call->Some_0;
        &&& DrawCall::same_but_dirty(odc, ndc)
        &&& ndc.uniforms_dirty == (odc.uniforms_dirty || uniforms)
        &&& ndc.instance_dirty == (odc.instance_dirty || instances)
    }
}

/// Setting dirty flags changes no length and no stored value, so the
/// arena's well-formedness carries over.
proof fn preserve_wf_after_dirty(o: RenderContext, n: RenderContext, ia: crate::area::InstanceArea)
    requires
        o.wf(),
        n.draw_shaders@ == o.draw_shaders@,
        n.passes@.len() == o.passes@.len(),
        n.redraw_id == o.redraw_id,
        RenderContext::views_same_except(o.views@, n.views@, ia.view_id as int),
        (ia.view_id as int) < o.views@.len() ==> {
            let ov = o.views@[ia.view_id as int];
            let nv = n.views@[ia.view_id as int];
            &&& ViewNode::same_but_items(ov, nv)
            &&& nv.draw_items@.len() == ov.draw_items@.len()
            &&& forall|k: int|
                0 <= k < ov.draw_items@.len() ==> ((#[trigger] nv.draw_items@[k]).draw_call
                    matches Some(ndc) ==> ov.draw_items@[k].draw_call matches Some(odc)
                    && DrawCall::same_but_dirty(odc, ndc))
        },
    ensures
        n.wf(),
{
    assert forall|i: int| 0 <= i < n.views@.len() implies n.view_wf(#[trigger] n.views@[i]) by {
        if i != ia.view_id as int {
            assert(o.view_wf(o.views@[i]));
        } else {
            let ov = o.views@[i];
            let nv = n.views@[i];
            assert(o.view_wf(ov));
            assert forall|k: int|
                0 <= k < nv.draw_items@.len() implies n.draw_item_wf(
                #[trigger] nv.draw_items@[k],
            ) by {
                assert(o.draw_item_wf(ov.draw_items@[k]));
            }
        }
    }
}

/// Copy of `v` from slot `start` to the end.
fn copy_from(v: &Vec<i64>, start: usize) -> (r: Vec<i64>)
    requires
        start <= v@.len(),
    ensures
        r@ == v@.skip(start as int),
{
    let mut r: Vec<i64> = Vec::new();
    let mut i: usize = start;
    while i < v.len()
        invariant
            start <= i <= v@.len(),
            r@ == v@.subrange(start as int, i as int),
        decreases v@.len() - i,
    {
        r.push(v[i]);
        proof {
            assert(v@.subrange(start as int, i + 1 as int) == v@.subrange(start as int, i as int).push(
                v@[i as int],
            ));
        }
        i += 1;
    }
    proof {
        assert(v@.skip(start as int) == v@.subrange(start as int, v@.len() as int));
    }
    r
}

} // verus!
