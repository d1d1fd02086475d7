//! The render context: owner of the view arena, the shader registry and the
//! render passes, and keeper of the global redraw generation.

use vstd::prelude::*;

use crate::draw_call::DrawCall;
use crate::draw_call::DrawItem;
use crate::geom::Rect;
use crate::geom::Vec2;
use crate::mapping::ShaderMapping;
use crate::view_node::Pass;
use crate::view_node::ViewNode;

verus! {

/// Owner of every view node, draw call and shader mapping, and of the
/// global redraw generation counter.
#[derive(Clone, Debug)]
pub struct RenderContext {
    pub views: Vec<ViewNode>,
    pub draw_shaders: Vec<ShaderMapping>,
    pub passes: Vec<Pass>,
    /// The generation stamped onto views rebuilt in the current frame.
    pub redraw_id: u64,
}

impl RenderContext {
    /// A draw item either is empty or carries a draw call that points into
    /// the shader registry and is well-formed for its shader.
    pub open spec fn draw_item_wf(self, item: DrawItem) -> bool {
        item.draw_call matches Some(dc) ==> {
            &&& (dc.shader_id as int) < self.draw_shaders@.len()
            &&& dc.wf(self.draw_shaders@[dc.shader_id as int])
        }
    }

    /// A view node points into the pass registry, carries bounded geometry,
    /// was stamped no later than the current generation, and holds only
    /// well-formed draw items.
    pub open spec fn view_wf(self, v: ViewNode) -> bool {
        &&& v.rect.wf()
        &&& v.parent_scroll.wf()
        &&& v.snapped_scroll.wf()
        &&& v.unsnapped_scroll.wf()
        &&& (v.pass_id as int) < self.passes@.len()
        &&& v.redraw_id <= self.redraw_id
        &&& forall|k: int|
            0 <= k < v.draw_items@.len() ==> self.draw_item_wf(#[trigger] v.draw_items@[k])
    }

    /// Well-formedness of the whole arena; established by `new` and
    /// preserved by every mutating operation.
    pub open spec fn wf(self) -> bool {
        &&& forall|i: int|
            0 <= i < self.views@.len() ==> self.view_wf(#[trigger] self.views@[i])
        &&& forall|s: int|
            0 <= s < self.draw_shaders@.len() ==> (#[trigger] self.draw_shaders@[s]).wf()
    }

    /// The registries and the generation agree between `o` and `n`; only
    /// view contents may differ.
    pub open spec fn same_but_views(o: RenderContext, n: RenderContext) -> bool {
        &&& n.draw_shaders@ == o.draw_shaders@
        &&& n.passes@ == o.passes@
        &&& n.redraw_id == o.redraw_id
    }

    /// All views but `vid` agree between the view sequences `o` and `n`.
    pub open spec fn views_same_except(o: Seq<ViewNode>, n: Seq<ViewNode>, vid: int) -> bool {
        &&& n.len() == o.len()
        &&& forall|i: int| 0 <= i < o.len() && i != vid ==> n[i] == o[i]
    }

    /// An empty context at generation zero.
    pub fn new() -> (r: RenderContext)
        ensures
            r.views@.len() == 0,
            r.draw_shaders@.len() == 0,
            r.passes@.len() == 0,
            r.redraw_id == 0,
            r.wf(),
    {
        RenderContext {
            views: Vec::new(),
            draw_shaders: Vec::new(),
            passes: Vec::new(),
            redraw_id: 0,
        }
    }

    /// Advance the global generation at the start of a frame. Views rebuilt
    /// afterwards are stamped with the new generation, so handles captured
    /// earlier compare unequal against them.
    pub fn begin_frame(&mut self)
        requires
            old(self).wf(),
            old(self).redraw_id < u64::MAX,
        ensures
            final(self).redraw_id == old(self).redraw_id + 1,
            final(self).views@ == old(self).views@,
            final(self).draw_shaders@ == old(self).draw_shaders@,
            final(self).passes@ == old(self).passes@,
            final(self).wf(),
    {
        self.redraw_id = self.redraw_id + 1;
        proof {
            assert forall|i: int|
                0 <= i < self.views@.len() implies self.view_wf(#[trigger] self.views@[i]) by {
                assert(old(self).view_wf(old(self).views@[i]));
            }
        }
    }

    /// Register a render pass, returning its id.
    pub fn add_pass(&mut self) -> (pass_id: usize)
        requires
            old(self).wf(),
        ensures
            pass_id == old(self).passes@.len(),
            final(self).passes@ == old(self).passes@.push(Pass { paint_dirty: false }),
            final(self).views@ == old(self).views@,
            final(self).draw_shaders@ == old(self).draw_shaders@,
            final(self).redraw_id == old(self).redraw_id,
            final(self).wf(),
    {
        let pass_id = self.passes.len();
        self.passes.push(Pass { paint_dirty: false });
        proof {
            assert forall|i: int|
                0 <= i < self.views@.len() implies self.view_wf(#[trigger] self.views@[i]) by {
                assert(old(self).view_wf(old(self).views@[i]));
            }
        }
        pass_id
    }

    /// Register a compiled shader's mapping, returning its id.
    pub fn add_shader(&mut self, mapping: ShaderMapping) -> (shader_id: usize)
        requires
            old(self).wf(),
            mapping.wf(),
        ensures
            shader_id == old(self).draw_shaders@.len(),
            final(self).draw_shaders@ == old(self).draw_shaders@.push(mapping),
            final(self).views@ == old(self).views@,
            final(self).passes@ == old(self).passes@,
            final(self).redraw_id == old(self).redraw_id,
            final(self).wf(),
    {
        let shader_id = self.draw_shaders.len();
        self.draw_shaders.push(mapping);
        proof {
            assert forall|i: int|
                0 <= i < self.views@.len() implies self.view_wf(#[trigger] self.views@[i]) by {
                let v = self.views@[i];
                assert(old(self).view_wf(v));
                assert forall|k: int|
                    0 <= k < v.draw_items@.len() implies self.draw_item_wf(
                    #[trigger] v.draw_items@[k],
                ) by {
                    assert(old(self).draw_item_wf(v.draw_items@[k]));
                }
            }
        }
        shader_id
    }

    /// Create a view node in pass `pass_id`, stamped with the current
    /// generation and with no draw items yet.
    pub fn add_view(&mut self, pass_id: usize) -> (view_id: usize)
        requires
            old(self).wf(),
            (pass_id as int) < old(self).passes@.len(),
        ensures
            view_id == old(self).views@.len(),
            final(self).views@.len() == old(self).views@.len() + 1,
            forall|i: int|
                0 <= i < old(self).views@.len() ==> final(self).views@[i] == old(self).views@[i],
            final(self).views@[view_id as int].pass_id == pass_id,
            final(self).views@[view_id as int].redraw_id == old(self).redraw_id,
            final(self).views@[view_id as int].draw_items@.len() == 0,
            final(self).views@[view_id as int].rect == Rect::zero_spec(),
            final(self).views@[view_id as int].parent_scroll == (Vec2 { x: 0i64, y: 0i64 }),
            final(self).views@[view_id as int].snapped_scroll == (Vec2 { x: 0i64, y: 0i64 }),
            final(self).views@[view_id as int].unsnapped_scroll == (Vec2 { x: 0i64, y: 0i64 }),
            Self::same_but_views(*old(self), *final(self)),
            final(self).wf(),
    {
        let view_id = self.views.len();
        let node = ViewNode {
            rect: Rect::zero(),
            parent_scroll: Vec2::zero(),
            snapped_scroll: Vec2::zero(),
            unsnapped_scroll: Vec2::zero(),
            do_h_scroll: false,
            do_v_scroll: false,
            draw_items: Vec::new(),
            pass_id,
            redraw_id: self.redraw_id,
        };
        self.views.push(node);
        proof {
            assert forall|i: int|
                0 <= i < self.views@.len() implies self.view_wf(#[trigger] self.views@[i]) by {
                if i < old(self).views@.len() {
                    assert(old(self).view_wf(old(self).views@[i]));
                }
            }
        }
        view_id
    }

    /// Rebuild a view for the current frame: stamp it with the current
    /// generation and drop its draw items, to be repopulated afterwards.
    /// The stamp changes strictly before any new draw call is added, so
    /// handles captured in earlier generations already compare stale.
    pub fn rebuild_view(&mut self, view_id: usize)
        requires
            old(self).wf(),
            (view_id as int) < old(self).views@.len(),
        ensures
            Self::views_same_except(old(self).views@, final(self).views@, view_id as int),
            ViewNode::same_but_generation(
                old(self).views@[view_id as int],
                final(self).views@[view_id as int],
            ),
            final(self).views@[view_id as int].redraw_id == old(self).redraw_id,
            final(self).views@[view_id as int].draw_items@.len() == 0,
            Self::same_but_views(*old(self), *final(self)),
            final(self).wf(),
    {
        let generation = self.redraw_id;
        let view = &mut self.views[view_id];
        view.redraw_id = generation;
        view.draw_items = Vec::new();
        proof {
            assert forall|i: int|
                0 <= i < self.views@.len() implies self.view_wf(#[trigger] self.views@[i]) by {
                if i != view_id as int {
                    assert(old(self).view_wf(old(self).views@[i]));
                } else {
                    assert(old(self).view_wf(old(self).views@[view_id as int]));
                }
            }
        }
    }

    /// Overwrite a view's rectangle.
    pub fn set_view_rect(&mut self, view_id: usize, rect: Rect)
        requires
            old(self).wf(),
            (view_id as int) < old(self).views@.len(),
            rect.wf(),
        ensures
            final(self).views@ == old(self).views@.update(
                view_id as int,
                ViewNode { rect, ..old(self).views@[view_id as int] },
            ),
            Self::same_but_views(*old(self), *final(self)),
            final(self).wf(),
    {
        let view = &mut self.views[view_id];
        view.rect = rect;
        proof {
            assert(final(self).views@ =~= old(self).views@.update(
                view_id as int,
                ViewNode { rect, ..old(self).views@[view_id as int] },
            ));
            assert forall|i: int|
                0 <= i < self.views@.len() implies self.view_wf(#[trigger] self.views@[i]) by {
                if i != view_id as int {
                    assert(old(self).view_wf(old(self).views@[i]));
                } else {
                    assert(old(self).view_wf(old(self).views@[view_id as int]));
                }
            }
        }
    }

    /// Overwrite the scroll offset a view's parent chain propagated to it.
    pub fn set_view_parent_scroll(&mut self, view_id: usize, parent_scroll: Vec2)
        requires
            old(self).wf(),
            (view_id as int) < old(self).views@.len(),
            parent_scroll.wf(),
        ensures
            final(self).views@ == old(self).views@.update(
                view_id as int,
                ViewNode { parent_scroll, ..old(self).views@[view_id as int] },
            ),
            Self::same_but_views(*old(self), *final(self)),
            final(self).wf(),
    {
        let view = &mut self.views[view_id];
        view.parent_scroll = parent_scroll;
        proof {
            assert(final(self).views@ =~= old(self).views@.update(
                view_id as int,
                ViewNode { parent_scroll, ..old(self).views@[view_id as int] },
            ));
            assert forall|i: int|
                0 <= i < self.views@.len() implies self.view_wf(#[trigger] self.views@[i]) by {
                if i != view_id as int {
                    assert(old(self).view_wf(old(self).views@[i]));
                } else {
                    assert(old(self).view_wf(old(self).views@[view_id as int]));
                }
            }
        }
    }

    /// Overwrite a view's own scroll offset, snapped and unsnapped.
    pub fn set_view_scroll(&mut self, view_id: usize, snapped: Vec2, unsnapped: Vec2)
        requires
            old(self).wf(),
            (view_id as int) < old(self).views@.len(),
            snapped.wf(),
            unsnapped.wf(),
        ensures
            final(self).views@ == old(self).views@.update(
                view_id as int,
                ViewNode {
                    snapped_scroll: snapped,
                    unsnapped_scroll: unsnapped,
                    ..old(self).views@[view_id as int]
                },
            ),
            Self::same_but_views(*old(self), *final(self)),
            final(self).wf(),
    {
        let view = &mut self.views[view_id];
        view.snapped_scroll = snapped;
        view.unsnapped_scroll = unsnapped;
        proof {
            assert(final(self).views@ =~= old(self).views@.update(
                view_id as int,
                ViewNode {
                    snapped_scroll: snapped,
                    unsnapped_scroll: unsnapped,
                    ..old(self).views@[view_id as int]
                },
            ));
            assert forall|i: int|
                0 <= i < self.views@.len() implies self.view_wf(#[trigger] self.views@[i]) by {
                if i != view_id as int {
                    assert(old(self).view_wf(old(self).views@[i]));
                } else {
                    assert(old(self).view_wf(old(self).views@[view_id as int]));
                }
            }
        }
    }

    /// Append a draw call for shader `shader_id` to a view, returning the
    /// new draw item's id within that view.
    pub fn add_draw_call(&mut self, view_id: usize, shader_id: usize) -> (draw_item_id: usize)
        requires
            old(self).wf(),
            (view_id as int) < old(self).views@.len(),
            (shader_id as int) < old(self).draw_shaders@.len(),
        ensures
            draw_item_id == old(self).views@[view_id as int].draw_items@.len(),
            Self::views_same_except(old(self).views@, final(self).views@, view_id as int),
            ViewNode::same_but_items(
                old(self).views@[view_id as int],
                final(self).views@[view_id as int],
            ),
            final(self).views@[view_id as int].draw_items@.len() == draw_item_id + 1,
            forall|k: int|
                0 <= k < draw_item_id ==> final(self).views@[view_id as int].draw_items@[k] == old(
                    self,
                ).views@[view_id as int].draw_items@[k],
            final(self).views@[view_id as int].draw_items@[draw_item_id as int].draw_call
                matches Some(dc) && dc.shader_id == shader_id && dc.instances is None
                && !dc.uniforms_dirty && !dc.instance_dirty && !dc.do_h_scroll && !dc.do_v_scroll
                && dc.draw_scroll == (Vec2 { x: 0i64, y: 0i64 }) && dc.clip_min == (Vec2 {
                x: crate::geom::COORD_MIN,
                y: crate::geom::COORD_MIN,
            }) && dc.clip_max == (Vec2 { x: crate::geom::COORD_LIMIT, y: crate::geom::COORD_LIMIT })
                && dc.user_uniforms@.len() == old(
                self,
            ).draw_shaders@[shader_id as int].user_uniforms.total_slots && (forall|j: int|
                0 <= j < dc.user_uniforms@.len() ==> (#[trigger] dc.user_uniforms@[j]) == 0i64),
            Self::same_but_views(*old(self), *final(self)),
            final(self).wf(),
    {
        let uniform_slots = self.draw_shaders[shader_id].user_uniforms.total_slots;
        let call = DrawCall::new(shader_id, uniform_slots);
        let view = &mut self.views[view_id];
        let draw_item_id = view.draw_items.len();
        view.draw_items.push(DrawItem { draw_call: Some(call) });
        proof {
            assert forall|i: int|
                0 <= i < self.views@.len() implies self.view_wf(#[trigger] self.views@[i]) by {
                if i != view_id as int {
                    assert(old(self).view_wf(old(self).views@[i]));
                } else {
                    let ov = old(self).views@[i];
                    let nv = self.views@[i];
                    assert(old(self).view_wf(ov));
                    assert forall|k: int|
                        0 <= k < nv.draw_items@.len() implies self.draw_item_wf(
                        #[trigger] nv.draw_items@[k],
                    ) by {
                        if k < ov.draw_items@.len() {
                            assert(old(self).draw_item_wf(ov.draw_items@[k]));
                        }
                    }
                }
            }
        }
        draw_item_id
    }

    /// Overwrite the accumulated scroll uniform of one draw call.
    pub fn set_draw_scroll(&mut self, view_id: usize, draw_item_id: usize, scroll: Vec2)
        requires
            old(self).wf(),
            (view_id as int) < old(self).views@.len(),
            (draw_item_id as int) < old(self).views@[view_id as int].draw_items@.len(),
            old(self).views@[view_id as int].draw_items@[draw_item_id as int].draw_call is Some,
            scroll.wf(),
        ensures
            Self::views_same_except(old(self).views@, final(self).views@, view_id as int),
            ViewNode::same_but_items(
                old(self).views@[view_id as int],
                final(self).views@[view_id as int],
            ),
            final(self).views@[view_id as int].draw_items@ == old(
                self,
            ).views@[view_id as int].draw_items@.update(
                draw_item_id as int,
                DrawItem {
                    draw_call: Some(
                        DrawCall {
                            draw_scroll: scroll,
                            ..old(
                                self,
                            ).views@[view_id as int].draw_items@[draw_item_id as int].draw_call->Some_0
                        },
                    ),
                },
            ),
            Self::same_but_views(*old(self), *final(self)),
            final(self).wf(),
    {
        let view = &mut self.views[view_id];
        let item = &mut view.draw_items[draw_item_id];
        if let Some(call) = &mut item.draw_call {
            call.draw_scroll = scroll;
        }
        proof {
            assert(final(self).views@[view_id as int].draw_items@ =~= old(
                self,
            ).views@[view_id as int].draw_items@.update(
                draw_item_id as int,
                DrawItem {
                    draw_call: Some(
                        DrawCall {
                            draw_scroll: scroll,
                            ..old(
                                self,
                            ).views@[view_id as int].draw_items@[draw_item_id as int].draw_call->Some_0
                        },
                    ),
                },
            ));
            assert forall|i: int|
                0 <= i < self.views@.len() implies self.view_wf(#[trigger] self.views@[i]) by {
                if i != view_id as int {
                    assert(old(self).view_wf(old(self).views@[i]));
                } else {
                    let ov = old(self).views@[i];
                    let nv = self.views@[i];
                    assert(old(self).view_wf(ov));
                    assert forall|k: int|
                        0 <= k < nv.draw_items@.len() implies self.draw_item_wf(
                        #[trigger] nv.draw_items@[k],
                    ) by {
                        assert(old(self).draw_item_wf(ov.draw_items@[k]));
                    }
                }
            }
        }
    }

    /// Overwrite the accumulated clip rectangle of one draw call.
    pub fn set_draw_clip(&mut self, view_id: usize, draw_item_id: usize, clip_min: Vec2, clip_max: Vec2)
        requires
            old(self).wf(),
            (view_id as int) < old(self).views@.len(),
            (draw_item_id as int) < old(self).views@[view_id as int].draw_items@.len(),
            old(self).views@[view_id as int].draw_items@[draw_item_id as int].draw_call is Some,
            clip_min.wf(),
            clip_max.wf(),
            clip_min.x <= clip_max.x,
            clip_min.y <= clip_max.y,
        ensures
            Self::views_same_except(old(self).views@, final(self).views@, view_id as int),
            ViewNode::same_but_items(
                old(self).views@[view_id as int],
                final(self).views@[view_id as int],
            ),
            final(self).views@[view_id as int].draw_items@ == old(
                self,
            ).views@[view_id as int].draw_items@.update(
                draw_item_id as int,
                DrawItem {
                    draw_call: Some(
                        DrawCall {
                            clip_min,
                            clip_max,
                            ..old(
                                self,
                            ).views@[view_id as int].draw_items@[draw_item_id as int].draw_call->Some_0
                        },
                    ),
                },
            ),
            Self::same_but_views(*old(self), *final(self)),
            final(self).wf(),
    {
        let view = &mut self.views[view_id];
        let item = &mut view.draw_items[draw_item_id];
        if let Some(call) = &mut item.draw_call {
            call.clip_min = clip_min;
            call.clip_max = clip_max;
        }
        proof {
            assert(final(self).views@[view_id as int].draw_items@ =~= old(
                self,
            ).views@[view_id as int].draw_items@.update(
                draw_item_id as int,
                DrawItem {
                    draw_call: Some(
                        DrawCall {
                            clip_min,
                            clip_max,
                            ..old(
                                self,
                            ).views@[view_id as int].draw_items@[draw_item_id as int].draw_call->Some_0
                        },
                    ),
                },
            ));
            assert forall|i: int|
                0 <= i < self.views@.len() implies self.view_wf(#[trigger] self.views@[i]) by {
                if i != view_id as int {
                    assert(old(self).view_wf(old(self).views@[i]));
                } else {
                    let ov = old(self).views@[i];
                    let nv = self.views@[i];
                    assert(old(self).view_wf(ov));
                    assert forall|k: int|
                        0 <= k < nv.draw_items@.len() implies self.draw_item_wf(
                        #[trigger] nv.draw_items@[k],
                    ) by {
                        assert(old(self).draw_item_wf(ov.draw_items@[k]));
                    }
                }
            }
        }
    }
}

} // verus!
