//! One shader batch inside a view: its instance buffer, uniform storage,
//! scroll/clip uniforms and dirty flags.

use vstd::prelude::*;

use crate::geom::clamp;
use crate::geom::coord_ok;
use crate::geom::Rect;
use crate::geom::Vec2;
use crate::mapping::ShaderMapping;
use crate::mapping::BUF_LIMIT;

verus! {

/// Every slot of `s` is a stored coordinate.
pub open spec fn slots_ok(s: Seq<i64>) -> bool {
    forall|i: int| 0 <= i < s.len() ==> coord_ok((#[trigger] s[i]) as int)
}

/// One shader invocation batch owned by a view.
#[derive(Clone, Debug)]
pub struct DrawCall {
    /// Index of the batch's shader mapping in the context's registry.
    pub shader_id: usize,
    /// Flat per-instance storage; absent before the first instance is drawn.
    pub instances: Option<Vec<i64>>,
    /// Scalar storage of the user uniform record.
    pub user_uniforms: Vec<i64>,
    /// Accumulated scroll uniform applied when this batch is drawn.
    pub draw_scroll: Vec2,
    /// Lower corner of the accumulated clip rectangle.
    pub clip_min: Vec2,
    /// Upper corner of the accumulated clip rectangle.
    pub clip_max: Vec2,
    /// Whether the batch follows horizontal scrolling.
    pub do_h_scroll: bool,
    /// Whether the batch follows vertical scrolling.
    pub do_v_scroll: bool,
    /// Set when a uniform write reference was handed out since last upload.
    pub uniforms_dirty: bool,
    /// Set when an instance write reference was handed out since last upload.
    pub instance_dirty: bool,
}

impl DrawCall {
    /// Well-formed with respect to the mapping `m` of its shader: the
    /// uniform record has exactly the declared stride, buffers are bounded
    /// and hold stored coordinates, and the clip corners are ordered.
    pub open spec fn wf(self, m: ShaderMapping) -> bool {
        &&& self.user_uniforms@.len() == m.user_uniforms.total_slots
        &&& slots_ok(self.user_uniforms@)
        &&& self.instances matches Some(buf) ==> buf@.len() <= BUF_LIMIT && slots_ok(buf@)
        &&& self.draw_scroll.wf()
        &&& self.clip_min.wf()
        &&& self.clip_max.wf()
        &&& self.clip_min.x <= self.clip_max.x
        &&& self.clip_min.y <= self.clip_max.y
    }

    /// All fields other than the instance buffer agree between `o` and `n`.
    pub open spec fn same_but_instances(o: DrawCall, n: DrawCall) -> bool {
        &&& n.shader_id == o.shader_id
        &&& n.user_uniforms@ == o.user_uniforms@
        &&& n.draw_scroll == o.draw_scroll
        &&& n.clip_min == o.clip_min
        &&& n.clip_max == o.clip_max
        &&& n.do_h_scroll == o.do_h_scroll
        &&& n.do_v_scroll == o.do_v_scroll
        &&& n.uniforms_dirty == o.uniforms_dirty
        &&& n.instance_dirty == o.instance_dirty
    }

    /// All fields other than the uniform record agree between `o` and `n`.
    pub open spec fn same_but_uniforms(o: DrawCall, n: DrawCall) -> bool {
        &&& n.shader_id == o.shader_id
        &&& n.instances == o.instances
        &&& n.draw_scroll == o.draw_scroll
        &&& n.clip_min == o.clip_min
        &&& n.clip_max == o.clip_max
        &&& n.do_h_scroll == o.do_h_scroll
        &&& n.do_v_scroll == o.do_v_scroll
        &&& n.uniforms_dirty == o.uniforms_dirty
        &&& n.instance_dirty == o.instance_dirty
    }

    /// All fields other than the two dirty flags agree between `o` and `n`.
    pub open spec fn same_but_dirty(o: DrawCall, n: DrawCall) -> bool {
        &&& n.shader_id == o.shader_id
        &&& n.instances == o.instances
        &&& n.user_uniforms@ == o.user_uniforms@
        &&& n.draw_scroll == o.draw_scroll
        &&& n.clip_min == o.clip_min
        &&& n.clip_max == o.clip_max
        &&& n.do_h_scroll == o.do_h_scroll
        &&& n.do_v_scroll == o.do_v_scroll
    }

    /// Horizontal clip-and-scroll of an edge at `v`.
    pub open spec fn clip_scroll_x(self, v: int) -> int {
        clamp(self.clip_min.x as int, self.clip_max.x as int, v - self.draw_scroll.x)
    }

    /// Vertical clip-and-scroll of an edge at `v`.
    pub open spec fn clip_scroll_y(self, v: int) -> int {
        clamp(self.clip_min.y as int, self.clip_max.y as int, v - self.draw_scroll.y)
    }

    /// The rectangle `(x, y, w, h)` translated by the accumulated scroll and
    /// intersected with the accumulated clip rectangle.
    pub open spec fn clip_and_scroll_spec(self, x: int, y: int, w: int, h: int) -> Rect {
        let x1 = self.clip_scroll_x(x);
        let y1 = self.clip_scroll_y(y);
        let x2 = self.clip_scroll_x(x + w);
        let y2 = self.clip_scroll_y(y + h);
        Rect {
            pos: Vec2 { x: x1 as i64, y: y1 as i64 },
            size: Vec2 { x: (x2 - x1) as i64, y: (y2 - y1) as i64 },
        }
    }

    /// Translate the rectangle `(x, y, w, h)` by the accumulated scroll and
    /// intersect it with the accumulated clip rectangle.
    pub fn clip_and_scroll_rect(&self, x: i64, y: i64, w: i64, h: i64) -> (r: Rect)
        requires
            coord_ok(x as int),
            coord_ok(y as int),
            coord_ok(w as int),
            coord_ok(h as int),
            self.draw_scroll.wf(),
            self.clip_min.wf(),
            self.clip_max.wf(),
            self.clip_min.x <= self.clip_max.x,
            self.clip_min.y <= self.clip_max.y,
        ensures
            r == self.clip_and_scroll_spec(x as int, y as int, w as int, h as int),
            r.wf(),
            coord_ok(r.size.x as int) && coord_ok(r.size.y as int),
    {
        let x1 = Self::clamp_exec(self.clip_min.x, self.clip_max.x, x - self.draw_scroll.x);
        let y1 = Self::clamp_exec(self.clip_min.y, self.clip_max.y, y - self.draw_scroll.y);
        let x2 = Self::clamp_exec(self.clip_min.x, self.clip_max.x, x + w - self.draw_scroll.x);
        let y2 = Self::clamp_exec(self.clip_min.y, self.clip_max.y, y + h - self.draw_scroll.y);
        Rect { pos: Vec2 { x: x1, y: y1 }, size: Vec2 { x: x2 - x1, y: y2 - y1 } }
    }

    fn clamp_exec(lo: i64, hi: i64, v: i64) -> (r: i64)
        requires
            coord_ok(lo as int),
            coord_ok(hi as int),
            -4 * (crate::geom::COORD_LIMIT as int) <= v as int <= 4 * (
            crate::geom::COORD_LIMIT as int),
        ensures
            r == clamp(lo as int, hi as int, v as int),
    {
        if v < lo {
            lo
        } else if hi < v {
            hi
        } else {
            v
        }
    }

    /// A fresh, empty batch for shader `shader_id`, with an all-zero uniform
    /// record of `uniform_slots` slots and the clip open to the whole
    /// coordinate range.
    pub fn new(shader_id: usize, uniform_slots: usize) -> (r: DrawCall)
        ensures
            r.shader_id == shader_id,
            r.instances is None,
            r.user_uniforms@.len() == uniform_slots,
            forall|i: int| 0 <= i < uniform_slots ==> (#[trigger] r.user_uniforms@[i]) == 0i64,
            r.draw_scroll == (Vec2 { x: 0i64, y: 0i64 }),
            r.clip_min == (Vec2 { x: crate::geom::COORD_MIN, y: crate::geom::COORD_MIN }),
            r.clip_max == (Vec2 { x: crate::geom::COORD_LIMIT, y: crate::geom::COORD_LIMIT }),
            !r.do_h_scroll && !r.do_v_scroll,
            !r.uniforms_dirty && !r.instance_dirty,
    {
        let mut uniforms: Vec<i64> = Vec::new();
        let mut i: usize = 0;
        while i < uniform_slots
            invariant
                i <= uniform_slots,
                uniforms@.len() == i,
                forall|j: int| 0 <= j < i ==> (#[trigger] uniforms@[j]) == 0i64,
            decreases uniform_slots - i,
        {
            uniforms.push(0);
            i += 1;
        }
        DrawCall {
            shader_id,
            instances: None,
            user_uniforms: uniforms,
            draw_scroll: Vec2 { x: 0, y: 0 },
            clip_min: Vec2 { x: crate::geom::COORD_MIN, y: crate::geom::COORD_MIN },
            clip_max: Vec2 { x: crate::geom::COORD_LIMIT, y: crate::geom::COORD_LIMIT },
            do_h_scroll: false,
            do_v_scroll: false,
            uniforms_dirty: false,
            instance_dirty: false,
        }
    }
}

/// One slot of a view's draw list, wrapping the draw call it carries.
#[derive(Clone, Debug)]
pub struct DrawItem {
    pub draw_call: Option<DrawCall>,
}

} // verus!
