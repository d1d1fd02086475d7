use draw_area::area::Area;
use draw_area::area::ViewArea;
use draw_area::context::RenderContext;
use draw_area::geom::Rect;
use draw_area::geom::Vec2;
use draw_area::mapping::ShaderInputs;
use draw_area::mapping::ShaderMapping;

fn rect_shader() -> ShaderMapping {
    ShaderMapping {
        rect_pos: Some(0),
        rect_size: Some(2),
        user_uniforms: ShaderInputs { inputs: vec![], total_slots: 0 },
        instances: ShaderInputs { inputs: vec![], total_slots: 4 },
    }
}

// A view node at generation 5 holds one draw call with a single instance
// whose rectangle fields sit at offsets 0 and 2; with zero scroll the raw
// slot values come back exactly, and after a rebuild to generation 6 with
// the same draw call id but a fresh buffer the old handle reads nothing.
#[test]
fn instance_rect_roundtrip_and_staleness_across_generations() {
    let mut ctx = RenderContext::new();
    let pass = ctx.add_pass();
    let shader = ctx.add_shader(rect_shader());
    let view = ctx.add_view(pass);
    for _ in 0..5 {
        ctx.begin_frame();
    }
    ctx.rebuild_view(view);
    let item = ctx.add_draw_call(view, shader);
    let handle = ctx.add_instance(view, item, &vec![10, 10, 50, 20]);
    assert!(handle.is_valid(&ctx));
    let rect = handle.get_rect(&ctx);
    assert_eq!(rect, Rect::new(Vec2::new(10, 10), Vec2::new(50, 20)));

    ctx.begin_frame();
    ctx.rebuild_view(view);
    let item_again = ctx.add_draw_call(view, shader);
    assert_eq!(item_again, item);
    let _fresh = ctx.add_instance(view, item_again, &vec![99, 99, 1, 1]);
    assert!(!handle.is_valid(&ctx));
    assert_eq!(handle.get_rect(&ctx), Rect::zero());
}

#[test]
fn view_rect_is_translated_by_parent_scroll() {
    let mut ctx = RenderContext::new();
    let pass = ctx.add_pass();
    let view = ctx.add_view(pass);
    ctx.set_view_rect(view, Rect::new(Vec2::new(100, 200), Vec2::new(30, 40)));
    ctx.set_view_parent_scroll(view, Vec2::new(10, 20));
    let handle = Area::View(ViewArea { view_id: view, redraw_id: 0 });
    let rect = handle.get_rect(&ctx);
    assert_eq!(rect, Rect::new(Vec2::new(90, 180), Vec2::new(30, 40)));
}

#[test]
fn view_set_rect_then_get_rect_round_trips_without_parent_scroll() {
    let mut ctx = RenderContext::new();
    let pass = ctx.add_pass();
    let view = ctx.add_view(pass);
    let handle = Area::View(ViewArea { view_id: view, redraw_id: 0 });
    let rect = Rect::new(Vec2::new(17, 23), Vec2::new(80, 60));
    handle.set_rect(&mut ctx, &rect);
    assert_eq!(handle.get_rect(&ctx), rect);
}

#[test]
fn instance_set_rect_then_get_rect_round_trips() {
    let mut ctx = RenderContext::new();
    let pass = ctx.add_pass();
    let shader = ctx.add_shader(rect_shader());
    let view = ctx.add_view(pass);
    ctx.begin_frame();
    ctx.rebuild_view(view);
    let item = ctx.add_draw_call(view, shader);
    let handle = ctx.add_instance(view, item, &vec![0, 0, 0, 0]);
    let rect = Rect::new(Vec2::new(12, 34), Vec2::new(56, 78));
    handle.set_rect(&mut ctx, &rect);
    assert_eq!(handle.get_rect(&ctx), rect);
    // set_rect never marks anything dirty.
    assert!(!ctx.passes[pass].paint_dirty);
    let dc = ctx.views[view].draw_items[item].draw_call.as_ref().unwrap();
    assert!(!dc.uniforms_dirty);
    assert!(!dc.instance_dirty);
}

#[test]
fn stale_set_rect_is_a_no_op() {
    let mut ctx = RenderContext::new();
    let pass = ctx.add_pass();
    let shader = ctx.add_shader(rect_shader());
    let view = ctx.add_view(pass);
    ctx.begin_frame();
    ctx.rebuild_view(view);
    let item = ctx.add_draw_call(view, shader);
    let handle = ctx.add_instance(view, item, &vec![1, 2, 3, 4]);
    ctx.begin_frame();
    ctx.rebuild_view(view);
    let item2 = ctx.add_draw_call(view, shader);
    let _fresh = ctx.add_instance(view, item2, &vec![5, 6, 7, 8]);
    handle.set_rect(&mut ctx, &Rect::new(Vec2::new(9, 9), Vec2::new(9, 9)));
    let dc = ctx.views[view].draw_items[item2].draw_call.as_ref().unwrap();
    assert_eq!(dc.instances.as_ref().unwrap().as_slice(), &[5, 6, 7, 8]);
}

#[test]
fn get_rect_clips_against_the_clip_rectangle() {
    let mut ctx = RenderContext::new();
    let pass = ctx.add_pass();
    let shader = ctx.add_shader(rect_shader());
    let view = ctx.add_view(pass);
    ctx.begin_frame();
    ctx.rebuild_view(view);
    let item = ctx.add_draw_call(view, shader);
    let handle = ctx.add_instance(view, item, &vec![10, 10, 100, 100]);
    ctx.set_draw_clip(view, item, Vec2::new(0, 0), Vec2::new(50, 60));
    let rect = handle.get_rect(&ctx);
    assert_eq!(rect, Rect::new(Vec2::new(10, 10), Vec2::new(40, 50)));
}

#[test]
fn get_rect_applies_draw_scroll() {
    let mut ctx = RenderContext::new();
    let pass = ctx.add_pass();
    let shader = ctx.add_shader(rect_shader());
    let view = ctx.add_view(pass);
    ctx.begin_frame();
    ctx.rebuild_view(view);
    let item = ctx.add_draw_call(view, shader);
    let handle = ctx.add_instance(view, item, &vec![100, 100, 10, 10]);
    ctx.set_draw_scroll(view, item, Vec2::new(30, 40));
    let rect = handle.get_rect(&ctx);
    assert_eq!(rect, Rect::new(Vec2::new(70, 60), Vec2::new(10, 10)));
}

#[test]
fn shader_without_rect_fields_yields_zero_rect() {
    let mut ctx = RenderContext::new();
    let pass = ctx.add_pass();
    let shader = ctx.add_shader(ShaderMapping {
        rect_pos: None,
        rect_size: None,
        user_uniforms: ShaderInputs { inputs: vec![], total_slots: 0 },
        instances: ShaderInputs { inputs: vec![], total_slots: 4 },
    });
    let view = ctx.add_view(pass);
    ctx.begin_frame();
    ctx.rebuild_view(view);
    let item = ctx.add_draw_call(view, shader);
    let handle = ctx.add_instance(view, item, &vec![10, 10, 50, 20]);
    assert!(handle.is_valid(&ctx));
    assert_eq!(handle.get_rect(&ctx), Rect::zero());
}

// The rectangle's own origin maps to the local zero point, modulo scroll:
// a view handle answers its unsnapped scroll, an instance handle the zero
// vector.
#[test]
fn abs_to_rel_of_own_origin_yields_scroll() {
    let mut ctx = RenderContext::new();
    let pass = ctx.add_pass();
    let shader = ctx.add_shader(rect_shader());
    let view = ctx.add_view(pass);
    ctx.set_view_rect(view, Rect::new(Vec2::new(100, 200), Vec2::new(30, 40)));
    ctx.set_view_parent_scroll(view, Vec2::new(10, 20));
    ctx.set_view_scroll(view, Vec2::new(3, 4), Vec2::new(3, 4));
    let view_handle = Area::View(ViewArea { view_id: view, redraw_id: 0 });
    let origin = view_handle.get_rect(&ctx).pos;
    assert_eq!(view_handle.abs_to_rel(&ctx, origin), Vec2::new(3, 4));

    ctx.begin_frame();
    ctx.rebuild_view(view);
    let item = ctx.add_draw_call(view, shader);
    let inst = ctx.add_instance(view, item, &vec![100, 100, 10, 10]);
    ctx.set_draw_scroll(view, item, Vec2::new(30, 40));
    let origin = inst.get_rect(&ctx).pos;
    assert_eq!(inst.abs_to_rel(&ctx, origin), Vec2::zero());
}

#[test]
fn coordinates_at_the_limit_survive_the_composition() {
    let limit = draw_area::geom::COORD_LIMIT;
    let mut ctx = RenderContext::new();
    let pass = ctx.add_pass();
    let shader = ctx.add_shader(rect_shader());
    let view = ctx.add_view(pass);
    ctx.begin_frame();
    ctx.rebuild_view(view);
    let item = ctx.add_draw_call(view, shader);
    let handle = ctx.add_instance(view, item, &vec![limit, limit, limit, limit]);
    // The position is clipped to the open clip range; the far edge exceeds
    // it, so the size collapses to the remaining span.
    let rect = handle.get_rect(&ctx);
    assert_eq!(rect.pos, Vec2::new(limit, limit));
    assert_eq!(rect.size, Vec2::new(0, 0));

    let handle2 = {
        ctx.begin_frame();
        ctx.rebuild_view(view);
        let item = ctx.add_draw_call(view, shader);
        ctx.add_instance(view, item, &vec![-limit, -limit, limit, limit])
    };
    let rect = handle2.get_rect(&ctx);
    assert_eq!(rect.pos, Vec2::new(-limit, -limit));
    assert_eq!(rect.size, Vec2::new(limit, limit));
}

#[test]
fn abs_to_rel_returns_abs_unchanged_when_stale() {
    let mut ctx = RenderContext::new();
    let pass = ctx.add_pass();
    let view = ctx.add_view(pass);
    ctx.set_view_rect(view, Rect::new(Vec2::new(5, 5), Vec2::new(5, 5)));
    let handle = Area::View(ViewArea { view_id: view, redraw_id: 77 });
    let p = Vec2::new(41, 43);
    assert_eq!(handle.abs_to_rel(&ctx, p), p);
    assert_eq!(Area::Empty.abs_to_rel(&ctx, p), p);
}
