use draw_area::area::Area;
use draw_area::area::InstanceArea;
use draw_area::area::ViewArea;
use draw_area::context::RenderContext;
use draw_area::mapping::ShaderInputs;
use draw_area::mapping::ShaderMapping;

fn rect_shader() -> ShaderMapping {
    ShaderMapping {
        rect_pos: Some(0),
        rect_size: Some(2),
        user_uniforms: ShaderInputs { inputs: vec![], total_slots: 0 },
        instances: ShaderInputs { inputs: vec![], total_slots: 4 },
    }
}

#[test]
fn handle_valid_while_generation_matches() {
    let mut ctx = RenderContext::new();
    let pass = ctx.add_pass();
    let shader = ctx.add_shader(rect_shader());
    let view = ctx.add_view(pass);
    ctx.begin_frame();
    ctx.rebuild_view(view);
    let item = ctx.add_draw_call(view, shader);
    let handle = ctx.add_instance(view, item, &vec![10, 10, 50, 20]);
    assert!(handle.is_valid(&ctx));
    assert!(handle.valid_instance(&ctx).is_some());
}

#[test]
fn handle_invalid_after_rebuild_with_zero_draw_calls() {
    let mut ctx = RenderContext::new();
    let pass = ctx.add_pass();
    let shader = ctx.add_shader(rect_shader());
    let view = ctx.add_view(pass);
    ctx.begin_frame();
    ctx.rebuild_view(view);
    let item = ctx.add_draw_call(view, shader);
    let handle = ctx.add_instance(view, item, &vec![10, 10, 50, 20]);
    assert!(handle.is_valid(&ctx));
    // The next frame rebuilds the view and repopulates nothing at all.
    ctx.begin_frame();
    ctx.rebuild_view(view);
    assert!(!handle.is_valid(&ctx));
    assert!(handle.valid_instance(&ctx).is_none());
}

#[test]
fn zero_count_instance_is_invalid() {
    let mut ctx = RenderContext::new();
    let pass = ctx.add_pass();
    let _ = ctx.add_shader(rect_shader());
    let view = ctx.add_view(pass);
    let stale = Area::Instance(InstanceArea {
        view_id: view,
        draw_item_id: 0,
        instance_offset: 0,
        instance_count: 0,
        redraw_id: 0,
    });
    assert!(!stale.is_valid(&ctx));
}

#[test]
fn empty_handle_is_invalid_and_empty() {
    let ctx = RenderContext::new();
    let empty = Area::Empty;
    assert!(empty.is_empty());
    assert!(!empty.is_valid(&ctx));
    assert_eq!(empty.view_id(), None);
    assert!(!empty.is_first_instance());
}

#[test]
fn out_of_range_view_id_is_invalid() {
    let ctx = RenderContext::new();
    let handle = Area::View(ViewArea { view_id: 3, redraw_id: 0 });
    assert!(!handle.is_valid(&ctx));
}

#[test]
fn view_handle_validity_follows_generation() {
    let mut ctx = RenderContext::new();
    let pass = ctx.add_pass();
    let view = ctx.add_view(pass);
    let handle = Area::View(ViewArea { view_id: view, redraw_id: 0 });
    assert!(handle.is_valid(&ctx));
    ctx.begin_frame();
    ctx.rebuild_view(view);
    assert!(!handle.is_valid(&ctx));
    let fresh = Area::View(ViewArea { view_id: view, redraw_id: 1 });
    assert!(fresh.is_valid(&ctx));
}

#[test]
fn first_instance_and_view_id() {
    let mut ctx = RenderContext::new();
    let pass = ctx.add_pass();
    let shader = ctx.add_shader(rect_shader());
    let view = ctx.add_view(pass);
    ctx.begin_frame();
    ctx.rebuild_view(view);
    let item = ctx.add_draw_call(view, shader);
    let first = ctx.add_instance(view, item, &vec![1, 2, 3, 4]);
    let second = ctx.add_instance(view, item, &vec![5, 6, 7, 8]);
    assert!(first.is_first_instance());
    assert!(!second.is_first_instance());
    assert_eq!(first.view_id(), Some(view));
    assert_eq!(second.view_id(), Some(view));
}

#[test]
fn set_do_scroll_reaches_view_and_draw_call() {
    let mut ctx = RenderContext::new();
    let pass = ctx.add_pass();
    let shader = ctx.add_shader(rect_shader());
    let view = ctx.add_view(pass);
    ctx.begin_frame();
    ctx.rebuild_view(view);
    let item = ctx.add_draw_call(view, shader);
    let inst = ctx.add_instance(view, item, &vec![0, 0, 0, 0]);
    let view_handle = Area::View(ViewArea { view_id: view, redraw_id: 1 });

    view_handle.set_do_scroll(&mut ctx, true, false);
    assert!(ctx.views[view].do_h_scroll);
    assert!(!ctx.views[view].do_v_scroll);

    inst.set_do_scroll(&mut ctx, false, true);
    let dc = ctx.views[view].draw_items[item].draw_call.as_ref().unwrap();
    assert!(!dc.do_h_scroll);
    assert!(dc.do_v_scroll);

    // A stale handle changes nothing.
    let stale = Area::View(ViewArea { view_id: view, redraw_id: 0 });
    stale.set_do_scroll(&mut ctx, false, false);
    assert!(ctx.views[view].do_h_scroll);
}

#[test]
fn scroll_positions_report_view_and_draw_call_scroll() {
    let mut ctx = RenderContext::new();
    let pass = ctx.add_pass();
    let shader = ctx.add_shader(rect_shader());
    let view = ctx.add_view(pass);
    ctx.begin_frame();
    ctx.rebuild_view(view);
    let item = ctx.add_draw_call(view, shader);
    let inst = ctx.add_instance(view, item, &vec![0, 0, 0, 0]);
    ctx.set_view_scroll(view, draw_area::Vec2::new(4, 4), draw_area::Vec2::new(5, 6));
    ctx.set_view_parent_scroll(view, draw_area::Vec2::new(7, 8));
    ctx.set_draw_scroll(view, item, draw_area::Vec2::new(1, 2));

    let view_handle = Area::View(ViewArea { view_id: view, redraw_id: 1 });
    assert_eq!(view_handle.get_local_scroll_pos(&ctx), draw_area::Vec2::new(5, 6));
    assert_eq!(view_handle.get_scroll_pos(&ctx), draw_area::Vec2::new(7, 8));
    assert_eq!(inst.get_local_scroll_pos(&ctx), draw_area::Vec2::new(5, 6));
    assert_eq!(inst.get_scroll_pos(&ctx), draw_area::Vec2::new(1, 2));

    // A stale instance handle reports zero.
    ctx.begin_frame();
    ctx.rebuild_view(view);
    assert_eq!(inst.get_scroll_pos(&ctx), draw_area::Vec2::zero());
    assert_eq!(inst.get_local_scroll_pos(&ctx), draw_area::Vec2::zero());
}
