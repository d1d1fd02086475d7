use draw_area::area::Area;
use draw_area::context::RenderContext;
use draw_area::mapping::ShaderInput;
use draw_area::mapping::ShaderInputs;
use draw_area::mapping::ShaderMapping;
use draw_area::mapping::ShaderTy;
use draw_area::refs::FieldError;
use draw_area::refs::WriteKind;

const COLOR: u64 = 1001;
const GLOW: u64 = 1002;

fn shader_with_inputs() -> ShaderMapping {
    ShaderMapping {
        rect_pos: Some(0),
        rect_size: Some(2),
        user_uniforms: ShaderInputs {
            inputs: vec![ShaderInput { id: COLOR, ty: ShaderTy::Vec4, offset: 0 }],
            total_slots: 4,
        },
        instances: ShaderInputs {
            inputs: vec![ShaderInput { id: GLOW, ty: ShaderTy::Float, offset: 4 }],
            total_slots: 5,
        },
    }
}

fn scene() -> (RenderContext, usize, usize, usize, Area) {
    let mut ctx = RenderContext::new();
    let pass = ctx.add_pass();
    let shader = ctx.add_shader(shader_with_inputs());
    let view = ctx.add_view(pass);
    ctx.begin_frame();
    ctx.rebuild_view(view);
    let item = ctx.add_draw_call(view, shader);
    let handle = ctx.add_instance(view, item, &vec![10, 10, 50, 20, 7]);
    (ctx, pass, view, item, handle)
}

#[test]
fn absent_field_yields_field_not_found() {
    let (mut ctx, _, _, _, handle) = scene();
    let r = handle.get_read_ref(&ctx, 9999, ShaderTy::Float);
    assert_eq!(r, Err(FieldError::FieldNotFound));
    let w = handle.get_write_ref(&mut ctx, 9999, ShaderTy::Float, "missing");
    assert_eq!(w, Err(FieldError::FieldNotFound));
}

#[test]
fn mismatched_type_yields_type_mismatch() {
    let (mut ctx, _, _, _, handle) = scene();
    let r = handle.get_read_ref(&ctx, COLOR, ShaderTy::Float);
    assert_eq!(r, Err(FieldError::TypeMismatch));
    let r = handle.get_read_ref(&ctx, GLOW, ShaderTy::Vec2);
    assert_eq!(r, Err(FieldError::TypeMismatch));
    let w = handle.get_write_ref(&mut ctx, COLOR, ShaderTy::Mat4, "color");
    assert_eq!(w, Err(FieldError::TypeMismatch));
}

#[test]
fn uniform_read_ref_views_the_uniform_record() {
    let (ctx, _, _, _, handle) = scene();
    let r = handle.get_read_ref(&ctx, COLOR, ShaderTy::Vec4).unwrap().unwrap();
    assert_eq!(r.repeat, 1);
    assert_eq!(r.stride, 0);
    assert_eq!(r.buffer, vec![0, 0, 0, 0]);
}

#[test]
fn instance_read_ref_views_the_strided_run() {
    let (mut ctx, _, view, item, _) = scene();
    let handle0 = {
        // Rebuild so the two records sit in one fresh buffer.
        ctx.begin_frame();
        ctx.rebuild_view(view);
        let item = ctx.add_draw_call(view, 0);
        let first = ctx.add_instance(view, item, &vec![1, 2, 3, 4, 100]);
        let _second = ctx.add_instance(view, item, &vec![5, 6, 7, 8, 200]);
        let _ = item;
        first
    };
    let _ = item;
    let r = handle0.get_read_ref(&ctx, GLOW, ShaderTy::Float).unwrap().unwrap();
    assert_eq!(r.repeat, 1);
    assert_eq!(r.stride, 5);
    // The copy starts at the field's first slot and runs to the buffer end.
    assert_eq!(r.buffer, vec![100, 5, 6, 7, 8, 200]);
    assert_eq!(r.buffer[0], 100);
    assert_eq!(r.buffer[r.stride], 200);
}

// Obtaining a write reference marks the pass dirty even if nothing is
// ever written through it.
#[test]
fn write_ref_marks_pass_dirty_without_any_write() {
    let (mut ctx, pass, view, item, handle) = scene();
    assert!(!ctx.passes[pass].paint_dirty);
    let w = handle.get_write_ref(&mut ctx, COLOR, ShaderTy::Vec4, "color").unwrap().unwrap();
    assert_eq!(w.kind, WriteKind::Uniform);
    assert!(ctx.passes[pass].paint_dirty);
    let dc = ctx.views[view].draw_items[item].draw_call.as_ref().unwrap();
    assert!(dc.uniforms_dirty);
    assert!(!dc.instance_dirty);
}

#[test]
fn instance_write_ref_marks_instance_dirty() {
    let (mut ctx, pass, view, item, handle) = scene();
    let w = handle.get_write_ref(&mut ctx, GLOW, ShaderTy::Float, "glow").unwrap().unwrap();
    assert_eq!(w.kind, WriteKind::Instance);
    assert_eq!(w.repeat, 1);
    assert_eq!(w.stride, 5);
    assert!(ctx.passes[pass].paint_dirty);
    let dc = ctx.views[view].draw_items[item].draw_call.as_ref().unwrap();
    assert!(dc.instance_dirty);
    assert!(!dc.uniforms_dirty);
}

#[test]
fn write_slot_reaches_the_buffer() {
    let (mut ctx, _, view, item, handle) = scene();
    let w = handle.get_write_ref(&mut ctx, GLOW, ShaderTy::Float, "glow").unwrap().unwrap();
    assert!(w.backed(&ctx));
    assert_eq!(w.read_slot(&ctx, 0), 7);
    w.write_slot(&mut ctx, 0, 42);
    assert_eq!(w.read_slot(&ctx, 0), 42);
    let dc = ctx.views[view].draw_items[item].draw_call.as_ref().unwrap();
    assert_eq!(dc.instances.as_ref().unwrap().as_slice(), &[10, 10, 50, 20, 42]);
}

#[test]
fn uniform_write_slot_reaches_the_uniform_record() {
    let (mut ctx, _, view, item, handle) = scene();
    let w = handle.get_write_ref(&mut ctx, COLOR, ShaderTy::Vec4, "color").unwrap().unwrap();
    w.write_slot(&mut ctx, 2, 9);
    let dc = ctx.views[view].draw_items[item].draw_call.as_ref().unwrap();
    assert_eq!(dc.user_uniforms.as_slice(), &[0, 0, 9, 0]);
}

#[test]
fn stale_handle_yields_no_reference_and_no_error() {
    let (mut ctx, pass, view, _, handle) = scene();
    ctx.begin_frame();
    ctx.rebuild_view(view);
    assert_eq!(handle.get_read_ref(&ctx, COLOR, ShaderTy::Vec4), Ok(None));
    assert_eq!(handle.get_write_ref(&mut ctx, COLOR, ShaderTy::Vec4, "color"), Ok(None));
    // The stale lookup marked nothing dirty.
    assert!(!ctx.passes[pass].paint_dirty);
}

#[test]
fn non_instance_handles_yield_no_reference() {
    let (mut ctx, _, _, _, _) = scene();
    assert_eq!(Area::Empty.get_read_ref(&ctx, COLOR, ShaderTy::Vec4), Ok(None));
    assert_eq!(Area::Empty.get_write_ref(&mut ctx, COLOR, ShaderTy::Vec4, "color"), Ok(None));
}
