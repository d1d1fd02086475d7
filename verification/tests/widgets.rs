use draw_area::fish_blocks::FishBlockCategory;
use draw_area::fish_blocks::FishBlockLibrary;
use draw_area::fish_blocks::FishBlockTemplate;
use draw_area::lhs_check::Expr;
use draw_area::lhs_check::ExprKind;
use draw_area::lhs_check::LhsChecker;
use draw_area::lhs_check::Lit;
use draw_area::lhs_check::Span;
use draw_area::lhs_check::VarKind;
use draw_area::video::PlaybackOp;
use draw_area::video::PlaybackState;
use draw_area::video::Video;
use draw_area::video::VideoDataSource;
use draw_area::video::VideoEvent;
use draw_area::video::VideoRef;

fn empty_library() -> FishBlockLibrary {
    FishBlockLibrary {
        allblocks: vec![],
        nulltemplate: FishBlockTemplate {
            id: 0,
            name: String::new(),
            displayname: String::new(),
            description: String::new(),
            creator: String::new(),
            path: String::new(),
            category: FishBlockCategory::Utility,
            parameters: vec![],
            inputs: vec![],
            outputs: vec![],
        },
    }
}

#[test]
fn populate_library_installs_the_stock_templates() {
    let mut lib = empty_library();
    lib.populate_library("/");
    assert_eq!(lib.allblocks.len(), 6);
    assert_eq!(lib.nulltemplate.name, "Unknown");
    assert_eq!(lib.nulltemplate.path, "/null");
    assert_eq!(lib.allblocks[0].name, "Oscillator");
    assert_eq!(lib.allblocks[0].path, "/oscillator");
    assert_eq!(lib.allblocks[1].name, "Effect");
    assert_eq!(lib.allblocks[2].name, "Filter");
    assert_eq!(lib.allblocks[3].name, "Meta");
    assert_eq!(lib.allblocks[4].name, "Utility");
    assert_eq!(lib.allblocks[5].name, "Envelope");
    assert_eq!(lib.allblocks[5].displayname, "Envelope");
    assert_eq!(lib.allblocks[5].creator, "Stijn Haring-Kuipers");
}

#[test]
fn find_template_answers_the_null_template_for_unknown_names() {
    let mut lib = empty_library();
    lib.populate_library("/");
    assert_eq!(lib.find_template("Oscillator").path, "/oscillator");
    assert_eq!(lib.find_template("Filter").path, "/filter");
    assert_eq!(lib.find_template("NoSuchBlock").path, "/null");
}

#[test]
fn create_instance_copies_category_and_library_id() {
    let mut lib = empty_library();
    lib.populate_library("/");
    let block = lib.create_instance_from_template("Envelope");
    assert!(matches!(block.category, FishBlockCategory::Envelope));
    assert_eq!(block.library_id, 0);
    assert_eq!(block.x, 0);
    assert_eq!(block.y, 0);
    let unknown = lib.create_instance_from_template("???");
    assert!(matches!(unknown.category, FishBlockCategory::Meta));
}

fn span(n: usize) -> Span {
    Span { start: n, end: n + 1 }
}

fn mut_local(n: usize) -> Expr {
    Expr { kind: ExprKind::Var { span: span(n), kind: Some(VarKind::MutLocal), ident: 7 } }
}

fn plain_local(n: usize) -> Expr {
    Expr { kind: ExprKind::Var { span: span(n), kind: Some(VarKind::Local), ident: 8 } }
}

#[test]
fn mutable_locals_and_projections_are_valid_lhs() {
    let mut checker = LhsChecker {};
    assert!(checker.lhs_check_expr(&mut_local(1)).is_ok());
    let field = Expr {
        kind: ExprKind::Field { span: span(2), expr: Box::new(mut_local(1)), field_ident: 3 },
    };
    assert!(checker.lhs_check_expr(&field).is_ok());
    let index = Expr {
        kind: ExprKind::Index {
            span: span(4),
            expr: Box::new(field),
            index_expr: Box::new(plain_local(5)),
        },
    };
    assert!(checker.lhs_check_expr(&index).is_ok());
    let lit = Expr { kind: ExprKind::Lit { span: span(6), lit: Lit::Bool(true) } };
    assert!(checker.lhs_check_expr(&lit).is_ok());
}

#[test]
fn non_mutable_targets_are_rejected_with_their_span() {
    let mut checker = LhsChecker {};
    let err = checker.lhs_check_expr(&plain_local(9)).unwrap_err();
    assert_eq!(err.span, span(9));
    assert_eq!(err.message, "expression is not a valid left hand side");

    let call = Expr { kind: ExprKind::PlainCall { span: span(3), ident: 1 } };
    let err = checker.lhs_check_expr(&call).unwrap_err();
    assert_eq!(err.span, span(3));

    // A projection of a non-mutable local reports the innermost span.
    let field = Expr {
        kind: ExprKind::Field { span: span(2), expr: Box::new(plain_local(8)), field_ident: 3 },
    };
    let err = checker.lhs_check_expr(&field).unwrap_err();
    assert_eq!(err.span, span(8));
}

fn fresh_video() -> Video {
    Video::new(
        77,
        VideoDataSource::Network { url: "https://example.test/clip.mkv".to_string() },
        false,
        false,
        false,
    )
}

#[test]
fn begin_playback_prepares_once_texture_is_ready() {
    let mut video = fresh_video();
    video.texture_id = Some(5);

    // Without a texture handle nothing can be prepared.
    let mut vref = VideoRef(Some(video));
    assert!(vref.begin_playback().is_none());
    assert_eq!(vref.0.as_ref().unwrap().playback_state, PlaybackState::Playing);

    // With the handle present, begin emits the prepare request.
    let mut vref = VideoRef(Some(fresh_video()));
    vref.0.as_mut().unwrap().texture_handle = Some(11);
    let op = vref.begin_playback();
    match op {
        Some(PlaybackOp::Prepare { video_id, texture_handle, autoplay, .. }) => {
            assert_eq!(video_id, 77);
            assert_eq!(texture_handle, 11);
            assert!(!autoplay);
        },
        _ => panic!("expected a prepare request"),
    }
    assert_eq!(vref.0.as_ref().unwrap().playback_state, PlaybackState::Playing);
}

#[test]
fn pause_and_resume_cycle() {
    let mut vref = VideoRef(Some(fresh_video()));
    let op = vref.pause_playback();
    assert!(matches!(op, Some(PlaybackOp::Pause { video_id: 77 })));
    assert_eq!(vref.0.as_ref().unwrap().playback_state, PlaybackState::Paused);
    assert!(vref.pause_playback().is_none());
    let op = vref.resume_playback();
    assert!(matches!(op, Some(PlaybackOp::Resume { video_id: 77 })));
    assert_eq!(vref.0.as_ref().unwrap().playback_state, PlaybackState::Playing);
    assert!(vref.resume_playback().is_none());
}

#[test]
fn end_playback_resets_to_unprepared() {
    let mut vref = VideoRef(Some(fresh_video()));
    assert!(vref.end_playback().is_none());
    vref.pause_playback();
    let op = vref.end_playback();
    assert!(matches!(op, Some(PlaybackOp::End { video_id: 77 })));
    assert_eq!(vref.0.as_ref().unwrap().playback_state, PlaybackState::Unprepared);
}

#[test]
fn preview_first_frame_requests_pause_on_first_frame() {
    let mut vref = VideoRef(Some(fresh_video()));
    vref.0.as_mut().unwrap().texture_handle = Some(3);
    let op = vref.preview_first_frame();
    match op {
        Some(PlaybackOp::Prepare { pause_on_first_frame, .. }) => {
            // The request still carries the flag as it was before the call.
            assert!(!pause_on_first_frame);
        },
        _ => panic!("expected a prepare request"),
    }
    let inner = vref.0.as_ref().unwrap();
    assert!(inner.pause_on_first_frame);
    assert_eq!(inner.playback_state, PlaybackState::Previewing);
}

#[test]
fn set_source_only_before_preparing() {
    let mut vref = VideoRef(Some(fresh_video()));
    vref.set_source(VideoDataSource::Filesystem { path: "/tmp/clip.mp4".to_string() });
    match &vref.0.as_ref().unwrap().source {
        VideoDataSource::Filesystem { path } => assert_eq!(path, "/tmp/clip.mp4"),
        _ => panic!("source should have changed"),
    }
    vref.pause_playback();
    vref.set_source(VideoDataSource::Network { url: "x".to_string() });
    assert!(matches!(
        vref.0.as_ref().unwrap().source,
        VideoDataSource::Filesystem { .. }
    ));
}

#[test]
fn events_drive_the_state_machine() {
    let mut video = fresh_video();
    video.texture_id = Some(5);
    video.autoplay = true;

    // The texture handle arriving triggers the autoplay prepare.
    let op = video.handle_event(&VideoEvent::TextureHandleReady { texture_id: 5, handle: 9 });
    assert!(matches!(op, Some(PlaybackOp::Prepare { texture_handle: 9, .. })));
    assert_eq!(video.playback_state, PlaybackState::Preparing);

    // The decoder reporting readiness records the dimensions.
    let op = video.handle_event(&VideoEvent::PlaybackPrepared {
        video_id: 77,
        video_width: 640,
        video_height: 480,
        duration: 12345,
    });
    assert!(op.is_none());
    assert_eq!(video.playback_state, PlaybackState::Prepared);
    assert_eq!(video.video_width, 640);
    assert_eq!(video.video_height, 480);
    assert_eq!(video.total_duration, 12345);

    // A texture update for this video asks for a repaint; for another id
    // it does not.
    assert!(matches!(
        video.handle_event(&VideoEvent::TextureUpdated { video_id: 77 }),
        Some(PlaybackOp::Redraw)
    ));
    assert!(video.handle_event(&VideoEvent::TextureUpdated { video_id: 78 }).is_none());

    // Completion without looping parks the playback.
    assert!(video.handle_event(&VideoEvent::PlaybackCompleted { video_id: 77 }).is_none());
    assert_eq!(video.playback_state, PlaybackState::Completed);

    // Activity events pause and resume.
    assert!(matches!(
        video.handle_event(&VideoEvent::Pause),
        Some(PlaybackOp::Pause { video_id: 77 })
    ));
    assert!(matches!(
        video.handle_event(&VideoEvent::Resume),
        Some(PlaybackOp::Resume { video_id: 77 })
    ));
}

#[test]
fn gestures_pause_only_with_hold_to_pause() {
    let mut video = fresh_video();
    assert!(video.handle_event(&VideoEvent::FingerDown).is_none());
    assert_eq!(video.playback_state, PlaybackState::Unprepared);

    let mut video = fresh_video();
    video.hold_to_pause = true;
    assert!(matches!(
        video.handle_event(&VideoEvent::FingerDown),
        Some(PlaybackOp::Pause { .. })
    ));
    assert_eq!(video.playback_state, PlaybackState::Paused);
    assert!(matches!(
        video.handle_event(&VideoEvent::FingerUp),
        Some(PlaybackOp::Resume { .. })
    ));
}

#[test]
fn empty_video_ref_does_nothing() {
    let mut vref = VideoRef(None);
    assert!(vref.begin_playback().is_none());
    assert!(vref.pause_playback().is_none());
    assert!(vref.resume_playback().is_none());
    assert!(vref.end_playback().is_none());
    assert!(vref.preview_first_frame().is_none());
    vref.set_source(VideoDataSource::Network { url: "x".to_string() });
    assert!(vref.0.is_none());
}
