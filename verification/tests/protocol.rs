use draw_area::build_protocol::BuildCmdId;
use draw_area::build_protocol::BuildProcess;
use draw_area::build_protocol::BuildTarget;
use draw_area::build_protocol::LogItem;
use draw_area::build_protocol::LogItemBare;
use draw_area::build_protocol::LogItemLevel;
use draw_area::char_ext::CharExt;
use draw_area::video::VideoColorFormat;
use makepad_live_id::LiveId;

#[test]
fn identifier_characters() {
    assert!('a'.is_identifier_start());
    assert!('Z'.is_identifier_start());
    assert!('_'.is_identifier_start());
    assert!(!'1'.is_identifier_start());
    assert!(!' '.is_identifier_start());
    assert!('1'.is_identifier_continue());
    assert!('z'.is_identifier_continue());
    assert!('_'.is_identifier_continue());
    assert!(!'-'.is_identifier_continue());
}

#[test]
fn delimiter_characters() {
    assert!('('.is_open_delimiter());
    assert!('['.is_open_delimiter());
    assert!('{'.is_open_delimiter());
    assert!(!')'.is_open_delimiter());
    assert!(')'.is_close_delimiter());
    assert!(']'.is_close_delimiter());
    assert!('}'.is_close_delimiter());
    assert!(!'('.is_close_delimiter());
}

#[test]
fn video_color_format_from_str() {
    assert_eq!(VideoColorFormat::from_str("YUV420Flexible"), VideoColorFormat::YUV420Flexible);
    assert_eq!(VideoColorFormat::from_str("YUV420Planar"), VideoColorFormat::YUV420Planar);
    assert_eq!(
        VideoColorFormat::from_str("YUV420SemiPlanar"),
        VideoColorFormat::YUV420SemiPlanar
    );
    assert_eq!(VideoColorFormat::from_str("RGB"), VideoColorFormat::Unknown);
    assert_eq!(VideoColorFormat::from_str(""), VideoColorFormat::Unknown);
}

#[test]
fn build_target_ids_are_stable() {
    assert_eq!(BuildTarget::len(), 9);
    assert_eq!(BuildTarget::ReleaseStudio.id(), BuildTarget::RELEASE_STUDIO);
    assert_eq!(BuildTarget::DebugStudio.id(), BuildTarget::DEBUG_STUDIO);
    assert_eq!(BuildTarget::Release.id(), BuildTarget::RELEASE);
    assert_eq!(BuildTarget::Debug.id(), BuildTarget::DEBUG);
    assert_eq!(BuildTarget::Profiler.id(), BuildTarget::PROFILER);
    assert_eq!(
        BuildTarget::IosSim { org: "org".to_string(), app: "app".to_string() }.id(),
        BuildTarget::IOS_SIM
    );
    assert_eq!(
        BuildTarget::IosDevice { org: "org".to_string(), app: "app".to_string() }.id(),
        BuildTarget::IOS_DEVICE
    );
    assert_eq!(BuildTarget::Android.id(), BuildTarget::ANDROID);
    assert_eq!(BuildTarget::WebAssembly.id(), BuildTarget::WEBASSEMBLY);
}

#[test]
fn build_target_names() {
    assert_eq!(BuildTarget::name(0), "Release Studio");
    assert_eq!(BuildTarget::name(1), "Debug Studio");
    assert_eq!(BuildTarget::name(2), "Release");
    assert_eq!(BuildTarget::name(3), "Debug");
    assert_eq!(BuildTarget::name(4), "Profiler");
    assert_eq!(BuildTarget::name(5), "iOS Simulator");
    assert_eq!(BuildTarget::name(6), "iOS Device");
    assert_eq!(BuildTarget::name(7), "Android");
    assert_eq!(BuildTarget::name(8), "WebAssembly");
    assert_eq!(BuildTarget::name(9), "Unknown");
    assert_eq!(BuildTarget::name(u64::MAX), "Unknown");
}

#[test]
fn runs_in_studio_only_for_studio_targets() {
    assert!(BuildTarget::ReleaseStudio.runs_in_studio());
    assert!(BuildTarget::DebugStudio.runs_in_studio());
    assert!(!BuildTarget::Release.runs_in_studio());
    assert!(!BuildTarget::Android.runs_in_studio());
}

// The wrapped hash must agree with computing the live id directly.
#[test]
fn as_id_matches_the_live_id_hash() {
    let process = BuildProcess { binary: "ironfish".to_string(), target: BuildTarget::Debug };
    let expected = LiveId::from_str("ironfish")
        .bytes_append(&BuildTarget::DEBUG.to_be_bytes())
        .0;
    assert_eq!(process.as_id(), expected);

    let other = BuildProcess { binary: "ironfish".to_string(), target: BuildTarget::Release };
    assert_ne!(process.as_id(), other.as_id());
}

#[test]
fn wrap_msg_carries_id_and_item() {
    let id = BuildCmdId(42);
    let item = LogItem::Bare(LogItemBare { level: LogItemLevel::Warning, line: "hi".to_string() });
    let wrapped = id.wrap_msg(item);
    assert_eq!(wrapped.cmd_id, BuildCmdId(42));
    match wrapped.item {
        LogItem::Bare(bare) => {
            assert_eq!(bare.level, LogItemLevel::Warning);
            assert_eq!(bare.line, "hi");
        },
        _ => panic!("expected a bare log item"),
    }
}
