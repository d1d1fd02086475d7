//! The video widget's playback state machine, as decisions from state and
//! event to next state and platform request. The host performs each
//! request (prepare, pause, resume, end, redraw) against the platform's
//! decoder and hands the resulting events back in.

use vstd::prelude::*;

use crate::text::str_eq;

verus! {

/// Pixel layout of decoded video frames.
#[derive(Clone, Copy, Debug, PartialEq, Eq, Structural)]
pub enum VideoColorFormat {
    YUV420Planar,
    YUV420SemiPlanar,
    YUV420Flexible,
    Unknown,
}

impl Default for VideoColorFormat {
    fn default() -> (r: VideoColorFormat)
        ensures
            r == VideoColorFormat::Unknown,
    {
        VideoColorFormat::Unknown
    }
}

impl VideoColorFormat {
    /// Parse a decoder's color format name; unknown names map to
    /// `Unknown`.
    pub fn from_str(s: &str) -> (r: Self)
        ensures
            s@ == "YUV420Flexible"@ ==> r == VideoColorFormat::YUV420Flexible,
            s@ == "YUV420Planar"@ ==> r == VideoColorFormat::YUV420Planar,
            s@ == "YUV420SemiPlanar"@ ==> r == VideoColorFormat::YUV420SemiPlanar,
            (s@ != "YUV420Flexible"@ && s@ != "YUV420Planar"@ && s@ != "YUV420SemiPlanar"@) ==> r
                == VideoColorFormat::Unknown,
    {
        proof {
            reveal_strlit("YUV420Flexible");
            reveal_strlit("YUV420Planar");
            reveal_strlit("YUV420SemiPlanar");
            assert("YUV420Flexible"@.len() == 14);
            assert("YUV420Planar"@.len() == 12);
            assert("YUV420SemiPlanar"@.len() == 16);
        }
        if str_eq(s, "YUV420Flexible") {
            VideoColorFormat::YUV420Flexible
        } else if str_eq(s, "YUV420Planar") {
            VideoColorFormat::YUV420Planar
        } else if str_eq(s, "YUV420SemiPlanar") {
            VideoColorFormat::YUV420SemiPlanar
        } else {
            VideoColorFormat::Unknown
        }
    }
}

/// A group of decoded frames streamed out of the decoder.
#[derive(Clone, Debug)]
pub struct VideoStreamEvent {
    pub video_id: u64,
    pub frame_group: Vec<u8>,
}

/// Metadata reported once a decoder finished initializing.
#[derive(Clone, Debug)]
pub struct VideoDecodingInitializedEvent {
    pub video_id: u64,
    pub frame_rate: usize,
    pub video_width: u32,
    pub video_height: u32,
    pub color_format: VideoColorFormat,
    pub duration: u128,
}

/// A decoder failure, with its diagnostic text.
#[derive(Clone, Debug)]
pub struct VideoDecodingErrorEvent {
    pub video_id: u64,
    pub error: String,
}

/// Where the video's data comes from.
#[derive(Clone, Debug)]
pub enum VideoDataSource {
    /// An in-memory dependency bundled with the application.
    Dependency { path: String },
    /// A streaming source.
    Network { url: String },
    /// A file on local storage.
    Filesystem { path: String },
}

impl Default for VideoDataSource {
    fn default() -> (r: VideoDataSource)
        ensures
            r matches VideoDataSource::Dependency { path } && path@ == Seq::<char>::empty(),
    {
        VideoDataSource::Dependency { path: String::new() }
    }
}

/// Actions the widget reports outward; none are defined currently.
#[derive(Clone, Debug)]
pub enum VideoAction {
    Nothing,
}

/// Lifecycle of one video playback.
#[derive(Clone, Copy, Debug, PartialEq, Eq, Structural)]
pub enum PlaybackState {
    Unprepared,
    Preparing,
    Prepared,
    Previewing,
    Playing,
    Paused,
    /// Playback reached the end of stream while not looping.
    Completed,
}

impl Default for PlaybackState {
    fn default() -> (r: PlaybackState)
        ensures
            r == PlaybackState::Unprepared,
    {
        PlaybackState::Unprepared
    }
}

/// A request the widget asks the platform to perform.
#[derive(Clone, Debug)]
pub enum PlaybackOp {
    /// Start decoding from `source` into the external texture `texture_handle`.
    Prepare {
        video_id: u64,
        source: VideoDataSource,
        texture_handle: u32,
        autoplay: bool,
        is_looping: bool,
        pause_on_first_frame: bool,
    },
    Pause { video_id: u64 },
    Resume { video_id: u64 },
    End { video_id: u64 },
    /// Repaint the widget: a new frame arrived in the texture.
    Redraw,
}

/// A platform occurrence the widget reacts to, reduced to plain values.
/// Finger events arrive already hit-tested against the widget's area.
#[derive(Clone, Debug)]
pub enum VideoEvent {
    PlaybackPrepared { video_id: u64, video_width: u32, video_height: u32, duration: u128 },
    TextureUpdated { video_id: u64 },
    PlaybackCompleted { video_id: u64 },
    TextureHandleReady { texture_id: u64, handle: u32 },
    FingerDown,
    FingerUp,
    Pause,
    Resume,
    DecodingError { video_id: u64 },
}

/// The video widget's playback-relevant state.
#[derive(Clone, Debug)]
pub struct Video {
    /// Identity of this playback towards the platform.
    pub id: u64,
    pub source: VideoDataSource,
    /// Id of the widget's texture, compared against texture-ready events.
    pub texture_id: Option<u64>,
    /// Platform handle of the external texture, once ready.
    pub texture_handle: Option<u32>,
    pub is_looping: bool,
    pub hold_to_pause: bool,
    pub autoplay: bool,
    pub pause_on_first_frame: bool,
    pub playback_state: PlaybackState,
    pub video_width: usize,
    pub video_height: usize,
    pub total_duration: u128,
}

/// How `prepare_playback` relates the state before, the state after and
/// the request it emits: without a texture handle nothing happens; from
/// `Unprepared` with a handle, a prepare request carrying the current
/// flags is emitted and the state moves to `Preparing`; in any other state
/// nothing happens.
pub open spec fn prepare_rel(o: Video, n: Video, r: Option<PlaybackOp>) -> bool {
    if o.texture_handle is None {
        n == o && r is None
    } else if o.playback_state == PlaybackState::Unprepared {
        &&& n == (Video { playback_state: PlaybackState::Preparing, ..o })
        &&& r == Some(
            PlaybackOp::Prepare {
                video_id: o.id,
                source: o.source,
                texture_handle: o.texture_handle->Some_0,
                autoplay: o.autoplay,
                is_looping: o.is_looping,
                pause_on_first_frame: o.pause_on_first_frame,
            },
        )
    } else {
        n == o && r is None
    }
}

/// `preview_first_frame`: from `Unprepared`, prepare (with the flags as
/// they were), then request pausing on the first frame and move to
/// `Previewing`; otherwise nothing happens.
pub open spec fn preview_rel(o: Video, n: Video, r: Option<PlaybackOp>) -> bool {
    if o.playback_state == PlaybackState::Unprepared {
        exists|m: Video|
            #[trigger] prepare_rel(o, m, r) && n == (Video {
                pause_on_first_frame: true,
                playback_state: PlaybackState::Previewing,
                ..m
            })
    } else {
        n == o && r is None
    }
}

/// `begin_playback`: from `Unprepared`, prepare and move straight to
/// `Playing`; otherwise nothing happens.
pub open spec fn begin_rel(o: Video, n: Video, r: Option<PlaybackOp>) -> bool {
    if o.playback_state == PlaybackState::Unprepared {
        exists|m: Video|
            #[trigger] prepare_rel(o, m, r) && n == (Video {
                playback_state: PlaybackState::Playing,
                ..m
            })
    } else {
        n == o && r is None
    }
}

/// `pause_playback`: from any state but `Paused`, request a pause and move
/// to `Paused`; when already paused nothing happens.
pub open spec fn pause_rel(o: Video, n: Video, r: Option<PlaybackOp>) -> bool {
    if o.playback_state != PlaybackState::Paused {
        n == (Video { playback_state: PlaybackState::Paused, ..o }) && r == Some(
            PlaybackOp::Pause { video_id: o.id },
        )
    } else {
        n == o && r is None
    }
}

/// `resume_playback`: only from `Paused`, request a resume and move to
/// `Playing`.
pub open spec fn resume_rel(o: Video, n: Video, r: Option<PlaybackOp>) -> bool {
    if o.playback_state == PlaybackState::Paused {
        n == (Video { playback_state: PlaybackState::Playing, ..o }) && r == Some(
            PlaybackOp::Resume { video_id: o.id },
        )
    } else {
        n == o && r is None
    }
}

/// `end_playback`: request an end unless never prepared, and return to
/// `Unprepared` either way.
pub open spec fn end_rel(o: Video, n: Video, r: Option<PlaybackOp>) -> bool {
    &&& n == (Video { playback_state: PlaybackState::Unprepared, ..o })
    &&& if o.playback_state != PlaybackState::Unprepared {
        r == Some(PlaybackOp::End { video_id: o.id })
    } else {
        r is None
    }
}

/// `handle_event`: the widget's reaction to one platform occurrence.
pub open spec fn event_rel(o: Video, n: Video, e: VideoEvent, r: Option<PlaybackOp>) -> bool {
    match e {
        VideoEvent::PlaybackPrepared { video_id, video_width, video_height, duration } => {
            if video_id == o.id {
                n == (Video {
                    playback_state: PlaybackState::Prepared,
                    video_width: video_width as usize,
                    video_height: video_height as usize,
                    total_duration: duration,
                    ..o
                }) && r is None
            } else {
                n == o && r is None
            }
        },
        VideoEvent::TextureUpdated { video_id } => {
            if video_id == o.id {
                n == o && r == Some(PlaybackOp::Redraw)
            } else {
                n == o && r is None
            }
        },
        VideoEvent::PlaybackCompleted { video_id } => {
            if video_id == o.id && !o.is_looping {
                n == (Video { playback_state: PlaybackState::Completed, ..o }) && r is None
            } else {
                n == o && r is None
            }
        },
        VideoEvent::TextureHandleReady { texture_id, handle } => {
            if o.texture_id == Some(texture_id) {
                let m = Video { texture_handle: Some(handle), ..o };
                if o.autoplay && o.playback_state == PlaybackState::Unprepared {
                    prepare_rel(m, n, r)
                } else {
                    n == m && r is None
                }
            } else {
                n == o && r is None
            }
        },
        VideoEvent::FingerDown => {
            if o.hold_to_pause {
                pause_rel(o, n, r)
            } else {
                n == o && r is None
            }
        },
        VideoEvent::FingerUp => {
            if o.hold_to_pause {
                resume_rel(o, n, r)
            } else {
                n == o && r is None
            }
        },
        VideoEvent::Pause => pause_rel(o, n, r),
        VideoEvent::Resume => resume_rel(o, n, r),
        VideoEvent::DecodingError { .. } => n == o && r is None,
    }
}

impl VideoDataSource {
    /// An equal copy, field by field.
    fn duplicate(&self) -> (r: VideoDataSource)
        ensures
            r == *self,
    {
        match self {
            VideoDataSource::Dependency { path } => VideoDataSource::Dependency {
                path: path.clone(),
            },
            VideoDataSource::Network { url } => VideoDataSource::Network { url: url.clone() },
            VideoDataSource::Filesystem { path } => VideoDataSource::Filesystem {
                path: path.clone(),
            },
        }
    }
}

impl Video {
    /// A fresh, unprepared widget for playback `id`.
    pub fn new(id: u64, source: VideoDataSource, is_looping: bool, hold_to_pause: bool, autoplay: bool) -> (r: Video)
        ensures
            r == (Video {
                id,
                source,
                texture_id: None,
                texture_handle: None,
                is_looping,
                hold_to_pause,
                autoplay,
                pause_on_first_frame: false,
                playback_state: PlaybackState::Unprepared,
                video_width: 0,
                video_height: 0,
                total_duration: 0,
            }),
    {
        Video {
            id,
            source,
            texture_id: None,
            texture_handle: None,
            is_looping,
            hold_to_pause,
            autoplay,
            pause_on_first_frame: false,
            playback_state: PlaybackState::Unprepared,
            video_width: 0,
            video_height: 0,
            total_duration: 0,
        }
    }

    fn prepare_playback(&mut self) -> (r: Option<PlaybackOp>)
        ensures
            prepare_rel(*old(self), *final(self), r),
    {
        let handle = match self.texture_handle {
            Some(h) => h,
            None => {
                return None;
            },
        };
        if self.playback_state == PlaybackState::Unprepared {
            let op = PlaybackOp::Prepare {
                video_id: self.id,
                source: self.source.duplicate(),
                texture_handle: handle,
                autoplay: self.autoplay,
                is_looping: self.is_looping,
                pause_on_first_frame: self.pause_on_first_frame,
            };
            self.playback_state = PlaybackState::Preparing;
            Some(op)
        } else {
            None
        }
    }

    fn preview_first_frame(&mut self) -> (r: Option<PlaybackOp>)
        ensures
            preview_rel(*old(self), *final(self), r),
    {
        if self.playback_state == PlaybackState::Unprepared {
            let op = self.prepare_playback();
            let ghost mid = *self;
            self.pause_on_first_frame = true;
            self.playback_state = PlaybackState::Previewing;
            proof {
                assert(prepare_rel(*old(self), mid, op));
            }
            op
        } else {
            None
        }
    }

    fn begin_playback(&mut self) -> (r: Option<PlaybackOp>)
        ensures
            begin_rel(*old(self), *final(self), r),
    {
        if self.playback_state == PlaybackState::Unprepared {
            let op = self.prepare_playback();
            let ghost mid = *self;
            self.playback_state = PlaybackState::Playing;
            proof {
                assert(prepare_rel(*old(self), mid, op));
            }
            op
        } else {
            None
        }
    }

    fn pause_playback(&mut self) -> (r: Option<PlaybackOp>)
        ensures
            pause_rel(*old(self), *final(self), r),
    {
        if self.playback_state != PlaybackState::Paused {
            self.playback_state = PlaybackState::Paused;
            Some(PlaybackOp::Pause { video_id: self.id })
        } else {
            None
        }
    }

    fn resume_playback(&mut self) -> (r: Option<PlaybackOp>)
        ensures
            resume_rel(*old(self), *final(self), r),
    {
        if self.playback_state == PlaybackState::Paused {
            self.playback_state = PlaybackState::Playing;
            Some(PlaybackOp::Resume { video_id: self.id })
        } else {
            None
        }
    }

    fn end_playback(&mut self) -> (r: Option<PlaybackOp>)
        ensures
            end_rel(*old(self), *final(self), r),
    {
        let op = if self.playback_state != PlaybackState::Unprepared {
            Some(PlaybackOp::End { video_id: self.id })
        } else {
            None
        };
        self.playback_state = PlaybackState::Unprepared;
        op
    }

    fn set_source(&mut self, source: VideoDataSource)
        ensures
            old(self).playback_state == PlaybackState::Unprepared ==> *final(self) == (Video {
                source,
                ..*old(self)
            }),
            old(self).playback_state != PlaybackState::Unprepared ==> *final(self) == *old(self),
    {
        if self.playback_state == PlaybackState::Unprepared {
            self.source = source;
        }
    }

    /// React to one platform occurrence, returning the request the
    /// platform should perform, if any.
    pub fn handle_event(&mut self, event: &VideoEvent) -> (r: Option<PlaybackOp>)
        ensures
            event_rel(*old(self), *final(self), *event, r),
    {
        match event {
            VideoEvent::PlaybackPrepared { video_id, video_width, video_height, duration } => {
                if *video_id == self.id {
                    self.playback_state = PlaybackState::Prepared;
                    self.video_width = *video_width as usize;
                    self.video_height = *video_height as usize;
                    self.total_duration = *duration;
                }
                None
            },
            VideoEvent::TextureUpdated { video_id } => {
                if *video_id == self.id {
                    Some(PlaybackOp::Redraw)
                } else {
                    None
                }
            },
            VideoEvent::PlaybackCompleted { video_id } => {
                if *video_id == self.id && !self.is_looping {
                    self.playback_state = PlaybackState::Completed;
                }
                None
            },
            VideoEvent::TextureHandleReady { texture_id, handle } => {
                let matches_texture = match self.texture_id {
                    Some(t) => t == *texture_id,
                    None => false,
                };
                if matches_texture {
                    self.texture_handle = Some(*handle);
                    if self.autoplay && self.playback_state == PlaybackState::Unprepared {
                        self.prepare_playback()
                    } else {
                        None
                    }
                } else {
                    None
                }
            },
            VideoEvent::FingerDown => {
                if self.hold_to_pause {
                    self.pause_playback()
                } else {
                    None
                }
            },
            VideoEvent::FingerUp => {
                if self.hold_to_pause {
                    self.resume_playback()
                } else {
                    None
                }
            },
            VideoEvent::Pause => self.pause_playback(),
            VideoEvent::Resume => self.resume_playback(),
            VideoEvent::DecodingError { .. } => None,
        }
    }
}

/// A possibly empty reference to a video widget, mirroring how widget
/// handles may dangle; every operation is a no-op on an empty reference.
#[derive(Clone, Debug)]
pub struct VideoRef(pub Option<Video>);

impl VideoRef {
    /// Prepare playback paused on the first frame.
    pub fn preview_first_frame(&mut self) -> (r: Option<PlaybackOp>)
        ensures
            old(self).0 is None ==> *final(self) == *old(self) && r is None,
            old(self).0 matches Some(v) ==> final(self).0 matches Some(n) && preview_rel(v, n, r),
    {
        match &mut self.0 {
            Some(inner) => inner.preview_first_frame(),
            None => None,
        }
    }

    /// Prepare and start playback.
    pub fn begin_playback(&mut self) -> (r: Option<PlaybackOp>)
        ensures
            old(self).0 is None ==> *final(self) == *old(self) && r is None,
            old(self).0 matches Some(v) ==> final(self).0 matches Some(n) && begin_rel(v, n, r),
    {
        match &mut self.0 {
            Some(inner) => inner.begin_playback(),
            None => None,
        }
    }

    /// Pause playback.
    pub fn pause_playback(&mut self) -> (r: Option<PlaybackOp>)
        ensures
            old(self).0 is None ==> *final(self) == *old(self) && r is None,
            old(self).0 matches Some(v) ==> final(self).0 matches Some(n) && pause_rel(v, n, r),
    {
        match &mut self.0 {
            Some(inner) => inner.pause_playback(),
            None => None,
        }
    }

    /// Resume paused playback.
    pub fn resume_playback(&mut self) -> (r: Option<PlaybackOp>)
        ensures
            old(self).0 is None ==> *final(self) == *old(self) && r is None,
            old(self).0 matches Some(v) ==> final(self).0 matches Some(n) && resume_rel(v, n, r),
    {
        match &mut self.0 {
            Some(inner) => inner.resume_playback(),
            None => None,
        }
    }

    /// Finish playback and release decoding resources.
    pub fn end_playback(&mut self) -> (r: Option<PlaybackOp>)
        ensures
            old(self).0 is None ==> *final(self) == *old(self) && r is None,
            old(self).0 matches Some(v) ==> final(self).0 matches Some(n) && end_rel(v, n, r),
    {
        match &mut self.0 {
            Some(inner) => inner.end_playback(),
            None => None,
        }
    }

    /// Change the source; only allowed before playback was prepared.
    pub fn set_source(&mut self, source: VideoDataSource)
        ensures
            old(self).0 is None ==> *final(self) == *old(self),
            old(self).0 matches Some(v) ==> final(self).0 matches Some(n) && (
            v.playback_state == PlaybackState::Unprepared ==> n == (Video { source, ..v })) && (
            v.playback_state != PlaybackState::Unprepared ==> n == v),
    {
        match &mut self.0 {
            Some(inner) => inner.set_source(source),
            None => (),
        }
    }
}

/// A set of video widget references.
#[derive(Clone, Debug)]
pub struct VideoSet(pub Vec<VideoRef>);

} // verus!
