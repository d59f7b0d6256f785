//! Video capability extension for a media player.
//!
//! A façade of grouped video operations over a player handle: fullscreen
//! and input flags, track selection with the engine's -1 absence sentinel,
//! aspect ratio, track-description decoding through the linked-list
//! projector, integer picture adjustments, teletext, marquee configuration
//! with its timeout clamped to the engine's integer range, and
//! deinterlacing.  The scale and floating-point adjustment accessors of the
//! engine interface work on floating-point values and stay outside the
//! verified library.

use vstd::prelude::*;

verus! {

use vstd::slice::slice_to_vec;
use vstd::pervasive::VecAdditionalExecFns;
use vstd::utf8::encode_utf8;

use crate::engine::{Engine, EngineView, PlayerSlotView};
use crate::enums::VideoAdjustOption;
use crate::media_player::{
    blank_player_slot, decode_td_list, tds_decoded, MediaPlayer, TrackDescription,
};
use crate::media::opt_lossy;
use crate::tools::{nul_free, opt_view};

broadcast use vstd::seq_lib::group_seq_properties;

/// The stored value of an integer picture adjustment.
pub open spec fn adjust_of(s: PlayerSlotView, option: VideoAdjustOption) -> i32 {
    match option {
        VideoAdjustOption::Enable => s.adjust_enable,
        VideoAdjustOption::Contrast => s.adjust_contrast,
        VideoAdjustOption::Brightness => s.adjust_brightness,
        VideoAdjustOption::Hue => s.adjust_hue,
        VideoAdjustOption::Saturation => s.adjust_saturation,
        VideoAdjustOption::Gamma => s.adjust_gamma,
    }
}

/// The slot after an integer picture adjustment is stored.
pub open spec fn with_adjust(s: PlayerSlotView, option: VideoAdjustOption, value: i32) -> PlayerSlotView {
    match option {
        VideoAdjustOption::Enable => PlayerSlotView { adjust_enable: value, ..s },
        VideoAdjustOption::Contrast => PlayerSlotView { adjust_contrast: value, ..s },
        VideoAdjustOption::Brightness => PlayerSlotView { adjust_brightness: value, ..s },
        VideoAdjustOption::Hue => PlayerSlotView { adjust_hue: value, ..s },
        VideoAdjustOption::Saturation => PlayerSlotView { adjust_saturation: value, ..s },
        VideoAdjustOption::Gamma => PlayerSlotView { adjust_gamma: value, ..s },
    }
}

/// A marquee timeout in milliseconds clamped to the engine's signed 32-bit
/// range.
pub open spec fn clamp_ms(t: u64) -> i32 {
    if t > 0x7fff_ffff {
        0x7fff_ffff
    } else {
        t as i32
    }
}

/// Grouped video operations of a media player.
pub trait MediaPlayerVideoEx {
    /// The player slot the operations act on.
    spec fn vid(&self) -> int;

    /// Toggle fullscreen.
    fn toggle_fullscreen(&self, e: &mut Engine)
        requires
            old(e).wf(),
            0 <= self.vid() < old(e)@.players.len(),
            old(e)@.players[self.vid()].refs >= 1,
        ensures
            final(e).wf(),
            final(e)@ == (EngineView {
                players: old(e)@.players.update(self.vid(), (PlayerSlotView {
                    fullscreen: !old(e)@.players[self.vid()].fullscreen,
                    ..old(e)@.players[self.vid()]
                })),
                ..old(e)@
            }),
    ;

    /// Enable or disable fullscreen.
    fn set_fullscreen(&self, e: &mut Engine, fullscreen: bool)
        requires
            old(e).wf(),
            0 <= self.vid() < old(e)@.players.len(),
            old(e)@.players[self.vid()].refs >= 1,
        ensures
            final(e).wf(),
            final(e)@ == (EngineView {
                players: old(e)@.players.update(self.vid(), (PlayerSlotView {
                    fullscreen,
                    ..old(e)@.players[self.vid()]
                })),
                ..old(e)@
            }),
    ;

    /// Whether fullscreen is on.
    fn get_fullscreen(&self, e: &Engine) -> (r: bool)
        requires
            e.wf(),
            0 <= self.vid() < e@.players.len(),
            e@.players[self.vid()].refs >= 1,
        ensures
            r == e@.players[self.vid()].fullscreen,
    ;

    /// Enable or disable key-press event handling.
    fn set_key_input(&self, e: &mut Engine, on: bool)
        requires
            old(e).wf(),
            0 <= self.vid() < old(e)@.players.len(),
            old(e)@.players[self.vid()].refs >= 1,
        ensures
            final(e).wf(),
            final(e)@ == (EngineView {
                players: old(e)@.players.update(self.vid(), (PlayerSlotView {
                    key_input: on,
                    ..old(e)@.players[self.vid()]
                })),
                ..old(e)@
            }),
    ;

    /// Enable or disable mouse-click event handling.
    fn set_mouse_input(&self, e: &mut Engine, on: bool)
        requires
            old(e).wf(),
            0 <= self.vid() < old(e)@.players.len(),
            old(e)@.players[self.vid()].refs >= 1,
        ensures
            final(e).wf(),
            final(e)@ == (EngineView {
                players: old(e)@.players.update(self.vid(), (PlayerSlotView {
                    mouse_input: on,
                    ..old(e)@.players[self.vid()]
                })),
                ..old(e)@
            }),
    ;

    /// The pixel size of the video output; absent when there is none.  The
    /// model carries a single video output, so `num` selects nothing.
    fn get_size(&self, e: &Engine, num: u32) -> (r: Option<(u32, u32)>)
        requires
            e.wf(),
            0 <= self.vid() < e@.players.len(),
            e@.players[self.vid()].refs >= 1,
        ensures
            r == e@.players[self.vid()].video_size,
    ;

    /// The current video track id; the engine's -1 sentinel is absent.
    fn get_video_track(&self, e: &Engine) -> (r: Option<i32>)
        requires
            e.wf(),
            0 <= self.vid() < e@.players.len(),
            e@.players[self.vid()].refs >= 1,
        ensures
            e@.players[self.vid()].video_track == -1 ==> r is None,
            e@.players[self.vid()].video_track != -1 ==> r == Some(
                e@.players[self.vid()].video_track,
            ),
    ;

    /// Select a video track by id.
    fn set_video_track(&self, e: &mut Engine, track: i32)
        requires
            old(e).wf(),
            0 <= self.vid() < old(e)@.players.len(),
            old(e)@.players[self.vid()].refs >= 1,
        ensures
            final(e).wf(),
            final(e)@ == (EngineView {
                players: old(e)@.players.update(self.vid(), (PlayerSlotView {
                    video_track: track,
                    ..old(e)@.players[self.vid()]
                })),
                ..old(e)@
            }),
    ;

    /// The mouse position over the video output; absent when there is none.
    /// The model carries a single video output, so `num` selects nothing.
    fn get_cursor(&self, e: &Engine, num: u32) -> (r: Option<(i32, i32)>)
        requires
            e.wf(),
            0 <= self.vid() < e@.players.len(),
            e@.players[self.vid()].refs >= 1,
        ensures
            r == e@.players[self.vid()].cursor,
    ;

    /// The current aspect ratio, lossily decoded; absent when the engine
    /// yields null.  The engine-allocated buffer is freed exactly once when
    /// one was handed out.
    fn get_aspect_ratio(&self, e: &mut Engine) -> (r: Option<String>)
        requires
            old(e).wf(),
            0 <= self.vid() < old(e)@.players.len(),
            old(e)@.players[self.vid()].refs >= 1,
            old(e).frees < u64::MAX,
        ensures
            final(e).wf(),
            opt_view(r) == opt_lossy(old(e)@.players[self.vid()].aspect),
            old(e)@.players[self.vid()].aspect is None ==> *final(e) == *old(e),
            old(e)@.players[self.vid()].aspect is Some ==> final(e)@ == (EngineView {
                frees: (old(e).frees + 1) as u64,
                ..old(e)@
            }),
    ;

    /// Set the aspect ratio, or reset it to the default with an absent
    /// value.  An embedded zero byte in the text is excluded as everywhere
    /// on the encoding path.
    fn set_aspect_ratio(&self, e: &mut Engine, aspect: Option<&str>)
        requires
            old(e).wf(),
            0 <= self.vid() < old(e)@.players.len(),
            old(e)@.players[self.vid()].refs >= 1,
            aspect matches Some(a) ==> nul_free(encode_utf8(a@)),
        ensures
            final(e).wf(),
            final(e)@ == (EngineView {
                players: old(e)@.players.update(self.vid(), (PlayerSlotView {
                    aspect: match aspect {
                        Some(a) => Some(encode_utf8(a@)),
                        None => None,
                    },
                    ..old(e)@.players[self.vid()]
                })),
                ..old(e)@
            }),
    ;

    /// Decode the video track descriptions from the engine's native linked
    /// list; absent when the engine yields a null list (nothing to release),
    /// otherwise fully materialised in head-to-tail order with the native
    /// list released exactly once.
    fn get_video_track_description(&self, e: &mut Engine) -> (r: Option<Vec<TrackDescription>>)
        requires
            old(e).wf(),
            0 <= self.vid() < old(e)@.players.len(),
            old(e)@.players[self.vid()].refs >= 1,
            old(e).td_releases < u64::MAX,
        ensures
            final(e).wf(),
            old(e)@.players[self.vid()].video_tds is None ==> r is None && *final(e) == *old(e),
            old(e)@.players[self.vid()].video_tds matches Some(s) ==> (r matches Some(v)
                && v@.map_values(|t: TrackDescription| t@) == tds_decoded(s) && final(e)@
                == (EngineView { td_releases: (old(e).td_releases + 1) as u64, ..old(e)@ })),
    ;

    /// The stored value of an integer picture adjustment.
    fn get_adjust_int(&self, e: &Engine, option: VideoAdjustOption) -> (r: i32)
        requires
            e.wf(),
            0 <= self.vid() < e@.players.len(),
            e@.players[self.vid()].refs >= 1,
        ensures
            r == adjust_of(e@.players[self.vid()], option),
    ;

    /// Store an integer picture adjustment.
    fn set_adjust_int(&self, e: &mut Engine, option: VideoAdjustOption, value: i32)
        requires
            old(e).wf(),
            0 <= self.vid() < old(e)@.players.len(),
            old(e)@.players[self.vid()].refs >= 1,
        ensures
            final(e).wf(),
            final(e)@ == (EngineView {
                players: old(e)@.players.update(
                    self.vid(),
                    with_adjust(old(e)@.players[self.vid()], option, value),
                ),
                ..old(e)@
            }),
    ;

    /// Decode the subtitle track descriptions, as for the video ones.
    fn get_spu_track_description(&self, e: &mut Engine) -> (r: Option<Vec<TrackDescription>>)
        requires
            old(e).wf(),
            0 <= self.vid() < old(e)@.players.len(),
            old(e)@.players[self.vid()].refs >= 1,
            old(e).td_releases < u64::MAX,
        ensures
            final(e).wf(),
            old(e)@.players[self.vid()].spu_tds is None ==> r is None && *final(e) == *old(e),
            old(e)@.players[self.vid()].spu_tds matches Some(s) ==> (r matches Some(v)
                && v@.map_values(|t: TrackDescription| t@) == tds_decoded(s) && final(e)@
                == (EngineView { td_releases: (old(e).td_releases + 1) as u64, ..old(e)@ })),
    ;

    /// The current subtitle track id; the engine's -1 sentinel is absent.
    fn get_spu_track(&self, e: &Engine) -> (r: Option<i32>)
        requires
            e.wf(),
            0 <= self.vid() < e@.players.len(),
            e@.players[self.vid()].refs >= 1,
        ensures
            e@.players[self.vid()].spu_track == -1 ==> r is None,
            e@.players[self.vid()].spu_track != -1 ==> r == Some(e@.players[self.vid()].spu_track),
    ;

    /// Select a subtitle track by id.
    fn set_spu_track(&self, e: &mut Engine, track: i32)
        requires
            old(e).wf(),
            0 <= self.vid() < old(e)@.players.len(),
            old(e)@.players[self.vid()].refs >= 1,
        ensures
            final(e).wf(),
            final(e)@ == (EngineView {
                players: old(e)@.players.update(self.vid(), (PlayerSlotView {
                    spu_track: track,
                    ..old(e)@.players[self.vid()]
                })),
                ..old(e)@
            }),
    ;

    /// The requested teletext page.
    fn get_teletext(&self, e: &Engine) -> (r: i32)
        requires
            e.wf(),
            0 <= self.vid() < e@.players.len(),
            e@.players[self.vid()].refs >= 1,
        ensures
            r == e@.players[self.vid()].teletext,
    ;

    /// The currently showing teletext page.
    fn get_teletext_active(&self, e: &Engine) -> (r: i32)
        requires
            e.wf(),
            0 <= self.vid() < e@.players.len(),
            e@.players[self.vid()].refs >= 1,
        ensures
            r == e@.players[self.vid()].teletext_active,
    ;

    /// Set the teletext page to display: zero disables teletext, one to 999
    /// loads the page, and the special key values follow links.
    fn set_teletext(&self, e: &mut Engine, page: u32)
        requires
            old(e).wf(),
            0 <= self.vid() < old(e)@.players.len(),
            old(e)@.players[self.vid()].refs >= 1,
            page <= 0x7fff_ffff,
        ensures
            final(e).wf(),
            final(e)@ == (EngineView {
                players: old(e)@.players.update(self.vid(), (PlayerSlotView {
                    teletext: page as i32,
                    ..old(e)@.players[self.vid()]
                })),
                ..old(e)@
            }),
    ;

    /// Render an opaque background behind teletext pages, or a transparent
    /// one.
    fn set_teletext_opaque(&self, e: &mut Engine, opaque: bool)
        requires
            old(e).wf(),
            0 <= self.vid() < old(e)@.players.len(),
            old(e)@.players[self.vid()].refs >= 1,
        ensures
            final(e).wf(),
            final(e)@ == (EngineView {
                players: old(e)@.players.update(self.vid(), (PlayerSlotView {
                    teletext_opaque: opaque,
                    ..old(e)@.players[self.vid()]
                })),
                ..old(e)@
            }),
    ;

    /// Configure a message to show as marquee on top of the video, or
    /// disable the marquee with an absent message.  The timeout in
    /// milliseconds is clamped to the engine's signed 32-bit range; absent
    /// timeout and coordinates default to zero.
    fn set_marquee(&self, e: &mut Engine, message: Option<&str>, timeout_ms: Option<u64>, x: Option<i32>, y: Option<i32>)
        requires
            old(e).wf(),
            0 <= self.vid() < old(e)@.players.len(),
            old(e)@.players[self.vid()].refs >= 1,
            message matches Some(m) ==> nul_free(encode_utf8(m@)),
        ensures
            final(e).wf(),
            message is None ==> final(e)@ == (EngineView {
                players: old(e)@.players.update(self.vid(), (PlayerSlotView {
                    marquee_enabled: false,
                    ..old(e)@.players[self.vid()]
                })),
                ..old(e)@
            }),
            message matches Some(m) ==> final(e)@ == (EngineView {
                players: old(e)@.players.update(self.vid(), (PlayerSlotView {
                    marquee_text: Some(encode_utf8(m@)),
                    marquee_timeout: clamp_ms(match timeout_ms {
                        Some(tm) => tm,
                        None => 0u64,
                    }),
                    marquee_x: match x {
                        Some(xv) => xv,
                        None => 0i32,
                    },
                    marquee_y: match y {
                        Some(yv) => yv,
                        None => 0i32,
                    },
                    marquee_enabled: true,
                    ..old(e)@.players[self.vid()]
                })),
                ..old(e)@
            }),
    ;

    /// Set the marquee text color, as an RGB value.
    fn set_marquee_color(&self, e: &mut Engine, color: i32)
        requires
            old(e).wf(),
            0 <= self.vid() < old(e)@.players.len(),
            old(e)@.players[self.vid()].refs >= 1,
        ensures
            final(e).wf(),
            final(e)@ == (EngineView {
                players: old(e)@.players.update(self.vid(), (PlayerSlotView {
                    marquee_color: color,
                    ..old(e)@.players[self.vid()]
                })),
                ..old(e)@
            }),
    ;

    /// Set the marquee text opacity, zero transparent to 255 opaque.
    fn set_marquee_opacity(&self, e: &mut Engine, opacity: u8)
        requires
            old(e).wf(),
            0 <= self.vid() < old(e)@.players.len(),
            old(e)@.players[self.vid()].refs >= 1,
        ensures
            final(e).wf(),
            final(e)@ == (EngineView {
                players: old(e)@.players.update(self.vid(), (PlayerSlotView {
                    marquee_opacity: opacity as i32,
                    ..old(e)@.players[self.vid()]
                })),
                ..old(e)@
            }),
    ;

    /// Set the deinterlacing mode by name, or disable deinterlacing with an
    /// absent mode.
    fn set_deinterlace(&self, e: &mut Engine, mode: Option<&str>)
        requires
            old(e).wf(),
            0 <= self.vid() < old(e)@.players.len(),
            old(e)@.players[self.vid()].refs >= 1,
            mode matches Some(m) ==> nul_free(encode_utf8(m@)),
        ensures
            final(e).wf(),
            final(e)@ == (EngineView {
                players: old(e)@.players.update(self.vid(), (PlayerSlotView {
                    deinterlace: match mode {
                        Some(m) => Some(encode_utf8(m@)),
                        None => None,
                    },
                    ..old(e)@.players[self.vid()]
                })),
                ..old(e)@
            }),
    ;
}

impl MediaPlayerVideoEx for MediaPlayer {
    open spec fn vid(&self) -> int {
        self.id_spec()
    }

    fn toggle_fullscreen(&self, e: &mut Engine) {
        let id = self.id();
        let mut slot = blank_player_slot();
        e.players.set_and_swap(id, &mut slot);
        slot.fullscreen = !slot.fullscreen;
        let ghost slot_v = slot@;
        e.players.set(id, slot);
        proof {
            assert(e@.players =~~= old(e)@.players.update(self.vid(), slot_v));
            assert(e@ =~~= (EngineView {
                players: old(e)@.players.update(self.vid(), slot_v),
                ..old(e)@
            }));
        }
    }

    fn set_fullscreen(&self, e: &mut Engine, fullscreen: bool) {
        let id = self.id();
        let mut slot = blank_player_slot();
        e.players.set_and_swap(id, &mut slot);
        slot.fullscreen = fullscreen;
        let ghost slot_v = slot@;
        e.players.set(id, slot);
        proof {
            assert(e@.players =~~= old(e)@.players.update(self.vid(), slot_v));
            assert(e@ =~~= (EngineView {
                players: old(e)@.players.update(self.vid(), slot_v),
                ..old(e)@
            }));
        }
    }

    fn get_fullscreen(&self, e: &Engine) -> (r: bool) {
        e.players[self.id()].fullscreen
    }

    fn set_key_input(&self, e: &mut Engine, on: bool) {
        let id = self.id();
        let mut slot = blank_player_slot();
        e.players.set_and_swap(id, &mut slot);
        slot.key_input = on;
        let ghost slot_v = slot@;
        e.players.set(id, slot);
        proof {
            assert(e@.players =~~= old(e)@.players.update(self.vid(), slot_v));
            assert(e@ =~~= (EngineView {
                players: old(e)@.players.update(self.vid(), slot_v),
                ..old(e)@
            }));
        }
    }

    fn set_mouse_input(&self, e: &mut Engine, on: bool) {
        let id = self.id();
        let mut slot = blank_player_slot();
        e.players.set_and_swap(id, &mut slot);
        slot.mouse_input = on;
        let ghost slot_v = slot@;
        e.players.set(id, slot);
        proof {
            assert(e@.players =~~= old(e)@.players.update(self.vid(), slot_v));
            assert(e@ =~~= (EngineView {
                players: old(e)@.players.update(self.vid(), slot_v),
                ..old(e)@
            }));
        }
    }

    fn get_size(&self, e: &Engine, num: u32) -> (r: Option<(u32, u32)>) {
        let _ = num;
        e.players[self.id()].video_size
    }

    fn get_video_track(&self, e: &Engine) -> (r: Option<i32>) {
        let track = e.players[self.id()].video_track;
        if track == -1i32 {
            None
        } else {
            Some(track)
        }
    }

    fn set_video_track(&self, e: &mut Engine, track: i32) {
        let id = self.id();
        let mut slot = blank_player_slot();
        e.players.set_and_swap(id, &mut slot);
        slot.video_track = track;
        let ghost slot_v = slot@;
        e.players.set(id, slot);
        proof {
            assert(e@.players =~~= old(e)@.players.update(self.vid(), slot_v));
            assert(e@ =~~= (EngineView {
                players: old(e)@.players.update(self.vid(), slot_v),
                ..old(e)@
            }));
        }
    }

    fn get_cursor(&self, e: &Engine, num: u32) -> (r: Option<(i32, i32)>) {
        let _ = num;
        e.players[self.id()].cursor
    }

    fn get_aspect_ratio(&self, e: &mut Engine) -> (r: Option<String>) {
        let id = self.id();
        let r = match &e.players[id].aspect {
            None => None,
            Some(b) => Some(crate::tools::from_cstr_bytes(b)),
        };
        if r.is_some() {
            e.frees = e.frees + 1;
            proof {
                assert(e@ =~~= (EngineView { frees: (old(e).frees + 1) as u64, ..old(e)@ }));
            }
        }
        r
    }

    fn set_aspect_ratio(&self, e: &mut Engine, aspect: Option<&str>) {
        let id = self.id();
        let mut slot = blank_player_slot();
        e.players.set_and_swap(id, &mut slot);
        slot.aspect = match aspect {
            Some(a) => Some(slice_to_vec(a.as_bytes())),
            None => None,
        };
        let ghost slot_v = slot@;
        e.players.set(id, slot);
        proof {
            assert(e@.players =~~= old(e)@.players.update(self.vid(), slot_v));
            assert(e@ =~~= (EngineView {
                players: old(e)@.players.update(self.vid(), slot_v),
                ..old(e)@
            }));
        }
    }

    fn get_video_track_description(&self, e: &mut Engine) -> (r: Option<Vec<TrackDescription>>) {
        let id = self.id();
        let r = match &e.players[id].video_tds {
            None => None,
            Some(tds) => Some(decode_td_list(tds)),
        };
        match r {
            None => None,
            Some(v) => {
                e.td_releases = e.td_releases + 1;
                proof {
                    assert(e@ =~~= (EngineView {
                        td_releases: (old(e).td_releases + 1) as u64,
                        ..old(e)@
                    }));
                }
                Some(v)
            },
        }
    }

    fn get_adjust_int(&self, e: &Engine, option: VideoAdjustOption) -> (r: i32) {
        let slot = &e.players[self.id()];
        match option {
            VideoAdjustOption::Enable => slot.adjust_enable,
            VideoAdjustOption::Contrast => slot.adjust_contrast,
            VideoAdjustOption::Brightness => slot.adjust_brightness,
            VideoAdjustOption::Hue => slot.adjust_hue,
            VideoAdjustOption::Saturation => slot.adjust_saturation,
            VideoAdjustOption::Gamma => slot.adjust_gamma,
        }
    }

    fn set_adjust_int(&self, e: &mut Engine, option: VideoAdjustOption, value: i32) {
        let id = self.id();
        let mut slot = blank_player_slot();
        e.players.set_and_swap(id, &mut slot);
        match option {
            VideoAdjustOption::Enable => {
                slot.adjust_enable = value;
            },
            VideoAdjustOption::Contrast => {
                slot.adjust_contrast = value;
            },
            VideoAdjustOption::Brightness => {
                slot.adjust_brightness = value;
            },
            VideoAdjustOption::Hue => {
                slot.adjust_hue = value;
            },
            VideoAdjustOption::Saturation => {
                slot.adjust_saturation = value;
            },
            VideoAdjustOption::Gamma => {
                slot.adjust_gamma = value;
            },
        }
        let ghost slot_v = slot@;
        e.players.set(id, slot);
        proof {
            assert(e@.players =~~= old(e)@.players.update(self.vid(), slot_v));
            assert(e@ =~~= (EngineView {
                players: old(e)@.players.update(self.vid(), slot_v),
                ..old(e)@
            }));
        }
    }

    fn get_spu_track_description(&self, e: &mut Engine) -> (r: Option<Vec<TrackDescription>>) {
        let id = self.id();
        let r = match &e.players[id].spu_tds {
            None => None,
            Some(tds) => Some(decode_td_list(tds)),
        };
        match r {
            None => None,
            Some(v) => {
                e.td_releases = e.td_releases + 1;
                proof {
                    assert(e@ =~~= (EngineView {
                        td_releases: (old(e).td_releases + 1) as u64,
                        ..old(e)@
                    }));
                }
                Some(v)
            },
        }
    }

    fn get_spu_track(&self, e: &Engine) -> (r: Option<i32>) {
        let track = e.players[self.id()].spu_track;
        if track == -1i32 {
            None
        } else {
            Some(track)
        }
    }

    fn set_spu_track(&self, e: &mut Engine, track: i32) {
        let id = self.id();
        let mut slot = blank_player_slot();
        e.players.set_and_swap(id, &mut slot);
        slot.spu_track = track;
        let ghost slot_v = slot@;
        e.players.set(id, slot);
        proof {
            assert(e@.players =~~= old(e)@.players.update(self.vid(), slot_v));
            assert(e@ =~~= (EngineView {
                players: old(e)@.players.update(self.vid(), slot_v),
                ..old(e)@
            }));
        }
    }

    fn get_teletext(&self, e: &Engine) -> (r: i32) {
        e.players[self.id()].teletext
    }

    fn get_teletext_active(&self, e: &Engine) -> (r: i32) {
        e.players[self.id()].teletext_active
    }

    fn set_teletext(&self, e: &mut Engine, page: u32) {
        let id = self.id();
        let mut slot = blank_player_slot();
        e.players.set_and_swap(id, &mut slot);
        slot.teletext = page as i32;
        let ghost slot_v = slot@;
        e.players.set(id, slot);
        proof {
            assert(e@.players =~~= old(e)@.players.update(self.vid(), slot_v));
            assert(e@ =~~= (EngineView {
                players: old(e)@.players.update(self.vid(), slot_v),
                ..old(e)@
            }));
        }
    }

    fn set_teletext_opaque(&self, e: &mut Engine, opaque: bool) {
        let id = self.id();
        let mut slot = blank_player_slot();
        e.players.set_and_swap(id, &mut slot);
        slot.teletext_opaque = opaque;
        let ghost slot_v = slot@;
        e.players.set(id, slot);
        proof {
            assert(e@.players =~~= old(e)@.players.update(self.vid(), slot_v));
            assert(e@ =~~= (EngineView {
                players: old(e)@.players.update(self.vid(), slot_v),
                ..old(e)@
            }));
        }
    }

    fn set_marquee(&self, e: &mut Engine, message: Option<&str>, timeout_ms: Option<u64>, x: Option<i32>, y: Option<i32>) {
        let id = self.id();
        let mut slot = blank_player_slot();
        e.players.set_and_swap(id, &mut slot);
        match message {
            Some(m) => {
                slot.marquee_text = Some(slice_to_vec(m.as_bytes()));
                let t: u64 = match timeout_ms {
                    Some(tm) => tm,
                    None => 0u64,
                };
                slot.marquee_timeout = if t > 0x7fff_ffffu64 {
                    0x7fff_ffffi32
                } else {
                    t as i32
                };
                slot.marquee_x = match x {
                    Some(xv) => xv,
                    None => 0i32,
                };
                slot.marquee_y = match y {
                    Some(yv) => yv,
                    None => 0i32,
                };
                slot.marquee_enabled = true;
            },
            None => {
                slot.marquee_enabled = false;
            },
        }
        let ghost slot_v = slot@;
        e.players.set(id, slot);
        proof {
            assert(e@.players =~~= old(e)@.players.update(self.vid(), slot_v));
            assert(e@ =~~= (EngineView {
                players: old(e)@.players.update(self.vid(), slot_v),
                ..old(e)@
            }));
        }
    }

    fn set_marquee_color(&self, e: &mut Engine, color: i32) {
        let id = self.id();
        let mut slot = blank_player_slot();
        e.players.set_and_swap(id, &mut slot);
        slot.marquee_color = color;
        let ghost slot_v = slot@;
        e.players.set(id, slot);
        proof {
            assert(e@.players =~~= old(e)@.players.update(self.vid(), slot_v));
            assert(e@ =~~= (EngineView {
                players: old(e)@.players.update(self.vid(), slot_v),
                ..old(e)@
            }));
        }
    }

    fn set_marquee_opacity(&self, e: &mut Engine, opacity: u8) {
        let id = self.id();
        let mut slot = blank_player_slot();
        e.players.set_and_swap(id, &mut slot);
        slot.marquee_opacity = opacity as i32;
        let ghost slot_v = slot@;
        e.players.set(id, slot);
        proof {
            assert(e@.players =~~= old(e)@.players.update(self.vid(), slot_v));
            assert(e@ =~~= (EngineView {
                players: old(e)@.players.update(self.vid(), slot_v),
                ..old(e)@
            }));
        }
    }

    fn set_deinterlace(&self, e: &mut Engine, mode: Option<&str>) {
        let id = self.id();
        let mut slot = blank_player_slot();
        e.players.set_and_swap(id, &mut slot);
        slot.deinterlace = match mode {
            Some(m) => Some(slice_to_vec(m.as_bytes())),
            None => None,
        };
        let ghost slot_v = slot@;
        e.players.set(id, slot);
        proof {
            assert(e@.players =~~= old(e)@.players.update(self.vid(), slot_v));
            assert(e@ =~~= (EngineView {
                players: old(e)@.players.update(self.vid(), slot_v),
                ..old(e)@
            }));
        }
    }
}

} // verus!
