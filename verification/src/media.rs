//! The media handle wrapper and the tagged-union track decoder.
//!
//! A [`Media`] value exclusively owns one engine-side reference to a media
//! resource: constructing it acquires the reference, and [`Media::release`]
//! consumes the wrapper, so a second release of the same reference is
//! structurally impossible.  The track decoder turns the engine's tagged
//! union records into a closed variant type, branching on the discriminant
//! before touching any variant payload.

use vstd::prelude::*;

verus! {

use vstd::pervasive::VecAdditionalExecFns;
use vstd::slice::slice_to_vec;
use vstd::utf8::encode_utf8;

use crate::engine::{meta_get, new_media_view, Engine, EngineView, MediaSlot, MediaSlotView, MetaEntry};
use crate::enums::{track_type_of, Meta, State, TrackType};
use crate::tools::{from_cstr, lossy_of, nul_free, opt_view};

broadcast use vstd::seq_lib::group_seq_properties;

/// The audio payload of a track record: channel count and sample rate.
#[derive(Clone, Copy, PartialEq, Eq, Structural, Hash, Debug)]
pub struct AudioTrack {
    pub channels: u32,
    pub rate: u32,
}

/// The video payload of a track record: geometry, sample aspect ratio and
/// frame rate, each ratio as numerator and denominator.
#[derive(Clone, Copy, PartialEq, Eq, Structural, Hash, Debug)]
pub struct VideoTrack {
    pub height: u32,
    pub width: u32,
    pub sar_num: u32,
    pub sar_den: u32,
    pub frame_rate_num: u32,
    pub frame_rate_den: u32,
}

/// The subtitle payload of a track record: the optional encoding name.
#[derive(Clone, PartialEq, Eq, Hash, Debug)]
pub struct SubtitleTrack {
    pub encoding: Option<String>,
}

/// The closed variant type decoded from the engine's tagged union: one arm
/// per known discriminant and an explicit catch-all for unknown ones.
#[derive(Clone, PartialEq, Eq, Hash, Debug)]
pub enum MediaTrackUnion {
    Audio(AudioTrack),
    Video(VideoTrack),
    Subtitle(SubtitleTrack),
    Unknown,
}

#[verifier::ext_equal]
pub enum MediaTrackUnionView {
    Audio(AudioTrack),
    Video(VideoTrack),
    Subtitle(Option<Seq<char>>),
    Unknown,
}

impl View for MediaTrackUnion {
    type V = MediaTrackUnionView;

    open spec fn view(&self) -> MediaTrackUnionView {
        match self {
            MediaTrackUnion::Audio(a) => MediaTrackUnionView::Audio(*a),
            MediaTrackUnion::Video(v) => MediaTrackUnionView::Video(*v),
            MediaTrackUnion::Subtitle(s) => MediaTrackUnionView::Subtitle(opt_view(s.encoding)),
            MediaTrackUnion::Unknown => MediaTrackUnionView::Unknown,
        }
    }
}

/// One decoded track of a media resource.
#[derive(Clone, PartialEq, Eq, Hash, Debug)]
pub struct MediaTrack {
    pub codec: u32,
    pub original_fourcc: u32,
    pub id: i32,
    pub track_type: TrackType,
    pub profile: i32,
    pub level: i32,
    pub bitrate: u32,
    pub language: Option<String>,
    pub description: Option<String>,
    pub type_specific_data: MediaTrackUnion,
}

#[verifier::ext_equal]
pub struct MediaTrackView {
    pub codec: u32,
    pub original_fourcc: u32,
    pub id: i32,
    pub track_type: TrackType,
    pub profile: i32,
    pub level: i32,
    pub bitrate: u32,
    pub language: Option<Seq<char>>,
    pub description: Option<Seq<char>>,
    pub type_specific_data: MediaTrackUnionView,
}

impl View for MediaTrack {
    type V = MediaTrackView;

    open spec fn view(&self) -> MediaTrackView {
        MediaTrackView {
            codec: self.codec,
            original_fourcc: self.original_fourcc,
            id: self.id,
            track_type: self.track_type,
            profile: self.profile,
            level: self.level,
            bitrate: self.bitrate,
            language: opt_view(self.language),
            description: opt_view(self.description),
            type_specific_data: self.type_specific_data@,
        }
    }
}

/// A native track record as the engine lays it out: common fields, the
/// discriminant, and the union payload readable as any of the three
/// sub-records.  Which sub-record is valid is decided by the discriminant
/// alone; the decoder must not let the others influence the result.
pub struct RawTrack {
    pub codec: u32,
    pub original_fourcc: u32,
    pub id: i32,
    /// The discriminant selecting the valid union sub-record.
    pub kind: i32,
    pub profile: i32,
    pub level: i32,
    pub bitrate: u32,
    pub language: Option<Vec<u8>>,
    pub description: Option<Vec<u8>>,
    /// The union payload read as the audio sub-record.
    pub audio: AudioTrack,
    /// The union payload read as the video sub-record.
    pub video: VideoTrack,
    /// The union payload read as the subtitle sub-record.
    pub subtitle_encoding: Option<Vec<u8>>,
}

#[verifier::ext_equal]
pub struct RawTrackView {
    pub codec: u32,
    pub original_fourcc: u32,
    pub id: i32,
    pub kind: i32,
    pub profile: i32,
    pub level: i32,
    pub bitrate: u32,
    pub language: Option<Seq<u8>>,
    pub description: Option<Seq<u8>>,
    pub audio: AudioTrack,
    pub video: VideoTrack,
    pub subtitle_encoding: Option<Seq<u8>>,
}

impl View for RawTrack {
    type V = RawTrackView;

    open spec fn view(&self) -> RawTrackView {
        RawTrackView {
            codec: self.codec,
            original_fourcc: self.original_fourcc,
            id: self.id,
            kind: self.kind,
            profile: self.profile,
            level: self.level,
            bitrate: self.bitrate,
            language: opt_view(self.language),
            description: opt_view(self.description),
            audio: self.audio,
            video: self.video,
            subtitle_encoding: opt_view(self.subtitle_encoding),
        }
    }
}

/// Lossy decoding of an optional native string, absent for a null pointer.
pub open spec fn opt_lossy(bytes: Option<Seq<u8>>) -> Option<Seq<char>> {
    match bytes {
        None => None,
        Some(b) => Some(lossy_of(b)),
    }
}

/// What decoding the union payload of a raw track yields: the sub-record
/// selected by the discriminant, or the absent variant for any unknown
/// discriminant.
pub open spec fn decode_union_spec(r: RawTrackView) -> MediaTrackUnionView {
    if r.kind == 0 {
        MediaTrackUnionView::Audio(r.audio)
    } else if r.kind == 1 {
        MediaTrackUnionView::Video(r.video)
    } else if r.kind == 2 {
        MediaTrackUnionView::Subtitle(opt_lossy(r.subtitle_encoding))
    } else {
        MediaTrackUnionView::Unknown
    }
}

/// What decoding a whole raw track record yields.
pub open spec fn decode_track_spec(r: RawTrackView) -> MediaTrackView {
    MediaTrackView {
        codec: r.codec,
        original_fourcc: r.original_fourcc,
        id: r.id,
        track_type: track_type_of(r.kind),
        profile: r.profile,
        level: r.level,
        bitrate: r.bitrate,
        language: opt_lossy(r.language),
        description: opt_lossy(r.description),
        type_specific_data: decode_union_spec(r),
    }
}

/// Decode one native track record into the closed variant type.
///
/// The discriminant is read first and decides which union sub-record is
/// projected; an unrecognised discriminant yields the absent variant and no
/// sub-record is consulted at all.
pub fn decode_track(raw: &RawTrack) -> (r: MediaTrack)
    ensures
        r@ == decode_track_spec(raw@),
{
    let type_specific_data = if raw.kind == 0i32 {
        MediaTrackUnion::Audio(raw.audio)
    } else if raw.kind == 1i32 {
        MediaTrackUnion::Video(raw.video)
    } else if raw.kind == 2i32 {
        MediaTrackUnion::Subtitle(SubtitleTrack { encoding: from_cstr(&raw.subtitle_encoding) })
    } else {
        MediaTrackUnion::Unknown
    };
    let r = MediaTrack {
        codec: raw.codec,
        original_fourcc: raw.original_fourcc,
        id: raw.id,
        track_type: TrackType::from_code(raw.kind),
        profile: raw.profile,
        level: raw.level,
        bitrate: raw.bitrate,
        language: from_cstr(&raw.language),
        description: from_cstr(&raw.description),
        type_specific_data,
    };
    proof {
        assert(r@ =~~= decode_track_spec(raw@));
    }
    r
}

/// Law: the union decoder projects only the sub-record selected by the
/// discriminant.  Two records agreeing on the discriminant and on the
/// selected sub-record decode to the same variant whatever the other union
/// fields hold — so poisoned memory in the unselected sub-records can never
/// leak into the result, and an unknown discriminant reads no sub-record at
/// all.
pub proof fn lemma_union_payload_isolation(a: RawTrackView, b: RawTrackView)
    requires
        a.kind == b.kind,
        a.kind == 0 ==> a.audio == b.audio,
        a.kind == 1 ==> a.video == b.video,
        a.kind == 2 ==> a.subtitle_encoding == b.subtitle_encoding,
    ensures
        decode_union_spec(a) == decode_union_spec(b),
{
}

/// An exclusive host-side reference to one engine media resource.
///
/// The engine hands the reference out through a factory; the wrapper's
/// operations borrow it, and only [`Media::release`] gives it back,
/// consuming the wrapper.
pub struct Media {
    id: usize,
}

/// The engine view after one reference to media `id` is taken.
pub open spec fn media_retained(v: EngineView, id: int) -> EngineView {
    EngineView {
        medias: v.medias.update(
            id,
            MediaSlotView { refs: (v.medias[id].refs + 1) as u32, ..v.medias[id] },
        ),
        ..v
    }
}

/// The engine view after one reference to media `id` is released.
pub open spec fn media_released(v: EngineView, id: int) -> EngineView {
    EngineView {
        medias: v.medias.update(
            id,
            MediaSlotView {
                refs: (v.medias[id].refs - 1) as u32,
                releases: (v.medias[id].releases + 1) as u32,
                ..v.medias[id]
            },
        ),
        ..v
    }
}

/// Law: acquiring a fresh media reference and releasing it leaves the
/// engine having observed exactly one release of it, and no further
/// reference to release.  A wrapper is consumed by its release, and each
/// release requires a live reference, so no execution path can release the
/// same acquisition twice; this law states the counter side of that
/// discipline over the engine model.
pub proof fn lemma_acquire_release_exactly_once(v: EngineView, mrl: Option<Seq<u8>>)
    ensures
        ({
            let id = v.medias.len() as int;
            let acquired = EngineView { medias: v.medias.push(new_media_view(mrl)), ..v };
            let released = media_released(acquired, id);
            &&& released.medias[id].releases == 1
            &&& released.medias[id].refs == 0
        }),
{
}

fn fresh_media_slot(mrl: Option<Vec<u8>>) -> (s: MediaSlot)
    ensures
        s@ == new_media_view(crate::tools::opt_view(mrl)),
{
    let ghost mrl_v = crate::tools::opt_view(mrl);
    let s = MediaSlot {
        refs: 1,
        releases: 0,
        mrl,
        metas: Vec::new(),
        save_ok: true,
        state_code: 0,
        duration_ms: -1,
        parsed: false,
        tracks: Vec::new(),
    };
    proof {
        assert(s@ =~~= new_media_view(mrl_v));
    }
    s
}

pub(crate) fn blank_media_slot() -> MediaSlot {
    MediaSlot {
        refs: 0,
        releases: 0,
        mrl: None,
        metas: Vec::new(),
        save_ok: false,
        state_code: 0,
        duration_ms: -1,
        parsed: false,
        tracks: Vec::new(),
    }
}

impl Media {
    /// The slot this wrapper refers to.
    pub closed spec fn id_spec(&self) -> int {
        self.id as int
    }

    /// A live wrapper: its slot exists and holds the reference it owns.
    pub open spec fn wf(&self, e: &Engine) -> bool {
        &&& 0 <= self.id_spec() < e@.medias.len()
        &&& e@.medias[self.id_spec()].refs >= 1
    }

    pub(crate) fn from_id(id: usize) -> (r: Media)
        ensures
            r.id_spec() == id,
    {
        Media { id }
    }

    /// The raw handle value, as the engine names this resource.
    pub fn raw(&self) -> (r: usize)
        ensures
            r == self.id_spec(),
    {
        self.id
    }

    /// Create a media from a media resource location, for instance a URL.
    ///
    /// An embedded zero byte in `mrl` is a programmer error in the original
    /// interface (the encoding step aborts), so it is excluded here by
    /// precondition; [`Media::new_path`] reports it recoverably instead.
    /// Yields `None` exactly when the engine's factory refuses (a null
    /// handle), in which case nothing was acquired.
    pub fn new_location(e: &mut Engine, mrl: &str) -> (r: Option<Media>)
        requires
            old(e).wf(),
            nul_free(encode_utf8(mrl@)),
            old(e)@.medias.len() < usize::MAX,
        ensures
            final(e).wf(),
            !old(e).can_alloc ==> r is None && *final(e) == *old(e),
            old(e).can_alloc ==> (r matches Some(m) && m.id_spec() == old(e)@.medias.len()
                && m.wf(final(e)) && final(e)@ == (EngineView {
                medias: old(e)@.medias.push(new_media_view(Some(encode_utf8(mrl@)))),
                ..old(e)@
            })),
    {
        if !e.can_alloc {
            return None;
        }
        let bytes = slice_to_vec(mrl.as_bytes());
        let slot = fresh_media_slot(Some(bytes));
        let id = e.medias.len();
        e.medias.push(slot);
        proof {
            assert(e@.medias =~~= old(e)@.medias.push(new_media_view(Some(encode_utf8(mrl@)))));
            assert(e@ =~= EngineView {
                medias: old(e)@.medias.push(new_media_view(Some(encode_utf8(mrl@)))),
                ..old(e)@
            });
        }
        Some(Media { id })
    }

    /// Create a media for a file path.
    ///
    /// Unlike [`Media::new_location`] this reports an embedded zero byte
    /// recoverably: the result is `None`, and nothing was acquired.
    pub fn new_path(e: &mut Engine, path: &str) -> (r: Option<Media>)
        requires
            old(e).wf(),
            old(e)@.medias.len() < usize::MAX,
        ensures
            final(e).wf(),
            !nul_free(encode_utf8(path@)) ==> r is None && *final(e) == *old(e),
            nul_free(encode_utf8(path@)) && !old(e).can_alloc ==> r is None && *final(e) == *old(
                e,
            ),
            nul_free(encode_utf8(path@)) && old(e).can_alloc ==> (r matches Some(m)
                && m.id_spec() == old(e)@.medias.len() && m.wf(final(e)) && final(e)@ == (EngineView {
                medias: old(e)@.medias.push(new_media_view(Some(encode_utf8(path@)))),
                ..old(e)@
            })),
    {
        match crate::tools::path_to_cstr(path) {
            Ok(_) => Self::new_location(e, path),
            Err(_) => None,
        }
    }

    /// Create a media reading from an already open file descriptor.
    ///
    /// The engine synthesises the resource locator itself, so the model
    /// leaves the slot's locator absent.
    pub fn new_fd(e: &mut Engine, fd: i32) -> (r: Option<Media>)
        requires
            old(e).wf(),
            old(e)@.medias.len() < usize::MAX,
        ensures
            final(e).wf(),
            !old(e).can_alloc ==> r is None && *final(e) == *old(e),
            old(e).can_alloc ==> (r matches Some(m) && m.id_spec() == old(e)@.medias.len()
                && m.wf(final(e)) && final(e)@ == (EngineView {
                medias: old(e)@.medias.push(new_media_view(None)),
                ..old(e)@
            })),
    {
        let _ = fd;
        if !e.can_alloc {
            return None;
        }
        let slot = fresh_media_slot(None);
        let id = e.medias.len();
        e.medias.push(slot);
        proof {
            assert(e@.medias =~~= old(e)@.medias.push(new_media_view(None)));
            assert(e@ =~= EngineView { medias: old(e)@.medias.push(new_media_view(None)), ..old(e)@ });
        }
        Some(Media { id })
    }

    /// Read the media resource locator back from the engine.
    ///
    /// The engine hands out a freshly allocated buffer (or null); decoding
    /// is lossy, and the buffer is given back to the engine's free exactly
    /// once, whether or not it was null.
    pub fn mrl(&self, e: &mut Engine) -> (r: Option<String>)
        requires
            old(e).wf(),
            self.wf(old(e)),
            old(e).frees < u64::MAX,
        ensures
            final(e).wf(),
            self.wf(final(e)),
            opt_view(r) == opt_lossy(old(e)@.medias[self.id_spec()].mrl),
            final(e)@ == (EngineView { frees: (old(e).frees + 1) as u64, ..old(e)@ }),
    {
        let slot = &e.medias[self.id];
        let r = match &slot.mrl {
            None => None,
            Some(b) => Some(crate::tools::from_cstr_bytes(b)),
        };
        e.frees = e.frees + 1;
        proof {
            assert(e@ =~= EngineView { frees: (old(e).frees + 1) as u64, ..old(e)@ });
        }
        r
    }

    /// Read a metadata field of the media.
    ///
    /// Yields the latest value set for the field, absent when none is
    /// known; the engine-allocated buffer is freed exactly once per call.
    pub fn get_meta(&self, e: &mut Engine, meta: Meta) -> (r: Option<String>)
        requires
            old(e).wf(),
            self.wf(old(e)),
            old(e).frees < u64::MAX,
        ensures
            final(e).wf(),
            self.wf(final(e)),
            opt_view(r) == opt_lossy(
                meta_get(old(e)@.medias[self.id_spec()].metas, meta.code_spec()),
            ),
            final(e)@ == (EngineView { frees: (old(e).frees + 1) as u64, ..old(e)@ }),
    {
        let code = meta.code();
        let slot = &e.medias[self.id];
        let ghost metas_v = slot@.metas;
        let mut j: usize = slot.metas.len();
        let mut r: Option<String> = None;
        let mut found = false;
        proof {
            assert(metas_v.take(j as int) =~= metas_v);
        }
        while j > 0 && !found
            invariant
                *e == *old(e),
                0 <= self.id_spec() < e@.medias.len(),
                e@.medias[self.id_spec()].refs >= 1,
                metas_v == e@.medias[self.id_spec()].metas,
                j <= metas_v.len(),
                !found ==> r is None && meta_get(metas_v, code) == meta_get(
                    metas_v.take(j as int),
                    code,
                ),
                found ==> opt_view(r) == opt_lossy(meta_get(metas_v, code)),
                code == meta.code_spec(),
            decreases j,
        {
            let slot = &e.medias[self.id];
            let entry = &slot.metas[j - 1];
            if entry.code == code {
                r = Some(crate::tools::from_cstr_bytes(&entry.value));
                found = true;
                proof {
                    assert(metas_v.take(j as int).last() == metas_v[j - 1]);
                }
            } else {
                proof {
                    assert(metas_v.take(j as int).last() == metas_v[j - 1]);
                    assert(metas_v.take(j as int).drop_last() =~= metas_v.take(j - 1));
                }
            }
            j = j - 1;
        }
        proof {
            if !found {
                assert(metas_v.take(0) =~= Seq::<(u32, Seq<u8>)>::empty());
            }
        }
        e.frees = e.frees + 1;
        proof {
            assert(e@ =~= EngineView { frees: (old(e).frees + 1) as u64, ..old(e)@ });
        }
        r
    }

    /// Set a metadata field of the media (without persisting it; call
    /// [`Media::save_meta`] for that).  An embedded zero byte in `value`
    /// is excluded as in [`Media::new_location`].
    pub fn set_meta(&self, e: &mut Engine, meta: Meta, value: &str)
        requires
            old(e).wf(),
            self.wf(old(e)),
            nul_free(encode_utf8(value@)),
        ensures
            final(e).wf(),
            self.wf(final(e)),
            final(e)@ == (EngineView {
                medias: old(e)@.medias.update(
                    self.id_spec(),
                    MediaSlotView {
                        metas: old(e)@.medias[self.id_spec()].metas.push(
                            (meta.code_spec(), encode_utf8(value@)),
                        ),
                        ..old(e)@.medias[self.id_spec()]
                    },
                ),
                ..old(e)@
            }),
    {
        let code = meta.code();
        let bytes = slice_to_vec(value.as_bytes());
        let mut slot = blank_media_slot();
        e.medias.set_and_swap(self.id, &mut slot);
        slot.metas.push(MetaEntry { code, value: bytes });
        let ghost slot_v = slot@;
        e.medias.set(self.id, slot);
        proof {
            assert(slot_v.metas =~= old(e)@.medias[self.id_spec()].metas.push(
                (meta.code_spec(), encode_utf8(value@)),
            ));
            assert(slot_v =~= MediaSlotView {
                metas: old(e)@.medias[self.id_spec()].metas.push(
                    (meta.code_spec(), encode_utf8(value@)),
                ),
                ..old(e)@.medias[self.id_spec()]
            });
            assert(e@.medias =~= old(e)@.medias.update(self.id_spec(), slot_v));
            assert(e@ =~= EngineView {
                medias: old(e)@.medias.update(self.id_spec(), slot_v),
                ..old(e)@
            });
        }
    }

    /// Ask the engine to persist the metadata set earlier; reports the
    /// engine's success flag.
    pub fn save_meta(&self, e: &Engine) -> (r: bool)
        requires
            e.wf(),
            self.wf(e),
        ensures
            r == e@.medias[self.id_spec()].save_ok,
    {
        e.medias[self.id].save_ok
    }

    /// Current playback state of the media.
    pub fn state(&self, e: &Engine) -> (r: State)
        requires
            e.wf(),
            self.wf(e),
        ensures
            r == crate::enums::state_of(e@.medias[self.id_spec()].state_code),
    {
        State::from_code(e.medias[self.id].state_code)
    }

    /// Duration of the media in milliseconds; the engine's sentinel -1
    /// maps to an absent value.
    pub fn duration(&self, e: &Engine) -> (r: Option<i64>)
        requires
            e.wf(),
            self.wf(e),
        ensures
            e@.medias[self.id_spec()].duration_ms == -1 ==> r is None,
            e@.medias[self.id_spec()].duration_ms != -1 ==> r == Some(
                e@.medias[self.id_spec()].duration_ms,
            ),
    {
        let time = e.medias[self.id].duration_ms;
        if time != -1i64 {
            Some(time)
        } else {
            None
        }
    }

    /// Parse the media synchronously.
    pub fn parse(&self, e: &mut Engine)
        requires
            old(e).wf(),
            self.wf(old(e)),
        ensures
            final(e).wf(),
            self.wf(final(e)),
            final(e)@ == (EngineView {
                medias: old(e)@.medias.update(
                    self.id_spec(),
                    MediaSlotView { parsed: true, ..old(e)@.medias[self.id_spec()] },
                ),
                ..old(e)@
            }),
    {
        let mut slot = blank_media_slot();
        e.medias.set_and_swap(self.id, &mut slot);
        slot.parsed = true;
        let ghost slot_v = slot@;
        e.medias.set(self.id, slot);
        proof {
            assert(slot_v =~= MediaSlotView { parsed: true, ..old(e)@.medias[self.id_spec()] });
            assert(e@.medias =~= old(e)@.medias.update(self.id_spec(), slot_v));
            assert(e@ =~= EngineView {
                medias: old(e)@.medias.update(self.id_spec(), slot_v),
                ..old(e)@
            });
        }
    }

    /// Request an asynchronous parse.  The model records the parse as
    /// performed; the engine's own scheduling is outside this layer.
    pub fn parse_async(&self, e: &mut Engine)
        requires
            old(e).wf(),
            self.wf(old(e)),
        ensures
            final(e).wf(),
            self.wf(final(e)),
            final(e)@ == (EngineView {
                medias: old(e)@.medias.update(
                    self.id_spec(),
                    MediaSlotView { parsed: true, ..old(e)@.medias[self.id_spec()] },
                ),
                ..old(e)@
            }),
    {
        self.parse(e);
    }

    /// Whether the media has been parsed.
    pub fn is_parsed(&self, e: &Engine) -> (r: bool)
        requires
            e.wf(),
            self.wf(e),
        ensures
            r == e@.medias[self.id_spec()].parsed,
    {
        e.medias[self.id].parsed
    }

    /// Decode the media's track records.
    ///
    /// The engine reports no tracks as an absent result (nothing to
    /// release); otherwise every record is decoded in order through
    /// [`decode_track`] and the whole native track array is released
    /// exactly once.
    pub fn tracks(&self, e: &mut Engine) -> (r: Option<Vec<MediaTrack>>)
        requires
            old(e).wf(),
            self.wf(old(e)),
            old(e).track_list_releases < u64::MAX,
        ensures
            final(e).wf(),
            self.wf(final(e)),
            old(e)@.medias[self.id_spec()].tracks.len() == 0 ==> r is None && *final(e) == *old(e),
            old(e)@.medias[self.id_spec()].tracks.len() > 0 ==> (r matches Some(v) && v@.map_values(
                |t: MediaTrack| t@,
            ) == old(e)@.medias[self.id_spec()].tracks.map_values(
                |rt: RawTrackView| decode_track_spec(rt),
            ) && final(e)@ == (EngineView {
                track_list_releases: (old(e).track_list_releases + 1) as u64,
                ..old(e)@
            })),
    {
        let ghost tracks_v = e@.medias[self.id_spec()].tracks;
        let n = e.medias[self.id].tracks.len();
        if n == 0 {
            return None;
        }
        let mut out: Vec<MediaTrack> = Vec::new();
        let mut i: usize = 0;
        while i < n
            invariant
                *e == *old(e),
                0 <= self.id_spec() < e@.medias.len(),
                tracks_v == e@.medias[self.id_spec()].tracks,
                n == tracks_v.len(),
                i <= n,
                out@.map_values(|t: MediaTrack| t@) =~= tracks_v.take(i as int).map_values(
                    |rt: RawTrackView| decode_track_spec(rt),
                ),
            decreases n - i,
        {
            let record = &e.medias[self.id].tracks[i];
            proof {
                assert(record@ == tracks_v[i as int]);
            }
            let decoded = decode_track(record);
            let ghost decoded_g = decoded;
            let ghost out_pre = out@;
            out.push(decoded);
            proof {
                out_pre.lemma_push_map_commute(|t: MediaTrack| t@, decoded_g);
                tracks_v.lemma_map_take_succ(|rt: RawTrackView| decode_track_spec(rt), i as int);
                assert(out@.map_values(|t: MediaTrack| t@) =~= tracks_v.take(i + 1).map_values(
                    |rt: RawTrackView| decode_track_spec(rt),
                ));
            }
            i += 1;
        }
        e.track_list_releases = e.track_list_releases + 1;
        proof {
            assert(tracks_v.take(n as int) =~= tracks_v);
            assert(e@ =~= EngineView {
                track_list_releases: (old(e).track_list_releases + 1) as u64,
                ..old(e)@
            });
        }
        Some(out)
    }

    /// Give the wrapper's reference back to the engine.
    ///
    /// Consumes the wrapper, so this release happens at most once per
    /// acquisition; the engine observes it exactly once.
    pub fn release(self, e: &mut Engine)
        requires
            old(e).wf(),
            self.wf(old(e)),
            old(e)@.medias[self.id_spec()].releases < u32::MAX,
        ensures
            final(e).wf(),
            final(e)@ == media_released(old(e)@, self.id_spec()),
    {
        let mut slot = blank_media_slot();
        e.medias.set_and_swap(self.id, &mut slot);
        slot.refs = slot.refs - 1;
        slot.releases = slot.releases + 1;
        let ghost slot_v = slot@;
        e.medias.set(self.id, slot);
        proof {
            assert(slot_v =~= MediaSlotView {
                refs: (old(e)@.medias[self.id_spec()].refs - 1) as u32,
                releases: (old(e)@.medias[self.id_spec()].releases + 1) as u32,
                ..old(e)@.medias[self.id_spec()]
            });
            assert(e@.medias =~= old(e)@.medias.update(self.id_spec(), slot_v));
            assert(e@ =~= media_released(old(e)@, self.id_spec()));
        }
    }
}

} // verus!

