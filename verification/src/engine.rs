//! An explicit model of the native engine's observable state.
//!
//! The engine itself — decoding, demuxing, rendering — is an external
//! collaborator, consumed only through its narrow contract: it hands out
//! handles, strings, tagged records and lists, and it counts acquisitions,
//! releases, locks and frees.  [`Engine`] captures exactly that observable
//! surface as plain values, so every wrapper operation of this crate can be
//! specified and verified against it: what a call reads, what it changes,
//! and that every acquire/lock/allocation is paired with exactly one
//! release/unlock/free.  A test drives the same state as a fake engine and
//! checks the counters concretely.

use vstd::prelude::*;

verus! {

use crate::media::RawTrack;
use crate::tools::opt_view;
use crate::media::RawTrackView;
use crate::media_player::RawTrackDescription;
use crate::media_player::RawTrackDescriptionView;

/// One stored metadata entry of a media resource: the field's integer code
/// and the value's bytes (without any terminator).
pub struct MetaEntry {
    pub code: u32,
    pub value: Vec<u8>,
}

/// The engine-side state behind one media handle.
pub struct MediaSlot {
    /// Live host-side references to this media; each wrapper owns one.
    pub refs: u32,
    /// Release calls observed for this media.
    pub releases: u32,
    /// The bytes the engine hands out for the media resource locator,
    /// absent when the engine would yield a null pointer.
    pub mrl: Option<Vec<u8>>,
    /// Stored metadata entries; a later entry with the same code wins.
    pub metas: Vec<MetaEntry>,
    /// Whether the engine accepts persisting the metadata.
    pub save_ok: bool,
    /// The raw playback state code.
    pub state_code: u32,
    /// Duration in milliseconds; the sentinel -1 means unknown.
    pub duration_ms: i64,
    /// Whether the media has been parsed.
    pub parsed: bool,
    /// The native track records; empty when the engine reports no tracks.
    pub tracks: Vec<RawTrack>,
}

#[verifier::ext_equal]
pub struct MediaSlotView {
    pub refs: u32,
    pub releases: u32,
    pub mrl: Option<Seq<u8>>,
    pub metas: Seq<(u32, Seq<u8>)>,
    pub save_ok: bool,
    pub state_code: u32,
    pub duration_ms: i64,
    pub parsed: bool,
    pub tracks: Seq<RawTrackView>,
}

impl View for MediaSlot {
    type V = MediaSlotView;

    open spec fn view(&self) -> MediaSlotView {
        MediaSlotView {
            refs: self.refs,
            releases: self.releases,
            mrl: opt_view(self.mrl),
            metas: self.metas@.map_values(|m: MetaEntry| (m.code, m.value@)),
            save_ok: self.save_ok,
            state_code: self.state_code,
            duration_ms: self.duration_ms,
            parsed: self.parsed,
            tracks: self.tracks@.map_values(|t: RawTrack| t@),
        }
    }
}

/// The view of a freshly created media slot.
pub open spec fn new_media_view(mrl: Option<Seq<u8>>) -> MediaSlotView {
    MediaSlotView {
        refs: 1,
        releases: 0,
        mrl,
        metas: Seq::empty(),
        save_ok: true,
        state_code: 0,
        duration_ms: -1i64,
        parsed: false,
        tracks: Seq::empty(),
    }
}

/// The engine-side state behind one media-list handle.
pub struct ListSlot {
    /// Live host-side references to this list; each wrapper owns one.
    pub refs: u32,
    /// Release calls observed for this list.
    pub releases: u32,
    /// The media ids the list holds, in order.
    pub items: Vec<usize>,
    /// The media associated with the list, if any.
    pub current: Option<usize>,
    /// Whether the list refuses structural mutation.
    pub read_only: bool,
    /// Whether the list's structural lock is held.
    pub locked: bool,
    /// Lock acquisitions observed.
    pub locks: u64,
    /// Lock releases observed.
    pub unlocks: u64,
}

#[verifier::ext_equal]
pub struct ListSlotView {
    pub refs: u32,
    pub releases: u32,
    pub items: Seq<usize>,
    pub current: Option<usize>,
    pub read_only: bool,
    pub locked: bool,
    pub locks: u64,
    pub unlocks: u64,
}

impl View for ListSlot {
    type V = ListSlotView;

    open spec fn view(&self) -> ListSlotView {
        ListSlotView {
            refs: self.refs,
            releases: self.releases,
            items: self.items@,
            current: self.current,
            read_only: self.read_only,
            locked: self.locked,
            locks: self.locks,
            unlocks: self.unlocks,
        }
    }
}

/// The view of a freshly created, empty media list.
pub open spec fn new_list_view() -> ListSlotView {
    ListSlotView {
        refs: 1,
        releases: 0,
        items: Seq::empty(),
        current: None,
        read_only: false,
        locked: false,
        locks: 0,
        unlocks: 0,
    }
}

impl ListSlotView {
    /// Structural validity of a list slot against the number of media
    /// slots: every referenced media id exists and the item count stays
    /// within the engine's signed 32-bit counting range.
    pub open spec fn wf(self, n_medias: int) -> bool {
        &&& self.items.len() < 0x8000_0000
        &&& forall|i: int| 0 <= i < self.items.len() ==> (#[trigger] self.items[i]) < n_medias
        &&& (self.current matches Some(m) ==> m < n_medias)
    }
}

/// The engine-side state behind one media-player handle.
pub struct PlayerSlot {
    /// Live host-side references to this player; each wrapper owns one.
    pub refs: u32,
    /// Release calls observed for this player.
    pub releases: u32,
    /// What the native mute getter reports: -1 unknown, 0 unmuted,
    /// anything else muted.
    pub mute_code: i32,
    /// Audio volume in percent.
    pub volume: i32,
    pub fullscreen: bool,
    pub key_input: bool,
    pub mouse_input: bool,
    /// Current audio track id; the sentinel -1 means none.
    pub audio_track: i32,
    /// Current video track id; the sentinel -1 means none.
    pub video_track: i32,
    /// Current subtitle track id; the sentinel -1 means none.
    pub spu_track: i32,
    /// Requested teletext page.
    pub teletext: i32,
    /// Currently showing teletext page.
    pub teletext_active: i32,
    pub teletext_opaque: bool,
    /// The aspect-ratio bytes the engine hands out, absent for null.
    pub aspect: Option<Vec<u8>>,
    /// Audio track descriptions, absent when the engine yields a null list.
    pub audio_tds: Option<Vec<RawTrackDescription>>,
    /// Video track descriptions, absent when the engine yields a null list.
    pub video_tds: Option<Vec<RawTrackDescription>>,
    /// Subtitle track descriptions, absent when the engine yields a null
    /// list.
    pub spu_tds: Option<Vec<RawTrackDescription>>,
    /// Pixel size of the video output, absent when there is none.
    pub video_size: Option<(u32, u32)>,
    /// Mouse position over the video output, absent when there is none.
    pub cursor: Option<(i32, i32)>,
    pub marquee_text: Option<Vec<u8>>,
    pub marquee_timeout: i32,
    pub marquee_x: i32,
    pub marquee_y: i32,
    pub marquee_enabled: bool,
    pub marquee_color: i32,
    pub marquee_opacity: i32,
    /// The requested deinterlace mode, absent when disabled.
    pub deinterlace: Option<Vec<u8>>,
    pub adjust_enable: i32,
    pub adjust_contrast: i32,
    pub adjust_brightness: i32,
    pub adjust_hue: i32,
    pub adjust_saturation: i32,
    pub adjust_gamma: i32,
}

#[verifier::ext_equal]
pub struct PlayerSlotView {
    pub refs: u32,
    pub releases: u32,
    pub mute_code: i32,
    pub volume: i32,
    pub fullscreen: bool,
    pub key_input: bool,
    pub mouse_input: bool,
    pub audio_track: i32,
    pub video_track: i32,
    pub spu_track: i32,
    pub teletext: i32,
    pub teletext_active: i32,
    pub teletext_opaque: bool,
    pub aspect: Option<Seq<u8>>,
    pub audio_tds: Option<Seq<RawTrackDescriptionView>>,
    pub video_tds: Option<Seq<RawTrackDescriptionView>>,
    pub spu_tds: Option<Seq<RawTrackDescriptionView>>,
    pub video_size: Option<(u32, u32)>,
    pub cursor: Option<(i32, i32)>,
    pub marquee_text: Option<Seq<u8>>,
    pub marquee_timeout: i32,
    pub marquee_x: i32,
    pub marquee_y: i32,
    pub marquee_enabled: bool,
    pub marquee_color: i32,
    pub marquee_opacity: i32,
    pub deinterlace: Option<Seq<u8>>,
    pub adjust_enable: i32,
    pub adjust_contrast: i32,
    pub adjust_brightness: i32,
    pub adjust_hue: i32,
    pub adjust_saturation: i32,
    pub adjust_gamma: i32,
}

/// The view of the track-description lists a player offers.
pub open spec fn td_list_view(tds: Option<Vec<RawTrackDescription>>) -> Option<
    Seq<RawTrackDescriptionView>,
> {
    match tds {
        None => None,
        Some(v) => Some(v@.map_values(|t: RawTrackDescription| t@)),
    }
}

impl View for PlayerSlot {
    type V = PlayerSlotView;

    open spec fn view(&self) -> PlayerSlotView {
        PlayerSlotView {
            refs: self.refs,
            releases: self.releases,
            mute_code: self.mute_code,
            volume: self.volume,
            fullscreen: self.fullscreen,
            key_input: self.key_input,
            mouse_input: self.mouse_input,
            audio_track: self.audio_track,
            video_track: self.video_track,
            spu_track: self.spu_track,
            teletext: self.teletext,
            teletext_active: self.teletext_active,
            teletext_opaque: self.teletext_opaque,
            aspect: opt_view(self.aspect),
            audio_tds: td_list_view(self.audio_tds),
            video_tds: td_list_view(self.video_tds),
            spu_tds: td_list_view(self.spu_tds),
            video_size: self.video_size,
            cursor: self.cursor,
            marquee_text: opt_view(self.marquee_text),
            marquee_timeout: self.marquee_timeout,
            marquee_x: self.marquee_x,
            marquee_y: self.marquee_y,
            marquee_enabled: self.marquee_enabled,
            marquee_color: self.marquee_color,
            marquee_opacity: self.marquee_opacity,
            deinterlace: opt_view(self.deinterlace),
            adjust_enable: self.adjust_enable,
            adjust_contrast: self.adjust_contrast,
            adjust_brightness: self.adjust_brightness,
            adjust_hue: self.adjust_hue,
            adjust_saturation: self.adjust_saturation,
            adjust_gamma: self.adjust_gamma,
        }
    }
}

/// The view of a freshly created media player.
pub open spec fn new_player_view() -> PlayerSlotView {
    PlayerSlotView {
        refs: 1,
        releases: 0,
        mute_code: -1i32,
        volume: 0,
        fullscreen: false,
        key_input: false,
        mouse_input: false,
        audio_track: -1i32,
        video_track: -1i32,
        spu_track: -1i32,
        teletext: 0,
        teletext_active: 0,
        teletext_opaque: false,
        aspect: None,
        audio_tds: None,
        video_tds: None,
        spu_tds: None,
        video_size: None,
        cursor: None,
        marquee_text: None,
        marquee_timeout: 0,
        marquee_x: 0,
        marquee_y: 0,
        marquee_enabled: false,
        marquee_color: 0,
        marquee_opacity: 255,
        deinterlace: None,
        adjust_enable: 0,
        adjust_contrast: 0,
        adjust_brightness: 0,
        adjust_hue: 0,
        adjust_saturation: 0,
        adjust_gamma: 0,
    }
}

/// The engine-side state behind one media-list-player handle.
pub struct ListPlayerSlot {
    /// Live host-side references; each wrapper owns one.
    pub refs: u32,
    /// Release calls observed.
    pub releases: u32,
    /// The media player the list player drives, if any.
    pub media_player: Option<usize>,
    /// The media list being played, if any.
    pub media_list: Option<usize>,
    /// Whether playback is running.
    pub playing: bool,
    /// Index of the current item, or the sentinel -1 for none.
    pub current: i32,
    /// The playback-mode code last set.
    pub mode_code: u32,
}

#[verifier::ext_equal]
pub struct ListPlayerSlotView {
    pub refs: u32,
    pub releases: u32,
    pub media_player: Option<usize>,
    pub media_list: Option<usize>,
    pub playing: bool,
    pub current: i32,
    pub mode_code: u32,
}

impl View for ListPlayerSlot {
    type V = ListPlayerSlotView;

    open spec fn view(&self) -> ListPlayerSlotView {
        ListPlayerSlotView {
            refs: self.refs,
            releases: self.releases,
            media_player: self.media_player,
            media_list: self.media_list,
            playing: self.playing,
            current: self.current,
            mode_code: self.mode_code,
        }
    }
}

/// The view of a freshly created media-list player.
pub open spec fn new_list_player_view() -> ListPlayerSlotView {
    ListPlayerSlotView {
        refs: 1,
        releases: 0,
        media_player: None,
        media_list: None,
        playing: false,
        current: -1i32,
        mode_code: 0,
    }
}

impl ListPlayerSlotView {
    /// Structural validity against the number of player and list slots.
    pub open spec fn wf(self, n_players: int, n_lists: int) -> bool {
        &&& (self.media_player matches Some(p) ==> p < n_players)
        &&& (self.media_list matches Some(l) ==> l < n_lists)
        &&& self.current >= -1
    }
}

/// The observable state of the native engine, as plain values.
///
/// Handles are indices into the slot vectors; a slot is never removed, so an
/// id stays meaningful for the engine's whole lifetime even after every
/// host-side reference to it is gone.
pub struct Engine {
    /// Whether factory calls succeed; a refusal models the native factory
    /// yielding a null handle.
    pub can_alloc: bool,
    pub medias: Vec<MediaSlot>,
    pub lists: Vec<ListSlot>,
    pub players: Vec<PlayerSlot>,
    pub list_players: Vec<ListPlayerSlot>,
    /// Buffer frees observed (the engine's matching free call).
    pub frees: u64,
    /// Releases of whole track arrays observed.
    pub track_list_releases: u64,
    /// Releases of whole track-description lists observed.
    pub td_releases: u64,
}

#[verifier::ext_equal]
pub struct EngineView {
    pub can_alloc: bool,
    pub medias: Seq<MediaSlotView>,
    pub lists: Seq<ListSlotView>,
    pub players: Seq<PlayerSlotView>,
    pub list_players: Seq<ListPlayerSlotView>,
    pub frees: u64,
    pub track_list_releases: u64,
    pub td_releases: u64,
}

impl View for Engine {
    type V = EngineView;

    open spec fn view(&self) -> EngineView {
        EngineView {
            can_alloc: self.can_alloc,
            medias: self.medias@.map_values(|s: MediaSlot| s@),
            lists: self.lists@.map_values(|s: ListSlot| s@),
            players: self.players@.map_values(|s: PlayerSlot| s@),
            list_players: self.list_players@.map_values(|s: ListPlayerSlot| s@),
            frees: self.frees,
            track_list_releases: self.track_list_releases,
            td_releases: self.td_releases,
        }
    }
}

impl Engine {
    /// Structural validity: every id a slot refers to names an existing
    /// slot, and list lengths stay within the engine's counting range.
    pub open spec fn wf(&self) -> bool {
        &&& forall|l: int|
            0 <= l < self@.lists.len() ==> (#[trigger] self@.lists[l]).wf(self@.medias.len() as int)
        &&& forall|p: int|
            0 <= p < self@.list_players.len() ==> (#[trigger] self@.list_players[p]).wf(
                self@.players.len() as int,
                self@.lists.len() as int,
            )
    }

    /// A fresh engine with no resources and all counters at zero.
    pub fn new() -> (e: Engine)
        ensures
            e.wf(),
            e@ == (EngineView {
                can_alloc: true,
                medias: Seq::<MediaSlotView>::empty(),
                lists: Seq::<ListSlotView>::empty(),
                players: Seq::<PlayerSlotView>::empty(),
                list_players: Seq::<ListPlayerSlotView>::empty(),
                frees: 0u64,
                track_list_releases: 0u64,
                td_releases: 0u64,
            }),
    {
        let e = Engine {
            can_alloc: true,
            medias: Vec::new(),
            lists: Vec::new(),
            players: Vec::new(),
            list_players: Vec::new(),
            frees: 0,
            track_list_releases: 0,
            td_releases: 0,
        };
        proof {
            assert(e@.medias =~= Seq::<MediaSlotView>::empty());
            assert(e@.lists =~= Seq::<ListSlotView>::empty());
            assert(e@.players =~= Seq::<PlayerSlotView>::empty());
            assert(e@.list_players =~= Seq::<ListPlayerSlotView>::empty());
            assert(e@ =~= EngineView {
                can_alloc: true,
                medias: Seq::<MediaSlotView>::empty(),
                lists: Seq::<ListSlotView>::empty(),
                players: Seq::<PlayerSlotView>::empty(),
                list_players: Seq::<ListPlayerSlotView>::empty(),
                frees: 0u64,
                track_list_releases: 0u64,
                td_releases: 0u64,
            });
        }
        e
    }
}

/// Look up a metadata value: the value of the latest entry whose code
/// matches, absent when none does.
pub open spec fn meta_get(metas: Seq<(u32, Seq<u8>)>, code: u32) -> Option<Seq<u8>>
    decreases metas.len(),
{
    if metas.len() == 0 {
        None
    } else if metas.last().0 == code {
        Some(metas.last().1)
    } else {
        meta_get(metas.drop_last(), code)
    }
}

} // verus!
