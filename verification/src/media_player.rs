//! The media-player handle wrapper and the track-description decoder.
//!
//! A [`MediaPlayer`] exclusively owns one engine-side reference to a player.
//! Its grouped audio and video operations live in the capability-extension
//! traits of the sibling modules; this module holds the handle's ownership
//! contract and the shared decoding of native track-description lists
//! through the linked-list projector.

use vstd::prelude::*;

verus! {

use vstd::pervasive::VecAdditionalExecFns;
use vstd::slice::slice_to_vec;

use crate::engine::{new_player_view, Engine, EngineView, PlayerSlot, PlayerSlotView};

broadcast use vstd::seq_lib::group_seq_properties;
use crate::linked_list::ListCursor;
use crate::media::opt_lossy;
use crate::tools::{from_cstr, opt_view};

/// One entry of a native track-description list: numeric id and optional
/// display name, decoded into owned values.
#[derive(Clone, PartialEq, Eq, Hash, Debug)]
pub struct TrackDescription {
    pub id: i32,
    pub name: Option<String>,
}

#[verifier::ext_equal]
pub struct TrackDescriptionView {
    pub id: i32,
    pub name: Option<Seq<char>>,
}

impl View for TrackDescription {
    type V = TrackDescriptionView;

    open spec fn view(&self) -> TrackDescriptionView {
        TrackDescriptionView { id: self.id, name: opt_view(self.name) }
    }
}

/// One node of a native track-description list as the engine lays it out:
/// the id and the name's bytes (absent for a null pointer); the chain order
/// is the sequence order.
pub struct RawTrackDescription {
    pub id: i32,
    pub name: Option<Vec<u8>>,
}

#[verifier::ext_equal]
pub struct RawTrackDescriptionView {
    pub id: i32,
    pub name: Option<Seq<u8>>,
}

impl View for RawTrackDescription {
    type V = RawTrackDescriptionView;

    open spec fn view(&self) -> RawTrackDescriptionView {
        RawTrackDescriptionView { id: self.id, name: opt_view(self.name) }
    }
}

/// What decoding one track-description node yields.
pub open spec fn td_decoded(r: RawTrackDescriptionView) -> TrackDescriptionView {
    TrackDescriptionView { id: r.id, name: opt_lossy(r.name) }
}

/// What decoding a whole native track-description list yields, node by node
/// in head-to-tail order.
pub open spec fn tds_decoded(s: Seq<RawTrackDescriptionView>) -> Seq<TrackDescriptionView> {
    s.map_values(|tv: RawTrackDescriptionView| td_decoded(tv))
}

fn clone_raw_td(t: &RawTrackDescription) -> (r: RawTrackDescription)
    ensures
        r@ == t@,
{
    let name = match &t.name {
        None => None,
        Some(b) => Some(slice_to_vec(b.as_slice())),
    };
    RawTrackDescription { id: t.id, name }
}

/// Materialise a native track-description list into an owned sequence:
/// capture the nodes, walk them once with the projector, and decode each
/// node's fields into owned values, in head-to-tail order.
pub fn decode_td_list(tds: &Vec<RawTrackDescription>) -> (r: Vec<TrackDescription>)
    ensures
        r@.map_values(|t: TrackDescription| t@) == tds_decoded(
            tds@.map_values(|t: RawTrackDescription| t@),
        ),
{
    let ghost tds_v = tds@.map_values(|t: RawTrackDescription| t@);
    let mut nodes: Vec<RawTrackDescription> = Vec::new();
    let mut i: usize = 0;
    while i < tds.len()
        invariant
            i <= tds@.len(),
            tds_v == tds@.map_values(|t: RawTrackDescription| t@),
            nodes@.map_values(|t: RawTrackDescription| t@) =~= tds_v.take(i as int),
        decreases tds@.len() - i,
    {
        nodes.push(clone_raw_td(&tds[i]));
        proof {
            assert(tds_v.take(i + 1) =~= tds_v.take(i as int).push(tds_v[i as int]));
            assert(nodes@.map_values(|t: RawTrackDescription| t@) =~= tds_v.take(i + 1));
        }
        i += 1;
    }
    proof {
        assert(tds_v.take(tds@.len() as int) =~= tds_v);
    }
    let ghost nodes_full = nodes@;
    let mut cursor = ListCursor::new(nodes);
    let mut out: Vec<TrackDescription> = Vec::new();
    proof {
        assert(nodes_full.skip(0) =~= nodes_full);
        assert(out@.map_values(|t: TrackDescription| t@) =~= tds_v.take(0).map_values(
            |tv: RawTrackDescriptionView| td_decoded(tv),
        ));
    }
    while cursor.len() > 0
        invariant
            out@.len() <= nodes_full.len(),
            nodes_full.map_values(|t: RawTrackDescription| t@) == tds_v,
            tds_v == tds@.map_values(|t: RawTrackDescription| t@),
            cursor@ == nodes_full.skip(out@.len() as int),
            out@.map_values(|t: TrackDescription| t@) == tds_v.take(out@.len() as int).map_values(
                |tv: RawTrackDescriptionView| td_decoded(tv),
            ),
        decreases cursor@.len(),
    {
        let ghost k = out@.len() as int;
        proof {
            assert(nodes_full.skip(k).len() == nodes_full.len() - k);
        }
        let node = cursor.next();
        match node {
            Some(nd) => {
                let td = TrackDescription { id: nd.id, name: from_cstr(&nd.name) };
                proof {
                    assert(nodes_full.skip(k)[0] == nodes_full[k]);
                    assert(nd == nodes_full[k]);
                    assert(nd@ == nodes_full.map_values(|t: RawTrackDescription| t@)[k]);
                    assert(td@ == td_decoded(tds_v[k]));
                }
                let ghost td_g = td;
                let ghost out_pre = out@;
                out.push(td);
                proof {
                    assert(cursor@ =~= nodes_full.skip(k + 1)) by {
                        assert(nodes_full.skip(k + 1).len() == nodes_full.len() - (k + 1));
                        assert forall|j: int| 0 <= j < cursor@.len() implies #[trigger] cursor@[j]
                            == nodes_full.skip(k + 1)[j] by {
                            assert(cursor@[j] == nodes_full.skip(k)[j + 1]);
                            assert(nodes_full.skip(k)[j + 1] == nodes_full[k + 1 + j]);
                            assert(nodes_full.skip(k + 1)[j] == nodes_full[k + 1 + j]);
                        }
                    }
                    out_pre.lemma_push_map_commute(|t: TrackDescription| t@, td_g);
                    tds_v.lemma_map_take_succ(|tv: RawTrackDescriptionView| td_decoded(tv), k);
                    assert(out@.map_values(|t: TrackDescription| t@) == tds_v.take(k + 1)
                        .map_values(|tv: RawTrackDescriptionView| td_decoded(tv)));
                }
            },
            None => {},
        }
    }
    proof {
        assert(out@.len() == tds_v.len());
        assert(tds_v.take(tds_v.len() as int) =~= tds_v);
    }
    out
}

/// An exclusive host-side reference to one engine media player.
pub struct MediaPlayer {
    id: usize,
}

/// The engine view after one reference to player `id` is taken.
pub open spec fn player_retained(v: EngineView, id: int) -> EngineView {
    EngineView {
        players: v.players.update(
            id,
            PlayerSlotView { refs: (v.players[id].refs + 1) as u32, ..v.players[id] },
        ),
        ..v
    }
}

/// The engine view after one reference to player `id` is released.
pub open spec fn player_released(v: EngineView, id: int) -> EngineView {
    EngineView {
        players: v.players.update(
            id,
            PlayerSlotView {
                refs: (v.players[id].refs - 1) as u32,
                releases: (v.players[id].releases + 1) as u32,
                ..v.players[id]
            },
        ),
        ..v
    }
}

fn fresh_player_slot() -> (s: PlayerSlot)
    ensures
        s@ == new_player_view(),
{
    let s = PlayerSlot {
        refs: 1,
        releases: 0,
        mute_code: -1,
        volume: 0,
        fullscreen: false,
        key_input: false,
        mouse_input: false,
        audio_track: -1,
        video_track: -1,
        spu_track: -1,
        teletext: 0,
        teletext_active: 0,
        teletext_opaque: false,
        aspect: None,
        audio_tds: None,
        video_tds: None,
        spu_tds: None,
        video_size: None,
        cursor: None,
        marquee_text: None,
        marquee_timeout: 0,
        marquee_x: 0,
        marquee_y: 0,
        marquee_enabled: false,
        marquee_color: 0,
        marquee_opacity: 255,
        deinterlace: None,
        adjust_enable: 0,
        adjust_contrast: 0,
        adjust_brightness: 0,
        adjust_hue: 0,
        adjust_saturation: 0,
        adjust_gamma: 0,
    };
    proof {
        assert(s@ =~~= new_player_view());
    }
    s
}

/// Law: acquiring a fresh player reference and releasing it leaves the
/// engine having observed exactly one release of it, and no further
/// reference to release; the wrapper is consumed by its release, so no
/// execution path can release the same acquisition twice.
pub proof fn lemma_player_acquire_release_exactly_once(v: EngineView)
    ensures
        ({
            let id = v.players.len() as int;
            let acquired = EngineView { players: v.players.push(new_player_view()), ..v };
            let released = player_released(acquired, id);
            &&& released.players[id].releases == 1
            &&& released.players[id].refs == 0
        }),
{
}

pub(crate) fn blank_player_slot() -> PlayerSlot {
    PlayerSlot {
        refs: 0,
        releases: 0,
        mute_code: -1,
        volume: 0,
        fullscreen: false,
        key_input: false,
        mouse_input: false,
        audio_track: -1,
        video_track: -1,
        spu_track: -1,
        teletext: 0,
        teletext_active: 0,
        teletext_opaque: false,
        aspect: None,
        audio_tds: None,
        video_tds: None,
        spu_tds: None,
        video_size: None,
        cursor: None,
        marquee_text: None,
        marquee_timeout: 0,
        marquee_x: 0,
        marquee_y: 0,
        marquee_enabled: false,
        marquee_color: 0,
        marquee_opacity: 255,
        deinterlace: None,
        adjust_enable: 0,
        adjust_contrast: 0,
        adjust_brightness: 0,
        adjust_hue: 0,
        adjust_saturation: 0,
        adjust_gamma: 0,
    }
}

impl MediaPlayer {
    /// The slot this wrapper refers to.
    pub closed spec fn id_spec(&self) -> int {
        self.id as int
    }

    /// A live wrapper: its slot exists and holds the reference it owns.
    pub open spec fn wf(&self, e: &Engine) -> bool {
        &&& 0 <= self.id_spec() < e@.players.len()
        &&& e@.players[self.id_spec()].refs >= 1
    }

    pub(crate) fn from_id(id: usize) -> (r: MediaPlayer)
        ensures
            r.id_spec() == id,
    {
        MediaPlayer { id }
    }

    pub(crate) fn id(&self) -> (r: usize)
        ensures
            r == self.id_spec(),
    {
        self.id
    }

    /// The raw handle value, as the engine names this resource.
    pub fn raw(&self) -> (r: usize)
        ensures
            r == self.id_spec(),
    {
        self.id
    }

    /// Create a media player.  Yields `None` exactly when the engine's
    /// factory refuses (a null handle), in which case nothing was acquired.
    pub fn new(e: &mut Engine) -> (r: Option<MediaPlayer>)
        requires
            old(e).wf(),
            old(e)@.players.len() < usize::MAX,
        ensures
            final(e).wf(),
            !old(e).can_alloc ==> r is None && *final(e) == *old(e),
            old(e).can_alloc ==> (r matches Some(p) && p.id_spec() == old(e)@.players.len()
                && p.wf(final(e)) && final(e)@ == (EngineView {
                players: old(e)@.players.push(new_player_view()),
                ..old(e)@
            })),
    {
        if !e.can_alloc {
            return None;
        }
        let slot = fresh_player_slot();
        let id = e.players.len();
        e.players.push(slot);
        proof {
            assert(e@.players =~~= old(e)@.players.push(new_player_view()));
            assert(e@ =~= EngineView { players: old(e)@.players.push(new_player_view()), ..old(e)@ });
        }
        Some(MediaPlayer { id })
    }

    /// Give the wrapper's reference back to the engine.  Consumes the
    /// wrapper, so this release happens at most once per acquisition.
    pub fn release(self, e: &mut Engine)
        requires
            old(e).wf(),
            self.wf(old(e)),
            old(e)@.players[self.id_spec()].releases < u32::MAX,
        ensures
            final(e).wf(),
            final(e)@ == player_released(old(e)@, self.id_spec()),
    {
        let mut slot = blank_player_slot();
        e.players.set_and_swap(self.id, &mut slot);
        slot.refs = slot.refs - 1;
        slot.releases = slot.releases + 1;
        let ghost slot_v = slot@;
        e.players.set(self.id, slot);
        proof {
            assert(slot_v =~= PlayerSlotView {
                refs: (old(e)@.players[self.id_spec()].refs - 1) as u32,
                releases: (old(e)@.players[self.id_spec()].releases + 1) as u32,
                ..old(e)@.players[self.id_spec()]
            });
            assert(e@.players =~= old(e)@.players.update(self.id_spec(), slot_v));
            assert(e@ =~= player_released(old(e)@, self.id_spec()));
        }
    }
}

} // verus!
