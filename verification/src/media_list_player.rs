//! The media-list-player handle wrapper.
//!
//! A [`MediaListPlayer`] exclusively owns one engine-side reference to a
//! list player.  It drives playback over a media list set earlier; moving to
//! the next or previous item follows the playback mode last set, and every
//! failure (no list, empty list, end reached) is an explicit outcome.

use vstd::prelude::*;

verus! {

use vstd::pervasive::VecAdditionalExecFns;

use crate::engine::{
    new_list_player_view, Engine, EngineView, ListPlayerSlot, ListPlayerSlotView, PlayerSlotView,
};
use crate::enums::PlaybackMode;
use crate::media_list::MediaList;
use crate::media_player::{player_retained, MediaPlayer};

broadcast use vstd::seq_lib::group_seq_properties;

/// An exclusive host-side reference to one engine media-list player.
pub struct MediaListPlayer {
    id: usize,
}

/// The engine view after one reference to list player `id` is released.
pub open spec fn list_player_released(v: EngineView, id: int) -> EngineView {
    EngineView {
        list_players: v.list_players.update(
            id,
            ListPlayerSlotView {
                refs: (v.list_players[id].refs - 1) as u32,
                releases: (v.list_players[id].releases + 1) as u32,
                ..v.list_players[id]
            },
        ),
        ..v
    }
}

/// Where one step forward lands, under the slot's playback mode: absent
/// when the step fails (no list, empty list, or the end was reached in the
/// default mode), otherwise the new current index.
pub open spec fn next_outcome(v: EngineView, s: ListPlayerSlotView) -> Option<i32> {
    match s.media_list {
        None => None,
        Some(l) => {
            let n = v.lists[l as int].items.len() as int;
            if n == 0 {
                None
            } else if s.mode_code == 1 {
                if s.current + 1 < n {
                    Some((s.current + 1) as i32)
                } else {
                    Some(0i32)
                }
            } else if s.mode_code == 2 {
                Some(s.current)
            } else {
                if s.current + 1 < n {
                    Some((s.current + 1) as i32)
                } else {
                    None
                }
            }
        },
    }
}

/// Where one step backward lands, under the slot's playback mode.
pub open spec fn previous_outcome(v: EngineView, s: ListPlayerSlotView) -> Option<i32> {
    match s.media_list {
        None => None,
        Some(l) => {
            let n = v.lists[l as int].items.len() as int;
            if n == 0 {
                None
            } else if s.mode_code == 1 {
                if s.current - 1 >= 0 {
                    Some((s.current - 1) as i32)
                } else {
                    Some((n - 1) as i32)
                }
            } else if s.mode_code == 2 {
                Some(s.current)
            } else {
                if 0 <= s.current - 1 < n {
                    Some((s.current - 1) as i32)
                } else {
                    None
                }
            }
        },
    }
}

/// Law: acquiring a fresh list-player reference and releasing it leaves
/// the engine having observed exactly one release of it, and no further
/// reference to release; the wrapper is consumed by its release, so no
/// execution path can release the same acquisition twice.
pub proof fn lemma_list_player_acquire_release_exactly_once(v: EngineView)
    ensures
        ({
            let id = v.list_players.len() as int;
            let acquired = EngineView {
                list_players: v.list_players.push(new_list_player_view()),
                ..v
            };
            let released = list_player_released(acquired, id);
            &&& released.list_players[id].releases == 1
            &&& released.list_players[id].refs == 0
        }),
{
}

fn blank_lp_slot() -> ListPlayerSlot {
    ListPlayerSlot {
        refs: 0,
        releases: 0,
        media_player: None,
        media_list: None,
        playing: false,
        current: -1,
        mode_code: 0,
    }
}

fn fresh_lp_slot() -> (s: ListPlayerSlot)
    ensures
        s@ == new_list_player_view(),
{
    let s = ListPlayerSlot {
        refs: 1,
        releases: 0,
        media_player: None,
        media_list: None,
        playing: false,
        current: -1,
        mode_code: 0,
    };
    proof {
        assert(s@ =~~= new_list_player_view());
    }
    s
}

impl MediaListPlayer {
    /// The slot this wrapper refers to.
    pub closed spec fn id_spec(&self) -> int {
        self.id as int
    }

    /// A live wrapper: its slot exists and holds the reference it owns.
    pub open spec fn wf(&self, e: &Engine) -> bool {
        &&& 0 <= self.id_spec() < e@.list_players.len()
        &&& e@.list_players[self.id_spec()].refs >= 1
    }

    /// The slot view this wrapper refers to.
    pub open spec fn slot(&self, e: &Engine) -> ListPlayerSlotView {
        e@.list_players[self.id_spec()]
    }

    /// The raw handle value, as the engine names this resource.
    pub fn raw(&self) -> (r: usize)
        ensures
            r == self.id_spec(),
    {
        self.id
    }

    /// Create a media-list player.  Yields `None` exactly when the engine's
    /// factory refuses (a null handle), in which case nothing was acquired.
    pub fn new(e: &mut Engine) -> (r: Option<MediaListPlayer>)
        requires
            old(e).wf(),
            old(e)@.list_players.len() < usize::MAX,
        ensures
            final(e).wf(),
            !old(e).can_alloc ==> r is None && *final(e) == *old(e),
            old(e).can_alloc ==> (r matches Some(p) && p.id_spec() == old(e)@.list_players.len()
                && p.wf(final(e)) && final(e)@ == (EngineView {
                list_players: old(e)@.list_players.push(new_list_player_view()),
                ..old(e)@
            })),
    {
        if !e.can_alloc {
            return None;
        }
        let slot = fresh_lp_slot();
        let id = e.list_players.len();
        e.list_players.push(slot);
        proof {
            assert(e@.list_players =~~= old(e)@.list_players.push(new_list_player_view()));
            assert(e@ =~~= (EngineView {
                list_players: old(e)@.list_players.push(new_list_player_view()),
                ..old(e)@
            }));
        }
        Some(MediaListPlayer { id })
    }

    /// Get the media player this list player drives, acquiring a fresh
    /// engine reference to it; absent when the engine yields none.
    pub fn get_media_player(&self, e: &mut Engine) -> (r: Option<MediaPlayer>)
        requires
            old(e).wf(),
            self.wf(old(e)),
            self.slot(old(e)).media_player matches Some(p) ==> old(e)@.players[p as int].refs
                < u32::MAX,
        ensures
            final(e).wf(),
            self.wf(final(e)),
            r is Some <==> self.slot(old(e)).media_player is Some,
            r matches Some(p) ==> (self.slot(old(e)).media_player matches Some(c)
                && p.id_spec() == c && p.wf(final(e))),
            final(e)@ == (match self.slot(old(e)).media_player {
                Some(c) => player_retained(old(e)@, c as int),
                None => old(e)@,
            }),
    {
        let current = e.list_players[self.id].media_player;
        match current {
            None => None,
            Some(c) => {
                let mut pslot = crate::media_player::blank_player_slot();
                e.players.set_and_swap(c, &mut pslot);
                pslot.refs = pslot.refs + 1;
                let ghost pslot_v = pslot@;
                e.players.set(c, pslot);
                proof {
                    assert(e@.players =~~= old(e)@.players.update(c as int, pslot_v));
                    assert(pslot_v =~~= (PlayerSlotView {
                        refs: (old(e)@.players[c as int].refs + 1) as u32,
                        ..old(e)@.players[c as int]
                    }));
                    assert(e@ =~~= player_retained(old(e)@, c as int));
                }
                Some(crate::media_player::MediaPlayer::from_id(c))
            },
        }
    }

    /// Set the media list this player plays.
    pub fn set_media_list(&self, e: &mut Engine, media_list: &MediaList)
        requires
            old(e).wf(),
            self.wf(old(e)),
            media_list.wf(old(e)),
        ensures
            final(e).wf(),
            self.wf(final(e)),
            media_list.wf(final(e)),
            final(e)@ == (EngineView {
                list_players: old(e)@.list_players.update(self.id_spec(), (ListPlayerSlotView {
                    media_list: Some(media_list.id_spec() as usize),
                    ..self.slot(old(e))
                })),
                ..old(e)@
            }),
    {
        let mut slot = blank_lp_slot();
        e.list_players.set_and_swap(self.id, &mut slot);
        slot.media_list = Some(media_list.raw());
        let ghost slot_v = slot@;
        e.list_players.set(self.id, slot);
        proof {
            assert(e@.list_players =~~= old(e)@.list_players.update(self.id_spec(), slot_v));
            assert(e@ =~~= (EngineView {
                list_players: old(e)@.list_players.update(self.id_spec(), slot_v),
                ..old(e)@
            }));
        }
    }

    /// Start playback of the current media list.
    pub fn play(&self, e: &mut Engine)
        requires
            old(e).wf(),
            self.wf(old(e)),
        ensures
            final(e).wf(),
            self.wf(final(e)),
            final(e)@ == (EngineView {
                list_players: old(e)@.list_players.update(self.id_spec(), (ListPlayerSlotView {
                    playing: true,
                    ..self.slot(old(e))
                })),
                ..old(e)@
            }),
    {
        let mut slot = blank_lp_slot();
        e.list_players.set_and_swap(self.id, &mut slot);
        slot.playing = true;
        let ghost slot_v = slot@;
        e.list_players.set(self.id, slot);
        proof {
            assert(e@.list_players =~~= old(e)@.list_players.update(self.id_spec(), slot_v));
            assert(e@ =~~= (EngineView {
                list_players: old(e)@.list_players.update(self.id_spec(), slot_v),
                ..old(e)@
            }));
        }
    }

    /// Pause or resume playback.
    pub fn set_pause(&self, e: &mut Engine, pause: bool)
        requires
            old(e).wf(),
            self.wf(old(e)),
        ensures
            final(e).wf(),
            self.wf(final(e)),
            final(e)@ == (EngineView {
                list_players: old(e)@.list_players.update(self.id_spec(), (ListPlayerSlotView {
                    playing: !pause,
                    ..self.slot(old(e))
                })),
                ..old(e)@
            }),
    {
        let mut slot = blank_lp_slot();
        e.list_players.set_and_swap(self.id, &mut slot);
        slot.playing = !pause;
        let ghost slot_v = slot@;
        e.list_players.set(self.id, slot);
        proof {
            assert(e@.list_players =~~= old(e)@.list_players.update(self.id_spec(), slot_v));
            assert(e@ =~~= (EngineView {
                list_players: old(e)@.list_players.update(self.id_spec(), slot_v),
                ..old(e)@
            }));
        }
    }

    /// Whether the list is currently playing.
    pub fn is_playing(&self, e: &Engine) -> (r: bool)
        requires
            e.wf(),
            self.wf(e),
        ensures
            r == self.slot(e).playing,
    {
        e.list_players[self.id].playing
    }

    /// Play the item at the given position of the current list.  Fails
    /// exactly when no list is set or the position is out of range.
    pub fn play_item_at_index(&self, e: &mut Engine, index: i32) -> (r: Result<(), ()>)
        requires
            old(e).wf(),
            self.wf(old(e)),
        ensures
            final(e).wf(),
            self.wf(final(e)),
            r is Ok <==> (self.slot(old(e)).media_list matches Some(l) && 0 <= index < old(
                e,
            )@.lists[l as int].items.len()),
            r is Err ==> *final(e) == *old(e),
            r is Ok ==> final(e)@ == (EngineView {
                list_players: old(e)@.list_players.update(self.id_spec(), (ListPlayerSlotView {
                    playing: true,
                    current: index,
                    ..self.slot(old(e))
                })),
                ..old(e)@
            }),
    {
        let ml = e.list_players[self.id].media_list;
        let ok = match ml {
            None => false,
            Some(l) => 0 <= index && (index as usize) < e.lists[l].items.len(),
        };
        if !ok {
            return Err(());
        }
        let mut slot = blank_lp_slot();
        e.list_players.set_and_swap(self.id, &mut slot);
        slot.playing = true;
        slot.current = index;
        let ghost slot_v = slot@;
        e.list_players.set(self.id, slot);
        proof {
            assert(e@.list_players =~~= old(e)@.list_players.update(self.id_spec(), slot_v));
            assert(e@ =~~= (EngineView {
                list_players: old(e)@.list_players.update(self.id_spec(), slot_v),
                ..old(e)@
            }));
        }
        Ok(())
    }

    /// Stop media playback.
    pub fn stop(&self, e: &mut Engine)
        requires
            old(e).wf(),
            self.wf(old(e)),
        ensures
            final(e).wf(),
            self.wf(final(e)),
            final(e)@ == (EngineView {
                list_players: old(e)@.list_players.update(self.id_spec(), (ListPlayerSlotView {
                    playing: false,
                    ..self.slot(old(e))
                })),
                ..old(e)@
            }),
    {
        let mut slot = blank_lp_slot();
        e.list_players.set_and_swap(self.id, &mut slot);
        slot.playing = false;
        let ghost slot_v = slot@;
        e.list_players.set(self.id, slot);
        proof {
            assert(e@.list_players =~~= old(e)@.list_players.update(self.id_spec(), slot_v));
            assert(e@ =~~= (EngineView {
                list_players: old(e)@.list_players.update(self.id_spec(), slot_v),
                ..old(e)@
            }));
        }
    }

    /// Skip to the next item, following the playback mode.  Fails exactly
    /// when the step has nowhere to land; nothing changes then.
    pub fn next(&self, e: &mut Engine) -> (r: Result<(), ()>)
        requires
            old(e).wf(),
            self.wf(old(e)),
        ensures
            final(e).wf(),
            self.wf(final(e)),
            r is Ok <==> next_outcome(old(e)@, self.slot(old(e))) is Some,
            r is Err ==> *final(e) == *old(e),
            r is Ok ==> (next_outcome(old(e)@, self.slot(old(e))) matches Some(c) && final(e)@
                == (EngineView {
                list_players: old(e)@.list_players.update(self.id_spec(), (ListPlayerSlotView {
                    current: c,
                    ..self.slot(old(e))
                })),
                ..old(e)@
            })),
    {
        let ml = e.list_players[self.id].media_list;
        let l = match ml {
            None => {
                return Err(());
            },
            Some(l) => l,
        };
        let n = e.lists[l].items.len();
        if n == 0 {
            return Err(());
        }
        let cur = e.list_players[self.id].current;
        let mode = e.list_players[self.id].mode_code;
        let stepped: i32 = if (cur as i64) + 1 < (n as i64) {
            cur + 1
        } else {
            0
        };
        let new_current: i32 = if mode == 1 {
            stepped
        } else if mode == 2 {
            cur
        } else {
            if (cur as i64) + 1 < (n as i64) {
                cur + 1
            } else {
                return Err(());
            }
        };
        let mut slot = blank_lp_slot();
        e.list_players.set_and_swap(self.id, &mut slot);
        slot.current = new_current;
        let ghost slot_v = slot@;
        e.list_players.set(self.id, slot);
        proof {
            assert(e@.list_players =~~= old(e)@.list_players.update(self.id_spec(), slot_v));
            assert(e@ =~~= (EngineView {
                list_players: old(e)@.list_players.update(self.id_spec(), slot_v),
                ..old(e)@
            }));
        }
        Ok(())
    }

    /// Skip to the previous item, following the playback mode.  Fails
    /// exactly when the step has nowhere to land; nothing changes then.
    pub fn previous(&self, e: &mut Engine) -> (r: Result<(), ()>)
        requires
            old(e).wf(),
            self.wf(old(e)),
        ensures
            final(e).wf(),
            self.wf(final(e)),
            r is Ok <==> previous_outcome(old(e)@, self.slot(old(e))) is Some,
            r is Err ==> *final(e) == *old(e),
            r is Ok ==> (previous_outcome(old(e)@, self.slot(old(e))) matches Some(c)
                && final(e)@ == (EngineView {
                list_players: old(e)@.list_players.update(self.id_spec(), (ListPlayerSlotView {
                    current: c,
                    ..self.slot(old(e))
                })),
                ..old(e)@
            })),
    {
        let ml = e.list_players[self.id].media_list;
        let l = match ml {
            None => {
                return Err(());
            },
            Some(l) => l,
        };
        let n = e.lists[l].items.len();
        if n == 0 {
            return Err(());
        }
        let cur = e.list_players[self.id].current;
        let mode = e.list_players[self.id].mode_code;
        let new_current: i32 = if mode == 1 {
            if cur >= 1 {
                cur - 1
            } else {
                (n - 1) as i32
            }
        } else if mode == 2 {
            cur
        } else {
            if cur >= 1 && ((cur as i64) - 1) < (n as i64) {
                cur - 1
            } else {
                return Err(());
            }
        };
        let mut slot = blank_lp_slot();
        e.list_players.set_and_swap(self.id, &mut slot);
        slot.current = new_current;
        let ghost slot_v = slot@;
        e.list_players.set(self.id, slot);
        proof {
            assert(e@.list_players =~~= old(e)@.list_players.update(self.id_spec(), slot_v));
            assert(e@ =~~= (EngineView {
                list_players: old(e)@.list_players.update(self.id_spec(), slot_v),
                ..old(e)@
            }));
        }
        Ok(())
    }

    /// Set the playback mode.
    pub fn set_playback_mode(&self, e: &mut Engine, mode: PlaybackMode)
        requires
            old(e).wf(),
            self.wf(old(e)),
        ensures
            final(e).wf(),
            self.wf(final(e)),
            final(e)@ == (EngineView {
                list_players: old(e)@.list_players.update(self.id_spec(), (ListPlayerSlotView {
                    mode_code: mode.code_spec(),
                    ..self.slot(old(e))
                })),
                ..old(e)@
            }),
    {
        let code = mode.code();
        let mut slot = blank_lp_slot();
        e.list_players.set_and_swap(self.id, &mut slot);
        slot.mode_code = code;
        let ghost slot_v = slot@;
        e.list_players.set(self.id, slot);
        proof {
            assert(e@.list_players =~~= old(e)@.list_players.update(self.id_spec(), slot_v));
            assert(e@ =~~= (EngineView {
                list_players: old(e)@.list_players.update(self.id_spec(), slot_v),
                ..old(e)@
            }));
        }
    }

    /// Give the wrapper's reference back to the engine.  Consumes the
    /// wrapper, so this release happens at most once per acquisition.
    pub fn release(self, e: &mut Engine)
        requires
            old(e).wf(),
            self.wf(old(e)),
            old(e)@.list_players[self.id_spec()].releases < u32::MAX,
        ensures
            final(e).wf(),
            final(e)@ == list_player_released(old(e)@, self.id_spec()),
    {
        let mut slot = blank_lp_slot();
        e.list_players.set_and_swap(self.id, &mut slot);
        slot.refs = slot.refs - 1;
        slot.releases = slot.releases + 1;
        let ghost slot_v = slot@;
        e.list_players.set(self.id, slot);
        proof {
            assert(e@.list_players =~~= old(e)@.list_players.update(self.id_spec(), slot_v));
            assert(e@ =~~= list_player_released(old(e)@, self.id_spec()));
        }
    }
}

} // verus!
