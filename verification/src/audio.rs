//! Audio capability extension for a media player.
//!
//! A façade of grouped audio operations over a player handle: each one
//! performs a single engine call, maps sentinels to explicit outcomes, and
//! never changes the handle's ownership contract.

use vstd::prelude::*;

verus! {

use vstd::pervasive::VecAdditionalExecFns;

use crate::engine::{Engine, EngineView, PlayerSlotView};
use crate::media_player::{
    blank_player_slot, decode_td_list, tds_decoded, MediaPlayer, TrackDescription,
};

broadcast use vstd::seq_lib::group_seq_properties;

/// Grouped audio operations of a media player.
pub trait MediaPlayerAudioEx {
    /// The player slot the operations act on.
    spec fn pid(&self) -> int;

    /// Tri-state mute status.
    ///
    /// Law: the engine's sentinel -1 maps to unknown (absent), zero maps to
    /// unmuted, and any other value maps to muted.
    fn get_mute(&self, e: &Engine) -> (r: Option<bool>)
        requires
            e.wf(),
            0 <= self.pid() < e@.players.len(),
            e@.players[self.pid()].refs >= 1,
        ensures
            e@.players[self.pid()].mute_code == -1 ==> r is None,
            e@.players[self.pid()].mute_code == 0 ==> r == Some(false),
            (e@.players[self.pid()].mute_code != -1 && e@.players[self.pid()].mute_code != 0)
                ==> r == Some(true),
    ;

    /// Mute or unmute, as the engine's 1/0 flag.
    fn set_mute(&self, e: &mut Engine, muted: bool)
        requires
            old(e).wf(),
            0 <= self.pid() < old(e)@.players.len(),
            old(e)@.players[self.pid()].refs >= 1,
        ensures
            final(e).wf(),
            final(e)@ == (EngineView {
                players: old(e)@.players.update(self.pid(), (PlayerSlotView {
                    mute_code: if muted {
                        1i32
                    } else {
                        0i32
                    },
                    ..old(e)@.players[self.pid()]
                })),
                ..old(e)@
            }),
    ;

    /// The current audio volume in percent.
    fn get_volume(&self, e: &Engine) -> (r: i32)
        requires
            e.wf(),
            0 <= self.pid() < e@.players.len(),
            e@.players[self.pid()].refs >= 1,
        ensures
            r == e@.players[self.pid()].volume,
    ;

    /// Set the audio volume in percent.  Fails exactly when the volume is
    /// out of the engine's range (negative), leaving it unchanged.
    fn set_volume(&self, e: &mut Engine, volume: i32) -> (r: Result<(), ()>)
        requires
            old(e).wf(),
            0 <= self.pid() < old(e)@.players.len(),
            old(e)@.players[self.pid()].refs >= 1,
        ensures
            final(e).wf(),
            r is Ok <==> volume >= 0,
            r is Err ==> *final(e) == *old(e),
            r is Ok ==> final(e)@ == (EngineView {
                players: old(e)@.players.update(self.pid(), (PlayerSlotView {
                    volume,
                    ..old(e)@.players[self.pid()]
                })),
                ..old(e)@
            }),
    ;

    /// Decode the audio track descriptions from the engine's native linked
    /// list; absent when the engine yields a null list (nothing to
    /// release), otherwise fully materialised in head-to-tail order with
    /// the native list released exactly once.
    fn get_audio_track_description(&self, e: &mut Engine) -> (r: Option<Vec<TrackDescription>>)
        requires
            old(e).wf(),
            0 <= self.pid() < old(e)@.players.len(),
            old(e)@.players[self.pid()].refs >= 1,
            old(e).td_releases < u64::MAX,
        ensures
            final(e).wf(),
            old(e)@.players[self.pid()].audio_tds is None ==> r is None && *final(e) == *old(e),
            old(e)@.players[self.pid()].audio_tds matches Some(s) ==> (r matches Some(v)
                && v@.map_values(|t: TrackDescription| t@) == tds_decoded(s) && final(e)@
                == (EngineView { td_releases: (old(e).td_releases + 1) as u64, ..old(e)@ })),
    ;

    /// The current audio track id; the engine's -1 sentinel is absent.
    fn get_audio_track(&self, e: &Engine) -> (r: Option<i32>)
        requires
            e.wf(),
            0 <= self.pid() < e@.players.len(),
            e@.players[self.pid()].refs >= 1,
        ensures
            e@.players[self.pid()].audio_track == -1 ==> r is None,
            e@.players[self.pid()].audio_track != -1 ==> r == Some(
                e@.players[self.pid()].audio_track,
            ),
    ;

    /// Select an audio track by id.
    fn set_audio_track(&self, e: &mut Engine, track: i32)
        requires
            old(e).wf(),
            0 <= self.pid() < old(e)@.players.len(),
            old(e)@.players[self.pid()].refs >= 1,
        ensures
            final(e).wf(),
            final(e)@ == (EngineView {
                players: old(e)@.players.update(self.pid(), (PlayerSlotView {
                    audio_track: track,
                    ..old(e)@.players[self.pid()]
                })),
                ..old(e)@
            }),
    ;
}

impl MediaPlayerAudioEx for MediaPlayer {
    open spec fn pid(&self) -> int {
        self.id_spec()
    }

    fn get_mute(&self, e: &Engine) -> (r: Option<bool>) {
        let code = e.players[self.id()].mute_code;
        if code == 0i32 {
            Some(false)
        } else if code == -1i32 {
            None
        } else {
            Some(true)
        }
    }

    fn set_mute(&self, e: &mut Engine, muted: bool) {
        let id = self.id();
        let mut slot = blank_player_slot();
        e.players.set_and_swap(id, &mut slot);
        slot.mute_code = if muted {
            1
        } else {
            0
        };
        let ghost slot_v = slot@;
        e.players.set(id, slot);
        proof {
            assert(e@.players =~~= old(e)@.players.update(self.pid(), slot_v));
            assert(e@ =~~= (EngineView {
                players: old(e)@.players.update(self.pid(), slot_v),
                ..old(e)@
            }));
        }
    }

    fn get_volume(&self, e: &Engine) -> (r: i32) {
        e.players[self.id()].volume
    }

    fn set_volume(&self, e: &mut Engine, volume: i32) -> (r: Result<(), ()>) {
        if volume < 0 {
            return Err(());
        }
        let id = self.id();
        let mut slot = blank_player_slot();
        e.players.set_and_swap(id, &mut slot);
        slot.volume = volume;
        let ghost slot_v = slot@;
        e.players.set(id, slot);
        proof {
            assert(e@.players =~~= old(e)@.players.update(self.pid(), slot_v));
            assert(e@ =~~= (EngineView {
                players: old(e)@.players.update(self.pid(), slot_v),
                ..old(e)@
            }));
        }
        Ok(())
    }

    fn get_audio_track_description(&self, e: &mut Engine) -> (r: Option<Vec<TrackDescription>>) {
        let id = self.id();
        let r = match &e.players[id].audio_tds {
            None => None,
            Some(tds) => Some(decode_td_list(tds)),
        };
        match r {
            None => None,
            Some(v) => {
                e.td_releases = e.td_releases + 1;
                proof {
                    assert(e@ =~~= (EngineView {
                        td_releases: (old(e).td_releases + 1) as u64,
                        ..old(e)@
                    }));
                }
                Some(v)
            },
        }
    }

    fn get_audio_track(&self, e: &Engine) -> (r: Option<i32>) {
        let track = e.players[self.id()].audio_track;
        if track == -1i32 {
            None
        } else {
            Some(track)
        }
    }

    fn set_audio_track(&self, e: &mut Engine, track: i32) {
        let id = self.id();
        let mut slot = blank_player_slot();
        e.players.set_and_swap(id, &mut slot);
        slot.audio_track = track;
        let ghost slot_v = slot@;
        e.players.set(id, slot);
        proof {
            assert(e@.players =~~= old(e)@.players.update(self.pid(), slot_v));
            assert(e@ =~~= (EngineView {
                players: old(e)@.players.update(self.pid(), slot_v),
                ..old(e)@
            }));
        }
    }
}

} // verus!
