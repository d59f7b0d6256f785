//! The media-list handle wrapper: a locked collection accessor.
//!
//! Every structural read or mutation of the shared list acquires the list's
//! lock, performs exactly one engine call, and releases the lock before
//! returning — on every path, including failure returns.  The lock is
//! non-reentrant: each operation demands the lock free on entry, so an
//! operation can never be entered with the lock already held by its caller.
//! The engine model counts acquisitions and releases, which makes the exact
//! pairing part of every operation's contract.

use vstd::prelude::*;

verus! {

use vstd::pervasive::VecAdditionalExecFns;

use crate::engine::{new_list_view, Engine, EngineView, ListSlot, ListSlotView, MediaSlotView};
use crate::media::{media_retained, Media};

broadcast use vstd::seq_lib::group_seq_properties;

/// An exclusive host-side reference to one engine media list.
pub struct MediaList {
    id: usize,
}

/// The engine view after one reference to list `id` is released.
pub open spec fn list_released(v: EngineView, id: int) -> EngineView {
    EngineView {
        lists: v.lists.update(
            id,
            ListSlotView {
                refs: (v.lists[id].refs - 1) as u32,
                releases: (v.lists[id].releases + 1) as u32,
                ..v.lists[id]
            },
        ),
        ..v
    }
}

/// Law: acquiring a fresh list reference and releasing it leaves the
/// engine having observed exactly one release of it, and no further
/// reference to release; the wrapper is consumed by its release, so no
/// execution path can release the same acquisition twice.
pub proof fn lemma_list_acquire_release_exactly_once(v: EngineView)
    ensures
        ({
            let id = v.lists.len() as int;
            let acquired = EngineView { lists: v.lists.push(new_list_view()), ..v };
            let released = list_released(acquired, id);
            &&& released.lists[id].releases == 1
            &&& released.lists[id].refs == 0
        }),
{
}

/// The slot view after one locked structural operation that left the items
/// at `items`: the lock was taken and given back exactly once and is free
/// again.
pub open spec fn locked_op_view(s: ListSlotView, items: Seq<usize>) -> ListSlotView {
    ListSlotView {
        items,
        locked: false,
        locks: (s.locks + 1) as u64,
        unlocks: (s.unlocks + 1) as u64,
        ..s
    }
}

/// What a list slot must satisfy for a locked operation to be admissible:
/// the non-reentrant lock is free and the pairing counters can still count.
pub open spec fn can_lock(s: ListSlotView) -> bool {
    &&& !s.locked
    &&& s.locks < u64::MAX
    &&& s.unlocks < u64::MAX
}

/// Law: a locked structural operation is balanced and non-reentrant — it
/// acquires the lock exactly once, releases it exactly once, and leaves it
/// free, whatever it did to the items; and it is only admissible when the
/// lock is free on entry ([`can_lock`]), so two operations can never
/// interleave mid-operation.
pub proof fn lemma_locked_op_balanced(s: ListSlotView, items: Seq<usize>)
    requires
        can_lock(s),
    ensures
        locked_op_view(s, items).locks == s.locks + 1,
        locked_op_view(s, items).unlocks == s.unlocks + 1,
        !locked_op_view(s, items).locked,
        can_lock(s) ==> !s.locked,
{
}

fn blank_list_slot() -> ListSlot {
    ListSlot {
        refs: 0,
        releases: 0,
        items: Vec::new(),
        current: None,
        read_only: false,
        locked: false,
        locks: 0,
        unlocks: 0,
    }
}

fn fresh_list_slot() -> (s: ListSlot)
    ensures
        s@ == new_list_view(),
{
    let s = ListSlot {
        refs: 1,
        releases: 0,
        items: Vec::new(),
        current: None,
        read_only: false,
        locked: false,
        locks: 0,
        unlocks: 0,
    };
    proof {
        assert(s@ =~~= new_list_view());
    }
    s
}

impl MediaList {
    /// The slot this wrapper refers to.
    pub closed spec fn id_spec(&self) -> int {
        self.id as int
    }

    /// A live wrapper: its slot exists and holds the reference it owns.
    pub open spec fn wf(&self, e: &Engine) -> bool {
        &&& 0 <= self.id_spec() < e@.lists.len()
        &&& e@.lists[self.id_spec()].refs >= 1
    }

    /// The slot view this wrapper refers to.
    pub open spec fn slot(&self, e: &Engine) -> ListSlotView {
        e@.lists[self.id_spec()]
    }

    /// The raw handle value, as the engine names this resource.
    pub fn raw(&self) -> (r: usize)
        ensures
            r == self.id_spec(),
    {
        self.id
    }

    /// Create an empty media list.  Yields `None` exactly when the engine's
    /// factory refuses (a null handle), in which case nothing was acquired.
    pub fn new(e: &mut Engine) -> (r: Option<MediaList>)
        requires
            old(e).wf(),
            old(e)@.lists.len() < usize::MAX,
        ensures
            final(e).wf(),
            !old(e).can_alloc ==> r is None && *final(e) == *old(e),
            old(e).can_alloc ==> (r matches Some(l) && l.id_spec() == old(e)@.lists.len()
                && l.wf(final(e)) && final(e)@ == (EngineView {
                lists: old(e)@.lists.push(new_list_view()),
                ..old(e)@
            })),
    {
        if !e.can_alloc {
            return None;
        }
        let slot = fresh_list_slot();
        let id = e.lists.len();
        e.lists.push(slot);
        proof {
            assert(e@.lists =~~= old(e)@.lists.push(new_list_view()));
            assert(e@ =~~= (EngineView { lists: old(e)@.lists.push(new_list_view()), ..old(e)@ }));
        }
        Some(MediaList { id })
    }

    /// Acquire the list's structural lock.  Non-reentrant: the lock must be
    /// free.
    fn lock(&self, e: &mut Engine)
        requires
            old(e).wf(),
            self.wf(old(e)),
            can_lock(self.slot(old(e))),
        ensures
            final(e).wf(),
            self.wf(final(e)),
            final(e)@ == (EngineView {
                lists: old(e)@.lists.update(self.id_spec(), (ListSlotView {
                    locked: true,
                    locks: (old(e)@.lists[self.id_spec()].locks + 1) as u64,
                    ..old(e)@.lists[self.id_spec()]
                })),
                ..old(e)@
            }),
    {
        let mut slot = blank_list_slot();
        e.lists.set_and_swap(self.id, &mut slot);
        slot.locked = true;
        slot.locks = slot.locks + 1;
        let ghost slot_v = slot@;
        e.lists.set(self.id, slot);
        proof {
            assert(e@.lists =~~= old(e)@.lists.update(self.id_spec(), slot_v));
            assert(e@ =~~= (EngineView {
                lists: old(e)@.lists.update(self.id_spec(), slot_v),
                ..old(e)@
            }));
        }
    }

    /// Release the list's structural lock; it must be held.
    fn unlock(&self, e: &mut Engine)
        requires
            old(e).wf(),
            self.wf(old(e)),
            old(e)@.lists[self.id_spec()].locked,
            old(e)@.lists[self.id_spec()].unlocks < u64::MAX,
        ensures
            final(e).wf(),
            self.wf(final(e)),
            final(e)@ == (EngineView {
                lists: old(e)@.lists.update(self.id_spec(), (ListSlotView {
                    locked: false,
                    unlocks: (old(e)@.lists[self.id_spec()].unlocks + 1) as u64,
                    ..old(e)@.lists[self.id_spec()]
                })),
                ..old(e)@
            }),
    {
        let mut slot = blank_list_slot();
        e.lists.set_and_swap(self.id, &mut slot);
        slot.locked = false;
        slot.unlocks = slot.unlocks + 1;
        let ghost slot_v = slot@;
        e.lists.set(self.id, slot);
        proof {
            assert(e@.lists =~~= old(e)@.lists.update(self.id_spec(), slot_v));
            assert(e@ =~~= (EngineView {
                lists: old(e)@.lists.update(self.id_spec(), slot_v),
                ..old(e)@
            }));
        }
    }

    /// Associate a media with this list.  The structural lock must not be
    /// held on entry (the engine documents this call as taking it itself).
    pub fn set_media(&self, e: &mut Engine, md: &Media)
        requires
            old(e).wf(),
            self.wf(old(e)),
            md.wf(old(e)),
            !old(e)@.lists[self.id_spec()].locked,
        ensures
            final(e).wf(),
            self.wf(final(e)),
            md.wf(final(e)),
            final(e)@ == (EngineView {
                lists: old(e)@.lists.update(self.id_spec(), (ListSlotView {
                    current: Some(md.id_spec() as usize),
                    ..old(e)@.lists[self.id_spec()]
                })),
                ..old(e)@
            }),
    {
        let mut slot = blank_list_slot();
        e.lists.set_and_swap(self.id, &mut slot);
        slot.current = Some(md.raw());
        let ghost slot_v = slot@;
        e.lists.set(self.id, slot);
        proof {
            assert(e@.lists =~~= old(e)@.lists.update(self.id_spec(), slot_v));
            assert(e@ =~~= (EngineView {
                lists: old(e)@.lists.update(self.id_spec(), slot_v),
                ..old(e)@
            }));
        }
    }

    /// Get the media associated with this list, acquiring a fresh engine
    /// reference to it; absent when none is set.  Performed under the
    /// list's lock, taken and given back exactly once.
    pub fn media(&self, e: &mut Engine) -> (r: Option<Media>)
        requires
            old(e).wf(),
            self.wf(old(e)),
            can_lock(self.slot(old(e))),
            self.slot(old(e)).current matches Some(m) ==> old(e)@.medias[m as int].refs
                < u32::MAX,
        ensures
            final(e).wf(),
            self.wf(final(e)),
            r is Some <==> self.slot(old(e)).current is Some,
            r matches Some(m) ==> (self.slot(old(e)).current matches Some(c)
                && m.id_spec() == c && m.wf(final(e))),
            final(e)@ == (EngineView {
                lists: old(e)@.lists.update(
                    self.id_spec(),
                    locked_op_view(self.slot(old(e)), self.slot(old(e)).items),
                ),
                medias: match self.slot(old(e)).current {
                    Some(c) => media_retained(old(e)@, c as int).medias,
                    None => old(e)@.medias,
                },
                ..old(e)@
            }),
    {
        self.lock(e);
        let current = e.lists[self.id].current;
        let r = match current {
            None => None,
            Some(c) => {
                let mut mslot = crate::media::blank_media_slot();
                e.medias.set_and_swap(c, &mut mslot);
                mslot.refs = mslot.refs + 1;
                let ghost mslot_v = mslot@;
                e.medias.set(c, mslot);
                proof {
                    assert(e@.medias =~~= old(e)@.medias.update(c as int, mslot_v));
                    assert(mslot_v =~~= (MediaSlotView {
                        refs: (old(e)@.medias[c as int].refs + 1) as u32,
                        ..old(e)@.medias[c as int]
                    }));
                }
                Some(crate::media::Media::from_id(c))
            },
        };
        self.unlock(e);
        proof {
            assert(e@.lists =~~= old(e)@.lists.update(
                self.id_spec(),
                locked_op_view(self.slot(old(e)), self.slot(old(e)).items),
            ));
            assert(e@ =~~= (EngineView {
                lists: old(e)@.lists.update(
                    self.id_spec(),
                    locked_op_view(self.slot(old(e)), self.slot(old(e)).items),
                ),
                medias: match self.slot(old(e)).current {
                    Some(c) => media_retained(old(e)@, c as int).medias,
                    None => old(e)@.medias,
                },
                ..old(e)@
            }));
        }
        r
    }

    /// Append a media to the list, under the lock.  Fails exactly when the
    /// list is read-only or full, leaving the items unchanged.
    pub fn add_media(&self, e: &mut Engine, md: &Media) -> (r: Result<(), ()>)
        requires
            old(e).wf(),
            self.wf(old(e)),
            md.wf(old(e)),
            can_lock(self.slot(old(e))),
        ensures
            final(e).wf(),
            self.wf(final(e)),
            md.wf(final(e)),
            r is Ok <==> (!self.slot(old(e)).read_only && self.slot(old(e)).items.len()
                < 0x7fff_ffff),
            final(e)@ == (EngineView {
                lists: old(e)@.lists.update(
                    self.id_spec(),
                    locked_op_view(
                        self.slot(old(e)),
                        if !self.slot(old(e)).read_only && self.slot(old(e)).items.len()
                            < 0x7fff_ffff {
                            self.slot(old(e)).items.push(md.id_spec() as usize)
                        } else {
                            self.slot(old(e)).items
                        },
                    ),
                ),
                ..old(e)@
            }),
    {
        self.lock(e);
        let ghost e1v = e@;
        let ghost pre_v = self.slot(e);
        let mut slot = blank_list_slot();
        e.lists.set_and_swap(self.id, &mut slot);
        proof {
            assert(slot@ == pre_v);
        }
        let ok = !slot.read_only && slot.items.len() < 0x7fff_ffff;
        if ok {
            slot.items.push(md.raw());
        }
        let ghost slot_v = slot@;
        let ghost new_items: Seq<usize> = if !self.slot(old(e)).read_only && self.slot(
            old(e),
        ).items.len() < 0x7fff_ffff {
            self.slot(old(e)).items.push(md.id_spec() as usize)
        } else {
            self.slot(old(e)).items
        };
        e.lists.set(self.id, slot);
        proof {
            assert(e@.lists =~~= e1v.lists.update(self.id_spec(), slot_v));
            assert(e@.lists =~~= old(e)@.lists.update(self.id_spec(), slot_v));
            assert(slot_v =~~= (ListSlotView {
                items: new_items,
                locked: true,
                locks: (self.slot(old(e)).locks + 1) as u64,
                ..self.slot(old(e))
            }));
            assert(e@.medias == old(e)@.medias);
            assert forall|l: int|
                0 <= l < e@.lists.len() implies (#[trigger] e@.lists[l]).wf(
                e@.medias.len() as int,
            ) by {
                if l == self.id_spec() {
                    assert forall|i2: int|
                        0 <= i2 < new_items.len() implies (#[trigger] new_items[i2])
                            < e@.medias.len() by {
                        if i2 < self.slot(old(e)).items.len() {
                            assert(new_items[i2] == self.slot(old(e)).items[i2]);
                        }
                    }
                } else {
                    assert(e@.lists[l] == old(e)@.lists[l]);
                }
            }
            assert(e.wf());
        }
        self.unlock(e);
        proof {
            assert(e@ =~~= (EngineView {
                lists: old(e)@.lists.update(
                    self.id_spec(),
                    locked_op_view(self.slot(old(e)), new_items),
                ),
                ..old(e)@
            }));
        }
        if ok {
            Ok(())
        } else {
            Err(())
        }
    }

    /// Insert a media at a position, under the lock.  Fails exactly when
    /// the list is read-only or full or the position is out of range,
    /// leaving the items unchanged.
    pub fn insert_media(&self, e: &mut Engine, md: &Media, pos: i32) -> (r: Result<(), ()>)
        requires
            old(e).wf(),
            self.wf(old(e)),
            md.wf(old(e)),
            can_lock(self.slot(old(e))),
        ensures
            final(e).wf(),
            self.wf(final(e)),
            md.wf(final(e)),
            r is Ok <==> (!self.slot(old(e)).read_only && self.slot(old(e)).items.len()
                < 0x7fff_ffff && 0 <= pos <= self.slot(old(e)).items.len()),
            final(e)@ == (EngineView {
                lists: old(e)@.lists.update(
                    self.id_spec(),
                    locked_op_view(
                        self.slot(old(e)),
                        if !self.slot(old(e)).read_only && self.slot(old(e)).items.len()
                            < 0x7fff_ffff && 0 <= pos <= self.slot(old(e)).items.len() {
                            self.slot(old(e)).items.insert(pos as int, md.id_spec() as usize)
                        } else {
                            self.slot(old(e)).items
                        },
                    ),
                ),
                ..old(e)@
            }),
    {
        self.lock(e);
        let ghost e1v = e@;
        let ghost pre_v = self.slot(e);
        let mut slot = blank_list_slot();
        e.lists.set_and_swap(self.id, &mut slot);
        proof {
            assert(slot@ == pre_v);
        }
        let ok = !slot.read_only && slot.items.len() < 0x7fff_ffff && 0 <= pos && (pos as usize)
            <= slot.items.len();
        if ok {
            slot.items.insert(pos as usize, md.raw());
        }
        let ghost slot_v = slot@;
        let ghost new_items: Seq<usize> = if !self.slot(old(e)).read_only && self.slot(
            old(e),
        ).items.len() < 0x7fff_ffff && 0 <= pos <= self.slot(old(e)).items.len() {
            self.slot(old(e)).items.insert(pos as int, md.id_spec() as usize)
        } else {
            self.slot(old(e)).items
        };
        e.lists.set(self.id, slot);
        proof {
            assert(e@.lists =~~= e1v.lists.update(self.id_spec(), slot_v));
            assert(e@.lists =~~= old(e)@.lists.update(self.id_spec(), slot_v));
            assert(slot_v =~~= (ListSlotView {
                items: new_items,
                locked: true,
                locks: (self.slot(old(e)).locks + 1) as u64,
                ..self.slot(old(e))
            }));
            assert(e@.medias == old(e)@.medias);
            assert forall|l: int|
                0 <= l < e@.lists.len() implies (#[trigger] e@.lists[l]).wf(
                e@.medias.len() as int,
            ) by {
                if l == self.id_spec() {
                    assert forall|i2: int|
                        0 <= i2 < new_items.len() implies (#[trigger] new_items[i2])
                            < e@.medias.len() by {
                        let s0 = self.slot(old(e)).items;
                        if new_items != s0 {
                            assert(new_items == s0.subrange(0, pos as int).push(
                                md.id_spec() as usize,
                            ) + s0.subrange(pos as int, s0.len() as int));
                            if i2 < pos {
                                assert(new_items[i2] == s0[i2]);
                            } else if i2 == pos {
                                assert(new_items[i2] == md.id_spec() as usize);
                            } else {
                                assert(new_items[i2] == s0[i2 - 1]);
                            }
                        }
                    }
                } else {
                    assert(e@.lists[l] == old(e)@.lists[l]);
                }
            }
            assert(e.wf());
        }
        self.unlock(e);
        proof {
            assert(e@ =~~= (EngineView {
                lists: old(e)@.lists.update(
                    self.id_spec(),
                    locked_op_view(self.slot(old(e)), new_items),
                ),
                ..old(e)@
            }));
        }
        if ok {
            Ok(())
        } else {
            Err(())
        }
    }

    /// Remove the media at a position, under the lock.  Fails exactly when
    /// the list is read-only or the position is out of range, leaving the
    /// items unchanged.
    pub fn remove_index(&self, e: &mut Engine, pos: i32) -> (r: Result<(), ()>)
        requires
            old(e).wf(),
            self.wf(old(e)),
            can_lock(self.slot(old(e))),
        ensures
            final(e).wf(),
            self.wf(final(e)),
            r is Ok <==> (!self.slot(old(e)).read_only && 0 <= pos < self.slot(
                old(e),
            ).items.len()),
            final(e)@ == (EngineView {
                lists: old(e)@.lists.update(
                    self.id_spec(),
                    locked_op_view(
                        self.slot(old(e)),
                        if !self.slot(old(e)).read_only && 0 <= pos < self.slot(
                            old(e),
                        ).items.len() {
                            self.slot(old(e)).items.remove(pos as int)
                        } else {
                            self.slot(old(e)).items
                        },
                    ),
                ),
                ..old(e)@
            }),
    {
        self.lock(e);
        let ghost e1v = e@;
        let ghost pre_v = self.slot(e);
        let mut slot = blank_list_slot();
        e.lists.set_and_swap(self.id, &mut slot);
        proof {
            assert(slot@ == pre_v);
        }
        let ok = !slot.read_only && 0 <= pos && (pos as usize) < slot.items.len();
        if ok {
            slot.items.remove(pos as usize);
        }
        let ghost slot_v = slot@;
        let ghost new_items: Seq<usize> = if !self.slot(old(e)).read_only && 0 <= pos < self.slot(
            old(e),
        ).items.len() {
            self.slot(old(e)).items.remove(pos as int)
        } else {
            self.slot(old(e)).items
        };
        e.lists.set(self.id, slot);
        proof {
            assert(e@.lists =~~= e1v.lists.update(self.id_spec(), slot_v));
            assert(e@.lists =~~= old(e)@.lists.update(self.id_spec(), slot_v));
            assert(slot_v =~~= (ListSlotView {
                items: new_items,
                locked: true,
                locks: (self.slot(old(e)).locks + 1) as u64,
                ..self.slot(old(e))
            }));
            assert(e@.medias == old(e)@.medias);
            assert forall|l: int|
                0 <= l < e@.lists.len() implies (#[trigger] e@.lists[l]).wf(
                e@.medias.len() as int,
            ) by {
                if l == self.id_spec() {
                    assert forall|i2: int|
                        0 <= i2 < new_items.len() implies (#[trigger] new_items[i2])
                            < e@.medias.len() by {
                        let s0 = self.slot(old(e)).items;
                        if new_items != s0 {
                            if i2 < pos {
                                assert(new_items[i2] == s0[i2]);
                            } else {
                                assert(new_items[i2] == s0[i2 + 1]);
                            }
                        }
                    }
                } else {
                    assert(e@.lists[l] == old(e)@.lists[l]);
                }
            }
            assert(e.wf());
        }
        self.unlock(e);
        proof {
            assert(e@ =~~= (EngineView {
                lists: old(e)@.lists.update(
                    self.id_spec(),
                    locked_op_view(self.slot(old(e)), new_items),
                ),
                ..old(e)@
            }));
        }
        if ok {
            Ok(())
        } else {
            Err(())
        }
    }

    /// The number of items in the list, read under the lock.
    pub fn count(&self, e: &mut Engine) -> (r: i32)
        requires
            old(e).wf(),
            self.wf(old(e)),
            can_lock(self.slot(old(e))),
        ensures
            final(e).wf(),
            self.wf(final(e)),
            r == self.slot(old(e)).items.len() as i32,
            final(e)@ == (EngineView {
                lists: old(e)@.lists.update(
                    self.id_spec(),
                    locked_op_view(self.slot(old(e)), self.slot(old(e)).items),
                ),
                ..old(e)@
            }),
    {
        self.lock(e);
        let n = e.lists[self.id].items.len();
        self.unlock(e);
        proof {
            assert(e@ =~~= (EngineView {
                lists: old(e)@.lists.update(
                    self.id_spec(),
                    locked_op_view(self.slot(old(e)), self.slot(old(e)).items),
                ),
                ..old(e)@
            }));
        }
        n as i32
    }

    /// The media at a position, read under the lock; absent when the
    /// position is out of range, otherwise a fresh engine reference to the
    /// media at that position.
    pub fn item_at_index(&self, e: &mut Engine, pos: i32) -> (r: Option<Media>)
        requires
            old(e).wf(),
            self.wf(old(e)),
            can_lock(self.slot(old(e))),
            0 <= pos < self.slot(old(e)).items.len() ==> old(e)@.medias[self.slot(
                old(e),
            ).items[pos as int] as int].refs < u32::MAX,
        ensures
            final(e).wf(),
            self.wf(final(e)),
            r is Some <==> 0 <= pos < self.slot(old(e)).items.len(),
            r matches Some(m) ==> (m.id_spec() == self.slot(old(e)).items[pos as int] && m.wf(
                final(e),
            )),
            final(e)@ == (EngineView {
                lists: old(e)@.lists.update(
                    self.id_spec(),
                    locked_op_view(self.slot(old(e)), self.slot(old(e)).items),
                ),
                medias: if 0 <= pos < self.slot(old(e)).items.len() {
                    media_retained(old(e)@, self.slot(old(e)).items[pos as int] as int).medias
                } else {
                    old(e)@.medias
                },
                ..old(e)@
            }),
    {
        self.lock(e);
        let in_range = 0 <= pos && (pos as usize) < e.lists[self.id].items.len();
        let r = if in_range {
            let c = e.lists[self.id].items[pos as usize];
            let mut mslot = crate::media::blank_media_slot();
            e.medias.set_and_swap(c, &mut mslot);
            mslot.refs = mslot.refs + 1;
            let ghost mslot_v = mslot@;
            e.medias.set(c, mslot);
            proof {
                assert(e@.medias =~~= old(e)@.medias.update(c as int, mslot_v));
                assert(mslot_v =~~= (MediaSlotView {
                    refs: (old(e)@.medias[c as int].refs + 1) as u32,
                    ..old(e)@.medias[c as int]
                }));
            }
            Some(crate::media::Media::from_id(c))
        } else {
            None
        };
        self.unlock(e);
        proof {
            assert(e@ =~~= (EngineView {
                lists: old(e)@.lists.update(
                    self.id_spec(),
                    locked_op_view(self.slot(old(e)), self.slot(old(e)).items),
                ),
                medias: if 0 <= pos < self.slot(old(e)).items.len() {
                    media_retained(old(e)@, self.slot(old(e)).items[pos as int] as int).medias
                } else {
                    old(e)@.medias
                },
                ..old(e)@
            }));
        }
        r
    }

    /// The position of a media in the list, read under the lock; absent
    /// (the engine's -1) when the media is not in the list, otherwise the
    /// first position holding it.
    pub fn index_of_item(&self, e: &mut Engine, md: &Media) -> (r: Option<i32>)
        requires
            old(e).wf(),
            self.wf(old(e)),
            md.wf(old(e)),
            can_lock(self.slot(old(e))),
        ensures
            final(e).wf(),
            self.wf(final(e)),
            md.wf(final(e)),
            r matches Some(i) ==> (0 <= i < self.slot(old(e)).items.len() && self.slot(
                old(e),
            ).items[i as int] == md.id_spec() && (forall|j: int|
                0 <= j < i ==> self.slot(old(e)).items[j] != md.id_spec())),
            r is None ==> (forall|j: int|
                0 <= j < self.slot(old(e)).items.len() ==> self.slot(old(e)).items[j]
                    != md.id_spec()),
            final(e)@ == (EngineView {
                lists: old(e)@.lists.update(
                    self.id_spec(),
                    locked_op_view(self.slot(old(e)), self.slot(old(e)).items),
                ),
                ..old(e)@
            }),
    {
        self.lock(e);
        let target = md.raw();
        let ghost items_v = self.slot(e).items;
        let n = e.lists[self.id].items.len();
        let mut found: Option<i32> = None;
        let mut i: usize = 0;
        while i < n && found.is_none()
            invariant
                items_v == e@.lists[self.id_spec()].items,
                n == items_v.len(),
                n < 0x8000_0000,
                i <= n,
                0 <= self.id_spec() < e@.lists.len(),
                target == md.id_spec(),
                found is None ==> (forall|j: int| 0 <= j < i ==> items_v[j] != md.id_spec()),
                found matches Some(k) ==> (0 <= k < items_v.len() && items_v[k as int]
                    == md.id_spec() && (forall|j: int|
                    0 <= j < k ==> items_v[j] != md.id_spec())),
            decreases n - i,
        {
            if e.lists[self.id].items[i] == target {
                found = Some(i as i32);
            }
            i += 1;
        }
        self.unlock(e);
        proof {
            assert(e@ =~~= (EngineView {
                lists: old(e)@.lists.update(
                    self.id_spec(),
                    locked_op_view(self.slot(old(e)), self.slot(old(e)).items),
                ),
                ..old(e)@
            }));
        }
        found
    }

    /// Whether the list is read-only from the user's point of view.
    pub fn is_readonly(&self, e: &Engine) -> (r: bool)
        requires
            e.wf(),
            self.wf(e),
        ensures
            r == self.slot(e).read_only,
    {
        e.lists[self.id].read_only
    }

    /// Give the wrapper's reference back to the engine.  Consumes the
    /// wrapper, so this release happens at most once per acquisition.
    pub fn release(self, e: &mut Engine)
        requires
            old(e).wf(),
            self.wf(old(e)),
            old(e)@.lists[self.id_spec()].releases < u32::MAX,
        ensures
            final(e).wf(),
            final(e)@ == list_released(old(e)@, self.id_spec()),
    {
        let mut slot = blank_list_slot();
        e.lists.set_and_swap(self.id, &mut slot);
        slot.refs = slot.refs - 1;
        slot.releases = slot.releases + 1;
        let ghost slot_v = slot@;
        e.lists.set(self.id, slot);
        proof {
            assert(e@.lists =~~= old(e)@.lists.update(self.id_spec(), slot_v));
            assert(e@ =~~= list_released(old(e)@, self.id_spec()));
        }
    }
}

} // verus!
