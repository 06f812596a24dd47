//! Touchscreen contacts shown by the overlay: each finger is tracked by its
//! seat slot while down, and fades out for a while after it is lifted.
//!
//! The position of a contact is carried along unchanged by this logic, so it is
//! a type parameter; times are milliseconds of a monotonic clock.
use vstd::prelude::*;

verus! {

/// How long a lifted touch point keeps fading out (milliseconds)
pub const TOUCH_FADE_MS: u64 = 250;

/// A single touchscreen contact
#[derive(Debug, Clone, Copy)]
pub struct TouchPoint<P> {
    /// libinput seat slot - identifies the finger while it stays down
    pub slot: u32,
    pub position: P,
    /// Set when the finger was lifted; the marker fades out from then on
    pub released_at: Option<u64>,
}

impl<P> TouchPoint<P> {
    /// The contact was lifted at least `TOUCH_FADE_MS` before `now`.
    pub open spec fn spec_is_expired(self, now: u64) -> bool {
        match self.released_at {
            Some(at) => now >= at + TOUCH_FADE_MS,
            None => false,
        }
    }
}

impl<P: Copy> TouchPoint<P> {
    /// Whether the fade-out of this contact is over at time `now`.
    pub fn is_expired(&self, now: u64) -> (r: bool)
        ensures
            r == self.spec_is_expired(now),
    {
        match self.released_at {
            Some(at) => now >= at && now - at >= TOUCH_FADE_MS,
            None => false,
        }
    }
}

/// Live touchscreen contacts (plus the ones currently fading out)
#[derive(Debug)]
pub struct TouchSet<P> {
    pub touches: Vec<TouchPoint<P>>,
}

/// Index of the first contact in `ts` that is down in `slot` (`ts.len()` if none is).
pub open spec fn first_live_index<P>(ts: Seq<TouchPoint<P>>, slot: u32) -> int
    decreases ts.len(),
{
    if ts.len() == 0 {
        0
    } else if ts[0].slot == slot && ts[0].released_at is None {
        0
    } else {
        1 + first_live_index(ts.drop_first(), slot)
    }
}

pub proof fn lemma_first_live_index<P>(ts: Seq<TouchPoint<P>>, slot: u32)
    ensures
        0 <= first_live_index(ts, slot) <= ts.len(),
        forall|j: int|
            0 <= j < first_live_index(ts, slot) ==> !(#[trigger] ts[j].slot == slot && ts[j].released_at
                is None),
        first_live_index(ts, slot) < ts.len() ==> ts[first_live_index(ts, slot)].slot == slot
            && ts[first_live_index(ts, slot)].released_at is None,
    decreases ts.len(),
{
    if ts.len() > 0 && !(ts[0].slot == slot && ts[0].released_at is None) {
        lemma_first_live_index(ts.drop_first(), slot);
        assert forall|j: int| 0 <= j < first_live_index(ts, slot) implies !(#[trigger] ts[j].slot
            == slot && ts[j].released_at is None) by {
            if j > 0 {
                assert(ts[j] == ts.drop_first()[j - 1]);
            }
        }
    }
}

/// Contacts after a finger goes down in `slot` at `position`: any contact
/// of that slot is dropped and the new live contact is added last.
pub open spec fn spec_touch_down<P>(ts: Seq<TouchPoint<P>>, slot: u32, position: P) -> Seq<TouchPoint<P>> {
    ts.filter(|t: TouchPoint<P>| t.slot != slot).push(TouchPoint { slot, position, released_at: None })
}

/// Contacts after the live contact of `slot` (if any) moves to `position`.
pub open spec fn spec_touch_motion<P>(ts: Seq<TouchPoint<P>>, slot: u32, position: P) -> Seq<TouchPoint<P>> {
    let i = first_live_index(ts, slot);
    if i < ts.len() {
        ts.update(i, TouchPoint { position, ..ts[i] })
    } else {
        ts
    }
}

/// Contacts after the live contact of `slot` (if any) is lifted at `now`.
pub open spec fn spec_touch_up<P>(ts: Seq<TouchPoint<P>>, slot: u32, now: u64) -> Seq<TouchPoint<P>> {
    let i = first_live_index(ts, slot);
    if i < ts.len() {
        ts.update(i, TouchPoint { released_at: Some(now), ..ts[i] })
    } else {
        ts
    }
}

/// Contacts whose fade-out is not over at `now`.
pub open spec fn spec_cleanup<P>(ts: Seq<TouchPoint<P>>, now: u64) -> Seq<TouchPoint<P>> {
    ts.filter(|t: TouchPoint<P>| !t.spec_is_expired(now))
}

/// No two contacts share a slot.
pub open spec fn distinct_slots<P>(ts: Seq<TouchPoint<P>>) -> bool {
    forall|i: int, j: int| 0 <= i < j < ts.len() ==> ts[i].slot != ts[j].slot
}

/// Some contact in `ts` uses `slot`.
pub open spec fn has_slot<P>(ts: Seq<TouchPoint<P>>, slot: u32) -> bool {
    exists|i: int| 0 <= i < ts.len() && ts[i].slot == slot
}

proof fn lemma_filter_slots<P>(ts: Seq<TouchPoint<P>>, pred: spec_fn(TouchPoint<P>) -> bool)
    ensures
        distinct_slots(ts) ==> distinct_slots(ts.filter(pred)),
        forall|slot: u32| has_slot(ts.filter(pred), slot) ==> has_slot(ts, slot),
        forall|i: int| 0 <= i < ts.filter(pred).len() ==> pred(#[trigger] ts.filter(pred)[i]),
    decreases ts.len(),
{
    reveal_with_fuel(Seq::<_>::filter, 1);
    if ts.len() > 0 {
        let init = ts.drop_last();
        lemma_filter_slots(init, pred);
        let f = init.filter(pred);
        assert forall|slot: u32| has_slot(f, slot) implies has_slot(ts, slot) by {
            let k = choose|k: int| 0 <= k < f.len() && f[k].slot == slot;
            assert(has_slot(init, slot));
            let m = choose|m: int| 0 <= m < init.len() && init[m].slot == slot;
            assert(ts[m] == init[m]);
        }
        if pred(ts.last()) {
            let g = f.push(ts.last());
            assert forall|slot: u32| has_slot(g, slot) implies has_slot(ts, slot) by {
                let k = choose|k: int| 0 <= k < g.len() && g[k].slot == slot;
                if k < f.len() {
                    assert(f[k] == g[k]);
                    assert(has_slot(f, slot));
                } else {
                    assert(ts[ts.len() - 1].slot == slot);
                }
            }
            if distinct_slots(ts) {
                assert(distinct_slots(init)) by {
                    assert forall|i: int, j: int| 0 <= i < j < init.len() implies init[i].slot
                        != init[j].slot by {
                        assert(init[i] == ts[i] && init[j] == ts[j]);
                    }
                }
                assert(!has_slot(init, ts.last().slot)) by {
                    if has_slot(init, ts.last().slot) {
                        let m = choose|m: int| 0 <= m < init.len() && init[m].slot == ts.last().slot;
                        assert(ts[m] == init[m]);
                    }
                }
                assert forall|i: int, j: int| 0 <= i < j < g.len() implies g[i].slot != g[j].slot by {
                    if j == g.len() - 1 {
                        assert(g[i] == f[i]);
                        if g[i].slot == g[j].slot {
                            assert(has_slot(f, ts.last().slot));
                        }
                    } else {
                        assert(g[i] == f[i] && g[j] == f[j]);
                    }
                }
            }
        } else {
            if distinct_slots(ts) {
                assert(distinct_slots(init)) by {
                    assert forall|i: int, j: int| 0 <= i < j < init.len() implies init[i].slot
                        != init[j].slot by {
                        assert(init[i] == ts[i] && init[j] == ts[j]);
                    }
                }
            }
        }
    }
}

/// Every touch operation keeps each slot used by at most one contact, so a
/// finger is always tracked by a single marker.
pub proof fn lemma_touch_slots_stay_distinct<P>(ts: Seq<TouchPoint<P>>, slot: u32, position: P, now: u64)
    requires
        distinct_slots(ts),
    ensures
        distinct_slots(spec_touch_down(ts, slot, position)),
        distinct_slots(spec_touch_motion(ts, slot, position)),
        distinct_slots(spec_touch_up(ts, slot, now)),
        distinct_slots(spec_cleanup(ts, now)),
{
    let keep = |t: TouchPoint<P>| t.slot != slot;
    lemma_filter_slots(ts, keep);
    let f = ts.filter(keep);
    let g = f.push(TouchPoint { slot, position, released_at: None });
    assert(!has_slot(f, slot)) by {
        if has_slot(f, slot) {
            let k = choose|k: int| 0 <= k < f.len() && f[k].slot == slot;
            assert(keep(f[k]));
        }
    }
    assert forall|i: int, j: int| 0 <= i < j < g.len() implies g[i].slot != g[j].slot by {
        if j == g.len() - 1 {
            assert(g[i] == f[i]);
            if g[i].slot == slot {
                assert(has_slot(f, slot));
            }
        } else {
            assert(g[i] == f[i] && g[j] == f[j]);
        }
    }
    lemma_filter_slots(ts, |t: TouchPoint<P>| !t.spec_is_expired(now));
    lemma_first_live_index(ts, slot);
}

/// Index `j` holds the first contact that is down in `slot`.
pub open spec fn is_first_live<P>(ts: Seq<TouchPoint<P>>, slot: u32, j: int) -> bool {
    &&& 0 <= j < ts.len()
    &&& ts[j].slot == slot && ts[j].released_at is None
    &&& forall|k: int| 0 <= k < j ==> !(#[trigger] ts[k].slot == slot && ts[k].released_at is None)
}

proof fn lemma_is_first_live<P>(ts: Seq<TouchPoint<P>>, slot: u32, j: int)
    ensures
        is_first_live(ts, slot, j) <==> j == first_live_index(ts, slot) && j < ts.len(),
{
    lemma_first_live_index(ts, slot);
    let i = first_live_index(ts, slot);
    if is_first_live(ts, slot, j) {
        if i < j {
            assert(!(ts[i].slot == slot && ts[i].released_at is None));
        }
    }
}

/// Motion in a slot moves only the first contact that is down in that slot,
/// to the new position; every other contact (of another slot, or lifted and
/// fading out) stays as it was, and no contact changes slot or lift time.
pub proof fn lemma_touch_motion_moves_its_contact<P>(ts: Seq<TouchPoint<P>>, slot: u32, position: P)
    ensures
        spec_touch_motion(ts, slot, position).len() == ts.len(),
        forall|j: int|
            0 <= j < ts.len() ==> {
                let r = #[trigger] spec_touch_motion(ts, slot, position)[j];
                &&& r.slot == ts[j].slot
                &&& r.released_at == ts[j].released_at
                &&& is_first_live(ts, slot, j) ==> r.position == position
                &&& !is_first_live(ts, slot, j) ==> r == ts[j]
            },
{
    lemma_first_live_index(ts, slot);
    assert forall|j: int| 0 <= j < ts.len() implies {
        let r = #[trigger] spec_touch_motion(ts, slot, position)[j];
        &&& r.slot == ts[j].slot
        &&& r.released_at == ts[j].released_at
        &&& is_first_live(ts, slot, j) ==> r.position == position
        &&& !is_first_live(ts, slot, j) ==> r == ts[j]
    } by {
        lemma_is_first_live(ts, slot, j);
    }
}

/// Lifting the finger of a slot at `now` starts the fade-out of only the first
/// contact that is down in that slot; every other contact stays as it was, and
/// no contact changes slot or position.
pub proof fn lemma_touch_up_lifts_its_contact<P>(ts: Seq<TouchPoint<P>>, slot: u32, now: u64)
    ensures
        spec_touch_up(ts, slot, now).len() == ts.len(),
        forall|j: int|
            0 <= j < ts.len() ==> {
                let r = #[trigger] spec_touch_up(ts, slot, now)[j];
                &&& r.slot == ts[j].slot
                &&& r.position == ts[j].position
                &&& is_first_live(ts, slot, j) ==> r.released_at == Some(now)
                &&& !is_first_live(ts, slot, j) ==> r == ts[j]
            },
{
    lemma_first_live_index(ts, slot);
    assert forall|j: int| 0 <= j < ts.len() implies {
        let r = #[trigger] spec_touch_up(ts, slot, now)[j];
        &&& r.slot == ts[j].slot
        &&& r.position == ts[j].position
        &&& is_first_live(ts, slot, j) ==> r.released_at == Some(now)
        &&& !is_first_live(ts, slot, j) ==> r == ts[j]
    } by {
        lemma_is_first_live(ts, slot, j);
    }
}

/// A finger going down in a slot becomes the newest contact, live, at its
/// position; it replaces whatever contact that slot had, and the contacts of
/// the other slots stay, in their order.
pub proof fn lemma_touch_down_adds_its_contact<P>(ts: Seq<TouchPoint<P>>, slot: u32, position: P)
    ensures
        ({
            let r = spec_touch_down(ts, slot, position);
            &&& r.len() > 0 && r.len() <= ts.len() + 1
            &&& r.last() == (TouchPoint { slot, position, released_at: None::<u64> })
            &&& forall|j: int| 0 <= j < r.len() - 1 ==> #[trigger] r[j].slot != slot
            &&& forall|t: TouchPoint<P>| t.slot != slot ==> (#[trigger] r.contains(t) <==> ts.contains(t))
        }),
{
    let keep = |t: TouchPoint<P>| t.slot != slot;
    let f = ts.filter(keep);
    let r = spec_touch_down(ts, slot, position);
    ts.lemma_filter_len(keep);
    assert forall|j: int| 0 <= j < r.len() - 1 implies #[trigger] r[j].slot != slot by {
        assert(r[j] == f[j]);
        ts.lemma_filter_pred(keep, j);
    }
    assert forall|t: TouchPoint<P>| t.slot != slot implies (#[trigger] r.contains(t) <==> ts.contains(t)) by {
        if r.contains(t) {
            let j = choose|j: int| 0 <= j < r.len() && r[j] == t;
            assert(j < f.len());
            assert(f.contains(t));
            ts.lemma_filter_contains_rev(keep, t);
        }
        if ts.contains(t) {
            let j = choose|j: int| 0 <= j < ts.len() && ts[j] == t;
            ts.lemma_filter_contains(keep, j);
            let k = choose|k: int| 0 <= k < f.len() && f[k] == t;
            assert(r[k] == t);
        }
    }
}

/// The cleanup keeps every contact still down and every lifted one still
/// fading, in order, and drops the ones whose fade-out is over.
pub proof fn lemma_touch_cleanup<P>(ts: Seq<TouchPoint<P>>, now: u64)
    ensures
        ({
            let r = spec_cleanup(ts, now);
            &&& r.len() <= ts.len()
            &&& forall|t: TouchPoint<P>| #[trigger] r.contains(t) <==> ts.contains(t) && (t.released_at
                is None || now < t.released_at->0 + TOUCH_FADE_MS)
        }),
{
    let keep = |t: TouchPoint<P>| !t.spec_is_expired(now);
    ts.lemma_filter_len(keep);
    let r = ts.filter(keep);
    assert forall|t: TouchPoint<P>| #[trigger] r.contains(t) <==> ts.contains(t) && (t.released_at
        is None || now < t.released_at->0 + TOUCH_FADE_MS) by {
        if r.contains(t) {
            let j = choose|j: int| 0 <= j < r.len() && r[j] == t;
            ts.lemma_filter_pred(keep, j);
            ts.lemma_filter_contains_rev(keep, t);
        }
        if ts.contains(t) && (t.released_at is None || now < t.released_at->0 + TOUCH_FADE_MS) {
            let j = choose|j: int| 0 <= j < ts.len() && ts[j] == t;
            ts.lemma_filter_contains(keep, j);
        }
    }
}

impl<P: Copy> TouchSet<P> {
    /// No contacts.
    pub fn new() -> (r: Self)
        ensures
            r.touches@ == Seq::<TouchPoint<P>>::empty(),
    {
        TouchSet { touches: Vec::new() }
    }

    /// Index of the first contact down in `slot`, or the number of contacts.
    fn find_live(&self, slot: u32) -> (i: usize)
        ensures
            i as int == first_live_index(self.touches@, slot),
    {
        let n = self.touches.len();
        let mut i: usize = 0;
        proof {
            assert(self.touches@.skip(0) =~= self.touches@);
        }
        while i < n
            invariant
                n == self.touches@.len(),
                0 <= i <= n,
                first_live_index(self.touches@, slot) == i + first_live_index(
                    self.touches@.skip(i as int),
                    slot,
                ),
            ensures
                first_live_index(self.touches@, slot) == i,
            decreases n - i,
        {
            let t = self.touches[i];
            if t.slot == slot && t.released_at.is_none() {
                proof {
                    assert(self.touches@.skip(i as int)[0] == t);
                }
                break;
            }
            proof {
                assert(self.touches@.skip(i as int).drop_first() =~= self.touches@.skip(i + 1));
            }
            i = i + 1;
        }
        i
    }

    /// The contacts not in `slot`, in order.
    fn kept(touches: &Vec<TouchPoint<P>>, slot: u32) -> (r: Vec<TouchPoint<P>>)
        ensures
            r@ == touches@.filter(|t: TouchPoint<P>| t.slot != slot),
    {
        let n = touches.len();
        let mut out: Vec<TouchPoint<P>> = Vec::new();
        let mut i: usize = 0;
        while i < n
            invariant
                n == touches@.len(),
                0 <= i <= n,
                out@ == touches@.take(i as int).filter(|t: TouchPoint<P>| t.slot != slot),
            decreases n - i,
        {
            let t = touches[i];
            proof {
                reveal_with_fuel(Seq::<_>::filter, 1);
                assert(touches@.take(i + 1).drop_last() =~= touches@.take(i as int));
            }
            if t.slot != slot {
                out.push(t);
            }
            i = i + 1;
        }
        proof {
            assert(touches@.take(n as int) =~= touches@);
        }
        out
    }

    /// True while something touch-related still needs to be animated
    pub fn has_touches(&self) -> (r: bool)
        ensures
            r == (self.touches@.len() > 0),
    {
        self.touches.len() > 0
    }

    /// Record a new contact (or restart one that reuses a slot still fading out)
    pub fn touch_down(&mut self, slot: u32, position: P)
        ensures
            final(self).touches@ == spec_touch_down(old(self).touches@, slot, position),
    {
        let mut kept = Self::kept(&self.touches, slot);
        kept.push(TouchPoint { slot, position, released_at: None });
        self.touches = kept;
    }

    /// Move a live contact. Ignores slots that are already fading out.
    pub fn touch_motion(&mut self, slot: u32, position: P)
        ensures
            final(self).touches@ == spec_touch_motion(old(self).touches@, slot, position),
    {
        let i = self.find_live(slot);
        if i < self.touches.len() {
            let t = self.touches[i];
            self.touches.set(i, TouchPoint { position, ..t });
        }
    }

    /// Start the fade-out for a lifted contact
    pub fn touch_up(&mut self, slot: u32, now: u64)
        ensures
            final(self).touches@ == spec_touch_up(old(self).touches@, slot, now),
    {
        let i = self.find_live(slot);
        if i < self.touches.len() {
            let t = self.touches[i];
            self.touches.set(i, TouchPoint { released_at: Some(now), ..t });
        }
    }

    /// Drop the contacts whose fade-out is over at time `now`
    pub fn cleanup_expired(&mut self, now: u64)
        ensures
            final(self).touches@ == spec_cleanup(old(self).touches@, now),
    {
        let n = self.touches.len();
        let mut out: Vec<TouchPoint<P>> = Vec::new();
        let mut i: usize = 0;
        while i < n
            invariant
                n == self.touches@.len(),
                0 <= i <= n,
                out@ == self.touches@.take(i as int).filter(
                    |t: TouchPoint<P>| !t.spec_is_expired(now),
                ),
            decreases n - i,
        {
            let t = self.touches[i];
            proof {
                reveal_with_fuel(Seq::<_>::filter, 1);
                assert(self.touches@.take(i + 1).drop_last() =~= self.touches@.take(i as int));
            }
            if !t.is_expired(now) {
                out.push(t);
            }
            i = i + 1;
        }
        proof {
            assert(self.touches@.take(n as int) =~= self.touches@);
        }
        self.touches = out;
    }
}

} // verus!
