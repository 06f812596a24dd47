//! The keystroke history and the overlay state that input events update:
//! held modifiers, the key and mouse button being held, and what the overlay
//! draws for them: the row of keystrokes and the touch markers. The history
//! fades out over time, read from a millisecond clock.
use vstd::prelude::*;
use vstd::string::*;

use crate::keystroke::{
    fitting_start, keystroke_of, keystrokes_view, labelled_spec, lemma_parts_empty_iff_none,
    no_modifiers, repeats, row_start_ok, spec_expired, KeyModifiers, Keystroke, KeystrokeView,
    MERGE_WINDOW_MS,
};
use crate::touch::{spec_cleanup, TouchPoint, TouchSet};
use crate::text::str_eq;

verus! {

/// Maximum number of keystrokes in history
pub const MAX_HISTORY: usize = 10;

/// The newest entry `last` counted once more and restamped at `now` (the count
/// stops at `u32::MAX`).
pub open spec fn bumped(last: KeystrokeView, now: u64) -> KeystrokeView {
    KeystrokeView {
        count: if last.count < u32::MAX { (last.count + 1) as u32 } else { u32::MAX },
        time: now,
        ..last
    }
}

/// History `h` after recording `k`: a repeat of the newest entry (same keys,
/// within `MERGE_WINDOW_MS` of it) bumps that entry's count and time; otherwise
/// `k` is appended, dropping the oldest entry first when the history already
/// holds `MAX_HISTORY` entries or more.
pub open spec fn pushed(h: Seq<KeystrokeView>, k: KeystrokeView) -> Seq<KeystrokeView> {
    if h.len() > 0 && repeats(h.last(), k) {
        h.update(h.len() - 1, bumped(h.last(), k.time))
    } else if h.len() >= MAX_HISTORY {
        h.drop_first().push(k)
    } else {
        h.push(k)
    }
}

/// Push a keystroke to history, limiting size
/// If the keystroke matches the last one within the threshold, increment its count instead
pub fn push_history(history: &mut Vec<Keystroke>, keystroke: Keystroke)
    ensures
        keystrokes_view(final(history)@) == pushed(keystrokes_view(old(history)@), keystroke@),
{
    let ghost h = keystrokes_view(history@);
    let n = history.len();
    if n > 0 && history[n - 1].can_merge(&keystroke) {
        let mut last = history.pop().unwrap();
        last.increment();
        last.time = keystroke.time;
        history.push(last);
        proof {
            assert(keystrokes_view(history@) =~= h.update(
                h.len() - 1,
                bumped(h.last(), keystroke@.time),
            ));
        }
        return;
    }
    if history.len() >= MAX_HISTORY {
        history.remove(0);
        proof {
            assert(keystrokes_view(history@) =~= h.drop_first());
        }
    }
    let ghost before = keystrokes_view(history@);
    history.push(keystroke);
    proof {
        assert(keystrokes_view(history@) =~= before.push(keystroke@));
        if n >= MAX_HISTORY {
            assert(before.push(keystroke@) =~= h.drop_first().push(keystroke@));
        } else {
            assert(before =~= h);
        }
    }
}

/// A repeat of the newest entry (the same keys), recorded at the entry's time
/// or less than `MERGE_WINDOW_MS` milliseconds after it, is merged into that
/// entry: the history keeps its length and the entry is counted once more
/// (up to `u32::MAX`) at the repeat's time. Anything else — other keys, or a
/// time before the entry or `MERGE_WINDOW_MS` or more after it — becomes the
/// new newest entry after all earlier ones, the oldest of which is dropped
/// when the history already holds `MAX_HISTORY` entries.
pub proof fn lemma_repeat_merges(h: Seq<KeystrokeView>, k: KeystrokeView)
    ensures
        ({
            let r = pushed(h, k);
            let merge = h.len() > 0 && h.last().keys == k.keys && h.last().time <= k.time && k.time
                < h.last().time + MERGE_WINDOW_MS;
            &&& merge ==> {
                &&& r.len() == h.len()
                &&& r.drop_last() == h.drop_last()
                &&& r.last().keys == h.last().keys
                &&& r.last().pressed == h.last().pressed
                &&& r.last().time == k.time
                &&& r.last().count == if h.last().count == u32::MAX {
                    u32::MAX as int
                } else {
                    h.last().count + 1
                }
            }
            &&& !merge ==> r.last() == k
            &&& !merge && h.len() < MAX_HISTORY ==> r.drop_last() == h
            &&& !merge && h.len() >= MAX_HISTORY ==> r.drop_last() == h.subrange(1, h.len() as int)
        }),
{
    let r = pushed(h, k);
    if h.len() > 0 && repeats(h.last(), k) {
        assert(r.drop_last() =~= h.drop_last());
    } else if h.len() >= MAX_HISTORY {
        assert(r.drop_last() =~= h.subrange(1, h.len() as int));
    } else {
        assert(r.drop_last() =~= h);
    }
}

/// Recording a keystroke never grows a history beyond `MAX_HISTORY` entries (nor
/// beyond its own length when it was already longer), leaves the recorded keys
/// as the newest entry, stamped with the recording's time, and keeps released, counted, non-empty entries so.
pub proof fn lemma_push_history(h: Seq<KeystrokeView>, k: KeystrokeView)
    ensures
        pushed(h, k).len() > 0,
        h.len() <= MAX_HISTORY ==> pushed(h, k).len() <= MAX_HISTORY,
        pushed(h, k).len() <= h.len() + 1,
        pushed(h, k).last().keys == k.keys,
        pushed(h, k).last().time == k.time,
        history_ok(h) && entry_ok(k) ==> history_ok(pushed(h, k)),
{
    let p = pushed(h, k);
    if history_ok(h) && entry_ok(k) {
        assert forall|i: int| 0 <= i < p.len() implies entry_ok(#[trigger] p[i]) by {
            if h.len() > 0 && repeats(h.last(), k) {
                if i < h.len() - 1 {
                    assert(p[i] == h[i]);
                }
            } else if h.len() >= MAX_HISTORY {
                if i < p.len() - 1 {
                    assert(p[i] == h[i + 1]);
                }
            } else {
                if i < h.len() {
                    assert(p[i] == h[i]);
                }
            }
        }
    }
}

/// A history entry is a released keystroke with at least one key, counted at least once.
pub open spec fn entry_ok(k: KeystrokeView) -> bool {
    &&& !k.pressed
    &&& k.keys.len() > 0
    &&& k.count >= 1
}

/// Every entry of the history is well formed.
pub open spec fn history_ok(h: Seq<KeystrokeView>) -> bool {
    forall|i: int| 0 <= i < h.len() ==> entry_ok(#[trigger] h[i])
}

/// Shared state for keystroke visualization
#[derive(Debug)]
pub struct SharedState {
    pub enabled: bool,
    /// How long keystrokes stay visible (milliseconds)
    pub fade_ms: u64,
    /// Maximum number of keystroke widgets to show
    pub history_count: u8,
    /// Show touchscreen contacts
    pub show_touch: bool,
    /// Current modifier state (live)
    pub modifiers: KeyModifiers,
    /// Peak modifiers held during current modifier session (for showing full combo on release)
    pub peak_modifiers: KeyModifiers,
    /// Currently pressed non-modifier key and the modifiers that were active when it was pressed
    pub current_key: Option<(String, KeyModifiers)>,
    /// History of completed keystrokes (released) - shown as not pressed
    pub history: Vec<Keystroke>,
    /// Track if a non-modifier key was pressed while modifiers were held
    /// (to know if we should show modifier-only tap on release)
    pub key_pressed_with_modifiers: bool,
    /// Currently pressed mouse button: (button_string, is_touchpad, has_moved)
    pub current_mouse: Option<(String, bool, bool)>,
}

/// The state as a value: the labels of the held key and button as character sequences.
pub struct StateView {
    pub enabled: bool,
    pub fade_ms: u64,
    pub history_count: u8,
    pub show_touch: bool,
    pub modifiers: KeyModifiers,
    pub peak_modifiers: KeyModifiers,
    pub current_key: Option<(Seq<char>, KeyModifiers)>,
    pub history: Seq<KeystrokeView>,
    pub key_pressed_with_modifiers: bool,
    pub current_mouse: Option<(Seq<char>, bool, bool)>,
}

impl View for SharedState {
    type V = StateView;

    open spec fn view(&self) -> StateView {
        StateView {
            enabled: self.enabled,
            fade_ms: self.fade_ms,
            history_count: self.history_count,
            show_touch: self.show_touch,
            modifiers: self.modifiers,
            peak_modifiers: self.peak_modifiers,
            current_key: match self.current_key {
                Some((k, m)) => Some((k@, m)),
                None => None,
            },
            history: keystrokes_view(self.history@),
            key_pressed_with_modifiers: self.key_pressed_with_modifiers,
            current_mouse: match self.current_mouse {
                Some((b, t, moved)) => Some((b@, t, moved)),
                None => None,
            },
        }
    }
}

/// Every modifier held in `a` is also held in `b`.
pub open spec fn modifiers_within(a: KeyModifiers, b: KeyModifiers) -> bool {
    &&& a.ctrl ==> b.ctrl
    &&& a.alt ==> b.alt
    &&& a.shift ==> b.shift
    &&& a.super_key ==> b.super_key
}

impl StateView {
    /// The invariant of the overlay state: the history holds at most
    /// `MAX_HISTORY` well-formed released entries, and the peak modifiers of the
    /// current modifier session include every modifier held now.
    pub open spec fn wf(self) -> bool {
        &&& self.history.len() <= MAX_HISTORY
        &&& history_ok(self.history)
        &&& modifiers_within(self.modifiers, self.peak_modifiers)
    }
}

/// The button label shown for a held or released button: a left click or a
/// touchpad tap that moved while held is a drag.
pub open spec fn shown_button(label: Seq<char>, is_touchpad: bool, has_moved: bool) -> Seq<char> {
    if has_moved && label == "LClick"@ {
        "LDrag"@
    } else if has_moved && is_touchpad && label == "Tap"@ {
        "TapDrag"@
    } else {
        label
    }
}

/// The keystroke shown for what is held right now, if anything: a held mouse
/// button comes first, then a held key, then held modifiers alone.
pub open spec fn held_keystroke(s: StateView) -> Seq<KeystrokeView> {
    match s.current_mouse {
        Some((label, is_touchpad, has_moved)) => seq![
            labelled_spec(s.modifiers, shown_button(label, is_touchpad, has_moved), true),
        ],
        None => match s.current_key {
            Some((key, key_mods)) => seq![labelled_spec(key_mods, key, true)],
            None => if s.modifiers.spec_any() {
                seq![keystroke_of(s.modifiers.spec_parts(), true)]
            } else {
                Seq::empty()
            },
        },
    }
}

/// What the overlay shows: nothing when disabled, else the history followed by
/// the held keystroke.
pub open spec fn spec_display(s: StateView) -> Seq<KeystrokeView> {
    if !s.enabled {
        Seq::empty()
    } else {
        s.history + held_keystroke(s)
    }
}

/// The label shown for a button, given whether it moved while held.
pub fn shown_button_label(label: &String, is_touchpad: bool, has_moved: bool) -> (r: String)
    ensures
        r@ == shown_button(label@, is_touchpad, has_moved),
{
    if has_moved && str_eq(label.as_str(), "LClick") {
        String::from_str("LDrag")
    } else if has_moved && is_touchpad && str_eq(label.as_str(), "Tap") {
        String::from_str("TapDrag")
    } else {
        label.clone()
    }
}

impl SharedState {
    /// A fresh state with nothing held and an empty history.
    pub fn new(enabled: bool, fade_ms: u64, history_count: u8, show_touch: bool) -> (r: Self)
        ensures
            r@ == (StateView {
                enabled,
                fade_ms,
                history_count,
                show_touch,
                modifiers: no_modifiers(),
                peak_modifiers: no_modifiers(),
                current_key: None,
                history: Seq::empty(),
                key_pressed_with_modifiers: false,
                current_mouse: None,
            }),
            r@.wf(),
    {
        let r = SharedState {
            enabled,
            fade_ms,
            history_count,
            show_touch,
            modifiers: KeyModifiers::default(),
            peak_modifiers: KeyModifiers::default(),
            current_key: None,
            history: Vec::new(),
            key_pressed_with_modifiers: false,
            current_mouse: None,
        };
        assert(r@.history =~= Seq::<KeystrokeView>::empty());
        r
    }

    /// The keystrokes of the overlay's row, oldest first: the newest of the
    /// shown keystrokes that fit into the row's width, at most `history_count`
    /// of them.
    pub fn row_keystrokes(&self) -> (r: Vec<Keystroke>)
        ensures
            r@.len() <= self.history_count,
            exists|start: int|
                row_start_ok(spec_display(self@), start, self.history_count as int)
                    && keystrokes_view(r@) == #[trigger] spec_display(self@).skip(start),
    {
        let mut display = self.display_keystrokes();
        let start = fitting_start(display.as_slice(), self.history_count as usize);
        let ghost whole = display@;
        let r = display.split_off(start);
        proof {
            assert(keystrokes_view(r@) =~= keystrokes_view(whole).skip(start as int));
        }
        r
    }

    /// The keystrokes the overlay shows, oldest first: the history, then what is held now.
    pub fn display_keystrokes(&self) -> (r: Vec<Keystroke>)
        ensures
            keystrokes_view(r@) == spec_display(self@),
    {
        if !self.enabled {
            let r: Vec<Keystroke> = Vec::new();
            assert(keystrokes_view(r@) =~= Seq::<KeystrokeView>::empty());
            return r;
        }
        let mut display = self.history.clone();
        proof {
            assert(keystrokes_view(display@) =~= keystrokes_view(self.history@)) by {
                assert forall|i: int| 0 <= i < display@.len() implies display@[i]@
                    == self.history@[i]@ by {
                    assert(cloned::<Keystroke>(self.history[i], display[i]));
                }
            }
        }
        let ghost shown = keystrokes_view(display@);
        match &self.current_mouse {
            Some((label, is_touchpad, has_moved)) => {
                let shown_label = shown_button_label(label, *is_touchpad, *has_moved);
                display.push(Keystroke::labelled(&self.modifiers, shown_label, true));
            },
            None => match &self.current_key {
                Some((key, key_mods)) => {
                    display.push(Keystroke::labelled(key_mods, key.clone(), true));
                },
                None => {
                    if self.modifiers.any() {
                        match Keystroke::from_modifiers(&self.modifiers, true) {
                            Some(k) => display.push(k),
                            None => {},
                        }
                    }
                },
            },
        }
        assert(keystrokes_view(display@) =~= shown + held_keystroke(self@));
        display
    }
}

/// The history entries still shown at `now`: those recorded less than
/// `fade_ms` milliseconds before it, in order.
pub open spec fn fresh_history(h: Seq<KeystrokeView>, now: u64, fade_ms: u64) -> Seq<KeystrokeView> {
    h.filter(|k: KeystrokeView| !spec_expired(k, now, fade_ms))
}

/// The state after the periodic cleanup at `now`: faded-out history entries are dropped.
pub open spec fn cleaned(s: StateView, now: u64) -> StateView {
    StateView { history: fresh_history(s.history, now, s.fade_ms), ..s }
}

/// The touch markers drawn on a surface: every contact when the overlay is
/// enabled, touchscreen contacts are to be shown, and the surface is the one
/// touch input belongs to (`show_touches`); none otherwise.
pub open spec fn spec_touch_markers<P>(s: StateView, ts: Seq<TouchPoint<P>>, show_touches: bool) -> Seq<TouchPoint<P>> {
    if s.enabled && s.show_touch && show_touches {
        ts
    } else {
        Seq::empty()
    }
}

impl SharedState {
    /// Clean up expired keystrokes and touch contacts at time `now`
    pub fn cleanup_expired<P: Copy>(&mut self, touches: &mut TouchSet<P>, now: u64)
        ensures
            final(self)@ == cleaned(old(self)@, now),
            final(touches).touches@ == spec_cleanup(old(touches).touches@, now),
    {
        let fade_ms = self.fade_ms;
        let n = self.history.len();
        let ghost h = keystrokes_view(self.history@);
        let mut kept: Vec<Keystroke> = Vec::new();
        let mut i: usize = 0;
        while i < n
            invariant
                n == self.history@.len(),
                h == keystrokes_view(self.history@),
                fade_ms == self.fade_ms,
                0 <= i <= n,
                keystrokes_view(kept@) == h.take(i as int).filter(
                    |k: KeystrokeView| !spec_expired(k, now, fade_ms),
                ),
            decreases n - i,
        {
            let ghost before = keystrokes_view(kept@);
            proof {
                reveal_with_fuel(Seq::<_>::filter, 1);
                assert(h.take(i + 1).drop_last() =~= h.take(i as int));
                assert(h.take(i + 1).last() == self.history@[i as int]@);
            }
            if !self.history[i].is_expired(now, fade_ms) {
                let k = self.history[i].clone();
                kept.push(k);
                proof {
                    assert(keystrokes_view(kept@) =~= before.push(self.history@[i as int]@));
                }
            }
            i = i + 1;
        }
        proof {
            assert(h.take(n as int) =~= h);
        }
        self.history = kept;
        touches.cleanup_expired(now);
    }

    /// The touch contacts to draw as markers on a surface; `show_touches` is set
    /// only for the surface on the output touch input is attributed to.
    pub fn touch_markers<P: Copy>(
        &self,
        touches: &TouchSet<P>,
        show_touches: bool,
    ) -> (r: Vec<TouchPoint<P>>)
        ensures
            r@ == spec_touch_markers(self@, touches.touches@, show_touches),
    {
        let mut r: Vec<TouchPoint<P>> = Vec::new();
        if !(self.enabled && self.show_touch && show_touches) {
            return r;
        }
        let n = touches.touches.len();
        let mut i: usize = 0;
        while i < n
            invariant
                n == touches.touches@.len(),
                0 <= i <= n,
                r@ == touches.touches@.take(i as int),
            decreases n - i,
        {
            r.push(touches.touches[i]);
            proof {
                assert(r@ =~= touches.touches@.take(i + 1));
            }
            i = i + 1;
        }
        proof {
            assert(touches.touches@.take(n as int) =~= touches.touches@);
        }
        r
    }
}

/// Touch markers appear on a surface exactly when the overlay is enabled,
/// touchscreen contacts are to be shown, the surface is the one touch input
/// belongs to, and there are contacts; they are then all the contacts.
pub proof fn lemma_touch_markers_shown<P>(s: StateView, ts: Seq<TouchPoint<P>>, show_touches: bool)
    ensures
        (spec_touch_markers(s, ts, show_touches).len() > 0) <==> (s.enabled && s.show_touch
            && show_touches && ts.len() > 0),
        spec_touch_markers(s, ts, show_touches).len() > 0 ==> spec_touch_markers(s, ts, show_touches) == ts,
{
}

/// The cleanup keeps, in order, exactly the history entries that have not
/// faded out: each entry stays visible for the fade duration after it was
/// recorded or last repeated, and is gone once that has passed. It changes
/// nothing else and keeps the state well formed.
pub proof fn lemma_cleanup(s: StateView, now: u64)
    ensures
        forall|i: int| 0 <= i < s.history.len() && now < #[trigger] s.history[i].time + s.fade_ms
            ==> cleaned(s, now).history.contains(s.history[i]),
        forall|k: KeystrokeView| #[trigger] cleaned(s, now).history.contains(k) ==> s.history.contains(k)
            && now < k.time + s.fade_ms,
        cleaned(s, now).history.len() <= s.history.len(),
        s.history.len() > 0 && now < s.history.last().time + s.fade_ms ==> cleaned(s, now).history.len() > 0
            && cleaned(s, now).history.last() == s.history.last(),
        s.wf() ==> cleaned(s, now).wf(),
{
    let pred = |k: KeystrokeView| !spec_expired(k, now, s.fade_ms);
    let h = s.history;
    let f = h.filter(pred);
    h.lemma_filter_len(pred);
    assert forall|i: int| 0 <= i < h.len() && now < #[trigger] h[i].time + s.fade_ms implies f.contains(
        h[i],
    ) by {
        h.lemma_filter_contains(pred, i);
    }
    assert forall|k: KeystrokeView| #[trigger] f.contains(k) implies h.contains(k) && now < k.time
        + s.fade_ms by {
        let j = choose|j: int| 0 <= j < f.len() && f[j] == k;
        h.lemma_filter_contains_rev(pred, k);
        h.lemma_filter_pred(pred, j);
    }
    if h.len() > 0 && now < h.last().time + s.fade_ms {
        reveal_with_fuel(Seq::<_>::filter, 1);
        assert(h.drop_last().filter(pred).push(h.last()) == f);
    }
    if s.wf() {
        assert forall|i: int| 0 <= i < f.len() implies entry_ok(#[trigger] f[i]) by {
            assert(f.contains(f[i]));
        }
    }
}

/// A disabled overlay shows no keystroke and no touch marker, whatever its
/// history and whatever is held.
pub proof fn lemma_disabled_shows_nothing<P>(s: StateView, ts: Seq<TouchPoint<P>>, show_touches: bool)
    requires
        !s.enabled,
    ensures
        spec_display(s).len() == 0,
        spec_touch_markers(s, ts, show_touches).len() == 0,
{
}

/// While something is held on an enabled overlay, the last keystroke shown is
/// pressed, counted once, and shows the held modifiers (in the order Super,
/// Ctrl, Alt, Shift) followed by what is held: a held mouse button (under the
/// modifiers held now, as a drag once it moved), else a held key (under the
/// modifiers held when it was pressed); with only modifiers held, it shows
/// those modifiers alone.
pub proof fn lemma_held_keystroke_shown(s: StateView)
    requires
        s.enabled,
    ensures
        s.current_mouse is Some || s.current_key is Some || s.modifiers.spec_any() ==> {
            &&& spec_display(s).len() == s.history.len() + 1
            &&& spec_display(s).last().pressed
            &&& spec_display(s).last().count == 1
        },
        s.current_mouse matches Some((label, is_touchpad, has_moved)) ==> spec_display(s).last().keys
            == s.modifiers.spec_parts().push(shown_button(label, is_touchpad, has_moved)),
        s.current_mouse is None ==> (s.current_key matches Some((key, key_mods))
            ==> spec_display(s).last().keys == key_mods.spec_parts().push(key)),
        s.current_mouse is None && s.current_key is None && s.modifiers.spec_any()
            ==> spec_display(s).last().keys == s.modifiers.spec_parts(),
{
    lemma_parts_empty_iff_none(s.modifiers);
    match s.current_mouse {
        Some((label, is_touchpad, has_moved)) => {
            assert(s.modifiers.spec_parts().push(shown_button(label, is_touchpad, has_moved))
                =~= labelled_spec(s.modifiers, shown_button(label, is_touchpad, has_moved), true).keys);
        },
        None => match s.current_key {
            Some((key, key_mods)) => {
                lemma_parts_empty_iff_none(key_mods);
                assert(key_mods.spec_parts().push(key) =~= labelled_spec(key_mods, key, true).keys);
            },
            None => {},
        },
    }
}

} // verus!
