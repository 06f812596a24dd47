//! Keystrokes shown by the overlay, the modifier set they were typed with,
//! and the rule that picks how many of them fit into one row.
use vstd::prelude::*;
use vstd::string::*;
use vstd::utf8::encode_utf8;

verus! {

/// Active modifier keys for a keystroke
#[derive(Debug, Clone, Copy, PartialEq, Eq, Structural)]
pub struct KeyModifiers {
    pub ctrl: bool,
    pub alt: bool,
    pub shift: bool,
    pub super_key: bool,
}

/// Represents a keystroke to display
#[derive(Debug)]
pub struct Keystroke {
    /// All keys in this keystroke (modifiers + main key)
    pub keys: Vec<String>,
    /// Whether this keystroke is currently being held
    pub pressed: bool,
    /// How many times in a row this keystroke was repeated
    pub count: u32,
    /// When this keystroke was recorded or last repeated (milliseconds of a monotonic clock)
    pub time: u64,
}

/// What a keystroke shows: its key labels, whether it is held, its repeat
/// count, and when it was recorded or last repeated.
pub struct KeystrokeView {
    pub keys: Seq<Seq<char>>,
    pub pressed: bool,
    pub count: u32,
    pub time: u64,
}

/// The character sequences held by a sequence of strings.
pub open spec fn strings_view(v: Seq<String>) -> Seq<Seq<char>> {
    v.map_values(|s: String| s@)
}

impl View for Keystroke {
    type V = KeystrokeView;

    open spec fn view(&self) -> KeystrokeView {
        KeystrokeView {
            keys: strings_view(self.keys@),
            pressed: self.pressed,
            count: self.count,
            time: self.time,
        }
    }
}

/// The views of a sequence of keystrokes.
pub open spec fn keystrokes_view(v: Seq<Keystroke>) -> Seq<KeystrokeView> {
    v.map_values(|k: Keystroke| k@)
}

pub open spec fn super_label() -> Seq<char> {
    "Super"@
}

pub open spec fn ctrl_label() -> Seq<char> {
    "Ctrl"@
}

pub open spec fn alt_label() -> Seq<char> {
    "Alt"@
}

pub open spec fn shift_label() -> Seq<char> {
    "⇧"@
}

/// The modifier set with no modifier held.
pub open spec fn no_modifiers() -> KeyModifiers {
    KeyModifiers { ctrl: false, alt: false, shift: false, super_key: false }
}

/// A keystroke as shown on the overlay, counted once, not yet stamped with a time.
pub open spec fn keystroke_of(keys: Seq<Seq<char>>, pressed: bool) -> KeystrokeView {
    KeystrokeView { keys, pressed, count: 1, time: 0 }
}

/// `k` recorded at time `now`.
pub open spec fn stamped(k: KeystrokeView, now: u64) -> KeystrokeView {
    KeystrokeView { time: now, ..k }
}

/// How long after a keystroke the same keys still count as a repeat of it (milliseconds)
pub const MERGE_WINDOW_MS: u64 = 1000;

/// `later` repeats `earlier`: it shows the same keys and was recorded less than
/// `MERGE_WINDOW_MS` after it.
pub open spec fn repeats(earlier: KeystrokeView, later: KeystrokeView) -> bool {
    &&& earlier.keys == later.keys
    &&& earlier.time <= later.time
    &&& later.time < earlier.time + MERGE_WINDOW_MS
}

/// A keystroke recorded at `k.time` has faded out at `now` after `fade_ms` milliseconds.
pub open spec fn spec_expired(k: KeystrokeView, now: u64, fade_ms: u64) -> bool {
    now >= k.time + fade_ms
}

/// A single key on its own.
pub open spec fn single_spec(key: Seq<char>, pressed: bool) -> KeystrokeView {
    keystroke_of(seq![key], pressed)
}

/// The held modifiers followed by the main key.
pub open spec fn combination_spec(m: KeyModifiers, key: Seq<char>, pressed: bool) -> KeystrokeView {
    keystroke_of(m.spec_parts().push(key), pressed)
}

/// The keystroke recorded for `label` under modifiers `m`: a combination when
/// any modifier is held, the label alone otherwise.
pub open spec fn labelled_spec(m: KeyModifiers, label: Seq<char>, pressed: bool) -> KeystrokeView {
    if m.spec_any() {
        combination_spec(m, label, pressed)
    } else {
        single_spec(label, pressed)
    }
}

impl Default for KeyModifiers {
    fn default() -> (r: Self)
        ensures
            r == no_modifiers(),
    {
        KeyModifiers { ctrl: false, alt: false, shift: false, super_key: false }
    }
}

impl KeyModifiers {
    pub open spec fn spec_any(self) -> bool {
        self.ctrl || self.alt || self.shift || self.super_key
    }

    /// The display labels of the held modifiers, in the order Super, Ctrl, Alt, Shift.
    pub open spec fn spec_parts(self) -> Seq<Seq<char>> {
        (if self.super_key { seq![super_label()] } else { Seq::empty() })
            + (if self.ctrl { seq![ctrl_label()] } else { Seq::empty() })
            + (if self.alt { seq![alt_label()] } else { Seq::empty() })
            + (if self.shift { seq![shift_label()] } else { Seq::empty() })
    }

    /// Returns true if any modifier is active
    pub fn any(&self) -> (r: bool)
        ensures
            r == self.spec_any(),
    {
        self.ctrl || self.alt || self.shift || self.super_key
    }

    /// Returns the modifier keys as display strings
    pub fn to_parts(&self) -> (r: Vec<String>)
        ensures
            strings_view(r@) == self.spec_parts(),
    {
        let mut parts: Vec<String> = Vec::new();
        if self.super_key {
            parts.push(String::from_str("Super"));
        }
        let ghost p1 = strings_view(parts@);
        if self.ctrl {
            parts.push(String::from_str("Ctrl"));
        }
        let ghost p2 = strings_view(parts@);
        if self.alt {
            parts.push(String::from_str("Alt"));
        }
        let ghost p3 = strings_view(parts@);
        if self.shift {
            parts.push(String::from_str("⇧"));
        }
        proof {
            let a = if self.super_key { seq![super_label()] } else { Seq::<Seq<char>>::empty() };
            let b = if self.ctrl { seq![ctrl_label()] } else { Seq::<Seq<char>>::empty() };
            let c = if self.alt { seq![alt_label()] } else { Seq::<Seq<char>>::empty() };
            let d = if self.shift { seq![shift_label()] } else { Seq::<Seq<char>>::empty() };
            assert(p1 =~= a);
            assert(p2 =~= a + b);
            assert(p3 =~= a + b + c);
            assert(strings_view(parts@) =~= a + b + c + d);
        }
        parts
    }

    /// Create keystroke from just modifiers (for showing held modifiers)
    pub fn to_keystroke(&self, pressed: bool) -> (r: Option<Keystroke>)
        ensures
            r is None <==> !self.spec_any(),
            r matches Some(k) ==> k@ == keystroke_of(self.spec_parts(), pressed),
    {
        let keys = self.to_parts();
        if keys.len() == 0 {
            proof {
                lemma_parts_empty_iff_none(*self);
            }
            None
        } else {
            proof {
                lemma_parts_empty_iff_none(*self);
            }
            Some(Keystroke { keys, pressed, count: 1, time: 0 })
        }
    }
}

/// The modifier labels are empty exactly when no modifier is held.
pub proof fn lemma_parts_empty_iff_none(m: KeyModifiers)
    ensures
        (m.spec_parts().len() == 0) <==> !m.spec_any(),
        m.spec_parts().len() <= 4,
{
}

/// The modifier labels list each held modifier once, in the order Super,
/// Ctrl, Alt, Shift (`⇧`): Super first when held, Shift last when held, Ctrl
/// right after Super, Alt right after those two.
pub proof fn lemma_modifier_parts(m: KeyModifiers)
    ensures
        m.spec_parts().len() == (if m.super_key { 1int } else { 0 }) + (if m.ctrl { 1int } else { 0 })
            + (if m.alt { 1int } else { 0 }) + (if m.shift { 1int } else { 0 }),
        m.super_key ==> m.spec_parts()[0] == "Super"@,
        m.ctrl ==> m.spec_parts()[if m.super_key { 1int } else { 0 }] == "Ctrl"@,
        m.alt ==> m.spec_parts()[(if m.super_key { 1int } else { 0 }) + (if m.ctrl { 1int } else { 0 })]
            == "Alt"@,
        m.shift ==> m.spec_parts().last() == "⇧"@,
{
}

/// A keystroke recorded under held modifiers is a combination (more than one
/// key), and one recorded with no modifier held is a single key.
pub proof fn lemma_labelled_shape(m: KeyModifiers, label: Seq<char>, pressed: bool)
    ensures
        (labelled_spec(m, label, pressed).keys.len() > 1) <==> m.spec_any(),
        labelled_spec(m, label, pressed).keys.last() == label,
        labelled_spec(m, label, pressed).count == 1,
{
    lemma_parts_empty_iff_none(m);
}

impl Clone for Keystroke {
    fn clone(&self) -> (r: Self)
        ensures
            r@ == self@,
    {
        let keys = self.keys.clone();
        proof {
            assert(strings_view(keys@) =~= strings_view(self.keys@)) by {
                assert forall|i: int| 0 <= i < keys@.len() implies keys@[i]@ == self.keys@[i]@ by {
                    assert(cloned::<String>(self.keys[i], keys[i]));
                }
            }
        }
        Keystroke { keys, pressed: self.pressed, count: self.count, time: self.time }
    }
}

impl Keystroke {
    /// Create a single key keystroke
    pub fn single(key: String, pressed: bool) -> (r: Self)
        ensures
            r@ == single_spec(key@, pressed),
    {
        let keys = vec![key];
        assert(strings_view(keys@) =~= seq![key@]);
        Keystroke { keys, pressed, count: 1, time: 0 }
    }

    /// Create a combination keystroke from modifiers + key
    pub fn combination(modifiers: &KeyModifiers, key: String, pressed: bool) -> (r: Self)
        ensures
            r@ == combination_spec(*modifiers, key@, pressed),
    {
        let mut keys = modifiers.to_parts();
        let ghost before = keys@;
        keys.push(key);
        assert(strings_view(keys@) =~= strings_view(before).push(key@));
        Keystroke { keys, pressed, count: 1, time: 0 }
    }

    /// Create from just modifiers
    pub fn from_modifiers(modifiers: &KeyModifiers, pressed: bool) -> (r: Option<Self>)
        ensures
            r is None <==> !modifiers.spec_any(),
            r matches Some(k) ==> k@ == keystroke_of(modifiers.spec_parts(), pressed),
    {
        modifiers.to_keystroke(pressed)
    }

    /// The keystroke for `label` under `modifiers`: the combination when a
    /// modifier is held, the label alone otherwise.
    pub fn labelled(modifiers: &KeyModifiers, label: String, pressed: bool) -> (r: Self)
        ensures
            r@ == labelled_spec(*modifiers, label@, pressed),
    {
        if modifiers.any() {
            Keystroke::combination(modifiers, label, pressed)
        } else {
            Keystroke::single(label, pressed)
        }
    }

    /// Check if this is a combination (multiple keys)
    pub fn is_combination(&self) -> (r: bool)
        ensures
            r == (self@.keys.len() > 1),
    {
        self.keys.len() > 1
    }

    /// Whether `other` repeats this keystroke: both show the same keys, and
    /// `other` was recorded less than `MERGE_WINDOW_MS` after this one.
    pub fn can_merge(&self, other: &Keystroke) -> (r: bool)
        ensures
            r == repeats(self@, other@),
    {
        if other.time < self.time || other.time - self.time >= MERGE_WINDOW_MS {
            return false;
        }
        let n = self.keys.len();
        if n != other.keys.len() {
            proof {
                assert(self@.keys.len() != other@.keys.len());
            }
            return false;
        }
        let mut i: usize = 0;
        while i < n
            invariant
                n == self.keys@.len(),
                n == other.keys@.len(),
                0 <= i <= n,
                forall|j: int| 0 <= j < i ==> self.keys@[j]@ == other.keys@[j]@,
            decreases n - i,
        {
            if self.keys[i] != other.keys[i] {
                proof {
                    assert(self@.keys[i as int] != other@.keys[i as int]);
                }
                return false;
            }
            i = i + 1;
        }
        assert(self@.keys =~= other@.keys);
        true
    }

    /// Count one more repetition of this keystroke (the count stops at its maximum).
    pub fn increment(&mut self)
        ensures
            final(self)@ == (KeystrokeView {
                count: if old(self).count < u32::MAX { (old(self).count + 1) as u32 } else { u32::MAX },
                ..old(self)@
            }),
    {
        self.count = self.count.saturating_add(1);
    }

    /// Whether this keystroke, shown for `fade_ms` milliseconds, has faded out at time `now`.
    pub fn is_expired(&self, now: u64, fade_ms: u64) -> (r: bool)
        ensures
            r == spec_expired(self@, now, fade_ms),
    {
        now >= self.time && now - self.time >= fade_ms
    }

    /// The texts this keystroke's widget shows, left to right.
    pub fn widget_texts(&self) -> (r: Vec<String>)
        ensures
            strings_view(r@) == widget_texts_spec(self@),
    {
        let n = self.keys.len();
        let mut r: Vec<String> = Vec::new();
        if n == 0 {
            assert(strings_view(r@) =~= widget_texts_spec(self@));
            return r;
        }
        r.push(self.keys[0].clone());
        proof {
            let ks = strings_view(self.keys@);
            assert(strings_view(r@) =~= with_plus_separators(ks.take(1)));
        }
        let mut i: usize = 1;
        while i < n
            invariant
                n == self.keys@.len(),
                1 <= i <= n,
                strings_view(r@) == with_plus_separators(strings_view(self.keys@).take(i as int)),
            decreases n - i,
        {
            let ghost before = strings_view(r@);
            r.push(String::from_str("+"));
            r.push(self.keys[i].clone());
            proof {
                let ks = strings_view(self.keys@);
                assert(ks.take(i + 1).drop_last() =~= ks.take(i as int));
                assert(ks.take(i + 1).last() == ks[i as int]);
                assert(strings_view(r@) =~= before.push("+"@).push(ks[i as int]));
            }
            i = i + 1;
        }
        proof {
            assert(strings_view(self.keys@).take(n as int) =~= strings_view(self.keys@));
        }
        r
    }

    /// Estimated on-screen width of this keystroke in pixels (saturating at `u64::MAX`).
    pub fn estimated_width(&self) -> (w: u64)
        ensures
            w as int == cap(spec_width(self@)),
    {
        let n = self.keys.len();
        if n > 1 {
            let mut text: u128 = 0;
            let mut i: usize = 0;
            while i < n
                invariant
                    n == self.keys@.len(),
                    0 <= i <= n,
                    text as int == cap((12 * keys_bytes(strings_view(self.keys@).take(i as int))) as int),
                decreases n - i,
            {
                let len = self.keys[i].as_str().len();
                proof {
                    let ks = strings_view(self.keys@);
                    assert(ks.take(i + 1).drop_last() =~= ks.take(i as int));
                    assert(ks.take(i + 1).last() == ks[i as int]);
                    assert(ks[i as int] == self.keys@[i as int]@);
                    assert(len == byte_len(ks[i as int]));
                    assert(keys_bytes(ks.take(i + 1)) == keys_bytes(ks.take(i as int)) + byte_len(ks[i as int]));
                }
                let sum: u128 = text + 12 * (len as u128);
                text = if sum > u64::MAX as u128 { u64::MAX as u128 } else { sum };
                i = i + 1;
            }
            proof {
                assert(strings_view(self.keys@).take(n as int) =~= strings_view(self.keys@));
            }
            let total: u128 = text + 20 * ((n - 1) as u128) + 20;
            if total > u64::MAX as u128 {
                u64::MAX
            } else {
                total as u64
            }
        } else {
            48
        }
    }
}

/// `keys` with a `+` item between each two neighbours.
pub open spec fn with_plus_separators(keys: Seq<Seq<char>>) -> Seq<Seq<char>>
    decreases keys.len(),
{
    if keys.len() <= 1 {
        keys
    } else {
        with_plus_separators(keys.drop_last()).push("+"@).push(keys.last())
    }
}

/// A widget shows the keys of a keystroke in order with a `+` between each two
/// neighbours: key `i` at place `2 i`, a `+` at every odd place.
pub proof fn lemma_widget_texts(keys: Seq<Seq<char>>)
    ensures
        keys.len() > 0 ==> with_plus_separators(keys).len() == 2 * keys.len() - 1,
        keys.len() == 0 ==> with_plus_separators(keys).len() == 0,
        forall|i: int| 0 <= i < keys.len() ==> #[trigger] with_plus_separators(keys)[2 * i] == keys[i],
        forall|i: int|
            0 <= i < keys.len() - 1 ==> #[trigger] with_plus_separators(keys)[2 * i + 1] == "+"@,
    decreases keys.len(),
{
    if keys.len() > 1 {
        let init = keys.drop_last();
        lemma_widget_texts(init);
        let w = with_plus_separators(keys);
        let wi = with_plus_separators(init);
        assert forall|i: int| 0 <= i < keys.len() implies #[trigger] w[2 * i] == keys[i] by {
            if i < keys.len() - 1 {
                assert(w[2 * i] == wi[2 * i]);
                assert(init[i] == keys[i]);
            }
        }
        assert forall|i: int| 0 <= i < keys.len() - 1 implies #[trigger] w[2 * i + 1] == "+"@ by {
            if i < keys.len() - 2 {
                assert(w[2 * i + 1] == wi[2 * i + 1]);
            }
        }
    }
}

/// The texts a keystroke widget shows, left to right: the keys of a
/// combination separated by `+` items, or the key of a single keystroke.
pub open spec fn widget_texts_spec(k: KeystrokeView) -> Seq<Seq<char>> {
    with_plus_separators(k.keys)
}

/// Number of UTF-8 bytes that encode `s`, as `str::len` reports it.
pub open spec fn byte_len(s: Seq<char>) -> nat {
    (encode_utf8(s).len() as usize) as nat
}

/// Total UTF-8 length of a sequence of labels.
pub open spec fn keys_bytes(keys: Seq<Seq<char>>) -> nat
    decreases keys.len(),
{
    if keys.len() == 0 {
        0
    } else {
        keys_bytes(keys.drop_last()) + byte_len(keys.last())
    }
}

/// `x` capped at `u64::MAX`.
pub open spec fn cap(x: int) -> int {
    if x <= u64::MAX { x } else { u64::MAX as int }
}

/// Width estimate of a keystroke widget: a single key is a 48 pixel square; a
/// combination is 12 pixels per text byte, 20 pixels per "+" separator and 20
/// pixels of padding.
pub open spec fn spec_width(k: KeystrokeView) -> int {
    if k.keys.len() > 1 {
        12 * keys_bytes(k.keys) + 20 * (k.keys.len() - 1) + 20
    } else {
        48
    }
}

/// Pixels available for the row of keystrokes.
pub const AVAILABLE_WIDTH: u64 = 380;

/// Gap between two keystroke widgets.
pub const KEY_GAP: u64 = 8;

/// Width of a row showing `ks` in order, with a gap between neighbours.
pub open spec fn row_width(ks: Seq<KeystrokeView>) -> int
    decreases ks.len(),
{
    if ks.len() == 0 {
        0
    } else if ks.len() == 1 {
        spec_width(ks[0])
    } else {
        spec_width(ks[0]) + KEY_GAP + row_width(ks.drop_first())
    }
}

/// `start` is where a row of at most `max_count` widgets showing the newest of
/// `ks` begins: the row `ks[start..]` fits into the available width and the
/// widget limit, and one more keystroke would exceed one of them.
pub open spec fn row_start_ok(ks: Seq<KeystrokeView>, start: int, max_count: int) -> bool {
    &&& 0 <= start <= ks.len()
    &&& ks.len() - start <= max_count
    &&& row_width(ks.skip(start)) <= AVAILABLE_WIDTH
    &&& start > 0 ==> ks.len() - start == max_count || row_width(ks.skip(start - 1))
        > AVAILABLE_WIDTH
}

/// Index of the oldest keystroke shown in a row of at most `max_count` widgets:
/// taking keystrokes from the newest (last) one backwards, as many as fit into
/// the available width and the widget limit, stopping at the first that does
/// not. The shown keystrokes are `keystrokes[start..]`.
pub fn fitting_start(keystrokes: &[Keystroke], max_count: usize) -> (start: usize)
    ensures
        row_start_ok(keystrokes_view(keystrokes@), start as int, max_count as int),
{
    let n = keystrokes.len();
    let ghost ks = keystrokes_view(keystrokes@);
    let mut total: u64 = 0;
    let mut start: usize = n;
    proof {
        assert(ks.skip(n as int) =~= Seq::<KeystrokeView>::empty());
    }
    while start > 0
        invariant_except_break
            n == keystrokes@.len(),
            ks == keystrokes_view(keystrokes@),
            start <= n,
            n - start <= max_count,
            total as int == row_width(ks.skip(start as int)),
            total <= AVAILABLE_WIDTH,
        ensures
            start <= n,
            n - start <= max_count,
            row_width(ks.skip(start as int)) <= AVAILABLE_WIDTH,
            start > 0 ==> n - start == max_count || row_width(ks.skip(start - 1))
                > AVAILABLE_WIDTH,
        decreases start,
    {
        if n - start >= max_count {
            break;
        }
        let width = keystrokes[start - 1].estimated_width();
        let gap: u64 = if start == n { 0 } else { KEY_GAP };
        proof {
            let tail = ks.skip(start as int);
            let longer = ks.skip(start - 1);
            assert(longer.drop_first() =~= tail);
            assert(longer[0] == keystrokes@[start - 1]@);
            assert(tail.len() == n - start);
        }
        if width <= AVAILABLE_WIDTH && total + gap + width <= AVAILABLE_WIDTH {
            total = total + gap + width;
            start = start - 1;
        } else {
            break;
        }
    }
    start
}

} // verus!
