//! Key naming and the input event state machine that turns raw input events
//! into the keystrokes the overlay shows.
use vstd::prelude::*;
use vstd::string::*;

use crate::capture::{Axis, ButtonState, InputEvent, KeyState, SwipeDirection};
use crate::daemon_keys::{is_modifier_key, lemma_table_modifier_labels_distinct, table_label};
use crate::keystroke::{
    combination_spec, keystroke_of, labelled_spec, lemma_parts_empty_iff_none,
    no_modifiers, single_spec, stamped, KeyModifiers, Keystroke,
};
use crate::overlay::{
    entry_ok, lemma_push_history, push_history, pushed, shown_button,
    shown_button_label, spec_display, SharedState, StateView,
};
use crate::text::{
    has_prefix, is_digit, parses_as_u32, spec_parses_u32, starts_with, str_eq, title_case, to_title_case,
};

verus! {

/// What `evdev` prints (its `Debug` output) for the key with scan code `code`:
/// the constant's name such as `KEY_A`, or `unknown key: <code>`.
pub uninterp spec fn evdev_key_debug_name(code: u16) -> Seq<char>;

/// Calls `evdev::Key::new(code)` and formats it with `Debug`; the contract only
/// names the result (`evdev_key_debug_name`), which depends on the code alone.
#[verifier::external_body]
fn evdev_key_name(code: u16) -> (name: String)
    ensures
        name@ == evdev_key_debug_name(code),
{
    format!("{:?}", evdev::Key::new(code))
}

/// Symbol shown for a key whose (prefix-stripped) evdev name is `name`.
pub open spec fn symbol_label(name: Seq<char>) -> Option<Seq<char>> {
    if name == "MINUS"@ { Some("-"@) }
    else if name == "EQUAL"@ { Some("="@) }
    else if name == "LEFTBRACE"@ { Some("["@) }
    else if name == "RIGHTBRACE"@ { Some("]"@) }
    else if name == "SEMICOLON"@ { Some(";"@) }
    else if name == "APOSTROPHE"@ { Some("'"@) }
    else if name == "GRAVE"@ { Some("`"@) }
    else if name == "BACKSLASH"@ { Some("\\"@) }
    else if name == "COMMA"@ { Some(","@) }
    else if name == "DOT"@ { Some("."@) }
    else if name == "SLASH"@ { Some("/"@) }
    else if name == "KPASTERISK"@ { Some("*"@) }
    else if name == "KPPLUS"@ { Some("+"@) }
    else if name == "KPMINUS"@ { Some("-"@) }
    else if name == "KPSLASH"@ { Some("/"@) }
    else if name == "KPDOT"@ { Some("."@) }
    else if name == "SPACE"@ { Some("␣"@) }
    else if name == "ENTER"@ { Some("↵"@) }
    else { None }
}

fn symbol_for(name: &str) -> (r: Option<&'static str>)
    ensures
        match r {
            Some(s) => symbol_label(name@) == Some(s@),
            None => symbol_label(name@) is None,
        },
{
    if str_eq(name, "MINUS") { Some("-") }
    else if str_eq(name, "EQUAL") { Some("=") }
    else if str_eq(name, "LEFTBRACE") { Some("[") }
    else if str_eq(name, "RIGHTBRACE") { Some("]") }
    else if str_eq(name, "SEMICOLON") { Some(";") }
    else if str_eq(name, "APOSTROPHE") { Some("'") }
    else if str_eq(name, "GRAVE") { Some("`") }
    else if str_eq(name, "BACKSLASH") { Some("\\") }
    else if str_eq(name, "COMMA") { Some(",") }
    else if str_eq(name, "DOT") { Some(".") }
    else if str_eq(name, "SLASH") { Some("/") }
    else if str_eq(name, "KPASTERISK") { Some("*") }
    else if str_eq(name, "KPPLUS") { Some("+") }
    else if str_eq(name, "KPMINUS") { Some("-") }
    else if str_eq(name, "KPSLASH") { Some("/") }
    else if str_eq(name, "KPDOT") { Some(".") }
    else if str_eq(name, "SPACE") { Some("␣") }
    else if str_eq(name, "ENTER") { Some("↵") }
    else { None }
}

/// `s` is encoded in a single UTF-8 byte: it is one ASCII character.
pub open spec fn is_one_byte(s: Seq<char>) -> bool {
    s.len() == 1 && (s[0] as u32) < 0x80
}

/// The display label for an evdev key name: `None` for unknown keys; otherwise
/// the name without its `KEY_` prefix, kept as is for keypad keys, single
/// characters, function keys and numbers, replaced by its symbol for
/// punctuation, and title-cased for all other names.
pub open spec fn spec_prettify(name: Seq<char>) -> Option<Seq<char>> {
    if has_prefix(name, "unknown"@) {
        None
    } else {
        let stripped = if has_prefix(name, "KEY_"@) { name.skip(4) } else { name };
        if has_prefix(stripped, "KP"@) {
            Some("KP"@ + stripped.skip(2))
        } else if is_one_byte(stripped) {
            Some(stripped)
        } else if has_prefix(stripped, "F"@) && spec_parses_u32(stripped.skip(1)) {
            Some(stripped)
        } else if spec_parses_u32(stripped) {
            Some(stripped)
        } else {
            match symbol_label(stripped) {
                Some(symbol) => Some(symbol),
                None => Some(title_case(stripped)),
            }
        }
    }
}

/// Every other evdev name `KEY_` followed by two or more characters, which is
/// not a keypad key, a function key, a number or a punctuation symbol, is shown
/// title-cased: "KEY_SCROLLLOCK" as "Scrolllock".
pub proof fn lemma_prettify_title_case(t: Seq<char>)
    requires
        t.len() >= 2,
        !has_prefix(t, "KP"@),
        !(has_prefix(t, "F"@) && spec_parses_u32(t.skip(1))),
        !spec_parses_u32(t),
        symbol_label(t) is None,
    ensures
        spec_prettify("KEY_"@ + t) == Some(title_case(t)),
{
    reveal_strlit("KEY_");
    reveal_strlit("unknown");
    let name = "KEY_"@ + t;
    assert(name[0] == 'K');
    assert(!has_prefix(name, "unknown"@)) by {
        if has_prefix(name, "unknown"@) {
            assert(name.take(7)[0] == 'u');
        }
    }
    assert(name.take(4) =~= "KEY_"@);
    assert(name.skip(4) =~= t);
}

/// The other ways an evdev name `KEY_` + `t` is shown: names of unknown keys
/// are not shown; keypad keys, single ASCII characters, function keys and
/// numbers are shown as `t` itself; punctuation names by their symbol.
pub proof fn lemma_prettify_kept(t: Seq<char>, rest: Seq<char>)
    ensures
        spec_prettify("unknown"@ + rest) is None,
        has_prefix(t, "KP"@) ==> spec_prettify("KEY_"@ + t) == Some(t),
        is_one_byte(t) ==> spec_prettify("KEY_"@ + t) == Some(t),
        has_prefix(t, "F"@) && spec_parses_u32(t.skip(1)) ==> spec_prettify("KEY_"@ + t) == Some(t),
        spec_parses_u32(t) ==> spec_prettify("KEY_"@ + t) == Some(t),
{
    reveal_strlit("KEY_");
    reveal_strlit("unknown");
    reveal_strlit("KP");
    let name = "KEY_"@ + t;
    assert(name[0] == 'K');
    assert(!has_prefix(name, "unknown"@)) by {
        if has_prefix(name, "unknown"@) {
            assert(name.take(7)[0] == 'u');
        }
    }
    assert(name.take(4) =~= "KEY_"@);
    assert(name.skip(4) =~= t);
    assert(("unknown"@ + rest).take(7) =~= "unknown"@);
    if has_prefix(t, "KP"@) {
        assert("KP"@ + t.skip(2) =~= t);
    }
}

/// A name `KEY_` + `t` whose `t` starts with a letter other than K and F and
/// has two or more characters is shown by its symbol, or title-cased.
proof fn lemma_prettify_named(t: Seq<char>)
    requires
        t.len() >= 2,
        'A' <= t[0] <= 'Z',
        t[0] != 'K',
        t[0] != 'F',
    ensures
        spec_prettify("KEY_"@ + t) == match symbol_label(t) {
            Some(symbol) => Some(symbol),
            None => Some(title_case(t)),
        },
{
    reveal_strlit("KEY_");
    reveal_strlit("unknown");
    reveal_strlit("KP");
    reveal_strlit("F");
    let name = "KEY_"@ + t;
    assert(name[0] == 'K');
    assert(!has_prefix(name, "unknown"@)) by {
        if has_prefix(name, "unknown"@) {
            assert(name.take(7)[0] == 'u');
        }
    }
    assert(name.take(4) =~= "KEY_"@);
    assert(name.skip(4) =~= t);
    assert(!has_prefix(t, "KP"@)) by {
        if has_prefix(t, "KP"@) {
            assert(t.take(2)[0] == 'K');
        }
    }
    assert(!has_prefix(t, "F"@)) by {
        if has_prefix(t, "F"@) {
            assert(t.take(1)[0] == 'F');
        }
    }
    assert(!is_digit(t[0]));
}

/// Punctuation and whitespace keys are shown by their symbol.
pub proof fn lemma_prettify_symbols()
    ensures
        spec_prettify("KEY_"@ + "MINUS"@) == Some("-"@),
        spec_prettify("KEY_"@ + "EQUAL"@) == Some("="@),
        spec_prettify("KEY_"@ + "LEFTBRACE"@) == Some("["@),
        spec_prettify("KEY_"@ + "RIGHTBRACE"@) == Some("]"@),
        spec_prettify("KEY_"@ + "SEMICOLON"@) == Some(";"@),
        spec_prettify("KEY_"@ + "APOSTROPHE"@) == Some("'"@),
        spec_prettify("KEY_"@ + "GRAVE"@) == Some("`"@),
        spec_prettify("KEY_"@ + "BACKSLASH"@) == Some("\\"@),
        spec_prettify("KEY_"@ + "COMMA"@) == Some(","@),
        spec_prettify("KEY_"@ + "DOT"@) == Some("."@),
        spec_prettify("KEY_"@ + "SLASH"@) == Some("/"@),
        spec_prettify("KEY_"@ + "SPACE"@) == Some("␣"@),
        spec_prettify("KEY_"@ + "ENTER"@) == Some("↵"@),
{
    reveal_strlit("MINUS");
    reveal_strlit("EQUAL");
    reveal_strlit("LEFTBRACE");
    reveal_strlit("RIGHTBRACE");
    reveal_strlit("SEMICOLON");
    reveal_strlit("APOSTROPHE");
    reveal_strlit("GRAVE");
    reveal_strlit("BACKSLASH");
    reveal_strlit("COMMA");
    reveal_strlit("DOT");
    reveal_strlit("SLASH");
    reveal_strlit("KPASTERISK");
    reveal_strlit("KPPLUS");
    reveal_strlit("KPMINUS");
    reveal_strlit("KPSLASH");
    reveal_strlit("KPDOT");
    reveal_strlit("SPACE");
    reveal_strlit("ENTER");
    lemma_prettify_named("MINUS"@);
    assert("EQUAL"@[0] != "MINUS"@[0]);
    lemma_prettify_named("EQUAL"@);
    assert("LEFTBRACE"@.len() != "MINUS"@.len());
    assert("LEFTBRACE"@.len() != "EQUAL"@.len());
    lemma_prettify_named("LEFTBRACE"@);
    assert("RIGHTBRACE"@.len() != "MINUS"@.len());
    assert("RIGHTBRACE"@.len() != "EQUAL"@.len());
    assert("RIGHTBRACE"@.len() != "LEFTBRACE"@.len());
    lemma_prettify_named("RIGHTBRACE"@);
    assert("SEMICOLON"@.len() != "MINUS"@.len());
    assert("SEMICOLON"@.len() != "EQUAL"@.len());
    assert("SEMICOLON"@[0] != "LEFTBRACE"@[0]);
    assert("SEMICOLON"@.len() != "RIGHTBRACE"@.len());
    lemma_prettify_named("SEMICOLON"@);
    assert("APOSTROPHE"@.len() != "MINUS"@.len());
    assert("APOSTROPHE"@.len() != "EQUAL"@.len());
    assert("APOSTROPHE"@.len() != "LEFTBRACE"@.len());
    assert("APOSTROPHE"@[0] != "RIGHTBRACE"@[0]);
    assert("APOSTROPHE"@.len() != "SEMICOLON"@.len());
    lemma_prettify_named("APOSTROPHE"@);
    assert("GRAVE"@[0] != "MINUS"@[0]);
    assert("GRAVE"@[0] != "EQUAL"@[0]);
    assert("GRAVE"@.len() != "LEFTBRACE"@.len());
    assert("GRAVE"@.len() != "RIGHTBRACE"@.len());
    assert("GRAVE"@.len() != "SEMICOLON"@.len());
    assert("GRAVE"@.len() != "APOSTROPHE"@.len());
    lemma_prettify_named("GRAVE"@);
    assert("BACKSLASH"@.len() != "MINUS"@.len());
    assert("BACKSLASH"@.len() != "EQUAL"@.len());
    assert("BACKSLASH"@[0] != "LEFTBRACE"@[0]);
    assert("BACKSLASH"@.len() != "RIGHTBRACE"@.len());
    assert("BACKSLASH"@[0] != "SEMICOLON"@[0]);
    assert("BACKSLASH"@.len() != "APOSTROPHE"@.len());
    assert("BACKSLASH"@.len() != "GRAVE"@.len());
    lemma_prettify_named("BACKSLASH"@);
    assert("COMMA"@[0] != "MINUS"@[0]);
    assert("COMMA"@[0] != "EQUAL"@[0]);
    assert("COMMA"@.len() != "LEFTBRACE"@.len());
    assert("COMMA"@.len() != "RIGHTBRACE"@.len());
    assert("COMMA"@.len() != "SEMICOLON"@.len());
    assert("COMMA"@.len() != "APOSTROPHE"@.len());
    assert("COMMA"@[0] != "GRAVE"@[0]);
    assert("COMMA"@.len() != "BACKSLASH"@.len());
    lemma_prettify_named("COMMA"@);
    assert("DOT"@.len() != "MINUS"@.len());
    assert("DOT"@.len() != "EQUAL"@.len());
    assert("DOT"@.len() != "LEFTBRACE"@.len());
    assert("DOT"@.len() != "RIGHTBRACE"@.len());
    assert("DOT"@.len() != "SEMICOLON"@.len());
    assert("DOT"@.len() != "APOSTROPHE"@.len());
    assert("DOT"@.len() != "GRAVE"@.len());
    assert("DOT"@.len() != "BACKSLASH"@.len());
    assert("DOT"@.len() != "COMMA"@.len());
    lemma_prettify_named("DOT"@);
    assert("SLASH"@[0] != "MINUS"@[0]);
    assert("SLASH"@[0] != "EQUAL"@[0]);
    assert("SLASH"@.len() != "LEFTBRACE"@.len());
    assert("SLASH"@.len() != "RIGHTBRACE"@.len());
    assert("SLASH"@.len() != "SEMICOLON"@.len());
    assert("SLASH"@.len() != "APOSTROPHE"@.len());
    assert("SLASH"@[0] != "GRAVE"@[0]);
    assert("SLASH"@.len() != "BACKSLASH"@.len());
    assert("SLASH"@[0] != "COMMA"@[0]);
    assert("SLASH"@.len() != "DOT"@.len());
    lemma_prettify_named("SLASH"@);
    assert("SPACE"@[0] != "MINUS"@[0]);
    assert("SPACE"@[0] != "EQUAL"@[0]);
    assert("SPACE"@.len() != "LEFTBRACE"@.len());
    assert("SPACE"@.len() != "RIGHTBRACE"@.len());
    assert("SPACE"@.len() != "SEMICOLON"@.len());
    assert("SPACE"@.len() != "APOSTROPHE"@.len());
    assert("SPACE"@[0] != "GRAVE"@[0]);
    assert("SPACE"@.len() != "BACKSLASH"@.len());
    assert("SPACE"@[0] != "COMMA"@[0]);
    assert("SPACE"@.len() != "DOT"@.len());
    assert("SPACE"@[1] != "SLASH"@[1]);
    assert("SPACE"@.len() != "KPASTERISK"@.len());
    assert("SPACE"@.len() != "KPPLUS"@.len());
    assert("SPACE"@.len() != "KPMINUS"@.len());
    assert("SPACE"@.len() != "KPSLASH"@.len());
    assert("SPACE"@[0] != "KPDOT"@[0]);
    lemma_prettify_named("SPACE"@);
    assert("ENTER"@[0] != "MINUS"@[0]);
    assert("ENTER"@[1] != "EQUAL"@[1]);
    assert("ENTER"@.len() != "LEFTBRACE"@.len());
    assert("ENTER"@.len() != "RIGHTBRACE"@.len());
    assert("ENTER"@.len() != "SEMICOLON"@.len());
    assert("ENTER"@.len() != "APOSTROPHE"@.len());
    assert("ENTER"@[0] != "GRAVE"@[0]);
    assert("ENTER"@.len() != "BACKSLASH"@.len());
    assert("ENTER"@[0] != "COMMA"@[0]);
    assert("ENTER"@.len() != "DOT"@.len());
    assert("ENTER"@[0] != "SLASH"@[0]);
    assert("ENTER"@.len() != "KPASTERISK"@.len());
    assert("ENTER"@.len() != "KPPLUS"@.len());
    assert("ENTER"@.len() != "KPMINUS"@.len());
    assert("ENTER"@.len() != "KPSLASH"@.len());
    assert("ENTER"@[0] != "KPDOT"@[0]);
    assert("ENTER"@[0] != "SPACE"@[0]);
    lemma_prettify_named("ENTER"@);
}

/// The view of an optional string.
pub open spec fn opt_view(o: Option<String>) -> Option<Seq<char>> {
    match o {
        Some(s) => Some(s@),
        None => None,
    }
}

/// Prettify an evdev key name like "KEY_A" to "A", "KEY_F1" to "F1", etc.
pub fn prettify_key_name(name: &str) -> (r: Option<String>)
    ensures
        opt_view(r) == spec_prettify(name@),
{
    if starts_with(name, "unknown") {
        return None;
    }
    let n = name.unicode_len();
    let stripped: &str = if starts_with(name, "KEY_") {
        proof {
            reveal_strlit("KEY_");
        }
        name.substring_char(4, n)
    } else {
        name
    };
    proof {
        reveal_strlit("KEY_");
        if has_prefix(name@, "KEY_"@) {
            assert(stripped@ =~= name@.skip(4));
        }
    }
    let m = stripped.unicode_len();
    if starts_with(stripped, "KP") {
        proof {
            reveal_strlit("KP");
        }
        let mut r = String::from_str("KP");
        r.append(stripped.substring_char(2, m));
        proof {
            assert(stripped@.subrange(2, m as int) =~= stripped@.skip(2));
        }
        return Some(r);
    }
    if m == 1 && (stripped.get_char(0) as u32) < 0x80 {
        return Some(String::from_str(stripped));
    }
    if starts_with(stripped, "F") {
        proof {
            reveal_strlit("F");
        }
        let rest = stripped.substring_char(1, m);
        proof {
            assert(rest@ =~= stripped@.skip(1));
        }
        if parses_as_u32(rest) {
            return Some(String::from_str(stripped));
        }
    }
    if parses_as_u32(stripped) {
        return Some(String::from_str(stripped));
    }
    match symbol_for(stripped) {
        Some(symbol) => Some(String::from_str(symbol)),
        None => Some(to_title_case(stripped)),
    }
}

/// Label of the keys shown with a custom symbol or short name, by scan code.
pub open spec fn special_label(code: u16) -> Option<Seq<char>> {
    if code == 29 || code == 97 { Some("Ctrl"@) }
    else if code == 56 || code == 100 { Some("Alt"@) }
    else if code == 42 || code == 54 { Some("⇧"@) }
    else if code == 125 || code == 126 { Some("Super"@) }
    else if code == 28 || code == 96 { Some("↵"@) }
    else if code == 14 { Some("⌫"@) }
    else if code == 57 { Some("␣"@) }
    else if code == 15 { Some("Tab"@) }
    else if code == 1 { Some("Esc"@) }
    else if code == 58 { Some("Caps"@) }
    else if code == 103 { Some("↑"@) }
    else if code == 108 { Some("↓"@) }
    else if code == 105 { Some("←"@) }
    else if code == 106 { Some("→"@) }
    else if code == 102 { Some("Home"@) }
    else if code == 107 { Some("End"@) }
    else if code == 104 { Some("PgUp"@) }
    else if code == 109 { Some("PgDn"@) }
    else if code == 110 { Some("Ins"@) }
    else if code == 111 { Some("Del"@) }
    else { None }
}

/// The label shown for key code `key` (truncated to a 16-bit scan code as evdev
/// takes it): the special label if it has one, else its prettified evdev name.
pub open spec fn spec_key_to_string(key: u32) -> Option<Seq<char>> {
    let code = key as u16;
    match special_label(code) {
        Some(label) => Some(label),
        None => spec_prettify(evdev_key_debug_name(code)),
    }
}

fn special_label_of(code: u16) -> (r: Option<&'static str>)
    ensures
        match r {
            Some(s) => special_label(code) == Some(s@),
            None => special_label(code) is None,
        },
{
    match code {
        29 | 97 => Some("Ctrl"),
        56 | 100 => Some("Alt"),
        42 | 54 => Some("⇧"),
        125 | 126 => Some("Super"),
        28 | 96 => Some("↵"),
        14 => Some("⌫"),
        57 => Some("␣"),
        15 => Some("Tab"),
        1 => Some("Esc"),
        58 => Some("Caps"),
        103 => Some("↑"),
        108 => Some("↓"),
        105 => Some("←"),
        106 => Some("→"),
        102 => Some("Home"),
        107 => Some("End"),
        104 => Some("PgUp"),
        109 => Some("PgDn"),
        110 => Some("Ins"),
        111 => Some("Del"),
        _ => None,
    }
}

/// Convert key code to display string using evdev
pub fn key_to_string(key: u32) -> (r: Option<String>)
    ensures
        opt_view(r) == spec_key_to_string(key),
{
    let code = key as u16;
    match special_label_of(code) {
        Some(label) => Some(String::from_str(label)),
        None => {
            let name = evdev_key_name(code);
            prettify_key_name(name.as_str())
        },
    }
}

/// Scan codes of the left and right Ctrl, Alt, Shift and Meta keys.
pub open spec fn is_modifier_code(code: u16) -> bool {
    code == 29 || code == 97 || code == 56 || code == 100 || code == 42 || code == 54 || code == 125
        || code == 126
}

/// Check if a key code is a modifier
pub fn is_modifier(key: u32) -> (r: bool)
    ensures
        r == is_modifier_code(key as u16),
{
    let code = key as u16;
    code == 29 || code == 97 || code == 56 || code == 100 || code == 42 || code == 54 || code == 125
        || code == 126
}

/// `m` with the flag of modifier key `key` set to `value`; keys that are not
/// (untruncated) modifier codes leave `m` unchanged.
pub open spec fn with_modifier(m: KeyModifiers, key: u32, value: bool) -> KeyModifiers {
    if key == 29 || key == 97 {
        KeyModifiers { ctrl: value, ..m }
    } else if key == 56 || key == 100 {
        KeyModifiers { alt: value, ..m }
    } else if key == 42 || key == 54 {
        KeyModifiers { shift: value, ..m }
    } else if key == 125 || key == 126 {
        KeyModifiers { super_key: value, ..m }
    } else {
        m
    }
}

/// The modifiers held in `a` or in `b`.
pub open spec fn modifiers_union(a: KeyModifiers, b: KeyModifiers) -> KeyModifiers {
    KeyModifiers {
        ctrl: a.ctrl || b.ctrl,
        alt: a.alt || b.alt,
        shift: a.shift || b.shift,
        super_key: a.super_key || b.super_key,
    }
}

/// `s` with `label`, under the modifiers held now, recorded in the history at time `now`.
pub open spec fn record(s: StateView, label: Seq<char>, now: u64) -> StateView {
    StateView {
        history: pushed(s.history, stamped(labelled_spec(s.modifiers, label, false), now)),
        ..s
    }
}

/// `s` with the held key (if any) moved to the history as a released keystroke
/// recorded at time `now`.
pub open spec fn release_current_key(s: StateView, now: u64) -> StateView {
    match s.current_key {
        Some((key, key_mods)) => StateView {
            current_key: None,
            history: pushed(s.history, stamped(labelled_spec(key_mods, key, false), now)),
            ..s
        },
        None => s,
    }
}

/// How key codes are named: through evdev's key names, or with the daemon's
/// fixed table of key labels.
#[derive(Debug, Clone, Copy, PartialEq, Eq, Structural)]
pub enum KeyNaming {
    Evdev,
    Table,
}

/// The label a naming gives to key code `key`.
pub open spec fn naming_label(naming: KeyNaming, key: u32) -> Option<Seq<char>> {
    match naming {
        KeyNaming::Evdev => spec_key_to_string(key),
        KeyNaming::Table => table_label(key),
    }
}

/// Whether a naming treats key code `key` as a modifier key.
pub open spec fn naming_is_modifier(naming: KeyNaming, key: u32) -> bool {
    match naming {
        KeyNaming::Evdev => is_modifier_code(key as u16),
        KeyNaming::Table => is_modifier_key(key),
    }
}

/// Effect of a key event at time `now` on an enabled state.
///
/// A modifier press sets its flag and adds it to the peak modifiers. A modifier
/// release clears its flag; once no modifier is held, a modifier-only tap (no
/// other key pressed with modifiers and no key held) is recorded as the peak
/// modifiers, and the modifier session is reset. Pressing a labelled key moves
/// any held key to the history and holds the new key with the current
/// modifiers; releasing a labelled key moves the held key to the history.
pub open spec fn key_step(s: StateView, key: u32, key_state: KeyState, naming: KeyNaming, now: u64) -> StateView {
    let is_mod = naming_is_modifier(naming, key);
    let label = naming_label(naming, key);
    match key_state {
        KeyState::Pressed => if is_mod {
            let mods = with_modifier(s.modifiers, key, true);
            StateView { modifiers: mods, peak_modifiers: modifiers_union(s.peak_modifiers, mods), ..s }
        } else {
            match label {
                Some(l) => {
                    let released = release_current_key(s, now);
                    StateView {
                        key_pressed_with_modifiers: s.key_pressed_with_modifiers
                            || s.modifiers.spec_any(),
                        current_key: Some((l, s.modifiers)),
                        ..released
                    }
                },
                None => s,
            }
        },
        KeyState::Released => if is_mod {
            let mods = with_modifier(s.modifiers, key, false);
            if !mods.spec_any() {
                let tap = !s.key_pressed_with_modifiers && s.current_key is None
                    && s.peak_modifiers.spec_any();
                StateView {
                    modifiers: mods,
                    history: if tap {
                        pushed(s.history, stamped(keystroke_of(s.peak_modifiers.spec_parts(), false), now))
                    } else {
                        s.history
                    },
                    key_pressed_with_modifiers: false,
                    peak_modifiers: no_modifiers(),
                    ..s
                }
            } else {
                StateView { modifiers: mods, ..s }
            }
        } else if label is Some {
            release_current_key(s, now)
        } else {
            s
        },
    }
}

/// Label of a pointer button: left, right and middle buttons of a mouse, or
/// one-, two- and three-finger taps of a touchpad.
pub open spec fn button_label(button: u32, is_touchpad: bool) -> Option<Seq<char>> {
    if button == 272 && is_touchpad { Some("Tap"@) }
    else if button == 273 && is_touchpad { Some("2Tap"@) }
    else if button == 274 && is_touchpad { Some("3Tap"@) }
    else if button == 272 { Some("LClick"@) }
    else if button == 273 { Some("RClick"@) }
    else if button == 274 { Some("MClick"@) }
    else { None }
}

/// Effect of a button event at time `now` on an enabled state: a press holds
/// the button (not moved yet); a release records it, as a drag if it moved
/// while held.
pub open spec fn button_step(
    s: StateView,
    button: u32,
    button_state: ButtonState,
    is_touchpad: bool,
    now: u64,
) -> StateView {
    match button_label(button, is_touchpad) {
        None => s,
        Some(label) => match button_state {
            ButtonState::Pressed => StateView {
                current_mouse: Some((label, is_touchpad, false)),
                key_pressed_with_modifiers: s.key_pressed_with_modifiers || s.modifiers.spec_any(),
                ..s
            },
            ButtonState::Released => {
                let was_drag = match s.current_mouse {
                    Some((_, _, has_moved)) => has_moved,
                    None => false,
                };
                record(
                    StateView { current_mouse: None, ..s },
                    shown_button(label, is_touchpad, was_drag),
                    now,
                )
            },
        },
    }
}

/// Label of a mouse wheel scroll: only vertical scrolls of more than 10 count.
pub open spec fn wheel_label(axis: Axis, value: i64) -> Option<Seq<char>> {
    if axis == Axis::Vertical && (value > 10 || value < -10) {
        Some(if value > 0 { "ScrollDown"@ } else { "ScrollUp"@ })
    } else {
        None
    }
}

/// Label of a two-finger touchpad scroll.
pub open spec fn touchpad_scroll_label(axis: Axis, value: i64) -> Seq<char> {
    match axis {
        Axis::Vertical => if value > 0 { "2Down"@ } else { "2Up"@ },
        Axis::Horizontal => if value > 0 { "2Right"@ } else { "2Left"@ },
    }
}

/// Label of a swipe: vertical three- and four-finger swipes only.
pub open spec fn swipe_label(finger_count: i32, direction: SwipeDirection) -> Option<Seq<char>> {
    if finger_count == 3 && direction == SwipeDirection::Up { Some("3Up"@) }
    else if finger_count == 3 && direction == SwipeDirection::Down { Some("3Down"@) }
    else if finger_count == 4 && direction == SwipeDirection::Up { Some("4Up"@) }
    else if finger_count == 4 && direction == SwipeDirection::Down { Some("4Down"@) }
    else { None }
}

/// Label of a multi-finger hold: three or four fingers only.
pub open spec fn hold_label(finger_count: i32) -> Option<Seq<char>> {
    if finger_count == 3 { Some("3Tap"@) }
    else if finger_count == 4 { Some("4Tap"@) }
    else { None }
}

/// `s` with `label` recorded at time `now`, if there is a label.
pub open spec fn record_opt(s: StateView, label: Option<Seq<char>>, now: u64) -> StateView {
    match label {
        Some(l) => record(s, l, now),
        None => s,
    }
}

/// The state after one input event at time `now`, with keys named by evdev.
pub open spec fn next_state(s: StateView, event: InputEvent, now: u64) -> StateView {
    next_state_named(s, event, KeyNaming::Evdev, now)
}

/// The state after one input event at time `now`, with keys named by `naming`. Pointer
/// motion marks a held button as moved (whether or not the overlay is
/// enabled); every other event leaves a disabled state unchanged.
pub open spec fn next_state_named(s: StateView, event: InputEvent, naming: KeyNaming, now: u64) -> StateView {
    match event {
        InputEvent::MouseMotion => match s.current_mouse {
            Some((label, is_touchpad, _)) => StateView {
                current_mouse: Some((label, is_touchpad, true)),
                ..s
            },
            None => s,
        },
        _ => if !s.enabled {
            s
        } else {
            match event {
                InputEvent::Key { key, state } => key_step(s, key, state, naming, now),
                InputEvent::MouseButton { button, state, is_touchpad } => button_step(
                    s,
                    button,
                    state,
                    is_touchpad,
                    now,
                ),
                InputEvent::MouseScroll { axis, value } => record_opt(
                    s,
                    wheel_label(axis, value),
                    now,
                ),
                InputEvent::TouchpadScroll { axis, value } => record(
                    s,
                    touchpad_scroll_label(axis, value),
                    now,
                ),
                InputEvent::Swipe { finger_count, direction } => record_opt(
                    s,
                    swipe_label(finger_count, direction),
                    now,
                ),
                InputEvent::Hold { finger_count } => record_opt(s, hold_label(finger_count), now),
                InputEvent::MouseMotion => s,
            }
        },
    }
}

fn set_modifier(m: &mut KeyModifiers, key: u32, value: bool)
    ensures
        *final(m) == with_modifier(*old(m), key, value),
{
    match key {
        29 | 97 => m.ctrl = value,
        56 | 100 => m.alt = value,
        42 | 54 => m.shift = value,
        125 | 126 => m.super_key = value,
        _ => {},
    }
}

fn record_label(state: &mut SharedState, label: String, now: u64)
    ensures
        final(state)@ == record(old(state)@, label@, now),
{
    let mut keystroke = Keystroke::labelled(&state.modifiers, label, false);
    keystroke.time = now;
    push_history(&mut state.history, keystroke);
}

fn release_key(state: &mut SharedState, now: u64)
    ensures
        final(state)@ == release_current_key(old(state)@, now),
{
    match state.current_key.take() {
        Some((key, key_mods)) => {
            let mut completed = Keystroke::labelled(&key_mods, key, false);
            completed.time = now;
            push_history(&mut state.history, completed);
        },
        None => {},
    }
}

#[verifier::spinoff_prover]
#[verifier::rlimit(40)]
fn process_key(state: &mut SharedState, key: u32, key_state: KeyState, naming: KeyNaming, now: u64)
    ensures
        final(state)@ == key_step(old(state)@, key, key_state, naming, now),
{
    let is_mod = match naming {
        KeyNaming::Evdev => is_modifier(key),
        KeyNaming::Table => crate::daemon_keys::is_modifier(key),
    };
    let key_str = match naming {
        KeyNaming::Evdev => key_to_string(key),
        KeyNaming::Table => crate::daemon_keys::key_to_string(key),
    };
    proof {
        assert(opt_view(key_str) == naming_label(naming, key));
    }
    match key_state {
        KeyState::Pressed => {
            if is_mod {
                set_modifier(&mut state.modifiers, key, true);
                state.peak_modifiers.ctrl = state.peak_modifiers.ctrl || state.modifiers.ctrl;
                state.peak_modifiers.alt = state.peak_modifiers.alt || state.modifiers.alt;
                state.peak_modifiers.shift = state.peak_modifiers.shift || state.modifiers.shift;
                state.peak_modifiers.super_key = state.peak_modifiers.super_key
                    || state.modifiers.super_key;
            } else {
                match key_str {
                    Some(key_str) => {
                        let held_modifiers = state.modifiers.any();
                        if held_modifiers {
                            state.key_pressed_with_modifiers = true;
                        }
                        release_key(state, now);
                        state.current_key = Some((key_str, state.modifiers));
                    },
                    None => {},
                }
            }
        },
        KeyState::Released => {
            if is_mod {
                set_modifier(&mut state.modifiers, key, false);
                if !state.modifiers.any() {
                    if !state.key_pressed_with_modifiers && state.current_key.is_none() {
                        match Keystroke::from_modifiers(&state.peak_modifiers, false) {
                            Some(mut keystroke) => {
                                keystroke.time = now;
                                push_history(&mut state.history, keystroke);
                            },
                            None => {},
                        }
                    }
                    state.key_pressed_with_modifiers = false;
                    state.peak_modifiers = KeyModifiers::default();
                }
            } else if key_str.is_some() {
                release_key(state, now);
            }
        },
    }
}

fn button_label_of(button: u32, is_touchpad: bool) -> (r: Option<&'static str>)
    ensures
        match r {
            Some(l) => button_label(button, is_touchpad) == Some(l@),
            None => button_label(button, is_touchpad) is None,
        },
{
    if button == 272 && is_touchpad { Some("Tap") }
    else if button == 273 && is_touchpad { Some("2Tap") }
    else if button == 274 && is_touchpad { Some("3Tap") }
    else if button == 272 { Some("LClick") }
    else if button == 273 { Some("RClick") }
    else if button == 274 { Some("MClick") }
    else { None }
}

fn process_button(
    state: &mut SharedState,
    button: u32,
    button_state: ButtonState,
    is_touchpad: bool,
    now: u64,
)
    ensures
        final(state)@ == button_step(old(state)@, button, button_state, is_touchpad, now),
{
    let label = match button_label_of(button, is_touchpad) {
        Some(l) => String::from_str(l),
        None => return ,
    };
    match button_state {
        ButtonState::Pressed => {
            state.current_mouse = Some((label, is_touchpad, false));
            if state.modifiers.any() {
                state.key_pressed_with_modifiers = true;
            }
        },
        ButtonState::Released => {
            let was_drag = match &state.current_mouse {
                Some((_, _, has_moved)) => *has_moved,
                None => false,
            };
            let shown = shown_button_label(&label, is_touchpad, was_drag);
            state.current_mouse = None;
            record_label(state, shown, now);
        },
    }
}

fn wheel_label_of(axis: Axis, value: i64) -> (r: Option<&'static str>)
    ensures
        match r {
            Some(l) => wheel_label(axis, value) == Some(l@),
            None => wheel_label(axis, value) is None,
        },
{
    if axis == Axis::Vertical && (value > 10 || value < -10) {
        Some(if value > 0 { "ScrollDown" } else { "ScrollUp" })
    } else {
        None
    }
}

fn touchpad_scroll_label_of(axis: Axis, value: i64) -> (r: &'static str)
    ensures
        r@ == touchpad_scroll_label(axis, value),
{
    match axis {
        Axis::Vertical => if value > 0 { "2Down" } else { "2Up" },
        Axis::Horizontal => if value > 0 { "2Right" } else { "2Left" },
    }
}

fn swipe_label_of(finger_count: i32, direction: SwipeDirection) -> (r: Option<&'static str>)
    ensures
        match r {
            Some(l) => swipe_label(finger_count, direction) == Some(l@),
            None => swipe_label(finger_count, direction) is None,
        },
{
    if finger_count == 3 && direction == SwipeDirection::Up { Some("3Up") }
    else if finger_count == 3 && direction == SwipeDirection::Down { Some("3Down") }
    else if finger_count == 4 && direction == SwipeDirection::Up { Some("4Up") }
    else if finger_count == 4 && direction == SwipeDirection::Down { Some("4Down") }
    else { None }
}

fn hold_label_of(finger_count: i32) -> (r: Option<&'static str>)
    ensures
        match r {
            Some(l) => hold_label(finger_count) == Some(l@),
            None => hold_label(finger_count) is None,
        },
{
    if finger_count == 3 { Some("3Tap") }
    else if finger_count == 4 { Some("4Tap") }
    else { None }
}

fn record_label_opt(state: &mut SharedState, label: Option<&'static str>, now: u64)
    ensures
        final(state)@ == record_opt(
            old(state)@,
            match label {
                Some(l) => Some(l@),
                None => None,
            },
            now,
        ),
{
    match label {
        Some(l) => record_label(state, String::from_str(l), now),
        None => {},
    }
}

/// Process a single input event that arrived at time `now` (milliseconds of a
/// monotonic clock), naming keys through evdev.
pub fn process_input_event(state: &mut SharedState, event: InputEvent, now: u64)
    ensures
        final(state)@ == next_state(old(state)@, event, now),
{
    process_input_event_named(state, event, KeyNaming::Evdev, now)
}

/// Process a single input event that arrived at time `now`, naming keys with `naming`.
pub fn process_input_event_named(state: &mut SharedState, event: InputEvent, naming: KeyNaming, now: u64)
    ensures
        final(state)@ == next_state_named(old(state)@, event, naming, now),
{
    match event {
        InputEvent::MouseMotion => {
            match &mut state.current_mouse {
                Some((_, _, has_moved)) => {
                    *has_moved = true;
                },
                None => {},
            }
        },
        _ => {
            if !state.enabled {
                return ;
            }
            match event {
                InputEvent::Key { key, state: key_state } => {
                    process_key(state, key, key_state, naming, now)
                },
                InputEvent::MouseButton { button, state: button_state, is_touchpad } => {
                    process_button(state, button, button_state, is_touchpad, now)
                },
                InputEvent::MouseScroll { axis, value } => {
                    record_label_opt(state, wheel_label_of(axis, value), now)
                },
                InputEvent::TouchpadScroll { axis, value } => {
                    record_label(state, String::from_str(touchpad_scroll_label_of(axis, value)), now)
                },
                InputEvent::Swipe { finger_count, direction } => {
                    record_label_opt(state, swipe_label_of(finger_count, direction), now)
                },
                InputEvent::Hold { finger_count } => {
                    record_label_opt(state, hold_label_of(finger_count), now)
                },
                InputEvent::MouseMotion => {},
            }
        },
    }
}

/// A keystroke recorded for a label is a well-formed history entry.
proof fn lemma_labelled_entry_ok(m: KeyModifiers, label: Seq<char>, now: u64)
    ensures
        entry_ok(stamped(labelled_spec(m, label, false), now)),
{
}

/// Recording keeps the state well formed.
proof fn lemma_record_wf(s: StateView, label: Seq<char>, now: u64)
    requires
        s.wf(),
    ensures
        record(s, label, now).wf(),
{
    lemma_labelled_entry_ok(s.modifiers, label, now);
    lemma_push_history(s.history, stamped(labelled_spec(s.modifiers, label, false), now));
}

/// Releasing the held key keeps the state well formed.
proof fn lemma_release_wf(s: StateView, now: u64)
    requires
        s.wf(),
    ensures
        release_current_key(s, now).wf(),
{
    match s.current_key {
        Some((key, key_mods)) => {
            lemma_labelled_entry_ok(key_mods, key, now);
            lemma_push_history(s.history, stamped(labelled_spec(key_mods, key, false), now));
        },
        None => {},
    }
}

/// Every input event keeps the overlay state well formed: the history stays
/// within `MAX_HISTORY` released entries and the peak modifiers keep covering
/// the modifiers held.
pub proof fn lemma_next_state_wf(s: StateView, event: InputEvent, naming: KeyNaming, now: u64)
    requires
        s.wf(),
    ensures
        next_state_named(s, event, naming, now).wf(),
{
    match event {
        InputEvent::MouseMotion => {},
        _ => if s.enabled {
            match event {
                InputEvent::Key { key, state } => {
                    match state {
                        KeyState::Pressed => {
                            lemma_release_wf(s, now);
                        },
                        KeyState::Released => {
                            if naming_is_modifier(naming, key) {
                                let mods = with_modifier(s.modifiers, key, false);
                                if !mods.spec_any() {
                                    lemma_parts_empty_iff_none(s.peak_modifiers);
                                    lemma_push_history(
                                        s.history,
                                        stamped(keystroke_of(s.peak_modifiers.spec_parts(), false), now),
                                    );
                                }
                            } else {
                                lemma_release_wf(s, now);
                            }
                        },
                    }
                },
                InputEvent::MouseButton { button, state, is_touchpad } => {
                    match button_label(button, is_touchpad) {
                        Some(label) => {
                            let was_drag = match s.current_mouse {
                                Some((_, _, has_moved)) => has_moved,
                                None => false,
                            };
                            lemma_record_wf(
                                StateView { current_mouse: None, ..s },
                                shown_button(label, is_touchpad, was_drag),
                                now,
                            );
                        },
                        None => {},
                    }
                },
                InputEvent::MouseScroll { axis, value } => {
                    if let Some(l) = wheel_label(axis, value) {
                        lemma_record_wf(s, l, now);
                    }
                },
                InputEvent::TouchpadScroll { axis, value } => {
                    lemma_record_wf(s, touchpad_scroll_label(axis, value), now);
                },
                InputEvent::Swipe { finger_count, direction } => {
                    if let Some(l) = swipe_label(finger_count, direction) {
                        lemma_record_wf(s, l, now);
                    }
                },
                InputEvent::Hold { finger_count } => {
                    if let Some(l) = hold_label(finger_count) {
                        lemma_record_wf(s, l, now);
                    }
                },
                InputEvent::MouseMotion => {},
            }
        },
    }
}

/// While the overlay is disabled, every event other than pointer motion leaves
/// the state unchanged.
pub proof fn lemma_disabled_ignores_input(s: StateView, event: InputEvent, naming: KeyNaming, now: u64)
    requires
        !s.enabled,
        !(event is MouseMotion),
    ensures
        next_state_named(s, event, naming, now) == s,
{
}

/// Pressing (at `t1`) and releasing (at `t2`) a labelled, non-modifier key with
/// no modifier and no other key held records that key alone, released at `t2`,
/// and leaves no key held.
pub proof fn lemma_key_tap(s: StateView, key: u32, label: Seq<char>, naming: KeyNaming, t1: u64, t2: u64)
    requires
        s.enabled,
        s.modifiers == no_modifiers(),
        s.current_key is None,
        !naming_is_modifier(naming, key),
        naming_label(naming, key) == Some(label),
    ensures
        ({
            let after = next_state_named(
                next_state_named(s, InputEvent::Key { key, state: KeyState::Pressed }, naming, t1),
                InputEvent::Key { key, state: KeyState::Released },
                naming,
                t2,
            );
            &&& after.history == pushed(s.history, stamped(single_spec(label, false), t2))
            &&& after.current_key is None
            &&& after.modifiers == s.modifiers
        }),
{
}

/// Tapping a modifier on its own (pressing it at `t1` and releasing it at `t2`
/// with nothing else held, at the start of a modifier session) records that
/// modifier by itself.
pub proof fn lemma_modifier_tap(s: StateView, key: u32, naming: KeyNaming, t1: u64, t2: u64)
    requires
        s.enabled,
        s.modifiers == no_modifiers(),
        s.peak_modifiers == no_modifiers(),
        !s.key_pressed_with_modifiers,
        s.current_key is None,
        is_modifier_key(key),
    ensures
        ({
            let held = with_modifier(no_modifiers(), key, true);
            let after = next_state_named(
                next_state_named(s, InputEvent::Key { key, state: KeyState::Pressed }, naming, t1),
                InputEvent::Key { key, state: KeyState::Released },
                naming,
                t2,
            );
            &&& held.spec_any()
            &&& held.spec_parts().len() == 1
            &&& after.history == pushed(s.history, stamped(keystroke_of(held.spec_parts(), false), t2))
            &&& after.modifiers == no_modifiers()
            &&& after.peak_modifiers == no_modifiers()
        }),
{
    assert((key as u16) as u32 == key);
}

/// A shortcut — a modifier held while a labelled key is tapped, then the
/// modifier released — records the combination once, at the key's release
/// (`t3`), and no separate modifier-only keystroke.
pub proof fn lemma_shortcut(
    s: StateView,
    modifier: u32,
    key: u32,
    label: Seq<char>,
    naming: KeyNaming,
    t1: u64,
    t2: u64,
    t3: u64,
    t4: u64,
)
    requires
        s.enabled,
        s.modifiers == no_modifiers(),
        s.peak_modifiers == no_modifiers(),
        s.current_key is None,
        is_modifier_key(modifier),
        !naming_is_modifier(naming, key),
        naming_label(naming, key) == Some(label),
    ensures
        ({
            let held = with_modifier(no_modifiers(), modifier, true);
            let s1 = next_state_named(
                s,
                InputEvent::Key { key: modifier, state: KeyState::Pressed },
                naming,
                t1,
            );
            let s2 = next_state_named(s1, InputEvent::Key { key, state: KeyState::Pressed }, naming, t2);
            let s3 = next_state_named(s2, InputEvent::Key { key, state: KeyState::Released }, naming, t3);
            let s4 = next_state_named(
                s3,
                InputEvent::Key { key: modifier, state: KeyState::Released },
                naming,
                t4,
            );
            &&& s3.history == pushed(s.history, stamped(combination_spec(held, label, false), t3))
            &&& s4.history == s3.history
            &&& s4.modifiers == no_modifiers()
            &&& !s4.key_pressed_with_modifiers
        }),
{
    assert((modifier as u16) as u32 == modifier);
}

/// A key is recorded with the modifiers held when it was pressed: pressing a
/// labelled key with nothing held, then pressing a modifier, then releasing
/// the key records the key alone.
pub proof fn lemma_release_uses_press_modifiers(
    s: StateView,
    key: u32,
    label: Seq<char>,
    modifier: u32,
    naming: KeyNaming,
    t1: u64,
    t2: u64,
    t3: u64,
)
    requires
        s.enabled,
        s.modifiers == no_modifiers(),
        s.current_key is None,
        is_modifier_key(modifier),
        !naming_is_modifier(naming, key),
        naming_label(naming, key) == Some(label),
    ensures
        ({
            let s1 = next_state_named(s, InputEvent::Key { key, state: KeyState::Pressed }, naming, t1);
            let s2 = next_state_named(
                s1,
                InputEvent::Key { key: modifier, state: KeyState::Pressed },
                naming,
                t2,
            );
            let s3 = next_state_named(s2, InputEvent::Key { key, state: KeyState::Released }, naming, t3);
            &&& s2.modifiers.spec_any()
            &&& s3.history == pushed(s.history, stamped(single_spec(label, false), t3))
        }),
{
    assert((modifier as u16) as u32 == modifier);
}

/// The arrow keys are labelled with their own arrows, whatever the higher bits
/// of the code: Up `↑`, Down `↓`, Left `←`, Right `→`, four different labels.
pub proof fn lemma_arrow_labels(key: u32)
    ensures
        key as u16 == 103 ==> spec_key_to_string(key) == Some("↑"@),
        key as u16 == 108 ==> spec_key_to_string(key) == Some("↓"@),
        key as u16 == 105 ==> spec_key_to_string(key) == Some("←"@),
        key as u16 == 106 ==> spec_key_to_string(key) == Some("→"@),
        "↑"@ != "↓"@ && "↑"@ != "←"@ && "↑"@ != "→"@,
        "↓"@ != "←"@ && "↓"@ != "→"@ && "←"@ != "→"@,
{
    reveal_strlit("↑");
    reveal_strlit("↓");
    reveal_strlit("←");
    reveal_strlit("→");
    assert("↑"@[0] != "↓"@[0] && "↑"@[0] != "←"@[0] && "↑"@[0] != "→"@[0]);
    assert("↓"@[0] != "←"@[0] && "↓"@[0] != "→"@[0] && "←"@[0] != "→"@[0]);
}

/// The keys with a label of their own: the left and right twins of each
/// modifier and of Enter share it; every other such key is named by its
/// function (Backspace `⌫`, Space `␣`, Tab, Esc, Caps Lock, Home, End, Page
/// Up, Page Down, Insert, Delete).
pub proof fn lemma_special_labels(key: u32)
    ensures
        key as u16 == 29 || key as u16 == 97 ==> spec_key_to_string(key) == Some("Ctrl"@),
        key as u16 == 56 || key as u16 == 100 ==> spec_key_to_string(key) == Some("Alt"@),
        key as u16 == 42 || key as u16 == 54 ==> spec_key_to_string(key) == Some("⇧"@),
        key as u16 == 125 || key as u16 == 126 ==> spec_key_to_string(key) == Some("Super"@),
        key as u16 == 28 || key as u16 == 96 ==> spec_key_to_string(key) == Some("↵"@),
        key as u16 == 14 ==> spec_key_to_string(key) == Some("⌫"@),
        key as u16 == 57 ==> spec_key_to_string(key) == Some("␣"@),
        key as u16 == 15 ==> spec_key_to_string(key) == Some("Tab"@),
        key as u16 == 1 ==> spec_key_to_string(key) == Some("Esc"@),
        key as u16 == 58 ==> spec_key_to_string(key) == Some("Caps"@),
        key as u16 == 102 ==> spec_key_to_string(key) == Some("Home"@),
        key as u16 == 107 ==> spec_key_to_string(key) == Some("End"@),
        key as u16 == 104 ==> spec_key_to_string(key) == Some("PgUp"@),
        key as u16 == 109 ==> spec_key_to_string(key) == Some("PgDn"@),
        key as u16 == 110 ==> spec_key_to_string(key) == Some("Ins"@),
        key as u16 == 111 ==> spec_key_to_string(key) == Some("Del"@),
{
}

/// Each modifier's label differs from every other special label.
proof fn lemma_modifier_labels_distinct(l: Seq<char>)
    ensures
        l == "Ctrl"@ ==> l != "Alt"@ && l != "⇧"@ && l != "Super"@ && l != "↵"@ && l != "⌫"@ && l != "␣"@ && l != "Tab"@ && l != "Esc"@ && l != "Caps"@ && l != "↑"@ && l != "↓"@ && l != "←"@ && l != "→"@ && l != "Home"@ && l != "End"@ && l != "PgUp"@ && l != "PgDn"@ && l != "Ins"@ && l != "Del"@,
        l == "Alt"@ ==> l != "Ctrl"@ && l != "⇧"@ && l != "Super"@ && l != "↵"@ && l != "⌫"@ && l != "␣"@ && l != "Tab"@ && l != "Esc"@ && l != "Caps"@ && l != "↑"@ && l != "↓"@ && l != "←"@ && l != "→"@ && l != "Home"@ && l != "End"@ && l != "PgUp"@ && l != "PgDn"@ && l != "Ins"@ && l != "Del"@,
        l == "⇧"@ ==> l != "Ctrl"@ && l != "Alt"@ && l != "Super"@ && l != "↵"@ && l != "⌫"@ && l != "␣"@ && l != "Tab"@ && l != "Esc"@ && l != "Caps"@ && l != "↑"@ && l != "↓"@ && l != "←"@ && l != "→"@ && l != "Home"@ && l != "End"@ && l != "PgUp"@ && l != "PgDn"@ && l != "Ins"@ && l != "Del"@,
        l == "Super"@ ==> l != "Ctrl"@ && l != "Alt"@ && l != "⇧"@ && l != "↵"@ && l != "⌫"@ && l != "␣"@ && l != "Tab"@ && l != "Esc"@ && l != "Caps"@ && l != "↑"@ && l != "↓"@ && l != "←"@ && l != "→"@ && l != "Home"@ && l != "End"@ && l != "PgUp"@ && l != "PgDn"@ && l != "Ins"@ && l != "Del"@,
{
    reveal_strlit("Ctrl");
    reveal_strlit("Alt");
    reveal_strlit("⇧");
    reveal_strlit("Super");
    reveal_strlit("↵");
    reveal_strlit("⌫");
    reveal_strlit("␣");
    reveal_strlit("Tab");
    reveal_strlit("Esc");
    reveal_strlit("Caps");
    reveal_strlit("↑");
    reveal_strlit("↓");
    reveal_strlit("←");
    reveal_strlit("→");
    reveal_strlit("Home");
    reveal_strlit("End");
    reveal_strlit("PgUp");
    reveal_strlit("PgDn");
    reveal_strlit("Ins");
    reveal_strlit("Del");
    assert("Alt"@.len() != "Ctrl"@.len());
    assert("⇧"@.len() != "Ctrl"@.len());
    assert("Super"@.len() != "Ctrl"@.len());
    assert("↵"@.len() != "Ctrl"@.len());
    assert("⌫"@.len() != "Ctrl"@.len());
    assert("␣"@.len() != "Ctrl"@.len());
    assert("Tab"@.len() != "Ctrl"@.len());
    assert("Esc"@.len() != "Ctrl"@.len());
    assert("Caps"@[1] != "Ctrl"@[1]);
    assert("↑"@.len() != "Ctrl"@.len());
    assert("↓"@.len() != "Ctrl"@.len());
    assert("←"@.len() != "Ctrl"@.len());
    assert("→"@.len() != "Ctrl"@.len());
    assert("Home"@[0] != "Ctrl"@[0]);
    assert("End"@.len() != "Ctrl"@.len());
    assert("PgUp"@[0] != "Ctrl"@[0]);
    assert("PgDn"@[0] != "Ctrl"@[0]);
    assert("Ins"@.len() != "Ctrl"@.len());
    assert("Del"@.len() != "Ctrl"@.len());
    assert("Ctrl"@.len() != "Alt"@.len());
    assert("⇧"@.len() != "Alt"@.len());
    assert("Super"@.len() != "Alt"@.len());
    assert("↵"@.len() != "Alt"@.len());
    assert("⌫"@.len() != "Alt"@.len());
    assert("␣"@.len() != "Alt"@.len());
    assert("Tab"@[0] != "Alt"@[0]);
    assert("Esc"@[0] != "Alt"@[0]);
    assert("Caps"@.len() != "Alt"@.len());
    assert("↑"@.len() != "Alt"@.len());
    assert("↓"@.len() != "Alt"@.len());
    assert("←"@.len() != "Alt"@.len());
    assert("→"@.len() != "Alt"@.len());
    assert("Home"@.len() != "Alt"@.len());
    assert("End"@[0] != "Alt"@[0]);
    assert("PgUp"@.len() != "Alt"@.len());
    assert("PgDn"@.len() != "Alt"@.len());
    assert("Ins"@[0] != "Alt"@[0]);
    assert("Del"@[0] != "Alt"@[0]);
    assert("Ctrl"@.len() != "⇧"@.len());
    assert("Alt"@.len() != "⇧"@.len());
    assert("Super"@.len() != "⇧"@.len());
    assert("↵"@[0] != "⇧"@[0]);
    assert("⌫"@[0] != "⇧"@[0]);
    assert("␣"@[0] != "⇧"@[0]);
    assert("Tab"@.len() != "⇧"@.len());
    assert("Esc"@.len() != "⇧"@.len());
    assert("Caps"@.len() != "⇧"@.len());
    assert("↑"@[0] != "⇧"@[0]);
    assert("↓"@[0] != "⇧"@[0]);
    assert("←"@[0] != "⇧"@[0]);
    assert("→"@[0] != "⇧"@[0]);
    assert("Home"@.len() != "⇧"@.len());
    assert("End"@.len() != "⇧"@.len());
    assert("PgUp"@.len() != "⇧"@.len());
    assert("PgDn"@.len() != "⇧"@.len());
    assert("Ins"@.len() != "⇧"@.len());
    assert("Del"@.len() != "⇧"@.len());
    assert("Ctrl"@.len() != "Super"@.len());
    assert("Alt"@.len() != "Super"@.len());
    assert("⇧"@.len() != "Super"@.len());
    assert("↵"@.len() != "Super"@.len());
    assert("⌫"@.len() != "Super"@.len());
    assert("␣"@.len() != "Super"@.len());
    assert("Tab"@.len() != "Super"@.len());
    assert("Esc"@.len() != "Super"@.len());
    assert("Caps"@.len() != "Super"@.len());
    assert("↑"@.len() != "Super"@.len());
    assert("↓"@.len() != "Super"@.len());
    assert("←"@.len() != "Super"@.len());
    assert("→"@.len() != "Super"@.len());
    assert("Home"@.len() != "Super"@.len());
    assert("End"@.len() != "Super"@.len());
    assert("PgUp"@.len() != "Super"@.len());
    assert("PgDn"@.len() != "Super"@.len());
    assert("Ins"@.len() != "Super"@.len());
    assert("Del"@.len() != "Super"@.len());
}

/// A key code is a modifier exactly when its own label is the name of a
/// modifier, and pressing or releasing it sets or clears the flag of that very
/// modifier, leaving the other flags alone; other keys leave the flags alone.
pub proof fn lemma_modifier_flags(m: KeyModifiers, key: u32, value: bool)
    requires
        key < 0x10000,
    ensures
        is_modifier_code(key as u16) <==> (special_label(key as u16) == Some("Ctrl"@)
            || special_label(key as u16) == Some("Alt"@) || special_label(key as u16) == Some("⇧"@)
            || special_label(key as u16) == Some("Super"@)),
        special_label(key as u16) == Some("Ctrl"@) ==> with_modifier(m, key, value) == (KeyModifiers {
            ctrl: value,
            ..m
        }),
        special_label(key as u16) == Some("Alt"@) ==> with_modifier(m, key, value) == (KeyModifiers {
            alt: value,
            ..m
        }),
        special_label(key as u16) == Some("⇧"@) ==> with_modifier(m, key, value) == (KeyModifiers {
            shift: value,
            ..m
        }),
        special_label(key as u16) == Some("Super"@) ==> with_modifier(m, key, value) == (KeyModifiers {
            super_key: value,
            ..m
        }),
        !is_modifier_code(key as u16) ==> with_modifier(m, key, value) == m,
{
    assert((key as u16) as u32 == key);
    if let Some(l) = special_label(key as u16) {
        lemma_modifier_labels_distinct(l);
    }
}

/// In the daemon's table too, a key code is a modifier exactly when its label
/// is the name of a modifier, and it sets or clears the flag of that very
/// modifier.
pub proof fn lemma_table_modifier_flags(m: KeyModifiers, key: u32, value: bool)
    ensures
        is_modifier_key(key) <==> (table_label(key) == Some("Ctrl"@) || table_label(key) == Some(
            "Alt"@,
        ) || table_label(key) == Some("⇧"@) || table_label(key) == Some("Super"@)),
        table_label(key) == Some("Ctrl"@) ==> with_modifier(m, key, value) == (KeyModifiers {
            ctrl: value,
            ..m
        }),
        table_label(key) == Some("Alt"@) ==> with_modifier(m, key, value) == (KeyModifiers {
            alt: value,
            ..m
        }),
        table_label(key) == Some("⇧"@) ==> with_modifier(m, key, value) == (KeyModifiers {
            shift: value,
            ..m
        }),
        table_label(key) == Some("Super"@) ==> with_modifier(m, key, value) == (KeyModifiers {
            super_key: value,
            ..m
        }),
        !is_modifier_key(key) ==> with_modifier(m, key, value) == m,
{
    if let Some(l) = table_label(key) {
        lemma_table_modifier_labels_distinct(l);
    }
}

/// Labels of pointer and gesture input: mouse buttons (left, right, middle)
/// and touchpad taps (one, two, three fingers) by button code; wheel scrolls
/// by direction, vertical and beyond 10 only; vertical three- and four-finger
/// swipes; three- and four-finger holds. A left click or a touchpad tap that
/// moved while held is shown as a drag.
pub proof fn lemma_pointer_labels(
    button: u32,
    is_touchpad: bool,
    axis: Axis,
    value: i64,
    finger_count: i32,
    direction: SwipeDirection,
    label: Seq<char>,
)
    ensures
        button == 272 ==> button_label(button, is_touchpad) == Some(
            if is_touchpad { "Tap"@ } else { "LClick"@ },
        ),
        button == 273 ==> button_label(button, is_touchpad) == Some(
            if is_touchpad { "2Tap"@ } else { "RClick"@ },
        ),
        button == 274 ==> button_label(button, is_touchpad) == Some(
            if is_touchpad { "3Tap"@ } else { "MClick"@ },
        ),
        button != 272 && button != 273 && button != 274 ==> button_label(button, is_touchpad) is None,
        axis == Axis::Vertical && value > 10 ==> wheel_label(axis, value) == Some("ScrollDown"@),
        axis == Axis::Vertical && value < -10 ==> wheel_label(axis, value) == Some("ScrollUp"@),
        axis == Axis::Horizontal || -10 <= value <= 10 ==> wheel_label(axis, value) is None,
        finger_count == 3 && direction == SwipeDirection::Up ==> swipe_label(finger_count, direction)
            == Some("3Up"@),
        finger_count == 3 && direction == SwipeDirection::Down ==> swipe_label(finger_count, direction)
            == Some("3Down"@),
        finger_count == 4 && direction == SwipeDirection::Up ==> swipe_label(finger_count, direction)
            == Some("4Up"@),
        finger_count == 4 && direction == SwipeDirection::Down ==> swipe_label(finger_count, direction)
            == Some("4Down"@),
        (finger_count != 3 && finger_count != 4) || direction == SwipeDirection::Left || direction
            == SwipeDirection::Right ==> swipe_label(finger_count, direction) is None,
        finger_count == 3 ==> hold_label(finger_count) == Some("3Tap"@),
        finger_count == 4 ==> hold_label(finger_count) == Some("4Tap"@),
        finger_count != 3 && finger_count != 4 ==> hold_label(finger_count) is None,
        shown_button("LClick"@, is_touchpad, true) == "LDrag"@,
        shown_button("Tap"@, true, true) == "TapDrag"@,
        shown_button(label, is_touchpad, false) == label,
        label != "LClick"@ && label != "Tap"@ ==> shown_button(label, is_touchpad, true) == label,
        shown_button("Tap"@, false, true) == "Tap"@,
{
    reveal_strlit("LClick");
    reveal_strlit("Tap");
    assert("Tap"@ != "LClick"@) by {
        assert("Tap"@.len() != "LClick"@.len());
    }
}

/// A two-finger touchpad scroll on an enabled overlay is recorded with its
/// direction: rightwards (positive horizontal) as "2Right", leftwards as
/// "2Left", downwards (positive vertical) as "2Down", upwards as "2Up".
pub proof fn lemma_touchpad_scroll_direction(
    s: StateView,
    axis: Axis,
    value: i64,
    naming: KeyNaming,
    now: u64,
)
    requires
        s.enabled,
    ensures
        ({
            let after = next_state_named(s, InputEvent::TouchpadScroll { axis, value }, naming, now);
            let recorded = |label: Seq<char>|
                pushed(s.history, stamped(labelled_spec(s.modifiers, label, false), now));
            &&& axis == Axis::Horizontal && value > 0 ==> after.history == recorded("2Right"@)
            &&& axis == Axis::Horizontal && value <= 0 ==> after.history == recorded("2Left"@)
            &&& axis == Axis::Vertical && value > 0 ==> after.history == recorded("2Down"@)
            &&& axis == Axis::Vertical && value <= 0 ==> after.history == recorded("2Up"@)
            &&& after.current_key == s.current_key && after.modifiers == s.modifiers
        }),
        "2Left"@ != "2Right"@ && "2Up"@ != "2Down"@,
{
    reveal_strlit("2Left");
    reveal_strlit("2Right");
    reveal_strlit("2Up");
    reveal_strlit("2Down");
    assert("2Left"@[1] != "2Right"@[1]);
    assert("2Up"@[1] != "2Down"@[1]);
}

/// A click made while a modifier is held is recorded as the combination of
/// the modifier and the click, and releasing the modifier afterwards records
/// nothing more: the modifier was used, not tapped.
pub proof fn lemma_modified_click(
    s: StateView,
    modifier: u32,
    naming: KeyNaming,
    t1: u64,
    t2: u64,
    t3: u64,
    t4: u64,
)
    requires
        s.enabled,
        s.modifiers == no_modifiers(),
        s.peak_modifiers == no_modifiers(),
        s.current_key is None,
        s.current_mouse is None,
        is_modifier_key(modifier),
    ensures
        ({
            let held = with_modifier(no_modifiers(), modifier, true);
            let s1 = next_state_named(
                s,
                InputEvent::Key { key: modifier, state: KeyState::Pressed },
                naming,
                t1,
            );
            let s2 = next_state_named(
                s1,
                InputEvent::MouseButton { button: 272, state: ButtonState::Pressed, is_touchpad: false },
                naming,
                t2,
            );
            let s3 = next_state_named(
                s2,
                InputEvent::MouseButton { button: 272, state: ButtonState::Released, is_touchpad: false },
                naming,
                t3,
            );
            let s4 = next_state_named(
                s3,
                InputEvent::Key { key: modifier, state: KeyState::Released },
                naming,
                t4,
            );
            &&& s3.history == pushed(
                s.history,
                stamped(keystroke_of(held.spec_parts().push("LClick"@), false), t3),
            )
            &&& s4.history == s3.history
            &&& s4.modifiers == no_modifiers()
            &&& s4.current_mouse is None
        }),
{
    assert((modifier as u16) as u32 == modifier);
    lemma_parts_empty_iff_none(with_modifier(no_modifiers(), modifier, true));
    reveal_strlit("LClick");
}

/// Pressing a second labelled key while the first is still held (no modifier
/// held) records the first and holds the second.
pub proof fn lemma_key_rollover(
    s: StateView,
    a: u32,
    la: Seq<char>,
    b: u32,
    lb: Seq<char>,
    naming: KeyNaming,
    t1: u64,
    t2: u64,
)
    requires
        s.enabled,
        s.modifiers == no_modifiers(),
        s.current_key is None,
        !naming_is_modifier(naming, a),
        !naming_is_modifier(naming, b),
        naming_label(naming, a) == Some(la),
        naming_label(naming, b) == Some(lb),
    ensures
        ({
            let s1 = next_state_named(s, InputEvent::Key { key: a, state: KeyState::Pressed }, naming, t1);
            let s2 = next_state_named(s1, InputEvent::Key { key: b, state: KeyState::Pressed }, naming, t2);
            &&& s1.history == s.history
            &&& s2.history == pushed(s.history, stamped(single_spec(la, false), t2))
            &&& s2.current_key == Some((lb, no_modifiers()))
        }),
{
}

/// A modifier pressed and released while a key is held is not a modifier
/// tap: nothing is recorded and the key stays held.
pub proof fn lemma_modifier_under_held_key(s: StateView, modifier: u32, naming: KeyNaming, t1: u64, t2: u64)
    requires
        s.enabled,
        s.modifiers == no_modifiers(),
        s.current_key is Some,
        is_modifier_key(modifier),
    ensures
        ({
            let s1 = next_state_named(
                s,
                InputEvent::Key { key: modifier, state: KeyState::Pressed },
                naming,
                t1,
            );
            let s2 = next_state_named(
                s1,
                InputEvent::Key { key: modifier, state: KeyState::Released },
                naming,
                t2,
            );
            &&& s2.history == s.history
            &&& s2.current_key == s.current_key
            &&& s2.modifiers == no_modifiers()
        }),
{
    assert((modifier as u16) as u32 == modifier);
}

/// Tapping two different modifiers together (both pressed, then both
/// released, with nothing else held) records them once, as one keystroke of
/// both, when the last of them is released.
pub proof fn lemma_two_modifier_tap(
    s: StateView,
    m1: u32,
    m2: u32,
    naming: KeyNaming,
    t1: u64,
    t2: u64,
    t3: u64,
    t4: u64,
)
    requires
        s.enabled,
        s.modifiers == no_modifiers(),
        s.peak_modifiers == no_modifiers(),
        !s.key_pressed_with_modifiers,
        s.current_key is None,
        is_modifier_key(m1),
        is_modifier_key(m2),
        with_modifier(no_modifiers(), m1, true) != with_modifier(no_modifiers(), m2, true),
    ensures
        ({
            let both = modifiers_union(
                with_modifier(no_modifiers(), m1, true),
                with_modifier(no_modifiers(), m2, true),
            );
            let s1 = next_state_named(s, InputEvent::Key { key: m1, state: KeyState::Pressed }, naming, t1);
            let s2 = next_state_named(s1, InputEvent::Key { key: m2, state: KeyState::Pressed }, naming, t2);
            let s3 = next_state_named(s2, InputEvent::Key { key: m1, state: KeyState::Released }, naming, t3);
            let s4 = next_state_named(s3, InputEvent::Key { key: m2, state: KeyState::Released }, naming, t4);
            &&& s3.history == s.history
            &&& s4.history == pushed(s.history, stamped(keystroke_of(both.spec_parts(), false), t4))
            &&& both.spec_parts().len() == 2
            &&& s4.modifiers == no_modifiers()
        }),
{
    assert((m1 as u16) as u32 == m1);
    assert((m2 as u16) as u32 == m2);
}

/// Every evdev modifier code is labelled with the name of its modifier.
pub proof fn lemma_modifier_labels(key: u32)
    requires
        is_modifier_code(key as u16),
    ensures
        spec_key_to_string(key) == Some("Ctrl"@) || spec_key_to_string(key) == Some("Alt"@)
            || spec_key_to_string(key) == Some("⇧"@) || spec_key_to_string(key) == Some("Super"@),
{
}

/// Pressing the left mouse button, moving the pointer and releasing the button
/// records a drag, at the release's time.
pub proof fn lemma_mouse_drag(s: StateView, t1: u64, t2: u64, t3: u64)
    requires
        s.enabled,
    ensures
        ({
            let s1 = next_state(
                s,
                InputEvent::MouseButton { button: 272, state: ButtonState::Pressed, is_touchpad: false },
                t1,
            );
            let s2 = next_state(s1, InputEvent::MouseMotion, t2);
            let s3 = next_state(
                s2,
                InputEvent::MouseButton { button: 272, state: ButtonState::Released, is_touchpad: false },
                t3,
            );
            &&& s3.history == pushed(s.history, stamped(labelled_spec(s.modifiers, "LDrag"@, false), t3))
            &&& s3.current_mouse is None
        }),
{
    reveal_strlit("LClick");
    reveal_strlit("LDrag");
}

/// With the overlay enabled and nothing held, the overlay shows exactly the
/// history; while something is held it shows one more keystroke, pressed.
pub proof fn lemma_display_shape(s: StateView)
    requires
        s.enabled,
    ensures
        s.current_mouse is None && s.current_key is None && !s.modifiers.spec_any()
            ==> spec_display(s) == s.history,
        s.current_mouse is Some || s.current_key is Some || s.modifiers.spec_any() ==> {
            &&& spec_display(s).len() == s.history.len() + 1
            &&& spec_display(s).last().pressed
            &&& spec_display(s).subrange(0, s.history.len() as int) == s.history
        },
{
    if s.current_mouse is None && s.current_key is None && !s.modifiers.spec_any() {
        assert(spec_display(s) =~= s.history);
    } else {
        assert(spec_display(s).subrange(0, s.history.len() as int) =~= s.history);
    }
}

} // verus!
