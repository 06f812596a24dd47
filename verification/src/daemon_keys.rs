//! The daemon's fixed table of key labels, by Linux input event code.
use vstd::prelude::*;
use vstd::string::*;

verus! {

/// Label of a key code in the daemon's table: digits, letters and punctuation
/// as typed on a US layout, symbols for editing and arrow keys, and names for
/// modifiers, function and navigation keys; `None` for codes not in the table.
pub open spec fn table_label(key: u32) -> Option<Seq<char>> {
    if key == 1 { Some("Esc"@) }
    else if key == 2 { Some("1"@) }
    else if key == 3 { Some("2"@) }
    else if key == 4 { Some("3"@) }
    else if key == 5 { Some("4"@) }
    else if key == 6 { Some("5"@) }
    else if key == 7 { Some("6"@) }
    else if key == 8 { Some("7"@) }
    else if key == 9 { Some("8"@) }
    else if key == 10 { Some("9"@) }
    else if key == 11 { Some("0"@) }
    else if key == 12 { Some("-"@) }
    else if key == 13 { Some("="@) }
    else if key == 14 { Some("⌫"@) }
    else if key == 15 { Some("Tab"@) }
    else if key == 16 { Some("Q"@) }
    else if key == 17 { Some("W"@) }
    else if key == 18 { Some("E"@) }
    else if key == 19 { Some("R"@) }
    else if key == 20 { Some("T"@) }
    else if key == 21 { Some("Y"@) }
    else if key == 22 { Some("U"@) }
    else if key == 23 { Some("I"@) }
    else if key == 24 { Some("O"@) }
    else if key == 25 { Some("P"@) }
    else if key == 26 { Some("["@) }
    else if key == 27 { Some("]"@) }
    else if key == 28 { Some("↵"@) }
    else if key == 29 { Some("Ctrl"@) }
    else if key == 30 { Some("A"@) }
    else if key == 31 { Some("S"@) }
    else if key == 32 { Some("D"@) }
    else if key == 33 { Some("F"@) }
    else if key == 34 { Some("G"@) }
    else if key == 35 { Some("H"@) }
    else if key == 36 { Some("J"@) }
    else if key == 37 { Some("K"@) }
    else if key == 38 { Some("L"@) }
    else if key == 39 { Some(";"@) }
    else if key == 40 { Some("'"@) }
    else if key == 41 { Some("`"@) }
    else if key == 42 { Some("⇧"@) }
    else if key == 43 { Some("\\"@) }
    else if key == 44 { Some("Z"@) }
    else if key == 45 { Some("X"@) }
    else if key == 46 { Some("C"@) }
    else if key == 47 { Some("V"@) }
    else if key == 48 { Some("B"@) }
    else if key == 49 { Some("N"@) }
    else if key == 50 { Some("M"@) }
    else if key == 51 { Some(","@) }
    else if key == 52 { Some("."@) }
    else if key == 53 { Some("/"@) }
    else if key == 54 { Some("⇧"@) }
    else if key == 55 { Some("*"@) }
    else if key == 56 { Some("Alt"@) }
    else if key == 57 { Some("␣"@) }
    else if key == 58 { Some("Caps"@) }
    else if key == 59 { Some("F1"@) }
    else if key == 60 { Some("F2"@) }
    else if key == 61 { Some("F3"@) }
    else if key == 62 { Some("F4"@) }
    else if key == 63 { Some("F5"@) }
    else if key == 64 { Some("F6"@) }
    else if key == 65 { Some("F7"@) }
    else if key == 66 { Some("F8"@) }
    else if key == 67 { Some("F9"@) }
    else if key == 68 { Some("F10"@) }
    else if key == 87 { Some("F11"@) }
    else if key == 88 { Some("F12"@) }
    else if key == 96 { Some("↵"@) }
    else if key == 97 { Some("Ctrl"@) }
    else if key == 100 { Some("Alt"@) }
    else if key == 102 { Some("Home"@) }
    else if key == 103 { Some("↑"@) }
    else if key == 104 { Some("PgUp"@) }
    else if key == 105 { Some("←"@) }
    else if key == 106 { Some("→"@) }
    else if key == 107 { Some("End"@) }
    else if key == 108 { Some("↓"@) }
    else if key == 109 { Some("PgDn"@) }
    else if key == 110 { Some("Ins"@) }
    else if key == 111 { Some("Del"@) }
    else if key == 125 { Some("Super"@) }
    else if key == 126 { Some("Super"@) }
    else { None }
}

/// Convert key code to display string
pub fn key_to_string(key: u32) -> (r: Option<String>)
    ensures
        match r {
            Some(s) => table_label(key) == Some(s@),
            None => table_label(key) is None,
        },
{
    let s: &str = match key {
        1 => "Esc",
        2 => "1",
        3 => "2",
        4 => "3",
        5 => "4",
        6 => "5",
        7 => "6",
        8 => "7",
        9 => "8",
        10 => "9",
        11 => "0",
        12 => "-",
        13 => "=",
        14 => "⌫",
        15 => "Tab",
        16 => "Q",
        17 => "W",
        18 => "E",
        19 => "R",
        20 => "T",
        21 => "Y",
        22 => "U",
        23 => "I",
        24 => "O",
        25 => "P",
        26 => "[",
        27 => "]",
        28 => "↵",
        29 => "Ctrl",
        30 => "A",
        31 => "S",
        32 => "D",
        33 => "F",
        34 => "G",
        35 => "H",
        36 => "J",
        37 => "K",
        38 => "L",
        39 => ";",
        40 => "'",
        41 => "`",
        42 => "⇧",
        43 => "\\",
        44 => "Z",
        45 => "X",
        46 => "C",
        47 => "V",
        48 => "B",
        49 => "N",
        50 => "M",
        51 => ",",
        52 => ".",
        53 => "/",
        54 => "⇧",
        55 => "*",
        56 => "Alt",
        57 => "␣",
        58 => "Caps",
        59 => "F1",
        60 => "F2",
        61 => "F3",
        62 => "F4",
        63 => "F5",
        64 => "F6",
        65 => "F7",
        66 => "F8",
        67 => "F9",
        68 => "F10",
        87 => "F11",
        88 => "F12",
        96 => "↵",
        97 => "Ctrl",
        100 => "Alt",
        102 => "Home",
        103 => "↑",
        104 => "PgUp",
        105 => "←",
        106 => "→",
        107 => "End",
        108 => "↓",
        109 => "PgDn",
        110 => "Ins",
        111 => "Del",
        125 => "Super",
        126 => "Super",
        _ => return None,
    };
    Some(String::from_str(s))
}

/// Codes of the eight modifier keys (left and right Ctrl, Alt, Shift, Super).
pub open spec fn is_modifier_key(key: u32) -> bool {
    key == 29 || key == 97 || key == 56 || key == 100 || key == 42 || key == 54 || key == 125
        || key == 126
}

/// Whether a key code is one of the eight modifier keys.
pub fn is_modifier(key: u32) -> (r: bool)
    ensures
        r == is_modifier_key(key),
{
    key == 29 || key == 97 || key == 56 || key == 100 || key == 42 || key == 54 || key == 125
        || key == 126
}

/// Every modifier key has a label, and it is the name of its modifier.
pub proof fn lemma_modifier_labels(key: u32)
    requires
        is_modifier_key(key),
    ensures
        table_label(key) == Some("Ctrl"@) || table_label(key) == Some("Alt"@) || table_label(key)
            == Some("⇧"@) || table_label(key) == Some("Super"@),
{
}

/// The table follows the US layout's rows: the key `i` places right of the
/// row's first key is labelled with the `i`-th character of that row, so every
/// digit and letter key has its own label.
pub proof fn lemma_layout_rows(i: int)
    ensures
        0 <= i < 10 ==> table_label((2 + i) as u32) == Some(seq!["1234567890"@[i]]),
        0 <= i < 10 ==> table_label((16 + i) as u32) == Some(seq!["QWERTYUIOP"@[i]]),
        0 <= i < 9 ==> table_label((30 + i) as u32) == Some(seq!["ASDFGHJKL"@[i]]),
        0 <= i < 7 ==> table_label((44 + i) as u32) == Some(seq!["ZXCVBNM"@[i]]),
{
    reveal_strlit("1234567890");
    reveal_strlit("QWERTYUIOP");
    reveal_strlit("ASDFGHJKL");
    reveal_strlit("ZXCVBNM");
    reveal_strlit("1");
    reveal_strlit("2");
    reveal_strlit("3");
    reveal_strlit("4");
    reveal_strlit("5");
    reveal_strlit("6");
    reveal_strlit("7");
    reveal_strlit("8");
    reveal_strlit("9");
    reveal_strlit("0");
    reveal_strlit("Q");
    reveal_strlit("W");
    reveal_strlit("E");
    reveal_strlit("R");
    reveal_strlit("T");
    reveal_strlit("Y");
    reveal_strlit("U");
    reveal_strlit("I");
    reveal_strlit("O");
    reveal_strlit("P");
    reveal_strlit("A");
    reveal_strlit("S");
    reveal_strlit("D");
    reveal_strlit("F");
    reveal_strlit("G");
    reveal_strlit("H");
    reveal_strlit("J");
    reveal_strlit("K");
    reveal_strlit("L");
    reveal_strlit("Z");
    reveal_strlit("X");
    reveal_strlit("C");
    reveal_strlit("V");
    reveal_strlit("B");
    reveal_strlit("N");
    reveal_strlit("M");
    if 0 <= i < 10 {
        if i == 0 {
            assert("1"@ =~= seq!["1234567890"@[i]]);
        }
        if i == 1 {
            assert("2"@ =~= seq!["1234567890"@[i]]);
        }
        if i == 2 {
            assert("3"@ =~= seq!["1234567890"@[i]]);
        }
        if i == 3 {
            assert("4"@ =~= seq!["1234567890"@[i]]);
        }
        if i == 4 {
            assert("5"@ =~= seq!["1234567890"@[i]]);
        }
        if i == 5 {
            assert("6"@ =~= seq!["1234567890"@[i]]);
        }
        if i == 6 {
            assert("7"@ =~= seq!["1234567890"@[i]]);
        }
        if i == 7 {
            assert("8"@ =~= seq!["1234567890"@[i]]);
        }
        if i == 8 {
            assert("9"@ =~= seq!["1234567890"@[i]]);
        }
        if i == 9 {
            assert("0"@ =~= seq!["1234567890"@[i]]);
        }
    }
    if 0 <= i < 10 {
        if i == 0 {
            assert("Q"@ =~= seq!["QWERTYUIOP"@[i]]);
        }
        if i == 1 {
            assert("W"@ =~= seq!["QWERTYUIOP"@[i]]);
        }
        if i == 2 {
            assert("E"@ =~= seq!["QWERTYUIOP"@[i]]);
        }
        if i == 3 {
            assert("R"@ =~= seq!["QWERTYUIOP"@[i]]);
        }
        if i == 4 {
            assert("T"@ =~= seq!["QWERTYUIOP"@[i]]);
        }
        if i == 5 {
            assert("Y"@ =~= seq!["QWERTYUIOP"@[i]]);
        }
        if i == 6 {
            assert("U"@ =~= seq!["QWERTYUIOP"@[i]]);
        }
        if i == 7 {
            assert("I"@ =~= seq!["QWERTYUIOP"@[i]]);
        }
        if i == 8 {
            assert("O"@ =~= seq!["QWERTYUIOP"@[i]]);
        }
        if i == 9 {
            assert("P"@ =~= seq!["QWERTYUIOP"@[i]]);
        }
    }
    if 0 <= i < 9 {
        if i == 0 {
            assert("A"@ =~= seq!["ASDFGHJKL"@[i]]);
        }
        if i == 1 {
            assert("S"@ =~= seq!["ASDFGHJKL"@[i]]);
        }
        if i == 2 {
            assert("D"@ =~= seq!["ASDFGHJKL"@[i]]);
        }
        if i == 3 {
            assert("F"@ =~= seq!["ASDFGHJKL"@[i]]);
        }
        if i == 4 {
            assert("G"@ =~= seq!["ASDFGHJKL"@[i]]);
        }
        if i == 5 {
            assert("H"@ =~= seq!["ASDFGHJKL"@[i]]);
        }
        if i == 6 {
            assert("J"@ =~= seq!["ASDFGHJKL"@[i]]);
        }
        if i == 7 {
            assert("K"@ =~= seq!["ASDFGHJKL"@[i]]);
        }
        if i == 8 {
            assert("L"@ =~= seq!["ASDFGHJKL"@[i]]);
        }
    }
    if 0 <= i < 7 {
        if i == 0 {
            assert("Z"@ =~= seq!["ZXCVBNM"@[i]]);
        }
        if i == 1 {
            assert("X"@ =~= seq!["ZXCVBNM"@[i]]);
        }
        if i == 2 {
            assert("C"@ =~= seq!["ZXCVBNM"@[i]]);
        }
        if i == 3 {
            assert("V"@ =~= seq!["ZXCVBNM"@[i]]);
        }
        if i == 4 {
            assert("B"@ =~= seq!["ZXCVBNM"@[i]]);
        }
        if i == 5 {
            assert("N"@ =~= seq!["ZXCVBNM"@[i]]);
        }
        if i == 6 {
            assert("M"@ =~= seq!["ZXCVBNM"@[i]]);
        }
    }
}

/// The daemon's labels for the keys outside the digit and letter rows:
/// punctuation by its character, the function keys F1 to F12, and the other
/// keys by their symbol or short name; keys not in the table have none.
pub proof fn lemma_table_other_labels(key: u32)
    ensures
        key == 1 ==> table_label(key) == Some("Esc"@),
        key == 12 ==> table_label(key) == Some("-"@),
        key == 13 ==> table_label(key) == Some("="@),
        key == 14 ==> table_label(key) == Some("⌫"@),
        key == 15 ==> table_label(key) == Some("Tab"@),
        key == 26 ==> table_label(key) == Some("["@),
        key == 27 ==> table_label(key) == Some("]"@),
        key == 28 ==> table_label(key) == Some("↵"@),
        key == 29 ==> table_label(key) == Some("Ctrl"@),
        key == 39 ==> table_label(key) == Some(";"@),
        key == 40 ==> table_label(key) == Some("'"@),
        key == 41 ==> table_label(key) == Some("`"@),
        key == 42 ==> table_label(key) == Some("⇧"@),
        key == 43 ==> table_label(key) == Some("\\"@),
        key == 51 ==> table_label(key) == Some(","@),
        key == 52 ==> table_label(key) == Some("."@),
        key == 53 ==> table_label(key) == Some("/"@),
        key == 54 ==> table_label(key) == Some("⇧"@),
        key == 55 ==> table_label(key) == Some("*"@),
        key == 56 ==> table_label(key) == Some("Alt"@),
        key == 57 ==> table_label(key) == Some("␣"@),
        key == 58 ==> table_label(key) == Some("Caps"@),
        key == 59 ==> table_label(key) == Some("F1"@),
        key == 60 ==> table_label(key) == Some("F2"@),
        key == 61 ==> table_label(key) == Some("F3"@),
        key == 62 ==> table_label(key) == Some("F4"@),
        key == 63 ==> table_label(key) == Some("F5"@),
        key == 64 ==> table_label(key) == Some("F6"@),
        key == 65 ==> table_label(key) == Some("F7"@),
        key == 66 ==> table_label(key) == Some("F8"@),
        key == 67 ==> table_label(key) == Some("F9"@),
        key == 68 ==> table_label(key) == Some("F10"@),
        key == 87 ==> table_label(key) == Some("F11"@),
        key == 88 ==> table_label(key) == Some("F12"@),
        key == 96 ==> table_label(key) == Some("↵"@),
        key == 97 ==> table_label(key) == Some("Ctrl"@),
        key == 100 ==> table_label(key) == Some("Alt"@),
        key == 102 ==> table_label(key) == Some("Home"@),
        key == 103 ==> table_label(key) == Some("↑"@),
        key == 104 ==> table_label(key) == Some("PgUp"@),
        key == 105 ==> table_label(key) == Some("←"@),
        key == 106 ==> table_label(key) == Some("→"@),
        key == 107 ==> table_label(key) == Some("End"@),
        key == 108 ==> table_label(key) == Some("↓"@),
        key == 109 ==> table_label(key) == Some("PgDn"@),
        key == 110 ==> table_label(key) == Some("Ins"@),
        key == 111 ==> table_label(key) == Some("Del"@),
        key == 125 ==> table_label(key) == Some("Super"@),
        key == 126 ==> table_label(key) == Some("Super"@),
        key == 0 || (key > 68 && key < 87) || (key > 88 && key < 96) || key == 98 || key == 99
            || key == 101 || (key > 111 && key < 125) || key > 126 ==> table_label(key) is None,
{
}

/// Each modifier's label differs from every other label of the daemon's table.
pub(crate) proof fn lemma_table_modifier_labels_distinct(l: Seq<char>)
    ensures
        l == "Ctrl"@ ==> l != "'"@ && l != "*"@ && l != ","@ && l != "-"@ && l != "."@ && l != "/"@ && l != "0"@ && l != "1"@ && l != "2"@ && l != "3"@ && l != "4"@ && l != "5"@ && l != "6"@ && l != "7"@ && l != "8"@ && l != "9"@ && l != ";"@ && l != "="@ && l != "A"@ && l != "Alt"@ && l != "B"@ && l != "C"@ && l != "Caps"@ && l != "D"@ && l != "Del"@ && l != "E"@ && l != "End"@ && l != "Esc"@ && l != "F"@ && l != "F1"@ && l != "F10"@ && l != "F11"@ && l != "F12"@ && l != "F2"@ && l != "F3"@ && l != "F4"@ && l != "F5"@ && l != "F6"@ && l != "F7"@ && l != "F8"@ && l != "F9"@ && l != "G"@ && l != "H"@ && l != "Home"@ && l != "I"@ && l != "Ins"@ && l != "J"@ && l != "K"@ && l != "L"@ && l != "M"@ && l != "N"@ && l != "O"@ && l != "P"@ && l != "PgDn"@ && l != "PgUp"@ && l != "Q"@ && l != "R"@ && l != "S"@ && l != "Super"@ && l != "T"@ && l != "Tab"@ && l != "U"@ && l != "V"@ && l != "W"@ && l != "X"@ && l != "Y"@ && l != "Z"@ && l != "["@ && l != "\\"@ && l != "]"@ && l != "`"@ && l != "←"@ && l != "↑"@ && l != "→"@ && l != "↓"@ && l != "↵"@ && l != "⇧"@ && l != "⌫"@ && l != "␣"@,
        l == "Alt"@ ==> l != "'"@ && l != "*"@ && l != ","@ && l != "-"@ && l != "."@ && l != "/"@ && l != "0"@ && l != "1"@ && l != "2"@ && l != "3"@ && l != "4"@ && l != "5"@ && l != "6"@ && l != "7"@ && l != "8"@ && l != "9"@ && l != ";"@ && l != "="@ && l != "A"@ && l != "B"@ && l != "C"@ && l != "Caps"@ && l != "Ctrl"@ && l != "D"@ && l != "Del"@ && l != "E"@ && l != "End"@ && l != "Esc"@ && l != "F"@ && l != "F1"@ && l != "F10"@ && l != "F11"@ && l != "F12"@ && l != "F2"@ && l != "F3"@ && l != "F4"@ && l != "F5"@ && l != "F6"@ && l != "F7"@ && l != "F8"@ && l != "F9"@ && l != "G"@ && l != "H"@ && l != "Home"@ && l != "I"@ && l != "Ins"@ && l != "J"@ && l != "K"@ && l != "L"@ && l != "M"@ && l != "N"@ && l != "O"@ && l != "P"@ && l != "PgDn"@ && l != "PgUp"@ && l != "Q"@ && l != "R"@ && l != "S"@ && l != "Super"@ && l != "T"@ && l != "Tab"@ && l != "U"@ && l != "V"@ && l != "W"@ && l != "X"@ && l != "Y"@ && l != "Z"@ && l != "["@ && l != "\\"@ && l != "]"@ && l != "`"@ && l != "←"@ && l != "↑"@ && l != "→"@ && l != "↓"@ && l != "↵"@ && l != "⇧"@ && l != "⌫"@ && l != "␣"@,
        l == "⇧"@ ==> l != "'"@ && l != "*"@ && l != ","@ && l != "-"@ && l != "."@ && l != "/"@ && l != "0"@ && l != "1"@ && l != "2"@ && l != "3"@ && l != "4"@ && l != "5"@ && l != "6"@ && l != "7"@ && l != "8"@ && l != "9"@ && l != ";"@ && l != "="@ && l != "A"@ && l != "Alt"@ && l != "B"@ && l != "C"@ && l != "Caps"@ && l != "Ctrl"@ && l != "D"@ && l != "Del"@ && l != "E"@ && l != "End"@ && l != "Esc"@ && l != "F"@ && l != "F1"@ && l != "F10"@ && l != "F11"@ && l != "F12"@ && l != "F2"@ && l != "F3"@ && l != "F4"@ && l != "F5"@ && l != "F6"@ && l != "F7"@ && l != "F8"@ && l != "F9"@ && l != "G"@ && l != "H"@ && l != "Home"@ && l != "I"@ && l != "Ins"@ && l != "J"@ && l != "K"@ && l != "L"@ && l != "M"@ && l != "N"@ && l != "O"@ && l != "P"@ && l != "PgDn"@ && l != "PgUp"@ && l != "Q"@ && l != "R"@ && l != "S"@ && l != "Super"@ && l != "T"@ && l != "Tab"@ && l != "U"@ && l != "V"@ && l != "W"@ && l != "X"@ && l != "Y"@ && l != "Z"@ && l != "["@ && l != "\\"@ && l != "]"@ && l != "`"@ && l != "←"@ && l != "↑"@ && l != "→"@ && l != "↓"@ && l != "↵"@ && l != "⌫"@ && l != "␣"@,
        l == "Super"@ ==> l != "'"@ && l != "*"@ && l != ","@ && l != "-"@ && l != "."@ && l != "/"@ && l != "0"@ && l != "1"@ && l != "2"@ && l != "3"@ && l != "4"@ && l != "5"@ && l != "6"@ && l != "7"@ && l != "8"@ && l != "9"@ && l != ";"@ && l != "="@ && l != "A"@ && l != "Alt"@ && l != "B"@ && l != "C"@ && l != "Caps"@ && l != "Ctrl"@ && l != "D"@ && l != "Del"@ && l != "E"@ && l != "End"@ && l != "Esc"@ && l != "F"@ && l != "F1"@ && l != "F10"@ && l != "F11"@ && l != "F12"@ && l != "F2"@ && l != "F3"@ && l != "F4"@ && l != "F5"@ && l != "F6"@ && l != "F7"@ && l != "F8"@ && l != "F9"@ && l != "G"@ && l != "H"@ && l != "Home"@ && l != "I"@ && l != "Ins"@ && l != "J"@ && l != "K"@ && l != "L"@ && l != "M"@ && l != "N"@ && l != "O"@ && l != "P"@ && l != "PgDn"@ && l != "PgUp"@ && l != "Q"@ && l != "R"@ && l != "S"@ && l != "T"@ && l != "Tab"@ && l != "U"@ && l != "V"@ && l != "W"@ && l != "X"@ && l != "Y"@ && l != "Z"@ && l != "["@ && l != "\\"@ && l != "]"@ && l != "`"@ && l != "←"@ && l != "↑"@ && l != "→"@ && l != "↓"@ && l != "↵"@ && l != "⇧"@ && l != "⌫"@ && l != "␣"@,
{
    reveal_strlit("'");
    reveal_strlit("*");
    reveal_strlit(",");
    reveal_strlit("-");
    reveal_strlit(".");
    reveal_strlit("/");
    reveal_strlit("0");
    reveal_strlit("1");
    reveal_strlit("2");
    reveal_strlit("3");
    reveal_strlit("4");
    reveal_strlit("5");
    reveal_strlit("6");
    reveal_strlit("7");
    reveal_strlit("8");
    reveal_strlit("9");
    reveal_strlit(";");
    reveal_strlit("=");
    reveal_strlit("A");
    reveal_strlit("Alt");
    reveal_strlit("B");
    reveal_strlit("C");
    reveal_strlit("Caps");
    reveal_strlit("Ctrl");
    reveal_strlit("D");
    reveal_strlit("Del");
    reveal_strlit("E");
    reveal_strlit("End");
    reveal_strlit("Esc");
    reveal_strlit("F");
    reveal_strlit("F1");
    reveal_strlit("F10");
    reveal_strlit("F11");
    reveal_strlit("F12");
    reveal_strlit("F2");
    reveal_strlit("F3");
    reveal_strlit("F4");
    reveal_strlit("F5");
    reveal_strlit("F6");
    reveal_strlit("F7");
    reveal_strlit("F8");
    reveal_strlit("F9");
    reveal_strlit("G");
    reveal_strlit("H");
    reveal_strlit("Home");
    reveal_strlit("I");
    reveal_strlit("Ins");
    reveal_strlit("J");
    reveal_strlit("K");
    reveal_strlit("L");
    reveal_strlit("M");
    reveal_strlit("N");
    reveal_strlit("O");
    reveal_strlit("P");
    reveal_strlit("PgDn");
    reveal_strlit("PgUp");
    reveal_strlit("Q");
    reveal_strlit("R");
    reveal_strlit("S");
    reveal_strlit("Super");
    reveal_strlit("T");
    reveal_strlit("Tab");
    reveal_strlit("U");
    reveal_strlit("V");
    reveal_strlit("W");
    reveal_strlit("X");
    reveal_strlit("Y");
    reveal_strlit("Z");
    reveal_strlit("[");
    reveal_strlit("\\");
    reveal_strlit("]");
    reveal_strlit("`");
    reveal_strlit("←");
    reveal_strlit("↑");
    reveal_strlit("→");
    reveal_strlit("↓");
    reveal_strlit("↵");
    reveal_strlit("⇧");
    reveal_strlit("⌫");
    reveal_strlit("␣");
    assert("'"@.len() != "Ctrl"@.len());
    assert("*"@.len() != "Ctrl"@.len());
    assert(","@.len() != "Ctrl"@.len());
    assert("-"@.len() != "Ctrl"@.len());
    assert("."@.len() != "Ctrl"@.len());
    assert("/"@.len() != "Ctrl"@.len());
    assert("0"@.len() != "Ctrl"@.len());
    assert("1"@.len() != "Ctrl"@.len());
    assert("2"@.len() != "Ctrl"@.len());
    assert("3"@.len() != "Ctrl"@.len());
    assert("4"@.len() != "Ctrl"@.len());
    assert("5"@.len() != "Ctrl"@.len());
    assert("6"@.len() != "Ctrl"@.len());
    assert("7"@.len() != "Ctrl"@.len());
    assert("8"@.len() != "Ctrl"@.len());
    assert("9"@.len() != "Ctrl"@.len());
    assert(";"@.len() != "Ctrl"@.len());
    assert("="@.len() != "Ctrl"@.len());
    assert("A"@.len() != "Ctrl"@.len());
    assert("Alt"@.len() != "Ctrl"@.len());
    assert("B"@.len() != "Ctrl"@.len());
    assert("C"@.len() != "Ctrl"@.len());
    assert("Caps"@[1] != "Ctrl"@[1]);
    assert("D"@.len() != "Ctrl"@.len());
    assert("Del"@.len() != "Ctrl"@.len());
    assert("E"@.len() != "Ctrl"@.len());
    assert("End"@.len() != "Ctrl"@.len());
    assert("Esc"@.len() != "Ctrl"@.len());
    assert("F"@.len() != "Ctrl"@.len());
    assert("F1"@.len() != "Ctrl"@.len());
    assert("F10"@.len() != "Ctrl"@.len());
    assert("F11"@.len() != "Ctrl"@.len());
    assert("F12"@.len() != "Ctrl"@.len());
    assert("F2"@.len() != "Ctrl"@.len());
    assert("F3"@.len() != "Ctrl"@.len());
    assert("F4"@.len() != "Ctrl"@.len());
    assert("F5"@.len() != "Ctrl"@.len());
    assert("F6"@.len() != "Ctrl"@.len());
    assert("F7"@.len() != "Ctrl"@.len());
    assert("F8"@.len() != "Ctrl"@.len());
    assert("F9"@.len() != "Ctrl"@.len());
    assert("G"@.len() != "Ctrl"@.len());
    assert("H"@.len() != "Ctrl"@.len());
    assert("Home"@[0] != "Ctrl"@[0]);
    assert("I"@.len() != "Ctrl"@.len());
    assert("Ins"@.len() != "Ctrl"@.len());
    assert("J"@.len() != "Ctrl"@.len());
    assert("K"@.len() != "Ctrl"@.len());
    assert("L"@.len() != "Ctrl"@.len());
    assert("M"@.len() != "Ctrl"@.len());
    assert("N"@.len() != "Ctrl"@.len());
    assert("O"@.len() != "Ctrl"@.len());
    assert("P"@.len() != "Ctrl"@.len());
    assert("PgDn"@[0] != "Ctrl"@[0]);
    assert("PgUp"@[0] != "Ctrl"@[0]);
    assert("Q"@.len() != "Ctrl"@.len());
    assert("R"@.len() != "Ctrl"@.len());
    assert("S"@.len() != "Ctrl"@.len());
    assert("Super"@.len() != "Ctrl"@.len());
    assert("T"@.len() != "Ctrl"@.len());
    assert("Tab"@.len() != "Ctrl"@.len());
    assert("U"@.len() != "Ctrl"@.len());
    assert("V"@.len() != "Ctrl"@.len());
    assert("W"@.len() != "Ctrl"@.len());
    assert("X"@.len() != "Ctrl"@.len());
    assert("Y"@.len() != "Ctrl"@.len());
    assert("Z"@.len() != "Ctrl"@.len());
    assert("["@.len() != "Ctrl"@.len());
    assert("\\"@.len() != "Ctrl"@.len());
    assert("]"@.len() != "Ctrl"@.len());
    assert("`"@.len() != "Ctrl"@.len());
    assert("←"@.len() != "Ctrl"@.len());
    assert("↑"@.len() != "Ctrl"@.len());
    assert("→"@.len() != "Ctrl"@.len());
    assert("↓"@.len() != "Ctrl"@.len());
    assert("↵"@.len() != "Ctrl"@.len());
    assert("⇧"@.len() != "Ctrl"@.len());
    assert("⌫"@.len() != "Ctrl"@.len());
    assert("␣"@.len() != "Ctrl"@.len());
    assert("'"@.len() != "Alt"@.len());
    assert("*"@.len() != "Alt"@.len());
    assert(","@.len() != "Alt"@.len());
    assert("-"@.len() != "Alt"@.len());
    assert("."@.len() != "Alt"@.len());
    assert("/"@.len() != "Alt"@.len());
    assert("0"@.len() != "Alt"@.len());
    assert("1"@.len() != "Alt"@.len());
    assert("2"@.len() != "Alt"@.len());
    assert("3"@.len() != "Alt"@.len());
    assert("4"@.len() != "Alt"@.len());
    assert("5"@.len() != "Alt"@.len());
    assert("6"@.len() != "Alt"@.len());
    assert("7"@.len() != "Alt"@.len());
    assert("8"@.len() != "Alt"@.len());
    assert("9"@.len() != "Alt"@.len());
    assert(";"@.len() != "Alt"@.len());
    assert("="@.len() != "Alt"@.len());
    assert("A"@.len() != "Alt"@.len());
    assert("B"@.len() != "Alt"@.len());
    assert("C"@.len() != "Alt"@.len());
    assert("Caps"@.len() != "Alt"@.len());
    assert("Ctrl"@.len() != "Alt"@.len());
    assert("D"@.len() != "Alt"@.len());
    assert("Del"@[0] != "Alt"@[0]);
    assert("E"@.len() != "Alt"@.len());
    assert("End"@[0] != "Alt"@[0]);
    assert("Esc"@[0] != "Alt"@[0]);
    assert("F"@.len() != "Alt"@.len());
    assert("F1"@.len() != "Alt"@.len());
    assert("F10"@[0] != "Alt"@[0]);
    assert("F11"@[0] != "Alt"@[0]);
    assert("F12"@[0] != "Alt"@[0]);
    assert("F2"@.len() != "Alt"@.len());
    assert("F3"@.len() != "Alt"@.len());
    assert("F4"@.len() != "Alt"@.len());
    assert("F5"@.len() != "Alt"@.len());
    assert("F6"@.len() != "Alt"@.len());
    assert("F7"@.len() != "Alt"@.len());
    assert("F8"@.len() != "Alt"@.len());
    assert("F9"@.len() != "Alt"@.len());
    assert("G"@.len() != "Alt"@.len());
    assert("H"@.len() != "Alt"@.len());
    assert("Home"@.len() != "Alt"@.len());
    assert("I"@.len() != "Alt"@.len());
    assert("Ins"@[0] != "Alt"@[0]);
    assert("J"@.len() != "Alt"@.len());
    assert("K"@.len() != "Alt"@.len());
    assert("L"@.len() != "Alt"@.len());
    assert("M"@.len() != "Alt"@.len());
    assert("N"@.len() != "Alt"@.len());
    assert("O"@.len() != "Alt"@.len());
    assert("P"@.len() != "Alt"@.len());
    assert("PgDn"@.len() != "Alt"@.len());
    assert("PgUp"@.len() != "Alt"@.len());
    assert("Q"@.len() != "Alt"@.len());
    assert("R"@.len() != "Alt"@.len());
    assert("S"@.len() != "Alt"@.len());
    assert("Super"@.len() != "Alt"@.len());
    assert("T"@.len() != "Alt"@.len());
    assert("Tab"@[0] != "Alt"@[0]);
    assert("U"@.len() != "Alt"@.len());
    assert("V"@.len() != "Alt"@.len());
    assert("W"@.len() != "Alt"@.len());
    assert("X"@.len() != "Alt"@.len());
    assert("Y"@.len() != "Alt"@.len());
    assert("Z"@.len() != "Alt"@.len());
    assert("["@.len() != "Alt"@.len());
    assert("\\"@.len() != "Alt"@.len());
    assert("]"@.len() != "Alt"@.len());
    assert("`"@.len() != "Alt"@.len());
    assert("←"@.len() != "Alt"@.len());
    assert("↑"@.len() != "Alt"@.len());
    assert("→"@.len() != "Alt"@.len());
    assert("↓"@.len() != "Alt"@.len());
    assert("↵"@.len() != "Alt"@.len());
    assert("⇧"@.len() != "Alt"@.len());
    assert("⌫"@.len() != "Alt"@.len());
    assert("␣"@.len() != "Alt"@.len());
    assert("'"@[0] != "⇧"@[0]);
    assert("*"@[0] != "⇧"@[0]);
    assert(","@[0] != "⇧"@[0]);
    assert("-"@[0] != "⇧"@[0]);
    assert("."@[0] != "⇧"@[0]);
    assert("/"@[0] != "⇧"@[0]);
    assert("0"@[0] != "⇧"@[0]);
    assert("1"@[0] != "⇧"@[0]);
    assert("2"@[0] != "⇧"@[0]);
    assert("3"@[0] != "⇧"@[0]);
    assert("4"@[0] != "⇧"@[0]);
    assert("5"@[0] != "⇧"@[0]);
    assert("6"@[0] != "⇧"@[0]);
    assert("7"@[0] != "⇧"@[0]);
    assert("8"@[0] != "⇧"@[0]);
    assert("9"@[0] != "⇧"@[0]);
    assert(";"@[0] != "⇧"@[0]);
    assert("="@[0] != "⇧"@[0]);
    assert("A"@[0] != "⇧"@[0]);
    assert("Alt"@.len() != "⇧"@.len());
    assert("B"@[0] != "⇧"@[0]);
    assert("C"@[0] != "⇧"@[0]);
    assert("Caps"@.len() != "⇧"@.len());
    assert("Ctrl"@.len() != "⇧"@.len());
    assert("D"@[0] != "⇧"@[0]);
    assert("Del"@.len() != "⇧"@.len());
    assert("E"@[0] != "⇧"@[0]);
    assert("End"@.len() != "⇧"@.len());
    assert("Esc"@.len() != "⇧"@.len());
    assert("F"@[0] != "⇧"@[0]);
    assert("F1"@.len() != "⇧"@.len());
    assert("F10"@.len() != "⇧"@.len());
    assert("F11"@.len() != "⇧"@.len());
    assert("F12"@.len() != "⇧"@.len());
    assert("F2"@.len() != "⇧"@.len());
    assert("F3"@.len() != "⇧"@.len());
    assert("F4"@.len() != "⇧"@.len());
    assert("F5"@.len() != "⇧"@.len());
    assert("F6"@.len() != "⇧"@.len());
    assert("F7"@.len() != "⇧"@.len());
    assert("F8"@.len() != "⇧"@.len());
    assert("F9"@.len() != "⇧"@.len());
    assert("G"@[0] != "⇧"@[0]);
    assert("H"@[0] != "⇧"@[0]);
    assert("Home"@.len() != "⇧"@.len());
    assert("I"@[0] != "⇧"@[0]);
    assert("Ins"@.len() != "⇧"@.len());
    assert("J"@[0] != "⇧"@[0]);
    assert("K"@[0] != "⇧"@[0]);
    assert("L"@[0] != "⇧"@[0]);
    assert("M"@[0] != "⇧"@[0]);
    assert("N"@[0] != "⇧"@[0]);
    assert("O"@[0] != "⇧"@[0]);
    assert("P"@[0] != "⇧"@[0]);
    assert("PgDn"@.len() != "⇧"@.len());
    assert("PgUp"@.len() != "⇧"@.len());
    assert("Q"@[0] != "⇧"@[0]);
    assert("R"@[0] != "⇧"@[0]);
    assert("S"@[0] != "⇧"@[0]);
    assert("Super"@.len() != "⇧"@.len());
    assert("T"@[0] != "⇧"@[0]);
    assert("Tab"@.len() != "⇧"@.len());
    assert("U"@[0] != "⇧"@[0]);
    assert("V"@[0] != "⇧"@[0]);
    assert("W"@[0] != "⇧"@[0]);
    assert("X"@[0] != "⇧"@[0]);
    assert("Y"@[0] != "⇧"@[0]);
    assert("Z"@[0] != "⇧"@[0]);
    assert("["@[0] != "⇧"@[0]);
    assert("\\"@[0] != "⇧"@[0]);
    assert("]"@[0] != "⇧"@[0]);
    assert("`"@[0] != "⇧"@[0]);
    assert("←"@[0] != "⇧"@[0]);
    assert("↑"@[0] != "⇧"@[0]);
    assert("→"@[0] != "⇧"@[0]);
    assert("↓"@[0] != "⇧"@[0]);
    assert("↵"@[0] != "⇧"@[0]);
    assert("⌫"@[0] != "⇧"@[0]);
    assert("␣"@[0] != "⇧"@[0]);
    assert("'"@.len() != "Super"@.len());
    assert("*"@.len() != "Super"@.len());
    assert(","@.len() != "Super"@.len());
    assert("-"@.len() != "Super"@.len());
    assert("."@.len() != "Super"@.len());
    assert("/"@.len() != "Super"@.len());
    assert("0"@.len() != "Super"@.len());
    assert("1"@.len() != "Super"@.len());
    assert("2"@.len() != "Super"@.len());
    assert("3"@.len() != "Super"@.len());
    assert("4"@.len() != "Super"@.len());
    assert("5"@.len() != "Super"@.len());
    assert("6"@.len() != "Super"@.len());
    assert("7"@.len() != "Super"@.len());
    assert("8"@.len() != "Super"@.len());
    assert("9"@.len() != "Super"@.len());
    assert(";"@.len() != "Super"@.len());
    assert("="@.len() != "Super"@.len());
    assert("A"@.len() != "Super"@.len());
    assert("Alt"@.len() != "Super"@.len());
    assert("B"@.len() != "Super"@.len());
    assert("C"@.len() != "Super"@.len());
    assert("Caps"@.len() != "Super"@.len());
    assert("Ctrl"@.len() != "Super"@.len());
    assert("D"@.len() != "Super"@.len());
    assert("Del"@.len() != "Super"@.len());
    assert("E"@.len() != "Super"@.len());
    assert("End"@.len() != "Super"@.len());
    assert("Esc"@.len() != "Super"@.len());
    assert("F"@.len() != "Super"@.len());
    assert("F1"@.len() != "Super"@.len());
    assert("F10"@.len() != "Super"@.len());
    assert("F11"@.len() != "Super"@.len());
    assert("F12"@.len() != "Super"@.len());
    assert("F2"@.len() != "Super"@.len());
    assert("F3"@.len() != "Super"@.len());
    assert("F4"@.len() != "Super"@.len());
    assert("F5"@.len() != "Super"@.len());
    assert("F6"@.len() != "Super"@.len());
    assert("F7"@.len() != "Super"@.len());
    assert("F8"@.len() != "Super"@.len());
    assert("F9"@.len() != "Super"@.len());
    assert("G"@.len() != "Super"@.len());
    assert("H"@.len() != "Super"@.len());
    assert("Home"@.len() != "Super"@.len());
    assert("I"@.len() != "Super"@.len());
    assert("Ins"@.len() != "Super"@.len());
    assert("J"@.len() != "Super"@.len());
    assert("K"@.len() != "Super"@.len());
    assert("L"@.len() != "Super"@.len());
    assert("M"@.len() != "Super"@.len());
    assert("N"@.len() != "Super"@.len());
    assert("O"@.len() != "Super"@.len());
    assert("P"@.len() != "Super"@.len());
    assert("PgDn"@.len() != "Super"@.len());
    assert("PgUp"@.len() != "Super"@.len());
    assert("Q"@.len() != "Super"@.len());
    assert("R"@.len() != "Super"@.len());
    assert("S"@.len() != "Super"@.len());
    assert("T"@.len() != "Super"@.len());
    assert("Tab"@.len() != "Super"@.len());
    assert("U"@.len() != "Super"@.len());
    assert("V"@.len() != "Super"@.len());
    assert("W"@.len() != "Super"@.len());
    assert("X"@.len() != "Super"@.len());
    assert("Y"@.len() != "Super"@.len());
    assert("Z"@.len() != "Super"@.len());
    assert("["@.len() != "Super"@.len());
    assert("\\"@.len() != "Super"@.len());
    assert("]"@.len() != "Super"@.len());
    assert("`"@.len() != "Super"@.len());
    assert("←"@.len() != "Super"@.len());
    assert("↑"@.len() != "Super"@.len());
    assert("→"@.len() != "Super"@.len());
    assert("↓"@.len() != "Super"@.len());
    assert("↵"@.len() != "Super"@.len());
    assert("⇧"@.len() != "Super"@.len());
    assert("⌫"@.len() != "Super"@.len());
    assert("␣"@.len() != "Super"@.len());
}

} // verus!
