//! The compositor's XKB keyboard configuration and its active source.
use vstd::prelude::*;
use vstd::string::*;

verus! {

/// XKB configuration as the compositor stores it: comma-separated lists of
/// layouts and variants, the active source first.
#[derive(Debug, Clone, PartialEq, Eq)]
pub struct XkbConfig {
    pub rules: String,
    pub model: String,
    pub layout: String,
    pub variant: String,
    pub options: Option<String>,
}

impl Default for XkbConfig {
    fn default() -> (r: Self)
        ensures
            r.rules@ == Seq::<char>::empty(),
            r.model@ == Seq::<char>::empty(),
            r.layout@ == Seq::<char>::empty(),
            r.variant@ == Seq::<char>::empty(),
            r.options is None,
    {
        Self {
            rules: String::new(),
            model: String::new(),
            layout: String::new(),
            variant: String::new(),
            options: None,
        }
    }
}

/// One XKB source: a single layout and variant with the shared rules, model
/// and options.
#[derive(Debug, Clone, Copy, PartialEq, Eq)]
pub struct XkbSource<'a> {
    pub rules: &'a str,
    pub model: &'a str,
    pub layout: &'a str,
    pub variant: &'a str,
    pub options: Option<&'a str>,
}

/// Compositor configuration entry holding the XKB configuration.
#[derive(Debug, Clone, PartialEq, Eq)]
pub struct CosmicCompConfig {
    pub xkb_config: XkbConfig,
}

impl Default for CosmicCompConfig {
    fn default() -> (r: Self)
        ensures
            r.xkb_config.layout@ == Seq::<char>::empty(),
            r.xkb_config.variant@ == Seq::<char>::empty(),
            r.xkb_config.rules@ == Seq::<char>::empty(),
            r.xkb_config.model@ == Seq::<char>::empty(),
            r.xkb_config.options is None,
    {
        CosmicCompConfig { xkb_config: XkbConfig::default() }
    }
}

/// Number of characters of `s` before the first `sep` (all of `s` if there is none).
pub open spec fn field_end(s: Seq<char>, sep: char) -> int
    decreases s.len(),
{
    if s.len() == 0 {
        0
    } else if s[0] == sep {
        0
    } else {
        1 + field_end(s.drop_first(), sep)
    }
}

/// The first `sep`-separated field of `s`.
pub open spec fn first_field(s: Seq<char>, sep: char) -> Seq<char> {
    s.take(field_end(s, sep))
}

/// The first field of a list is the part before its first separator: a
/// prefix of the list without any separator, followed by a separator unless
/// it is the whole list.
pub proof fn lemma_first_field(s: Seq<char>, sep: char)
    ensures
        0 <= field_end(s, sep) <= s.len(),
        first_field(s, sep) == s.take(field_end(s, sep)),
        forall|j: int| 0 <= j < field_end(s, sep) ==> s[j] != sep,
        forall|j: int| 0 <= j < first_field(s, sep).len() ==> first_field(s, sep)[j] != sep,
        field_end(s, sep) < s.len() ==> s[field_end(s, sep)] == sep,
    decreases s.len(),
{
    if s.len() > 0 && s[0] != sep {
        lemma_first_field(s.drop_first(), sep);
        assert forall|j: int| 0 <= j < field_end(s, sep) implies s[j] != sep by {
            if j > 0 {
                assert(s[j] == s.drop_first()[j - 1]);
            }
        }
    }
}

/// The text of `s` up to (not including) its first comma.
fn first_comma_field(s: &str) -> (r: &str)
    ensures
        r@ == first_field(s@, ','),
{
    let n = s.unicode_len();
    let mut i: usize = 0;
    proof {
        assert(s@.skip(0) =~= s@);
    }
    while i < n
        invariant
            n == s@.len(),
            0 <= i <= n,
            field_end(s@, ',') == i + field_end(s@.skip(i as int), ','),
        ensures
            i <= n,
            field_end(s@, ',') == i,
        decreases n - i,
    {
        if s.get_char(i) == ',' {
            proof {
                assert(s@.skip(i as int)[0] == ',');
                assert(field_end(s@.skip(i as int), ',') == 0);
            }
            break;
        }
        proof {
            assert(s@.skip(i as int).drop_first() =~= s@.skip(i + 1));
        }
        i = i + 1;
    }
    s.substring_char(0, i)
}

impl XkbConfig {
    /// COSMIC's input-source applet keeps the active source first.
    pub fn active_source(&self) -> (r: XkbSource<'_>)
        ensures
            r.rules@ == self.rules@,
            r.model@ == self.model@,
            r.layout@ == first_field(self.layout@, ','),
            r.variant@ == first_field(self.variant@, ','),
            match (r.options, self.options) {
                (Some(o), Some(so)) => o@ == so@,
                (None, None) => true,
                _ => false,
            },
    {
        let layout = first_comma_field(self.layout.as_str());
        let variant = first_comma_field(self.variant.as_str());
        let options = match &self.options {
            Some(o) => Some(o.as_str()),
            None => None,
        };
        XkbSource { rules: self.rules.as_str(), model: self.model.as_str(), layout, variant, options }
    }
}

} // verus!
