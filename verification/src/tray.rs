//! System tray presentation: the actions its menu sends, the texts it shows
//! for the active and inactive states, and its icon pixels.
use vstd::prelude::*;
use vstd::string::*;

verus! {

/// Actions that can be triggered from the tray menu
#[derive(Debug, Clone, Copy, PartialEq, Eq, Structural)]
pub enum TrayAction {
    ShowSettings,
    ToggleActive,
    Quit,
}

/// One entry of the tray menu.
#[derive(Debug)]
pub enum MenuEntry {
    /// A clickable item with its label and the action it sends
    Item(String, TrayAction),
    /// A separator line
    Separator,
}

/// What a tray menu entry shows: a labelled action or a separator.
pub enum MenuEntryView {
    Item(Seq<char>, TrayAction),
    Separator,
}

impl View for MenuEntry {
    type V = MenuEntryView;

    open spec fn view(&self) -> MenuEntryView {
        match self {
            MenuEntry::Item(label, action) => MenuEntryView::Item(label@, *action),
            MenuEntry::Separator => MenuEntryView::Separator,
        }
    }
}

/// Tray icon pixels: ARGB32 bytes in network byte order, row by row.
#[derive(Debug)]
pub struct IconPixmap {
    pub width: i32,
    pub height: i32,
    pub data: Vec<u8>,
}

/// The tray icon state: whether keystroke visualization is active
#[derive(Debug, Clone, Copy, PartialEq, Eq, Structural)]
pub struct TrayState {
    pub active: bool,
}

impl TrayState {
    pub open spec fn spec_tooltip_description(self) -> Seq<char> {
        if self.active {
            "Active - Keystrokes are being visualized"@
        } else {
            "Inactive - Click to configure"@
        }
    }

    pub open spec fn spec_menu(self) -> Seq<MenuEntryView> {
        seq![
            MenuEntryView::Item("Settings..."@, TrayAction::ShowSettings),
            MenuEntryView::Separator,
            MenuEntryView::Item(
                if self.active { "Deactivate"@ } else { "Activate"@ },
                TrayAction::ToggleActive,
            ),
            MenuEntryView::Separator,
            MenuEntryView::Item("Quit"@, TrayAction::Quit),
        ]
    }

    /// Tray state showing `active`
    pub fn new(active: bool) -> (r: Self)
        ensures
            r.active == active,
    {
        TrayState { active }
    }

    /// Show the given activity state from now on
    pub fn set_active(&mut self, active: bool)
        ensures
            final(self).active == active,
    {
        self.active = active;
    }

    /// Identifier of the tray item
    pub fn id(&self) -> (r: String)
        ensures
            r@ == "dev.hojjat.kiwi"@,
    {
        String::from_str("dev.hojjat.kiwi")
    }

    /// Title of the tray item
    pub fn title(&self) -> (r: String)
        ensures
            r@ == "Kiwi"@,
    {
        String::from_str("Kiwi")
    }

    /// Themed icon name for the current state
    pub fn icon_name(&self) -> (r: String)
        ensures
            r@ == (if self.active { "kiwi-on"@ } else { "kiwi-off"@ }),
    {
        if self.active {
            String::from_str("kiwi-on")
        } else {
            String::from_str("kiwi-off")
        }
    }

    /// Title of the tooltip
    pub fn tooltip_title(&self) -> (r: String)
        ensures
            r@ == "Kiwi Keystroke Visualizer"@,
    {
        String::from_str("Kiwi Keystroke Visualizer")
    }

    /// Description line of the tooltip for the current state
    pub fn tooltip_description(&self) -> (r: String)
        ensures
            r@ == self.spec_tooltip_description(),
    {
        if self.active {
            String::from_str("Active - Keystrokes are being visualized")
        } else {
            String::from_str("Inactive - Click to configure")
        }
    }

    /// Action sent when the tray icon itself is clicked: open the settings.
    pub fn activate(&self) -> (r: TrayAction)
        ensures
            r == TrayAction::ShowSettings,
    {
        TrayAction::ShowSettings
    }

    /// The tray menu: settings, then toggling activity, then quitting, with
    /// separators between them.
    pub fn menu(&self) -> (r: Vec<MenuEntry>)
        ensures
            r@.map_values(|e: MenuEntry| e@) == self.spec_menu(),
    {
        let toggle = if self.active {
            String::from_str("Deactivate")
        } else {
            String::from_str("Activate")
        };
        let r = vec![
            MenuEntry::Item(String::from_str("Settings..."), TrayAction::ShowSettings),
            MenuEntry::Separator,
            MenuEntry::Item(toggle, TrayAction::ToggleActive),
            MenuEntry::Separator,
            MenuEntry::Item(String::from_str("Quit"), TrayAction::Quit),
        ];
        assert(r@.map_values(|e: MenuEntry| e@) =~= self.spec_menu());
        r
    }
}

/// What `image` decodes from PNG bytes `png`, converted to 8-bit RGBA: the
/// width, the height and the channel bytes of the pixels row by row, or `None`
/// when the bytes do not decode.
pub uninterp spec fn png_rgba_decode(png: Seq<u8>) -> Option<(u32, u32, Seq<u8>)>;

/// Calls `image::load_from_memory_with_format(png, ImageFormat::Png)` and
/// `to_rgba8()`, and hands out the dimensions and the channel bytes of the
/// pixels in iteration order. The contract only names the result, which
/// depends on the bytes alone.
#[verifier::external_body]
fn decode_png_rgba(png: &[u8]) -> (r: Option<(u32, u32, Vec<u8>)>)
    ensures
        match r {
            Some((w, h, data)) => png_rgba_decode(png@) == Some((w, h, data@)),
            None => png_rgba_decode(png@) is None,
        },
{
    match image::load_from_memory_with_format(png, image::ImageFormat::Png) {
        Ok(img) => {
            let rgba = img.to_rgba8();
            Some((rgba.width(), rgba.height(), rgba.pixels().flat_map(|p| p.0).collect()))
        },
        Err(_) => None,
    }
}

/// `rgba` with every whole 4-byte pixel reordered from R, G, B, A to A, R, G, B
/// (a trailing partial pixel is dropped).
pub open spec fn argb_from_rgba(rgba: Seq<u8>) -> Seq<u8> {
    Seq::new(
        (rgba.len() / 4) * 4,
        |i: int|
            {
                let p = (i / 4) * 4;
                let c = i % 4;
                if c == 0 {
                    rgba[p + 3]
                } else {
                    rgba[p + c - 1]
                }
            },
    )
}

/// Reorder RGBA pixel bytes into the ARGB order the tray protocol expects.
pub fn rgba_to_argb(rgba: &Vec<u8>) -> (r: Vec<u8>)
    ensures
        r@ == argb_from_rgba(rgba@),
{
    let n = rgba.len();
    let pixels = n / 4;
    let mut out: Vec<u8> = Vec::new();
    let mut i: usize = 0;
    while i < pixels
        invariant
            n == rgba@.len(),
            pixels == n / 4,
            0 <= i <= pixels,
            out@.len() == 4 * i,
            forall|j: int| 0 <= j < 4 * i ==> out@[j] == #[trigger] argb_from_rgba(rgba@)[j],
        decreases pixels - i,
    {
        proof {
            let len = rgba@.len() as int;
            assert(4 * i + 3 < len) by (nonlinear_arith)
                requires
                    i < pixels,
                    pixels == len / 4,
                    len >= 0,
            ;
        }
        let base = 4 * i;
        let r = rgba[base];
        let g = rgba[base + 1];
        let b = rgba[base + 2];
        let a = rgba[base + 3];
        out.push(a);
        out.push(r);
        out.push(g);
        out.push(b);
        proof {
            let spec = argb_from_rgba(rgba@);
            assert forall|j: int| 0 <= j < 4 * (i + 1) implies out@[j] == #[trigger] spec[j] by {
                if j >= 4 * i {
                    assert((j / 4) * 4 == 4 * i) by (nonlinear_arith)
                        requires
                            4 * i <= j < 4 * i + 4,
                    ;
                }
            }
        }
        i = i + 1;
    }
    proof {
        assert(out@ =~= argb_from_rgba(rgba@));
    }
    out
}

/// The tray icon decoded from PNG bytes: one ARGB pixmap, or none when the
/// bytes do not decode as a PNG image.
pub fn load_icon_pixmap(png_data: &[u8]) -> (r: Vec<IconPixmap>)
    ensures
        match png_rgba_decode(png_data@) {
            Some((w, h, rgba)) => r@.len() == 1 && r@[0].width == w as i32 && r@[0].height
                == h as i32 && r@[0].data@ == argb_from_rgba(rgba),
            None => r@.len() == 0,
        },
{
    match decode_png_rgba(png_data) {
        Some((w, h, rgba)) => {
            let data = rgba_to_argb(&rgba);
            vec![IconPixmap { width: w as i32, height: h as i32, data }]
        },
        None => Vec::new(),
    }
}

/// Every whole pixel keeps its four bytes and only moves alpha to the front:
/// pixel `k` of the result is alpha, red, green, blue of pixel `k` of the
/// input; a trailing partial pixel is dropped.
pub proof fn lemma_argb_pixels(rgba: Seq<u8>, k: int)
    ensures
        argb_from_rgba(rgba).len() == rgba.len() - rgba.len() % 4,
        0 <= k < rgba.len() / 4 ==> {
            let r = argb_from_rgba(rgba);
            &&& r[4 * k] == rgba[4 * k + 3]
            &&& r[4 * k + 1] == rgba[4 * k]
            &&& r[4 * k + 2] == rgba[4 * k + 1]
            &&& r[4 * k + 3] == rgba[4 * k + 2]
        },
{
    let n = rgba.len() as int;
    assert((n / 4) * 4 == n - n % 4) by (nonlinear_arith)
        requires
            n >= 0,
    ;
    if 0 <= k < n / 4 {
        assert((4 * k) / 4 == k && (4 * k) % 4 == 0) by (nonlinear_arith)
            requires
                k >= 0,
        ;
        assert((4 * k + 1) / 4 == k && (4 * k + 1) % 4 == 1) by (nonlinear_arith)
            requires
                k >= 0,
        ;
        assert((4 * k + 2) / 4 == k && (4 * k + 2) % 4 == 2) by (nonlinear_arith)
            requires
                k >= 0,
        ;
        assert((4 * k + 3) / 4 == k && (4 * k + 3) % 4 == 3) by (nonlinear_arith)
            requires
                k >= 0,
        ;
        assert(4 * k + 3 < (n / 4) * 4) by (nonlinear_arith)
            requires
                0 <= k < n / 4,
        ;
    }
}

/// The menu is the same in both states but for its toggle entry: Settings
/// first and Quit last, separated from the toggle in the middle, which offers
/// the opposite of the current state ("Deactivate" while active, "Activate"
/// while inactive).
pub proof fn lemma_tray_menu(state: TrayState)
    ensures
        state.spec_menu().len() == 5,
        state.spec_menu()[0] == MenuEntryView::Item("Settings..."@, TrayAction::ShowSettings),
        state.spec_menu()[1] is Separator && state.spec_menu()[3] is Separator,
        state.spec_menu()[2] == MenuEntryView::Item(
            if state.active { "Deactivate"@ } else { "Activate"@ },
            TrayAction::ToggleActive,
        ),
        state.spec_menu()[4] == MenuEntryView::Item("Quit"@, TrayAction::Quit),
        state.spec_tooltip_description() == if state.active {
            "Active - Keystrokes are being visualized"@
        } else {
            "Inactive - Click to configure"@
        },
{
}

} // verus!
