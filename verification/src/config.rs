//! Display options of the keystroke overlay: palettes, overlay positions,
//! key display modes, and where an overlay at a given position is placed.
use vstd::prelude::*;

verus! {

/// Color palette preset for keystroke visualization
#[derive(Debug, Clone, Copy, PartialEq, Eq, Structural)]
pub enum PaletteType {
    Dark,
    Light,
    Frosted,
    Kiwi,
}

/// Position of the overlay on screen
#[derive(Debug, Clone, Copy, PartialEq, Eq, Structural)]
pub enum OverlayPosition {
    TopLeft,
    TopRight,
    BottomLeft,
    BottomRight,
    BottomCenter,
}

/// Key display mode - typed character vs physical key
#[derive(Debug, Clone, Copy, PartialEq, Eq, Structural)]
pub enum KeyDisplayMode {
    /// Show the typed character (e.g., "Shift+@")
    TypedCharacter,
    /// Show the physical key name (e.g., "Shift+2")
    PhysicalKey,
}

impl Default for PaletteType {
    fn default() -> (r: Self)
        ensures
            r == PaletteType::Dark,
    {
        PaletteType::Dark
    }
}

impl Default for OverlayPosition {
    fn default() -> (r: Self)
        ensures
            r == OverlayPosition::BottomLeft,
    {
        OverlayPosition::BottomLeft
    }
}

impl Default for KeyDisplayMode {
    fn default() -> (r: Self)
        ensures
            r == KeyDisplayMode::TypedCharacter,
    {
        KeyDisplayMode::TypedCharacter
    }
}

impl KeyDisplayMode {
    /// The modes in the order a settings list shows them.
    pub open spec fn spec_all() -> Seq<KeyDisplayMode> {
        seq![KeyDisplayMode::TypedCharacter, KeyDisplayMode::PhysicalKey]
    }

    pub open spec fn spec_name(self) -> Seq<char> {
        match self {
            KeyDisplayMode::TypedCharacter => "Typed Character"@,
            KeyDisplayMode::PhysicalKey => "Physical Key"@,
        }
    }

    pub open spec fn spec_example(self) -> Seq<char> {
        match self {
            KeyDisplayMode::TypedCharacter => "Shift+@"@,
            KeyDisplayMode::PhysicalKey => "Shift+2"@,
        }
    }

    /// Human readable name of the mode
    pub fn name(&self) -> (r: &'static str)
        ensures
            r@ == self.spec_name(),
    {
        match self {
            KeyDisplayMode::TypedCharacter => "Typed Character",
            KeyDisplayMode::PhysicalKey => "Physical Key",
        }
    }

    /// A sample of what the mode shows for Shift held with the `2` key
    pub fn example(&self) -> (r: &'static str)
        ensures
            r@ == self.spec_example(),
    {
        match self {
            KeyDisplayMode::TypedCharacter => "Shift+@",
            KeyDisplayMode::PhysicalKey => "Shift+2",
        }
    }

    /// All modes, in settings order.
    pub fn all() -> (r: Vec<KeyDisplayMode>)
        ensures
            r@ == Self::spec_all(),
    {
        let r = vec![KeyDisplayMode::TypedCharacter, KeyDisplayMode::PhysicalKey];
        assert(r@ =~= Self::spec_all());
        r
    }
}

impl OverlayPosition {
    /// The positions in the order a settings list shows them.
    pub open spec fn spec_all() -> Seq<OverlayPosition> {
        seq![
            OverlayPosition::TopLeft,
            OverlayPosition::TopRight,
            OverlayPosition::BottomLeft,
            OverlayPosition::BottomRight,
            OverlayPosition::BottomCenter,
        ]
    }

    pub open spec fn spec_name(self) -> Seq<char> {
        match self {
            OverlayPosition::TopLeft => "Top Left"@,
            OverlayPosition::TopRight => "Top Right"@,
            OverlayPosition::BottomLeft => "Bottom Left"@,
            OverlayPosition::BottomRight => "Bottom Right"@,
            OverlayPosition::BottomCenter => "Bottom Center"@,
        }
    }

    /// Human readable name of the position
    pub fn name(&self) -> (r: &'static str)
        ensures
            r@ == self.spec_name(),
    {
        match self {
            OverlayPosition::TopLeft => "Top Left",
            OverlayPosition::TopRight => "Top Right",
            OverlayPosition::BottomLeft => "Bottom Left",
            OverlayPosition::BottomRight => "Bottom Right",
            OverlayPosition::BottomCenter => "Bottom Center",
        }
    }

    /// All positions, in settings order.
    pub fn all() -> (r: Vec<OverlayPosition>)
        ensures
            r@ == Self::spec_all(),
    {
        let r = vec![
            OverlayPosition::TopLeft,
            OverlayPosition::TopRight,
            OverlayPosition::BottomLeft,
            OverlayPosition::BottomRight,
            OverlayPosition::BottomCenter,
        ];
        assert(r@ =~= Self::spec_all());
        r
    }

    pub open spec fn spec_alignment(self) -> (VerticalAlign, HorizontalAlign) {
        match self {
            OverlayPosition::TopLeft => (VerticalAlign::Top, HorizontalAlign::Left),
            OverlayPosition::TopRight => (VerticalAlign::Top, HorizontalAlign::Right),
            OverlayPosition::BottomLeft => (VerticalAlign::Bottom, HorizontalAlign::Left),
            OverlayPosition::BottomRight => (VerticalAlign::Bottom, HorizontalAlign::Right),
            OverlayPosition::BottomCenter => (VerticalAlign::Bottom, HorizontalAlign::Center),
        }
    }

    /// How the keystroke row is aligned inside a full-screen overlay surface.
    pub fn alignment(&self) -> (r: (VerticalAlign, HorizontalAlign))
        ensures
            r == self.spec_alignment(),
    {
        match self {
            OverlayPosition::TopLeft => (VerticalAlign::Top, HorizontalAlign::Left),
            OverlayPosition::TopRight => (VerticalAlign::Top, HorizontalAlign::Right),
            OverlayPosition::BottomLeft => (VerticalAlign::Bottom, HorizontalAlign::Left),
            OverlayPosition::BottomRight => (VerticalAlign::Bottom, HorizontalAlign::Right),
            OverlayPosition::BottomCenter => (VerticalAlign::Bottom, HorizontalAlign::Center),
        }
    }

    pub open spec fn spec_layer_placement(self) -> LayerPlacement {
        match self {
            OverlayPosition::TopLeft => LayerPlacement {
                anchor_top: true,
                anchor_bottom: false,
                anchor_left: true,
                anchor_right: false,
                margin_top: 20,
                margin_right: 0,
                margin_bottom: 0,
                margin_left: 20,
            },
            OverlayPosition::TopRight => LayerPlacement {
                anchor_top: true,
                anchor_bottom: false,
                anchor_left: false,
                anchor_right: true,
                margin_top: 20,
                margin_right: 20,
                margin_bottom: 0,
                margin_left: 0,
            },
            OverlayPosition::BottomLeft => LayerPlacement {
                anchor_top: false,
                anchor_bottom: true,
                anchor_left: true,
                anchor_right: false,
                margin_top: 0,
                margin_right: 0,
                margin_bottom: 20,
                margin_left: 20,
            },
            OverlayPosition::BottomRight => LayerPlacement {
                anchor_top: false,
                anchor_bottom: true,
                anchor_left: false,
                anchor_right: true,
                margin_top: 0,
                margin_right: 20,
                margin_bottom: 20,
                margin_left: 0,
            },
            OverlayPosition::BottomCenter => LayerPlacement {
                anchor_top: false,
                anchor_bottom: true,
                anchor_left: false,
                anchor_right: false,
                margin_top: 0,
                margin_right: 0,
                margin_bottom: 20,
                margin_left: 0,
            },
        }
    }

    /// Edges a sized overlay surface is anchored to, and its margins from them:
    /// corners anchor to their two edges 20 pixels in, the bottom center anchors
    /// to the bottom edge only.
    pub fn layer_placement(&self) -> (r: LayerPlacement)
        ensures
            r == self.spec_layer_placement(),
    {
        match self {
            OverlayPosition::TopLeft => LayerPlacement {
                anchor_top: true,
                anchor_bottom: false,
                anchor_left: true,
                anchor_right: false,
                margin_top: 20,
                margin_right: 0,
                margin_bottom: 0,
                margin_left: 20,
            },
            OverlayPosition::TopRight => LayerPlacement {
                anchor_top: true,
                anchor_bottom: false,
                anchor_left: false,
                anchor_right: true,
                margin_top: 20,
                margin_right: 20,
                margin_bottom: 0,
                margin_left: 0,
            },
            OverlayPosition::BottomLeft => LayerPlacement {
                anchor_top: false,
                anchor_bottom: true,
                anchor_left: true,
                anchor_right: false,
                margin_top: 0,
                margin_right: 0,
                margin_bottom: 20,
                margin_left: 20,
            },
            OverlayPosition::BottomRight => LayerPlacement {
                anchor_top: false,
                anchor_bottom: true,
                anchor_left: false,
                anchor_right: true,
                margin_top: 0,
                margin_right: 20,
                margin_bottom: 20,
                margin_left: 0,
            },
            OverlayPosition::BottomCenter => LayerPlacement {
                anchor_top: false,
                anchor_bottom: true,
                anchor_left: false,
                anchor_right: false,
                margin_top: 0,
                margin_right: 0,
                margin_bottom: 20,
                margin_left: 0,
            },
        }
    }
}

impl PaletteType {
    /// The palettes in the order a settings dropdown lists them.
    pub open spec fn spec_all() -> Seq<PaletteType> {
        seq![PaletteType::Dark, PaletteType::Light, PaletteType::Frosted, PaletteType::Kiwi]
    }

    pub open spec fn spec_name(self) -> Seq<char> {
        match self {
            PaletteType::Dark => "Dark"@,
            PaletteType::Light => "Light"@,
            PaletteType::Frosted => "Frosted"@,
            PaletteType::Kiwi => "Kiwi"@,
        }
    }

    /// Human readable name of the palette
    pub fn name(&self) -> (r: &'static str)
        ensures
            r@ == self.spec_name(),
    {
        match self {
            PaletteType::Dark => "Dark",
            PaletteType::Light => "Light",
            PaletteType::Frosted => "Frosted",
            PaletteType::Kiwi => "Kiwi",
        }
    }

    /// All palettes, in dropdown order.
    pub fn all() -> (r: Vec<PaletteType>)
        ensures
            r@ == Self::spec_all(),
    {
        let r = vec![PaletteType::Dark, PaletteType::Light, PaletteType::Frosted, PaletteType::Kiwi];
        assert(r@ =~= Self::spec_all());
        r
    }

    /// The palette at position `index` of the dropdown list, if the list is that long.
    pub open spec fn spec_from_index(index: int) -> Option<PaletteType> {
        if 0 <= index < Self::spec_all().len() {
            Some(Self::spec_all()[index])
        } else {
            None
        }
    }

    /// The first position of this palette in the dropdown list.
    pub open spec fn spec_index(self) -> int {
        match self {
            PaletteType::Dark => 0,
            PaletteType::Light => 1,
            PaletteType::Frosted => 2,
            PaletteType::Kiwi => 3,
        }
    }

    /// The palette at `index` of the dropdown, if there is one.
    pub fn from_index(index: usize) -> (r: Option<PaletteType>)
        ensures
            r == Self::spec_from_index(index as int),
    {
        match index {
            0 => Some(PaletteType::Dark),
            1 => Some(PaletteType::Light),
            2 => Some(PaletteType::Frosted),
            3 => Some(PaletteType::Kiwi),
            _ => None,
        }
    }

    /// The dropdown index of this palette: the first position of it in the list.
    pub fn index(&self) -> (r: usize)
        ensures
            r as int == self.spec_index(),
            r < Self::spec_all().len(),
            Self::spec_all()[r as int] == *self,
            forall|i: int| 0 <= i < r ==> Self::spec_all()[i] != *self,
    {
        match self {
            PaletteType::Dark => 0,
            PaletteType::Light => 1,
            PaletteType::Frosted => 2,
            PaletteType::Kiwi => 3,
        }
    }
}

/// Vertical alignment of the keystroke row inside the overlay surface.
#[derive(Debug, Clone, Copy, PartialEq, Eq, Structural)]
pub enum VerticalAlign {
    Top,
    Bottom,
}

/// Horizontal alignment of the keystroke row inside the overlay surface.
#[derive(Debug, Clone, Copy, PartialEq, Eq, Structural)]
pub enum HorizontalAlign {
    Left,
    Center,
    Right,
}

/// Anchoring of a sized layer surface: the screen edges it sticks to and its
/// margins (in pixels) from each edge.
#[derive(Debug, Clone, Copy, PartialEq, Eq, Structural)]
pub struct LayerPlacement {
    pub anchor_top: bool,
    pub anchor_bottom: bool,
    pub anchor_left: bool,
    pub anchor_right: bool,
    pub margin_top: i32,
    pub margin_right: i32,
    pub margin_bottom: i32,
    pub margin_left: i32,
}

/// Selecting the dropdown entry at a palette's index selects that palette again.
pub proof fn lemma_palette_index_round_trip(p: PaletteType)
    ensures
        PaletteType::spec_from_index(p.spec_index()) == Some(p),
{
}

/// An overlay position is named by its vertical and its horizontal side, and
/// the keystroke row is aligned to exactly those sides: top positions at the
/// top, left positions on the left, the bottom center centered. A sized
/// surface at that position is anchored to the same edges, 20 pixels in, and
/// has no margin from the edges it is not anchored to.
pub proof fn lemma_position_sides(p: OverlayPosition)
    ensures
        ({
            let (v, h) = p.spec_alignment();
            let vertical = match v {
                VerticalAlign::Top => "Top"@,
                VerticalAlign::Bottom => "Bottom"@,
            };
            let horizontal = match h {
                HorizontalAlign::Left => "Left"@,
                HorizontalAlign::Center => "Center"@,
                HorizontalAlign::Right => "Right"@,
            };
            let l = p.spec_layer_placement();
            &&& p.spec_name() == vertical + " "@ + horizontal
            &&& (p == OverlayPosition::TopLeft || p == OverlayPosition::TopRight) <==> v
                == VerticalAlign::Top
            &&& (p == OverlayPosition::TopLeft || p == OverlayPosition::BottomLeft) <==> h
                == HorizontalAlign::Left
            &&& (p == OverlayPosition::TopRight || p == OverlayPosition::BottomRight) <==> h
                == HorizontalAlign::Right
            &&& l.anchor_top <==> v == VerticalAlign::Top
            &&& l.anchor_bottom <==> v == VerticalAlign::Bottom
            &&& l.anchor_left <==> h == HorizontalAlign::Left
            &&& l.anchor_right <==> h == HorizontalAlign::Right
            &&& l.margin_top == if l.anchor_top { 20i32 } else { 0 }
            &&& l.margin_bottom == if l.anchor_bottom { 20i32 } else { 0 }
            &&& l.margin_left == if l.anchor_left { 20i32 } else { 0 }
            &&& l.margin_right == if l.anchor_right { 20i32 } else { 0 }
        }),
        OverlayPosition::spec_all().len() == 5,
        OverlayPosition::spec_all().contains(p),
{
    reveal_strlit("Top");
    reveal_strlit("Bottom");
    reveal_strlit("Left");
    reveal_strlit("Center");
    reveal_strlit("Right");
    reveal_strlit(" ");
    reveal_strlit("Top Left");
    reveal_strlit("Top Right");
    reveal_strlit("Bottom Left");
    reveal_strlit("Bottom Right");
    reveal_strlit("Bottom Center");
    assert("Top Left"@ =~= "Top"@ + " "@ + "Left"@);
    assert("Top Right"@ =~= "Top"@ + " "@ + "Right"@);
    assert("Bottom Left"@ =~= "Bottom"@ + " "@ + "Left"@);
    assert("Bottom Right"@ =~= "Bottom"@ + " "@ + "Right"@);
    assert("Bottom Center"@ =~= "Bottom"@ + " "@ + "Center"@);
    assert(OverlayPosition::spec_all()[0] == OverlayPosition::TopLeft);
    assert(OverlayPosition::spec_all()[1] == OverlayPosition::TopRight);
    assert(OverlayPosition::spec_all()[2] == OverlayPosition::BottomLeft);
    assert(OverlayPosition::spec_all()[3] == OverlayPosition::BottomRight);
    assert(OverlayPosition::spec_all()[4] == OverlayPosition::BottomCenter);
}

/// The palette dropdown lists Dark, Light, Frosted and Kiwi, in that order,
/// each under its own name, and a palette's index is its place in that list.
pub proof fn lemma_palette_list(p: PaletteType)
    ensures
        PaletteType::spec_all().len() == 4,
        PaletteType::spec_all()[0] == PaletteType::Dark && PaletteType::Dark.spec_name() == "Dark"@,
        PaletteType::spec_all()[1] == PaletteType::Light && PaletteType::Light.spec_name() == "Light"@,
        PaletteType::spec_all()[2] == PaletteType::Frosted && PaletteType::Frosted.spec_name()
            == "Frosted"@,
        PaletteType::spec_all()[3] == PaletteType::Kiwi && PaletteType::Kiwi.spec_name() == "Kiwi"@,
        0 <= p.spec_index() < 4 && PaletteType::spec_all()[p.spec_index()] == p,
{
}

/// The key display modes are listed typed character first, then physical
/// key; with Shift held on the `2` key the first shows the typed `@`, the
/// second the key's own `2`.
pub proof fn lemma_display_modes()
    ensures
        KeyDisplayMode::spec_all() == seq![KeyDisplayMode::TypedCharacter, KeyDisplayMode::PhysicalKey],
        KeyDisplayMode::TypedCharacter.spec_name() == "Typed Character"@,
        KeyDisplayMode::PhysicalKey.spec_name() == "Physical Key"@,
        KeyDisplayMode::TypedCharacter.spec_example() == "Shift+"@ + "@"@,
        KeyDisplayMode::PhysicalKey.spec_example() == "Shift+"@ + "2"@,
{
    reveal_strlit("Shift+@");
    reveal_strlit("Shift+2");
    reveal_strlit("Shift+");
    reveal_strlit("@");
    reveal_strlit("2");
    assert("Shift+@"@ =~= "Shift+"@ + "@"@);
    assert("Shift+2"@ =~= "Shift+"@ + "2"@);
}

} // verus!
