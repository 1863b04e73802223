//! Window configuration: placement, size, margins, colors and border.
use smithay_client_toolkit::reexports::protocols::wlr::unstable::layer_shell::v1::client::zwlr_layer_surface_v1::Anchor;
use crate::error::RevereError;
use vstd::prelude::*;

verus! {

/// Wire value of the layer-shell `top` anchor edge.
pub const ANCHOR_TOP: u32 = 1;

/// Wire value of the layer-shell `bottom` anchor edge.
pub const ANCHOR_BOTTOM: u32 = 2;

/// Wire value of the layer-shell `left` anchor edge.
pub const ANCHOR_LEFT: u32 = 4;

/// Wire value of the layer-shell `right` anchor edge.
pub const ANCHOR_RIGHT: u32 = 8;

#[verifier::external_type_specification]
#[verifier::external_body]
pub struct ExAnchor(Anchor);

/// The layer-shell anchor set whose wire value is `bits`.
pub uninterp spec fn anchor_of(bits: u32) -> Anchor;

/// Relies on `Anchor::from_bits_truncate` (bitflags, as generated for the
/// layer-shell protocol): the anchor set is a function of its wire value.
#[verifier::external_body]
pub(crate) fn anchor_from_bits(bits: u32) -> (r: Anchor)
    ensures
        r == anchor_of(bits),
{
    Anchor::from_bits_truncate(bits)
}

/// Edge of the output that the window is anchored to.
#[derive(Clone, Copy, Debug, PartialEq, Eq, Structural)]
pub enum Placement {
    Top,
    Bottom,
    Right,
    Left,
}

impl Placement {
    /// Wire value of the anchor edge named by this placement.
    pub open spec fn bit(self) -> u32 {
        match self {
            Placement::Top => ANCHOR_TOP,
            Placement::Bottom => ANCHOR_BOTTOM,
            Placement::Right => ANCHOR_RIGHT,
            Placement::Left => ANCHOR_LEFT,
        }
    }

    /// Wire value of the anchor edge named by this placement.
    pub fn anchor_bit(&self) -> (r: u32)
        ensures
            r == self.bit(),
    {
        match self {
            Placement::Top => ANCHOR_TOP,
            Placement::Bottom => ANCHOR_BOTTOM,
            Placement::Right => ANCHOR_RIGHT,
            Placement::Left => ANCHOR_LEFT,
        }
    }

    /// This placement as a layer-shell anchor set holding one edge.
    pub fn as_anchor(&self) -> (r: Anchor)
        ensures
            r == anchor_of(self.bit()),
    {
        anchor_from_bits(self.anchor_bit())
    }
}

/// Where the window is placed: one anchor edge for each axis.
#[derive(Clone, Copy, Debug, PartialEq, Eq, Structural)]
pub struct WindowPlacement {
    /// Horizontal placement (`Left` or `Right`).
    pub x: Placement,
    /// Vertical placement (`Top` or `Bottom`).
    pub y: Placement,
}

impl WindowPlacement {
    /// The anchor bitmask of this placement: the union of both edges.
    pub open spec fn mask(self) -> u32 {
        self.x.bit() | self.y.bit()
    }

    /// The anchor bitmask of this placement: the union of both edges.
    pub fn anchor_mask(&self) -> (r: u32)
        ensures
            r == self.mask(),
    {
        self.x.anchor_bit() | self.y.anchor_bit()
    }

    /// The layer-shell anchor set of this placement.
    pub fn as_anchor(&self) -> (r: Anchor)
        ensures
            r == anchor_of(self.mask()),
    {
        anchor_from_bits(self.anchor_mask())
    }
}

/// The anchor bitmask of a placement is the union of the two edges' wire
/// values, and it does not depend on which axis names which edge.
pub proof fn lemma_anchor_mask_symmetric(a: Placement, b: Placement)
    ensures
        (WindowPlacement { x: a, y: b }).mask() == a.bit() | b.bit(),
        (WindowPlacement { x: a, y: b }).mask() == (WindowPlacement { x: b, y: a }).mask(),
        anchor_of((WindowPlacement { x: a, y: b }).mask()) == anchor_of(
            (WindowPlacement { x: b, y: a }).mask(),
        ),
{
    let (p, q) = (a.bit(), b.bit());
    assert(p | q == q | p) by (bit_vector);
}

/// Window size in pixels.
#[derive(Clone, Copy, Debug, PartialEq, Eq, Structural)]
pub struct WindowSize {
    /// How tall the window is.
    pub height: u32,
    /// How wide the window is.
    pub width: u32,
}

/// Window margins in pixels, away from the anchored edges.
#[derive(Clone, Copy, Debug, PartialEq, Eq, Structural)]
pub struct WindowMargin {
    pub top: i32,
    pub right: i32,
    pub bottom: i32,
    pub left: i32,
}

/// A color as three 8-bit channels; channel `c` stands for the intensity
/// `c / 255` on the unit scale.
#[derive(Clone, Copy, Debug, PartialEq, Eq, Structural)]
pub struct Rgb {
    pub red: u8,
    pub green: u8,
    pub blue: u8,
}

/// Background and foreground (text) colors.
#[derive(Clone, Copy, Debug, PartialEq, Eq, Structural)]
pub struct WindowColor {
    pub bg: Rgb,
    pub fg: Rgb,
}

/// The border stroked around the whole window.
#[derive(Clone, Copy, Debug, PartialEq, Eq, Structural)]
pub struct WindowBorder {
    pub color: Rgb,
    /// Opacity, where 255 is fully opaque and 0 fully transparent.
    pub alpha: u8,
    /// Line width in pixels.
    pub width: u32,
}

/// Notification window configuration.
#[derive(Clone, Copy, Debug, PartialEq, Eq, Structural)]
pub struct WindowConfig {
    /// Where to place the window.
    pub placement: WindowPlacement,
    /// How big the window is.
    pub size: WindowSize,
    /// Margins around the window.
    pub margin: WindowMargin,
    /// Colors of the window.
    pub color: WindowColor,
    /// Border around the window.
    pub border: WindowBorder,
    /// Text size.
    pub font_size: u8,
    /// How long the window is shown, in seconds.
    pub duration: u8,
}

/// The whole configuration.
#[derive(Clone, Copy, Debug, PartialEq, Eq, Structural)]
pub struct Config {
    pub window: WindowConfig,
}

impl Config {
    /// The configuration used when the user has none.
    pub open spec fn default_spec() -> Config {
        Config {
            window: WindowConfig {
                placement: WindowPlacement { x: Placement::Right, y: Placement::Top },
                size: WindowSize { height: 100, width: 200 },
                margin: WindowMargin { top: 10, right: 10, bottom: 0, left: 0 },
                color: WindowColor {
                    bg: Rgb { red: 255, green: 255, blue: 255 },
                    fg: Rgb { red: 0, green: 0, blue: 0 },
                },
                border: WindowBorder { color: Rgb { red: 0, green: 0, blue: 0 }, alpha: 255, width: 2 },
                font_size: 15,
                duration: 3,
            },
        }
    }

    /// Builds the configuration used when the user has none: a 200x100
    /// white window with black text in the top right corner, for 3 seconds.
    pub fn default() -> (r: Config)
        ensures
            r == Config::default_spec(),
    {
        Config {
            window: WindowConfig {
                placement: WindowPlacement { x: Placement::Right, y: Placement::Top },
                size: WindowSize { height: 100, width: 200 },
                margin: WindowMargin { top: 10, right: 10, bottom: 0, left: 0 },
                color: WindowColor {
                    bg: Rgb { red: 255, green: 255, blue: 255 },
                    fg: Rgb { red: 0, green: 0, blue: 0 },
                },
                border: WindowBorder { color: Rgb { red: 0, green: 0, blue: 0 }, alpha: 255, width: 2 },
                font_size: 15,
                duration: 3,
            },
        }
    }
}

/// Value of a hexadecimal digit, or -1 for any other character.
pub open spec fn hex_digit_value(c: char) -> int {
    if '0' <= c && c <= '9' {
        c as int - '0' as int
    } else if 'a' <= c && c <= 'f' {
        c as int - 'a' as int + 10
    } else if 'A' <= c && c <= 'F' {
        c as int - 'A' as int + 10
    } else {
        -1
    }
}

/// `s` is written `#RRGGBB`: a `#` and six hexadecimal digits.
pub open spec fn is_hex_color(s: Seq<char>) -> bool {
    &&& s.len() == 7
    &&& s[0] == '#'
    &&& forall|i: int| 1 <= i < 7 ==> hex_digit_value(#[trigger] s[i]) >= 0
}

/// The byte written by the two hexadecimal digits at `i` and `i + 1`.
pub open spec fn hex_byte(s: Seq<char>, i: int) -> int {
    16 * hex_digit_value(s[i]) + hex_digit_value(s[i + 1])
}

/// The color that a `#RRGGBB` string names.
pub open spec fn rgb_of_hex(s: Seq<char>) -> Rgb {
    Rgb { red: hex_byte(s, 1) as u8, green: hex_byte(s, 3) as u8, blue: hex_byte(s, 5) as u8 }
}

/// Value of the hexadecimal digit `c`, if it is one.
fn hex_digit(c: char) -> (r: Option<u8>)
    ensures
        r is Some <==> hex_digit_value(c) >= 0,
        r is Some ==> r->0 == hex_digit_value(c) && r->0 < 16,
{
    if '0' <= c && c <= '9' {
        Some((c as u32 - '0' as u32) as u8)
    } else if 'a' <= c && c <= 'f' {
        Some((c as u32 - 'a' as u32 + 10) as u8)
    } else if 'A' <= c && c <= 'F' {
        Some((c as u32 - 'A' as u32 + 10) as u8)
    } else {
        None
    }
}

/// Parses a `#RRGGBB` color; each channel is the byte its two digits write.
pub fn hex_to_rgb(value: &str) -> (r: Result<Rgb, RevereError>)
    ensures
        r is Ok <==> is_hex_color(value@),
        r is Ok ==> r->Ok_0 == rgb_of_hex(value@),
        r is Err ==> r->Err_0 == RevereError::InvalidColor,
{
    let n = value.unicode_len();
    if n != 7 || value.get_char(0) != '#' {
        return Err(RevereError::InvalidColor);
    }
    let mut digits: Vec<u8> = Vec::new();
    let mut i: usize = 1;
    while i < 7
        invariant
            1 <= i <= 7,
            n == 7 == value@.len(),
            digits@.len() == i - 1,
            forall|j: int| 1 <= j < i ==> hex_digit_value(#[trigger] value@[j]) >= 0,
            forall|j: int| 1 <= j < i ==> digits@[j - 1] == hex_digit_value(#[trigger] value@[j]),
            forall|k: int| 0 <= k < digits@.len() ==> #[trigger] digits@[k] < 16,
        decreases 7 - i,
    {
        match hex_digit(value.get_char(i)) {
            Some(d) => digits.push(d),
            None => return Err(RevereError::InvalidColor),
        }
        i = i + 1;
    }
    let red = digits[0] * 16 + digits[1];
    let green = digits[2] * 16 + digits[3];
    let blue = digits[4] * 16 + digits[5];
    Ok(Rgb { red, green, blue })
}

} // verus!
