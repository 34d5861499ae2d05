//! Window sets and colors, and the bit fields that the packed arguments of
//! the window and pen commands are made of.

use super::attrs::{ColorValue, Opacity};
use vstd::prelude::*;

verus! {

/// The bounds of the bit fields that are cut out of one byte.
pub proof fn lemma_field_bounds(b: u8)
    by (bit_vector)
    ensures
        b & 0x03 < 4,
        (b & 0x0C) >> 2 < 4,
        (b & 0x30) >> 4 < 4,
        (b & 0xC0) >> 6 < 4,
        b & 0x07 < 8,
        (b & 0x38) >> 3 < 8,
        b & 0x0F < 16,
        (b & 0xF0) >> 4 < 16,
        b & 0x3F < 64,
        b & 0x7F < 128,
{
}

/// The border type is split over two bytes; put together it is below 8.
pub proof fn lemma_border_bounds(b1: u8, b2: u8)
    by (bit_vector)
    ensures
        ((b1 & 0xC0) >> 6 | (b2 & 0x80) >> 5) < 8,
{
}

/// A set of the windows 0 to 7, one bit for each.
#[derive(Debug, Clone, Copy, PartialEq, Eq, PartialOrd, Ord, Structural)]
pub struct WindowBits(u8);

impl WindowBits {
    /// The byte whose bit `n` says whether window `n` is in the set.
    pub closed spec fn bits(self) -> u8 {
        self.0
    }

    /// The set that a byte stands for.
    pub closed spec fn of_bits(bits: u8) -> WindowBits {
        WindowBits(bits)
    }

    /// A set is the set of its own byte.
    pub proof fn lemma_bits_inverse(self)
        ensures
            WindowBits::of_bits(self.bits()) == self,
    {
    }

    /// A byte is the byte of the set it stands for.
    pub proof fn lemma_of_bits_inverse(bits: u8)
        ensures
            WindowBits::of_bits(bits).bits() == bits,
    {
    }

    /// The empty set.
    pub fn none() -> (r: WindowBits)
        ensures
            r.bits() == 0x00,
    {
        WindowBits(0x00)
    }

    /// The set that a byte stands for.
    pub fn from_u8(bits: u8) -> (r: WindowBits)
        ensures
            r == WindowBits::of_bits(bits),
            r.bits() == bits,
    {
        WindowBits(bits)
    }

    /// The set of window 0 alone.
    pub fn zero() -> (r: WindowBits)
        ensures
            r.bits() == 0x01,
    {
        WindowBits(0x01)
    }

    /// The set of window 1 alone.
    pub fn one() -> (r: WindowBits)
        ensures
            r.bits() == 0x02,
    {
        WindowBits(0x02)
    }

    /// The set of window 2 alone.
    pub fn two() -> (r: WindowBits)
        ensures
            r.bits() == 0x04,
    {
        WindowBits(0x04)
    }

    /// The set of window 3 alone.
    pub fn three() -> (r: WindowBits)
        ensures
            r.bits() == 0x08,
    {
        WindowBits(0x08)
    }

    /// The set of window 4 alone.
    pub fn four() -> (r: WindowBits)
        ensures
            r.bits() == 0x10,
    {
        WindowBits(0x10)
    }

    /// The set of window 5 alone.
    pub fn five() -> (r: WindowBits)
        ensures
            r.bits() == 0x20,
    {
        WindowBits(0x20)
    }

    /// The set of window 6 alone.
    pub fn six() -> (r: WindowBits)
        ensures
            r.bits() == 0x40,
    {
        WindowBits(0x40)
    }

    /// The set of window 7 alone.
    pub fn seven() -> (r: WindowBits)
        ensures
            r.bits() == 0x80,
    {
        WindowBits(0x80)
    }

    /// The byte that stands for this set.
    pub fn to_u8(self) -> (r: u8)
        ensures
            r == self.bits(),
    {
        self.0
    }

    /// The windows that are in either set.
    pub fn or(self, rhs: WindowBits) -> (r: WindowBits)
        ensures
            r.bits() == self.bits() | rhs.bits(),
    {
        WindowBits(self.0 | rhs.0)
    }

    /// The windows that are in both sets.
    pub fn and(self, rhs: WindowBits) -> (r: WindowBits)
        ensures
            r.bits() == self.bits() & rhs.bits(),
    {
        WindowBits(self.0 & rhs.0)
    }

    /// The windows that are not in this set.
    pub fn not(self) -> (r: WindowBits)
        ensures
            r.bits() == !self.bits(),
    {
        WindowBits(!self.0)
    }
}

impl Default for WindowBits {
    fn default() -> (r: WindowBits)
        ensures
            r.bits() == 0,
    {
        WindowBits(0)
    }
}

impl From<WindowBits> for u8 {
    fn from(windows: WindowBits) -> (r: u8) {
        windows.to_u8()
    }
}

impl vstd::std_specs::convert::FromSpecImpl<WindowBits> for u8 {
    open spec fn obeys_from_spec() -> bool {
        true
    }

    open spec fn from_spec(windows: WindowBits) -> u8 {
        windows.bits()
    }
}

impl From<u8> for WindowBits {
    fn from(bits: u8) -> (r: WindowBits) {
        WindowBits::from_u8(bits)
    }
}

impl vstd::std_specs::convert::FromSpecImpl<u8> for WindowBits {
    open spec fn obeys_from_spec() -> bool {
        true
    }

    open spec fn from_spec(bits: u8) -> WindowBits {
        WindowBits::of_bits(bits)
    }
}

impl From<WindowBits> for [u8; 1] {
    fn from(windows: WindowBits) -> (r: [u8; 1]) {
        [windows.to_u8()]
    }
}

impl vstd::std_specs::convert::FromSpecImpl<WindowBits> for [u8; 1] {
    open spec fn obeys_from_spec() -> bool {
        true
    }

    open spec fn from_spec(windows: WindowBits) -> [u8; 1] {
        [windows.bits()]
    }
}

impl From<[u8; 1]> for WindowBits {
    fn from(bits: [u8; 1]) -> (r: WindowBits) {
        WindowBits::from_u8(bits[0])
    }
}

impl vstd::std_specs::convert::FromSpecImpl<[u8; 1]> for WindowBits {
    open spec fn obeys_from_spec() -> bool {
        true
    }

    open spec fn from_spec(bits: [u8; 1]) -> WindowBits {
        WindowBits::of_bits(bits[0])
    }
}

/// An RGB color with two bits for each component.
#[derive(Debug, Clone, Copy, PartialEq, Eq, PartialOrd, Ord, Structural)]
pub struct Color {
    pub r: ColorValue,
    pub g: ColorValue,
    pub b: ColorValue,
}

impl Color {
    /// The six bits that encode this color: red, green, blue from the top.
    pub open spec fn bits(self) -> u8 {
        self.r.bits() << 4 | self.g.bits() << 2 | self.b.bits()
    }

    /// The color in the low six bits of `c`.
    pub open spec fn of_bits(c: u8) -> Color {
        Color {
            r: ColorValue::of_bits((c & 0x30) >> 4),
            g: ColorValue::of_bits((c & 0x0C) >> 2),
            b: ColorValue::of_bits(c & 0x03),
        }
    }

    /// The color with these components.
    pub fn new(r: ColorValue, g: ColorValue, b: ColorValue) -> (c: Color)
        ensures
            c == (Color { r, g, b }),
    {
        Color { r, g, b }
    }

    /// Black: no red, no green, no blue.
    pub open spec fn spec_black() -> Color {
        Color { r: ColorValue::Zero, g: ColorValue::Zero, b: ColorValue::Zero }
    }

    /// Black: no red, no green, no blue.
    #[verifier::when_used_as_spec(spec_black)]
    pub fn black() -> (c: Color)
        ensures
            c == Color::black(),
    {
        Color { r: ColorValue::Zero, g: ColorValue::Zero, b: ColorValue::Zero }
    }

    /// White: full red, green and blue.
    pub open spec fn spec_white() -> Color {
        Color { r: ColorValue::Full, g: ColorValue::Full, b: ColorValue::Full }
    }

    /// White: full red, green and blue.
    #[verifier::when_used_as_spec(spec_white)]
    pub fn white() -> (c: Color)
        ensures
            c == Color::white(),
    {
        Color { r: ColorValue::Full, g: ColorValue::Full, b: ColorValue::Full }
    }

    /// Full red.
    pub open spec fn spec_red() -> Color {
        Color { r: ColorValue::Full, g: ColorValue::Zero, b: ColorValue::Zero }
    }

    /// Full red.
    #[verifier::when_used_as_spec(spec_red)]
    pub fn red() -> (c: Color)
        ensures
            c == Color::red(),
    {
        Color { r: ColorValue::Full, g: ColorValue::Zero, b: ColorValue::Zero }
    }

    /// Full green.
    pub open spec fn spec_green() -> Color {
        Color { r: ColorValue::Zero, g: ColorValue::Full, b: ColorValue::Zero }
    }

    /// Full green.
    #[verifier::when_used_as_spec(spec_green)]
    pub fn green() -> (c: Color)
        ensures
            c == Color::green(),
    {
        Color { r: ColorValue::Zero, g: ColorValue::Full, b: ColorValue::Zero }
    }

    /// Full blue.
    pub open spec fn spec_blue() -> Color {
        Color { r: ColorValue::Zero, g: ColorValue::Zero, b: ColorValue::Full }
    }

    /// Full blue.
    #[verifier::when_used_as_spec(spec_blue)]
    pub fn blue() -> (c: Color)
        ensures
            c == Color::blue(),
    {
        Color { r: ColorValue::Zero, g: ColorValue::Zero, b: ColorValue::Full }
    }

    /// The six bits that encode this color.
    pub fn to_u8(self) -> (r: u8)
        ensures
            r == self.bits(),
    {
        self.r.to_u8() << 4 | self.g.to_u8() << 2 | self.b.to_u8()
    }

    /// The color in the low six bits of `c`.
    pub fn from_u8(c: u8) -> (r: Color)
        ensures
            r == Color::of_bits(c),
    {
        proof {
            lemma_field_bounds(c);
        }
        Color {
            r: ColorValue::from_u8((c & 0x30) >> 4),
            g: ColorValue::from_u8((c & 0x0C) >> 2),
            b: ColorValue::from_u8(c & 0x03),
        }
    }

    /// A color is the color of its own bits, which are below 64.
    pub proof fn lemma_bits_inverse(self)
        ensures
            Color::of_bits(self.bits()) == self,
            self.bits() < 64,
    {
        let (r, g, b) = (self.r.bits(), self.g.bits(), self.b.bits());
        self.r.lemma_bits_inverse();
        self.g.lemma_bits_inverse();
        self.b.lemma_bits_inverse();
        assert({
            let c = r << 4 | g << 2 | b;
            &&& (c & 0x30) >> 4 == r
            &&& (c & 0x0C) >> 2 == g
            &&& c & 0x03 == b
            &&& c < 64
        }) by (bit_vector)
            requires
                r < 4,
                g < 4,
                b < 4,
        ;
    }
}

impl From<Color> for u8 {
    fn from(color: Color) -> (r: u8) {
        color.to_u8()
    }
}

impl vstd::std_specs::convert::FromSpecImpl<Color> for u8 {
    open spec fn obeys_from_spec() -> bool {
        true
    }

    open spec fn from_spec(color: Color) -> u8 {
        color.bits()
    }
}

impl From<u8> for Color {
    fn from(bits: u8) -> (r: Color) {
        Color::from_u8(bits)
    }
}

impl vstd::std_specs::convert::FromSpecImpl<u8> for Color {
    open spec fn obeys_from_spec() -> bool {
        true
    }

    open spec fn from_spec(bits: u8) -> Color {
        Color::of_bits(bits)
    }
}

/// The byte that holds a color in its low six bits and an opacity above it.
pub open spec fn color_opacity_bits(color: Color, opacity: Opacity) -> u8 {
    opacity.bits() << 6 | color.bits()
}

/// The opacity in the top two bits of `b`.
pub open spec fn opacity_of_bits(b: u8) -> Opacity {
    Opacity::of_bits((b & 0xC0) >> 6)
}

/// A byte made of a color and an opacity gives both back.
pub proof fn lemma_color_opacity_inverse(color: Color, opacity: Opacity)
    ensures
        Color::of_bits(color_opacity_bits(color, opacity) & 0x3F) == color,
        Color::of_bits(color_opacity_bits(color, opacity)) == color,
        opacity_of_bits(color_opacity_bits(color, opacity)) == opacity,
{
    let c = color.bits();
    let o = opacity.bits();
    color.lemma_bits_inverse();
    opacity.lemma_bits_inverse();
    assert({
        let b = o << 6 | c;
        &&& b & 0x3F == c
        &&& (b & 0xC0) >> 6 == o
        &&& (b & 0x30) >> 4 == (c & 0x30) >> 4
        &&& (b & 0x0C) >> 2 == (c & 0x0C) >> 2
        &&& b & 0x03 == c & 0x03
    }) by (bit_vector)
        requires
            c < 64,
            o < 4,
    ;
}

pub(crate) fn color_opacity_to_u8(color: Color, opacity: Opacity) -> (r: u8)
    ensures
        r == color_opacity_bits(color, opacity),
{
    opacity.to_u8() << 6 | color.to_u8()
}

pub(crate) fn color_opacity_from_u8(b: u8) -> (r: (Color, Opacity))
    ensures
        r.0 == Color::of_bits(b & 0x3F),
        r.0 == Color::of_bits(b),
        r.1 == opacity_of_bits(b),
{
    proof {
        lemma_field_bounds(b);
        assert(((b & 0x3F) & 0x30) >> 4 == (b & 0x30) >> 4 && ((b & 0x3F) & 0x0C) >> 2 == (b & 0x0C)
            >> 2 && (b & 0x3F) & 0x03 == b & 0x03) by (bit_vector);
    }
    (Color::from_u8(b & 0x3F), Opacity::from_u8((b & 0xC0) >> 6))
}

pub(crate) fn flag(set: bool) -> (r: u8)
    ensures
        r == flag_bit(set),
{
    if set {
        1
    } else {
        0
    }
}

/// The bit that stands for a flag.
pub open spec fn flag_bit(set: bool) -> u8 {
    if set {
        1
    } else {
        0
    }
}

} // verus!
