//! The enumerated fields of the window and pen commands.
//!
//! Every field is a small number on the wire. Each enumeration here lists one
//! value for every number that its field can hold, so the conversion between
//! the two is one to one.

use vstd::prelude::*;

verus! {

/// The point of a window that its anchor coordinates refer to.
#[derive(Debug, Clone, Copy, PartialEq, Eq, PartialOrd, Ord, Structural)]
pub enum Anchor {
    TopLeft,
    TopMiddle,
    TopRight,
    CenterLeft,
    CenterMiddle,
    CenterRight,
    BottomLeft,
    BottomMiddle,
    BottomRight,
    Undefined9,
    Undefined10,
    Undefined11,
    Undefined12,
    Undefined13,
    Undefined14,
    Undefined15,
}

impl Anchor {
    /// The number of the 4-bit field that encodes this anchor point.
    pub open spec fn bits(self) -> u8 {
        match self {
            Anchor::TopLeft => 0,
            Anchor::TopMiddle => 1,
            Anchor::TopRight => 2,
            Anchor::CenterLeft => 3,
            Anchor::CenterMiddle => 4,
            Anchor::CenterRight => 5,
            Anchor::BottomLeft => 6,
            Anchor::BottomMiddle => 7,
            Anchor::BottomRight => 8,
            Anchor::Undefined9 => 9,
            Anchor::Undefined10 => 10,
            Anchor::Undefined11 => 11,
            Anchor::Undefined12 => 12,
            Anchor::Undefined13 => 13,
            Anchor::Undefined14 => 14,
            Anchor::Undefined15 => 15,
        }
    }

    /// The anchor point that a 4-bit field encodes.
    pub open spec fn of_bits(v: u8) -> Anchor
        recommends
            v < 16,
    {
        match v {
            0 => Anchor::TopLeft,
            1 => Anchor::TopMiddle,
            2 => Anchor::TopRight,
            3 => Anchor::CenterLeft,
            4 => Anchor::CenterMiddle,
            5 => Anchor::CenterRight,
            6 => Anchor::BottomLeft,
            7 => Anchor::BottomMiddle,
            8 => Anchor::BottomRight,
            9 => Anchor::Undefined9,
            10 => Anchor::Undefined10,
            11 => Anchor::Undefined11,
            12 => Anchor::Undefined12,
            13 => Anchor::Undefined13,
            14 => Anchor::Undefined14,
            _ => Anchor::Undefined15,
        }
    }

    /// The number that encodes this anchor point.
    pub fn to_u8(self) -> (r: u8)
        ensures
            r == self.bits(),
            r < 16,
    {
        match self {
            Anchor::TopLeft => 0,
            Anchor::TopMiddle => 1,
            Anchor::TopRight => 2,
            Anchor::CenterLeft => 3,
            Anchor::CenterMiddle => 4,
            Anchor::CenterRight => 5,
            Anchor::BottomLeft => 6,
            Anchor::BottomMiddle => 7,
            Anchor::BottomRight => 8,
            Anchor::Undefined9 => 9,
            Anchor::Undefined10 => 10,
            Anchor::Undefined11 => 11,
            Anchor::Undefined12 => 12,
            Anchor::Undefined13 => 13,
            Anchor::Undefined14 => 14,
            Anchor::Undefined15 => 15,
        }
    }

    /// The anchor point that `v` encodes.
    pub fn from_u8(v: u8) -> (r: Anchor)
        requires
            v < 16,
        ensures
            r == Anchor::of_bits(v),
            r.bits() == v,
    {
        match v {
            0 => Anchor::TopLeft,
            1 => Anchor::TopMiddle,
            2 => Anchor::TopRight,
            3 => Anchor::CenterLeft,
            4 => Anchor::CenterMiddle,
            5 => Anchor::CenterRight,
            6 => Anchor::BottomLeft,
            7 => Anchor::BottomMiddle,
            8 => Anchor::BottomRight,
            9 => Anchor::Undefined9,
            10 => Anchor::Undefined10,
            11 => Anchor::Undefined11,
            12 => Anchor::Undefined12,
            13 => Anchor::Undefined13,
            14 => Anchor::Undefined14,
            _ => Anchor::Undefined15,
        }
    }

    /// Every anchor point is the value of its own number, which is below 16.
    pub proof fn lemma_bits_inverse(self)
        ensures
            Anchor::of_bits(self.bits()) == self,
            self.bits() < 16,
    {
    }

    /// Every number below 16 is the number of the anchor point it encodes.
    pub proof fn lemma_of_bits_inverse(v: u8)
        requires
            v < 16,
        ensures
            Anchor::of_bits(v).bits() == v,
    {
    }
}

impl From<Anchor> for u8 {
    fn from(value: Anchor) -> (r: u8) {
        value.to_u8()
    }
}

impl vstd::std_specs::convert::FromSpecImpl<Anchor> for u8 {
    open spec fn obeys_from_spec() -> bool {
        true
    }

    open spec fn from_spec(value: Anchor) -> u8 {
        value.bits()
    }
}

/// How text is justified inside a window.
#[derive(Debug, Clone, Copy, PartialEq, Eq, PartialOrd, Ord, Structural)]
pub enum Justify {
    Left,
    Right,
    Center,
    Full,
}

impl Justify {
    /// The number of the 2-bit field that encodes this justification.
    pub open spec fn bits(self) -> u8 {
        match self {
            Justify::Left => 0,
            Justify::Right => 1,
            Justify::Center => 2,
            Justify::Full => 3,
        }
    }

    /// The justification that a 2-bit field encodes.
    pub open spec fn of_bits(v: u8) -> Justify
        recommends
            v < 4,
    {
        match v {
            0 => Justify::Left,
            1 => Justify::Right,
            2 => Justify::Center,
            _ => Justify::Full,
        }
    }

    /// The number that encodes this justification.
    pub fn to_u8(self) -> (r: u8)
        ensures
            r == self.bits(),
            r < 4,
    {
        match self {
            Justify::Left => 0,
            Justify::Right => 1,
            Justify::Center => 2,
            Justify::Full => 3,
        }
    }

    /// The justification that `v` encodes.
    pub fn from_u8(v: u8) -> (r: Justify)
        requires
            v < 4,
        ensures
            r == Justify::of_bits(v),
            r.bits() == v,
    {
        match v {
            0 => Justify::Left,
            1 => Justify::Right,
            2 => Justify::Center,
            _ => Justify::Full,
        }
    }

    /// Every justification is the value of its own number, which is below 4.
    pub proof fn lemma_bits_inverse(self)
        ensures
            Justify::of_bits(self.bits()) == self,
            self.bits() < 4,
    {
    }

    /// Every number below 4 is the number of the justification it encodes.
    pub proof fn lemma_of_bits_inverse(v: u8)
        requires
            v < 4,
        ensures
            Justify::of_bits(v).bits() == v,
    {
    }
}

impl From<Justify> for u8 {
    fn from(value: Justify) -> (r: u8) {
        value.to_u8()
    }
}

impl vstd::std_specs::convert::FromSpecImpl<Justify> for u8 {
    open spec fn obeys_from_spec() -> bool {
        true
    }

    open spec fn from_spec(value: Justify) -> u8 {
        value.bits()
    }
}

/// A direction, for printing, scrolling and display effects.
#[derive(Debug, Clone, Copy, PartialEq, Eq, PartialOrd, Ord, Structural)]
pub enum Direction {
    LeftToRight,
    RightToLeft,
    TopToBottom,
    BottomToTop,
}

impl Direction {
    /// The number of the 2-bit field that encodes this direction.
    pub open spec fn bits(self) -> u8 {
        match self {
            Direction::LeftToRight => 0,
            Direction::RightToLeft => 1,
            Direction::TopToBottom => 2,
            Direction::BottomToTop => 3,
        }
    }

    /// The direction that a 2-bit field encodes.
    pub open spec fn of_bits(v: u8) -> Direction
        recommends
            v < 4,
    {
        match v {
            0 => Direction::LeftToRight,
            1 => Direction::RightToLeft,
            2 => Direction::TopToBottom,
            _ => Direction::BottomToTop,
        }
    }

    /// The number that encodes this direction.
    pub fn to_u8(self) -> (r: u8)
        ensures
            r == self.bits(),
            r < 4,
    {
        match self {
            Direction::LeftToRight => 0,
            Direction::RightToLeft => 1,
            Direction::TopToBottom => 2,
            Direction::BottomToTop => 3,
        }
    }

    /// The direction that `v` encodes.
    pub fn from_u8(v: u8) -> (r: Direction)
        requires
            v < 4,
        ensures
            r == Direction::of_bits(v),
            r.bits() == v,
    {
        match v {
            0 => Direction::LeftToRight,
            1 => Direction::RightToLeft,
            2 => Direction::TopToBottom,
            _ => Direction::BottomToTop,
        }
    }

    /// Every direction is the value of its own number, which is below 4.
    pub proof fn lemma_bits_inverse(self)
        ensures
            Direction::of_bits(self.bits()) == self,
            self.bits() < 4,
    {
    }

    /// Every number below 4 is the number of the direction it encodes.
    pub proof fn lemma_of_bits_inverse(v: u8)
        requires
            v < 4,
        ensures
            Direction::of_bits(v).bits() == v,
    {
    }
}

impl From<Direction> for u8 {
    fn from(value: Direction) -> (r: u8) {
        value.to_u8()
    }
}

impl vstd::std_specs::convert::FromSpecImpl<Direction> for u8 {
    open spec fn obeys_from_spec() -> bool {
        true
    }

    open spec fn from_spec(value: Direction) -> u8 {
        value.bits()
    }
}

/// How a window appears and disappears.
#[derive(Debug, Clone, Copy, PartialEq, Eq, PartialOrd, Ord, Structural)]
pub enum DisplayEffect {
    Snap,
    Fade,
    Wipe,
    Undefined,
}

impl DisplayEffect {
    /// The number of the 2-bit field that encodes this display effect.
    pub open spec fn bits(self) -> u8 {
        match self {
            DisplayEffect::Snap => 0,
            DisplayEffect::Fade => 1,
            DisplayEffect::Wipe => 2,
            DisplayEffect::Undefined => 3,
        }
    }

    /// The display effect that a 2-bit field encodes.
    pub open spec fn of_bits(v: u8) -> DisplayEffect
        recommends
            v < 4,
    {
        match v {
            0 => DisplayEffect::Snap,
            1 => DisplayEffect::Fade,
            2 => DisplayEffect::Wipe,
            _ => DisplayEffect::Undefined,
        }
    }

    /// The number that encodes this display effect.
    pub fn to_u8(self) -> (r: u8)
        ensures
            r == self.bits(),
            r < 4,
    {
        match self {
            DisplayEffect::Snap => 0,
            DisplayEffect::Fade => 1,
            DisplayEffect::Wipe => 2,
            DisplayEffect::Undefined => 3,
        }
    }

    /// The display effect that `v` encodes.
    pub fn from_u8(v: u8) -> (r: DisplayEffect)
        requires
            v < 4,
        ensures
            r == DisplayEffect::of_bits(v),
            r.bits() == v,
    {
        match v {
            0 => DisplayEffect::Snap,
            1 => DisplayEffect::Fade,
            2 => DisplayEffect::Wipe,
            _ => DisplayEffect::Undefined,
        }
    }

    /// Every display effect is the value of its own number, which is below 4.
    pub proof fn lemma_bits_inverse(self)
        ensures
            DisplayEffect::of_bits(self.bits()) == self,
            self.bits() < 4,
    {
    }

    /// Every number below 4 is the number of the display effect it encodes.
    pub proof fn lemma_of_bits_inverse(v: u8)
        requires
            v < 4,
        ensures
            DisplayEffect::of_bits(v).bits() == v,
    {
    }
}

impl From<DisplayEffect> for u8 {
    fn from(value: DisplayEffect) -> (r: u8) {
        value.to_u8()
    }
}

impl vstd::std_specs::convert::FromSpecImpl<DisplayEffect> for u8 {
    open spec fn obeys_from_spec() -> bool {
        true
    }

    open spec fn from_spec(value: DisplayEffect) -> u8 {
        value.bits()
    }
}

/// How opaque a color is drawn.
#[derive(Debug, Clone, Copy, PartialEq, Eq, PartialOrd, Ord, Structural)]
pub enum Opacity {
    Solid,
    Flash,
    Translucent,
    Transparent,
}

impl Opacity {
    /// The number of the 2-bit field that encodes this opacity.
    pub open spec fn bits(self) -> u8 {
        match self {
            Opacity::Solid => 0,
            Opacity::Flash => 1,
            Opacity::Translucent => 2,
            Opacity::Transparent => 3,
        }
    }

    /// The opacity that a 2-bit field encodes.
    pub open spec fn of_bits(v: u8) -> Opacity
        recommends
            v < 4,
    {
        match v {
            0 => Opacity::Solid,
            1 => Opacity::Flash,
            2 => Opacity::Translucent,
            _ => Opacity::Transparent,
        }
    }

    /// The number that encodes this opacity.
    pub fn to_u8(self) -> (r: u8)
        ensures
            r == self.bits(),
            r < 4,
    {
        match self {
            Opacity::Solid => 0,
            Opacity::Flash => 1,
            Opacity::Translucent => 2,
            Opacity::Transparent => 3,
        }
    }

    /// The opacity that `v` encodes.
    pub fn from_u8(v: u8) -> (r: Opacity)
        requires
            v < 4,
        ensures
            r == Opacity::of_bits(v),
            r.bits() == v,
    {
        match v {
            0 => Opacity::Solid,
            1 => Opacity::Flash,
            2 => Opacity::Translucent,
            _ => Opacity::Transparent,
        }
    }

    /// Every opacity is the value of its own number, which is below 4.
    pub proof fn lemma_bits_inverse(self)
        ensures
            Opacity::of_bits(self.bits()) == self,
            self.bits() < 4,
    {
    }

    /// Every number below 4 is the number of the opacity it encodes.
    pub proof fn lemma_of_bits_inverse(v: u8)
        requires
            v < 4,
        ensures
            Opacity::of_bits(v).bits() == v,
    {
    }
}

impl From<Opacity> for u8 {
    fn from(value: Opacity) -> (r: u8) {
        value.to_u8()
    }
}

impl vstd::std_specs::convert::FromSpecImpl<Opacity> for u8 {
    open spec fn obeys_from_spec() -> bool {
        true
    }

    open spec fn from_spec(value: Opacity) -> u8 {
        value.bits()
    }
}

/// The intensity of one color component.
#[derive(Debug, Clone, Copy, PartialEq, Eq, PartialOrd, Ord, Structural)]
pub enum ColorValue {
    Zero,
    OneThird,
    TwoThirds,
    Full,
}

impl ColorValue {
    /// The number of the 2-bit field that encodes this color component.
    pub open spec fn bits(self) -> u8 {
        match self {
            ColorValue::Zero => 0,
            ColorValue::OneThird => 1,
            ColorValue::TwoThirds => 2,
            ColorValue::Full => 3,
        }
    }

    /// The color component that a 2-bit field encodes.
    pub open spec fn of_bits(v: u8) -> ColorValue
        recommends
            v < 4,
    {
        match v {
            0 => ColorValue::Zero,
            1 => ColorValue::OneThird,
            2 => ColorValue::TwoThirds,
            _ => ColorValue::Full,
        }
    }

    /// The number that encodes this color component.
    pub fn to_u8(self) -> (r: u8)
        ensures
            r == self.bits(),
            r < 4,
    {
        match self {
            ColorValue::Zero => 0,
            ColorValue::OneThird => 1,
            ColorValue::TwoThirds => 2,
            ColorValue::Full => 3,
        }
    }

    /// The color component that `v` encodes.
    pub fn from_u8(v: u8) -> (r: ColorValue)
        requires
            v < 4,
        ensures
            r == ColorValue::of_bits(v),
            r.bits() == v,
    {
        match v {
            0 => ColorValue::Zero,
            1 => ColorValue::OneThird,
            2 => ColorValue::TwoThirds,
            _ => ColorValue::Full,
        }
    }

    /// Every color component is the value of its own number, which is below 4.
    pub proof fn lemma_bits_inverse(self)
        ensures
            ColorValue::of_bits(self.bits()) == self,
            self.bits() < 4,
    {
    }

    /// Every number below 4 is the number of the color component it encodes.
    pub proof fn lemma_of_bits_inverse(v: u8)
        requires
            v < 4,
        ensures
            ColorValue::of_bits(v).bits() == v,
    {
    }
}

impl From<ColorValue> for u8 {
    fn from(value: ColorValue) -> (r: u8) {
        value.to_u8()
    }
}

impl vstd::std_specs::convert::FromSpecImpl<ColorValue> for u8 {
    open spec fn obeys_from_spec() -> bool {
        true
    }

    open spec fn from_spec(value: ColorValue) -> u8 {
        value.bits()
    }
}

/// The kind of border drawn around a window.
#[derive(Debug, Clone, Copy, PartialEq, Eq, PartialOrd, Ord, Structural)]
pub enum BorderType {
    NoBorder,
    Raised,
    Depressed,
    Uniform,
    ShadowLeft,
    ShadowRight,
    Undefined6,
    Undefined7,
}

impl BorderType {
    /// The number of the 3-bit field that encodes this border type.
    pub open spec fn bits(self) -> u8 {
        match self {
            BorderType::NoBorder => 0,
            BorderType::Raised => 1,
            BorderType::Depressed => 2,
            BorderType::Uniform => 3,
            BorderType::ShadowLeft => 4,
            BorderType::ShadowRight => 5,
            BorderType::Undefined6 => 6,
            BorderType::Undefined7 => 7,
        }
    }

    /// The border type that a 3-bit field encodes.
    pub open spec fn of_bits(v: u8) -> BorderType
        recommends
            v < 8,
    {
        match v {
            0 => BorderType::NoBorder,
            1 => BorderType::Raised,
            2 => BorderType::Depressed,
            3 => BorderType::Uniform,
            4 => BorderType::ShadowLeft,
            5 => BorderType::ShadowRight,
            6 => BorderType::Undefined6,
            _ => BorderType::Undefined7,
        }
    }

    /// The number that encodes this border type.
    pub fn to_u8(self) -> (r: u8)
        ensures
            r == self.bits(),
            r < 8,
    {
        match self {
            BorderType::NoBorder => 0,
            BorderType::Raised => 1,
            BorderType::Depressed => 2,
            BorderType::Uniform => 3,
            BorderType::ShadowLeft => 4,
            BorderType::ShadowRight => 5,
            BorderType::Undefined6 => 6,
            BorderType::Undefined7 => 7,
        }
    }

    /// The border type that `v` encodes.
    pub fn from_u8(v: u8) -> (r: BorderType)
        requires
            v < 8,
        ensures
            r == BorderType::of_bits(v),
            r.bits() == v,
    {
        match v {
            0 => BorderType::NoBorder,
            1 => BorderType::Raised,
            2 => BorderType::Depressed,
            3 => BorderType::Uniform,
            4 => BorderType::ShadowLeft,
            5 => BorderType::ShadowRight,
            6 => BorderType::Undefined6,
            _ => BorderType::Undefined7,
        }
    }

    /// Every border type is the value of its own number, which is below 8.
    pub proof fn lemma_bits_inverse(self)
        ensures
            BorderType::of_bits(self.bits()) == self,
            self.bits() < 8,
    {
    }

    /// Every number below 8 is the number of the border type it encodes.
    pub proof fn lemma_of_bits_inverse(v: u8)
        requires
            v < 8,
        ensures
            BorderType::of_bits(v).bits() == v,
    {
    }
}

impl From<BorderType> for u8 {
    fn from(value: BorderType) -> (r: u8) {
        value.to_u8()
    }
}

impl vstd::std_specs::convert::FromSpecImpl<BorderType> for u8 {
    open spec fn obeys_from_spec() -> bool {
        true
    }

    open spec fn from_spec(value: BorderType) -> u8 {
        value.bits()
    }
}

/// The size of the text that the pen draws.
#[derive(Debug, Clone, Copy, PartialEq, Eq, PartialOrd, Ord, Structural)]
pub enum PenSize {
    Small,
    Standard,
    Large,
    Undefined,
}

impl PenSize {
    /// The number of the 2-bit field that encodes this pen size.
    pub open spec fn bits(self) -> u8 {
        match self {
            PenSize::Small => 0,
            PenSize::Standard => 1,
            PenSize::Large => 2,
            PenSize::Undefined => 3,
        }
    }

    /// The pen size that a 2-bit field encodes.
    pub open spec fn of_bits(v: u8) -> PenSize
        recommends
            v < 4,
    {
        match v {
            0 => PenSize::Small,
            1 => PenSize::Standard,
            2 => PenSize::Large,
            _ => PenSize::Undefined,
        }
    }

    /// The number that encodes this pen size.
    pub fn to_u8(self) -> (r: u8)
        ensures
            r == self.bits(),
            r < 4,
    {
        match self {
            PenSize::Small => 0,
            PenSize::Standard => 1,
            PenSize::Large => 2,
            PenSize::Undefined => 3,
        }
    }

    /// The pen size that `v` encodes.
    pub fn from_u8(v: u8) -> (r: PenSize)
        requires
            v < 4,
        ensures
            r == PenSize::of_bits(v),
            r.bits() == v,
    {
        match v {
            0 => PenSize::Small,
            1 => PenSize::Standard,
            2 => PenSize::Large,
            _ => PenSize::Undefined,
        }
    }

    /// Every pen size is the value of its own number, which is below 4.
    pub proof fn lemma_bits_inverse(self)
        ensures
            PenSize::of_bits(self.bits()) == self,
            self.bits() < 4,
    {
    }

    /// Every number below 4 is the number of the pen size it encodes.
    pub proof fn lemma_of_bits_inverse(v: u8)
        requires
            v < 4,
        ensures
            PenSize::of_bits(v).bits() == v,
    {
    }
}

impl From<PenSize> for u8 {
    fn from(value: PenSize) -> (r: u8) {
        value.to_u8()
    }
}

impl vstd::std_specs::convert::FromSpecImpl<PenSize> for u8 {
    open spec fn obeys_from_spec() -> bool {
        true
    }

    open spec fn from_spec(value: PenSize) -> u8 {
        value.bits()
    }
}

/// The font that the pen draws with.
#[derive(Debug, Clone, Copy, PartialEq, Eq, PartialOrd, Ord, Structural)]
pub enum FontStyle {
    Default,
    MonospacedWithSerifs,
    ProportionallySpacedWithSerifs,
    MonospacedWithoutSerifs,
    ProportionallySpacedWithoutSerifs,
    CasualFontType,
    CursiveFontType,
    SmallCapitals,
}

impl FontStyle {
    /// The number of the 3-bit field that encodes this font style.
    pub open spec fn bits(self) -> u8 {
        match self {
            FontStyle::Default => 0,
            FontStyle::MonospacedWithSerifs => 1,
            FontStyle::ProportionallySpacedWithSerifs => 2,
            FontStyle::MonospacedWithoutSerifs => 3,
            FontStyle::ProportionallySpacedWithoutSerifs => 4,
            FontStyle::CasualFontType => 5,
            FontStyle::CursiveFontType => 6,
            FontStyle::SmallCapitals => 7,
        }
    }

    /// The font style that a 3-bit field encodes.
    pub open spec fn of_bits(v: u8) -> FontStyle
        recommends
            v < 8,
    {
        match v {
            0 => FontStyle::Default,
            1 => FontStyle::MonospacedWithSerifs,
            2 => FontStyle::ProportionallySpacedWithSerifs,
            3 => FontStyle::MonospacedWithoutSerifs,
            4 => FontStyle::ProportionallySpacedWithoutSerifs,
            5 => FontStyle::CasualFontType,
            6 => FontStyle::CursiveFontType,
            _ => FontStyle::SmallCapitals,
        }
    }

    /// The number that encodes this font style.
    pub fn to_u8(self) -> (r: u8)
        ensures
            r == self.bits(),
            r < 8,
    {
        match self {
            FontStyle::Default => 0,
            FontStyle::MonospacedWithSerifs => 1,
            FontStyle::ProportionallySpacedWithSerifs => 2,
            FontStyle::MonospacedWithoutSerifs => 3,
            FontStyle::ProportionallySpacedWithoutSerifs => 4,
            FontStyle::CasualFontType => 5,
            FontStyle::CursiveFontType => 6,
            FontStyle::SmallCapitals => 7,
        }
    }

    /// The font style that `v` encodes.
    pub fn from_u8(v: u8) -> (r: FontStyle)
        requires
            v < 8,
        ensures
            r == FontStyle::of_bits(v),
            r.bits() == v,
    {
        match v {
            0 => FontStyle::Default,
            1 => FontStyle::MonospacedWithSerifs,
            2 => FontStyle::ProportionallySpacedWithSerifs,
            3 => FontStyle::MonospacedWithoutSerifs,
            4 => FontStyle::ProportionallySpacedWithoutSerifs,
            5 => FontStyle::CasualFontType,
            6 => FontStyle::CursiveFontType,
            _ => FontStyle::SmallCapitals,
        }
    }

    /// Every font style is the value of its own number, which is below 8.
    pub proof fn lemma_bits_inverse(self)
        ensures
            FontStyle::of_bits(self.bits()) == self,
            self.bits() < 8,
    {
    }

    /// Every number below 8 is the number of the font style it encodes.
    pub proof fn lemma_of_bits_inverse(v: u8)
        requires
            v < 8,
        ensures
            FontStyle::of_bits(v).bits() == v,
    {
    }
}

impl From<FontStyle> for u8 {
    fn from(value: FontStyle) -> (r: u8) {
        value.to_u8()
    }
}

impl vstd::std_specs::convert::FromSpecImpl<FontStyle> for u8 {
    open spec fn obeys_from_spec() -> bool {
        true
    }

    open spec fn from_spec(value: FontStyle) -> u8 {
        value.bits()
    }
}

/// What kind of content a piece of text is.
#[derive(Debug, Clone, Copy, PartialEq, Eq, PartialOrd, Ord, Structural)]
pub enum TextTag {
    Dialog,
    SourceOrSpeakerId,
    ElectronicallyReproducedVoice,
    DialogInNonPrimaryLanguage,
    Voiceover,
    AudibleTranslation,
    SubtitleTranslation,
    VoiceQualityDescription,
    SongLyrics,
    SoundEffectDescription,
    MusicalScoreDescription,
    Expletive,
    Undefined12,
    Undefined13,
    Undefined14,
    TextNotToBeDisplayed,
}

impl TextTag {
    /// The number of the 4-bit field that encodes this text tag.
    pub open spec fn bits(self) -> u8 {
        match self {
            TextTag::Dialog => 0,
            TextTag::SourceOrSpeakerId => 1,
            TextTag::ElectronicallyReproducedVoice => 2,
            TextTag::DialogInNonPrimaryLanguage => 3,
            TextTag::Voiceover => 4,
            TextTag::AudibleTranslation => 5,
            TextTag::SubtitleTranslation => 6,
            TextTag::VoiceQualityDescription => 7,
            TextTag::SongLyrics => 8,
            TextTag::SoundEffectDescription => 9,
            TextTag::MusicalScoreDescription => 10,
            TextTag::Expletive => 11,
            TextTag::Undefined12 => 12,
            TextTag::Undefined13 => 13,
            TextTag::Undefined14 => 14,
            TextTag::TextNotToBeDisplayed => 15,
        }
    }

    /// The text tag that a 4-bit field encodes.
    pub open spec fn of_bits(v: u8) -> TextTag
        recommends
            v < 16,
    {
        match v {
            0 => TextTag::Dialog,
            1 => TextTag::SourceOrSpeakerId,
            2 => TextTag::ElectronicallyReproducedVoice,
            3 => TextTag::DialogInNonPrimaryLanguage,
            4 => TextTag::Voiceover,
            5 => TextTag::AudibleTranslation,
            6 => TextTag::SubtitleTranslation,
            7 => TextTag::VoiceQualityDescription,
            8 => TextTag::SongLyrics,
            9 => TextTag::SoundEffectDescription,
            10 => TextTag::MusicalScoreDescription,
            11 => TextTag::Expletive,
            12 => TextTag::Undefined12,
            13 => TextTag::Undefined13,
            14 => TextTag::Undefined14,
            _ => TextTag::TextNotToBeDisplayed,
        }
    }

    /// The number that encodes this text tag.
    pub fn to_u8(self) -> (r: u8)
        ensures
            r == self.bits(),
            r < 16,
    {
        match self {
            TextTag::Dialog => 0,
            TextTag::SourceOrSpeakerId => 1,
            TextTag::ElectronicallyReproducedVoice => 2,
            TextTag::DialogInNonPrimaryLanguage => 3,
            TextTag::Voiceover => 4,
            TextTag::AudibleTranslation => 5,
            TextTag::SubtitleTranslation => 6,
            TextTag::VoiceQualityDescription => 7,
            TextTag::SongLyrics => 8,
            TextTag::SoundEffectDescription => 9,
            TextTag::MusicalScoreDescription => 10,
            TextTag::Expletive => 11,
            TextTag::Undefined12 => 12,
            TextTag::Undefined13 => 13,
            TextTag::Undefined14 => 14,
            TextTag::TextNotToBeDisplayed => 15,
        }
    }

    /// The text tag that `v` encodes.
    pub fn from_u8(v: u8) -> (r: TextTag)
        requires
            v < 16,
        ensures
            r == TextTag::of_bits(v),
            r.bits() == v,
    {
        match v {
            0 => TextTag::Dialog,
            1 => TextTag::SourceOrSpeakerId,
            2 => TextTag::ElectronicallyReproducedVoice,
            3 => TextTag::DialogInNonPrimaryLanguage,
            4 => TextTag::Voiceover,
            5 => TextTag::AudibleTranslation,
            6 => TextTag::SubtitleTranslation,
            7 => TextTag::VoiceQualityDescription,
            8 => TextTag::SongLyrics,
            9 => TextTag::SoundEffectDescription,
            10 => TextTag::MusicalScoreDescription,
            11 => TextTag::Expletive,
            12 => TextTag::Undefined12,
            13 => TextTag::Undefined13,
            14 => TextTag::Undefined14,
            _ => TextTag::TextNotToBeDisplayed,
        }
    }

    /// Every text tag is the value of its own number, which is below 16.
    pub proof fn lemma_bits_inverse(self)
        ensures
            TextTag::of_bits(self.bits()) == self,
            self.bits() < 16,
    {
    }

    /// Every number below 16 is the number of the text tag it encodes.
    pub proof fn lemma_of_bits_inverse(v: u8)
        requires
            v < 16,
        ensures
            TextTag::of_bits(v).bits() == v,
    {
    }
}

impl From<TextTag> for u8 {
    fn from(value: TextTag) -> (r: u8) {
        value.to_u8()
    }
}

impl vstd::std_specs::convert::FromSpecImpl<TextTag> for u8 {
    open spec fn obeys_from_spec() -> bool {
        true
    }

    open spec fn from_spec(value: TextTag) -> u8 {
        value.bits()
    }
}

/// The vertical offset of text from its baseline.
#[derive(Debug, Clone, Copy, PartialEq, Eq, PartialOrd, Ord, Structural)]
pub enum TextOffset {
    Subscript,
    Normal,
    Superscript,
    Undefined,
}

impl TextOffset {
    /// The number of the 2-bit field that encodes this text offset.
    pub open spec fn bits(self) -> u8 {
        match self {
            TextOffset::Subscript => 0,
            TextOffset::Normal => 1,
            TextOffset::Superscript => 2,
            TextOffset::Undefined => 3,
        }
    }

    /// The text offset that a 2-bit field encodes.
    pub open spec fn of_bits(v: u8) -> TextOffset
        recommends
            v < 4,
    {
        match v {
            0 => TextOffset::Subscript,
            1 => TextOffset::Normal,
            2 => TextOffset::Superscript,
            _ => TextOffset::Undefined,
        }
    }

    /// The number that encodes this text offset.
    pub fn to_u8(self) -> (r: u8)
        ensures
            r == self.bits(),
            r < 4,
    {
        match self {
            TextOffset::Subscript => 0,
            TextOffset::Normal => 1,
            TextOffset::Superscript => 2,
            TextOffset::Undefined => 3,
        }
    }

    /// The text offset that `v` encodes.
    pub fn from_u8(v: u8) -> (r: TextOffset)
        requires
            v < 4,
        ensures
            r == TextOffset::of_bits(v),
            r.bits() == v,
    {
        match v {
            0 => TextOffset::Subscript,
            1 => TextOffset::Normal,
            2 => TextOffset::Superscript,
            _ => TextOffset::Undefined,
        }
    }

    /// Every text offset is the value of its own number, which is below 4.
    pub proof fn lemma_bits_inverse(self)
        ensures
            TextOffset::of_bits(self.bits()) == self,
            self.bits() < 4,
    {
    }

    /// Every number below 4 is the number of the text offset it encodes.
    pub proof fn lemma_of_bits_inverse(v: u8)
        requires
            v < 4,
        ensures
            TextOffset::of_bits(v).bits() == v,
    {
    }
}

impl From<TextOffset> for u8 {
    fn from(value: TextOffset) -> (r: u8) {
        value.to_u8()
    }
}

impl vstd::std_specs::convert::FromSpecImpl<TextOffset> for u8 {
    open spec fn obeys_from_spec() -> bool {
        true
    }

    open spec fn from_spec(value: TextOffset) -> u8 {
        value.bits()
    }
}

/// The kind of edge drawn around characters.
#[derive(Debug, Clone, Copy, PartialEq, Eq, PartialOrd, Ord, Structural)]
pub enum EdgeType {
    NoEdge,
    Raised,
    Depressed,
    Uniform,
    LeftDropShadow,
    RightDropShadow,
    Undefined6,
    Undefined7,
}

impl EdgeType {
    /// The number of the 3-bit field that encodes this edge type.
    pub open spec fn bits(self) -> u8 {
        match self {
            EdgeType::NoEdge => 0,
            EdgeType::Raised => 1,
            EdgeType::Depressed => 2,
            EdgeType::Uniform => 3,
            EdgeType::LeftDropShadow => 4,
            EdgeType::RightDropShadow => 5,
            EdgeType::Undefined6 => 6,
            EdgeType::Undefined7 => 7,
        }
    }

    /// The edge type that a 3-bit field encodes.
    pub open spec fn of_bits(v: u8) -> EdgeType
        recommends
            v < 8,
    {
        match v {
            0 => EdgeType::NoEdge,
            1 => EdgeType::Raised,
            2 => EdgeType::Depressed,
            3 => EdgeType::Uniform,
            4 => EdgeType::LeftDropShadow,
            5 => EdgeType::RightDropShadow,
            6 => EdgeType::Undefined6,
            _ => EdgeType::Undefined7,
        }
    }

    /// The number that encodes this edge type.
    pub fn to_u8(self) -> (r: u8)
        ensures
            r == self.bits(),
            r < 8,
    {
        match self {
            EdgeType::NoEdge => 0,
            EdgeType::Raised => 1,
            EdgeType::Depressed => 2,
            EdgeType::Uniform => 3,
            EdgeType::LeftDropShadow => 4,
            EdgeType::RightDropShadow => 5,
            EdgeType::Undefined6 => 6,
            EdgeType::Undefined7 => 7,
        }
    }

    /// The edge type that `v` encodes.
    pub fn from_u8(v: u8) -> (r: EdgeType)
        requires
            v < 8,
        ensures
            r == EdgeType::of_bits(v),
            r.bits() == v,
    {
        match v {
            0 => EdgeType::NoEdge,
            1 => EdgeType::Raised,
            2 => EdgeType::Depressed,
            3 => EdgeType::Uniform,
            4 => EdgeType::LeftDropShadow,
            5 => EdgeType::RightDropShadow,
            6 => EdgeType::Undefined6,
            _ => EdgeType::Undefined7,
        }
    }

    /// Every edge type is the value of its own number, which is below 8.
    pub proof fn lemma_bits_inverse(self)
        ensures
            EdgeType::of_bits(self.bits()) == self,
            self.bits() < 8,
    {
    }

    /// Every number below 8 is the number of the edge type it encodes.
    pub proof fn lemma_of_bits_inverse(v: u8)
        requires
            v < 8,
        ensures
            EdgeType::of_bits(v).bits() == v,
    {
    }
}

impl From<EdgeType> for u8 {
    fn from(value: EdgeType) -> (r: u8) {
        value.to_u8()
    }
}

impl vstd::std_specs::convert::FromSpecImpl<EdgeType> for u8 {
    open spec fn obeys_from_spec() -> bool {
        true
    }

    open spec fn from_spec(value: EdgeType) -> u8 {
        value.bits()
    }
}

} // verus!
