//! The symbols that follow the `EXT1` byte, `0x10`: the character sets G2 and
//! G3, and the extended control codes C2 and C3.

use vstd::prelude::*;

verus! {

/// A symbol that follows the `EXT1` byte. What has no name here is kept as
/// the bytes that came after the `EXT1` byte.
#[derive(Debug, PartialEq, Eq, PartialOrd, Ord)]
pub enum Ext1 {
    TransparentSpace,
    NonBreakingTransparentSpace,
    HorizontalElipses,
    LatinCapitalSWithCaron,
    LatinCapitalLigatureOE,
    FullBlock,
    SingleOpenQuote,
    SingleCloseQuote,
    DoubleOpenQuote,
    DoubleCloseQuote,
    SolidDot,
    TradeMarkSign,
    LatinLowerSWithCaron,
    LatinLowerLigatureOE,
    LatinCapitalYWithDiaeresis,
    Fraction18,
    Fraction38,
    Fraction58,
    Fraction78,
    VerticalBorder,
    UpperRightBorder,
    LowerLeftBorder,
    HorizontalBorder,
    LowerRightBorder,
    UpperLeftBorder,
    ClosedCaptionSign,
    Unknown(Vec<u8>),
}

/// An [`Ext1`] with its unnamed bytes as a sequence.
pub enum Ext1View {
    /// One of the named symbols.
    Named(Ext1),
    /// Anything else, as the bytes after the `EXT1` byte.
    Unknown(Seq<u8>),
}

impl View for Ext1 {
    type V = Ext1View;

    open spec fn view(&self) -> Ext1View {
        match *self {
            Ext1::Unknown(data) => Ext1View::Unknown(data@),
            named => Ext1View::Named(named),
        }
    }
}

impl Clone for Ext1 {
    fn clone(&self) -> (r: Ext1)
        ensures
            r@ == self@,
    {
        match self {
            Ext1::TransparentSpace => Ext1::TransparentSpace,
            Ext1::NonBreakingTransparentSpace => Ext1::NonBreakingTransparentSpace,
            Ext1::HorizontalElipses => Ext1::HorizontalElipses,
            Ext1::LatinCapitalSWithCaron => Ext1::LatinCapitalSWithCaron,
            Ext1::LatinCapitalLigatureOE => Ext1::LatinCapitalLigatureOE,
            Ext1::FullBlock => Ext1::FullBlock,
            Ext1::SingleOpenQuote => Ext1::SingleOpenQuote,
            Ext1::SingleCloseQuote => Ext1::SingleCloseQuote,
            Ext1::DoubleOpenQuote => Ext1::DoubleOpenQuote,
            Ext1::DoubleCloseQuote => Ext1::DoubleCloseQuote,
            Ext1::SolidDot => Ext1::SolidDot,
            Ext1::TradeMarkSign => Ext1::TradeMarkSign,
            Ext1::LatinLowerSWithCaron => Ext1::LatinLowerSWithCaron,
            Ext1::LatinLowerLigatureOE => Ext1::LatinLowerLigatureOE,
            Ext1::LatinCapitalYWithDiaeresis => Ext1::LatinCapitalYWithDiaeresis,
            Ext1::Fraction18 => Ext1::Fraction18,
            Ext1::Fraction38 => Ext1::Fraction38,
            Ext1::Fraction58 => Ext1::Fraction58,
            Ext1::Fraction78 => Ext1::Fraction78,
            Ext1::VerticalBorder => Ext1::VerticalBorder,
            Ext1::UpperRightBorder => Ext1::UpperRightBorder,
            Ext1::LowerLeftBorder => Ext1::LowerLeftBorder,
            Ext1::HorizontalBorder => Ext1::HorizontalBorder,
            Ext1::LowerRightBorder => Ext1::LowerRightBorder,
            Ext1::UpperLeftBorder => Ext1::UpperLeftBorder,
            Ext1::ClosedCaptionSign => Ext1::ClosedCaptionSign,
            Ext1::Unknown(data) => Ext1::Unknown(data.clone()),
        }
    }
}

impl Ext1 {
    /// The named symbol that the byte `b` stands for after `EXT1`.
    pub open spec fn spec_symbol(b: u8) -> Option<Ext1> {
        match b {
            0x20 => Some(Ext1::TransparentSpace),
            0x21 => Some(Ext1::NonBreakingTransparentSpace),
            0x25 => Some(Ext1::HorizontalElipses),
            0x2A => Some(Ext1::LatinCapitalSWithCaron),
            0x2C => Some(Ext1::LatinCapitalLigatureOE),
            0x30 => Some(Ext1::FullBlock),
            0x31 => Some(Ext1::SingleOpenQuote),
            0x32 => Some(Ext1::SingleCloseQuote),
            0x33 => Some(Ext1::DoubleOpenQuote),
            0x34 => Some(Ext1::DoubleCloseQuote),
            0x35 => Some(Ext1::SolidDot),
            0x39 => Some(Ext1::TradeMarkSign),
            0x3A => Some(Ext1::LatinLowerSWithCaron),
            0x3C => Some(Ext1::LatinLowerLigatureOE),
            0x3F => Some(Ext1::LatinCapitalYWithDiaeresis),
            0x76 => Some(Ext1::Fraction18),
            0x77 => Some(Ext1::Fraction38),
            0x78 => Some(Ext1::Fraction58),
            0x79 => Some(Ext1::Fraction78),
            0x7A => Some(Ext1::VerticalBorder),
            0x7B => Some(Ext1::UpperRightBorder),
            0x7C => Some(Ext1::LowerLeftBorder),
            0x7D => Some(Ext1::HorizontalBorder),
            0x7E => Some(Ext1::LowerRightBorder),
            0x7F => Some(Ext1::UpperLeftBorder),
            0xA0 => Some(Ext1::ClosedCaptionSign),
            _ => None,
        }
    }

    /// The byte that stands for this symbol, if it is a named one.
    pub open spec fn spec_symbol_byte(&self) -> Option<u8> {
        match self {
            Ext1::TransparentSpace => Some(0x20),
            Ext1::NonBreakingTransparentSpace => Some(0x21),
            Ext1::HorizontalElipses => Some(0x25),
            Ext1::LatinCapitalSWithCaron => Some(0x2A),
            Ext1::LatinCapitalLigatureOE => Some(0x2C),
            Ext1::FullBlock => Some(0x30),
            Ext1::SingleOpenQuote => Some(0x31),
            Ext1::SingleCloseQuote => Some(0x32),
            Ext1::DoubleOpenQuote => Some(0x33),
            Ext1::DoubleCloseQuote => Some(0x34),
            Ext1::SolidDot => Some(0x35),
            Ext1::TradeMarkSign => Some(0x39),
            Ext1::LatinLowerSWithCaron => Some(0x3A),
            Ext1::LatinLowerLigatureOE => Some(0x3C),
            Ext1::LatinCapitalYWithDiaeresis => Some(0x3F),
            Ext1::Fraction18 => Some(0x76),
            Ext1::Fraction38 => Some(0x77),
            Ext1::Fraction58 => Some(0x78),
            Ext1::Fraction78 => Some(0x79),
            Ext1::VerticalBorder => Some(0x7A),
            Ext1::UpperRightBorder => Some(0x7B),
            Ext1::LowerLeftBorder => Some(0x7C),
            Ext1::HorizontalBorder => Some(0x7D),
            Ext1::LowerRightBorder => Some(0x7E),
            Ext1::UpperLeftBorder => Some(0x7F),
            Ext1::ClosedCaptionSign => Some(0xA0),
            Ext1::Unknown(_) => None,
        }
    }

    /// The character that this symbol shows, if it shows one.
    pub open spec fn spec_char(&self) -> Option<char> {
        match self {
            Ext1::HorizontalElipses => Some('\u{2026}'),  // …
            Ext1::LatinCapitalSWithCaron => Some('\u{0160}'),  // Š
            Ext1::LatinCapitalLigatureOE => Some('\u{0152}'),  // Œ
            Ext1::FullBlock => Some('\u{2588}'),  // █
            Ext1::SingleOpenQuote => Some('\u{2018}'),  // ‘
            Ext1::SingleCloseQuote => Some('\u{2019}'),  // ’
            Ext1::DoubleOpenQuote => Some('\u{201C}'),  // “
            Ext1::DoubleCloseQuote => Some('\u{201D}'),  // ”
            Ext1::TradeMarkSign => Some('\u{2122}'),  // ™
            Ext1::LatinLowerSWithCaron => Some('\u{0161}'),  // š
            Ext1::LatinLowerLigatureOE => Some('\u{0153}'),  // œ
            Ext1::LatinCapitalYWithDiaeresis => Some('\u{0178}'),  // Ÿ
            Ext1::Fraction18 => Some('\u{215B}'),  // ⅛
            Ext1::Fraction38 => Some('\u{215C}'),  // ⅜
            Ext1::Fraction58 => Some('\u{215D}'),  // ⅝
            Ext1::Fraction78 => Some('\u{215E}'),  // ⅞
            _ => None,
        }
    }

    /// The named symbol that shows the character `c`.
    pub open spec fn spec_from_char(c: char) -> Option<Ext1> {
        match c {
            '\u{2026}' => Some(Ext1::HorizontalElipses),
            '\u{0160}' => Some(Ext1::LatinCapitalSWithCaron),
            '\u{0152}' => Some(Ext1::LatinCapitalLigatureOE),
            '\u{2588}' => Some(Ext1::FullBlock),
            '\u{2018}' => Some(Ext1::SingleOpenQuote),
            '\u{2019}' => Some(Ext1::SingleCloseQuote),
            '\u{201C}' => Some(Ext1::DoubleOpenQuote),
            '\u{201D}' => Some(Ext1::DoubleCloseQuote),
            '\u{2122}' => Some(Ext1::TradeMarkSign),
            '\u{0161}' => Some(Ext1::LatinLowerSWithCaron),
            '\u{0153}' => Some(Ext1::LatinLowerLigatureOE),
            '\u{0178}' => Some(Ext1::LatinCapitalYWithDiaeresis),
            '\u{215B}' => Some(Ext1::Fraction18),
            '\u{215C}' => Some(Ext1::Fraction38),
            '\u{215D}' => Some(Ext1::Fraction58),
            '\u{215E}' => Some(Ext1::Fraction78),
            _ => None,
        }
    }

    /// The named symbol that the byte `b` stands for after `EXT1`.
    #[verifier::when_used_as_spec(spec_symbol)]
    pub fn symbol(b: u8) -> (r: Option<Ext1>)
        ensures
            r == Ext1::symbol(b),
    {
        match b {
            0x20 => Some(Ext1::TransparentSpace),
            0x21 => Some(Ext1::NonBreakingTransparentSpace),
            0x25 => Some(Ext1::HorizontalElipses),
            0x2A => Some(Ext1::LatinCapitalSWithCaron),
            0x2C => Some(Ext1::LatinCapitalLigatureOE),
            0x30 => Some(Ext1::FullBlock),
            0x31 => Some(Ext1::SingleOpenQuote),
            0x32 => Some(Ext1::SingleCloseQuote),
            0x33 => Some(Ext1::DoubleOpenQuote),
            0x34 => Some(Ext1::DoubleCloseQuote),
            0x35 => Some(Ext1::SolidDot),
            0x39 => Some(Ext1::TradeMarkSign),
            0x3A => Some(Ext1::LatinLowerSWithCaron),
            0x3C => Some(Ext1::LatinLowerLigatureOE),
            0x3F => Some(Ext1::LatinCapitalYWithDiaeresis),
            0x76 => Some(Ext1::Fraction18),
            0x77 => Some(Ext1::Fraction38),
            0x78 => Some(Ext1::Fraction58),
            0x79 => Some(Ext1::Fraction78),
            0x7A => Some(Ext1::VerticalBorder),
            0x7B => Some(Ext1::UpperRightBorder),
            0x7C => Some(Ext1::LowerLeftBorder),
            0x7D => Some(Ext1::HorizontalBorder),
            0x7E => Some(Ext1::LowerRightBorder),
            0x7F => Some(Ext1::UpperLeftBorder),
            0xA0 => Some(Ext1::ClosedCaptionSign),
            _ => None,
        }
    }

    /// The byte that stands for this symbol, if it is a named one.
    #[verifier::when_used_as_spec(spec_symbol_byte)]
    pub fn symbol_byte(&self) -> (r: Option<u8>)
        ensures
            r == self.symbol_byte(),
    {
        match self {
            Ext1::TransparentSpace => Some(0x20),
            Ext1::NonBreakingTransparentSpace => Some(0x21),
            Ext1::HorizontalElipses => Some(0x25),
            Ext1::LatinCapitalSWithCaron => Some(0x2A),
            Ext1::LatinCapitalLigatureOE => Some(0x2C),
            Ext1::FullBlock => Some(0x30),
            Ext1::SingleOpenQuote => Some(0x31),
            Ext1::SingleCloseQuote => Some(0x32),
            Ext1::DoubleOpenQuote => Some(0x33),
            Ext1::DoubleCloseQuote => Some(0x34),
            Ext1::SolidDot => Some(0x35),
            Ext1::TradeMarkSign => Some(0x39),
            Ext1::LatinLowerSWithCaron => Some(0x3A),
            Ext1::LatinLowerLigatureOE => Some(0x3C),
            Ext1::LatinCapitalYWithDiaeresis => Some(0x3F),
            Ext1::Fraction18 => Some(0x76),
            Ext1::Fraction38 => Some(0x77),
            Ext1::Fraction58 => Some(0x78),
            Ext1::Fraction78 => Some(0x79),
            Ext1::VerticalBorder => Some(0x7A),
            Ext1::UpperRightBorder => Some(0x7B),
            Ext1::LowerLeftBorder => Some(0x7C),
            Ext1::HorizontalBorder => Some(0x7D),
            Ext1::LowerRightBorder => Some(0x7E),
            Ext1::UpperLeftBorder => Some(0x7F),
            Ext1::ClosedCaptionSign => Some(0xA0),
            Ext1::Unknown(_) => None,
        }
    }

    /// The character that this symbol shows, if it shows one.
    #[verifier::when_used_as_spec(spec_char)]
    pub fn char(&self) -> (r: Option<char>)
        ensures
            r == self.char(),
    {
        match self {
            Ext1::HorizontalElipses => Some('\u{2026}'),
            Ext1::LatinCapitalSWithCaron => Some('\u{0160}'),
            Ext1::LatinCapitalLigatureOE => Some('\u{0152}'),
            Ext1::FullBlock => Some('\u{2588}'),
            Ext1::SingleOpenQuote => Some('\u{2018}'),
            Ext1::SingleCloseQuote => Some('\u{2019}'),
            Ext1::DoubleOpenQuote => Some('\u{201C}'),
            Ext1::DoubleCloseQuote => Some('\u{201D}'),
            Ext1::TradeMarkSign => Some('\u{2122}'),
            Ext1::LatinLowerSWithCaron => Some('\u{0161}'),
            Ext1::LatinLowerLigatureOE => Some('\u{0153}'),
            Ext1::LatinCapitalYWithDiaeresis => Some('\u{0178}'),
            Ext1::Fraction18 => Some('\u{215B}'),
            Ext1::Fraction38 => Some('\u{215C}'),
            Ext1::Fraction58 => Some('\u{215D}'),
            Ext1::Fraction78 => Some('\u{215E}'),
            _ => None,
        }
    }

    /// The named symbol that shows the character `c`.
    #[verifier::when_used_as_spec(spec_from_char)]
    pub fn from_char(c: char) -> (r: Option<Ext1>)
        ensures
            r == Ext1::from_char(c),
    {
        match c {
            '\u{2026}' => Some(Ext1::HorizontalElipses),
            '\u{0160}' => Some(Ext1::LatinCapitalSWithCaron),
            '\u{0152}' => Some(Ext1::LatinCapitalLigatureOE),
            '\u{2588}' => Some(Ext1::FullBlock),
            '\u{2018}' => Some(Ext1::SingleOpenQuote),
            '\u{2019}' => Some(Ext1::SingleCloseQuote),
            '\u{201C}' => Some(Ext1::DoubleOpenQuote),
            '\u{201D}' => Some(Ext1::DoubleCloseQuote),
            '\u{2122}' => Some(Ext1::TradeMarkSign),
            '\u{0161}' => Some(Ext1::LatinLowerSWithCaron),
            '\u{0153}' => Some(Ext1::LatinLowerLigatureOE),
            '\u{0178}' => Some(Ext1::LatinCapitalYWithDiaeresis),
            '\u{215B}' => Some(Ext1::Fraction18),
            '\u{215C}' => Some(Ext1::Fraction38),
            '\u{215D}' => Some(Ext1::Fraction58),
            '\u{215E}' => Some(Ext1::Fraction78),
            _ => None,
        }
    }

    /// A byte stands for a named symbol exactly when that symbol's byte is
    /// this byte.
    pub proof fn lemma_symbol_inverse(b: u8, symbol: Ext1)
        ensures
            Ext1::symbol(b) == Some(symbol) <==> symbol.symbol_byte() == Some(b),
    {
    }

    /// A character is shown by a named symbol exactly when that symbol is the
    /// one found for the character.
    pub proof fn lemma_char_inverse(c: char, symbol: Ext1)
        ensures
            Ext1::from_char(c) == Some(symbol) <==> symbol.char() == Some(c),
    {
    }
}

} // verus!
