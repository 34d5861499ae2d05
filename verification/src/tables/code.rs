//! The codes of a service block.

use super::args::WindowBits;
use super::ext1::{Ext1, Ext1View};
use super::pen::{SetPenAttributesArgs, SetPenColorArgs, SetPenLocationArgs};
use super::window::{DefineWindowArgs, SetWindowAttributesArgs};
use vstd::prelude::*;

verus! {

/// A character or command inside a [`Service`](crate::Service) block.
/// What has no name here is kept as its bytes.
#[derive(Debug, PartialEq, Eq, PartialOrd, Ord)]
pub enum Code {
    // C0
    NUL,
    ETX,
    BS,
    FF,
    CR,
    HCR,
    Ext1(Ext1),
    P16(u16),
    // G0
    Space,
    ExclamationMark,
    QuotationMark,
    NumberSign,
    DollarSign,
    PercentSign,
    Ampersand,
    Apostrophe,
    LeftParenthesis,
    RightParenthesis,
    Asterisk,
    PlusSign,
    Comma,
    HyphenMinus,
    FullStop,
    Solidus,
    Zero,
    One,
    Two,
    Three,
    Four,
    Five,
    Six,
    Seven,
    Eight,
    Nine,
    Colon,
    SemiColon,
    LessThan,
    Equals,
    GreaterThan,
    QuestionMark,
    CommercialAt,
    LatinCapitalA,
    LatinCapitalB,
    LatinCapitalC,
    LatinCapitalD,
    LatinCapitalE,
    LatinCapitalF,
    LatinCapitalG,
    LatinCapitalH,
    LatinCapitalI,
    LatinCapitalJ,
    LatinCapitalK,
    LatinCapitalL,
    LatinCapitalM,
    LatinCapitalN,
    LatinCapitalO,
    LatinCapitalP,
    LatinCapitalQ,
    LatinCapitalR,
    LatinCapitalS,
    LatinCapitalT,
    LatinCapitalU,
    LatinCapitalV,
    LatinCapitalW,
    LatinCapitalX,
    LatinCapitalY,
    LatinCapitalZ,
    LeftSquareBracket,
    ReverseSolidus,
    RightSquareBracket,
    CircumflexAccent,
    LowLine,
    GraveAccent,
    LatinLowerA,
    LatinLowerB,
    LatinLowerC,
    LatinLowerD,
    LatinLowerE,
    LatinLowerF,
    LatinLowerG,
    LatinLowerH,
    LatinLowerI,
    LatinLowerJ,
    LatinLowerK,
    LatinLowerL,
    LatinLowerM,
    LatinLowerN,
    LatinLowerO,
    LatinLowerP,
    LatinLowerQ,
    LatinLowerR,
    LatinLowerS,
    LatinLowerT,
    LatinLowerU,
    LatinLowerV,
    LatinLowerW,
    LatinLowerX,
    LatinLowerY,
    LatinLowerZ,
    LeftCurlyBracket,
    VerticalLine,
    RightCurlyBracket,
    Tilde,
    MusicalSymbolEighthNote,
    // C1
    SetCurrentWindow0,
    SetCurrentWindow1,
    SetCurrentWindow2,
    SetCurrentWindow3,
    SetCurrentWindow4,
    SetCurrentWindow5,
    SetCurrentWindow6,
    SetCurrentWindow7,
    ClearWindows(WindowBits),
    DisplayWindows(WindowBits),
    HideWindows(WindowBits),
    ToggleWindows(WindowBits),
    DeleteWindows(WindowBits),
    Delay(u8),
    DelayCancel,
    Reset,
    SetPenAttributes(SetPenAttributesArgs),
    SetPenColor(SetPenColorArgs),
    SetPenLocation(SetPenLocationArgs),
    SetWindowAttributes(SetWindowAttributesArgs),
    DefineWindow(DefineWindowArgs),
    // G1
    NonBreakingSpace,
    InvertedExclamationMark,
    CentSign,
    PoundSign,
    GeneralCurrencySign,
    YenSign,
    BrokenVerticalBar,
    SectionSign,
    Umlaut,
    CopyrightSign,
    FeminineOrdinalSign,
    LeftDoubleAngleQuote,
    LogicalNotSign,
    SoftHyphen,
    RegisteredTrademarkSign,
    SpacingMacronLongAccent,
    DegreeSign,
    PlusOrMinusSign,
    Superscript2,
    Superscript3,
    SpacingAccuteAccent,
    MicroSign,
    ParagraphSign,
    MiddleDot,
    SpacingCedilla,
    Superscript1,
    MasculineOrdinalSign,
    RightDoubleAngleQuote,
    Fraction14,
    Fraction12,
    Fraction34,
    InvertedQuestionMark,
    LatinCapitalAWithGrave,
    LatinCapitalAWithAcute,
    LatinCapitalAWithCircumflex,
    LatinCapitalAWithTilde,
    LatinCapitalAWithDiaeresis,
    LatinCapitalAWithRingAbove,
    LatinCapitalAe,
    LatinCapitalCWithCedilla,
    LatinCapitalEWithGrave,
    LatinCapitalEWithAcute,
    LatinCapitalEWithCircumflex,
    LatinCapitalEWithDiaeseris,
    LatinCapitalIWithGrave,
    LatinCapitalIWithAcute,
    LatinCapitalIWithCircumflex,
    LatinCapitalIWithDiaeseris,
    LatinCapitalEth,
    LatinCapitalNWithTilde,
    LatinCapitalOWithGrave,
    LatinCapitalOWithAcute,
    LatinCapitalOWithCircumflex,
    LatinCapitalOWithTilde,
    LatinCapitalOWithDiaeresis,
    MultiplicationSign,
    LatinCapitalOWithStroke,
    LatinCapitalUWithGrave,
    LatinCapitalUWithAcute,
    LatinCapitalUWithCircumflex,
    LatinCapitalUWithDiaeresis,
    LatinCapitalYWithAcute,
    LatinCapitalThorn,
    LatinLowerSharpS,
    LatinLowerAWithGrave,
    LatinLowerAWithAcute,
    LatinLowerAWithCircumflex,
    LatinLowerAWithTilde,
    LatinLowerAWithDiaeresis,
    LatinLowerAWithRingAbove,
    LatinLowerAe,
    LatinLowerCWithCedilla,
    LatinLowerEWithGrave,
    LatinLowerEWithAcute,
    LatinLowerEWithCircumflex,
    LatinLowerEWithDiaeseris,
    LatinLowerIWithGrave,
    LatinLowerIWithAcute,
    LatinLowerIWithCircumflex,
    LatinLowerIWithDiaeseris,
    LatinLowerEth,
    LatinLowerNWithTilde,
    LatinLowerOWithGrave,
    LatinLowerOWithAcute,
    LatinLowerOWithCircumflex,
    LatinLowerOWithTilde,
    LatinLowerOWithDiaeresis,
    DivisionSign,
    LatinLowerOWithStroke,
    LatinLowerUWithGrave,
    LatinLowerUWithAcute,
    LatinLowerUWithCircumflex,
    LatinLowerUWithDiaeresis,
    LatinLowerYWithAcute,
    LatinLowerThorn,
    LatinLowerYWithDiaeresis,
    Unknown(Vec<u8>),
}

/// A [`Code`] with its unnamed bytes as a sequence.
pub enum CodeView {
    /// A code that is neither behind `EXT1` nor unknown.
    Plain(Code),
    /// A symbol behind the `EXT1` byte.
    Ext1(Ext1View),
    /// Anything else, as its bytes.
    Unknown(Seq<u8>),
}

impl View for Code {
    type V = CodeView;

    open spec fn view(&self) -> CodeView {
        match *self {
            Code::Unknown(data) => CodeView::Unknown(data@),
            Code::Ext1(ext1) => CodeView::Ext1(ext1@),
            plain => CodeView::Plain(plain),
        }
    }
}

impl Code {
    /// The code that the single byte `b` stands for: the characters of G0 and
    /// G1 and the commands without arguments.
    pub open spec fn spec_symbol(b: u8) -> Option<Code> {
        match b {
            0x00 => Some(Code::NUL),
            0x03 => Some(Code::ETX),
            0x08 => Some(Code::BS),
            0x0C => Some(Code::FF),
            0x0D => Some(Code::CR),
            0x0E => Some(Code::HCR),
            0x20 => Some(Code::Space),
            0x21 => Some(Code::ExclamationMark),
            0x22 => Some(Code::QuotationMark),
            0x23 => Some(Code::NumberSign),
            0x24 => Some(Code::DollarSign),
            0x25 => Some(Code::PercentSign),
            0x26 => Some(Code::Ampersand),
            0x27 => Some(Code::Apostrophe),
            0x28 => Some(Code::LeftParenthesis),
            0x29 => Some(Code::RightParenthesis),
            0x2A => Some(Code::Asterisk),
            0x2B => Some(Code::PlusSign),
            0x2C => Some(Code::Comma),
            0x2D => Some(Code::HyphenMinus),
            0x2E => Some(Code::FullStop),
            0x2F => Some(Code::Solidus),
            0x30 => Some(Code::Zero),
            0x31 => Some(Code::One),
            0x32 => Some(Code::Two),
            0x33 => Some(Code::Three),
            0x34 => Some(Code::Four),
            0x35 => Some(Code::Five),
            0x36 => Some(Code::Six),
            0x37 => Some(Code::Seven),
            0x38 => Some(Code::Eight),
            0x39 => Some(Code::Nine),
            0x3A => Some(Code::Colon),
            0x3B => Some(Code::SemiColon),
            0x3C => Some(Code::LessThan),
            0x3D => Some(Code::Equals),
            0x3E => Some(Code::GreaterThan),
            0x3F => Some(Code::QuestionMark),
            0x40 => Some(Code::CommercialAt),
            0x41 => Some(Code::LatinCapitalA),
            0x42 => Some(Code::LatinCapitalB),
            0x43 => Some(Code::LatinCapitalC),
            0x44 => Some(Code::LatinCapitalD),
            0x45 => Some(Code::LatinCapitalE),
            0x46 => Some(Code::LatinCapitalF),
            0x47 => Some(Code::LatinCapitalG),
            0x48 => Some(Code::LatinCapitalH),
            0x49 => Some(Code::LatinCapitalI),
            0x4A => Some(Code::LatinCapitalJ),
            0x4B => Some(Code::LatinCapitalK),
            0x4C => Some(Code::LatinCapitalL),
            0x4D => Some(Code::LatinCapitalM),
            0x4E => Some(Code::LatinCapitalN),
            0x4F => Some(Code::LatinCapitalO),
            0x50 => Some(Code::LatinCapitalP),
            0x51 => Some(Code::LatinCapitalQ),
            0x52 => Some(Code::LatinCapitalR),
            0x53 => Some(Code::LatinCapitalS),
            0x54 => Some(Code::LatinCapitalT),
            0x55 => Some(Code::LatinCapitalU),
            0x56 => Some(Code::LatinCapitalV),
            0x57 => Some(Code::LatinCapitalW),
            0x58 => Some(Code::LatinCapitalX),
            0x59 => Some(Code::LatinCapitalY),
            0x5A => Some(Code::LatinCapitalZ),
            0x5B => Some(Code::LeftSquareBracket),
            0x5C => Some(Code::ReverseSolidus),
            0x5D => Some(Code::RightSquareBracket),
            0x5E => Some(Code::CircumflexAccent),
            0x5F => Some(Code::LowLine),
            0x60 => Some(Code::GraveAccent),
            0x61 => Some(Code::LatinLowerA),
            0x62 => Some(Code::LatinLowerB),
            0x63 => Some(Code::LatinLowerC),
            0x64 => Some(Code::LatinLowerD),
            0x65 => Some(Code::LatinLowerE),
            0x66 => Some(Code::LatinLowerF),
            0x67 => Some(Code::LatinLowerG),
            0x68 => Some(Code::LatinLowerH),
            0x69 => Some(Code::LatinLowerI),
            0x6A => Some(Code::LatinLowerJ),
            0x6B => Some(Code::LatinLowerK),
            0x6C => Some(Code::LatinLowerL),
            0x6D => Some(Code::LatinLowerM),
            0x6E => Some(Code::LatinLowerN),
            0x6F => Some(Code::LatinLowerO),
            0x70 => Some(Code::LatinLowerP),
            0x71 => Some(Code::LatinLowerQ),
            0x72 => Some(Code::LatinLowerR),
            0x73 => Some(Code::LatinLowerS),
            0x74 => Some(Code::LatinLowerT),
            0x75 => Some(Code::LatinLowerU),
            0x76 => Some(Code::LatinLowerV),
            0x77 => Some(Code::LatinLowerW),
            0x78 => Some(Code::LatinLowerX),
            0x79 => Some(Code::LatinLowerY),
            0x7A => Some(Code::LatinLowerZ),
            0x7B => Some(Code::LeftCurlyBracket),
            0x7C => Some(Code::VerticalLine),
            0x7D => Some(Code::RightCurlyBracket),
            0x7E => Some(Code::Tilde),
            0x7F => Some(Code::MusicalSymbolEighthNote),
            0x80 => Some(Code::SetCurrentWindow0),
            0x81 => Some(Code::SetCurrentWindow1),
            0x82 => Some(Code::SetCurrentWindow2),
            0x83 => Some(Code::SetCurrentWindow3),
            0x84 => Some(Code::SetCurrentWindow4),
            0x85 => Some(Code::SetCurrentWindow5),
            0x86 => Some(Code::SetCurrentWindow6),
            0x87 => Some(Code::SetCurrentWindow7),
            0x8E => Some(Code::DelayCancel),
            0x8F => Some(Code::Reset),
            0xA0 => Some(Code::NonBreakingSpace),
            0xA1 => Some(Code::InvertedExclamationMark),
            0xA2 => Some(Code::CentSign),
            0xA3 => Some(Code::PoundSign),
            0xA4 => Some(Code::GeneralCurrencySign),
            0xA5 => Some(Code::YenSign),
            0xA6 => Some(Code::BrokenVerticalBar),
            0xA7 => Some(Code::SectionSign),
            0xA8 => Some(Code::Umlaut),
            0xA9 => Some(Code::CopyrightSign),
            0xAA => Some(Code::FeminineOrdinalSign),
            0xAB => Some(Code::LeftDoubleAngleQuote),
            0xAC => Some(Code::LogicalNotSign),
            0xAD => Some(Code::SoftHyphen),
            0xAE => Some(Code::RegisteredTrademarkSign),
            0xAF => Some(Code::SpacingMacronLongAccent),
            0xB0 => Some(Code::DegreeSign),
            0xB1 => Some(Code::PlusOrMinusSign),
            0xB2 => Some(Code::Superscript2),
            0xB3 => Some(Code::Superscript3),
            0xB4 => Some(Code::SpacingAccuteAccent),
            0xB5 => Some(Code::MicroSign),
            0xB6 => Some(Code::ParagraphSign),
            0xB7 => Some(Code::MiddleDot),
            0xB8 => Some(Code::SpacingCedilla),
            0xB9 => Some(Code::Superscript1),
            0xBA => Some(Code::MasculineOrdinalSign),
            0xBB => Some(Code::RightDoubleAngleQuote),
            0xBC => Some(Code::Fraction14),
            0xBD => Some(Code::Fraction12),
            0xBE => Some(Code::Fraction34),
            0xBF => Some(Code::InvertedQuestionMark),
            0xC0 => Some(Code::LatinCapitalAWithGrave),
            0xC1 => Some(Code::LatinCapitalAWithAcute),
            0xC2 => Some(Code::LatinCapitalAWithCircumflex),
            0xC3 => Some(Code::LatinCapitalAWithTilde),
            0xC4 => Some(Code::LatinCapitalAWithDiaeresis),
            0xC5 => Some(Code::LatinCapitalAWithRingAbove),
            0xC6 => Some(Code::LatinCapitalAe),
            0xC7 => Some(Code::LatinCapitalCWithCedilla),
            0xC8 => Some(Code::LatinCapitalEWithGrave),
            0xC9 => Some(Code::LatinCapitalEWithAcute),
            0xCA => Some(Code::LatinCapitalEWithCircumflex),
            0xCB => Some(Code::LatinCapitalEWithDiaeseris),
            0xCC => Some(Code::LatinCapitalIWithGrave),
            0xCD => Some(Code::LatinCapitalIWithAcute),
            0xCE => Some(Code::LatinCapitalIWithCircumflex),
            0xCF => Some(Code::LatinCapitalIWithDiaeseris),
            0xD0 => Some(Code::LatinCapitalEth),
            0xD1 => Some(Code::LatinCapitalNWithTilde),
            0xD2 => Some(Code::LatinCapitalOWithGrave),
            0xD3 => Some(Code::LatinCapitalOWithAcute),
            0xD4 => Some(Code::LatinCapitalOWithCircumflex),
            0xD5 => Some(Code::LatinCapitalOWithTilde),
            0xD6 => Some(Code::LatinCapitalOWithDiaeresis),
            0xD7 => Some(Code::MultiplicationSign),
            0xD8 => Some(Code::LatinCapitalOWithStroke),
            0xD9 => Some(Code::LatinCapitalUWithGrave),
            0xDA => Some(Code::LatinCapitalUWithAcute),
            0xDB => Some(Code::LatinCapitalUWithCircumflex),
            0xDC => Some(Code::LatinCapitalUWithDiaeresis),
            0xDD => Some(Code::LatinCapitalYWithAcute),
            0xDE => Some(Code::LatinCapitalThorn),
            0xDF => Some(Code::LatinLowerSharpS),
            0xE0 => Some(Code::LatinLowerAWithGrave),
            0xE1 => Some(Code::LatinLowerAWithAcute),
            0xE2 => Some(Code::LatinLowerAWithCircumflex),
            0xE3 => Some(Code::LatinLowerAWithTilde),
            0xE4 => Some(Code::LatinLowerAWithDiaeresis),
            0xE5 => Some(Code::LatinLowerAWithRingAbove),
            0xE6 => Some(Code::LatinLowerAe),
            0xE7 => Some(Code::LatinLowerCWithCedilla),
            0xE8 => Some(Code::LatinLowerEWithGrave),
            0xE9 => Some(Code::LatinLowerEWithAcute),
            0xEA => Some(Code::LatinLowerEWithCircumflex),
            0xEB => Some(Code::LatinLowerEWithDiaeseris),
            0xEC => Some(Code::LatinLowerIWithGrave),
            0xED => Some(Code::LatinLowerIWithAcute),
            0xEE => Some(Code::LatinLowerIWithCircumflex),
            0xEF => Some(Code::LatinLowerIWithDiaeseris),
            0xF0 => Some(Code::LatinLowerEth),
            0xF1 => Some(Code::LatinLowerNWithTilde),
            0xF2 => Some(Code::LatinLowerOWithGrave),
            0xF3 => Some(Code::LatinLowerOWithAcute),
            0xF4 => Some(Code::LatinLowerOWithCircumflex),
            0xF5 => Some(Code::LatinLowerOWithTilde),
            0xF6 => Some(Code::LatinLowerOWithDiaeresis),
            0xF7 => Some(Code::DivisionSign),
            0xF8 => Some(Code::LatinLowerOWithStroke),
            0xF9 => Some(Code::LatinLowerUWithGrave),
            0xFA => Some(Code::LatinLowerUWithAcute),
            0xFB => Some(Code::LatinLowerUWithCircumflex),
            0xFC => Some(Code::LatinLowerUWithDiaeresis),
            0xFD => Some(Code::LatinLowerYWithAcute),
            0xFE => Some(Code::LatinLowerThorn),
            0xFF => Some(Code::LatinLowerYWithDiaeresis),
            _ => None,
        }
    }

    /// The single byte that stands for this code, if there is one.
    pub open spec fn spec_symbol_byte(&self) -> Option<u8> {
        match self {
            Code::NUL => Some(0x00),
            Code::ETX => Some(0x03),
            Code::BS => Some(0x08),
            Code::FF => Some(0x0C),
            Code::CR => Some(0x0D),
            Code::HCR => Some(0x0E),
            Code::Space => Some(0x20),
            Code::ExclamationMark => Some(0x21),
            Code::QuotationMark => Some(0x22),
            Code::NumberSign => Some(0x23),
            Code::DollarSign => Some(0x24),
            Code::PercentSign => Some(0x25),
            Code::Ampersand => Some(0x26),
            Code::Apostrophe => Some(0x27),
            Code::LeftParenthesis => Some(0x28),
            Code::RightParenthesis => Some(0x29),
            Code::Asterisk => Some(0x2A),
            Code::PlusSign => Some(0x2B),
            Code::Comma => Some(0x2C),
            Code::HyphenMinus => Some(0x2D),
            Code::FullStop => Some(0x2E),
            Code::Solidus => Some(0x2F),
            Code::Zero => Some(0x30),
            Code::One => Some(0x31),
            Code::Two => Some(0x32),
            Code::Three => Some(0x33),
            Code::Four => Some(0x34),
            Code::Five => Some(0x35),
            Code::Six => Some(0x36),
            Code::Seven => Some(0x37),
            Code::Eight => Some(0x38),
            Code::Nine => Some(0x39),
            Code::Colon => Some(0x3A),
            Code::SemiColon => Some(0x3B),
            Code::LessThan => Some(0x3C),
            Code::Equals => Some(0x3D),
            Code::GreaterThan => Some(0x3E),
            Code::QuestionMark => Some(0x3F),
            Code::CommercialAt => Some(0x40),
            Code::LatinCapitalA => Some(0x41),
            Code::LatinCapitalB => Some(0x42),
            Code::LatinCapitalC => Some(0x43),
            Code::LatinCapitalD => Some(0x44),
            Code::LatinCapitalE => Some(0x45),
            Code::LatinCapitalF => Some(0x46),
            Code::LatinCapitalG => Some(0x47),
            Code::LatinCapitalH => Some(0x48),
            Code::LatinCapitalI => Some(0x49),
            Code::LatinCapitalJ => Some(0x4A),
            Code::LatinCapitalK => Some(0x4B),
            Code::LatinCapitalL => Some(0x4C),
            Code::LatinCapitalM => Some(0x4D),
            Code::LatinCapitalN => Some(0x4E),
            Code::LatinCapitalO => Some(0x4F),
            Code::LatinCapitalP => Some(0x50),
            Code::LatinCapitalQ => Some(0x51),
            Code::LatinCapitalR => Some(0x52),
            Code::LatinCapitalS => Some(0x53),
            Code::LatinCapitalT => Some(0x54),
            Code::LatinCapitalU => Some(0x55),
            Code::LatinCapitalV => Some(0x56),
            Code::LatinCapitalW => Some(0x57),
            Code::LatinCapitalX => Some(0x58),
            Code::LatinCapitalY => Some(0x59),
            Code::LatinCapitalZ => Some(0x5A),
            Code::LeftSquareBracket => Some(0x5B),
            Code::ReverseSolidus => Some(0x5C),
            Code::RightSquareBracket => Some(0x5D),
            Code::CircumflexAccent => Some(0x5E),
            Code::LowLine => Some(0x5F),
            Code::GraveAccent => Some(0x60),
            Code::LatinLowerA => Some(0x61),
            Code::LatinLowerB => Some(0x62),
            Code::LatinLowerC => Some(0x63),
            Code::LatinLowerD => Some(0x64),
            Code::LatinLowerE => Some(0x65),
            Code::LatinLowerF => Some(0x66),
            Code::LatinLowerG => Some(0x67),
            Code::LatinLowerH => Some(0x68),
            Code::LatinLowerI => Some(0x69),
            Code::LatinLowerJ => Some(0x6A),
            Code::LatinLowerK => Some(0x6B),
            Code::LatinLowerL => Some(0x6C),
            Code::LatinLowerM => Some(0x6D),
            Code::LatinLowerN => Some(0x6E),
            Code::LatinLowerO => Some(0x6F),
            Code::LatinLowerP => Some(0x70),
            Code::LatinLowerQ => Some(0x71),
            Code::LatinLowerR => Some(0x72),
            Code::LatinLowerS => Some(0x73),
            Code::LatinLowerT => Some(0x74),
            Code::LatinLowerU => Some(0x75),
            Code::LatinLowerV => Some(0x76),
            Code::LatinLowerW => Some(0x77),
            Code::LatinLowerX => Some(0x78),
            Code::LatinLowerY => Some(0x79),
            Code::LatinLowerZ => Some(0x7A),
            Code::LeftCurlyBracket => Some(0x7B),
            Code::VerticalLine => Some(0x7C),
            Code::RightCurlyBracket => Some(0x7D),
            Code::Tilde => Some(0x7E),
            Code::MusicalSymbolEighthNote => Some(0x7F),
            Code::SetCurrentWindow0 => Some(0x80),
            Code::SetCurrentWindow1 => Some(0x81),
            Code::SetCurrentWindow2 => Some(0x82),
            Code::SetCurrentWindow3 => Some(0x83),
            Code::SetCurrentWindow4 => Some(0x84),
            Code::SetCurrentWindow5 => Some(0x85),
            Code::SetCurrentWindow6 => Some(0x86),
            Code::SetCurrentWindow7 => Some(0x87),
            Code::DelayCancel => Some(0x8E),
            Code::Reset => Some(0x8F),
            Code::NonBreakingSpace => Some(0xA0),
            Code::InvertedExclamationMark => Some(0xA1),
            Code::CentSign => Some(0xA2),
            Code::PoundSign => Some(0xA3),
            Code::GeneralCurrencySign => Some(0xA4),
            Code::YenSign => Some(0xA5),
            Code::BrokenVerticalBar => Some(0xA6),
            Code::SectionSign => Some(0xA7),
            Code::Umlaut => Some(0xA8),
            Code::CopyrightSign => Some(0xA9),
            Code::FeminineOrdinalSign => Some(0xAA),
            Code::LeftDoubleAngleQuote => Some(0xAB),
            Code::LogicalNotSign => Some(0xAC),
            Code::SoftHyphen => Some(0xAD),
            Code::RegisteredTrademarkSign => Some(0xAE),
            Code::SpacingMacronLongAccent => Some(0xAF),
            Code::DegreeSign => Some(0xB0),
            Code::PlusOrMinusSign => Some(0xB1),
            Code::Superscript2 => Some(0xB2),
            Code::Superscript3 => Some(0xB3),
            Code::SpacingAccuteAccent => Some(0xB4),
            Code::MicroSign => Some(0xB5),
            Code::ParagraphSign => Some(0xB6),
            Code::MiddleDot => Some(0xB7),
            Code::SpacingCedilla => Some(0xB8),
            Code::Superscript1 => Some(0xB9),
            Code::MasculineOrdinalSign => Some(0xBA),
            Code::RightDoubleAngleQuote => Some(0xBB),
            Code::Fraction14 => Some(0xBC),
            Code::Fraction12 => Some(0xBD),
            Code::Fraction34 => Some(0xBE),
            Code::InvertedQuestionMark => Some(0xBF),
            Code::LatinCapitalAWithGrave => Some(0xC0),
            Code::LatinCapitalAWithAcute => Some(0xC1),
            Code::LatinCapitalAWithCircumflex => Some(0xC2),
            Code::LatinCapitalAWithTilde => Some(0xC3),
            Code::LatinCapitalAWithDiaeresis => Some(0xC4),
            Code::LatinCapitalAWithRingAbove => Some(0xC5),
            Code::LatinCapitalAe => Some(0xC6),
            Code::LatinCapitalCWithCedilla => Some(0xC7),
            Code::LatinCapitalEWithGrave => Some(0xC8),
            Code::LatinCapitalEWithAcute => Some(0xC9),
            Code::LatinCapitalEWithCircumflex => Some(0xCA),
            Code::LatinCapitalEWithDiaeseris => Some(0xCB),
            Code::LatinCapitalIWithGrave => Some(0xCC),
            Code::LatinCapitalIWithAcute => Some(0xCD),
            Code::LatinCapitalIWithCircumflex => Some(0xCE),
            Code::LatinCapitalIWithDiaeseris => Some(0xCF),
            Code::LatinCapitalEth => Some(0xD0),
            Code::LatinCapitalNWithTilde => Some(0xD1),
            Code::LatinCapitalOWithGrave => Some(0xD2),
            Code::LatinCapitalOWithAcute => Some(0xD3),
            Code::LatinCapitalOWithCircumflex => Some(0xD4),
            Code::LatinCapitalOWithTilde => Some(0xD5),
            Code::LatinCapitalOWithDiaeresis => Some(0xD6),
            Code::MultiplicationSign => Some(0xD7),
            Code::LatinCapitalOWithStroke => Some(0xD8),
            Code::LatinCapitalUWithGrave => Some(0xD9),
            Code::LatinCapitalUWithAcute => Some(0xDA),
            Code::LatinCapitalUWithCircumflex => Some(0xDB),
            Code::LatinCapitalUWithDiaeresis => Some(0xDC),
            Code::LatinCapitalYWithAcute => Some(0xDD),
            Code::LatinCapitalThorn => Some(0xDE),
            Code::LatinLowerSharpS => Some(0xDF),
            Code::LatinLowerAWithGrave => Some(0xE0),
            Code::LatinLowerAWithAcute => Some(0xE1),
            Code::LatinLowerAWithCircumflex => Some(0xE2),
            Code::LatinLowerAWithTilde => Some(0xE3),
            Code::LatinLowerAWithDiaeresis => Some(0xE4),
            Code::LatinLowerAWithRingAbove => Some(0xE5),
            Code::LatinLowerAe => Some(0xE6),
            Code::LatinLowerCWithCedilla => Some(0xE7),
            Code::LatinLowerEWithGrave => Some(0xE8),
            Code::LatinLowerEWithAcute => Some(0xE9),
            Code::LatinLowerEWithCircumflex => Some(0xEA),
            Code::LatinLowerEWithDiaeseris => Some(0xEB),
            Code::LatinLowerIWithGrave => Some(0xEC),
            Code::LatinLowerIWithAcute => Some(0xED),
            Code::LatinLowerIWithCircumflex => Some(0xEE),
            Code::LatinLowerIWithDiaeseris => Some(0xEF),
            Code::LatinLowerEth => Some(0xF0),
            Code::LatinLowerNWithTilde => Some(0xF1),
            Code::LatinLowerOWithGrave => Some(0xF2),
            Code::LatinLowerOWithAcute => Some(0xF3),
            Code::LatinLowerOWithCircumflex => Some(0xF4),
            Code::LatinLowerOWithTilde => Some(0xF5),
            Code::LatinLowerOWithDiaeresis => Some(0xF6),
            Code::DivisionSign => Some(0xF7),
            Code::LatinLowerOWithStroke => Some(0xF8),
            Code::LatinLowerUWithGrave => Some(0xF9),
            Code::LatinLowerUWithAcute => Some(0xFA),
            Code::LatinLowerUWithCircumflex => Some(0xFB),
            Code::LatinLowerUWithDiaeresis => Some(0xFC),
            Code::LatinLowerYWithAcute => Some(0xFD),
            Code::LatinLowerThorn => Some(0xFE),
            Code::LatinLowerYWithDiaeresis => Some(0xFF),
            _ => None,
        }
    }

    /// The code that the single byte `b` stands for.
    #[verifier::when_used_as_spec(spec_symbol)]
    pub fn symbol(b: u8) -> (r: Option<Code>)
        ensures
            r == Code::symbol(b),
    {
        match b {
            0x00 => Some(Code::NUL),
            0x03 => Some(Code::ETX),
            0x08 => Some(Code::BS),
            0x0C => Some(Code::FF),
            0x0D => Some(Code::CR),
            0x0E => Some(Code::HCR),
            0x20 => Some(Code::Space),
            0x21 => Some(Code::ExclamationMark),
            0x22 => Some(Code::QuotationMark),
            0x23 => Some(Code::NumberSign),
            0x24 => Some(Code::DollarSign),
            0x25 => Some(Code::PercentSign),
            0x26 => Some(Code::Ampersand),
            0x27 => Some(Code::Apostrophe),
            0x28 => Some(Code::LeftParenthesis),
            0x29 => Some(Code::RightParenthesis),
            0x2A => Some(Code::Asterisk),
            0x2B => Some(Code::PlusSign),
            0x2C => Some(Code::Comma),
            0x2D => Some(Code::HyphenMinus),
            0x2E => Some(Code::FullStop),
            0x2F => Some(Code::Solidus),
            0x30 => Some(Code::Zero),
            0x31 => Some(Code::One),
            0x32 => Some(Code::Two),
            0x33 => Some(Code::Three),
            0x34 => Some(Code::Four),
            0x35 => Some(Code::Five),
            0x36 => Some(Code::Six),
            0x37 => Some(Code::Seven),
            0x38 => Some(Code::Eight),
            0x39 => Some(Code::Nine),
            0x3A => Some(Code::Colon),
            0x3B => Some(Code::SemiColon),
            0x3C => Some(Code::LessThan),
            0x3D => Some(Code::Equals),
            0x3E => Some(Code::GreaterThan),
            0x3F => Some(Code::QuestionMark),
            0x40 => Some(Code::CommercialAt),
            0x41 => Some(Code::LatinCapitalA),
            0x42 => Some(Code::LatinCapitalB),
            0x43 => Some(Code::LatinCapitalC),
            0x44 => Some(Code::LatinCapitalD),
            0x45 => Some(Code::LatinCapitalE),
            0x46 => Some(Code::LatinCapitalF),
            0x47 => Some(Code::LatinCapitalG),
            0x48 => Some(Code::LatinCapitalH),
            0x49 => Some(Code::LatinCapitalI),
            0x4A => Some(Code::LatinCapitalJ),
            0x4B => Some(Code::LatinCapitalK),
            0x4C => Some(Code::LatinCapitalL),
            0x4D => Some(Code::LatinCapitalM),
            0x4E => Some(Code::LatinCapitalN),
            0x4F => Some(Code::LatinCapitalO),
            0x50 => Some(Code::LatinCapitalP),
            0x51 => Some(Code::LatinCapitalQ),
            0x52 => Some(Code::LatinCapitalR),
            0x53 => Some(Code::LatinCapitalS),
            0x54 => Some(Code::LatinCapitalT),
            0x55 => Some(Code::LatinCapitalU),
            0x56 => Some(Code::LatinCapitalV),
            0x57 => Some(Code::LatinCapitalW),
            0x58 => Some(Code::LatinCapitalX),
            0x59 => Some(Code::LatinCapitalY),
            0x5A => Some(Code::LatinCapitalZ),
            0x5B => Some(Code::LeftSquareBracket),
            0x5C => Some(Code::ReverseSolidus),
            0x5D => Some(Code::RightSquareBracket),
            0x5E => Some(Code::CircumflexAccent),
            0x5F => Some(Code::LowLine),
            0x60 => Some(Code::GraveAccent),
            0x61 => Some(Code::LatinLowerA),
            0x62 => Some(Code::LatinLowerB),
            0x63 => Some(Code::LatinLowerC),
            0x64 => Some(Code::LatinLowerD),
            0x65 => Some(Code::LatinLowerE),
            0x66 => Some(Code::LatinLowerF),
            0x67 => Some(Code::LatinLowerG),
            0x68 => Some(Code::LatinLowerH),
            0x69 => Some(Code::LatinLowerI),
            0x6A => Some(Code::LatinLowerJ),
            0x6B => Some(Code::LatinLowerK),
            0x6C => Some(Code::LatinLowerL),
            0x6D => Some(Code::LatinLowerM),
            0x6E => Some(Code::LatinLowerN),
            0x6F => Some(Code::LatinLowerO),
            0x70 => Some(Code::LatinLowerP),
            0x71 => Some(Code::LatinLowerQ),
            0x72 => Some(Code::LatinLowerR),
            0x73 => Some(Code::LatinLowerS),
            0x74 => Some(Code::LatinLowerT),
            0x75 => Some(Code::LatinLowerU),
            0x76 => Some(Code::LatinLowerV),
            0x77 => Some(Code::LatinLowerW),
            0x78 => Some(Code::LatinLowerX),
            0x79 => Some(Code::LatinLowerY),
            0x7A => Some(Code::LatinLowerZ),
            0x7B => Some(Code::LeftCurlyBracket),
            0x7C => Some(Code::VerticalLine),
            0x7D => Some(Code::RightCurlyBracket),
            0x7E => Some(Code::Tilde),
            0x7F => Some(Code::MusicalSymbolEighthNote),
            0x80 => Some(Code::SetCurrentWindow0),
            0x81 => Some(Code::SetCurrentWindow1),
            0x82 => Some(Code::SetCurrentWindow2),
            0x83 => Some(Code::SetCurrentWindow3),
            0x84 => Some(Code::SetCurrentWindow4),
            0x85 => Some(Code::SetCurrentWindow5),
            0x86 => Some(Code::SetCurrentWindow6),
            0x87 => Some(Code::SetCurrentWindow7),
            0x8E => Some(Code::DelayCancel),
            0x8F => Some(Code::Reset),
            0xA0 => Some(Code::NonBreakingSpace),
            0xA1 => Some(Code::InvertedExclamationMark),
            0xA2 => Some(Code::CentSign),
            0xA3 => Some(Code::PoundSign),
            0xA4 => Some(Code::GeneralCurrencySign),
            0xA5 => Some(Code::YenSign),
            0xA6 => Some(Code::BrokenVerticalBar),
            0xA7 => Some(Code::SectionSign),
            0xA8 => Some(Code::Umlaut),
            0xA9 => Some(Code::CopyrightSign),
            0xAA => Some(Code::FeminineOrdinalSign),
            0xAB => Some(Code::LeftDoubleAngleQuote),
            0xAC => Some(Code::LogicalNotSign),
            0xAD => Some(Code::SoftHyphen),
            0xAE => Some(Code::RegisteredTrademarkSign),
            0xAF => Some(Code::SpacingMacronLongAccent),
            0xB0 => Some(Code::DegreeSign),
            0xB1 => Some(Code::PlusOrMinusSign),
            0xB2 => Some(Code::Superscript2),
            0xB3 => Some(Code::Superscript3),
            0xB4 => Some(Code::SpacingAccuteAccent),
            0xB5 => Some(Code::MicroSign),
            0xB6 => Some(Code::ParagraphSign),
            0xB7 => Some(Code::MiddleDot),
            0xB8 => Some(Code::SpacingCedilla),
            0xB9 => Some(Code::Superscript1),
            0xBA => Some(Code::MasculineOrdinalSign),
            0xBB => Some(Code::RightDoubleAngleQuote),
            0xBC => Some(Code::Fraction14),
            0xBD => Some(Code::Fraction12),
            0xBE => Some(Code::Fraction34),
            0xBF => Some(Code::InvertedQuestionMark),
            0xC0 => Some(Code::LatinCapitalAWithGrave),
            0xC1 => Some(Code::LatinCapitalAWithAcute),
            0xC2 => Some(Code::LatinCapitalAWithCircumflex),
            0xC3 => Some(Code::LatinCapitalAWithTilde),
            0xC4 => Some(Code::LatinCapitalAWithDiaeresis),
            0xC5 => Some(Code::LatinCapitalAWithRingAbove),
            0xC6 => Some(Code::LatinCapitalAe),
            0xC7 => Some(Code::LatinCapitalCWithCedilla),
            0xC8 => Some(Code::LatinCapitalEWithGrave),
            0xC9 => Some(Code::LatinCapitalEWithAcute),
            0xCA => Some(Code::LatinCapitalEWithCircumflex),
            0xCB => Some(Code::LatinCapitalEWithDiaeseris),
            0xCC => Some(Code::LatinCapitalIWithGrave),
            0xCD => Some(Code::LatinCapitalIWithAcute),
            0xCE => Some(Code::LatinCapitalIWithCircumflex),
            0xCF => Some(Code::LatinCapitalIWithDiaeseris),
            0xD0 => Some(Code::LatinCapitalEth),
            0xD1 => Some(Code::LatinCapitalNWithTilde),
            0xD2 => Some(Code::LatinCapitalOWithGrave),
            0xD3 => Some(Code::LatinCapitalOWithAcute),
            0xD4 => Some(Code::LatinCapitalOWithCircumflex),
            0xD5 => Some(Code::LatinCapitalOWithTilde),
            0xD6 => Some(Code::LatinCapitalOWithDiaeresis),
            0xD7 => Some(Code::MultiplicationSign),
            0xD8 => Some(Code::LatinCapitalOWithStroke),
            0xD9 => Some(Code::LatinCapitalUWithGrave),
            0xDA => Some(Code::LatinCapitalUWithAcute),
            0xDB => Some(Code::LatinCapitalUWithCircumflex),
            0xDC => Some(Code::LatinCapitalUWithDiaeresis),
            0xDD => Some(Code::LatinCapitalYWithAcute),
            0xDE => Some(Code::LatinCapitalThorn),
            0xDF => Some(Code::LatinLowerSharpS),
            0xE0 => Some(Code::LatinLowerAWithGrave),
            0xE1 => Some(Code::LatinLowerAWithAcute),
            0xE2 => Some(Code::LatinLowerAWithCircumflex),
            0xE3 => Some(Code::LatinLowerAWithTilde),
            0xE4 => Some(Code::LatinLowerAWithDiaeresis),
            0xE5 => Some(Code::LatinLowerAWithRingAbove),
            0xE6 => Some(Code::LatinLowerAe),
            0xE7 => Some(Code::LatinLowerCWithCedilla),
            0xE8 => Some(Code::LatinLowerEWithGrave),
            0xE9 => Some(Code::LatinLowerEWithAcute),
            0xEA => Some(Code::LatinLowerEWithCircumflex),
            0xEB => Some(Code::LatinLowerEWithDiaeseris),
            0xEC => Some(Code::LatinLowerIWithGrave),
            0xED => Some(Code::LatinLowerIWithAcute),
            0xEE => Some(Code::LatinLowerIWithCircumflex),
            0xEF => Some(Code::LatinLowerIWithDiaeseris),
            0xF0 => Some(Code::LatinLowerEth),
            0xF1 => Some(Code::LatinLowerNWithTilde),
            0xF2 => Some(Code::LatinLowerOWithGrave),
            0xF3 => Some(Code::LatinLowerOWithAcute),
            0xF4 => Some(Code::LatinLowerOWithCircumflex),
            0xF5 => Some(Code::LatinLowerOWithTilde),
            0xF6 => Some(Code::LatinLowerOWithDiaeresis),
            0xF7 => Some(Code::DivisionSign),
            0xF8 => Some(Code::LatinLowerOWithStroke),
            0xF9 => Some(Code::LatinLowerUWithGrave),
            0xFA => Some(Code::LatinLowerUWithAcute),
            0xFB => Some(Code::LatinLowerUWithCircumflex),
            0xFC => Some(Code::LatinLowerUWithDiaeresis),
            0xFD => Some(Code::LatinLowerYWithAcute),
            0xFE => Some(Code::LatinLowerThorn),
            0xFF => Some(Code::LatinLowerYWithDiaeresis),
            _ => None,
        }
    }

    /// The single byte that stands for this code, if there is one.
    #[verifier::when_used_as_spec(spec_symbol_byte)]
    pub fn symbol_byte(&self) -> (r: Option<u8>)
        ensures
            r == self.symbol_byte(),
    {
        match self {
            Code::NUL => Some(0x00),
            Code::ETX => Some(0x03),
            Code::BS => Some(0x08),
            Code::FF => Some(0x0C),
            Code::CR => Some(0x0D),
            Code::HCR => Some(0x0E),
            Code::Space => Some(0x20),
            Code::ExclamationMark => Some(0x21),
            Code::QuotationMark => Some(0x22),
            Code::NumberSign => Some(0x23),
            Code::DollarSign => Some(0x24),
            Code::PercentSign => Some(0x25),
            Code::Ampersand => Some(0x26),
            Code::Apostrophe => Some(0x27),
            Code::LeftParenthesis => Some(0x28),
            Code::RightParenthesis => Some(0x29),
            Code::Asterisk => Some(0x2A),
            Code::PlusSign => Some(0x2B),
            Code::Comma => Some(0x2C),
            Code::HyphenMinus => Some(0x2D),
            Code::FullStop => Some(0x2E),
            Code::Solidus => Some(0x2F),
            Code::Zero => Some(0x30),
            Code::One => Some(0x31),
            Code::Two => Some(0x32),
            Code::Three => Some(0x33),
            Code::Four => Some(0x34),
            Code::Five => Some(0x35),
            Code::Six => Some(0x36),
            Code::Seven => Some(0x37),
            Code::Eight => Some(0x38),
            Code::Nine => Some(0x39),
            Code::Colon => Some(0x3A),
            Code::SemiColon => Some(0x3B),
            Code::LessThan => Some(0x3C),
            Code::Equals => Some(0x3D),
            Code::GreaterThan => Some(0x3E),
            Code::QuestionMark => Some(0x3F),
            Code::CommercialAt => Some(0x40),
            Code::LatinCapitalA => Some(0x41),
            Code::LatinCapitalB => Some(0x42),
            Code::LatinCapitalC => Some(0x43),
            Code::LatinCapitalD => Some(0x44),
            Code::LatinCapitalE => Some(0x45),
            Code::LatinCapitalF => Some(0x46),
            Code::LatinCapitalG => Some(0x47),
            Code::LatinCapitalH => Some(0x48),
            Code::LatinCapitalI => Some(0x49),
            Code::LatinCapitalJ => Some(0x4A),
            Code::LatinCapitalK => Some(0x4B),
            Code::LatinCapitalL => Some(0x4C),
            Code::LatinCapitalM => Some(0x4D),
            Code::LatinCapitalN => Some(0x4E),
            Code::LatinCapitalO => Some(0x4F),
            Code::LatinCapitalP => Some(0x50),
            Code::LatinCapitalQ => Some(0x51),
            Code::LatinCapitalR => Some(0x52),
            Code::LatinCapitalS => Some(0x53),
            Code::LatinCapitalT => Some(0x54),
            Code::LatinCapitalU => Some(0x55),
            Code::LatinCapitalV => Some(0x56),
            Code::LatinCapitalW => Some(0x57),
            Code::LatinCapitalX => Some(0x58),
            Code::LatinCapitalY => Some(0x59),
            Code::LatinCapitalZ => Some(0x5A),
            Code::LeftSquareBracket => Some(0x5B),
            Code::ReverseSolidus => Some(0x5C),
            Code::RightSquareBracket => Some(0x5D),
            Code::CircumflexAccent => Some(0x5E),
            Code::LowLine => Some(0x5F),
            Code::GraveAccent => Some(0x60),
            Code::LatinLowerA => Some(0x61),
            Code::LatinLowerB => Some(0x62),
            Code::LatinLowerC => Some(0x63),
            Code::LatinLowerD => Some(0x64),
            Code::LatinLowerE => Some(0x65),
            Code::LatinLowerF => Some(0x66),
            Code::LatinLowerG => Some(0x67),
            Code::LatinLowerH => Some(0x68),
            Code::LatinLowerI => Some(0x69),
            Code::LatinLowerJ => Some(0x6A),
            Code::LatinLowerK => Some(0x6B),
            Code::LatinLowerL => Some(0x6C),
            Code::LatinLowerM => Some(0x6D),
            Code::LatinLowerN => Some(0x6E),
            Code::LatinLowerO => Some(0x6F),
            Code::LatinLowerP => Some(0x70),
            Code::LatinLowerQ => Some(0x71),
            Code::LatinLowerR => Some(0x72),
            Code::LatinLowerS => Some(0x73),
            Code::LatinLowerT => Some(0x74),
            Code::LatinLowerU => Some(0x75),
            Code::LatinLowerV => Some(0x76),
            Code::LatinLowerW => Some(0x77),
            Code::LatinLowerX => Some(0x78),
            Code::LatinLowerY => Some(0x79),
            Code::LatinLowerZ => Some(0x7A),
            Code::LeftCurlyBracket => Some(0x7B),
            Code::VerticalLine => Some(0x7C),
            Code::RightCurlyBracket => Some(0x7D),
            Code::Tilde => Some(0x7E),
            Code::MusicalSymbolEighthNote => Some(0x7F),
            Code::SetCurrentWindow0 => Some(0x80),
            Code::SetCurrentWindow1 => Some(0x81),
            Code::SetCurrentWindow2 => Some(0x82),
            Code::SetCurrentWindow3 => Some(0x83),
            Code::SetCurrentWindow4 => Some(0x84),
            Code::SetCurrentWindow5 => Some(0x85),
            Code::SetCurrentWindow6 => Some(0x86),
            Code::SetCurrentWindow7 => Some(0x87),
            Code::DelayCancel => Some(0x8E),
            Code::Reset => Some(0x8F),
            Code::NonBreakingSpace => Some(0xA0),
            Code::InvertedExclamationMark => Some(0xA1),
            Code::CentSign => Some(0xA2),
            Code::PoundSign => Some(0xA3),
            Code::GeneralCurrencySign => Some(0xA4),
            Code::YenSign => Some(0xA5),
            Code::BrokenVerticalBar => Some(0xA6),
            Code::SectionSign => Some(0xA7),
            Code::Umlaut => Some(0xA8),
            Code::CopyrightSign => Some(0xA9),
            Code::FeminineOrdinalSign => Some(0xAA),
            Code::LeftDoubleAngleQuote => Some(0xAB),
            Code::LogicalNotSign => Some(0xAC),
            Code::SoftHyphen => Some(0xAD),
            Code::RegisteredTrademarkSign => Some(0xAE),
            Code::SpacingMacronLongAccent => Some(0xAF),
            Code::DegreeSign => Some(0xB0),
            Code::PlusOrMinusSign => Some(0xB1),
            Code::Superscript2 => Some(0xB2),
            Code::Superscript3 => Some(0xB3),
            Code::SpacingAccuteAccent => Some(0xB4),
            Code::MicroSign => Some(0xB5),
            Code::ParagraphSign => Some(0xB6),
            Code::MiddleDot => Some(0xB7),
            Code::SpacingCedilla => Some(0xB8),
            Code::Superscript1 => Some(0xB9),
            Code::MasculineOrdinalSign => Some(0xBA),
            Code::RightDoubleAngleQuote => Some(0xBB),
            Code::Fraction14 => Some(0xBC),
            Code::Fraction12 => Some(0xBD),
            Code::Fraction34 => Some(0xBE),
            Code::InvertedQuestionMark => Some(0xBF),
            Code::LatinCapitalAWithGrave => Some(0xC0),
            Code::LatinCapitalAWithAcute => Some(0xC1),
            Code::LatinCapitalAWithCircumflex => Some(0xC2),
            Code::LatinCapitalAWithTilde => Some(0xC3),
            Code::LatinCapitalAWithDiaeresis => Some(0xC4),
            Code::LatinCapitalAWithRingAbove => Some(0xC5),
            Code::LatinCapitalAe => Some(0xC6),
            Code::LatinCapitalCWithCedilla => Some(0xC7),
            Code::LatinCapitalEWithGrave => Some(0xC8),
            Code::LatinCapitalEWithAcute => Some(0xC9),
            Code::LatinCapitalEWithCircumflex => Some(0xCA),
            Code::LatinCapitalEWithDiaeseris => Some(0xCB),
            Code::LatinCapitalIWithGrave => Some(0xCC),
            Code::LatinCapitalIWithAcute => Some(0xCD),
            Code::LatinCapitalIWithCircumflex => Some(0xCE),
            Code::LatinCapitalIWithDiaeseris => Some(0xCF),
            Code::LatinCapitalEth => Some(0xD0),
            Code::LatinCapitalNWithTilde => Some(0xD1),
            Code::LatinCapitalOWithGrave => Some(0xD2),
            Code::LatinCapitalOWithAcute => Some(0xD3),
            Code::LatinCapitalOWithCircumflex => Some(0xD4),
            Code::LatinCapitalOWithTilde => Some(0xD5),
            Code::LatinCapitalOWithDiaeresis => Some(0xD6),
            Code::MultiplicationSign => Some(0xD7),
            Code::LatinCapitalOWithStroke => Some(0xD8),
            Code::LatinCapitalUWithGrave => Some(0xD9),
            Code::LatinCapitalUWithAcute => Some(0xDA),
            Code::LatinCapitalUWithCircumflex => Some(0xDB),
            Code::LatinCapitalUWithDiaeresis => Some(0xDC),
            Code::LatinCapitalYWithAcute => Some(0xDD),
            Code::LatinCapitalThorn => Some(0xDE),
            Code::LatinLowerSharpS => Some(0xDF),
            Code::LatinLowerAWithGrave => Some(0xE0),
            Code::LatinLowerAWithAcute => Some(0xE1),
            Code::LatinLowerAWithCircumflex => Some(0xE2),
            Code::LatinLowerAWithTilde => Some(0xE3),
            Code::LatinLowerAWithDiaeresis => Some(0xE4),
            Code::LatinLowerAWithRingAbove => Some(0xE5),
            Code::LatinLowerAe => Some(0xE6),
            Code::LatinLowerCWithCedilla => Some(0xE7),
            Code::LatinLowerEWithGrave => Some(0xE8),
            Code::LatinLowerEWithAcute => Some(0xE9),
            Code::LatinLowerEWithCircumflex => Some(0xEA),
            Code::LatinLowerEWithDiaeseris => Some(0xEB),
            Code::LatinLowerIWithGrave => Some(0xEC),
            Code::LatinLowerIWithAcute => Some(0xED),
            Code::LatinLowerIWithCircumflex => Some(0xEE),
            Code::LatinLowerIWithDiaeseris => Some(0xEF),
            Code::LatinLowerEth => Some(0xF0),
            Code::LatinLowerNWithTilde => Some(0xF1),
            Code::LatinLowerOWithGrave => Some(0xF2),
            Code::LatinLowerOWithAcute => Some(0xF3),
            Code::LatinLowerOWithCircumflex => Some(0xF4),
            Code::LatinLowerOWithTilde => Some(0xF5),
            Code::LatinLowerOWithDiaeresis => Some(0xF6),
            Code::DivisionSign => Some(0xF7),
            Code::LatinLowerOWithStroke => Some(0xF8),
            Code::LatinLowerUWithGrave => Some(0xF9),
            Code::LatinLowerUWithAcute => Some(0xFA),
            Code::LatinLowerUWithCircumflex => Some(0xFB),
            Code::LatinLowerUWithDiaeresis => Some(0xFC),
            Code::LatinLowerYWithAcute => Some(0xFD),
            Code::LatinLowerThorn => Some(0xFE),
            Code::LatinLowerYWithDiaeresis => Some(0xFF),
            _ => None,
        }
    }

    /// A byte stands for a code exactly when that code's byte is this byte.
    pub proof fn lemma_symbol_inverse(b: u8, code: Code)
        ensures
            Code::symbol(b) == Some(code) <==> code.symbol_byte() == Some(b),
    {
    }
}

impl Clone for Code {
    fn clone(&self) -> (r: Code)
        ensures
            r@ == self@,
    {
        match self {
            Code::Ext1(ext1) => Code::Ext1(ext1.clone()),
            Code::P16(code_point) => Code::P16(*code_point),
            Code::ClearWindows(windows) => Code::ClearWindows(*windows),
            Code::DisplayWindows(windows) => Code::DisplayWindows(*windows),
            Code::HideWindows(windows) => Code::HideWindows(*windows),
            Code::ToggleWindows(windows) => Code::ToggleWindows(*windows),
            Code::DeleteWindows(windows) => Code::DeleteWindows(*windows),
            Code::Delay(tenths) => Code::Delay(*tenths),
            Code::SetPenAttributes(args) => Code::SetPenAttributes(*args),
            Code::SetPenColor(args) => Code::SetPenColor(*args),
            Code::SetPenLocation(args) => Code::SetPenLocation(*args),
            Code::SetWindowAttributes(args) => Code::SetWindowAttributes(*args),
            Code::DefineWindow(args) => Code::DefineWindow(*args),
            Code::Unknown(data) => Code::Unknown(data.clone()),
            Code::NUL => Code::NUL,
            Code::ETX => Code::ETX,
            Code::BS => Code::BS,
            Code::FF => Code::FF,
            Code::CR => Code::CR,
            Code::HCR => Code::HCR,
            Code::Space => Code::Space,
            Code::ExclamationMark => Code::ExclamationMark,
            Code::QuotationMark => Code::QuotationMark,
            Code::NumberSign => Code::NumberSign,
            Code::DollarSign => Code::DollarSign,
            Code::PercentSign => Code::PercentSign,
            Code::Ampersand => Code::Ampersand,
            Code::Apostrophe => Code::Apostrophe,
            Code::LeftParenthesis => Code::LeftParenthesis,
            Code::RightParenthesis => Code::RightParenthesis,
            Code::Asterisk => Code::Asterisk,
            Code::PlusSign => Code::PlusSign,
            Code::Comma => Code::Comma,
            Code::HyphenMinus => Code::HyphenMinus,
            Code::FullStop => Code::FullStop,
            Code::Solidus => Code::Solidus,
            Code::Zero => Code::Zero,
            Code::One => Code::One,
            Code::Two => Code::Two,
            Code::Three => Code::Three,
            Code::Four => Code::Four,
            Code::Five => Code::Five,
            Code::Six => Code::Six,
            Code::Seven => Code::Seven,
            Code::Eight => Code::Eight,
            Code::Nine => Code::Nine,
            Code::Colon => Code::Colon,
            Code::SemiColon => Code::SemiColon,
            Code::LessThan => Code::LessThan,
            Code::Equals => Code::Equals,
            Code::GreaterThan => Code::GreaterThan,
            Code::QuestionMark => Code::QuestionMark,
            Code::CommercialAt => Code::CommercialAt,
            Code::LatinCapitalA => Code::LatinCapitalA,
            Code::LatinCapitalB => Code::LatinCapitalB,
            Code::LatinCapitalC => Code::LatinCapitalC,
            Code::LatinCapitalD => Code::LatinCapitalD,
            Code::LatinCapitalE => Code::LatinCapitalE,
            Code::LatinCapitalF => Code::LatinCapitalF,
            Code::LatinCapitalG => Code::LatinCapitalG,
            Code::LatinCapitalH => Code::LatinCapitalH,
            Code::LatinCapitalI => Code::LatinCapitalI,
            Code::LatinCapitalJ => Code::LatinCapitalJ,
            Code::LatinCapitalK => Code::LatinCapitalK,
            Code::LatinCapitalL => Code::LatinCapitalL,
            Code::LatinCapitalM => Code::LatinCapitalM,
            Code::LatinCapitalN => Code::LatinCapitalN,
            Code::LatinCapitalO => Code::LatinCapitalO,
            Code::LatinCapitalP => Code::LatinCapitalP,
            Code::LatinCapitalQ => Code::LatinCapitalQ,
            Code::LatinCapitalR => Code::LatinCapitalR,
            Code::LatinCapitalS => Code::LatinCapitalS,
            Code::LatinCapitalT => Code::LatinCapitalT,
            Code::LatinCapitalU => Code::LatinCapitalU,
            Code::LatinCapitalV => Code::LatinCapitalV,
            Code::LatinCapitalW => Code::LatinCapitalW,
            Code::LatinCapitalX => Code::LatinCapitalX,
            Code::LatinCapitalY => Code::LatinCapitalY,
            Code::LatinCapitalZ => Code::LatinCapitalZ,
            Code::LeftSquareBracket => Code::LeftSquareBracket,
            Code::ReverseSolidus => Code::ReverseSolidus,
            Code::RightSquareBracket => Code::RightSquareBracket,
            Code::CircumflexAccent => Code::CircumflexAccent,
            Code::LowLine => Code::LowLine,
            Code::GraveAccent => Code::GraveAccent,
            Code::LatinLowerA => Code::LatinLowerA,
            Code::LatinLowerB => Code::LatinLowerB,
            Code::LatinLowerC => Code::LatinLowerC,
            Code::LatinLowerD => Code::LatinLowerD,
            Code::LatinLowerE => Code::LatinLowerE,
            Code::LatinLowerF => Code::LatinLowerF,
            Code::LatinLowerG => Code::LatinLowerG,
            Code::LatinLowerH => Code::LatinLowerH,
            Code::LatinLowerI => Code::LatinLowerI,
            Code::LatinLowerJ => Code::LatinLowerJ,
            Code::LatinLowerK => Code::LatinLowerK,
            Code::LatinLowerL => Code::LatinLowerL,
            Code::LatinLowerM => Code::LatinLowerM,
            Code::LatinLowerN => Code::LatinLowerN,
            Code::LatinLowerO => Code::LatinLowerO,
            Code::LatinLowerP => Code::LatinLowerP,
            Code::LatinLowerQ => Code::LatinLowerQ,
            Code::LatinLowerR => Code::LatinLowerR,
            Code::LatinLowerS => Code::LatinLowerS,
            Code::LatinLowerT => Code::LatinLowerT,
            Code::LatinLowerU => Code::LatinLowerU,
            Code::LatinLowerV => Code::LatinLowerV,
            Code::LatinLowerW => Code::LatinLowerW,
            Code::LatinLowerX => Code::LatinLowerX,
            Code::LatinLowerY => Code::LatinLowerY,
            Code::LatinLowerZ => Code::LatinLowerZ,
            Code::LeftCurlyBracket => Code::LeftCurlyBracket,
            Code::VerticalLine => Code::VerticalLine,
            Code::RightCurlyBracket => Code::RightCurlyBracket,
            Code::Tilde => Code::Tilde,
            Code::MusicalSymbolEighthNote => Code::MusicalSymbolEighthNote,
            Code::SetCurrentWindow0 => Code::SetCurrentWindow0,
            Code::SetCurrentWindow1 => Code::SetCurrentWindow1,
            Code::SetCurrentWindow2 => Code::SetCurrentWindow2,
            Code::SetCurrentWindow3 => Code::SetCurrentWindow3,
            Code::SetCurrentWindow4 => Code::SetCurrentWindow4,
            Code::SetCurrentWindow5 => Code::SetCurrentWindow5,
            Code::SetCurrentWindow6 => Code::SetCurrentWindow6,
            Code::SetCurrentWindow7 => Code::SetCurrentWindow7,
            Code::DelayCancel => Code::DelayCancel,
            Code::Reset => Code::Reset,
            Code::NonBreakingSpace => Code::NonBreakingSpace,
            Code::InvertedExclamationMark => Code::InvertedExclamationMark,
            Code::CentSign => Code::CentSign,
            Code::PoundSign => Code::PoundSign,
            Code::GeneralCurrencySign => Code::GeneralCurrencySign,
            Code::YenSign => Code::YenSign,
            Code::BrokenVerticalBar => Code::BrokenVerticalBar,
            Code::SectionSign => Code::SectionSign,
            Code::Umlaut => Code::Umlaut,
            Code::CopyrightSign => Code::CopyrightSign,
            Code::FeminineOrdinalSign => Code::FeminineOrdinalSign,
            Code::LeftDoubleAngleQuote => Code::LeftDoubleAngleQuote,
            Code::LogicalNotSign => Code::LogicalNotSign,
            Code::SoftHyphen => Code::SoftHyphen,
            Code::RegisteredTrademarkSign => Code::RegisteredTrademarkSign,
            Code::SpacingMacronLongAccent => Code::SpacingMacronLongAccent,
            Code::DegreeSign => Code::DegreeSign,
            Code::PlusOrMinusSign => Code::PlusOrMinusSign,
            Code::Superscript2 => Code::Superscript2,
            Code::Superscript3 => Code::Superscript3,
            Code::SpacingAccuteAccent => Code::SpacingAccuteAccent,
            Code::MicroSign => Code::MicroSign,
            Code::ParagraphSign => Code::ParagraphSign,
            Code::MiddleDot => Code::MiddleDot,
            Code::SpacingCedilla => Code::SpacingCedilla,
            Code::Superscript1 => Code::Superscript1,
            Code::MasculineOrdinalSign => Code::MasculineOrdinalSign,
            Code::RightDoubleAngleQuote => Code::RightDoubleAngleQuote,
            Code::Fraction14 => Code::Fraction14,
            Code::Fraction12 => Code::Fraction12,
            Code::Fraction34 => Code::Fraction34,
            Code::InvertedQuestionMark => Code::InvertedQuestionMark,
            Code::LatinCapitalAWithGrave => Code::LatinCapitalAWithGrave,
            Code::LatinCapitalAWithAcute => Code::LatinCapitalAWithAcute,
            Code::LatinCapitalAWithCircumflex => Code::LatinCapitalAWithCircumflex,
            Code::LatinCapitalAWithTilde => Code::LatinCapitalAWithTilde,
            Code::LatinCapitalAWithDiaeresis => Code::LatinCapitalAWithDiaeresis,
            Code::LatinCapitalAWithRingAbove => Code::LatinCapitalAWithRingAbove,
            Code::LatinCapitalAe => Code::LatinCapitalAe,
            Code::LatinCapitalCWithCedilla => Code::LatinCapitalCWithCedilla,
            Code::LatinCapitalEWithGrave => Code::LatinCapitalEWithGrave,
            Code::LatinCapitalEWithAcute => Code::LatinCapitalEWithAcute,
            Code::LatinCapitalEWithCircumflex => Code::LatinCapitalEWithCircumflex,
            Code::LatinCapitalEWithDiaeseris => Code::LatinCapitalEWithDiaeseris,
            Code::LatinCapitalIWithGrave => Code::LatinCapitalIWithGrave,
            Code::LatinCapitalIWithAcute => Code::LatinCapitalIWithAcute,
            Code::LatinCapitalIWithCircumflex => Code::LatinCapitalIWithCircumflex,
            Code::LatinCapitalIWithDiaeseris => Code::LatinCapitalIWithDiaeseris,
            Code::LatinCapitalEth => Code::LatinCapitalEth,
            Code::LatinCapitalNWithTilde => Code::LatinCapitalNWithTilde,
            Code::LatinCapitalOWithGrave => Code::LatinCapitalOWithGrave,
            Code::LatinCapitalOWithAcute => Code::LatinCapitalOWithAcute,
            Code::LatinCapitalOWithCircumflex => Code::LatinCapitalOWithCircumflex,
            Code::LatinCapitalOWithTilde => Code::LatinCapitalOWithTilde,
            Code::LatinCapitalOWithDiaeresis => Code::LatinCapitalOWithDiaeresis,
            Code::MultiplicationSign => Code::MultiplicationSign,
            Code::LatinCapitalOWithStroke => Code::LatinCapitalOWithStroke,
            Code::LatinCapitalUWithGrave => Code::LatinCapitalUWithGrave,
            Code::LatinCapitalUWithAcute => Code::LatinCapitalUWithAcute,
            Code::LatinCapitalUWithCircumflex => Code::LatinCapitalUWithCircumflex,
            Code::LatinCapitalUWithDiaeresis => Code::LatinCapitalUWithDiaeresis,
            Code::LatinCapitalYWithAcute => Code::LatinCapitalYWithAcute,
            Code::LatinCapitalThorn => Code::LatinCapitalThorn,
            Code::LatinLowerSharpS => Code::LatinLowerSharpS,
            Code::LatinLowerAWithGrave => Code::LatinLowerAWithGrave,
            Code::LatinLowerAWithAcute => Code::LatinLowerAWithAcute,
            Code::LatinLowerAWithCircumflex => Code::LatinLowerAWithCircumflex,
            Code::LatinLowerAWithTilde => Code::LatinLowerAWithTilde,
            Code::LatinLowerAWithDiaeresis => Code::LatinLowerAWithDiaeresis,
            Code::LatinLowerAWithRingAbove => Code::LatinLowerAWithRingAbove,
            Code::LatinLowerAe => Code::LatinLowerAe,
            Code::LatinLowerCWithCedilla => Code::LatinLowerCWithCedilla,
            Code::LatinLowerEWithGrave => Code::LatinLowerEWithGrave,
            Code::LatinLowerEWithAcute => Code::LatinLowerEWithAcute,
            Code::LatinLowerEWithCircumflex => Code::LatinLowerEWithCircumflex,
            Code::LatinLowerEWithDiaeseris => Code::LatinLowerEWithDiaeseris,
            Code::LatinLowerIWithGrave => Code::LatinLowerIWithGrave,
            Code::LatinLowerIWithAcute => Code::LatinLowerIWithAcute,
            Code::LatinLowerIWithCircumflex => Code::LatinLowerIWithCircumflex,
            Code::LatinLowerIWithDiaeseris => Code::LatinLowerIWithDiaeseris,
            Code::LatinLowerEth => Code::LatinLowerEth,
            Code::LatinLowerNWithTilde => Code::LatinLowerNWithTilde,
            Code::LatinLowerOWithGrave => Code::LatinLowerOWithGrave,
            Code::LatinLowerOWithAcute => Code::LatinLowerOWithAcute,
            Code::LatinLowerOWithCircumflex => Code::LatinLowerOWithCircumflex,
            Code::LatinLowerOWithTilde => Code::LatinLowerOWithTilde,
            Code::LatinLowerOWithDiaeresis => Code::LatinLowerOWithDiaeresis,
            Code::DivisionSign => Code::DivisionSign,
            Code::LatinLowerOWithStroke => Code::LatinLowerOWithStroke,
            Code::LatinLowerUWithGrave => Code::LatinLowerUWithGrave,
            Code::LatinLowerUWithAcute => Code::LatinLowerUWithAcute,
            Code::LatinLowerUWithCircumflex => Code::LatinLowerUWithCircumflex,
            Code::LatinLowerUWithDiaeresis => Code::LatinLowerUWithDiaeresis,
            Code::LatinLowerYWithAcute => Code::LatinLowerYWithAcute,
            Code::LatinLowerThorn => Code::LatinLowerThorn,
            Code::LatinLowerYWithDiaeresis => Code::LatinLowerYWithDiaeresis,
        }
    }
}

} // verus!
