use cea708_types::tables::{
    Anchor, BorderType, Code, Color, ColorValue, DefineWindowArgs, Direction, DisplayEffect,
    EdgeType, Ext1, FontStyle, Justify, Opacity, PenSize, SetPenAttributesArgs, SetPenColorArgs,
    SetPenLocationArgs, SetWindowAttributesArgs, TextOffset, TextTag, WindowBits,
};

#[derive(Debug, Clone)]
struct CodeMap {
    cea708_bytes: Vec<u8>,
    code: Code,
    utf8: Option<char>,
}

fn entry(cea708_bytes: &[u8], code: Code, utf8: Option<char>) -> CodeMap {
    CodeMap { cea708_bytes: cea708_bytes.to_vec(), code, utf8 }
}

fn code_map_table() -> Vec<CodeMap> {
    vec![
        entry(&[0x00], Code::NUL, None),
        entry(&[0x03], Code::ETX, None),
        entry(&[0x08], Code::BS, None),
        entry(&[0x0C], Code::FF, None),
        entry(&[0x0D], Code::CR, None),
        entry(&[0x0E], Code::HCR, None),
        entry(&[0x10, 0x20], Code::Ext1(Ext1::TransparentSpace), None),
        entry(&[0x10, 0x21], Code::Ext1(Ext1::NonBreakingTransparentSpace), None),
        entry(&[0x10, 0x25], Code::Ext1(Ext1::HorizontalElipses), Some('…')),
        entry(&[0x10, 0x2A], Code::Ext1(Ext1::LatinCapitalSWithCaron), Some('Š')),
        entry(&[0x10, 0x2C], Code::Ext1(Ext1::LatinCapitalLigatureOE), Some('Œ')),
        entry(&[0x10, 0x30], Code::Ext1(Ext1::FullBlock), Some('█')),
        entry(&[0x10, 0x31], Code::Ext1(Ext1::SingleOpenQuote), Some('‘')),
        entry(&[0x10, 0x32], Code::Ext1(Ext1::SingleCloseQuote), Some('’')),
        entry(&[0x10, 0x33], Code::Ext1(Ext1::DoubleOpenQuote), Some('“')),
        entry(&[0x10, 0x34], Code::Ext1(Ext1::DoubleCloseQuote), Some('”')),
        entry(&[0x10, 0x35], Code::Ext1(Ext1::SolidDot), None),
        entry(&[0x10, 0x39], Code::Ext1(Ext1::TradeMarkSign), Some('™')),
        entry(&[0x10, 0x3A], Code::Ext1(Ext1::LatinLowerSWithCaron), Some('š')),
        entry(&[0x10, 0x3C], Code::Ext1(Ext1::LatinLowerLigatureOE), Some('œ')),
        entry(&[0x10, 0x3F], Code::Ext1(Ext1::LatinCapitalYWithDiaeresis), Some('Ÿ')),
        entry(&[0x10, 0x76], Code::Ext1(Ext1::Fraction18), Some('⅛')),
        entry(&[0x10, 0x77], Code::Ext1(Ext1::Fraction38), Some('⅜')),
        entry(&[0x10, 0x78], Code::Ext1(Ext1::Fraction58), Some('⅝')),
        entry(&[0x10, 0x79], Code::Ext1(Ext1::Fraction78), Some('⅞')),
        entry(&[0x10, 0x7A], Code::Ext1(Ext1::VerticalBorder), None),
        entry(&[0x10, 0x7B], Code::Ext1(Ext1::UpperRightBorder), None),
        entry(&[0x10, 0x7C], Code::Ext1(Ext1::LowerLeftBorder), None),
        entry(&[0x10, 0x7D], Code::Ext1(Ext1::HorizontalBorder), None),
        entry(&[0x10, 0x7E], Code::Ext1(Ext1::LowerRightBorder), None),
        entry(&[0x10, 0x7F], Code::Ext1(Ext1::UpperLeftBorder), None),
        entry(&[0x10, 0xA0], Code::Ext1(Ext1::ClosedCaptionSign), None),
        entry(&[0x20], Code::Space, Some(' ')),
        entry(&[0x21], Code::ExclamationMark, Some('!')),
        entry(&[0x22], Code::QuotationMark, Some('"')),
        entry(&[0x23], Code::NumberSign, Some('#')),
        entry(&[0x24], Code::DollarSign, Some('$')),
        entry(&[0x25], Code::PercentSign, Some('%')),
        entry(&[0x26], Code::Ampersand, Some('&')),
        entry(&[0x27], Code::Apostrophe, Some('\'')),
        entry(&[0x28], Code::LeftParenthesis, Some('(')),
        entry(&[0x29], Code::RightParenthesis, Some(')')),
        entry(&[0x2A], Code::Asterisk, Some('*')),
        entry(&[0x2B], Code::PlusSign, Some('+')),
        entry(&[0x2C], Code::Comma, Some(',')),
        entry(&[0x2D], Code::HyphenMinus, Some('-')),
        entry(&[0x2E], Code::FullStop, Some('.')),
        entry(&[0x2F], Code::Solidus, Some('/')),
        entry(&[0x30], Code::Zero, Some('0')),
        entry(&[0x31], Code::One, Some('1')),
        entry(&[0x32], Code::Two, Some('2')),
        entry(&[0x33], Code::Three, Some('3')),
        entry(&[0x34], Code::Four, Some('4')),
        entry(&[0x35], Code::Five, Some('5')),
        entry(&[0x36], Code::Six, Some('6')),
        entry(&[0x37], Code::Seven, Some('7')),
        entry(&[0x38], Code::Eight, Some('8')),
        entry(&[0x39], Code::Nine, Some('9')),
        entry(&[0x3A], Code::Colon, Some(':')),
        entry(&[0x3B], Code::SemiColon, Some(';')),
        entry(&[0x3C], Code::LessThan, Some('<')),
        entry(&[0x3D], Code::Equals, Some('=')),
        entry(&[0x3E], Code::GreaterThan, Some('>')),
        entry(&[0x3F], Code::QuestionMark, Some('?')),
        entry(&[0x40], Code::CommercialAt, Some('@')),
        entry(&[0x41], Code::LatinCapitalA, Some('A')),
        entry(&[0x42], Code::LatinCapitalB, Some('B')),
        entry(&[0x43], Code::LatinCapitalC, Some('C')),
        entry(&[0x44], Code::LatinCapitalD, Some('D')),
        entry(&[0x45], Code::LatinCapitalE, Some('E')),
        entry(&[0x46], Code::LatinCapitalF, Some('F')),
        entry(&[0x47], Code::LatinCapitalG, Some('G')),
        entry(&[0x48], Code::LatinCapitalH, Some('H')),
        entry(&[0x49], Code::LatinCapitalI, Some('I')),
        entry(&[0x4A], Code::LatinCapitalJ, Some('J')),
        entry(&[0x4B], Code::LatinCapitalK, Some('K')),
        entry(&[0x4C], Code::LatinCapitalL, Some('L')),
        entry(&[0x4D], Code::LatinCapitalM, Some('M')),
        entry(&[0x4E], Code::LatinCapitalN, Some('N')),
        entry(&[0x4F], Code::LatinCapitalO, Some('O')),
        entry(&[0x50], Code::LatinCapitalP, Some('P')),
        entry(&[0x51], Code::LatinCapitalQ, Some('Q')),
        entry(&[0x52], Code::LatinCapitalR, Some('R')),
        entry(&[0x53], Code::LatinCapitalS, Some('S')),
        entry(&[0x54], Code::LatinCapitalT, Some('T')),
        entry(&[0x55], Code::LatinCapitalU, Some('U')),
        entry(&[0x56], Code::LatinCapitalV, Some('V')),
        entry(&[0x57], Code::LatinCapitalW, Some('W')),
        entry(&[0x58], Code::LatinCapitalX, Some('X')),
        entry(&[0x59], Code::LatinCapitalY, Some('Y')),
        entry(&[0x5A], Code::LatinCapitalZ, Some('Z')),
        entry(&[0x5B], Code::LeftSquareBracket, Some('[')),
        entry(&[0x5C], Code::ReverseSolidus, Some('\\')),
        entry(&[0x5D], Code::RightSquareBracket, Some(']')),
        entry(&[0x5E], Code::CircumflexAccent, Some('^')),
        entry(&[0x5F], Code::LowLine, Some('_')),
        entry(&[0x60], Code::GraveAccent, Some('`')),
        entry(&[0x61], Code::LatinLowerA, Some('a')),
        entry(&[0x62], Code::LatinLowerB, Some('b')),
        entry(&[0x63], Code::LatinLowerC, Some('c')),
        entry(&[0x64], Code::LatinLowerD, Some('d')),
        entry(&[0x65], Code::LatinLowerE, Some('e')),
        entry(&[0x66], Code::LatinLowerF, Some('f')),
        entry(&[0x67], Code::LatinLowerG, Some('g')),
        entry(&[0x68], Code::LatinLowerH, Some('h')),
        entry(&[0x69], Code::LatinLowerI, Some('i')),
        entry(&[0x6A], Code::LatinLowerJ, Some('j')),
        entry(&[0x6B], Code::LatinLowerK, Some('k')),
        entry(&[0x6C], Code::LatinLowerL, Some('l')),
        entry(&[0x6D], Code::LatinLowerM, Some('m')),
        entry(&[0x6E], Code::LatinLowerN, Some('n')),
        entry(&[0x6F], Code::LatinLowerO, Some('o')),
        entry(&[0x70], Code::LatinLowerP, Some('p')),
        entry(&[0x71], Code::LatinLowerQ, Some('q')),
        entry(&[0x72], Code::LatinLowerR, Some('r')),
        entry(&[0x73], Code::LatinLowerS, Some('s')),
        entry(&[0x74], Code::LatinLowerT, Some('t')),
        entry(&[0x75], Code::LatinLowerU, Some('u')),
        entry(&[0x76], Code::LatinLowerV, Some('v')),
        entry(&[0x77], Code::LatinLowerW, Some('w')),
        entry(&[0x78], Code::LatinLowerX, Some('x')),
        entry(&[0x79], Code::LatinLowerY, Some('y')),
        entry(&[0x7A], Code::LatinLowerZ, Some('z')),
        entry(&[0x7B], Code::LeftCurlyBracket, Some('{')),
        entry(&[0x7C], Code::VerticalLine, Some('|')),
        entry(&[0x7D], Code::RightCurlyBracket, Some('}')),
        entry(&[0x7E], Code::Tilde, Some('~')),
        entry(&[0x7F], Code::MusicalSymbolEighthNote, Some('♪')),
        entry(&[0x80], Code::SetCurrentWindow0, None),
        entry(&[0x81], Code::SetCurrentWindow1, None),
        entry(&[0x82], Code::SetCurrentWindow2, None),
        entry(&[0x83], Code::SetCurrentWindow3, None),
        entry(&[0x84], Code::SetCurrentWindow4, None),
        entry(&[0x85], Code::SetCurrentWindow5, None),
        entry(&[0x86], Code::SetCurrentWindow6, None),
        entry(&[0x87], Code::SetCurrentWindow7, None),
        entry(&[0x8E], Code::DelayCancel, None),
        entry(&[0x8F], Code::Reset, None),
        entry(&[0xA0], Code::NonBreakingSpace, Some('\u{00A0}')),
        entry(&[0xA1], Code::InvertedExclamationMark, Some('¡')),
        entry(&[0xA2], Code::CentSign, Some('¢')),
        entry(&[0xA3], Code::PoundSign, Some('£')),
        entry(&[0xA4], Code::GeneralCurrencySign, Some('¤')),
        entry(&[0xA5], Code::YenSign, Some('¥')),
        entry(&[0xA6], Code::BrokenVerticalBar, Some('¦')),
        entry(&[0xA7], Code::SectionSign, Some('§')),
        entry(&[0xA8], Code::Umlaut, Some('¨')),
        entry(&[0xA9], Code::CopyrightSign, Some('©')),
        entry(&[0xAA], Code::FeminineOrdinalSign, Some('ª')),
        entry(&[0xAB], Code::LeftDoubleAngleQuote, Some('«')),
        entry(&[0xAC], Code::LogicalNotSign, Some('¬')),
        entry(&[0xAD], Code::SoftHyphen, Some('\u{00AD}')),
        entry(&[0xAE], Code::RegisteredTrademarkSign, Some('Ⓡ')),
        entry(&[0xAF], Code::SpacingMacronLongAccent, Some('¯')),
        entry(&[0xB0], Code::DegreeSign, Some('°')),
        entry(&[0xB1], Code::PlusOrMinusSign, Some('±')),
        entry(&[0xB2], Code::Superscript2, Some('²')),
        entry(&[0xB3], Code::Superscript3, Some('³')),
        entry(&[0xB4], Code::SpacingAccuteAccent, Some('´')),
        entry(&[0xB5], Code::MicroSign, Some('µ')),
        entry(&[0xB6], Code::ParagraphSign, Some('¶')),
        entry(&[0xB7], Code::MiddleDot, Some('·')),
        entry(&[0xB8], Code::SpacingCedilla, Some('¸')),
        entry(&[0xB9], Code::Superscript1, Some('¹')),
        entry(&[0xBA], Code::MasculineOrdinalSign, Some('º')),
        entry(&[0xBB], Code::RightDoubleAngleQuote, Some('»')),
        entry(&[0xBC], Code::Fraction14, Some('¼')),
        entry(&[0xBD], Code::Fraction12, Some('½')),
        entry(&[0xBE], Code::Fraction34, Some('¾')),
        entry(&[0xBF], Code::InvertedQuestionMark, Some('¿')),
        entry(&[0xC0], Code::LatinCapitalAWithGrave, Some('À')),
        entry(&[0xC1], Code::LatinCapitalAWithAcute, Some('Á')),
        entry(&[0xC2], Code::LatinCapitalAWithCircumflex, Some('Â')),
        entry(&[0xC3], Code::LatinCapitalAWithTilde, Some('Ã')),
        entry(&[0xC4], Code::LatinCapitalAWithDiaeresis, Some('Ä')),
        entry(&[0xC5], Code::LatinCapitalAWithRingAbove, Some('Å')),
        entry(&[0xC6], Code::LatinCapitalAe, Some('Æ')),
        entry(&[0xC7], Code::LatinCapitalCWithCedilla, Some('Ç')),
        entry(&[0xC8], Code::LatinCapitalEWithGrave, Some('È')),
        entry(&[0xC9], Code::LatinCapitalEWithAcute, Some('É')),
        entry(&[0xCA], Code::LatinCapitalEWithCircumflex, Some('Ê')),
        entry(&[0xCB], Code::LatinCapitalEWithDiaeseris, Some('Ë')),
        entry(&[0xCC], Code::LatinCapitalIWithGrave, Some('Ì')),
        entry(&[0xCD], Code::LatinCapitalIWithAcute, Some('Í')),
        entry(&[0xCE], Code::LatinCapitalIWithCircumflex, Some('Î')),
        entry(&[0xCF], Code::LatinCapitalIWithDiaeseris, Some('Ï')),
        entry(&[0xD0], Code::LatinCapitalEth, Some('Đ')),
        entry(&[0xD1], Code::LatinCapitalNWithTilde, Some('Ñ')),
        entry(&[0xD2], Code::LatinCapitalOWithGrave, Some('Ò')),
        entry(&[0xD3], Code::LatinCapitalOWithAcute, Some('Ó')),
        entry(&[0xD4], Code::LatinCapitalOWithCircumflex, Some('Ô')),
        entry(&[0xD5], Code::LatinCapitalOWithTilde, Some('Õ')),
        entry(&[0xD6], Code::LatinCapitalOWithDiaeresis, Some('Ö')),
        entry(&[0xD7], Code::MultiplicationSign, Some('×')),
        entry(&[0xD8], Code::LatinCapitalOWithStroke, Some('Ø')),
        entry(&[0xD9], Code::LatinCapitalUWithGrave, Some('Ù')),
        entry(&[0xDA], Code::LatinCapitalUWithAcute, Some('Ú')),
        entry(&[0xDB], Code::LatinCapitalUWithCircumflex, Some('Û')),
        entry(&[0xDC], Code::LatinCapitalUWithDiaeresis, Some('Ü')),
        entry(&[0xDD], Code::LatinCapitalYWithAcute, Some('Ý')),
        entry(&[0xDE], Code::LatinCapitalThorn, Some('Þ')),
        entry(&[0xDF], Code::LatinLowerSharpS, Some('ß')),
        entry(&[0xE0], Code::LatinLowerAWithGrave, Some('à')),
        entry(&[0xE1], Code::LatinLowerAWithAcute, Some('á')),
        entry(&[0xE2], Code::LatinLowerAWithCircumflex, Some('â')),
        entry(&[0xE3], Code::LatinLowerAWithTilde, Some('ã')),
        entry(&[0xE4], Code::LatinLowerAWithDiaeresis, Some('ä')),
        entry(&[0xE5], Code::LatinLowerAWithRingAbove, Some('å')),
        entry(&[0xE6], Code::LatinLowerAe, Some('æ')),
        entry(&[0xE7], Code::LatinLowerCWithCedilla, Some('ç')),
        entry(&[0xE8], Code::LatinLowerEWithGrave, Some('è')),
        entry(&[0xE9], Code::LatinLowerEWithAcute, Some('é')),
        entry(&[0xEA], Code::LatinLowerEWithCircumflex, Some('ê')),
        entry(&[0xEB], Code::LatinLowerEWithDiaeseris, Some('ë')),
        entry(&[0xEC], Code::LatinLowerIWithGrave, Some('ì')),
        entry(&[0xED], Code::LatinLowerIWithAcute, Some('í')),
        entry(&[0xEE], Code::LatinLowerIWithCircumflex, Some('î')),
        entry(&[0xEF], Code::LatinLowerIWithDiaeseris, Some('ï')),
        entry(&[0xF0], Code::LatinLowerEth, Some('ð')),
        entry(&[0xF1], Code::LatinLowerNWithTilde, Some('ñ')),
        entry(&[0xF2], Code::LatinLowerOWithGrave, Some('ò')),
        entry(&[0xF3], Code::LatinLowerOWithAcute, Some('ó')),
        entry(&[0xF4], Code::LatinLowerOWithCircumflex, Some('ô')),
        entry(&[0xF5], Code::LatinLowerOWithTilde, Some('õ')),
        entry(&[0xF6], Code::LatinLowerOWithDiaeresis, Some('ö')),
        entry(&[0xF7], Code::DivisionSign, Some('÷')),
        entry(&[0xF8], Code::LatinLowerOWithStroke, Some('ø')),
        entry(&[0xF9], Code::LatinLowerUWithGrave, Some('ù')),
        entry(&[0xFA], Code::LatinLowerUWithAcute, Some('ú')),
        entry(&[0xFB], Code::LatinLowerUWithCircumflex, Some('û')),
        entry(&[0xFC], Code::LatinLowerUWithDiaeresis, Some('ü')),
        entry(&[0xFD], Code::LatinLowerYWithAcute, Some('ý')),
        entry(&[0xFE], Code::LatinLowerThorn, Some('þ')),
        entry(&[0xFF], Code::LatinLowerYWithDiaeresis, Some('ÿ')),
    ]
}

fn variable_test_codes() -> Vec<CodeMap> {
    vec![
        entry(
            &[0x9A, 0x38, 0x4A, 0xD1, 0x8B, 0x0F, 0x11],
            Code::DefineWindow(DefineWindowArgs::new(
                2,
                0,
                Anchor::BottomRight,
                false,
                74,
                209,
                11,
                15,
                true,
                true,
                true,
                2,
                1,
            )),
            None,
        ),
        entry(
            &[0x97, 0x64, 0x53, 0x88, 0x22],
            Code::SetWindowAttributes(SetWindowAttributesArgs::new(
                Justify::Left,
                Direction::LeftToRight,
                Direction::TopToBottom,
                false,
                DisplayEffect::Wipe,
                Direction::LeftToRight,
                2,
                Color::new(ColorValue::TwoThirds, ColorValue::OneThird, ColorValue::Zero),
                Opacity::Flash,
                BorderType::ShadowRight,
                Color::new(ColorValue::OneThird, ColorValue::Zero, ColorValue::Full),
            )),
            None,
        ),
        entry(
            &[0x8B, 0xF6],
            Code::ToggleWindows(WindowBits::zero().or(WindowBits::three()).not()),
            None,
        ),
        entry(
            &[0x8A, 0x7E],
            Code::HideWindows(WindowBits::zero().or(WindowBits::seven()).not()),
            None,
        ),
        entry(&[0x89, 0x80], Code::DisplayWindows(WindowBits::seven()), None),
        entry(&[0x8C, 0xFE], Code::DeleteWindows(WindowBits::zero().not()), None),
        entry(
            &[0x88, 0x13],
            Code::ClearWindows(WindowBits::zero().or(WindowBits::one()).or(WindowBits::four())),
            None,
        ),
        entry(
            &[0x90, 0x4A, 0xCA],
            Code::SetPenAttributes(SetPenAttributesArgs::new(
                PenSize::Large,
                FontStyle::ProportionallySpacedWithSerifs,
                TextTag::Voiceover,
                TextOffset::Superscript,
                true,
                true,
                EdgeType::Raised,
            )),
            None,
        ),
        entry(
            &[0x91, 0x3F, 0xC0, 0x15],
            Code::SetPenColor(SetPenColorArgs::new(
                Color::new(ColorValue::Full, ColorValue::Full, ColorValue::Full),
                Opacity::Solid,
                Color::new(ColorValue::Zero, ColorValue::Zero, ColorValue::Zero),
                Opacity::Transparent,
                Color::new(ColorValue::OneThird, ColorValue::OneThird, ColorValue::OneThird),
            )),
            None,
        ),
        entry(&[0x92, 0x05, 0x08], Code::SetPenLocation(SetPenLocationArgs::new(5, 8)), None),
    ]
}

#[test]
fn codes_table_ordered() {
    let table = code_map_table();
    let mut iter = table.iter().peekable();
    while let Some(code_map) = iter.next() {
        if let Some(peek) = iter.peek() {
            assert!(peek.code > code_map.code);
            assert!(peek.cea708_bytes > code_map.cea708_bytes);
        }
    }
}

#[test]
fn codes_to_from_bytes() {
    for code_map in code_map_table().iter().chain(variable_test_codes().iter()) {
        let parsed_code = Code::parse_element(&code_map.cea708_bytes).unwrap();
        assert_eq!(parsed_code, code_map.code);
        let mut written = vec![];
        parsed_code.write(&mut written);
        assert_eq!(written, code_map.cea708_bytes);
        assert_eq!(written.len(), code_map.code.byte_len());
    }
}

#[test]
fn codes_to_from_char() {
    for code_map in code_map_table().iter() {
        if let Some(c) = code_map.utf8 {
            let parsed_code = Code::from_char(c).unwrap();
            assert_eq!(parsed_code.char(), code_map.utf8);
            assert_eq!(parsed_code, code_map.code);
            let mut written = vec![];
            parsed_code.write(&mut written);
            assert_eq!(written, code_map.cea708_bytes);
        }
    }
}

#[test]
fn conversions_to_and_from_bytes() {
    assert_eq!(u8::from(Anchor::BottomRight), 8);
    assert_eq!(u8::from(Justify::Full), 3);
    assert_eq!(u8::from(Direction::TopToBottom), 2);
    assert_eq!(u8::from(DisplayEffect::Wipe), 2);
    assert_eq!(u8::from(Opacity::Transparent), 3);
    assert_eq!(u8::from(ColorValue::TwoThirds), 2);
    assert_eq!(u8::from(BorderType::ShadowRight), 5);
    assert_eq!(u8::from(PenSize::Large), 2);
    assert_eq!(u8::from(FontStyle::SmallCapitals), 7);
    assert_eq!(u8::from(TextTag::TextNotToBeDisplayed), 15);
    assert_eq!(u8::from(TextOffset::Superscript), 2);
    assert_eq!(u8::from(EdgeType::LeftDropShadow), 4);
    for v in 0..16 {
        assert_eq!(u8::from(Anchor::from_u8(v)), v);
        assert_eq!(TextTag::from_u8(v).to_u8(), v);
    }
    for v in 0..8 {
        assert_eq!(u8::from(BorderType::from_u8(v)), v);
        assert_eq!(u8::from(FontStyle::from_u8(v)), v);
        assert_eq!(u8::from(EdgeType::from_u8(v)), v);
    }
    for v in 0..4 {
        assert_eq!(u8::from(Justify::from_u8(v)), v);
        assert_eq!(u8::from(Direction::from_u8(v)), v);
        assert_eq!(u8::from(DisplayEffect::from_u8(v)), v);
        assert_eq!(u8::from(Opacity::from_u8(v)), v);
        assert_eq!(u8::from(ColorValue::from_u8(v)), v);
        assert_eq!(u8::from(PenSize::from_u8(v)), v);
        assert_eq!(u8::from(TextOffset::from_u8(v)), v);
    }

    let windows = WindowBits::from(0x13);
    assert_eq!(windows, WindowBits::zero().or(WindowBits::one()).or(WindowBits::four()));
    assert_eq!(u8::from(windows), 0x13);
    assert_eq!(<[u8; 1]>::from(windows), [0x13]);
    assert_eq!(WindowBits::from([0x13]), windows);
    assert_eq!(u8::from(windows.and(WindowBits::from(0x03))), 0x03);
    assert_eq!(WindowBits::default(), WindowBits::none());

    let color = Color::new(ColorValue::TwoThirds, ColorValue::OneThird, ColorValue::Full);
    assert_eq!(u8::from(color), 0x27);
    assert_eq!(Color::from(0xE7), color);
    assert_eq!(u8::from(Color::white()), 0x3F);
    assert_eq!(u8::from(Color::red()), 0x30);
    assert_eq!(u8::from(Color::green()), 0x0C);
    assert_eq!(u8::from(Color::blue()), 0x03);
    assert_eq!(Color::from(0x00), Color::black());

    let define = DefineWindowArgs::new(
        0,
        0,
        Anchor::BottomRight,
        false,
        74,
        209,
        11,
        15,
        true,
        true,
        true,
        2,
        1,
    );
    let bytes: [u8; 6] = define.into();
    assert_eq!(bytes, [0x38, 0x4A, 0xD1, 0x8B, 0x0F, 0x11]);
    assert_eq!(DefineWindowArgs::from(bytes), define);
    // the bits that no field uses are passed over
    assert_eq!(DefineWindowArgs::from([0xF8, 0x4A, 0xD1, 0x8B, 0xCF, 0xD1]), define);

    let attributes = SetWindowAttributesArgs::from([0x64, 0x53, 0x88, 0x22]);
    assert_eq!(attributes.border_type, BorderType::ShadowRight);
    assert_eq!(attributes.effect_speed, 2);
    assert_eq!(<[u8; 4]>::from(attributes), [0x64, 0x53, 0x88, 0x22]);

    let pen = SetPenAttributesArgs::from([0x4A, 0xCA]);
    assert_eq!(pen.text_tag, TextTag::Voiceover);
    assert!(pen.italics && pen.underline);
    assert_eq!(<[u8; 2]>::from(pen), [0x4A, 0xCA]);

    let pen_color = SetPenColorArgs::from([0x3F, 0xC0, 0x15]);
    assert_eq!(pen_color.foreground_color, Color::white());
    assert_eq!(pen_color.background_opacity, Opacity::Transparent);
    assert_eq!(<[u8; 3]>::from(pen_color), [0x3F, 0xC0, 0x15]);
    // the top two bits of the edge color are passed over
    assert_eq!(SetPenColorArgs::from([0x3F, 0xC0, 0xD5]), pen_color);

    let location = SetPenLocationArgs::from([0x05, 0x08]);
    assert_eq!(location, SetPenLocationArgs::new(5, 8));
    assert_eq!(<[u8; 2]>::from(SetPenLocationArgs::new(0x15, 0x48)), [0x05, 0x08]);
}

#[test]
fn predefined_styles() {
    let mut define = DefineWindowArgs::from([0, 0, 0, 0, 0, 0]);
    define.window_style_id = 5;
    define.pen_style_id = 6;
    let window = define.window_attributes();
    assert_eq!(window.justify, Justify::Left);
    assert!(window.wordwrap);
    assert_eq!(window.fill_opacity, Opacity::Transparent);
    assert_eq!(window.scroll_direction, Direction::BottomToTop);
    assert_eq!(window.fill_color, Color::black());
    let pen = define.pen_attributes();
    assert_eq!(pen.font_style, FontStyle::MonospacedWithoutSerifs);
    assert_eq!(pen.edge_type, EdgeType::Uniform);
    assert_eq!(pen.pen_size, PenSize::Standard);
    let pen_color = define.pen_color();
    assert_eq!(pen_color.foreground_color, Color::white());
    assert_eq!(pen_color.background_opacity, Opacity::Transparent);
    define.window_style_id = 7;
    define.pen_style_id = 3;
    let window = define.window_attributes();
    assert_eq!(window.print_direction, Direction::TopToBottom);
    assert_eq!(window.scroll_direction, Direction::RightToLeft);
    assert!(!window.wordwrap);
    assert_eq!(define.pen_attributes().font_style, FontStyle::ProportionallySpacedWithSerifs);
    assert_eq!(define.pen_attributes().edge_type, EdgeType::NoEdge);
    assert_eq!(define.pen_color().background_opacity, Opacity::Solid);
}
