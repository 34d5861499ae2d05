//! The characters that codes show.
//!
//! The character sets G0 and G1 follow ASCII and Latin-1 but for three
//! places: `0x7F` is an eighth note, `0xAE` a circled `R` and `0xD0` a `D`
//! with stroke. The characters of G2 and G3 are listed with
//! [`Ext1`](super::ext1::Ext1).

use super::code::{Code, CodeView};
use super::ext1::{Ext1, Ext1View};
use vstd::prelude::*;

verus! {

/// The character that the single-byte code `b` shows, if it shows one.
pub open spec fn symbol_char(b: u8) -> Option<char> {
    if 0x20 <= b <= 0x7E {
        Some(b as char)
    } else if b == 0x7F {
        Some('\u{266A}')
    } else if b == 0xAE {
        Some('\u{24C7}')
    } else if b == 0xD0 {
        Some('\u{0110}')
    } else if 0xA0 <= b {
        Some(b as char)
    } else {
        None
    }
}

/// The single-byte code that shows the character `c`, if there is one.
pub open spec fn char_symbol(c: char) -> Option<u8> {
    if 0x20 <= c as u32 <= 0x7E {
        Some(c as u8)
    } else if c == '\u{266A}' {
        Some(0x7F)
    } else if c == '\u{24C7}' {
        Some(0xAE)
    } else if c == '\u{0110}' {
        Some(0xD0)
    } else if 0xA0 <= c as u32 <= 0xFF && c as u32 != 0xAE && c as u32 != 0xD0 {
        Some(c as u8)
    } else {
        None
    }
}

impl CodeView {
    /// The character that this code shows. Commands and unknown codes show
    /// none.
    pub open spec fn char(self) -> Option<char> {
        match self {
            CodeView::Plain(code) => match code.symbol_byte() {
                Some(b) => symbol_char(b),
                None => None,
            },
            CodeView::Ext1(Ext1View::Named(symbol)) => symbol.char(),
            _ => None,
        }
    }
}

impl Code {
    /// The code that shows the character `c`, if there is one.
    pub open spec fn spec_from_char(c: char) -> Option<Code> {
        match char_symbol(c) {
            Some(b) => Code::symbol(b),
            None => match Ext1::from_char(c) {
                Some(symbol) => Some(Code::Ext1(symbol)),
                None => None,
            },
        }
    }

    /// The character that this code shows. Commands show none.
    pub fn char(&self) -> (r: Option<char>)
        ensures
            r == self@.char(),
    {
        match self {
            Code::Ext1(ext1) => ext1.char(),
            _ => match self.symbol_byte() {
                Some(b) => {
                    if 0x20 <= b && b <= 0x7E {
                        Some(b as char)
                    } else if b == 0x7F {
                        Some('\u{266A}')
                    } else if b == 0xAE {
                        Some('\u{24C7}')
                    } else if b == 0xD0 {
                        Some('\u{0110}')
                    } else if 0xA0 <= b {
                        Some(b as char)
                    } else {
                        None
                    }
                },
                None => None,
            },
        }
    }

    /// The code that shows the character `c`, or `None` if no code shows it.
    #[verifier::when_used_as_spec(spec_from_char)]
    pub fn from_char(c: char) -> (r: Option<Code>)
        ensures
            r == Code::from_char(c),
    {
        let n: u32 = c as u32;
        if (0x20 <= n && n <= 0x7E) || (0xA0 <= n && n <= 0xFF && n != 0xAE && n != 0xD0) {
            Code::symbol(n as u8)
        } else if c == '\u{266A}' {
            Some(Code::MusicalSymbolEighthNote)
        } else if c == '\u{24C7}' {
            Some(Code::RegisteredTrademarkSign)
        } else if c == '\u{0110}' {
            Some(Code::LatinCapitalEth)
        } else {
            match Ext1::from_char(c) {
                Some(symbol) => Some(Code::Ext1(symbol)),
                None => None,
            }
        }
    }
}

/// A single-byte code shows a character exactly when it is the code found
/// for that character.
pub proof fn lemma_symbol_char_inverse(b: u8, c: char)
    ensures
        symbol_char(b) == Some(c) <==> char_symbol(c) == Some(b),
{
}

/// A code shows a character exactly when it is the code found for that
/// character; so every character that a code shows leads back to that code,
/// and the code found for a character shows it.
pub proof fn lemma_char_inverse(c: char, code: Code)
    ensures
        Code::from_char(c) == Some(code) <==> code@.char() == Some(c),
{
    match code {
        Code::Ext1(ext1) => {
            Ext1::lemma_char_inverse(c, ext1);
            if char_symbol(c) is Some {
                let b = char_symbol(c).unwrap();
                lemma_symbol_char_inverse(b, c);
                assert(Code::symbol(b) != Some(code));
            }
            if Ext1::from_char(c) is Some {
                lemma_symbol_char_inverse(0, c);
                assert(char_symbol(c) is None);
            }
        },
        _ => {
            if code.symbol_byte() is Some {
                let b = code.symbol_byte().unwrap();
                Code::lemma_symbol_inverse(b, code);
                lemma_symbol_char_inverse(b, c);
                if char_symbol(c) is Some {
                    let b2 = char_symbol(c).unwrap();
                    Code::lemma_symbol_inverse(b2, code);
                    lemma_symbol_char_inverse(b2, c);
                }
            } else {
                if char_symbol(c) is Some {
                    let b2 = char_symbol(c).unwrap();
                    Code::lemma_symbol_inverse(b2, code);
                }
            }
        },
    }
}

} // verus!
