//! Reading gives back what was written.
//!
//! Not every [`Code`] value is what its own bytes are read as: arguments
//! out of range lose their high bits when written, and an unknown code may
//! hold the bytes of a known one. The codes that do come back are the
//! canonical ones.

use super::code::{Code, CodeView};
use super::codec::{after, lemma_ext1_size_bound};
use super::error::CodeError;
use super::ext1::{Ext1, Ext1View};
use super::pen::SetPenLocationArgs;
use super::window::{DefineWindowArgs, SetWindowAttributesArgs};
use vstd::prelude::*;

verus! {

impl CodeView {
    /// Whether this code is what its own bytes are read as.
    ///
    /// A named symbol is. A command is if its arguments are in range. An
    /// unknown code is if its bytes make up exactly one code and that code
    /// has no name.
    pub open spec fn canonical(self) -> bool {
        match self {
            CodeView::Unknown(data) => {
                &&& CodeView::size_of(data) matches Ok(size) && size == data.len()
                &&& CodeView::of_bytes(data) == CodeView::Unknown(data)
            },
            CodeView::Ext1(symbol) => symbol.canonical(),
            CodeView::Plain(code) => match code {
                Code::Ext1(_) => false,
                Code::Unknown(_) => false,
                Code::SetPenLocation(args) => args.in_range(),
                Code::SetWindowAttributes(args) => args.in_range(),
                Code::DefineWindow(args) => args.in_range(),
                _ => true,
            },
        }
    }

    /// Whether every code of a sequence is canonical.
    pub open spec fn all_canonical(codes: Seq<CodeView>) -> bool {
        forall|i: int| 0 <= i < codes.len() ==> (#[trigger] codes[i]).canonical()
    }
}

/// The length of a canonical symbol behind `EXT1` can be told from its bytes,
/// whatever follows them, and its bytes are read as the symbol.
pub proof fn lemma_ext1_read_back(symbol: Ext1View, rest: Seq<u8>)
    requires
        symbol.canonical(),
    ensures
        1 <= symbol.bytes().len() <= 64,
        Ext1View::size_of(symbol.bytes() + rest) matches Ok(size) && size == symbol.bytes().len(),
        Ext1View::of_bytes(symbol.bytes()) == symbol,
{
    let bytes = symbol.bytes();
    lemma_ext1_size_bound(bytes);
    match symbol {
        Ext1View::Named(named) => {
            let b = named.symbol_byte().unwrap();
            Ext1::lemma_symbol_inverse(b, named);
            assert(bytes =~= seq![b]);
            assert((bytes + rest)[0] == b);
        },
        Ext1View::Unknown(data) => {
            assert((data + rest)[0] == data[0]);
            if data.len() >= 2 {
                assert((data + rest)[1] == data[1]);
            }
        },
    }
}

/// The length of a canonical code can be told from its bytes, whatever
/// follows them: no canonical code is the beginning of another.
pub proof fn lemma_code_size(code: CodeView, rest: Seq<u8>)
    requires
        code.canonical(),
    ensures
        1 <= code.byte_len() <= 65,
        CodeView::size_of(code.bytes() + rest) matches Ok(size) && size == code.byte_len(),
{
    let bytes = code.bytes();
    match code {
        CodeView::Unknown(data) => {
            super::codec::lemma_size_positive(data);
            assert((data + rest)[0] == data[0]);
            assert(data[0] != 0x10);
        },
        CodeView::Ext1(symbol) => {
            lemma_ext1_read_back(symbol, rest);
            assert((bytes + rest)[0] == 0x10);
            assert((bytes + rest).skip(1) =~= symbol.bytes() + rest);
        },
        CodeView::Plain(plain) => {
            lemma_plain_bytes(plain);
            assert((bytes + rest)[0] == bytes[0]);
        },
    }
}

/// The bytes of a canonical code that is neither unknown nor behind `EXT1`:
/// their leading byte and their number.
#[verifier::rlimit(30)]
proof fn lemma_plain_bytes(code: Code)
    requires
        CodeView::Plain(code).canonical(),
    ensures
        CodeView::Plain(code).bytes().len() == CodeView::lead_size(CodeView::Plain(code).bytes()[0]),
        CodeView::Plain(code).bytes()[0] != 0x10,
        CodeView::of_bytes(CodeView::Plain(code).bytes()) == CodeView::Plain(code),
{
    let bytes = CodeView::Plain(code).bytes();
    match code {
        Code::P16(c) => {
            let hi = ((c & 0xFF00) >> 8) as u8;
            let lo = (c & 0xFF) as u8;
            assert(((((c & 0xFF00) >> 8) as u8) as u16) << 8 | (((c & 0xFF) as u8) as u16) == c)
                by (bit_vector);
            assert(bytes[1] == hi && bytes[2] == lo);
        },
        Code::ClearWindows(windows) => {
            windows.lemma_bits_inverse();
        },
        Code::DisplayWindows(windows) => {
            windows.lemma_bits_inverse();
        },
        Code::HideWindows(windows) => {
            windows.lemma_bits_inverse();
        },
        Code::ToggleWindows(windows) => {
            windows.lemma_bits_inverse();
        },
        Code::DeleteWindows(windows) => {
            windows.lemma_bits_inverse();
        },
        Code::SetPenAttributes(args) => {
            args.lemma_bytes_inverse();
            assert(bytes.skip(1) =~= args.bytes());
        },
        Code::SetPenColor(args) => {
            args.lemma_bytes_inverse();
            assert(bytes.skip(1) =~= args.bytes());
        },
        Code::SetPenLocation(args) => {
            args.lemma_bytes_inverse();
            assert(bytes.skip(1) =~= args.bytes());
        },
        Code::SetWindowAttributes(args) => {
            args.lemma_bytes_inverse();
            assert(bytes.skip(1) =~= args.bytes());
        },
        Code::DefineWindow(args) => {
            args.lemma_bytes_inverse();
            let id = args.window_id;
            assert(0x98 <= (0x98u8 | (id & 0x07)) <= 0x9F && (0x98u8 | (id & 0x07)) & 0x07 == id)
                by (bit_vector)
                requires
                    id < 8,
            ;
            assert(bytes.skip(1) =~= args.bytes());
        },
        Code::Ext1(_) => {},
        Code::Unknown(_) => {},
        Code::Delay(_) => {},
        symbol => {
            let b = symbol.symbol_byte().unwrap();
            Code::lemma_symbol_inverse(b, symbol);
        },
    }
}

/// A canonical code is read back from its bytes.
pub proof fn lemma_code_read_back(code: CodeView)
    requires
        code.canonical(),
    ensures
        CodeView::parse(code.bytes()) == Ok::<CodeView, CodeError>(code),
        CodeView::parse_all(code.bytes()) == Ok::<Seq<CodeView>, CodeError>(seq![code]),
{
    reveal_with_fuel(CodeView::parse_all, 2);
    let bytes = code.bytes();
    lemma_code_size(code, Seq::empty());
    assert(bytes + Seq::<u8>::empty() =~= bytes);
    match code {
        CodeView::Unknown(data) => {},
        CodeView::Ext1(symbol) => {
            lemma_ext1_read_back(symbol, Seq::empty());
            assert(bytes.skip(1) =~= symbol.bytes());
            assert(Code::symbol(0x10) is None);
        },
        CodeView::Plain(plain) => {
            lemma_plain_bytes(plain);
        },
    }
    assert(CodeView::parse(bytes) == Ok::<CodeView, CodeError>(code));
    assert(bytes.take(bytes.len() as int) =~= bytes);
    assert(bytes.skip(bytes.len() as int) =~= Seq::<u8>::empty());
    assert(seq![code] + Seq::<CodeView>::empty() =~= seq![code]);
}

/// Canonical codes are read back from their bytes written one after the
/// other.
pub proof fn lemma_codes_read_back(codes: Seq<CodeView>)
    requires
        CodeView::all_canonical(codes),
    ensures
        CodeView::parse_all(CodeView::bytes_of_all(codes)) == Ok::<Seq<CodeView>, CodeError>(codes),
    decreases codes.len(),
{
    if codes.len() == 0 {
        assert(codes =~= Seq::empty());
    } else {
        let first = codes[0];
        let tail = codes.skip(1);
        let bytes = CodeView::bytes_of_all(codes);
        assert(first.canonical());
        assert forall|i: int| 0 <= i < tail.len() implies (#[trigger] tail[i]).canonical() by {
            assert(tail[i] == codes[i + 1]);
        }
        lemma_codes_read_back(tail);
        lemma_code_size(first, CodeView::bytes_of_all(tail));
        lemma_code_read_back(first);
        let size = first.byte_len() as int;
        assert(bytes.take(size) =~= first.bytes());
        assert(bytes.skip(size) =~= CodeView::bytes_of_all(tail));
        assert(after(first, Ok(tail)) == Ok::<Seq<CodeView>, CodeError>(seq![first] + tail));
        assert(seq![first] + tail =~= codes);
    }
}

/// A code that was read is canonical: written and read again, it comes back
/// as it is.
pub proof fn lemma_parse_canonical(data: Seq<u8>)
    ensures
        CodeView::parse(data) matches Ok(code) ==> code.canonical(),
{
    if let Ok(code) = CodeView::parse(data) {
        let lead = data[0];
        let args = data.skip(1);
        lemma_ext1_size_bound(args);
        if Code::symbol(lead).is_some() {
        } else if lead == 0x10 {
            if args.len() == 1 && Ext1::symbol(args[0]).is_some() {
                Ext1::lemma_symbol_inverse(args[0], Ext1::symbol(args[0]).unwrap());
            }
        } else if lead == 0x92 {
            SetPenLocationArgs::lemma_of_bytes_in_range(args);
        } else if lead == 0x97 {
            SetWindowAttributesArgs::lemma_of_bytes_in_range(args);
        } else if 0x98 <= lead <= 0x9F {
            assert(lead & 0x07 < 8) by (bit_vector);
            DefineWindowArgs::lemma_of_bytes_in_range(lead & 0x07, args);
        }
    }
}

/// Codes that were read are canonical.
pub proof fn lemma_parse_all_canonical(data: Seq<u8>)
    ensures
        CodeView::parse_all(data) matches Ok(codes) ==> CodeView::all_canonical(codes),
    decreases data.len(),
{
    if data.len() > 0 {
        if let Ok(codes) = CodeView::parse_all(data) {
            let size = CodeView::size_of(data).unwrap() as int;
            super::codec::lemma_size_positive(data);
            lemma_parse_canonical(data.take(size));
            lemma_parse_all_canonical(data.skip(size));
            let first = CodeView::parse(data.take(size)).unwrap();
            let tail = CodeView::parse_all(data.skip(size)).unwrap();
            assert(codes =~= seq![first] + tail);
            assert forall|i: int| 0 <= i < codes.len() implies (#[trigger] codes[i]).canonical() by {
                if i > 0 {
                    assert(codes[i] == tail[i - 1]);
                }
            }
        }
    }
}

/// A code that was read takes up as many bytes as it was read from.
pub proof fn lemma_parse_len(data: Seq<u8>)
    ensures
        CodeView::parse(data) matches Ok(code) ==> code.byte_len() == data.len(),
{
    if let Ok(code) = CodeView::parse(data) {
        let lead = data[0];
        lemma_ext1_size_bound(data.skip(1));
        if Code::symbol(lead).is_some() {
            Code::lemma_symbol_inverse(lead, Code::symbol(lead).unwrap());
        } else if lead == 0x10 {
            let rest = data.skip(1);
            if rest.len() == 1 && Ext1::symbol(rest[0]).is_some() {
                Ext1::lemma_symbol_inverse(rest[0], Ext1::symbol(rest[0]).unwrap());
            }
        }
    }
}

/// Codes that were read take up as many bytes as they were read from.
pub proof fn lemma_parse_all_len(data: Seq<u8>)
    ensures
        CodeView::parse_all(data) matches Ok(codes) ==> CodeView::bytes_of_all(codes).len()
            == data.len(),
    decreases data.len(),
{
    if data.len() > 0 {
        if let Ok(codes) = CodeView::parse_all(data) {
            let size = CodeView::size_of(data).unwrap() as int;
            super::codec::lemma_size_positive(data);
            lemma_parse_len(data.take(size));
            lemma_parse_all_len(data.skip(size));
            let first = CodeView::parse(data.take(size)).unwrap();
            let tail = CodeView::parse_all(data.skip(size)).unwrap();
            assert(codes =~= seq![first] + tail);
            assert(codes.skip(1) =~= tail);
        }
    }
}

/// The bytes of a sequence of codes are as many as the codes' lengths added
/// up, and appending a code appends its bytes.
pub proof fn lemma_bytes_of_all_push(codes: Seq<CodeView>, code: CodeView)
    ensures
        CodeView::bytes_of_all(codes.push(code)) == CodeView::bytes_of_all(codes) + code.bytes(),
    decreases codes.len(),
{
    reveal_with_fuel(CodeView::bytes_of_all, 2);
    if codes.len() == 0 {
        assert(codes.push(code).skip(1) =~= Seq::<CodeView>::empty());
        assert(CodeView::bytes_of_all(codes.push(code)) =~= code.bytes());
        assert(CodeView::bytes_of_all(codes) + code.bytes() =~= code.bytes());
    } else {
        lemma_bytes_of_all_push(codes.skip(1), code);
        assert(codes.push(code).skip(1) =~= codes.skip(1).push(code));
        assert(codes.push(code)[0] == codes[0]);
        assert(CodeView::bytes_of_all(codes.push(code)) =~= CodeView::bytes_of_all(codes)
            + code.bytes());
    }
}

} // verus!
