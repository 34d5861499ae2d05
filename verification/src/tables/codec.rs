//! The byte form of codes: how long a code is, how it is read and how it is
//! written.
//!
//! The leading byte of a code says how long the code is; after the `EXT1`
//! byte the next byte says it, and for the variable-length commands of C3 the
//! byte after that. Reading splits the bytes into codes by these lengths and
//! then names each code.

use super::args::WindowBits;
use super::code::{Code, CodeView};
use super::error::CodeError;
use super::ext1::{Ext1, Ext1View};
use super::pen::{SetPenAttributesArgs, SetPenColorArgs, SetPenLocationArgs};
use super::window::{DefineWindowArgs, SetWindowAttributesArgs};
use vstd::prelude::*;
use vstd::slice::slice_to_vec;

verus! {

impl Ext1View {
    /// The length of the symbol that starts `bytes`, the `EXT1` byte not
    /// counted. A variable-length command holds its length in the low six
    /// bits of its second byte.
    pub open spec fn size_of(bytes: Seq<u8>) -> Result<usize, CodeError> {
        if bytes.len() == 0 {
            Err(CodeError::LengthMismatch { expected: 1, actual: 0 })
        } else if bytes[0] <= 0x07 {
            Ok(1)
        } else if bytes[0] <= 0x0F {
            Ok(2)
        } else if bytes[0] <= 0x17 {
            Ok(3)
        } else if bytes[0] <= 0x1F {
            Ok(4)
        } else if bytes[0] <= 0x7F {
            Ok(1)
        } else if bytes[0] <= 0x87 {
            Ok(5)
        } else if bytes[0] <= 0x8F {
            Ok(6)
        } else if bytes[0] <= 0x9F {
            if bytes.len() < 2 {
                Err(CodeError::LengthMismatch { expected: 2, actual: 0 })
            } else {
                Ok(((bytes[1] & 0x3F) + 1) as usize)
            }
        } else {
            Ok(1)
        }
    }

    /// The bytes that stand for this symbol after the `EXT1` byte.
    pub open spec fn bytes(self) -> Seq<u8> {
        match self {
            Ext1View::Named(symbol) => match symbol.symbol_byte() {
                Some(b) => seq![b],
                None => Seq::empty(),
            },
            Ext1View::Unknown(data) => data,
        }
    }

    /// The symbol that `data` stands for after the `EXT1` byte: the named
    /// symbol of a single byte that has one, else the bytes themselves.
    pub open spec fn of_bytes(data: Seq<u8>) -> Ext1View {
        if data.len() == 1 && Ext1::symbol(data[0]).is_some() {
            Ext1View::Named(Ext1::symbol(data[0]).unwrap())
        } else {
            Ext1View::Unknown(data)
        }
    }

    /// Whether this symbol is what its own bytes are read as.
    pub open spec fn canonical(self) -> bool {
        match self {
            Ext1View::Named(symbol) => symbol.symbol_byte().is_some(),
            Ext1View::Unknown(data) => {
                &&& Ext1View::size_of(data) matches Ok(size) && size == data.len()
                &&& Ext1View::of_bytes(data) == Ext1View::Unknown(data)
            },
        }
    }
}

impl Ext1 {
    /// The length of the symbol that starts `bytes`, the `EXT1` byte not
    /// counted.
    pub fn expected_size(bytes: &[u8]) -> (r: Result<usize, CodeError>)
        ensures
            r == Ext1View::size_of(bytes@),
    {
        if bytes.len() == 0 {
            return Err(CodeError::LengthMismatch { expected: 1, actual: 0 });
        }
        let lead: u8 = bytes[0];
        if lead <= 0x07 {
            Ok(1)
        } else if lead <= 0x0F {
            Ok(2)
        } else if lead <= 0x17 {
            Ok(3)
        } else if lead <= 0x1F {
            Ok(4)
        } else if lead <= 0x7F {
            Ok(1)
        } else if lead <= 0x87 {
            Ok(5)
        } else if lead <= 0x8F {
            Ok(6)
        } else if lead <= 0x9F {
            if bytes.len() < 2 {
                return Err(CodeError::LengthMismatch { expected: 2, actual: 0 });
            }
            let second: u8 = bytes[1];
            let length: u8 = second & 0x3F;
            assert(second & 0x3F < 64) by (bit_vector);
            Ok(length as usize + 1)
        } else {
            Ok(1)
        }
    }

    /// The number of bytes that stand for this symbol after the `EXT1` byte.
    pub fn byte_len(&self) -> (r: usize)
        ensures
            r == self@.bytes().len(),
    {
        match self {
            Ext1::Unknown(data) => data.len(),
            _ => 1,
        }
    }

    /// Appends the bytes that stand for this symbol after the `EXT1` byte.
    pub fn write(&self, w: &mut Vec<u8>)
        ensures
            final(w)@ == old(w)@ + self@.bytes(),
    {
        match self {
            Ext1::Unknown(data) => {
                w.extend_from_slice(data.as_slice());
                assert(w@ =~= old(w)@ + data@);
            },
            _ => {
                if let Some(b) = self.symbol_byte() {
                    w.push(b);
                }
                assert(w@ =~= old(w)@ + self@.bytes());
            },
        }
    }

    /// Reads the bytes after an `EXT1` byte as one symbol. This never fails:
    /// what has no name is kept as it is.
    pub fn parse(data: &[u8]) -> (r: Result<Ext1, CodeError>)
        ensures
            r is Ok,
            r.unwrap()@ == Ext1View::of_bytes(data@),
    {
        if data.len() == 1 {
            if let Some(symbol) = Ext1::symbol(data[0]) {
                return Ok(symbol);
            }
        }
        Ok(Ext1::Unknown(slice_to_vec(data)))
    }
}

/// The views of a sequence of codes.
pub open spec fn views(codes: Seq<Code>) -> Seq<CodeView> {
    codes.map_values(|code: Code| code@)
}

/// What reading gives when `first` was read before `rest`.
pub open spec fn after(first: CodeView, rest: Result<Seq<CodeView>, CodeError>) -> Result<
    Seq<CodeView>,
    CodeError,
> {
    match rest {
        Ok(codes) => Ok(seq![first] + codes),
        Err(e) => Err(e),
    }
}

impl CodeView {
    /// The length of a code by its leading byte, for every leading byte but
    /// `EXT1`.
    pub open spec fn lead_size(lead: u8) -> usize {
        if lead <= 0x0F {
            1
        } else if lead <= 0x17 {
            2
        } else if lead <= 0x1F {
            3
        } else if lead <= 0x87 {
            1
        } else if lead <= 0x8D {
            2
        } else if lead <= 0x8F {
            1
        } else if lead == 0x90 {
            3
        } else if lead == 0x91 {
            4
        } else if lead == 0x92 {
            3
        } else if lead <= 0x96 {
            1
        } else if lead == 0x97 {
            5
        } else if lead <= 0x9F {
            7
        } else {
            1
        }
    }

    /// The length of the code that starts `bytes`.
    pub open spec fn size_of(bytes: Seq<u8>) -> Result<usize, CodeError> {
        if bytes.len() == 0 {
            Err(CodeError::LengthMismatch { expected: 1, actual: 0 })
        } else if bytes[0] == 0x10 {
            match Ext1View::size_of(bytes.skip(1)) {
                Ok(size) => Ok((size + 1) as usize),
                Err(e) => Err(e),
            }
        } else {
            Ok(CodeView::lead_size(bytes[0]))
        }
    }

    /// The code that `data` stands for, where `data` is as long as its
    /// leading bytes say.
    pub open spec fn of_bytes(data: Seq<u8>) -> CodeView {
        let lead = data[0];
        if Code::symbol(lead).is_some() {
            CodeView::Plain(Code::symbol(lead).unwrap())
        } else if lead == 0x10 {
            CodeView::Ext1(Ext1View::of_bytes(data.skip(1)))
        } else if lead == 0x18 {
            CodeView::Plain(Code::P16((data[1] as u16) << 8 | (data[2] as u16)))
        } else if lead == 0x88 {
            CodeView::Plain(Code::ClearWindows(WindowBits::of_bits(data[1])))
        } else if lead == 0x89 {
            CodeView::Plain(Code::DisplayWindows(WindowBits::of_bits(data[1])))
        } else if lead == 0x8A {
            CodeView::Plain(Code::HideWindows(WindowBits::of_bits(data[1])))
        } else if lead == 0x8B {
            CodeView::Plain(Code::ToggleWindows(WindowBits::of_bits(data[1])))
        } else if lead == 0x8C {
            CodeView::Plain(Code::DeleteWindows(WindowBits::of_bits(data[1])))
        } else if lead == 0x8D {
            CodeView::Plain(Code::Delay(data[1]))
        } else if lead == 0x90 {
            CodeView::Plain(Code::SetPenAttributes(SetPenAttributesArgs::of_bytes(data.skip(1))))
        } else if lead == 0x91 {
            CodeView::Plain(Code::SetPenColor(SetPenColorArgs::of_bytes(data.skip(1))))
        } else if lead == 0x92 {
            CodeView::Plain(Code::SetPenLocation(SetPenLocationArgs::of_bytes(data.skip(1))))
        } else if lead == 0x97 {
            CodeView::Plain(
                Code::SetWindowAttributes(SetWindowAttributesArgs::of_bytes(data.skip(1))),
            )
        } else if 0x98 <= lead <= 0x9F {
            CodeView::Plain(
                Code::DefineWindow(DefineWindowArgs::of_bytes(lead & 0x07, data.skip(1))),
            )
        } else {
            CodeView::Unknown(data)
        }
    }

    /// Reads `data` as exactly one code.
    pub open spec fn parse(data: Seq<u8>) -> Result<CodeView, CodeError> {
        match CodeView::size_of(data) {
            Err(e) => Err(e),
            Ok(size) => if data.len() != size {
                Err(CodeError::LengthMismatch { expected: size, actual: data.len() as usize })
            } else {
                Ok(CodeView::of_bytes(data))
            },
        }
    }

    /// Reads `data` as a sequence of codes, from the left. The first code that
    /// is longer than what is left, or that fails to be read, gives the error.
    pub open spec fn parse_all(data: Seq<u8>) -> Result<Seq<CodeView>, CodeError>
        decreases data.len(),
        via Self::parse_all_shortens
    {
        if data.len() == 0 {
            Ok(Seq::empty())
        } else {
            match CodeView::size_of(data) {
                Err(e) => Err(e),
                Ok(size) => if data.len() < size {
                    Err(CodeError::LengthMismatch { expected: size, actual: data.len() as usize })
                } else {
                    match CodeView::parse(data.take(size as int)) {
                        Err(e) => Err(e),
                        Ok(first) => after(first, CodeView::parse_all(data.skip(size as int))),
                    }
                },
            }
        }
    }

    #[via_fn]
    proof fn parse_all_shortens(data: Seq<u8>) {
        lemma_size_positive(data);
    }

    /// The bytes that stand for this code.
    pub open spec fn bytes(self) -> Seq<u8> {
        match self {
            CodeView::Unknown(data) => data,
            CodeView::Ext1(symbol) => seq![0x10u8] + symbol.bytes(),
            CodeView::Plain(code) => match code {
                Code::P16(c) => seq![0x18u8, ((c & 0xFF00) >> 8) as u8, (c & 0xFF) as u8],
                Code::ClearWindows(windows) => seq![0x88u8, windows.bits()],
                Code::DisplayWindows(windows) => seq![0x89u8, windows.bits()],
                Code::HideWindows(windows) => seq![0x8Au8, windows.bits()],
                Code::ToggleWindows(windows) => seq![0x8Bu8, windows.bits()],
                Code::DeleteWindows(windows) => seq![0x8Cu8, windows.bits()],
                Code::Delay(tenths) => seq![0x8Du8, tenths],
                Code::SetPenAttributes(args) => seq![0x90u8] + args.bytes(),
                Code::SetPenColor(args) => seq![0x91u8] + args.bytes(),
                Code::SetPenLocation(args) => seq![0x92u8] + args.bytes(),
                Code::SetWindowAttributes(args) => seq![0x97u8] + args.bytes(),
                Code::DefineWindow(args) => seq![0x98u8 | (args.window_id & 0x07)] + args.bytes(),
                symbol => match symbol.symbol_byte() {
                    Some(b) => seq![b],
                    None => Seq::empty(),
                },
            },
        }
    }

    /// The number of bytes that stand for this code.
    pub open spec fn byte_len(self) -> nat {
        self.bytes().len()
    }

    /// The bytes that stand for a sequence of codes: those of each code, one
    /// after the other.
    pub open spec fn bytes_of_all(codes: Seq<CodeView>) -> Seq<u8>
        decreases codes.len(),
    {
        if codes.len() == 0 {
            Seq::empty()
        } else {
            codes[0].bytes() + CodeView::bytes_of_all(codes.skip(1))
        }
    }
}

impl Code {
    /// The length of the code that starts `bytes`.
    pub fn expected_size(bytes: &[u8]) -> (r: Result<usize, CodeError>)
        ensures
            r == CodeView::size_of(bytes@),
    {
        if bytes.len() == 0 {
            return Err(CodeError::LengthMismatch { expected: 1, actual: 0 });
        }
        let lead: u8 = bytes[0];
        if lead <= 0x0F {
            Ok(1)
        } else if lead == 0x10 {
            proof {
                lemma_ext1_size_bound(bytes@.skip(1));
            }
            let rest = &bytes[1..bytes.len()];
            assert(rest@ == bytes@.skip(1));
            match Ext1::expected_size(rest) {
                Ok(size) => Ok(size + 1),
                Err(e) => Err(e),
            }
        } else if lead <= 0x17 {
            Ok(2)
        } else if lead <= 0x1F {
            Ok(3)
        } else if lead <= 0x87 {
            Ok(1)
        } else if lead <= 0x8D {
            Ok(2)
        } else if lead <= 0x8F {
            Ok(1)
        } else if lead == 0x90 {
            Ok(3)
        } else if lead == 0x91 {
            Ok(4)
        } else if lead == 0x92 {
            Ok(3)
        } else if lead <= 0x96 {
            Ok(1)
        } else if lead == 0x97 {
            Ok(5)
        } else if lead <= 0x9F {
            Ok(7)
        } else {
            Ok(1)
        }
    }

    /// The length in bytes of this code.
    pub fn byte_len(&self) -> (r: usize)
        requires
            self@.byte_len() <= usize::MAX,
        ensures
            r == self@.byte_len(),
    {
        match self {
            Code::Ext1(ext1) => 1 + ext1.byte_len(),
            Code::P16(_) => 3,
            Code::ClearWindows(_) => 2,
            Code::DisplayWindows(_) => 2,
            Code::HideWindows(_) => 2,
            Code::ToggleWindows(_) => 2,
            Code::DeleteWindows(_) => 2,
            Code::Delay(_) => 2,
            Code::SetPenAttributes(_) => 3,
            Code::SetPenColor(_) => 4,
            Code::SetPenLocation(_) => 3,
            Code::SetWindowAttributes(_) => 5,
            Code::DefineWindow(_) => 7,
            Code::Unknown(data) => data.len(),
            _ => match self.symbol_byte() {
                Some(_) => 1,
                None => 0,
            },
        }
    }

    /// Reads `data` as exactly one code.
    ///
    /// Fails with the error of [`Code::expected_size`], and with
    /// `LengthMismatch` if the data is not as long as its leading bytes say.
    pub fn parse_element(data: &[u8]) -> (r: Result<Code, CodeError>)
        ensures
            r is Ok <==> CodeView::parse(data@) is Ok,
            r matches Ok(code) ==> CodeView::parse(data@) == Ok::<CodeView, CodeError>(code@),
            r matches Err(e) ==> CodeView::parse(data@) == Err::<CodeView, CodeError>(e),
    {
        let size = match Code::expected_size(data) {
            Ok(size) => size,
            Err(e) => {
                return Err(e);
            },
        };
        if data.len() != size {
            return Err(CodeError::LengthMismatch { expected: size, actual: data.len() });
        }
        let lead: u8 = data[0];
        if let Some(code) = Code::symbol(lead) {
            return Ok(code);
        }
        let args = &data[1..data.len()];
        assert(args@ == data@.skip(1));
        let code = if lead == 0x10 {
            match Ext1::parse(args) {
                Ok(ext1) => Code::Ext1(ext1),
                Err(e) => {
                    return Err(e);
                },
            }
        } else if lead == 0x18 {
            Code::P16((data[1] as u16) << 8 | (data[2] as u16))
        } else if lead == 0x88 {
            Code::ClearWindows(WindowBits::from_u8(data[1]))
        } else if lead == 0x89 {
            Code::DisplayWindows(WindowBits::from_u8(data[1]))
        } else if lead == 0x8A {
            Code::HideWindows(WindowBits::from_u8(data[1]))
        } else if lead == 0x8B {
            Code::ToggleWindows(WindowBits::from_u8(data[1]))
        } else if lead == 0x8C {
            Code::DeleteWindows(WindowBits::from_u8(data[1]))
        } else if lead == 0x8D {
            Code::Delay(data[1])
        } else if lead == 0x90 {
            let bytes: [u8; 2] = [data[1], data[2]];
            assert(bytes@ =~= args@);
            Code::SetPenAttributes(SetPenAttributesArgs::from_bytes(bytes))
        } else if lead == 0x91 {
            let bytes: [u8; 3] = [data[1], data[2], data[3]];
            assert(bytes@ =~= args@);
            Code::SetPenColor(SetPenColorArgs::from_bytes(bytes))
        } else if lead == 0x92 {
            let bytes: [u8; 2] = [data[1], data[2]];
            assert(bytes@ =~= args@);
            Code::SetPenLocation(SetPenLocationArgs::from_bytes(bytes))
        } else if lead == 0x97 {
            let bytes: [u8; 4] = [data[1], data[2], data[3], data[4]];
            assert(bytes@ =~= args@);
            Code::SetWindowAttributes(SetWindowAttributesArgs::from_bytes(bytes))
        } else if 0x98 <= lead && lead <= 0x9F {
            let bytes: [u8; 6] = [data[1], data[2], data[3], data[4], data[5], data[6]];
            assert(bytes@ =~= args@);
            let args = DefineWindowArgs::from_bytes(bytes);
            Code::DefineWindow(DefineWindowArgs { window_id: lead & 0x07, ..args })
        } else {
            Code::Unknown(slice_to_vec(data))
        };
        Ok(code)
    }

    /// Reads a byte sequence as a list of codes.
    ///
    /// Fails with `LengthMismatch` where a code is longer than the bytes that
    /// are left.
    pub fn from_data(data: &[u8]) -> (r: Result<Vec<Code>, CodeError>)
        ensures
            r is Ok <==> CodeView::parse_all(data@) is Ok,
            r matches Ok(codes) ==> CodeView::parse_all(data@) == Ok::<Seq<CodeView>, CodeError>(
                views(codes@),
            ),
            r matches Err(e) ==> CodeView::parse_all(data@) == Err::<Seq<CodeView>, CodeError>(e),
    {
        let mut ret: Vec<Code> = Vec::new();
        let mut offset: usize = 0;
        assert(views(ret@) + Seq::<CodeView>::empty() =~= Seq::<CodeView>::empty());
        assert(data@.skip(0) =~= data@);
        while offset < data.len()
            invariant
                offset <= data.len(),
                CodeView::parse_all(data@) == prepend(
                    views(ret@),
                    CodeView::parse_all(data@.skip(offset as int)),
                ),
            decreases data.len() - offset,
        {
            let rest = &data[offset..data.len()];
            assert(rest@ == data@.skip(offset as int));
            let size = match Code::expected_size(rest) {
                Ok(size) => size,
                Err(e) => {
                    return Err(e);
                },
            };
            if rest.len() < size {
                return Err(CodeError::LengthMismatch { expected: size, actual: rest.len() });
            }
            proof {
                lemma_size_positive(rest@);
            }
            let element = &rest[0..size];
            assert(element@ == rest@.take(size as int));
            let code = match Code::parse_element(element) {
                Ok(code) => code,
                Err(e) => {
                    return Err(e);
                },
            };
            proof {
                let tail = CodeView::parse_all(rest@.skip(size as int));
                assert(rest@.skip(size as int) =~= data@.skip(offset + size));
                assert(views(ret@.push(code)) =~= views(ret@).push(code@));
                match tail {
                    Ok(codes) => {
                        assert(views(ret@) + (seq![code@] + codes) =~= views(ret@).push(code@)
                            + codes);
                    },
                    Err(_) => {},
                }
            }
            ret.push(code);
            offset = offset + size;
        }
        proof {
            assert(views(ret@) + Seq::<CodeView>::empty() =~= views(ret@));
        }
        Ok(ret)
    }

    /// Appends the bytes that stand for this code.
    pub fn write(&self, w: &mut Vec<u8>)
        ensures
            final(w)@ == old(w)@ + self@.bytes(),
    {
        match self {
            Code::Ext1(ext1) => {
                w.push(0x10);
                ext1.write(w);
            },
            Code::P16(c) => {
                w.push(0x18);
                w.push(((*c & 0xFF00) >> 8) as u8);
                w.push((*c & 0xFF) as u8);
            },
            Code::ClearWindows(windows) => {
                w.push(0x88);
                w.push(windows.to_u8());
            },
            Code::DisplayWindows(windows) => {
                w.push(0x89);
                w.push(windows.to_u8());
            },
            Code::HideWindows(windows) => {
                w.push(0x8A);
                w.push(windows.to_u8());
            },
            Code::ToggleWindows(windows) => {
                w.push(0x8B);
                w.push(windows.to_u8());
            },
            Code::DeleteWindows(windows) => {
                w.push(0x8C);
                w.push(windows.to_u8());
            },
            Code::Delay(tenths) => {
                w.push(0x8D);
                w.push(*tenths);
            },
            Code::SetPenAttributes(args) => {
                w.push(0x90);
                let bytes = args.to_bytes();
                w.extend_from_slice(bytes.as_slice());
            },
            Code::SetPenColor(args) => {
                w.push(0x91);
                let bytes = args.to_bytes();
                w.extend_from_slice(bytes.as_slice());
            },
            Code::SetPenLocation(args) => {
                w.push(0x92);
                let bytes = args.to_bytes();
                w.extend_from_slice(bytes.as_slice());
            },
            Code::SetWindowAttributes(args) => {
                w.push(0x97);
                let bytes = args.to_bytes();
                w.extend_from_slice(bytes.as_slice());
            },
            Code::DefineWindow(args) => {
                w.push(0x98 | (args.window_id & 0x07));
                let bytes = args.to_bytes();
                w.extend_from_slice(bytes.as_slice());
            },
            Code::Unknown(data) => {
                w.extend_from_slice(data.as_slice());
            },
            _ => {
                if let Some(b) = self.symbol_byte() {
                    w.push(b);
                }
            },
        }
        assert(w@ =~= old(w)@ + self@.bytes());
    }
}

/// What reading gives when `prefix` was read before `rest`.
pub open spec fn prepend(prefix: Seq<CodeView>, rest: Result<Seq<CodeView>, CodeError>) -> Result<
    Seq<CodeView>,
    CodeError,
> {
    match rest {
        Ok(codes) => Ok(prefix + codes),
        Err(e) => Err(e),
    }
}

/// A symbol behind `EXT1` is at most 64 bytes long.
pub proof fn lemma_ext1_size_bound(bytes: Seq<u8>)
    ensures
        Ext1View::size_of(bytes) matches Ok(size) ==> 1 <= size <= 64,
{
    if bytes.len() >= 2 {
        let b = bytes[1];
        assert(b & 0x3F < 64) by (bit_vector);
    }
}

/// A code is at least one byte and at most 65 bytes long.
pub proof fn lemma_size_positive(bytes: Seq<u8>)
    ensures
        CodeView::size_of(bytes) matches Ok(size) ==> 1 <= size <= 65,
{
    if bytes.len() > 0 && bytes[0] == 0x10 {
        lemma_ext1_size_bound(bytes.skip(1));
    }
}

} // verus!
