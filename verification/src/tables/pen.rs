//! The arguments of the commands that set the pen's attributes, color and
//! location.

use super::args::{
    color_opacity_bits, color_opacity_from_u8, color_opacity_to_u8, flag, flag_bit,
    lemma_color_opacity_inverse, lemma_field_bounds, opacity_of_bits, Color,
};
use super::attrs::{EdgeType, FontStyle, Opacity, PenSize, TextOffset, TextTag};
use vstd::prelude::*;

verus! {

/// The arguments of the `SetPenAttributes` command.
#[derive(Debug, Clone, Copy, PartialEq, Eq, PartialOrd, Ord, Structural)]
pub struct SetPenAttributesArgs {
    pub pen_size: PenSize,
    pub font_style: FontStyle,
    pub text_tag: TextTag,
    pub offset: TextOffset,
    pub italics: bool,
    pub underline: bool,
    pub edge_type: EdgeType,
}

impl SetPenAttributesArgs {
    /// The two argument bytes.
    pub open spec fn bytes(self) -> Seq<u8> {
        seq![
            self.pen_size.bits() | self.offset.bits() << 2 | self.text_tag.bits() << 4,
            self.font_style.bits() | self.edge_type.bits() << 3 | flag_bit(self.underline) << 6
                | flag_bit(self.italics) << 7,
        ]
    }

    /// The arguments that two bytes stand for.
    pub open spec fn of_bytes(args: Seq<u8>) -> SetPenAttributesArgs
        recommends
            args.len() == 2,
    {
        SetPenAttributesArgs {
            pen_size: PenSize::of_bits(args[0] & 0x03),
            font_style: FontStyle::of_bits(args[1] & 0x07),
            text_tag: TextTag::of_bits((args[0] & 0xF0) >> 4),
            offset: TextOffset::of_bits((args[0] & 0x0C) >> 2),
            italics: (args[1] & 0x80) > 0,
            underline: (args[1] & 0x40) > 0,
            edge_type: EdgeType::of_bits((args[1] & 0x38) >> 3),
        }
    }

    /// The arguments with these fields.
    pub fn new(
        pen_size: PenSize,
        font_style: FontStyle,
        text_tag: TextTag,
        text_offset: TextOffset,
        italics: bool,
        underline: bool,
        edge_type: EdgeType,
    ) -> (r: SetPenAttributesArgs)
        ensures
            r == (SetPenAttributesArgs {
                pen_size,
                font_style,
                text_tag,
                offset: text_offset,
                italics,
                underline,
                edge_type,
            }),
    {
        SetPenAttributesArgs {
            pen_size,
            font_style,
            text_tag,
            offset: text_offset,
            italics,
            underline,
            edge_type,
        }
    }

    /// The two argument bytes.
    pub fn to_bytes(self) -> (r: [u8; 2])
        ensures
            r@ == self.bytes(),
    {
        let r: [u8; 2] = [
            self.pen_size.to_u8() | self.offset.to_u8() << 2 | self.text_tag.to_u8() << 4,
            self.font_style.to_u8() | self.edge_type.to_u8() << 3 | flag(self.underline) << 6
                | flag(self.italics) << 7,
        ];
        assert(r@ =~= self.bytes());
        r
    }

    /// The arguments that two bytes stand for.
    pub fn from_bytes(args: [u8; 2]) -> (r: SetPenAttributesArgs)
        ensures
            r == SetPenAttributesArgs::of_bytes(args@),
    {
        proof {
            lemma_field_bounds(args[0]);
            lemma_field_bounds(args[1]);
        }
        SetPenAttributesArgs {
            pen_size: PenSize::from_u8(args[0] & 0x03),
            font_style: FontStyle::from_u8(args[1] & 0x07),
            text_tag: TextTag::from_u8((args[0] & 0xF0) >> 4),
            offset: TextOffset::from_u8((args[0] & 0x0C) >> 2),
            italics: (args[1] & 0x80) > 0,
            underline: (args[1] & 0x40) > 0,
            edge_type: EdgeType::from_u8((args[1] & 0x38) >> 3),
        }
    }

    /// Pen attributes are the attributes of their own bytes.
    pub proof fn lemma_bytes_inverse(self)
        ensures
            self.bytes().len() == 2,
            SetPenAttributesArgs::of_bytes(self.bytes()) == self,
    {
        let ps = self.pen_size.bits();
        let of = self.offset.bits();
        let tt = self.text_tag.bits();
        self.pen_size.lemma_bits_inverse();
        self.offset.lemma_bits_inverse();
        self.text_tag.lemma_bits_inverse();
        assert({
            let b = ps | of << 2 | tt << 4;
            &&& b & 0x03 == ps
            &&& (b & 0x0C) >> 2 == of
            &&& (b & 0xF0) >> 4 == tt
        }) by (bit_vector)
            requires
                ps < 4,
                of < 4,
                tt < 16,
        ;
        let fs = self.font_style.bits();
        let et = self.edge_type.bits();
        let ul = flag_bit(self.underline);
        let it = flag_bit(self.italics);
        self.font_style.lemma_bits_inverse();
        self.edge_type.lemma_bits_inverse();
        assert({
            let b = fs | et << 3 | ul << 6 | it << 7;
            &&& b & 0x07 == fs
            &&& (b & 0x38) >> 3 == et
            &&& ((b & 0x40) > 0) == (ul == 1)
            &&& ((b & 0x80) > 0) == (it == 1)
        }) by (bit_vector)
            requires
                fs < 8,
                et < 8,
                ul <= 1,
                it <= 1,
        ;
    }
}

impl From<SetPenAttributesArgs> for [u8; 2] {
    fn from(args: SetPenAttributesArgs) -> (r: [u8; 2]) {
        let r = args.to_bytes();
        assert(r =~= [args.bytes()[0], args.bytes()[1]]);
        r
    }
}

impl vstd::std_specs::convert::FromSpecImpl<SetPenAttributesArgs> for [u8; 2] {
    open spec fn obeys_from_spec() -> bool {
        true
    }

    open spec fn from_spec(args: SetPenAttributesArgs) -> [u8; 2] {
        [args.bytes()[0], args.bytes()[1]]
    }
}

impl From<[u8; 2]> for SetPenAttributesArgs {
    fn from(bytes: [u8; 2]) -> (r: SetPenAttributesArgs) {
        SetPenAttributesArgs::from_bytes(bytes)
    }
}

impl vstd::std_specs::convert::FromSpecImpl<[u8; 2]> for SetPenAttributesArgs {
    open spec fn obeys_from_spec() -> bool {
        true
    }

    open spec fn from_spec(bytes: [u8; 2]) -> SetPenAttributesArgs {
        SetPenAttributesArgs::of_bytes(bytes@)
    }
}

/// The arguments of the `SetPenColor` command.
#[derive(Debug, Clone, Copy, PartialEq, Eq, PartialOrd, Ord, Structural)]
pub struct SetPenColorArgs {
    pub foreground_color: Color,
    pub foreground_opacity: Opacity,
    pub background_color: Color,
    pub background_opacity: Opacity,
    pub edge_color: Color,
}

impl SetPenColorArgs {
    /// The three argument bytes.
    pub open spec fn bytes(self) -> Seq<u8> {
        seq![
            color_opacity_bits(self.foreground_color, self.foreground_opacity),
            color_opacity_bits(self.background_color, self.background_opacity),
            self.edge_color.bits(),
        ]
    }

    /// The arguments that three bytes stand for.
    pub open spec fn of_bytes(args: Seq<u8>) -> SetPenColorArgs
        recommends
            args.len() == 3,
    {
        SetPenColorArgs {
            foreground_color: Color::of_bits(args[0]),
            foreground_opacity: opacity_of_bits(args[0]),
            background_color: Color::of_bits(args[1]),
            background_opacity: opacity_of_bits(args[1]),
            edge_color: Color::of_bits(args[2]),
        }
    }

    /// The arguments with these fields.
    pub fn new(
        foreground_color: Color,
        foreground_opacity: Opacity,
        background_color: Color,
        background_opacity: Opacity,
        edge_color: Color,
    ) -> (r: SetPenColorArgs)
        ensures
            r == (SetPenColorArgs {
                foreground_color,
                foreground_opacity,
                background_color,
                background_opacity,
                edge_color,
            }),
    {
        SetPenColorArgs {
            foreground_color,
            foreground_opacity,
            background_color,
            background_opacity,
            edge_color,
        }
    }

    /// The three argument bytes.
    pub fn to_bytes(self) -> (r: [u8; 3])
        ensures
            r@ == self.bytes(),
    {
        let r: [u8; 3] = [
            color_opacity_to_u8(self.foreground_color, self.foreground_opacity),
            color_opacity_to_u8(self.background_color, self.background_opacity),
            self.edge_color.to_u8(),
        ];
        assert(r@ =~= self.bytes());
        r
    }

    /// The arguments that three bytes stand for.
    pub fn from_bytes(args: [u8; 3]) -> (r: SetPenColorArgs)
        ensures
            r == SetPenColorArgs::of_bytes(args@),
    {
        let foreground = color_opacity_from_u8(args[0]);
        let background = color_opacity_from_u8(args[1]);
        SetPenColorArgs {
            foreground_color: foreground.0,
            foreground_opacity: foreground.1,
            background_color: background.0,
            background_opacity: background.1,
            edge_color: Color::from_u8(args[2]),
        }
    }

    /// Pen colors are the colors of their own bytes.
    pub proof fn lemma_bytes_inverse(self)
        ensures
            self.bytes().len() == 3,
            SetPenColorArgs::of_bytes(self.bytes()) == self,
    {
        lemma_color_opacity_inverse(self.foreground_color, self.foreground_opacity);
        lemma_color_opacity_inverse(self.background_color, self.background_opacity);
        self.edge_color.lemma_bits_inverse();
    }
}

impl From<SetPenColorArgs> for [u8; 3] {
    fn from(args: SetPenColorArgs) -> (r: [u8; 3]) {
        let r = args.to_bytes();
        assert(r =~= [args.bytes()[0], args.bytes()[1], args.bytes()[2]]);
        r
    }
}

impl vstd::std_specs::convert::FromSpecImpl<SetPenColorArgs> for [u8; 3] {
    open spec fn obeys_from_spec() -> bool {
        true
    }

    open spec fn from_spec(args: SetPenColorArgs) -> [u8; 3] {
        [args.bytes()[0], args.bytes()[1], args.bytes()[2]]
    }
}

impl From<[u8; 3]> for SetPenColorArgs {
    fn from(bytes: [u8; 3]) -> (r: SetPenColorArgs) {
        SetPenColorArgs::from_bytes(bytes)
    }
}

impl vstd::std_specs::convert::FromSpecImpl<[u8; 3]> for SetPenColorArgs {
    open spec fn obeys_from_spec() -> bool {
        true
    }

    open spec fn from_spec(bytes: [u8; 3]) -> SetPenColorArgs {
        SetPenColorArgs::of_bytes(bytes@)
    }
}

/// The arguments of the `SetPenLocation` command.
#[derive(Debug, Clone, Copy, PartialEq, Eq, PartialOrd, Ord, Structural)]
pub struct SetPenLocationArgs {
    /// The row, 0 to 15.
    pub row: u8,
    /// The column, 0 to 63.
    pub column: u8,
}

impl SetPenLocationArgs {
    /// Whether both fields fit in the bits that the wire format gives them.
    pub open spec fn in_range(self) -> bool {
        self.row < 16 && self.column < 64
    }

    /// The two argument bytes.
    pub open spec fn bytes(self) -> Seq<u8> {
        seq![self.row & 0x0F, self.column & 0x3F]
    }

    /// The arguments that two bytes stand for.
    pub open spec fn of_bytes(args: Seq<u8>) -> SetPenLocationArgs
        recommends
            args.len() == 2,
    {
        SetPenLocationArgs { row: args[0] & 0x0F, column: args[1] & 0x3F }
    }

    /// The arguments with these fields.
    pub fn new(row: u8, column: u8) -> (r: SetPenLocationArgs)
        ensures
            r == (SetPenLocationArgs { row, column }),
    {
        SetPenLocationArgs { row, column }
    }

    /// The two argument bytes.
    pub fn to_bytes(self) -> (r: [u8; 2])
        ensures
            r@ == self.bytes(),
    {
        let r: [u8; 2] = [self.row & 0x0F, self.column & 0x3F];
        assert(r@ =~= self.bytes());
        r
    }

    /// The arguments that two bytes stand for.
    pub fn from_bytes(args: [u8; 2]) -> (r: SetPenLocationArgs)
        ensures
            r == SetPenLocationArgs::of_bytes(args@),
    {
        SetPenLocationArgs { row: args[0] & 0x0F, column: args[1] & 0x3F }
    }

    /// A location in range is the location of its own bytes.
    pub proof fn lemma_bytes_inverse(self)
        requires
            self.in_range(),
        ensures
            self.bytes().len() == 2,
            SetPenLocationArgs::of_bytes(self.bytes()) == self,
    {
        let (r, c) = (self.row, self.column);
        assert((r & 0x0F) & 0x0F == r && (c & 0x3F) & 0x3F == c) by (bit_vector)
            requires
                r < 16,
                c < 64,
        ;
    }

    /// The bytes of any location give back a location in range.
    pub proof fn lemma_of_bytes_in_range(args: Seq<u8>)
        ensures
            SetPenLocationArgs::of_bytes(args).in_range(),
    {
        lemma_field_bounds(args[0]);
        lemma_field_bounds(args[1]);
    }
}

impl From<SetPenLocationArgs> for [u8; 2] {
    fn from(args: SetPenLocationArgs) -> (r: [u8; 2]) {
        let r = args.to_bytes();
        assert(r =~= [args.bytes()[0], args.bytes()[1]]);
        r
    }
}

impl vstd::std_specs::convert::FromSpecImpl<SetPenLocationArgs> for [u8; 2] {
    open spec fn obeys_from_spec() -> bool {
        true
    }

    open spec fn from_spec(args: SetPenLocationArgs) -> [u8; 2] {
        [args.bytes()[0], args.bytes()[1]]
    }
}

impl From<[u8; 2]> for SetPenLocationArgs {
    fn from(bytes: [u8; 2]) -> (r: SetPenLocationArgs) {
        SetPenLocationArgs::from_bytes(bytes)
    }
}

impl vstd::std_specs::convert::FromSpecImpl<[u8; 2]> for SetPenLocationArgs {
    open spec fn obeys_from_spec() -> bool {
        true
    }

    open spec fn from_spec(bytes: [u8; 2]) -> SetPenLocationArgs {
        SetPenLocationArgs::of_bytes(bytes@)
    }
}

} // verus!
