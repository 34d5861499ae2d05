//! The arguments of the commands that define a window and set its attributes.
//!
//! Each argument structure has a byte form of fixed width. Converting to
//! bytes keeps only the bits that the wire format has room for, so a structure
//! survives the trip through its bytes exactly when all its fields are in
//! range.

use super::args::{
    color_opacity_bits, color_opacity_from_u8, color_opacity_to_u8, flag, flag_bit,
    lemma_border_bounds, lemma_color_opacity_inverse, lemma_field_bounds, opacity_of_bits, Color,
};
use super::attrs::{Anchor, BorderType, Direction, DisplayEffect, EdgeType, FontStyle, Justify, Opacity, PenSize, TextOffset, TextTag};
use super::pen::{SetPenAttributesArgs, SetPenColorArgs};
use vstd::prelude::*;

verus! {

/// The arguments of the `DefineWindow` command.
#[derive(Debug, Clone, Copy, PartialEq, Eq, PartialOrd, Ord, Structural)]
pub struct DefineWindowArgs {
    /// The window that is defined, 0 to 7.
    pub window_id: u8,
    /// The priority of the window, 0 to 7.
    pub priority: u8,
    pub anchor_point: Anchor,
    pub relative_positioning: bool,
    /// The vertical position of the anchor, 0 to 127.
    pub anchor_vertical: u8,
    /// The horizontal position of the anchor, 0 to 255.
    pub anchor_horizontal: u8,
    /// The number of rows less one, 0 to 15.
    pub row_count: u8,
    /// The number of columns less one, 0 to 63.
    pub column_count: u8,
    pub row_lock: bool,
    pub column_lock: bool,
    pub visible: bool,
    /// The predefined window style, 1 to 7, or 0 for none.
    pub window_style_id: u8,
    /// The predefined pen style, 1 to 7, or 0 for none.
    pub pen_style_id: u8,
}

impl DefineWindowArgs {
    /// Whether every field fits in the bits that the wire format gives it.
    pub open spec fn in_range(self) -> bool {
        &&& self.window_id < 8
        &&& self.priority < 8
        &&& self.anchor_vertical < 128
        &&& self.row_count < 16
        &&& self.column_count < 64
        &&& self.window_style_id < 8
        &&& self.pen_style_id < 8
    }

    /// The six argument bytes. The window id is not among them: it is part of
    /// the command byte.
    pub open spec fn bytes(self) -> Seq<u8> {
        seq![
            (self.priority & 0x07) | flag_bit(self.column_lock) << 3 | flag_bit(self.row_lock) << 4
                | flag_bit(self.visible) << 5,
            (self.anchor_vertical & 0x7F) | flag_bit(self.relative_positioning) << 7,
            self.anchor_horizontal,
            (self.row_count & 0x0F) | self.anchor_point.bits() << 4,
            self.column_count & 0x3F,
            (self.pen_style_id & 0x07) | (self.window_style_id & 0x07) << 3,
        ]
    }

    /// The arguments that six bytes stand for, for the window `window_id`.
    pub open spec fn of_bytes(window_id: u8, args: Seq<u8>) -> DefineWindowArgs
        recommends
            args.len() == 6,
    {
        DefineWindowArgs {
            window_id,
            priority: args[0] & 0x07,
            anchor_point: Anchor::of_bits((args[3] & 0xF0) >> 4),
            relative_positioning: (args[1] & 0x80) > 0,
            anchor_vertical: args[1] & 0x7F,
            anchor_horizontal: args[2],
            row_count: args[3] & 0x0F,
            column_count: args[4] & 0x3F,
            row_lock: (args[0] & 0x10) > 0,
            column_lock: (args[0] & 0x08) > 0,
            visible: (args[0] & 0x20) > 0,
            window_style_id: (args[5] & 0x38) >> 3,
            pen_style_id: args[5] & 0x07,
        }
    }

    /// The arguments with these fields.
    pub fn new(
        window_id: u8,
        priority: u8,
        anchor_point: Anchor,
        relative_positioning: bool,
        anchor_vertical: u8,
        anchor_horizontal: u8,
        row_count: u8,
        column_count: u8,
        row_lock: bool,
        column_lock: bool,
        visible: bool,
        window_style_id: u8,
        pen_style_id: u8,
    ) -> (r: DefineWindowArgs)
        ensures
            r == (DefineWindowArgs {
                window_id,
                priority,
                anchor_point,
                relative_positioning,
                anchor_vertical,
                anchor_horizontal,
                row_count,
                column_count,
                row_lock,
                column_lock,
                visible,
                window_style_id,
                pen_style_id,
            }),
    {
        DefineWindowArgs {
            window_id,
            priority,
            anchor_point,
            relative_positioning,
            anchor_vertical,
            anchor_horizontal,
            row_count,
            column_count,
            row_lock,
            column_lock,
            visible,
            window_style_id,
            pen_style_id,
        }
    }

    /// The six argument bytes.
    pub fn to_bytes(self) -> (r: [u8; 6])
        ensures
            r@ == self.bytes(),
    {
        let r: [u8; 6] = [
            (self.priority & 0x07) | flag(self.column_lock) << 3 | flag(self.row_lock) << 4 | flag(
                self.visible,
            ) << 5,
            (self.anchor_vertical & 0x7F) | flag(self.relative_positioning) << 7,
            self.anchor_horizontal,
            (self.row_count & 0x0F) | self.anchor_point.to_u8() << 4,
            self.column_count & 0x3F,
            (self.pen_style_id & 0x07) | (self.window_style_id & 0x07) << 3,
        ];
        assert(r@ =~= self.bytes());
        r
    }

    /// The arguments that six bytes stand for. The window id is left at 0,
    /// since the bytes do not hold it.
    pub fn from_bytes(args: [u8; 6]) -> (r: DefineWindowArgs)
        ensures
            r == DefineWindowArgs::of_bytes(0, args@),
    {
        proof {
            lemma_field_bounds(args[3]);
        }
        DefineWindowArgs {
            window_id: 0,
            priority: args[0] & 0x07,
            anchor_point: Anchor::from_u8((args[3] & 0xF0) >> 4),
            relative_positioning: (args[1] & 0x80) > 0,
            anchor_vertical: args[1] & 0x7F,
            anchor_horizontal: args[2],
            row_count: args[3] & 0x0F,
            column_count: args[4] & 0x3F,
            row_lock: (args[0] & 0x10) > 0,
            column_lock: (args[0] & 0x08) > 0,
            visible: (args[0] & 0x20) > 0,
            window_style_id: (args[5] & 0x38) >> 3,
            pen_style_id: args[5] & 0x07,
        }
    }

    /// Arguments in range are the arguments of their own bytes.
    pub proof fn lemma_bytes_inverse(self)
        requires
            self.in_range(),
        ensures
            self.bytes().len() == 6,
            DefineWindowArgs::of_bytes(self.window_id, self.bytes()) == self,
    {
        let p = self.priority;
        let cl = flag_bit(self.column_lock);
        let rl = flag_bit(self.row_lock);
        let vi = flag_bit(self.visible);
        assert({
            let b = (p & 0x07) | cl << 3 | rl << 4 | vi << 5;
            &&& b & 0x07 == p
            &&& ((b & 0x08) > 0) == (cl == 1)
            &&& ((b & 0x10) > 0) == (rl == 1)
            &&& ((b & 0x20) > 0) == (vi == 1)
        }) by (bit_vector)
            requires
                p < 8,
                cl <= 1,
                rl <= 1,
                vi <= 1,
        ;
        let av = self.anchor_vertical;
        let rp = flag_bit(self.relative_positioning);
        assert({
            let b = (av & 0x7F) | rp << 7;
            &&& b & 0x7F == av
            &&& ((b & 0x80) > 0) == (rp == 1)
        }) by (bit_vector)
            requires
                av < 128,
                rp <= 1,
        ;
        let rc = self.row_count;
        let ap = self.anchor_point.bits();
        self.anchor_point.lemma_bits_inverse();
        assert({
            let b = (rc & 0x0F) | ap << 4;
            &&& b & 0x0F == rc
            &&& (b & 0xF0) >> 4 == ap
        }) by (bit_vector)
            requires
                rc < 16,
                ap < 16,
        ;
        let cc = self.column_count;
        assert((cc & 0x3F) & 0x3F == cc) by (bit_vector)
            requires
                cc < 64,
        ;
        let ps = self.pen_style_id;
        let ws = self.window_style_id;
        assert({
            let b = (ps & 0x07) | (ws & 0x07) << 3;
            &&& b & 0x07 == ps
            &&& (b & 0x38) >> 3 == ws
        }) by (bit_vector)
            requires
                ps < 8,
                ws < 8,
        ;
    }

    /// The bytes of any arguments give back arguments in range.
    pub proof fn lemma_of_bytes_in_range(window_id: u8, args: Seq<u8>)
        requires
            window_id < 8,
        ensures
            DefineWindowArgs::of_bytes(window_id, args).in_range(),
    {
        lemma_field_bounds(args[0]);
        lemma_field_bounds(args[1]);
        lemma_field_bounds(args[3]);
        lemma_field_bounds(args[4]);
        lemma_field_bounds(args[5]);
    }

    /// The window attributes of the predefined window style that these
    /// arguments name.
    pub fn window_attributes(&self) -> (r: SetWindowAttributesArgs)
        requires
            1 <= self.window_style_id <= 7,
        ensures
            r == predefined_window_style(self.window_style_id),
    {
        let centered = self.window_style_id == 3 || self.window_style_id == 6;
        let vertical = self.window_style_id == 7;
        let see_through = self.window_style_id == 2 || self.window_style_id == 5;
        SetWindowAttributesArgs {
            justify: if centered {
                Justify::Center
            } else {
                Justify::Left
            },
            print_direction: if vertical {
                Direction::TopToBottom
            } else {
                Direction::LeftToRight
            },
            scroll_direction: if vertical {
                Direction::RightToLeft
            } else {
                Direction::BottomToTop
            },
            wordwrap: 4 <= self.window_style_id && self.window_style_id <= 6,
            display_effect: DisplayEffect::Snap,
            effect_direction: Direction::LeftToRight,
            effect_speed: 1,
            fill_color: Color::black(),
            fill_opacity: if see_through {
                Opacity::Transparent
            } else {
                Opacity::Solid
            },
            border_type: BorderType::NoBorder,
            border_color: Color::black(),
        }
    }

    /// The pen attributes of the predefined pen style that these arguments
    /// name.
    pub fn pen_attributes(&self) -> (r: SetPenAttributesArgs)
        requires
            1 <= self.pen_style_id <= 7,
        ensures
            r == predefined_pen_attributes(self.pen_style_id),
    {
        let font_style = match self.pen_style_id {
            1 => FontStyle::Default,
            2 => FontStyle::MonospacedWithSerifs,
            3 => FontStyle::ProportionallySpacedWithSerifs,
            4 => FontStyle::MonospacedWithoutSerifs,
            5 => FontStyle::ProportionallySpacedWithoutSerifs,
            6 => FontStyle::MonospacedWithoutSerifs,
            _ => FontStyle::ProportionallySpacedWithoutSerifs,
        };
        SetPenAttributesArgs {
            pen_size: PenSize::Standard,
            font_style,
            text_tag: TextTag::Dialog,
            offset: TextOffset::Normal,
            italics: false,
            underline: false,
            edge_type: if self.pen_style_id >= 6 {
                EdgeType::Uniform
            } else {
                EdgeType::NoEdge
            },
        }
    }

    /// The pen color of the predefined pen style that these arguments name.
    pub fn pen_color(&self) -> (r: SetPenColorArgs)
        requires
            1 <= self.pen_style_id <= 7,
        ensures
            r == predefined_pen_color(self.pen_style_id),
    {
        SetPenColorArgs {
            foreground_color: Color::white(),
            foreground_opacity: Opacity::Solid,
            background_color: Color::black(),
            background_opacity: if self.pen_style_id >= 6 {
                Opacity::Transparent
            } else {
                Opacity::Solid
            },
            edge_color: Color::black(),
        }
    }
}

impl From<DefineWindowArgs> for [u8; 6] {
    fn from(args: DefineWindowArgs) -> (r: [u8; 6]) {
        let r = args.to_bytes();
        assert(r =~= [args.bytes()[0], args.bytes()[1], args.bytes()[2], args.bytes()[3], args.bytes()[4], args.bytes()[5]]);
        r
    }
}

impl vstd::std_specs::convert::FromSpecImpl<DefineWindowArgs> for [u8; 6] {
    open spec fn obeys_from_spec() -> bool {
        true
    }

    open spec fn from_spec(args: DefineWindowArgs) -> [u8; 6] {
        [args.bytes()[0], args.bytes()[1], args.bytes()[2], args.bytes()[3], args.bytes()[4], args.bytes()[5]]
    }
}

impl From<[u8; 6]> for DefineWindowArgs {
    fn from(bytes: [u8; 6]) -> (r: DefineWindowArgs) {
        DefineWindowArgs::from_bytes(bytes)
    }
}

impl vstd::std_specs::convert::FromSpecImpl<[u8; 6]> for DefineWindowArgs {
    open spec fn obeys_from_spec() -> bool {
        true
    }

    open spec fn from_spec(bytes: [u8; 6]) -> DefineWindowArgs {
        DefineWindowArgs::of_bytes(0, bytes@)
    }
}

/// The predefined window styles 1 to 7.
///
/// | style | justify | print | scroll | word wrap | fill |
/// |---|---|---|---|---|---|
/// | 1 | left | left to right | bottom to top | no | solid |
/// | 2 | left | left to right | bottom to top | no | transparent |
/// | 3 | center | left to right | bottom to top | no | solid |
/// | 4 | left | left to right | bottom to top | yes | solid |
/// | 5 | left | left to right | bottom to top | yes | transparent |
/// | 6 | center | left to right | bottom to top | yes | solid |
/// | 7 | left | top to bottom | right to left | no | solid |
///
/// All of them snap into view, fill with black and have no border.
pub open spec fn predefined_window_style(id: u8) -> SetWindowAttributesArgs
    recommends
        1 <= id <= 7,
{
    let common = SetWindowAttributesArgs {
        justify: Justify::Left,
        print_direction: Direction::LeftToRight,
        scroll_direction: Direction::BottomToTop,
        wordwrap: false,
        display_effect: DisplayEffect::Snap,
        effect_direction: Direction::LeftToRight,
        effect_speed: 1,
        fill_color: Color::black(),
        fill_opacity: Opacity::Solid,
        border_type: BorderType::NoBorder,
        border_color: Color::black(),
    };
    match id {
        1 => common,
        2 => SetWindowAttributesArgs { fill_opacity: Opacity::Transparent, ..common },
        3 => SetWindowAttributesArgs { justify: Justify::Center, ..common },
        4 => SetWindowAttributesArgs { wordwrap: true, ..common },
        5 => SetWindowAttributesArgs {
            wordwrap: true,
            fill_opacity: Opacity::Transparent,
            ..common
        },
        6 => SetWindowAttributesArgs { justify: Justify::Center, wordwrap: true, ..common },
        _ => SetWindowAttributesArgs {
            print_direction: Direction::TopToBottom,
            scroll_direction: Direction::RightToLeft,
            ..common
        },
    }
}

/// The pen attributes of the predefined pen styles 1 to 7: standard size,
/// dialog, no offset, neither italic nor underlined; the styles differ in the
/// font, and the styles 6 and 7 have a uniform edge.
pub open spec fn predefined_pen_attributes(id: u8) -> SetPenAttributesArgs
    recommends
        1 <= id <= 7,
{
    SetPenAttributesArgs {
        pen_size: PenSize::Standard,
        font_style: match id {
            1 => FontStyle::Default,
            2 => FontStyle::MonospacedWithSerifs,
            3 => FontStyle::ProportionallySpacedWithSerifs,
            4 => FontStyle::MonospacedWithoutSerifs,
            5 => FontStyle::ProportionallySpacedWithoutSerifs,
            6 => FontStyle::MonospacedWithoutSerifs,
            _ => FontStyle::ProportionallySpacedWithoutSerifs,
        },
        text_tag: TextTag::Dialog,
        offset: TextOffset::Normal,
        italics: false,
        underline: false,
        edge_type: if id == 6 || id == 7 {
            EdgeType::Uniform
        } else {
            EdgeType::NoEdge
        },
    }
}

/// The pen colors of the predefined pen styles 1 to 7: white on black with a
/// black edge; the background is solid but for the styles 6 and 7, where it
/// is transparent.
pub open spec fn predefined_pen_color(id: u8) -> SetPenColorArgs
    recommends
        1 <= id <= 7,
{
    SetPenColorArgs {
        foreground_color: Color::white(),
        foreground_opacity: Opacity::Solid,
        background_color: Color::black(),
        background_opacity: if id == 6 || id == 7 {
            Opacity::Transparent
        } else {
            Opacity::Solid
        },
        edge_color: Color::black(),
    }
}

/// The arguments of the `SetWindowAttributes` command.
#[derive(Debug, Clone, Copy, PartialEq, Eq, PartialOrd, Ord, Structural)]
pub struct SetWindowAttributesArgs {
    pub justify: Justify,
    pub print_direction: Direction,
    pub scroll_direction: Direction,
    pub wordwrap: bool,
    pub display_effect: DisplayEffect,
    pub effect_direction: Direction,
    /// The speed of the display effect, 1 to 15, in units of 500 ms.
    pub effect_speed: u8,
    pub fill_color: Color,
    pub fill_opacity: Opacity,
    pub border_type: BorderType,
    pub border_color: Color,
}

impl SetWindowAttributesArgs {
    /// Whether every field fits in the bits that the wire format gives it.
    pub open spec fn in_range(self) -> bool {
        self.effect_speed < 16
    }

    /// The four argument bytes. The border type has its low two bits in the
    /// second byte and its third bit at the top of the third byte.
    pub open spec fn bytes(self) -> Seq<u8> {
        seq![
            color_opacity_bits(self.fill_color, self.fill_opacity),
            (self.border_type.bits() & 0x03) << 6 | self.border_color.bits(),
            (self.border_type.bits() & 0x04) << 5 | flag_bit(self.wordwrap) << 6
                | self.print_direction.bits() << 4 | self.scroll_direction.bits() << 2
                | self.justify.bits(),
            self.effect_speed << 4 | self.effect_direction.bits() << 2 | self.display_effect.bits(),
        ]
    }

    /// The arguments that four bytes stand for.
    pub open spec fn of_bytes(args: Seq<u8>) -> SetWindowAttributesArgs
        recommends
            args.len() == 4,
    {
        SetWindowAttributesArgs {
            justify: Justify::of_bits(args[2] & 0x03),
            print_direction: Direction::of_bits((args[2] & 0x30) >> 4),
            scroll_direction: Direction::of_bits((args[2] & 0x0C) >> 2),
            wordwrap: (args[2] & 0x40) > 0,
            display_effect: DisplayEffect::of_bits(args[3] & 0x03),
            effect_direction: Direction::of_bits((args[3] & 0x0C) >> 2),
            effect_speed: (args[3] & 0xF0) >> 4,
            fill_color: Color::of_bits(args[0]),
            fill_opacity: opacity_of_bits(args[0]),
            border_type: BorderType::of_bits((args[1] & 0xC0) >> 6 | (args[2] & 0x80) >> 5),
            border_color: Color::of_bits(args[1]),
        }
    }

    /// The arguments with these fields.
    pub fn new(
        justify: Justify,
        print_direction: Direction,
        scroll_direction: Direction,
        wordwrap: bool,
        display_effect: DisplayEffect,
        effect_direction: Direction,
        effect_speed: u8,
        fill_color: Color,
        fill_opacity: Opacity,
        border_type: BorderType,
        border_color: Color,
    ) -> (r: SetWindowAttributesArgs)
        ensures
            r == (SetWindowAttributesArgs {
                justify,
                print_direction,
                scroll_direction,
                wordwrap,
                display_effect,
                effect_direction,
                effect_speed,
                fill_color,
                fill_opacity,
                border_type,
                border_color,
            }),
    {
        SetWindowAttributesArgs {
            justify,
            print_direction,
            scroll_direction,
            wordwrap,
            display_effect,
            effect_direction,
            effect_speed,
            fill_color,
            fill_opacity,
            border_type,
            border_color,
        }
    }

    /// The four argument bytes.
    pub fn to_bytes(self) -> (r: [u8; 4])
        ensures
            r@ == self.bytes(),
    {
        let bt: u8 = self.border_type.to_u8();
        let r: [u8; 4] = [
            color_opacity_to_u8(self.fill_color, self.fill_opacity),
            (bt & 0x03) << 6 | self.border_color.to_u8(),
            (bt & 0x04) << 5 | flag(self.wordwrap) << 6 | self.print_direction.to_u8() << 4
                | self.scroll_direction.to_u8() << 2 | self.justify.to_u8(),
            self.effect_speed << 4 | self.effect_direction.to_u8() << 2
                | self.display_effect.to_u8(),
        ];
        assert(r@ =~= self.bytes());
        r
    }

    /// The arguments that four bytes stand for.
    pub fn from_bytes(args: [u8; 4]) -> (r: SetWindowAttributesArgs)
        ensures
            r == SetWindowAttributesArgs::of_bytes(args@),
    {
        proof {
            lemma_field_bounds(args[2]);
            lemma_field_bounds(args[3]);
            lemma_border_bounds(args[1], args[2]);
        }
        let fill = color_opacity_from_u8(args[0]);
        let border_type: u8 = (args[1] & 0xC0) >> 6 | (args[2] & 0x80) >> 5;
        SetWindowAttributesArgs {
            justify: Justify::from_u8(args[2] & 0x03),
            print_direction: Direction::from_u8((args[2] & 0x30) >> 4),
            scroll_direction: Direction::from_u8((args[2] & 0x0C) >> 2),
            wordwrap: (args[2] & 0x40) > 0,
            display_effect: DisplayEffect::from_u8(args[3] & 0x03),
            effect_direction: Direction::from_u8((args[3] & 0x0C) >> 2),
            effect_speed: (args[3] & 0xF0) >> 4,
            fill_color: fill.0,
            fill_opacity: fill.1,
            border_type: BorderType::from_u8(border_type),
            border_color: Color::from_u8(args[1]),
        }
    }

    /// Arguments in range are the arguments of their own bytes.
    pub proof fn lemma_bytes_inverse(self)
        requires
            self.in_range(),
        ensures
            self.bytes().len() == 4,
            SetWindowAttributesArgs::of_bytes(self.bytes()) == self,
    {
        lemma_color_opacity_inverse(self.fill_color, self.fill_opacity);
        let bt = self.border_type.bits();
        let bc = self.border_color.bits();
        self.border_type.lemma_bits_inverse();
        self.border_color.lemma_bits_inverse();
        let ww = flag_bit(self.wordwrap);
        let pd = self.print_direction.bits();
        let sd = self.scroll_direction.bits();
        let ju = self.justify.bits();
        self.print_direction.lemma_bits_inverse();
        self.scroll_direction.lemma_bits_inverse();
        self.justify.lemma_bits_inverse();
        assert({
            let b1 = (bt & 0x03) << 6 | bc;
            let b2 = (bt & 0x04) << 5 | ww << 6 | pd << 4 | sd << 2 | ju;
            &&& ((b1 & 0xC0) >> 6 | (b2 & 0x80) >> 5) == bt
            &&& (b1 & 0x30) >> 4 == (bc & 0x30) >> 4
            &&& (b1 & 0x0C) >> 2 == (bc & 0x0C) >> 2
            &&& b1 & 0x03 == bc & 0x03
            &&& b2 & 0x03 == ju
            &&& (b2 & 0x30) >> 4 == pd
            &&& (b2 & 0x0C) >> 2 == sd
            &&& ((b2 & 0x40) > 0) == (ww == 1)
        }) by (bit_vector)
            requires
                bt < 8,
                bc < 64,
                ww <= 1,
                pd < 4,
                sd < 4,
                ju < 4,
        ;
        let es = self.effect_speed;
        let ed = self.effect_direction.bits();
        let de = self.display_effect.bits();
        self.effect_direction.lemma_bits_inverse();
        self.display_effect.lemma_bits_inverse();
        assert({
            let b3 = es << 4 | ed << 2 | de;
            &&& b3 & 0x03 == de
            &&& (b3 & 0x0C) >> 2 == ed
            &&& (b3 & 0xF0) >> 4 == es
        }) by (bit_vector)
            requires
                es < 16,
                ed < 4,
                de < 4,
        ;
    }

    /// The bytes of any arguments give back arguments in range.
    pub proof fn lemma_of_bytes_in_range(args: Seq<u8>)
        ensures
            SetWindowAttributesArgs::of_bytes(args).in_range(),
    {
        lemma_field_bounds(args[3]);
    }
}

impl From<SetWindowAttributesArgs> for [u8; 4] {
    fn from(args: SetWindowAttributesArgs) -> (r: [u8; 4]) {
        let r = args.to_bytes();
        assert(r =~= [args.bytes()[0], args.bytes()[1], args.bytes()[2], args.bytes()[3]]);
        r
    }
}

impl vstd::std_specs::convert::FromSpecImpl<SetWindowAttributesArgs> for [u8; 4] {
    open spec fn obeys_from_spec() -> bool {
        true
    }

    open spec fn from_spec(args: SetWindowAttributesArgs) -> [u8; 4] {
        [args.bytes()[0], args.bytes()[1], args.bytes()[2], args.bytes()[3]]
    }
}

impl From<[u8; 4]> for SetWindowAttributesArgs {
    fn from(bytes: [u8; 4]) -> (r: SetWindowAttributesArgs) {
        SetWindowAttributesArgs::from_bytes(bytes)
    }
}

impl vstd::std_specs::convert::FromSpecImpl<[u8; 4]> for SetWindowAttributesArgs {
    open spec fn obeys_from_spec() -> bool {
        true
    }

    open spec fn from_spec(bytes: [u8; 4]) -> SetWindowAttributesArgs {
        SetWindowAttributesArgs::of_bytes(bytes@)
    }
}

} // verus!
