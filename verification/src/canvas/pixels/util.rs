//! Colours, the contents of a cell, and the flags that say with which
//! neighbours a cell is drawn as joined.

use crate::object::NodeValue;
use crate::size::{NodeDirection, Side};
use vstd::prelude::*;
use vstd::string::StringExecFns;

verus! {

/// The digit that stands for `n`, a number below ten.
pub open spec fn digit(n: int) -> char {
    if n == 0 {
        '0'
    } else if n == 1 {
        '1'
    } else if n == 2 {
        '2'
    } else if n == 3 {
        '3'
    } else if n == 4 {
        '4'
    } else if n == 5 {
        '5'
    } else if n == 6 {
        '6'
    } else if n == 7 {
        '7'
    } else if n == 8 {
        '8'
    } else {
        '9'
    }
}

/// The number in decimal digits, without leading zeros.
pub open spec fn decimal(n: nat) -> Seq<char>
    decreases n,
{
    if n < 10 {
        seq![digit(n as int)]
    } else {
        decimal(n / 10).push(digit((n % 10) as int))
    }
}

fn digit_text(n: u16) -> (text: &'static str)
    requires
        n < 10,
    ensures
        text@ == seq![digit(n as int)],
{
    proof {
        reveal_strlit("0");
        reveal_strlit("1");
        reveal_strlit("2");
        reveal_strlit("3");
        reveal_strlit("4");
        reveal_strlit("5");
        reveal_strlit("6");
        reveal_strlit("7");
        reveal_strlit("8");
        reveal_strlit("9");
    }
    let text = if n == 0 {
        "0"
    } else if n == 1 {
        "1"
    } else if n == 2 {
        "2"
    } else if n == 3 {
        "3"
    } else if n == 4 {
        "4"
    } else if n == 5 {
        "5"
    } else if n == 6 {
        "6"
    } else if n == 7 {
        "7"
    } else if n == 8 {
        "8"
    } else {
        "9"
    };
    text
}

fn append_decimal(text: &mut String, n: u16)
    ensures
        final(text)@ == old(text)@ + decimal(n as nat),
    decreases n,
{
    if n >= 10 {
        append_decimal(text, n / 10);
    }
    text.append(digit_text(n % 10));
}

#[derive(Debug, Clone, Copy, PartialEq, Eq, Structural)]
pub struct PixelColor(pub u16, pub u16, pub u16);

impl PixelColor {
    /// The colour `0xRRGGBB`: one byte each of red, green and blue, the
    /// bits above them ignored.
    pub fn from_integer(value: u32) -> (color: Self)
        ensures
            color.0 == (value / 0x10000) % 0x100,
            color.1 == (value / 0x100) % 0x100,
            color.2 == value % 0x100,
    {
        let r = (value >> 16) & 0xFF;
        let g = (value >> 8) & 0xFF;
        let b = value & 0xFF;
        assert((value >> 16) & 0xFF == (value / 0x10000) % 0x100) by (bit_vector);
        assert((value >> 8) & 0xFF == (value / 0x100) % 0x100) by (bit_vector);
        assert(value & 0xFF == value % 0x100) by (bit_vector);
        PixelColor(r as u16, g as u16, b as u16)
    }

    /// The colour as a style sheet names it: `rgb(r, g, b)`, each part in
    /// decimal.
    pub open spec fn named(self) -> Seq<char> {
        seq!['r', 'g', 'b', '('] + decimal(self.0 as nat) + seq![',', ' '] + decimal(self.1 as nat)
            + seq![',', ' '] + decimal(self.2 as nat) + seq![')']
    }

    pub fn get_string_color(self) -> (name: String)
        ensures
            name@ == self.named(),
    {
        proof {
            reveal_strlit("rgb(");
            reveal_strlit(", ");
            reveal_strlit(")");
        }
        let mut name = String::from_str("rgb(");
        append_decimal(&mut name, self.0);
        name.append(", ");
        append_decimal(&mut name, self.1);
        name.append(", ");
        append_decimal(&mut name, self.2);
        name.append(")");
        name
    }

    /// The number `0xRRGGBB` of a colour whose parts each fit a byte.
    pub open spec fn packed(self) -> int {
        self.0 * 0x10000 + self.1 * 0x100 + self.2
    }

    /// Whether each part fits a byte.
    pub open spec fn in_bytes(self) -> bool {
        self.0 < 0x100 && self.1 < 0x100 && self.2 < 0x100
    }

    /// Red, shifted left by a byte and joined bit by bit with green, then
    /// the same again with blue. For parts that fit a byte that is
    /// `0xRRGGBB`.
    pub fn into_integer(self) -> (value: u32)
        ensures
            value == (((self.0 as u32) << 8 | self.1 as u32) << 8) | self.2 as u32,
            self.in_bytes() ==> value == self.packed(),
    {
        let r = self.0 as u32;
        let g = self.1 as u32;
        let b = self.2 as u32;
        let mut rgb = r;
        rgb = (rgb << 8) | g;
        rgb = (rgb << 8) | b;
        assert(r < 0x100 && g < 0x100 && b < 0x100 ==> (((r << 8) | g) << 8) | b == r * 0x10000 + g
            * 0x100 + b) by (bit_vector);
        rgb
    }
}

/// Four flags in the low bits of a byte: joined at the top (8), at the
/// bottom (4), on the left (2), on the right (1).
#[derive(Debug, Clone, Copy, PartialEq, Eq, Structural)]
pub struct PixelDisplay(pub u8);

impl PixelDisplay {
    /// The bit that stands for `side`.
    pub open spec fn mask(side: Side) -> u8 {
        match side {
            Side::Top => 8,
            Side::Bottom => 4,
            Side::Left => 2,
            Side::Right => 1,
        }
    }

    /// Whether the cell is drawn as joined with its neighbour on `side`.
    pub open spec fn joined(self, side: Side) -> bool {
        self.0 & Self::mask(side) != 0
    }

    /// The bits that stand for no side.
    pub open spec fn rest(self) -> u8 {
        self.0 & 0xF0
    }

    /// The flags with that of `side` set to `value`.
    pub open spec fn with_side(self, side: Side, value: bool) -> PixelDisplay {
        PixelDisplay((self.0 & !Self::mask(side)) | (if value { Self::mask(side) } else { 0 }))
    }

    pub fn new_from_sides(top: bool, bottom: bool, left: bool, right: bool) -> (display: Self)
        ensures
            display.joined(Side::Top) == top,
            display.joined(Side::Bottom) == bottom,
            display.joined(Side::Left) == left,
            display.joined(Side::Right) == right,
            display.rest() == 0,
            display.0 == (if top { 8int } else { 0 }) + (if bottom { 4int } else { 0 }) + (if left {
                2int
            } else {
                0
            }) + (if right { 1int } else { 0 }),
    {
        let t: u8 = if top { 1 } else { 0 };
        let b: u8 = if bottom { 1 } else { 0 };
        let l: u8 = if left { 1 } else { 0 };
        let r: u8 = if right { 1 } else { 0 };
        let mut byte: u8 = 0;
        byte |= t;
        byte <<= 1;
        byte |= b;
        byte <<= 1;
        byte |= l;
        byte <<= 1;
        byte |= r;
        assert(t <= 1 && b <= 1 && l <= 1 && r <= 1 ==> {
            let v = ((((((0u8 | t) << 1) | b) << 1) | l) << 1) | r;
            &&& v == t * 8 + b * 4 + l * 2 + r
            &&& (v & 8 != 0) == (t == 1)
            &&& (v & 4 != 0) == (b == 1)
            &&& (v & 2 != 0) == (l == 1)
            &&& (v & 1 != 0) == (r == 1)
            &&& v & 0xF0 == 0
        }) by (bit_vector);
        PixelDisplay(byte)
    }

    /// Sets the flag of `side` to `value` and leaves the others.
    pub fn update_side(&mut self, side: Side, value: bool)
        ensures
            *final(self) == old(self).with_side(side, value),
            forall|s: Side|
                final(self).joined(s) == if s == side {
                    value
                } else {
                    old(self).joined(s)
                },
            final(self).rest() == old(self).rest(),
    {
        let pos: u8 = match side {
            Side::Top => 3,
            Side::Bottom => 2,
            Side::Left => 1,
            Side::Right => 0,
        };
        let mask: u8 = 1 << pos;
        let set_bit: u8 = if value { mask } else { 0 };
        let before = self.0;
        self.0 = (self.0 & !mask) | set_bit;
        let after = self.0;
        assert(pos <= 3 ==> {
            let m = 1u8 << pos;
            &&& m == (if pos == 3 { 8u8 } else if pos == 2 { 4u8 } else if pos == 1 { 2u8 } else { 1u8 })
        }) by (bit_vector);
        assert((mask == 8 || mask == 4 || mask == 2 || mask == 1) && (set_bit == mask || set_bit == 0)
            && after == (before & !mask) | set_bit ==> {
            &&& (after & mask != 0) == (set_bit == mask)
            &&& (mask != 8 ==> (after & 8 != 0) == (before & 8 != 0))
            &&& (mask != 4 ==> (after & 4 != 0) == (before & 4 != 0))
            &&& (mask != 2 ==> (after & 2 != 0) == (before & 2 != 0))
            &&& (mask != 1 ==> (after & 1 != 0) == (before & 1 != 0))
            &&& after & 0xF0 == before & 0xF0
        }) by (bit_vector);
    }
}

/// What a cell holds.
#[derive(Debug, Clone, Copy, PartialEq, Eq, Structural)]
pub enum PixelType {
    /// A piece of wire in the colour `index` of the palette.
    Wire { index: usize, value: NodeValue },
    /// A node of an object, on the given side of it.
    Node { direction: NodeDirection, side: Side },
    /// Part of an object's body, in a colour of its own.
    Custom(PixelColor),
    /// Part of an object's body, in the common colour.
    ObjectColor,
}

impl PixelType {
    pub fn is_wire(&self) -> (yes: bool)
        ensures
            yes == (*self is Wire),
    {
        match self {
            PixelType::Wire { .. } => true,
            _ => false,
        }
    }

    pub fn is_node(&self) -> (yes: bool)
        ensures
            yes == (*self is Node),
    {
        match self {
            PixelType::Node { .. } => true,
            _ => false,
        }
    }

    pub open spec fn wire_index(&self) -> Option<usize> {
        match *self {
            PixelType::Wire { index, .. } => Some(index),
            _ => None,
        }
    }

    #[verifier::when_used_as_spec(wire_index)]
    pub fn get_wire_palette_index(&self) -> (index: Option<usize>)
        ensures
            index == self.wire_index(),
    {
        match self {
            PixelType::Wire { index, .. } => Some(*index),
            _ => None,
        }
    }
}

#[derive(Debug, Clone, Copy, PartialEq, Eq, Structural)]
pub struct Pixel {
    pub type_of: PixelType,
    pub display: PixelDisplay,
}

impl Pixel {
    /// Whether the cell shows joins at all: wires and nodes do.
    pub open spec fn joins(self) -> bool {
        self.type_of is Wire || self.type_of is Node
    }

    /// The pixel with the flag of `side` set to `value`, if it shows joins.
    pub open spec fn with_side(self, side: Side, value: bool) -> Pixel {
        if self.joins() {
            Pixel { type_of: self.type_of, display: self.display.with_side(side, value) }
        } else {
            self
        }
    }

    /// Sets the flag of `side` to `value` on a wire or a node; other cells
    /// stay as they are.
    pub fn update_side(&mut self, side: Side, value: bool)
        ensures
            *final(self) == old(self).with_side(side, value),
    {
        if self.type_of.is_wire() || self.type_of.is_node() {
            self.display.update_side(side, value);
        }
    }
}

} // verus!
