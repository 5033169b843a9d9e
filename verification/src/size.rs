//! Sides, positions and dimensions on the cell grid.
//!
//! Every neighbour query answers with `None` where the neighbour's
//! coordinates cannot be represented, below zero or above `usize::MAX`.

use vstd::prelude::*;
use vstd::std_specs::ops::NegSpec;

verus! {

/// A cell on the grid: column and row, both counted from zero.
pub type CellPos = (usize, usize);

pub type DimSizeType = usize;

pub type DimSizeTuple = (DimSizeType, DimSizeType);

/// The coordinate `value + modifier`, where it is a coordinate at all.
pub open spec fn shifted(value: int, modifier: int) -> Option<usize> {
    if 0 <= value + modifier <= usize::MAX {
        Some((value + modifier) as usize)
    } else {
        None
    }
}

/// The cell `(dx, dy)` away from `pos`, where both coordinates exist.
pub open spec fn offset(pos: CellPos, dx: int, dy: int) -> Option<CellPos> {
    match (shifted(pos.0 as int, dx), shifted(pos.1 as int, dy)) {
        (Some(x), Some(y)) => Some((x, y)),
        _ => None,
    }
}

/// Moves a coordinate by a signed amount. There is no result where the sum
/// would be negative or beyond the largest coordinate.
pub fn modify_usize_with_isize(value: usize, modifier: isize) -> (moved: Option<usize>)
    ensures
        moved == shifted(value as int, modifier as int),
{
    if modifier >= 0 {
        value.checked_add(modifier as usize)
    } else if modifier == isize::MIN {
        match value.checked_sub(isize::MAX as usize) {
            Some(rest) => rest.checked_sub(1),
            None => None,
        }
    } else {
        value.checked_sub((-modifier) as usize)
    }
}

/// Moves a cell by a signed amount in each direction.
pub fn offset_cell_pos(cell_pos: CellPos, by: (isize, isize)) -> (moved: Option<CellPos>)
    ensures
        moved == offset(cell_pos, by.0 as int, by.1 as int),
{
    match modify_usize_with_isize(cell_pos.0, by.0) {
        Some(x) => match modify_usize_with_isize(cell_pos.1, by.1) {
            Some(y) => Some((x, y)),
            None => None,
        },
        None => None,
    }
}

#[derive(Debug, Clone, Copy, PartialEq, Eq, Structural)]
pub enum NodeDirection {
    Input,
    Output,
}

impl NodeDirection {
    pub fn is_input(&self) -> (yes: bool)
        ensures
            yes == (*self == NodeDirection::Input),
    {
        match self {
            NodeDirection::Input => true,
            NodeDirection::Output => false,
        }
    }

    pub fn is_output(&self) -> (yes: bool)
        ensures
            yes == (*self == NodeDirection::Output),
    {
        match self {
            NodeDirection::Input => false,
            NodeDirection::Output => true,
        }
    }
}

#[derive(Debug, Clone, Copy, PartialOrd, Ord, PartialEq, Eq, Structural)]
pub enum Side {
    Top,
    Right,
    Bottom,
    Left,
}

impl Side {
    /// The side across from this one.
    pub open spec fn spec_opposite(self) -> Side {
        match self {
            Side::Top => Side::Bottom,
            Side::Left => Side::Right,
            Side::Right => Side::Left,
            Side::Bottom => Side::Top,
        }
    }

    /// The side reached by a quarter turn clockwise.
    pub open spec fn spec_clockwise(self) -> Side {
        match self {
            Side::Top => Side::Right,
            Side::Right => Side::Bottom,
            Side::Bottom => Side::Left,
            Side::Left => Side::Top,
        }
    }

    /// Horizontal step towards this side: -1, 0 or 1.
    pub open spec fn dx(self) -> int {
        match self {
            Side::Left => -1,
            Side::Right => 1,
            _ => 0,
        }
    }

    /// Vertical step towards this side: -1, 0 or 1. Rows grow downwards.
    pub open spec fn dy(self) -> int {
        match self {
            Side::Top => -1,
            Side::Bottom => 1,
            _ => 0,
        }
    }

    /// The neighbour of `pos` on this side.
    pub open spec fn facing(self, pos: CellPos) -> Option<CellPos> {
        offset(pos, self.dx(), self.dy())
    }

    /// The three sides a signal heading for this side can leave a cell by:
    /// straight on and the two lateral ones, never back. They are listed
    /// top to bottom for a horizontal heading, left to right for a vertical
    /// one.
    pub open spec fn ahead(self) -> Seq<Side> {
        match self {
            Side::Left => seq![Side::Top, Side::Left, Side::Bottom],
            Side::Right => seq![Side::Top, Side::Right, Side::Bottom],
            Side::Top => seq![Side::Left, Side::Top, Side::Right],
            Side::Bottom => seq![Side::Left, Side::Bottom, Side::Right],
        }
    }

    /// The neighbours of `pos` on the three sides of `ahead`, each with the
    /// side it lies on.
    pub open spec fn surrounding(self, pos: CellPos) -> Seq<(Option<CellPos>, Side)> {
        Seq::new(3, |i: int| (self.ahead()[i].facing(pos), self.ahead()[i]))
    }

    pub fn is_top(self) -> (yes: bool)
        ensures
            yes == (self == Side::Top),
    {
        self == Side::Top
    }

    pub fn is_bottom(self) -> (yes: bool)
        ensures
            yes == (self == Side::Bottom),
    {
        self == Side::Bottom
    }

    pub fn is_left(self) -> (yes: bool)
        ensures
            yes == (self == Side::Left),
    {
        self == Side::Left
    }

    pub fn is_right(self) -> (yes: bool)
        ensures
            yes == (self == Side::Right),
    {
        self == Side::Right
    }

    #[verifier::when_used_as_spec(spec_opposite)]
    pub fn opposite(self) -> (other: Side)
        ensures
            other == self.spec_opposite(),
    {
        match self {
            Side::Top => Side::Bottom,
            Side::Left => Side::Right,
            Side::Right => Side::Left,
            Side::Bottom => Side::Top,
        }
    }

    /// The slot `value` on this side.
    pub fn into_node_object_side(self, value: usize) -> (slot: NodeObjectSide)
        ensures
            slot.spec_side() == self,
            slot.spec_value() == value,
    {
        match self {
            Side::Top => NodeObjectSide::Top(value),
            Side::Left => NodeObjectSide::Left(value),
            Side::Right => NodeObjectSide::Right(value),
            Side::Bottom => NodeObjectSide::Bottom(value),
        }
    }

    /// The neighbour of `cell_pos` on this side, if there is one.
    pub fn as_facing_cell_pos(&self, cell_pos: CellPos) -> (neighbour: Option<CellPos>)
        ensures
            neighbour == self.facing(cell_pos),
    {
        match self {
            Side::Top => offset_cell_pos(cell_pos, (0, -1)),
            Side::Left => offset_cell_pos(cell_pos, (-1, 0)),
            Side::Right => offset_cell_pos(cell_pos, (1, 0)),
            Side::Bottom => offset_cell_pos(cell_pos, (0, 1)),
        }
    }

    /// `value` steps towards this side, as a pair of offsets. The other
    /// component is the default of `I`, zero for the number types.
    pub fn get_offset_pos<I: Default + core::ops::Neg<Output = I>>(self, value: I) -> (by: (I, I))
        requires
            self == Side::Left || self == Side::Top ==> value.neg_req(),
        ensures
            self == Side::Left || self == Side::Right ==> call_ensures(I::default, (), by.1),
            self == Side::Top || self == Side::Bottom ==> call_ensures(I::default, (), by.0),
            self == Side::Right ==> by.0 == value,
            self == Side::Bottom ==> by.1 == value,
            self == Side::Left && I::obeys_neg_spec() ==> by.0 == value.neg_spec(),
            self == Side::Top && I::obeys_neg_spec() ==> by.1 == value.neg_spec(),
    {
        match self {
            Side::Left => (value.neg(), I::default()),
            Side::Right => (value, I::default()),
            Side::Top => (I::default(), value.neg()),
            Side::Bottom => (I::default(), value),
        }
    }

    /// The three cells a signal heading for this side can reach from
    /// `cell_pos`.
    pub fn get_surrounding_cells(self, cell_pos: CellPos) -> (cells: [Option<CellPos>; 3])
        ensures
            forall|i: int| 0 <= i < 3 ==> #[trigger] cells@[i] == self.surrounding(cell_pos)[i].0,
    {
        match self {
            Side::Left => [
                offset_cell_pos(cell_pos, (0, -1)),
                offset_cell_pos(cell_pos, (-1, 0)),
                offset_cell_pos(cell_pos, (0, 1)),
            ],
            Side::Right => [
                offset_cell_pos(cell_pos, (0, -1)),
                offset_cell_pos(cell_pos, (1, 0)),
                offset_cell_pos(cell_pos, (0, 1)),
            ],
            Side::Top => [
                offset_cell_pos(cell_pos, (-1, 0)),
                offset_cell_pos(cell_pos, (0, -1)),
                offset_cell_pos(cell_pos, (1, 0)),
            ],
            Side::Bottom => [
                offset_cell_pos(cell_pos, (-1, 0)),
                offset_cell_pos(cell_pos, (0, 1)),
                offset_cell_pos(cell_pos, (1, 0)),
            ],
        }
    }

    /// The three cells a signal heading for this side can reach from
    /// `cell_pos`, each with the side of `cell_pos` on which it lies.
    pub fn get_surrounding_cells_with_side_its_on(self, cell_pos: CellPos) -> (cells: [(
        Option<CellPos>,
        Side,
    ); 3])
        ensures
            cells@ == self.surrounding(cell_pos),
    {
        let cells = match self {
            Side::Left => [
                (offset_cell_pos(cell_pos, (0, -1)), Side::Top),
                (offset_cell_pos(cell_pos, (-1, 0)), Side::Left),
                (offset_cell_pos(cell_pos, (0, 1)), Side::Bottom),
            ],
            Side::Right => [
                (offset_cell_pos(cell_pos, (0, -1)), Side::Top),
                (offset_cell_pos(cell_pos, (1, 0)), Side::Right),
                (offset_cell_pos(cell_pos, (0, 1)), Side::Bottom),
            ],
            Side::Top => [
                (offset_cell_pos(cell_pos, (-1, 0)), Side::Left),
                (offset_cell_pos(cell_pos, (0, -1)), Side::Top),
                (offset_cell_pos(cell_pos, (1, 0)), Side::Right),
            ],
            Side::Bottom => [
                (offset_cell_pos(cell_pos, (-1, 0)), Side::Left),
                (offset_cell_pos(cell_pos, (0, 1)), Side::Bottom),
                (offset_cell_pos(cell_pos, (1, 0)), Side::Right),
            ],
        };
        cells
    }
}

/// A side of an object together with a slot along that side, counted from
/// zero.
#[derive(Debug, Clone, Copy, PartialEq, Eq, Structural, Hash)]
pub enum NodeObjectSide {
    Left(usize),
    Top(usize),
    Right(usize),
    Bottom(usize),
}

impl NodeObjectSide {
    pub open spec fn spec_side(&self) -> Side {
        match self {
            NodeObjectSide::Left(_) => Side::Left,
            NodeObjectSide::Top(_) => Side::Top,
            NodeObjectSide::Right(_) => Side::Right,
            NodeObjectSide::Bottom(_) => Side::Bottom,
        }
    }

    pub open spec fn spec_value(self) -> usize {
        match self {
            NodeObjectSide::Left(i) => i,
            NodeObjectSide::Top(i) => i,
            NodeObjectSide::Right(i) => i,
            NodeObjectSide::Bottom(i) => i,
        }
    }

    /// The slot `value` on `side`.
    pub open spec fn on(side: Side, value: usize) -> NodeObjectSide {
        match side {
            Side::Left => NodeObjectSide::Left(value),
            Side::Top => NodeObjectSide::Top(value),
            Side::Right => NodeObjectSide::Right(value),
            Side::Bottom => NodeObjectSide::Bottom(value),
        }
    }

    /// Column of the cell that holds this slot of an object of the size
    /// `dim` whose top-left body cell is `pos`. The slots lie in the ring
    /// of cells around the body and count clockwise: left to right along
    /// the top, downwards on the right, right to left along the bottom,
    /// upwards on the left.
    pub open spec fn cell_x(self, dim: Dimensions, pos: CellPos) -> int {
        match self {
            NodeObjectSide::Left(_) => pos.0 - 1,
            NodeObjectSide::Right(_) => pos.0 + dim.0,
            NodeObjectSide::Top(p) => pos.0 + p,
            NodeObjectSide::Bottom(p) => pos.0 + dim.0 - p - 1,
        }
    }

    /// Row of the cell that holds this slot.
    pub open spec fn cell_y(self, dim: Dimensions, pos: CellPos) -> int {
        match self {
            NodeObjectSide::Left(p) => pos.1 + dim.1 - p - 1,
            NodeObjectSide::Right(p) => pos.1 + p,
            NodeObjectSide::Top(_) => pos.1 - 1,
            NodeObjectSide::Bottom(_) => pos.1 + dim.1,
        }
    }

    /// The cell that holds this slot, where its coordinates exist.
    pub open spec fn cell(self, dim: Dimensions, pos: CellPos) -> Option<CellPos> {
        let x = self.cell_x(dim, pos);
        let y = self.cell_y(dim, pos);
        if 0 <= x <= usize::MAX && 0 <= y <= usize::MAX {
            Some((x as usize, y as usize))
        } else {
            None
        }
    }

    /// Whether the slot lies within the length of its side.
    pub open spec fn fits(self, dim: Dimensions) -> bool {
        self.spec_value() < dim.spec_from_side(self.spec_side())
    }

    /// The cell of this slot for an object of the size `obj_dim` at
    /// `obj_pos`, or `None` where the cell would lie off the grid.
    pub fn get_cell_pos(self, obj_dim: &Dimensions, obj_pos: CellPos) -> (cell: Option<CellPos>)
        ensures
            cell == self.cell(*obj_dim, obj_pos),
    {
        let (pos_x, pos_y) = obj_pos;
        let width = obj_dim.0 as u128;
        let height = obj_dim.1 as u128;
        let (x, y): (Option<u128>, Option<u128>) = match self {
            NodeObjectSide::Left(p) => (
                if pos_x >= 1 {
                    Some((pos_x - 1) as u128)
                } else {
                    None
                },
                if pos_y as u128 + height >= p as u128 + 1 {
                    Some(pos_y as u128 + height - p as u128 - 1)
                } else {
                    None
                },
            ),
            NodeObjectSide::Right(p) => (
                Some(pos_x as u128 + width),
                Some(pos_y as u128 + p as u128),
            ),
            NodeObjectSide::Top(p) => (
                Some(pos_x as u128 + p as u128),
                if pos_y >= 1 {
                    Some((pos_y - 1) as u128)
                } else {
                    None
                },
            ),
            NodeObjectSide::Bottom(p) => (
                if pos_x as u128 + width >= p as u128 + 1 {
                    Some(pos_x as u128 + width - p as u128 - 1)
                } else {
                    None
                },
                Some(pos_y as u128 + height),
            ),
        };
        match (x, y) {
            (Some(x), Some(y)) => {
                if x <= usize::MAX as u128 && y <= usize::MAX as u128 {
                    Some((x as usize, y as usize))
                } else {
                    None
                }
            },
            _ => None,
        }
    }

    pub fn get_surrounding_cells(self, cell_pos: CellPos) -> (cells: [Option<CellPos>; 3])
        ensures
            forall|i: int|
                0 <= i < 3 ==> #[trigger] cells@[i] == self.spec_side().surrounding(cell_pos)[i].0,
    {
        self.side().get_surrounding_cells(cell_pos)
    }

    /// The cell in front of `cell_pos` when looking out of this side.
    pub fn as_facing_cell_pos(&self, cell_pos: CellPos) -> (neighbour: Option<CellPos>)
        ensures
            neighbour == self.spec_side().facing(cell_pos),
    {
        self.side().as_facing_cell_pos(cell_pos)
    }

    /// As `as_facing_cell_pos`, on signed coordinates.
    pub fn as_facing_cell_pos_i32(&self, cell_pos: (i32, i32)) -> (neighbour: (i32, i32))
        requires
            i32::MIN <= cell_pos.0 + self.spec_side().dx() <= i32::MAX,
            i32::MIN <= cell_pos.1 + self.spec_side().dy() <= i32::MAX,
        ensures
            neighbour.0 == cell_pos.0 + self.spec_side().dx(),
            neighbour.1 == cell_pos.1 + self.spec_side().dy(),
    {
        match self {
            NodeObjectSide::Left(_) => (cell_pos.0 - 1, cell_pos.1),
            NodeObjectSide::Right(_) => (cell_pos.0 + 1, cell_pos.1),
            NodeObjectSide::Top(_) => (cell_pos.0, cell_pos.1 - 1),
            NodeObjectSide::Bottom(_) => (cell_pos.0, cell_pos.1 + 1),
        }
    }

    /// The same slot on the side a quarter turn clockwise.
    pub fn next_side_clockwise(self) -> (turned: Self)
        ensures
            turned == Self::on(self.spec_side().spec_clockwise(), self.spec_value()),
    {
        match self {
            NodeObjectSide::Left(i) => NodeObjectSide::Top(i),
            NodeObjectSide::Right(i) => NodeObjectSide::Bottom(i),
            NodeObjectSide::Top(i) => NodeObjectSide::Right(i),
            NodeObjectSide::Bottom(i) => NodeObjectSide::Left(i),
        }
    }

    /// The same slot on the opposite side.
    pub fn opposite_side(self) -> (other: Self)
        ensures
            other == Self::on(self.spec_side().spec_opposite(), self.spec_value()),
    {
        match self {
            NodeObjectSide::Left(i) => NodeObjectSide::Right(i),
            NodeObjectSide::Right(i) => NodeObjectSide::Left(i),
            NodeObjectSide::Top(i) => NodeObjectSide::Bottom(i),
            NodeObjectSide::Bottom(i) => NodeObjectSide::Top(i),
        }
    }

    #[verifier::when_used_as_spec(spec_side)]
    pub fn side(&self) -> (side: Side)
        ensures
            side == self.spec_side(),
    {
        match self {
            NodeObjectSide::Left(_) => Side::Left,
            NodeObjectSide::Top(_) => Side::Top,
            NodeObjectSide::Right(_) => Side::Right,
            NodeObjectSide::Bottom(_) => Side::Bottom,
        }
    }

    pub fn is_top(self) -> (yes: bool)
        ensures
            yes == (self.spec_side() == Side::Top),
    {
        self.side() == Side::Top
    }

    pub fn is_bottom(self) -> (yes: bool)
        ensures
            yes == (self.spec_side() == Side::Bottom),
    {
        self.side() == Side::Bottom
    }

    pub fn is_left(self) -> (yes: bool)
        ensures
            yes == (self.spec_side() == Side::Left),
    {
        self.side() == Side::Left
    }

    pub fn is_right(self) -> (yes: bool)
        ensures
            yes == (self.spec_side() == Side::Right),
    {
        self.side() == Side::Right
    }

    #[verifier::when_used_as_spec(spec_value)]
    pub fn value(self) -> (slot: usize)
        ensures
            slot == self.spec_value(),
    {
        match self {
            NodeObjectSide::Left(i) => i,
            NodeObjectSide::Right(i) => i,
            NodeObjectSide::Top(i) => i,
            NodeObjectSide::Bottom(i) => i,
        }
    }

    /// The slot before this one on the same side; the first slot is its own
    /// predecessor.
    pub fn previous(self) -> (slot: Self)
        ensures
            slot == Self::on(
                self.spec_side(),
                if self.spec_value() == 0 {
                    0
                } else {
                    (self.spec_value() - 1) as usize
                },
            ),
    {
        let value = self.value();
        if value == 0 {
            self
        } else {
            self.at(value - 1)
        }
    }

    /// The slot after this one on the same side.
    pub fn next(self) -> (slot: Self)
        requires
            self.spec_value() < usize::MAX,
        ensures
            slot == Self::on(self.spec_side(), (self.spec_value() + 1) as usize),
    {
        self.at(self.value() + 1)
    }

    /// The slot `pos` on the same side.
    pub fn at(self, pos: usize) -> (slot: Self)
        ensures
            slot == Self::on(self.spec_side(), pos),
    {
        match self {
            NodeObjectSide::Left(_) => NodeObjectSide::Left(pos),
            NodeObjectSide::Top(_) => NodeObjectSide::Top(pos),
            NodeObjectSide::Right(_) => NodeObjectSide::Right(pos),
            NodeObjectSide::Bottom(_) => NodeObjectSide::Bottom(pos),
        }
    }

    /// The side with the given ordinal (0 left, 1 top, 2 right, 3 bottom).
    pub open spec fn side_of_ordinal(ordinal: usize) -> Side {
        if ordinal == 0 {
            Side::Left
        } else if ordinal == 1 {
            Side::Top
        } else if ordinal == 2 {
            Side::Right
        } else {
            Side::Bottom
        }
    }

    /// The ordinal of this slot's side and the slot.
    pub fn into_pair(self) -> (pair: (usize, usize))
        ensures
            pair.0 <= 3,
            Self::side_of_ordinal(pair.0) == self.spec_side(),
            pair.1 == self.spec_value(),
    {
        match self {
            NodeObjectSide::Left(i) => (0, i),
            NodeObjectSide::Top(i) => (1, i),
            NodeObjectSide::Right(i) => (2, i),
            NodeObjectSide::Bottom(i) => (3, i),
        }
    }

    /// The slot `i.1` on the side with the ordinal `i.0`.
    pub fn from(i: (usize, usize)) -> (slot: Self)
        requires
            i.0 <= 3,
        ensures
            slot == Self::on(Self::side_of_ordinal(i.0), i.1),
    {
        if i.0 == 0 {
            NodeObjectSide::Left(i.1)
        } else if i.0 == 1 {
            NodeObjectSide::Top(i.1)
        } else if i.0 == 2 {
            NodeObjectSide::Right(i.1)
        } else {
            NodeObjectSide::Bottom(i.1)
        }
    }
}

/// Width and height of an object's body, in cells.
#[derive(Debug, Clone, Copy, PartialEq, Eq, Structural)]
pub struct Dimensions(pub DimSizeType, pub DimSizeType);

impl Dimensions {
    /// Neither length is zero.
    pub open spec fn valid(self) -> bool {
        self.0 >= 1 && self.1 >= 1
    }

    pub open spec fn spec_from_side(&self, side: Side) -> DimSizeType {
        match side {
            Side::Top | Side::Bottom => self.0,
            Side::Left | Side::Right => self.1,
        }
    }

    /// The dimensions nearest to the given ones of which neither is zero.
    pub fn checked(width: DimSizeType, height: DimSizeType) -> (dim: Self)
        ensures
            dim.valid(),
            dim.0 == if width == 0 {
                1
            } else {
                width
            },
            dim.1 == if height == 0 {
                1
            } else {
                height
            },
    {
        Dimensions(
            if width < 1 {
                1
            } else {
                width
            },
            if height < 1 {
                1
            } else {
                height
            },
        )
    }

    /// The number of slots along `side`.
    #[verifier::when_used_as_spec(spec_from_side)]
    pub fn from_side(&self, side: Side) -> (length: DimSizeType)
        ensures
            length == self.spec_from_side(side),
    {
        match side {
            Side::Top | Side::Bottom => self.0,
            Side::Left | Side::Right => self.1,
        }
    }

    /// Exchanges width and height.
    pub fn rotate(&mut self)
        ensures
            final(self).0 == old(self).1,
            final(self).1 == old(self).0,
    {
        let width = self.0;
        self.0 = self.1;
        self.1 = width;
    }

    pub fn inc_width(&mut self)
        requires
            old(self).0 < usize::MAX,
        ensures
            final(self).0 == old(self).0 + 1,
            final(self).1 == old(self).1,
    {
        let value = self.width();
        self.set_width(value + 1);
    }

    pub fn inc_height(&mut self)
        requires
            old(self).1 < usize::MAX,
        ensures
            final(self).0 == old(self).0,
            final(self).1 == old(self).1 + 1,
    {
        let value = self.height();
        self.set_height(value + 1);
    }

    /// Takes one off the width, unless that would leave less than one.
    pub fn dec_width(&mut self)
        ensures
            final(self).0 == if old(self).0 > 1 {
                (old(self).0 - 1) as usize
            } else {
                old(self).0
            },
            final(self).1 == old(self).1,
    {
        let value = self.width();
        if value > 1 {
            self.set_width(value - 1);
        }
    }

    /// Takes one off the height, unless that would leave less than one.
    pub fn dec_height(&mut self)
        ensures
            final(self).0 == old(self).0,
            final(self).1 == if old(self).1 > 1 {
                (old(self).1 - 1) as usize
            } else {
                old(self).1
            },
    {
        let value = self.height();
        if value > 1 {
            self.set_height(value - 1);
        }
    }

    pub fn width(&self) -> (width: DimSizeType)
        ensures
            width == self.0,
    {
        self.0
    }

    pub fn height(&self) -> (height: DimSizeType)
        ensures
            height == self.1,
    {
        self.1
    }

    pub fn set_width(&mut self, value: DimSizeType)
        ensures
            final(self).0 == value,
            final(self).1 == old(self).1,
    {
        self.0 = value;
    }

    pub fn set_height(&mut self, value: DimSizeType)
        ensures
            final(self).0 == old(self).0,
            final(self).1 == value,
    {
        self.1 = value;
    }
}

pub struct Rectangle<I> {
    pub x: I,
    pub y: I,
    pub width: I,
    pub height: I,
}

impl<I> Rectangle<I> {
    pub fn new(x: I, y: I, width: I, height: I) -> (rect: Self)
        ensures
            rect.x == x,
            rect.y == y,
            rect.width == width,
            rect.height == height,
    {
        Self { x, y, width, height }
    }
}

impl<I: Copy> Rectangle<I> {
    pub fn pos(&self) -> (pos: (I, I))
        ensures
            pos == (self.x, self.y),
    {
        (self.x, self.y)
    }

    pub fn size(&self) -> (size: (I, I))
        ensures
            size == (self.width, self.height),
    {
        (self.width, self.height)
    }
}

impl<I: Copy + Default> Rectangle<I> {
    /// A rectangle of the same size whose corner is the default of `I`, zero
    /// for the number types.
    pub fn zero_xy(&self) -> (rect: Rectangle<I>)
        ensures
            call_ensures(I::default, (), rect.x),
            call_ensures(I::default, (), rect.y),
            rect.width == self.width,
            rect.height == self.height,
    {
        Rectangle::new(I::default(), I::default(), self.width, self.height)
    }
}

/// There is no cell to the left of column zero and none above row zero,
/// whatever is asked: the facing neighbour, the cells ahead, or an offset.
pub proof fn lemma_no_neighbour_beyond_the_edge(pos: CellPos, heading: Side)
    ensures
        pos.0 == 0 ==> Side::Left.facing(pos) is None,
        pos.1 == 0 ==> Side::Top.facing(pos) is None,
        forall|i: int|
            0 <= i < 3 && pos.0 == 0 && heading.ahead()[i] == Side::Left ==> (
            #[trigger] heading.surrounding(pos)[i]).0 is None,
        forall|i: int|
            0 <= i < 3 && pos.1 == 0 && heading.ahead()[i] == Side::Top ==> (
            #[trigger] heading.surrounding(pos)[i]).0 is None,
        forall|dx: int, dy: int|
            pos.0 + dx < 0 || pos.1 + dy < 0 ==> #[trigger] offset(pos, dx, dy) is None,
{
}

} // verus!
