//! The grid: which cells hold what, which objects lie on it, and the
//! palette of wire colours.
//!
//! What the operations do is said over the grid's view: a map from cells to
//! what they hold, and the sequence of the objects as values.

pub mod cells;
pub mod grid;
pub mod joins;
pub mod map;
pub mod util;

use crate::canvas::pixels::cells::Cells;
use crate::canvas::pixels::grid::GridView;
use crate::canvas::pixels::joins::{
    around_updated, calmed, can_connect, connects, display_for, lemma_same_kinds_keep_palette,
    lemma_with_cell_frame, lemma_without_frame, neighbours, palette_position, touched_upto,
    wire_index_at, wires_in_palette, with_all, with_cell, without, without_all, CellMap,
};
use crate::canvas::pixels::util::{Pixel, PixelColor, PixelDisplay, PixelType};
use crate::editor::node::Node;
use crate::ids::ObjectId;
use crate::object::NodeValue;
use crate::objects::{Object, ObjectView};
use crate::size::{CellPos, Side};
use vstd::prelude::*;

verus! {

/// The grid: the palette of wire colours, what the cells hold, and the
/// objects that lie on it.
#[derive(Debug)]
pub struct PixelBackground {
    /// For each colour of wire, the colour of wire that carries nothing
    /// and the colour of wire that carries something.
    pub palette: Vec<(PixelColor, PixelColor)>,
    pub cells: Cells,
    pub objects: Vec<Object>,
}

impl View for PixelBackground {
    type V = GridView;

    open spec fn view(&self) -> GridView {
        GridView {
            palette: self.palette@,
            cells: self.cells@,
            objects: self.objects@.map_values(|object: Object| object@),
        }
    }
}

impl PixelBackground {
    /// Whether the grid is sound.
    pub open spec fn wf(&self) -> bool {
        self.cells.wf() && self@.valid()
    }

    /// The nine colours of wire that a new grid has, each as the pair of
    /// the colour that carries nothing and the one that carries something.
    pub open spec fn first_palette() -> Seq<(PixelColor, PixelColor)> {
        seq![
            (PixelColor(196, 196, 190), PixelColor(145, 145, 134)),
            (PixelColor(207, 175, 157), PixelColor(173, 119, 88)),
            (PixelColor(240, 183, 142), PixelColor(228, 123, 47)),
            (PixelColor(244, 216, 146), PixelColor(234, 181, 45)),
            (PixelColor(161, 208, 197), PixelColor(92, 173, 154)),
            (PixelColor(148, 193, 229), PixelColor(63, 143, 209)),
            (PixelColor(184, 156, 225), PixelColor(125, 76, 200)),
            (PixelColor(230, 147, 193), PixelColor(210, 62, 143)),
            (PixelColor(243, 143, 149), PixelColor(233, 46, 58)),
        ]
    }

    /// An empty grid with the nine colours of wire.
    pub fn new() -> (grid: Self)
        ensures
            grid.wf(),
            grid@.palette == Self::first_palette(),
            grid@.cells == CellMap::empty(),
            grid@.objects == Seq::<ObjectView>::empty(),
    {
        let mut palette: Vec<(PixelColor, PixelColor)> = Vec::new();
        palette.push((PixelColor(196, 196, 190), PixelColor(145, 145, 134)));
        palette.push((PixelColor(207, 175, 157), PixelColor(173, 119, 88)));
        palette.push((PixelColor(240, 183, 142), PixelColor(228, 123, 47)));
        palette.push((PixelColor(244, 216, 146), PixelColor(234, 181, 45)));
        palette.push((PixelColor(161, 208, 197), PixelColor(92, 173, 154)));
        palette.push((PixelColor(148, 193, 229), PixelColor(63, 143, 209)));
        palette.push((PixelColor(184, 156, 225), PixelColor(125, 76, 200)));
        palette.push((PixelColor(230, 147, 193), PixelColor(210, 62, 143)));
        palette.push((PixelColor(243, 143, 149), PixelColor(233, 46, 58)));
        let grid = PixelBackground { palette, cells: Cells::new(), objects: Vec::new() };
        grid
    }

    /// Whether the grid is sound: every piece of wire has a colour of the
    /// palette, and every object is sound.
    pub fn is_sound(&self) -> (yes: bool)
        requires
            self.cells.wf(),
        ensures
            yes == self@.valid(),
            yes == self.wf(),
    {
        let positions = self.cells.positions();
        let mut n: usize = 0;
        while n < positions.len()
            invariant
                n <= positions@.len(),
                forall|pos: CellPos| positions@.contains(pos) <==> self@.cells.contains_key(pos),
                forall|k: int|
                    0 <= k < n ==> match self@.cells[#[trigger] positions@[k]].type_of {
                        PixelType::Wire { index, .. } => index < self@.palette.len(),
                        _ => true,
                    },
            decreases positions@.len() - n,
        {
            let pos = positions[n];
            assert(positions@.contains(pos));
            match self.cells.get(pos) {
                Some(pixel) => match pixel.type_of {
                    PixelType::Wire { index, .. } => {
                        if index >= self.palette.len() {
                            return false;
                        }
                    },
                    _ => {},
                },
                None => {},
            }
            n += 1;
        }
        assert forall|pos: CellPos| #[trigger] self@.cells.contains_key(pos) implies match self@.cells[pos].type_of {
            PixelType::Wire { index, .. } => index < self@.palette.len(),
            _ => true,
        } by {
            assert(positions@.contains(pos));
        }
        let mut i: usize = 0;
        while i < self.objects.len()
            invariant
                i <= self.objects@.len(),
                wires_in_palette(self@.cells, self@.palette.len() as int),
                forall|k: int| 0 <= k < i ==> (#[trigger] self@.objects[k]).valid(),
            decreases self.objects@.len() - i,
        {
            assert(self@.objects[i as int] == self.objects@[i as int]@);
            if !self.objects[i].is_valid() {
                return false;
            }
            i += 1;
        }
        true
    }

    /// The neighbours of a cell that exist, each with the side on which it
    /// lies: below, to the right, to the left, above.
    pub fn get_surrounding_cells(pos: CellPos) -> (around: Vec<(CellPos, Side)>)
        ensures
            around@ == neighbours(pos),
    {
        let mut surroundings: Vec<(CellPos, Side)> = Vec::new();
        match Side::Bottom.as_facing_cell_pos(pos) {
            Some(cell) => surroundings.push((cell, Side::Bottom)),
            None => {},
        }
        match Side::Right.as_facing_cell_pos(pos) {
            Some(cell) => surroundings.push((cell, Side::Right)),
            None => {},
        }
        match Side::Left.as_facing_cell_pos(pos) {
            Some(cell) => surroundings.push((cell, Side::Left)),
            None => {},
        }
        match Side::Top.as_facing_cell_pos(pos) {
            Some(cell) => surroundings.push((cell, Side::Top)),
            None => {},
        }
        surroundings
    }

    /// What the cell holds.
    pub fn get_pixel_type_from_cell(&self, cell: &CellPos) -> (pixel: Option<Pixel>)
        ensures
            pixel == if self@.cells.contains_key(*cell) {
                Some(self@.cells[*cell])
            } else {
                None
            },
    {
        self.cells.get(*cell)
    }

    /// The colour with which the wire in the cell is listed in the
    /// palette, if the cell holds wire.
    pub fn get_wire_color(&self, cell: CellPos) -> (color: Option<PixelColor>)
        requires
            self.wf(),
        ensures
            color == self@.wire_color(cell),
    {
        match self.cells.get(cell) {
            Some(pixel) => match pixel.type_of {
                PixelType::Wire { index, .. } => Some(self.palette[index].0),
                _ => None,
            },
            None => None,
        }
    }

    /// The place in the palette of the wire in the cell, if the cell holds
    /// wire. Wire with the same place is of one net.
    pub fn get_wire_index(&self, cell: CellPos) -> (index: Option<usize>)
        ensures
            index == wire_index_at(self@.cells, cell),
    {
        match self.cells.get(cell) {
            Some(pixel) => pixel.type_of.get_wire_palette_index(),
            None => None,
        }
    }

    /// What the wire in the cell carries, if the cell holds wire.
    pub fn get_wire_value(&self, cell: CellPos) -> (value: Option<NodeValue>)
        ensures
            value == self@.wire_value(cell),
    {
        match self.cells.get(cell) {
            Some(pixel) => match pixel.type_of {
                PixelType::Wire { value, .. } => Some(value),
                _ => None,
            },
            None => None,
        }
    }

    /// Makes the wire in the cell carry `value`. A cell that holds no wire
    /// stays as it is.
    pub fn set_wire_value(&mut self, cell: CellPos, value: NodeValue)
        requires
            old(self).wf(),
        ensures
            final(self).wf(),
            final(self)@ == old(self)@.with_wire_value(cell, value),
    {
        match self.cells.get(cell) {
            Some(pixel) => match pixel.type_of {
                PixelType::Wire { index, .. } => {
                    self.cells.insert(
                        cell,
                        Pixel { type_of: PixelType::Wire { index, value }, display: pixel.display },
                    );
                    assert(self@.objects == old(self)@.objects);
                },
                _ => {},
            },
            None => {},
        }
    }

    /// Where in the palette `color` stands first as the colour of wire
    /// that carries nothing.
    pub fn palette_index_of(&self, color: PixelColor) -> (found: Option<usize>)
        ensures
            match found {
                Some(index) => palette_position(self@.palette, color, 0) == Some(index as int)
                    && index < self@.palette.len(),
                None => palette_position(self@.palette, color, 0) is None,
            },
    {
        let mut index: usize = 0;
        while index < self.palette.len()
            invariant
                index <= self.palette@.len(),
                palette_position(self.palette@, color, 0) == palette_position(
                    self.palette@,
                    color,
                    index as int,
                ),
            decreases self.palette@.len() - index,
        {
            let listed = self.palette[index].0;
            if listed.0 == color.0 && listed.1 == color.1 && listed.2 == color.2 {
                return Some(index);
            }
            index += 1;
        }
        None
    }

    /// Lays wire of the colour `pixel` into the cell, carrying nothing. A
    /// cell that holds something other than wire stays as it is, and so
    /// does the grid if the palette has no such colour.
    pub fn set_wire(&mut self, cell: CellPos, pixel: PixelColor)
        requires
            old(self).wf(),
        ensures
            final(self).wf(),
            final(self)@ == old(self)@.wired(cell, pixel),
    {
        match self.cells.get(cell) {
            Some(held) => {
                if !held.type_of.is_wire() {
                    return ;
                }
            },
            None => {},
        }
        match self.palette_index_of(pixel) {
            Some(index) => {
                self.insert_cell(cell, PixelType::Wire { index, value: NodeValue::Gpio(false) });
            },
            None => {},
        }
    }

    /// Whether the cell holds wire of the colour `palette_index`; `None`
    /// where it holds no wire.
    pub fn is_wire_same_palette_index(&self, cell: CellPos, palette_index: usize) -> (same: Option<
        bool,
    >)
        ensures
            same == match wire_index_at(self@.cells, cell) {
                Some(index) => Some(index == palette_index),
                None => None,
            },
    {
        match self.cells.get(cell) {
            Some(pixel) => match pixel.type_of {
                PixelType::Wire { index, .. } => Some(palette_index == index),
                _ => None,
            },
            None => None,
        }
    }

    /// On which sides a cell at `pos` that holds `current_pixel_type` is
    /// drawn as joined: top, bottom, left, right.
    pub fn find_connectable_sides(&self, current_pixel_type: &PixelType, pos: CellPos) -> (sides: (
        bool,
        bool,
        bool,
        bool,
    ))
        ensures
            sides.0 == connects(self@.cells, *current_pixel_type, pos, Side::Top),
            sides.1 == connects(self@.cells, *current_pixel_type, pos, Side::Bottom),
            sides.2 == connects(self@.cells, *current_pixel_type, pos, Side::Left),
            sides.3 == connects(self@.cells, *current_pixel_type, pos, Side::Right),
    {
        let top = match Side::Top.as_facing_cell_pos(pos) {
            Some(to) => self.can_connect_to_cell(current_pixel_type, to),
            None => false,
        };
        let bottom = match Side::Bottom.as_facing_cell_pos(pos) {
            Some(to) => self.can_connect_to_cell(current_pixel_type, to),
            None => false,
        };
        let left = match Side::Left.as_facing_cell_pos(pos) {
            Some(to) => self.can_connect_to_cell(current_pixel_type, to),
            None => false,
        };
        let right = match Side::Right.as_facing_cell_pos(pos) {
            Some(to) => self.can_connect_to_cell(current_pixel_type, to),
            None => false,
        };
        (top, bottom, left, right)
    }

    /// Whether a cell that holds `current_pixel_type` is drawn as joined
    /// with the cell `cell_pos`.
    pub fn can_connect_to_cell(&self, current_pixel_type: &PixelType, cell_pos: CellPos) -> (yes:
        bool)
        ensures
            yes == can_connect(self@.cells, *current_pixel_type, cell_pos),
    {
        match current_pixel_type {
            PixelType::Wire { index, .. } => {
                self.is_cell_node(cell_pos) || match self.is_wire_same_palette_index(
                    cell_pos,
                    *index,
                ) {
                    Some(same) => same,
                    None => false,
                }
            },
            PixelType::Node { .. } => self.cells.contains_key(cell_pos),
            _ => false,
        }
    }

    /// Empties the cell and lets its neighbours drop their joins with it.
    pub fn delete_cell(&mut self, cell_pos: CellPos)
        requires
            old(self).wf(),
        ensures
            final(self).wf(),
            final(self)@ == (GridView {
                cells: without(old(self)@.cells, cell_pos),
                ..old(self)@
            }),
    {
        self.cells.remove(cell_pos);
        self.update_surrounding_cells(cell_pos, false);
        proof {
            let emptied = old(self)@.cells.remove(cell_pos);
            lemma_without_frame(old(self)@.cells, cell_pos);
            assert(wires_in_palette(emptied, self@.palette.len() as int));
            lemma_same_kinds_keep_palette(emptied, self@.cells, self@.palette.len() as int);
        }
    }

    /// Puts `pixel_type` into the cell: takes out what the cell held,
    /// works out the joins of the cell, puts it in, and lets the
    /// neighbours join it.
    pub fn insert_cell(&mut self, pos: CellPos, pixel_type: PixelType)
        requires
            old(self).wf(),
            pixel_type matches PixelType::Wire { index, .. } ==> index < old(self)@.palette.len(),
        ensures
            final(self).wf(),
            final(self)@ == (GridView {
                cells: with_cell(old(self)@.cells, pos, pixel_type),
                ..old(self)@
            }),
    {
        if self.cells.contains_key(pos) {
            self.delete_cell(pos);
        }
        let sides = self.find_connectable_sides(&pixel_type, pos);
        let display = match pixel_type {
            PixelType::Wire { .. } => PixelDisplay::new_from_sides(
                sides.0,
                sides.1,
                sides.2,
                sides.3,
            ),
            PixelType::Node { side, .. } => match side {
                Side::Top => PixelDisplay::new_from_sides(sides.0, true, sides.2, sides.3),
                Side::Bottom => PixelDisplay::new_from_sides(true, sides.1, sides.2, sides.3),
                Side::Left => PixelDisplay::new_from_sides(sides.0, sides.1, sides.2, true),
                Side::Right => PixelDisplay::new_from_sides(sides.0, sides.1, true, sides.3),
            },
            _ => {
                self.cells.insert(
                    pos,
                    Pixel {
                        type_of: pixel_type,
                        display: PixelDisplay::new_from_sides(false, false, false, false),
                    },
                );
                proof {
                    Self::lemma_insert_keeps_palette(
                        old(self)@.cells,
                        pos,
                        pixel_type,
                        self@.palette.len() as int,
                    );
                }
                return ;
            },
        };
        self.cells.insert(pos, Pixel { type_of: pixel_type, display });
        self.update_surrounding_cells(pos, true);
        proof {
            Self::lemma_insert_keeps_palette(
                old(self)@.cells,
                pos,
                pixel_type,
                self@.palette.len() as int,
            );
        }
    }

    /// Putting something into a cell leaves the wire with colours of the
    /// palette, if the thing is no wire or wire of such a colour.
    pub proof fn lemma_insert_keeps_palette(
        cells: CellMap,
        pos: CellPos,
        kind: PixelType,
        colors: int,
    )
        requires
            wires_in_palette(cells, colors),
            kind matches PixelType::Wire { index, .. } ==> index < colors,
        ensures
            wires_in_palette(with_cell(cells, pos, kind), colors),
    {
        lemma_with_cell_frame(cells, pos, kind);
    }

    pub fn is_cell_node(&self, cell_pos: CellPos) -> (yes: bool)
        ensures
            yes == self@.is_node(cell_pos),
    {
        match self.cells.get(cell_pos) {
            Some(pixel) => pixel.type_of.is_node(),
            None => false,
        }
    }

    pub fn is_cell_wire(&self, cell_pos: CellPos) -> (yes: bool)
        ensures
            yes == self@.is_wire(cell_pos),
    {
        match self.cells.get(cell_pos) {
            Some(pixel) => pixel.type_of.is_wire(),
            None => false,
        }
    }

    /// Lets the neighbours of the cell set their flags towards it to
    /// `value`: the nodes among them, and the wire that is of the colour
    /// of the cell or next to a cell that holds no wire.
    pub fn update_surrounding_cells(&mut self, cell_pos: CellPos, value: bool)
        requires
            old(self).cells.wf(),
        ensures
            final(self).cells.wf(),
            final(self)@ == (GridView {
                cells: around_updated(old(self)@.cells, cell_pos, value),
                ..old(self)@
            }),
    {
        let palette_index = match self.cells.get(cell_pos) {
            Some(pixel) => pixel.type_of.get_wire_palette_index(),
            None => None,
        };
        let around = Self::get_surrounding_cells(cell_pos);
        let mut n: usize = 0;
        while n < around.len()
            invariant
                n <= around@.len(),
                around@ == neighbours(cell_pos),
                self.cells.wf(),
                self.palette == old(self).palette,
                self.objects == old(self).objects,
                palette_index == wire_index_at(old(self)@.cells, cell_pos),
                self.cells@ == touched_upto(
                    old(self)@.cells,
                    cell_pos,
                    value,
                    palette_index,
                    n as int,
                ),
            decreases around@.len() - n,
        {
            let (at, side) = around[n];
            match self.cells.get(at) {
                Some(held) => {
                    let mut pixel = held;
                    let follows = match pixel.type_of {
                        PixelType::Node { .. } => true,
                        PixelType::Wire { index, .. } => match palette_index {
                            None => true,
                            Some(own) => own == index,
                        },
                        _ => false,
                    };
                    if follows {
                        pixel.update_side(side.opposite(), value);
                        self.cells.insert(at, pixel);
                    }
                },
                None => {},
            }
            n += 1;
        }
    }

    /// Takes the footprint of every object off the cells and puts it on
    /// again, one object after the other.
    pub fn re_render_objects(&mut self)
        requires
            old(self).wf(),
        ensures
            final(self).wf(),
            final(self)@ == old(self)@.restamped(),
    {
        let count = self.objects.len();
        let mut n: usize = 0;
        while n < count
            invariant
                n <= count,
                count == old(self)@.objects.len(),
                self.wf(),
                self@ == old(self)@.stamped_upto(n as int),
                self@.objects == old(self)@.objects,
            decreases count - n,
        {
            let object_id = self.objects[n].get_id();
            proof {
                self@.lemma_objects_are_found(n as int);
            }
            self.insert_object_cells_by_id(object_id);
            n += 1;
        }
    }

    /// Takes the object with the identifier `object_id` off the grid: its
    /// footprint off the cells, and the object out of the list.
    pub fn delete_object(&mut self, object_id: ObjectId)
        requires
            old(self).wf(),
            old(self)@.has_object(object_id),
        ensures
            final(self).wf(),
            final(self)@ == old(self)@.deleted(object_id),
    {
        self.delete_object_cells(object_id);
        match self.object_index_by_id(object_id) {
            Some(index) => {
                self.objects.remove(index);
                assert(self@.objects =~= old(self)@.objects.remove(index as int));
            },
            None => {},
        }
    }

    /// Takes the footprint of the object with the identifier `object_id`
    /// off the cells, cell by cell.
    pub fn delete_object_cells(&mut self, object_id: ObjectId)
        requires
            old(self).wf(),
            old(self)@.has_object(object_id),
        ensures
            final(self).wf(),
            final(self)@ == old(self)@.unstamped(old(self)@.object_by_id(object_id)),
    {
        let index = match self.object_index_by_id(object_id) {
            Some(index) => index,
            None => {
                return ;
            },
        };
        let ghost object = self@.objects[index as int];
        let positions = {
            let object = &self.objects[index];
            object.pixel_map().pixel_positions(object.get_cell_pos())
        };
        let mut n: usize = 0;
        while n < positions.len()
            invariant
                n <= positions@.len(),
                self.wf(),
                self@ == (GridView {
                    cells: without_all(old(self)@.cells, positions@, n as int),
                    ..old(self)@
                }),
            decreases positions@.len() - n,
        {
            self.delete_cell(positions[n]);
            n += 1;
        }
    }

    /// Takes the footprint of the object with the identifier `object_id`
    /// off the cells and puts it on again, cell by cell.
    pub fn insert_object_cells_by_id(&mut self, object_id: ObjectId)
        requires
            old(self).wf(),
            old(self)@.has_object(object_id),
        ensures
            final(self).wf(),
            final(self)@ == old(self)@.stamped(old(self)@.object_by_id(object_id)),
    {
        self.delete_object_cells(object_id);
        let index = match self.object_index_by_id(object_id) {
            Some(index) => index,
            None => {
                return ;
            },
        };
        let ghost object = self@.objects[index as int];
        let ghost off = self@.cells;
        let entries = {
            let object = &self.objects[index];
            object.pixel_map().pixel_positions_with_types(object.get_cell_pos())
        };
        proof {
            object.lemma_footprint_wireless();
        }
        let mut n: usize = 0;
        while n < entries.len()
            invariant
                n <= entries@.len(),
                self.wf(),
                forall|k: int| 0 <= k < entries@.len() ==> !((#[trigger] entries@[k]).1 is Wire),
                self@ == (GridView { cells: with_all(off, entries@, n as int), ..old(self)@ }),
            decreases entries@.len() - n,
        {
            let (cell, type_of) = entries[n];
            self.insert_cell(cell, type_of);
            n += 1;
        }
    }

    /// Puts an object on the list. Its footprint is not put on the cells.
    pub fn add_object(&mut self, object: Object)
        requires
            old(self).wf(),
            object@.valid(),
        ensures
            final(self).wf(),
            final(self)@ == (GridView {
                objects: old(self)@.objects.push(object@),
                ..old(self)@
            }),
    {
        self.objects.push(object);
        assert(self@.objects =~= old(self)@.objects.push(object@));
    }

    /// The node that the first object that covers `cell` records as lying
    /// there.
    pub fn get_node_in_cell(&self, cell: CellPos) -> (node: Option<Node>)
        ensures
            node == match self@.index_at(cell, 0) {
                Some(i) => self@.objects[i].state.node_at(cell),
                None => None,
            },
    {
        match self.get_object_in_cell(cell) {
            Some(object) => object.get_node_from_cell_pos(&cell),
            None => None,
        }
    }

    /// Where among the objects the first one that covers `cell` stands.
    pub fn object_index_in_cell(&self, cell: CellPos) -> (found: Option<usize>)
        ensures
            match found {
                Some(i) => self@.index_at(cell, 0) == Some(i as int) && i < self.objects@.len(),
                None => self@.index_at(cell, 0) is None,
            },
    {
        let mut i: usize = 0;
        while i < self.objects.len()
            invariant
                i <= self.objects@.len(),
                self@.index_at(cell, 0) == self@.index_at(cell, i as int),
            decreases self.objects@.len() - i,
        {
            if self.objects[i].is_cell_inside(cell) {
                return Some(i);
            }
            i += 1;
        }
        None
    }

    /// The first object that covers `cell`.
    pub fn get_object_in_cell(&self, cell: CellPos) -> (object: Option<&Object>)
        ensures
            match object {
                Some(found) => self@.index_at(cell, 0) matches Some(i) && self@.objects[i] == found@,
                None => self@.index_at(cell, 0) is None,
            },
    {
        match self.object_index_in_cell(cell) {
            Some(i) => {
                Some(&self.objects[i])
            },
            None => None,
        }
    }

    /// The first object that covers `cell`, to be changed. Whoever changes
    /// it answers for the grid being sound afterwards.
    pub fn get_object_in_cell_mut(&mut self, cell: CellPos) -> (object: Option<&mut Object>)
        ensures
            match object {
                Some(found) => old(self)@.index_at(cell, 0) matches Some(i) && old(self).objects@[i] == *found
                    && final(self).objects@ == old(self).objects@.update(i, *final(found))
                    && final(self).cells == old(self).cells && final(self).palette == old(
                    self,
                ).palette,
                None => old(self)@.index_at(cell, 0) is None && *final(self) == *old(self),
            },
    {
        match self.object_index_in_cell(cell) {
            Some(i) => {
                Some(&mut self.objects[i])
            },
            None => None,
        }
    }

    /// The first object with the identifier `id`, to be changed. Whoever
    /// changes it answers for the grid being sound afterwards.
    pub fn get_object_by_id_mut(&mut self, id: ObjectId) -> (object: Option<&mut Object>)
        ensures
            match object {
                Some(found) => old(self)@.index_by_id(id, 0) matches Some(i) && old(self).objects@[i] == *found
                    && final(self).objects@ == old(self).objects@.update(i, *final(found))
                    && final(self).cells == old(self).cells && final(self).palette == old(
                    self,
                ).palette,
                None => old(self)@.index_by_id(id, 0) is None && *final(self) == *old(self),
            },
    {
        match self.object_index_by_id(id) {
            Some(i) => {
                Some(&mut self.objects[i])
            },
            None => None,
        }
    }

    /// Where among the objects the first one with the identifier `id`
    /// stands.
    pub fn object_index_by_id(&self, id: ObjectId) -> (found: Option<usize>)
        ensures
            match found {
                Some(i) => self@.index_by_id(id, 0) == Some(i as int) && i < self.objects@.len(),
                None => self@.index_by_id(id, 0) is None,
            },
    {
        let mut i: usize = 0;
        while i < self.objects.len()
            invariant
                i <= self.objects@.len(),
                self@.index_by_id(id, 0) == self@.index_by_id(id, i as int),
            decreases self.objects@.len() - i,
        {
            if self.objects[i].get_id() == id {
                return Some(i);
            }
            i += 1;
        }
        None
    }

    /// The first object with the identifier `id`.
    pub fn get_object_by_id(&self, id: ObjectId) -> (object: Option<&Object>)
        ensures
            match object {
                Some(found) => self@.has_object(id) && self@.object_by_id(id) == found@,
                None => !self@.has_object(id),
            },
    {
        match self.object_index_by_id(id) {
            Some(i) => {
                Some(&self.objects[i])
            },
            None => None,
        }
    }

    /// Whether the object with the identifier `id` covers no cell that an
    /// object with another identifier covers.
    pub fn is_valid_object_pos(&self, id: ObjectId) -> (free: bool)
        requires
            self.wf(),
        ensures
            free == self@.free_of_others(id),
    {
        let moving = match self.object_index_by_id(id) {
            Some(index) => index,
            None => {
                return true;
            },
        };
        let mut i: usize = 0;
        while i < self.objects.len()
            invariant
                i <= self.objects@.len(),
                moving < self.objects@.len(),
                self.wf(),
                self@.index_by_id(id, 0) == Some(moving as int),
                forall|k: int|
                    0 <= k < i && (#[trigger] self@.objects[k]).state.id != id
                        ==> !self@.objects[moving as int].overlaps(self@.objects[k]),
            decreases self.objects@.len() - i,
        {
            assert(self@.objects[i as int] == self.objects@[i as int]@);
            assert(self@.objects[moving as int] == self.objects@[moving as int]@);
            let other = &self.objects[i];
            if other.get_id() != id && self.objects[moving].is_overlapping(other) {
                return false;
            }
            i += 1;
        }
        true
    }

    /// Puts the grid back to rest: no wire carries anything, every object
    /// is reset, and every footprint is put on anew.
    pub fn reset_all(&mut self)
        requires
            old(self).wf(),
        ensures
            final(self).wf(),
            final(self)@ == old(self)@.after_reset(),
    {
        let positions = self.cells.positions();
        let mut n: usize = 0;
        while n < positions.len()
            invariant
                n <= positions@.len(),
                self.cells.wf(),
                self.palette == old(self).palette,
                self.objects == old(self).objects,
                positions@.no_duplicates(),
                forall|pos: CellPos| positions@.contains(pos) <==> old(self)@.cells.contains_key(pos),
                self@.cells.dom() == old(self)@.cells.dom(),
                forall|k: int|
                    0 <= k < n ==> self@.cells[#[trigger] positions@[k]] == calmed(
                        old(self)@.cells[positions@[k]],
                    ),
                forall|k: int|
                    n <= k < positions@.len() ==> self@.cells[#[trigger] positions@[k]] == old(
                        self,
                    )@.cells[positions@[k]],
            decreases positions@.len() - n,
        {
            let pos = positions[n];
            assert(positions@.contains(pos));
            match self.cells.get(pos) {
                Some(pixel) => match pixel.type_of {
                    PixelType::Wire { index, value } => {
                        let mut value = value;
                        value.unset();
                        self.cells.insert(
                            pos,
                            Pixel { type_of: PixelType::Wire { index, value }, display: pixel.display },
                        );
                    },
                    _ => {},
                },
                None => {},
            }
            n += 1;
        }
        proof {
            let calm = old(self)@.cells.map_values(|pixel: Pixel| calmed(pixel));
            assert(self@.cells =~= calm) by {
                assert forall|pos: CellPos| self@.cells.contains_key(pos) implies self@.cells[pos]
                    == calm[pos] by {
                    assert(positions@.contains(pos));
                }
            }
        }
        let ghost calm = self@;
        let mut i: usize = 0;
        while i < self.objects.len()
            invariant
                i <= self.objects@.len(),
                self.cells.wf(),
                self.cells@ == calm.cells,
                self.palette == old(self).palette,
                self@.objects.len() == old(self)@.objects.len(),
                wires_in_palette(self@.cells, self@.palette.len() as int),
                forall|k: int|
                    0 <= k < i ==> #[trigger] self@.objects[k] == old(self)@.objects[k].after_reset(),
                forall|k: int|
                    i <= k < self@.objects.len() ==> #[trigger] self@.objects[k] == old(
                        self,
                    )@.objects[k],
                forall|k: int| 0 <= k < self@.objects.len() ==> (#[trigger] self@.objects[k]).valid(),
                forall|k: int|
                    0 <= k < old(self)@.objects.len() ==> (#[trigger] old(self)@.objects[k]).valid(),
            decreases self.objects@.len() - i,
        {
            let ghost before = self.objects@;
            assert(self@.objects[i as int] == self.objects@[i as int]@);
            self.objects[i].reset_values();
            assert forall|k: int| 0 <= k < self@.objects.len() implies (
                #[trigger] self@.objects[k]) == if k == i {
                old(self)@.objects[k].after_reset()
            } else if k < i {
                old(self)@.objects[k].after_reset()
            } else {
                old(self)@.objects[k]
            } by {
                if k != i {
                    assert(before[k]@ == before.map_values(|object: Object| object@)[k]);
                }
            }
            i += 1;
        }
        assert(self@.objects =~= old(self)@.objects.map_values(
            |object: ObjectView| object.after_reset(),
        ));
        self.re_render_objects();
    }

    /// Moves the first object with the identifier `id` to `pos`, unless it
    /// would then cover a cell that an object with another identifier
    /// covers: then it goes back to where it was. Returns whether the
    /// object lies at `pos`. The cells stay as they are.
    pub fn move_object(&mut self, id: ObjectId, pos: CellPos) -> (moved: bool)
        requires
            old(self).wf(),
            old(self)@.has_object(id),
        ensures
            final(self).wf(),
            final(self)@ == old(self)@.placed_at(id, pos),
            moved == (final(self)@.object_by_id(id).state.cell_pos == pos),
            final(self)@.has_object(id),
            old(self)@.same_cast(final(self)@),
    {
        let index = match self.object_index_by_id(id) {
            Some(index) => index,
            None => {
                return false;
            },
        };
        let last_cell_pos = self.objects[index].get_cell_pos();
        if pos.0 == last_cell_pos.0 && pos.1 == last_cell_pos.1 {
            return true;
        }
        proof {
            old(self)@.lemma_index_by_id(id, 0);
        }
        self.set_object_pos(index, pos);
        proof {
            old(self)@.lemma_same_cast_finds_same(self@, id, 0);
        }
        if !self.is_valid_object_pos(id) {
            let ghost tried = self@;
            self.set_object_pos(index, last_cell_pos);
            proof {
                tried.lemma_same_cast_finds_same(self@, id, 0);
                old(self)@.lemma_same_cast_finds_same(self@, id, 0);
            }
            return false;
        }
        true
    }

    /// Moves the object in the place `index` of the list to `pos`.
    fn set_object_pos(&mut self, index: usize, pos: CellPos)
        requires
            old(self).wf(),
            index < old(self)@.objects.len(),
        ensures
            final(self).wf(),
            final(self)@ == (GridView {
                objects: old(self)@.objects.update(
                    index as int,
                    old(self)@.objects[index as int].moved(pos),
                ),
                ..old(self)@
            }),
            old(self)@.same_cast(final(self)@),
    {
        self.objects[index].set_cell_pos(pos);
        proof {
            let target = old(self)@.objects.update(
                index as int,
                old(self)@.objects[index as int].moved(pos),
            );
            assert(self@.objects =~= target);
            assert forall|k: int| 0 <= k < self@.objects.len() implies (
            #[trigger] self@.objects[k]).valid() by {}
        }
    }
}

} // verus!
