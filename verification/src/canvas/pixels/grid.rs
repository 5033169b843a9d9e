//! The grid as a value, what the operations on it come to, and what holds
//! of them.

use crate::canvas::pixels::joins::{
    calmed, lemma_with_all_frame, lemma_with_all_keeps_wires, lemma_wires_kept_chain,
    lemma_wires_kept_keep_palette, lemma_without_all_frame, lemma_without_all_keeps_wires,
    palette_position, wire_index_at, wires_in_palette, wires_kept, with_all, with_cell,
    without_all, CellMap,
};
use crate::canvas::pixels::util::{Pixel, PixelColor, PixelType};
use crate::ids::ObjectId;
use crate::object::NodeValue;
use crate::objects::{DefaultValue, Memory, ObjectView};
use crate::size::CellPos;
use vstd::prelude::*;

verus! {

/// Where among `objects` the first one with the identifier `id` stands,
/// looking from `from` on.
pub open spec fn first_with_id(objects: Seq<ObjectView>, id: ObjectId, from: int) -> Option<int>
    decreases objects.len() - from,
{
    if from < 0 || from >= objects.len() {
        None
    } else if objects[from].state.id == id {
        Some(from)
    } else {
        first_with_id(objects, id, from + 1)
    }
}

/// Where among `objects` the first one that covers `cell` stands, looking
/// from `from` on.
pub open spec fn first_covering(objects: Seq<ObjectView>, cell: CellPos, from: int) -> Option<int>
    decreases objects.len() - from,
{
    if from < 0 || from >= objects.len() {
        None
    } else if objects[from].state.contains_cell(cell) {
        Some(from)
    } else {
        first_covering(objects, cell, from + 1)
    }
}

/// A grid as a value.
pub struct GridView {
    pub palette: Seq<(PixelColor, PixelColor)>,
    pub cells: CellMap,
    pub objects: Seq<ObjectView>,
}

impl GridView {
    /// Whether the grid is sound: every piece of wire has a colour of the
    /// palette, and every object is sound.
    pub open spec fn valid(self) -> bool {
        &&& wires_in_palette(self.cells, self.palette.len() as int)
        &&& forall|i: int| 0 <= i < self.objects.len() ==> (#[trigger] self.objects[i]).valid()
    }

    /// The colour with which the wire in the cell `pos` is listed in the
    /// palette, if the cell holds wire.
    pub open spec fn wire_color(self, pos: CellPos) -> Option<PixelColor> {
        match wire_index_at(self.cells, pos) {
            Some(index) => Some(self.palette[index as int].0),
            None => None,
        }
    }

    /// What the wire in the cell `pos` carries, if the cell holds wire.
    pub open spec fn wire_value(self, pos: CellPos) -> Option<NodeValue> {
        if self.cells.contains_key(pos) {
            match self.cells[pos].type_of {
                PixelType::Wire { value, .. } => Some(value),
                _ => None,
            }
        } else {
            None
        }
    }

    /// Whether the cell `pos` holds wire.
    pub open spec fn is_wire(self, pos: CellPos) -> bool {
        self.cells.contains_key(pos) && self.cells[pos].type_of is Wire
    }

    /// Whether the cell `pos` holds a node.
    pub open spec fn is_node(self, pos: CellPos) -> bool {
        self.cells.contains_key(pos) && self.cells[pos].type_of is Node
    }

    /// The grid with the wire in the cell `pos` carrying `value`; as it is
    /// where the cell holds no wire.
    pub open spec fn with_wire_value(self, pos: CellPos, value: NodeValue) -> GridView {
        if self.cells.contains_key(pos) {
            match self.cells[pos].type_of {
                PixelType::Wire { index, .. } => GridView {
                    cells: self.cells.insert(
                        pos,
                        Pixel {
                            type_of: PixelType::Wire { index, value },
                            display: self.cells[pos].display,
                        },
                    ),
                    ..self
                },
                _ => self,
            }
        } else {
            self
        }
    }

    /// Where among the objects the first one with the identifier `id`
    /// stands, looking from `from` on.
    pub open spec fn index_by_id(self, id: ObjectId, from: int) -> Option<int> {
        first_with_id(self.objects, id, from)
    }

    /// Where among the objects the first one that covers `cell` stands,
    /// looking from `from` on.
    pub open spec fn index_at(self, cell: CellPos, from: int) -> Option<int> {
        first_covering(self.objects, cell, from)
    }

    /// Whether there is an object with the identifier `id`.
    pub open spec fn has_object(self, id: ObjectId) -> bool {
        self.index_by_id(id, 0) is Some
    }

    /// The first object with the identifier `id`.
    pub open spec fn object_by_id(self, id: ObjectId) -> ObjectView {
        self.objects[self.index_by_id(id, 0).unwrap()]
    }

    /// The grid with the footprint of `object` taken off the cells.
    pub open spec fn unstamped(self, object: ObjectView) -> GridView {
        GridView {
            cells: without_all(
                self.cells,
                object.footprint_cells(),
                object.footprint_cells().len() as int,
            ),
            ..self
        }
    }

    /// The grid with the footprint of `object` taken off the cells and
    /// put on again, cell by cell.
    pub open spec fn stamped(self, object: ObjectView) -> GridView {
        GridView {
            cells: with_all(
                self.unstamped(object).cells,
                object.footprint(),
                object.footprint().len() as int,
            ),
            ..self
        }
    }

    /// The grid with the footprints of the first `n` objects taken off and
    /// put on again, one object after the other. Of objects that share an
    /// identifier the first stands for each.
    pub open spec fn stamped_upto(self, n: int) -> GridView
        decreases n,
    {
        if n <= 0 {
            self
        } else {
            self.stamped_upto(n - 1).stamped(self.object_by_id(self.objects[n - 1].state.id))
        }
    }

    /// The grid with every footprint taken off and put on again.
    pub open spec fn restamped(self) -> GridView {
        self.stamped_upto(self.objects.len() as int)
    }

    /// The grid after a reset: no wire carries anything, every object is
    /// as its kind is after a reset, and every footprint is put on anew.
    pub open spec fn after_reset(self) -> GridView {
        GridView {
            palette: self.palette,
            cells: self.cells.map_values(|pixel: Pixel| calmed(pixel)),
            objects: self.objects.map_values(|object: ObjectView| object.after_reset()),
        }.restamped()
    }

    /// The first object found for an identifier has that identifier, and
    /// none before it has.
    pub proof fn lemma_index_by_id(self, id: ObjectId, from: int)
        requires
            0 <= from,
        ensures
            self.index_by_id(id, from) matches Some(i) ==> from <= i < self.objects.len()
                && self.objects[i].state.id == id,
            self.index_by_id(id, from) is None ==> forall|i: int|
                from <= i < self.objects.len() ==> (#[trigger] self.objects[i]).state.id != id,
        decreases self.objects.len() - from,
    {
        if from < self.objects.len() && self.objects[from].state.id != id {
            self.lemma_index_by_id(id, from + 1);
        }
    }

    /// The first object found at a cell covers that cell, and none before
    /// it does.
    pub proof fn lemma_index_at(self, cell: CellPos, from: int)
        requires
            0 <= from,
        ensures
            self.index_at(cell, from) matches Some(i) ==> from <= i < self.objects.len()
                && self.objects[i].state.contains_cell(cell),
            self.index_at(cell, from) is None ==> forall|i: int|
                from <= i < self.objects.len() ==> !(#[trigger] self.objects[i]).state.contains_cell(
                    cell,
                ),
        decreases self.objects.len() - from,
    {
        if from < self.objects.len() && !self.objects[from].state.contains_cell(cell) {
            self.lemma_index_at(cell, from + 1);
        }
    }

    /// Every object on the grid is found under its identifier.
    pub proof fn lemma_objects_are_found(self, i: int)
        requires
            0 <= i < self.objects.len(),
        ensures
            self.has_object(self.objects[i].state.id),
    {
        self.lemma_index_by_id(self.objects[i].state.id, 0);
    }

    /// Taking a footprint off and putting it on again leaves a sound grid
    /// sound, brings no wire and changes none.
    pub proof fn lemma_stamped_keeps(self, object: ObjectView)
        requires
            self.valid(),
            object.valid(),
        ensures
            self.stamped(object).valid(),
            wires_kept(self.cells, self.unstamped(object).cells),
            wires_kept(self.cells, self.stamped(object).cells),
    {
        let positions = object.footprint_cells();
        let entries = object.footprint();
        let off = self.unstamped(object).cells;
        lemma_without_all_keeps_wires(self.cells, positions, positions.len() as int);
        object.lemma_footprint_wireless();
        lemma_with_all_keeps_wires(off, entries, entries.len() as int);
        lemma_wires_kept_chain(self.cells, off, self.stamped(object).cells);
        lemma_wires_kept_keep_palette(
            self.cells,
            self.stamped(object).cells,
            self.palette.len() as int,
        );
    }

    /// The grid with wire of the colour `color` laid into the cell `pos`,
    /// carrying nothing. Nothing is laid into a cell that holds something
    /// other than wire, nor if the palette has no such colour.
    pub open spec fn wired(self, pos: CellPos, color: PixelColor) -> GridView {
        match palette_position(self.palette, color, 0) {
            Some(index) if !self.cells.contains_key(pos) || self.is_wire(pos) => GridView {
                cells: with_cell(
                    self.cells,
                    pos,
                    PixelType::Wire { index: index as usize, value: NodeValue::Gpio(false) },
                ),
                ..self
            },
            _ => self,
        }
    }

    /// The grid without the first object with the identifier `id`: its
    /// footprint off the cells, and the object out of the list.
    pub open spec fn deleted(self, id: ObjectId) -> GridView {
        GridView {
            objects: self.objects.remove(self.index_by_id(id, 0).unwrap()),
            ..self.unstamped(self.object_by_id(id))
        }
    }

    /// The grid with the first object with the identifier `id` at `pos`,
    /// its footprint not put on the cells.
    pub open spec fn with_object_at(self, id: ObjectId, pos: CellPos) -> GridView {
        let i = self.index_by_id(id, 0).unwrap();
        GridView { objects: self.objects.update(i, self.objects[i].moved(pos)), ..self }
    }

    /// The grid after the first object with the identifier `id` has tried
    /// to go to `pos`: it lies there if it then covers no cell that an
    /// object with another identifier covers, and else goes back to where
    /// it was. The cells stay as they are.
    pub open spec fn placed_at(self, id: ObjectId, pos: CellPos) -> GridView {
        let from = self.object_by_id(id).state.cell_pos;
        if pos == from {
            self
        } else if self.with_object_at(id, pos).free_of_others(id) {
            self.with_object_at(id, pos)
        } else {
            self.with_object_at(id, pos).with_object_at(id, from)
        }
    }

    /// Whether `after` has the objects of `self` in their places, each
    /// with the identifier it had, and the same palette.
    pub open spec fn same_cast(self, after: GridView) -> bool {
        &&& after.palette == self.palette
        &&& after.objects.len() == self.objects.len()
        &&& forall|i: int|
            0 <= i < self.objects.len() ==> (#[trigger] after.objects[i]).state.id
                == self.objects[i].state.id
    }

    /// Grids with the same objects in the same places find the same object
    /// for an identifier.
    pub proof fn lemma_same_cast_finds_same(self, after: GridView, id: ObjectId, from: int)
        requires
            self.same_cast(after),
            0 <= from,
        ensures
            first_with_id(self.objects, id, from) == first_with_id(after.objects, id, from),
        decreases self.objects.len() - from,
    {
        if from < self.objects.len() {
            if self.objects[from].state.id != id {
                self.lemma_same_cast_finds_same(after, id, from + 1);
            }
        }
    }

    /// Whether the object with the identifier `id` covers no cell that
    /// another object covers. An identifier that no object has is in
    /// nobody's way.
    pub open spec fn free_of_others(self, id: ObjectId) -> bool {
        match self.index_by_id(id, 0) {
            Some(moving) => forall|i: int|
                0 <= i < self.objects.len() && (#[trigger] self.objects[i]).state.id != id
                    ==> !self.objects[moving].overlaps(self.objects[i]),
            None => true,
        }
    }
}


/// What an object shows after a reset: a button and a probe show nothing,
/// a light is dark, a switch is as it was made.
pub open spec fn value_at_rest(object: ObjectView) -> NodeValue {
    match (object.memory, object.state.default) {
        (Memory::Switch(_), DefaultValue::Bool(saved)) => {
            NodeValue::Gpio(saved)
        },
        _ => NodeValue::Gpio(false),
    }
}

impl GridView {
    /// Putting the footprints on anew leaves a sound grid sound, with its
    /// objects and its palette, brings no wire and changes none.
    pub proof fn lemma_stamped_upto_keeps(self, n: int)
        requires
            self.valid(),
            0 <= n <= self.objects.len(),
        ensures
            self.stamped_upto(n).valid(),
            self.stamped_upto(n).objects == self.objects,
            self.stamped_upto(n).palette == self.palette,
            wires_kept(self.cells, self.stamped_upto(n).cells),
        decreases n,
    {
        if n > 0 {
            self.lemma_stamped_upto_keeps(n - 1);
            let before = self.stamped_upto(n - 1);
            let id = self.objects[n - 1].state.id;
            self.lemma_objects_are_found(n - 1);
            self.lemma_index_by_id(id, 0);
            let object = self.object_by_id(id);
            before.lemma_stamped_keeps(object);
            lemma_wires_kept_chain(self.cells, before.cells, before.stamped(object).cells);
        }
    }

    /// After a reset no wire carries anything, and every object shows
    /// what its kind shows at rest: a button nothing, a light that it is
    /// dark, a switch what it showed when it was made, a probe nothing.
    /// Each object is otherwise as it was.
    pub proof fn lemma_reset_puts_to_rest(self)
        requires
            self.valid(),
        ensures
            self.after_reset().valid(),
            self.after_reset().palette == self.palette,
            forall|pos: CellPos|
                self.after_reset().is_wire(pos) ==> #[trigger] self.after_reset().wire_value(pos)
                    == Some(NodeValue::Gpio(false)),
            self.after_reset().objects.len() == self.objects.len(),
            forall|i: int|
                0 <= i < self.objects.len() ==> #[trigger] self.after_reset().objects[i]
                    == self.objects[i].after_reset(),
            forall|i: int|
                0 <= i < self.objects.len() ==> (
                #[trigger] self.after_reset().objects[i]).current_value() == value_at_rest(
                    self.objects[i],
                ),
            forall|i: int|
                0 <= i < self.objects.len() ==> (#[trigger] self.after_reset().objects[i]).state
                    == self.objects[i].state,
    {
        let calm = GridView {
            palette: self.palette,
            cells: self.cells.map_values(|pixel: Pixel| calmed(pixel)),
            objects: self.objects.map_values(|object: ObjectView| object.after_reset()),
        };
        calm.lemma_stamped_upto_keeps(calm.objects.len() as int);
    }

    /// The cells are the record of what lies where. With the footprint of
    /// an object taken off, no cell that the object contains holds
    /// anything. With it put on, every cell that the object contains holds
    /// something, and no wire. Every other cell holds what it held, in
    /// kind, or nothing as before.
    pub proof fn lemma_footprint_on_the_cells(self, object: ObjectView, cell: CellPos)
        requires
            object.state.valid(),
        ensures
            object.state.contains_cell(cell) ==> !self.unstamped(object).cells.contains_key(cell),
            object.state.contains_cell(cell) ==> self.stamped(object).cells.contains_key(cell)
                && !(self.stamped(object).cells[cell].type_of is Wire),
            !object.state.contains_cell(cell) ==> {
                &&& self.unstamped(object).cells.contains_key(cell) == self.cells.contains_key(
                    cell,
                )
                &&& self.stamped(object).cells.contains_key(cell) == self.cells.contains_key(cell)
                &&& self.cells.contains_key(cell) ==> self.unstamped(object).cells[cell].type_of
                    == self.cells[cell].type_of && self.stamped(object).cells[cell].type_of
                    == self.cells[cell].type_of
            },
    {
        let positions = object.footprint_cells();
        let entries = object.footprint();
        let off = self.unstamped(object).cells;
        object.lemma_footprint_is_what_is_contained(cell);
        object.lemma_footprint_wireless();
        lemma_without_all_frame(self.cells, positions, positions.len() as int);
        lemma_with_all_frame(off, entries, entries.len() as int);
        if object.state.contains_cell(cell) {
            Self::lemma_last_at(entries, cell, entries.len() as int);
        } else {
            if exists|k: int| 0 <= k < entries.len() && (#[trigger] entries[k]).0 == cell {
                let k = choose|k: int| 0 <= k < entries.len() && (#[trigger] entries[k]).0 == cell;
                assert(positions[k] == cell);
            }
        }
    }

    /// The place of the last of the first `n` entries that lies at `cell`,
    /// or -1 if none does.
    pub open spec fn last_at(entries: Seq<(CellPos, PixelType)>, cell: CellPos, n: int) -> int
        decreases n,
    {
        if n <= 0 {
            -1
        } else if entries[n - 1].0 == cell {
            n - 1
        } else {
            Self::last_at(entries, cell, n - 1)
        }
    }

    /// Of the entries that lie at a cell the last is one of them, and none
    /// after it lies there.
    pub proof fn lemma_last_at(entries: Seq<(CellPos, PixelType)>, cell: CellPos, n: int)
        requires
            0 <= n <= entries.len(),
            exists|k: int| 0 <= k < n && (#[trigger] entries[k]).0 == cell,
        ensures
            0 <= Self::last_at(entries, cell, n) < n,
            entries[Self::last_at(entries, cell, n)].0 == cell,
            !(exists|later: int|
                Self::last_at(entries, cell, n) < later < n && (#[trigger] entries[later]).0
                    == entries[Self::last_at(entries, cell, n)].0),
        decreases n,
    {
        if entries[n - 1].0 != cell {
            Self::lemma_last_at(entries, cell, n - 1);
        }
    }

    /// An object that is asked to go where it would cover a cell of another
    /// object stays where it is. An object that is asked to go where it is
    /// in nobody's way lies there afterwards, each of its nodes at the cell
    /// of its slot. Either way nothing else on the grid changes: the other
    /// objects and the cells are as they were. And an object that stays,
    /// and had each of its nodes at the cell of its slot, is as it was
    /// altogether.
    pub proof fn lemma_move_validity(self, id: ObjectId, pos: CellPos)
        requires
            self.has_object(id),
        ensures
            self.placed_at(id, pos).has_object(id),
            self.placed_at(id, pos).index_by_id(id, 0) == self.index_by_id(id, 0),
            !self.with_object_at(id, pos).free_of_others(id) ==> self.placed_at(
                id,
                pos,
            ).object_by_id(id).state.cell_pos == self.object_by_id(id).state.cell_pos,
            !self.with_object_at(id, pos).free_of_others(id) && self.object_by_id(
                id,
            ).state.settled() ==> self.placed_at(id, pos) == self,
            self.with_object_at(id, pos).free_of_others(id) && pos != self.object_by_id(
                id,
            ).state.cell_pos ==> {
                let after = self.placed_at(id, pos);
                &&& after.object_by_id(id) == self.object_by_id(id).moved(pos)
                &&& after.object_by_id(id).state.cell_pos == pos
                &&& after.object_by_id(id).state.settled()
            },
            self.placed_at(id, pos).cells == self.cells,
            self.placed_at(id, pos).palette == self.palette,
            self.placed_at(id, pos).objects.len() == self.objects.len(),
            forall|k: int|
                0 <= k < self.objects.len() && k != self.index_by_id(id, 0).unwrap()
                    ==> #[trigger] self.placed_at(id, pos).objects[k] == self.objects[k],
    {
        self.lemma_index_by_id(id, 0);
        let i = self.index_by_id(id, 0).unwrap();
        let object = self.objects[i];
        let from = object.state.cell_pos;
        let there = self.with_object_at(id, pos);
        self.lemma_same_cast_finds_same(there, id, 0);
        let back = there.with_object_at(id, from);
        there.lemma_same_cast_finds_same(back, id, 0);
        let gone = object.moved(pos);
        if object.state.settled() {
            assert(gone.moved(from).state.nodes =~= object.state.nodes);
            assert(back.objects =~= self.objects);
        }
    }
}

} // verus!
