//! The cells of the grid that hold something.

use crate::canvas::pixels::util::Pixel;
use crate::size::CellPos;
use std::collections::HashMap;
use vstd::prelude::*;
use vstd::std_specs::iter::IteratorSpec;

verus! {

broadcast use vstd::std_specs::hash::group_hash_axioms;

/// What the cells of the grid hold. A cell that holds nothing is absent.
///
/// The cells are kept in a hash map under one number for each cell, made
/// of its column and its row.
#[derive(Debug)]
pub struct Cells {
    map: HashMap<u128, Pixel>,
}

/// The number that a row is multiplied by before the column is added.
pub open spec fn spec_stride() -> u128 {
    0x1_0000_0000_0000_0000u128
}

/// The number under which the cell `pos` is kept.
pub open spec fn key_of(pos: CellPos) -> u128 {
    (pos.1 as u128 * spec_stride() + pos.0 as u128) as u128
}

/// No two cells are kept under the same number.
pub proof fn lemma_keys_differ(a: CellPos, b: CellPos)
    ensures
        key_of(a) == key_of(b) <==> a == b,
{
}

impl View for Cells {
    type V = Map<CellPos, Pixel>;

    closed spec fn view(&self) -> Map<CellPos, Pixel> {
        Map::new(
            |pos: CellPos| self.map@.contains_key(key_of(pos)),
            |pos: CellPos| self.map@[key_of(pos)],
        )
    }
}

impl Cells {
    /// Whether every number in the map is the number of a cell.
    pub closed spec fn wf(self) -> bool {
        forall|k: u128| #[trigger]
            self.map@.contains_key(k) ==> k / spec_stride() <= usize::MAX && k % spec_stride()
                <= usize::MAX
    }

    fn key(pos: CellPos) -> (k: u128)
        ensures
            k == key_of(pos),
            k / spec_stride() == pos.1,
            k % spec_stride() == pos.0,
    {
        pos.1 as u128 * 0x1_0000_0000_0000_0000u128 + pos.0 as u128
    }

    /// A grid on which no cell holds anything.
    pub fn new() -> (cells: Self)
        ensures
            cells.wf(),
            cells@ == Map::<CellPos, Pixel>::empty(),
    {
        let cells = Cells { map: HashMap::new() };
        cells
    }

    /// What the cell `pos` holds.
    pub fn get(&self, pos: CellPos) -> (pixel: Option<Pixel>)
        ensures
            pixel == if self@.contains_key(pos) {
                Some(self@[pos])
            } else {
                None
            },
    {
        match self.map.get(&Self::key(pos)) {
            Some(pixel) => Some(*pixel),
            None => None,
        }
    }

    /// Whether the cell `pos` holds anything.
    pub fn contains_key(&self, pos: CellPos) -> (held: bool)
        ensures
            held == self@.contains_key(pos),
    {
        self.map.contains_key(&Self::key(pos))
    }

    /// Puts `pixel` into the cell `pos`, in place of what it held.
    pub fn insert(&mut self, pos: CellPos, pixel: Pixel)
        requires
            old(self).wf(),
        ensures
            final(self).wf(),
            final(self)@ == old(self)@.insert(pos, pixel),
    {
        let k = Self::key(pos);
        self.map.insert(k, pixel);
        assert(final(self)@ =~= old(self)@.insert(pos, pixel)) by {
            assert forall|other: CellPos| other != pos implies key_of(other) != k by {
                lemma_keys_differ(other, pos);
            }
        }
    }

    /// Empties the cell `pos`.
    pub fn remove(&mut self, pos: CellPos)
        requires
            old(self).wf(),
        ensures
            final(self).wf(),
            final(self)@ == old(self)@.remove(pos),
    {
        let k = Self::key(pos);
        self.map.remove(&k);
        assert(final(self)@ =~= old(self)@.remove(pos)) by {
            assert forall|other: CellPos| other != pos implies key_of(other) != k by {
                lemma_keys_differ(other, pos);
            }
        }
    }

    /// The cells that hold something, each once, in no particular order.
    pub fn positions(&self) -> (cells: Vec<CellPos>)
        requires
            self.wf(),
        ensures
            cells@.no_duplicates(),
            forall|pos: CellPos| cells@.contains(pos) <==> self@.contains_key(pos),
    {
        let mut cells: Vec<CellPos> = Vec::new();
        let ghost all = vstd::std_specs::hash::spec_keys_iter(&self.map).remaining();
        for k in iter: self.map.keys()
            invariant
                self.wf(),
                iter.seq() == all,
                all.unref().to_set() == self.map@.dom(),
                cells@.len() == iter.index(),
                forall|i: int| 0 <= i < cells@.len() ==> key_of(#[trigger] cells@[i]) == *all[i],
        {
            assert(all.unref().to_set().contains(*k));
            let x = (*k % 0x1_0000_0000_0000_0000u128) as usize;
            let y = (*k / 0x1_0000_0000_0000_0000u128) as usize;
            cells.push((x, y));
        }
        proof {
            assert forall|pos: CellPos| cells@.contains(pos) <==> self@.contains_key(pos) by {
                if cells@.contains(pos) {
                    let i = choose|i: int| 0 <= i < cells@.len() && cells@[i] == pos;
                    assert(all.unref()[i] == key_of(pos));
                }
                if self@.contains_key(pos) {
                    let i = choose|i: int| 0 <= i < all.unref().len() && all.unref()[i] == key_of(pos);
                    lemma_keys_differ(cells@[i], pos);
                }
            }
        }
        cells
    }
}

} // verus!
