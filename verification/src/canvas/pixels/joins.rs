//! How the cells join: what a cell holds, with which neighbours it is drawn
//! as joined, and what putting something into a cell or emptying one does
//! to the cells around it.

use crate::canvas::pixels::util::{Pixel, PixelColor, PixelDisplay, PixelType};
use crate::object::NodeValue;
use crate::size::{CellPos, Side};
use vstd::prelude::*;

verus! {


/// What the cells of a grid hold, as a value.
pub type CellMap = Map<CellPos, Pixel>;

/// The neighbours of `pos` that exist, each with the side of `pos` on which
/// it lies: below, to the right, to the left, above.
pub open spec fn neighbours(pos: CellPos) -> Seq<(CellPos, Side)> {
    neighbour(pos, Side::Bottom) + neighbour(pos, Side::Right) + neighbour(pos, Side::Left)
        + neighbour(pos, Side::Top)
}

/// The neighbour of `pos` on `side`, as a sequence of one or none.
pub open spec fn neighbour(pos: CellPos, side: Side) -> Seq<(CellPos, Side)> {
    match side.facing(pos) {
        Some(cell) => seq![(cell, side)],
        None => Seq::empty(),
    }
}

/// Whether a cell that holds `kind` is drawn as joined with the cell `to`:
/// a wire with a node and with wire of its own colour, a node with
/// whatever there is.
pub open spec fn can_connect(cells: CellMap, kind: PixelType, to: CellPos) -> bool {
    match kind {
        PixelType::Wire { index, .. } => cells.contains_key(to) && (cells[to].type_of is Node
            || cells[to].type_of.wire_index() == Some(index)),
        PixelType::Node { .. } => cells.contains_key(to),
        _ => false,
    }
}

/// Whether a cell at `pos` that holds `kind` is drawn as joined on `side`.
pub open spec fn connects(cells: CellMap, kind: PixelType, pos: CellPos, side: Side) -> bool {
    match side.facing(pos) {
        Some(to) => can_connect(cells, kind, to),
        None => false,
    }
}

/// The flags with which a cell at `pos` that holds `kind` is put in. A
/// wire is joined where `connects` says. A node is joined in the same way,
/// and always towards the body of its object, which lies across from the
/// side the node is on. Other cells show no joins.
pub open spec fn display_for(cells: CellMap, kind: PixelType, pos: CellPos) -> PixelDisplay {
    let top = connects(cells, kind, pos, Side::Top);
    let bottom = connects(cells, kind, pos, Side::Bottom);
    let left = connects(cells, kind, pos, Side::Left);
    let right = connects(cells, kind, pos, Side::Right);
    match kind {
        PixelType::Wire { .. } => flags(top, bottom, left, right),
        PixelType::Node { side, .. } => flags(
            top || side == Side::Bottom,
            bottom || side == Side::Top,
            left || side == Side::Right,
            right || side == Side::Left,
        ),
        _ => PixelDisplay(0),
    }
}

/// The four flags as one value.
pub open spec fn flags(top: bool, bottom: bool, left: bool, right: bool) -> PixelDisplay {
    PixelDisplay(
        ((if top {
            8int
        } else {
            0
        }) + (if bottom {
            4int
        } else {
            0
        }) + (if left {
            2int
        } else {
            0
        }) + (if right {
            1int
        } else {
            0
        })) as u8,
    )
}

/// Whether a neighbour that holds `pixel` follows a cell that comes or
/// goes: a node always does, a wire if the cell is wire of its colour or no
/// wire at all (`index` is the colour of the cell, if it is wire).
pub open spec fn follows(pixel: Pixel, index: Option<usize>) -> bool {
    match pixel.type_of {
        PixelType::Node { .. } => true,
        PixelType::Wire { index: own, .. } => index is None || index == Some(own),
        _ => false,
    }
}

/// The cells after the neighbour `at`, which lies on `side` of a cell that
/// came or went, has set its flag towards that cell to `value`, if it
/// follows.
pub open spec fn touched(
    cells: CellMap,
    at: CellPos,
    side: Side,
    value: bool,
    index: Option<usize>,
) -> CellMap {
    if cells.contains_key(at) && follows(cells[at], index) {
        cells.insert(at, cells[at].with_side(side.spec_opposite(), value))
    } else {
        cells
    }
}

/// The cells after the first `n` neighbours of `pos` have been touched.
pub open spec fn touched_upto(
    cells: CellMap,
    pos: CellPos,
    value: bool,
    index: Option<usize>,
    n: int,
) -> CellMap
    decreases n,
{
    if n <= 0 {
        cells
    } else {
        let around = neighbours(pos);
        touched(
            touched_upto(cells, pos, value, index, n - 1),
            around[n - 1].0,
            around[n - 1].1,
            value,
            index,
        )
    }
}

/// The place in the palette of the wire in the cell `pos`, if it holds
/// wire. Wire with the same place is of one net.
pub open spec fn wire_index_at(cells: CellMap, pos: CellPos) -> Option<usize> {
    if cells.contains_key(pos) {
        cells[pos].type_of.wire_index()
    } else {
        None
    }
}

/// The cells after every neighbour of `pos` that follows has set its flag
/// towards `pos` to `value`.
pub open spec fn around_updated(cells: CellMap, pos: CellPos, value: bool) -> CellMap {
    touched_upto(cells, pos, value, wire_index_at(cells, pos), neighbours(pos).len() as int)
}

/// The cells after the cell `pos` has been emptied and its neighbours have
/// dropped their joins with it.
pub open spec fn without(cells: CellMap, pos: CellPos) -> CellMap {
    around_updated(cells.remove(pos), pos, false)
}

/// The cells after `kind` has been put into the cell `pos`: what the cell
/// held is taken out first; then the cell goes in with its flags, and if
/// it is wire or a node the neighbours that follow join it.
pub open spec fn with_cell(cells: CellMap, pos: CellPos, kind: PixelType) -> CellMap {
    let cleared = if cells.contains_key(pos) {
        without(cells, pos)
    } else {
        cells
    };
    let placed = cleared.insert(
        pos,
        Pixel { type_of: kind, display: display_for(cleared, kind, pos) },
    );
    if kind is Wire || kind is Node {
        around_updated(placed, pos, true)
    } else {
        placed
    }
}

/// The cells after the first `n` of `positions` have been emptied, one
/// after the other.
pub open spec fn without_all(cells: CellMap, positions: Seq<CellPos>, n: int) -> CellMap
    decreases n,
{
    if n <= 0 {
        cells
    } else {
        without(without_all(cells, positions, n - 1), positions[n - 1])
    }
}

/// The cells after the first `n` of `entries` have been put in, one after
/// the other.
pub open spec fn with_all(cells: CellMap, entries: Seq<(CellPos, PixelType)>, n: int) -> CellMap
    decreases n,
{
    if n <= 0 {
        cells
    } else {
        with_cell(with_all(cells, entries, n - 1), entries[n - 1].0, entries[n - 1].1)
    }
}

/// Where in `palette` the colour `color` stands first as the colour of
/// wire that carries nothing, looking from `from` on.
pub open spec fn palette_position(
    palette: Seq<(PixelColor, PixelColor)>,
    color: PixelColor,
    from: int,
) -> Option<int>
    decreases palette.len() - from,
{
    if from < 0 || from >= palette.len() {
        None
    } else if palette[from].0 == color {
        Some(from)
    } else {
        palette_position(palette, color, from + 1)
    }
}

/// The pixel with its wire, if it is wire, carrying nothing.
pub open spec fn calmed(pixel: Pixel) -> Pixel {
    match pixel.type_of {
        PixelType::Wire { index, .. } => Pixel {
            type_of: PixelType::Wire { index, value: NodeValue::Gpio(false) },
            display: pixel.display,
        },
        _ => pixel,
    }
}

/// Whether every piece of wire among `cells` has one of the first `colors`
/// colours.
pub open spec fn wires_in_palette(cells: CellMap, colors: int) -> bool {
    forall|pos: CellPos| #[trigger]
        cells.contains_key(pos) ==> match cells[pos].type_of {
            PixelType::Wire { index, .. } => index < colors,
            _ => true,
        }
}

/// Whether no wire has come or changed from `before` to `after`: every
/// cell that holds wire held the same wire before.
pub open spec fn wires_kept(before: CellMap, after: CellMap) -> bool {
    forall|pos: CellPos| #[trigger]
        after.contains_key(pos) && after[pos].type_of is Wire ==> before.contains_key(pos)
            && before[pos].type_of == after[pos].type_of
}

/// Whether `after` holds what `before` holds, cell by cell, but for the
/// flags: the same cells, and in each the same kind of thing.
pub open spec fn same_kinds(before: CellMap, after: CellMap) -> bool {
    &&& before.dom() == after.dom()
    &&& forall|pos: CellPos| #[trigger]
        before.contains_key(pos) ==> before[pos].type_of == after[pos].type_of
}

/// After cells have been emptied one after the other, just those hold
/// something that did and are not among the emptied, and what they hold is
/// of the kind it was.
pub proof fn lemma_without_all_frame(cells: CellMap, positions: Seq<CellPos>, n: int)
    requires
        0 <= n <= positions.len(),
    ensures
        forall|pos: CellPos| #[trigger]
            without_all(cells, positions, n).contains_key(pos) <==> cells.contains_key(pos) && !(
            exists|k: int| 0 <= k < n && #[trigger] positions[k] == pos),
        forall|pos: CellPos| #[trigger]
            without_all(cells, positions, n).contains_key(pos) ==> without_all(
                cells,
                positions,
                n,
            )[pos].type_of == cells[pos].type_of,
    decreases n,
{
    if n > 0 {
        lemma_without_all_frame(cells, positions, n - 1);
        let before = without_all(cells, positions, n - 1);
        lemma_without_frame(before, positions[n - 1]);
    }
}

/// After things have been put in one after the other, just those cells
/// hold something that did or are among those put into. A cell put into
/// holds what was put into it last; any other holds what it held, in kind.
pub proof fn lemma_with_all_frame(cells: CellMap, entries: Seq<(CellPos, PixelType)>, n: int)
    requires
        0 <= n <= entries.len(),
    ensures
        forall|pos: CellPos| #[trigger]
            with_all(cells, entries, n).contains_key(pos) <==> cells.contains_key(pos) || (
            exists|k: int| 0 <= k < n && (#[trigger] entries[k]).0 == pos),
        forall|k: int|
            0 <= k < n && !(exists|later: int|
                k < later < n && (#[trigger] entries[later]).0 == entries[k].0) ==> with_all(
                cells,
                entries,
                n,
            )[(#[trigger] entries[k]).0].type_of == entries[k].1,
        forall|pos: CellPos| #[trigger]
            cells.contains_key(pos) && !(exists|k: int|
                0 <= k < n && (#[trigger] entries[k]).0 == pos) ==> with_all(
                cells,
                entries,
                n,
            )[pos].type_of == cells[pos].type_of,
    decreases n,
{
    if n > 0 {
        lemma_with_all_frame(cells, entries, n - 1);
        let before = with_all(cells, entries, n - 1);
        let after = with_all(cells, entries, n);
        let last = entries[n - 1];
        lemma_with_cell_frame(before, last.0, last.1);
        assert forall|k: int|
            0 <= k < n && !(exists|later: int|
                k < later < n && (#[trigger] entries[later]).0 == entries[k].0) implies after[(
        #[trigger] entries[k]).0].type_of == entries[k].1 by {}
    }
}

/// Where nothing but flags differs, the wire has the colours it had.
pub proof fn lemma_same_kinds_keep_palette(before: CellMap, after: CellMap, colors: int)
    requires
        same_kinds(before, after),
        wires_in_palette(before, colors),
    ensures
        wires_in_palette(after, colors),
{
}

/// Touching a neighbour changes nothing but flags.
pub proof fn lemma_touched_keeps_kinds(
    cells: CellMap,
    at: CellPos,
    side: Side,
    value: bool,
    index: Option<usize>,
)
    ensures
        same_kinds(cells, touched(cells, at, side, value, index)),
{
    let after = touched(cells, at, side, value, index);
    assert(after.dom() =~= cells.dom());
}

/// Telling the neighbours of a cell changes nothing but flags, and none
/// but theirs.
pub proof fn lemma_around_updated_keeps_kinds(cells: CellMap, pos: CellPos, value: bool)
    ensures
        same_kinds(cells, around_updated(cells, pos, value)),
        forall|at: CellPos|
            cells.contains_key(at) && !(exists|side: Side| side.facing(pos) == Some(at))
                ==> #[trigger] around_updated(cells, pos, value)[at] == cells[at],
{
    let index = wire_index_at(cells, pos);
    let around = neighbours(pos);
    assert forall|n: int| 0 <= n <= around.len() implies ({
        let after = #[trigger] touched_upto(cells, pos, value, index, n);
        &&& same_kinds(cells, after)
        &&& forall|at: CellPos|
            cells.contains_key(at) && !(exists|side: Side| side.facing(pos) == Some(at))
                ==> #[trigger] after[at] == cells[at]
    }) by {
        lemma_touched_upto(cells, pos, value, index, n);
    }
}

proof fn lemma_touched_upto(cells: CellMap, pos: CellPos, value: bool, index: Option<usize>, n: int)
    requires
        0 <= n <= neighbours(pos).len(),
    ensures
        same_kinds(cells, touched_upto(cells, pos, value, index, n)),
        forall|at: CellPos|
            cells.contains_key(at) && !(exists|side: Side| side.facing(pos) == Some(at))
                ==> #[trigger] touched_upto(cells, pos, value, index, n)[at] == cells[at],
    decreases n,
{
    if n > 0 {
        lemma_touched_upto(cells, pos, value, index, n - 1);
        let before = touched_upto(cells, pos, value, index, n - 1);
        let around = neighbours(pos);
        lemma_touched_keeps_kinds(before, around[n - 1].0, around[n - 1].1, value, index);
        lemma_neighbours_face(pos, n - 1);
    }
}

/// Each neighbour of a cell lies on the side it is listed with.
pub proof fn lemma_neighbours_face(pos: CellPos, i: int)
    requires
        0 <= i < neighbours(pos).len(),
    ensures
        neighbours(pos)[i].1.facing(pos) == Some(neighbours(pos)[i].0),
{
    let b = neighbour(pos, Side::Bottom);
    let r = neighbour(pos, Side::Right);
    let l = neighbour(pos, Side::Left);
    if i < b.len() {
    } else if i < b.len() + r.len() {
    } else if i < b.len() + r.len() + l.len() {
    }
}

/// Emptying a cell takes that cell away and changes nothing else but
/// flags.
pub proof fn lemma_without_frame(cells: CellMap, pos: CellPos)
    ensures
        same_kinds(cells.remove(pos), without(cells, pos)),
        wires_kept(cells, without(cells, pos)),
{
    lemma_around_updated_keeps_kinds(cells.remove(pos), pos, false);
}

/// Putting something into a cell changes that cell and nothing else but
/// flags.
pub proof fn lemma_with_cell_frame(cells: CellMap, pos: CellPos, kind: PixelType)
    ensures
        with_cell(cells, pos, kind).dom() == cells.dom().insert(pos),
        with_cell(cells, pos, kind)[pos].type_of == kind,
        forall|at: CellPos|
            at != pos && cells.contains_key(at) ==> (#[trigger] with_cell(
                cells,
                pos,
                kind,
            )[at]).type_of == cells[at].type_of,
        !(kind is Wire) ==> wires_kept(cells, with_cell(cells, pos, kind)),
{
    let cleared = if cells.contains_key(pos) {
        without(cells, pos)
    } else {
        cells
    };
    if cells.contains_key(pos) {
        lemma_without_frame(cells, pos);
    }
    let placed = cleared.insert(
        pos,
        Pixel { type_of: kind, display: display_for(cleared, kind, pos) },
    );
    lemma_around_updated_keeps_kinds(placed, pos, true);
    assert forall|at: CellPos| at != pos && cells.contains_key(at) implies (#[trigger] with_cell(
        cells,
        pos,
        kind,
    )[at]).type_of == cells[at].type_of by {
        assert(placed.contains_key(at));
    }
}


/// Emptying cells one after the other brings no wire and changes none.
pub proof fn lemma_without_all_keeps_wires(cells: CellMap, positions: Seq<CellPos>, n: int)
    requires
        0 <= n <= positions.len(),
    ensures
        wires_kept(cells, without_all(cells, positions, n)),
    decreases n,
{
    if n > 0 {
        lemma_without_all_keeps_wires(cells, positions, n - 1);
        lemma_without_frame(without_all(cells, positions, n - 1), positions[n - 1]);
    }
}

/// Putting in, one after the other, things that are no wire brings no wire
/// and changes none.
pub proof fn lemma_with_all_keeps_wires(cells: CellMap, entries: Seq<(CellPos, PixelType)>, n: int)
    requires
        0 <= n <= entries.len(),
        forall|k: int| 0 <= k < entries.len() ==> !((#[trigger] entries[k]).1 is Wire),
    ensures
        wires_kept(cells, with_all(cells, entries, n)),
    decreases n,
{
    if n > 0 {
        lemma_with_all_keeps_wires(cells, entries, n - 1);
        lemma_with_cell_frame(with_all(cells, entries, n - 1), entries[n - 1].0, entries[n - 1].1);
    }
}

/// Where no wire has come or changed, the wire has the colours it had.
pub proof fn lemma_wires_kept_keep_palette(before: CellMap, after: CellMap, colors: int)
    requires
        wires_kept(before, after),
        wires_in_palette(before, colors),
    ensures
        wires_in_palette(after, colors),
{
}

/// That no wire has come or changed carries over from step to step.
pub proof fn lemma_wires_kept_chain(first: CellMap, second: CellMap, third: CellMap)
    requires
        wires_kept(first, second),
        wires_kept(second, third),
    ensures
        wires_kept(first, third),
{
}

} // verus!
