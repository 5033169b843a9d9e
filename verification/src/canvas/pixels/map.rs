//! The picture of one object: its body and its nodes, cell by cell.

use crate::canvas::pixels::util::PixelType;
use crate::editor::node::Node;
use crate::size::{CellPos, Dimensions, NodeObjectSide};
use vstd::arithmetic::div_mod::{lemma_fundamental_div_mod, lemma_fundamental_div_mod_converse};
use vstd::prelude::*;

verus! {

/// The cells of an object and of the ring around it, row by row from the
/// top-left corner of the ring. The body fills the inside; the nodes lie in
/// the ring.
#[derive(Debug)]
pub struct PixelMap {
    map: Vec<Option<PixelType>>,
    width: usize,
}

impl PixelMap {
    /// The cells, row by row; `None` where there is nothing.
    pub closed spec fn cells(self) -> Seq<Option<PixelType>> {
        self.map@
    }

    /// The length of a row: the width of the body and two for the ring.
    pub closed spec fn row_length(self) -> int {
        self.width as int
    }

    /// Every picture has the ring: a row is never shorter than two cells.
    pub open spec fn wf(self) -> bool {
        self.row_length() >= 2
    }

    /// Whether the picture has the size that an object of the dimensions
    /// `dim` needs.
    pub open spec fn shaped(self, dim: Dimensions) -> bool {
        &&& self.row_length() == dim.0 + 2
        &&& self.cells().len() == (dim.0 + 2) * (dim.1 + 2)
    }

    /// Whether a picture for `dim` can be held: its cells can be counted.
    pub open spec fn holds(dim: Dimensions) -> bool {
        (dim.0 + 2) * (dim.1 + 2) <= usize::MAX
    }

    /// The picture of nothing, for an object of the dimensions `dim`.
    pub open spec fn blank(dim: Dimensions) -> Seq<Option<PixelType>> {
        Seq::new(((dim.0 + 2) * (dim.1 + 2)) as nat, |i: int| None)
    }

    /// Whether the cell `i` of a picture with rows of `width` cells and
    /// `len` cells in all lies inside the ring.
    pub open spec fn is_body(i: int, width: int, len: int) -> bool {
        width <= i < len - width && 0 < i % width < width - 1
    }

    /// The picture with the inside filled in the common colour of bodies.
    pub open spec fn with_body(cells: Seq<Option<PixelType>>, width: int) -> Seq<
        Option<PixelType>,
    > {
        Seq::new(
            cells.len(),
            |i: int|
                if Self::is_body(i, width, cells.len() as int) {
                    Some(PixelType::ObjectColor)
                } else {
                    cells[i]
                },
        )
    }

    /// The picture of a body given cell by cell, row by row, with an empty
    /// ring around it.
    pub open spec fn framed(dim: Dimensions, body: Seq<PixelType>) -> Seq<Option<PixelType>> {
        Seq::new(
            ((dim.0 + 2) * (dim.1 + 2)) as nat,
            |i: int|
                {
                    let row = i / (dim.0 + 2);
                    let col = i % (dim.0 + 2);
                    if 1 <= row <= dim.1 && 1 <= col <= dim.0 {
                        Some(body[(row - 1) * dim.0 + (col - 1)])
                    } else {
                        None
                    }
                },
        )
    }

    /// Where in the picture the slot `side` lies: in the top row from the
    /// left, in the right column from the top, in the bottom row from the
    /// right, in the left column from the bottom, the corners of the ring
    /// left out.
    pub open spec fn node_index(side: NodeObjectSide, width: int, len: int) -> int {
        match side {
            NodeObjectSide::Top(v) => 1 + v,
            NodeObjectSide::Bottom(v) => len - v - 2,
            NodeObjectSide::Right(v) => width * 2 + width * v - 1,
            NodeObjectSide::Left(v) => len - width * 2 - width * v,
        }
    }

    /// What the cell of `node` holds.
    pub open spec fn node_pixel(node: Node) -> PixelType {
        PixelType::Node { direction: node.direction, side: node.side.spec_side() }
    }

    /// Whether each of `nodes` has its cell within a picture of `len` cells.
    pub open spec fn take(nodes: Seq<Node>, width: int, len: int) -> bool {
        forall|i: int|
            0 <= i < nodes.len() ==> 0 <= #[trigger] Self::node_index(nodes[i].side, width, len)
                < len
    }

    /// Whether each of `nodes` has its cell within this picture.
    pub open spec fn takes(self, nodes: Seq<Node>) -> bool {
        Self::take(nodes, self.row_length(), self.cells().len() as int)
    }

    /// Whether each of `nodes` has a slot that an object of the dimensions
    /// `dim` has.
    pub open spec fn fit(nodes: Seq<Node>, dim: Dimensions) -> bool {
        forall|i: int| 0 <= i < nodes.len() ==> (#[trigger] nodes[i]).side.fits(dim)
    }

    /// The picture with the nodes put in, one after the other: where two
    /// share a cell the later one shows.
    pub open spec fn with_nodes(cells: Seq<Option<PixelType>>, width: int, nodes: Seq<Node>) -> Seq<
        Option<PixelType>,
    >
        decreases nodes.len(),
    {
        if nodes.len() == 0 {
            cells
        } else {
            Self::with_nodes(cells, width, nodes.drop_last()).update(
                Self::node_index(nodes.last().side, width, cells.len() as int),
                Some(Self::node_pixel(nodes.last())),
            )
        }
    }

    /// The entry `i` of a picture, as it lies on the grid when the object's
    /// top-left body cell is `pos`: nothing where the picture is empty or
    /// the cell is off the grid.
    pub open spec fn placed(
        cells: Seq<Option<PixelType>>,
        width: int,
        pos: CellPos,
        i: int,
    ) -> Option<(CellPos, PixelType)> {
        let x = pos.0 + i % width - 1;
        let y = pos.1 + i / width - 1;
        match cells[i] {
            Some(kind) => if 0 <= x <= usize::MAX && 0 <= y <= usize::MAX {
                Some(((x as usize, y as usize), kind))
            } else {
                None
            },
            None => None,
        }
    }

    /// What the first `n` entries of a picture put on the grid, in order.
    pub open spec fn stamped(
        cells: Seq<Option<PixelType>>,
        width: int,
        pos: CellPos,
        n: int,
    ) -> Seq<(CellPos, PixelType)>
        decreases n,
    {
        if n <= 0 {
            Seq::empty()
        } else {
            let before = Self::stamped(cells, width, pos, n - 1);
            match Self::placed(cells, width, pos, n - 1) {
                Some(entry) => before.push(entry),
                None => before,
            }
        }
    }

    /// The cells that the object covers when its top-left body cell is
    /// `pos`, each with what it holds, row by row.
    pub open spec fn footprint(self, pos: CellPos) -> Seq<(CellPos, PixelType)> {
        Self::stamped(self.cells(), self.row_length(), pos, self.cells().len() as int)
    }

    /// The cells of the footprint alone.
    pub open spec fn footprint_cells(self, pos: CellPos) -> Seq<CellPos> {
        self.footprint(pos).map_values(|entry: (CellPos, PixelType)| entry.0)
    }

    /// Whether a picture for `dim` can be held.
    pub fn can_hold(dim: Dimensions) -> (yes: bool)
        ensures
            yes == Self::holds(dim),
    {
        match dim.width().checked_add(2) {
            Some(width) => match dim.height().checked_add(2) {
                Some(height) => {
                    let fits = width.checked_mul(height).is_some();
                    fits
                },
                None => {
                    assert((dim.0 + 2) * (dim.1 + 2) > usize::MAX) by (nonlinear_arith)
                        requires
                            dim.1 + 2 > usize::MAX,
                            dim.0 >= 0,
                    ;
                    false
                },
            },
            None => {
                assert((dim.0 + 2) * (dim.1 + 2) > usize::MAX) by (nonlinear_arith)
                    requires
                        dim.0 + 2 > usize::MAX,
                        dim.1 >= 0,
                ;
                false
            },
        }
    }

    fn empty_row(len: usize) -> (cells: Vec<Option<PixelType>>)
        ensures
            cells@ == Seq::new(len as nat, |i: int| None::<PixelType>),
    {
        let mut cells: Vec<Option<PixelType>> = Vec::new();
        let mut i: usize = 0;
        while i < len
            invariant
                i <= len,
                cells@ == Seq::new(i as nat, |i: int| None::<PixelType>),
            decreases len - i,
        {
            cells.push(None);
            i += 1;
        }
        cells
    }

    /// The picture of a body given cell by cell, row by row, and of
    /// `nodes` around it.
    pub fn generate_with_object_map(
        dimensions: Dimensions,
        object_map: Vec<PixelType>,
        nodes: &[Node],
    ) -> (picture: Self)
        requires
            dimensions.valid(),
            Self::holds(dimensions),
            object_map@.len() == dimensions.0 * dimensions.1,
            Self::fit(nodes@, dimensions),
        ensures
            picture.shaped(dimensions),
            picture.cells() == Self::with_nodes(
                Self::framed(dimensions, object_map@),
                dimensions.0 + 2,
                nodes@,
            ),
    {
        let w = dimensions.width();
        let h = dimensions.height();
        let mut this = Self::new_empty(dimensions);
        let width = w + 2;
        let ghost len = (w + 2) * (h + 2);
        let ghost body = object_map@;
        let mut row: usize = 0;
        while row < h
            invariant
                row <= h,
                w >= 1,
                h >= 1,
                width == w + 2,
                len == (w + 2) * (h + 2),
                len <= usize::MAX,
                this.width == width,
                body == object_map@,
                body.len() == w * h,
                this.map@.len() == len,
                forall|i: int|
                    0 <= i < len ==> #[trigger] this.map@[i] == if 1 <= i / (width as int) <= row
                        && 1 <= i % (width as int) <= w {
                        Some(body[(i / (width as int) - 1) * w + (i % (width as int) - 1)])
                    } else {
                        None
                    },
            decreases h - row,
        {
            let mut col: usize = 0;
            while col < w
                invariant
                    row < h,
                    col <= w,
                    w >= 1,
                    h >= 1,
                    width == w + 2,
                    len == (w + 2) * (h + 2),
                    len <= usize::MAX,
                    this.width == width,
                    body == object_map@,
                    body.len() == w * h,
                    this.map@.len() == len,
                    forall|i: int|
                        0 <= i < len ==> #[trigger] this.map@[i] == if (1 <= i / (width as int)
                            <= row && 1 <= i % (width as int) <= w) || (i / (width as int) == row
                            + 1 && 1 <= i % (width as int) <= col) {
                            Some(body[(i / (width as int) - 1) * w + (i % (width as int) - 1)])
                        } else {
                            None
                        },
                decreases w - col,
            {
                assert((row + 1) * width + (col + 1) < len && row * w + col < w * h && (row + 1)
                    * width >= 0 && row * w >= 0) by (nonlinear_arith)
                    requires
                        row < h,
                        col < w,
                        width == w + 2,
                        len == (w + 2) * (h + 2),
                ;
                assert(w * h == object_map.len());
                let at = (row + 1) * width + (col + 1);
                let from = row * w + col;
                let pixel = object_map[from];
                proof {
                    lemma_fundamental_div_mod_converse(
                        at as int,
                        width as int,
                        row + 1,
                        col + 1,
                    );
                }
                this.map.set(at, Some(pixel));
                assert forall|i: int| 0 <= i < len implies #[trigger] this.map@[i] == if (1 <= i / (
                width as int) <= row && 1 <= i % (width as int) <= w) || (i / (width as int) == row
                    + 1 && 1 <= i % (width as int) <= col + 1) {
                    Some(body[(i / (width as int) - 1) * w + (i % (width as int) - 1)])
                } else {
                    None
                } by {
                    lemma_fundamental_div_mod(i, width as int);
                    if i != at {
                        assert(!(i / (width as int) == row + 1 && i % (width as int) == col + 1))
                            by (nonlinear_arith)
                            requires
                                i != at,
                                at == (row + 1) * width + (col + 1),
                                i == width * (i / (width as int)) + i % (width as int),
                        ;
                    }
                }
                col += 1;
            }
            row += 1;
        }
        assert(this.map@ =~= Self::framed(dimensions, body));
        proof {
            Self::lemma_fitting_nodes_are_taken(nodes@, dimensions);
        }
        this.render_nodes(nodes);
        this
    }

    /// The picture of nothing, for an object of the dimensions
    /// `dimensions`.
    pub fn new_empty(dimensions: Dimensions) -> (picture: Self)
        requires
            Self::holds(dimensions),
        ensures
            picture.shaped(dimensions),
            picture.cells() == Self::blank(dimensions),
    {
        assert(dimensions.0 + 2 <= (dimensions.0 + 2) * (dimensions.1 + 2) && dimensions.1 + 2 <= (
        dimensions.0 + 2) * (dimensions.1 + 2)) by (nonlinear_arith);
        let width = dimensions.width() + 2;
        let height = dimensions.height() + 2;
        let map = Self::empty_row(width * height);
        PixelMap { map, width }
    }

    /// The picture of a body in the common colour and of `nodes` around it.
    pub fn new_with_nodes(dimensions: Dimensions, nodes: &[Node]) -> (picture: Self)
        requires
            Self::holds(dimensions),
            Self::fit(nodes@, dimensions),
        ensures
            picture.shaped(dimensions),
            picture.cells() == Self::with_nodes(
                Self::with_body(Self::blank(dimensions), dimensions.0 + 2),
                dimensions.0 + 2,
                nodes@,
            ),
    {
        let empty = Self::new_empty(dimensions);
        proof {
            Self::lemma_fitting_nodes_are_taken(nodes@, dimensions);
        }
        empty.generate(nodes)
    }

    /// Fills the inside in the common colour of bodies and puts in `nodes`.
    pub fn generate(self, nodes: &[Node]) -> (picture: Self)
        requires
            self.wf(),
            self.takes(nodes@),
        ensures
            picture.row_length() == self.row_length(),
            picture.cells().len() == self.cells().len(),
            picture.cells() == Self::with_nodes(
                Self::with_body(self.cells(), self.row_length()),
                self.row_length(),
                nodes@,
            ),
    {
        let mut picture = self;
        picture.render_object();
        picture.render_nodes(nodes);
        picture
    }

    fn render_object(&mut self)
        requires
            old(self).wf(),
        ensures
            final(self).width == old(self).width,
            final(self).map@ == Self::with_body(old(self).map@, old(self).width as int),
    {
        let len = self.map.len();
        let width = self.width;
        let ghost before = self.map@;
        if len >= width && len - width >= width {
            let end = len - width;
            let mut i = width;
            while i < end
                invariant
                    width <= i <= end,
                    end == len - width,
                    width >= 2,
                    self.width == width,
                    self.map@.len() == len,
                    before.len() == len,
                    forall|j: int|
                        0 <= j < len ==> #[trigger] self.map@[j] == if j < i && Self::is_body(
                            j,
                            width as int,
                            len as int,
                        ) {
                            Some(PixelType::ObjectColor)
                        } else {
                            before[j]
                        },
                decreases end - i,
            {
                let x = i % width;
                if x != 0 && x != width - 1 {
                    self.map.set(i, Some(PixelType::ObjectColor));
                }
                i += 1;
            }
        }
    }

    fn render_nodes(&mut self, nodes: &[Node])
        requires
            old(self).wf(),
            old(self).takes(nodes@),
        ensures
            final(self).width == old(self).width,
            final(self).map@.len() == old(self).map@.len(),
            final(self).map@ == Self::with_nodes(old(self).map@, old(self).width as int, nodes@),
    {
        let len = self.map.len();
        let width = self.width;
        let ghost before = self.map@;
        let mut n: usize = 0;
        while n < nodes.len()
            invariant
                n <= nodes.len(),
                width >= 2,
                self.width == width,
                self.map@.len() == len,
                before.len() == len,
                Self::take(nodes@, width as int, len as int),
                self.map@ == Self::with_nodes(before, width as int, nodes@.take(n as int)),
            decreases nodes.len() - n,
        {
            let node = nodes[n];
            assert(0 <= Self::node_index(node.side, width as int, len as int) < len);
            let i = match node.side {
                NodeObjectSide::Top(v) => 1 + v,
                NodeObjectSide::Bottom(v) => len - v - 2,
                NodeObjectSide::Right(v) => {
                    assert(width * 2 + width * v - 1 < len ==> width * v <= len && width * v >= 0)
                        by (nonlinear_arith)
                        requires
                            width >= 2,
                            v >= 0,
                    ;
                    width * 2 + width * v - 1
                },
                NodeObjectSide::Left(v) => {
                    assert(len - width * 2 - width * v >= 0 ==> width * v <= len && width * v >= 0)
                        by (nonlinear_arith)
                        requires
                            width >= 2,
                            v >= 0,
                    ;
                    len - (width * 2) - (width * v)
                },
            };
            self.map.set(
                i,
                Some(PixelType::Node { direction: node.direction, side: node.side.side() }),
            );
            proof {
                let upto = nodes@.take(n + 1);
                assert(upto.drop_last() =~= nodes@.take(n as int));
            }
            n += 1;
        }
        assert(nodes@.take(n as int) =~= nodes@);
    }

    /// The cells that the object covers when its top-left body cell is
    /// `pos`, row by row. Cells off the grid are left out.
    pub fn pixel_positions(&self, pos: CellPos) -> (cells: Vec<CellPos>)
        requires
            self.wf(),
        ensures
            cells@ == self.footprint_cells(pos),
    {
        let mut cells: Vec<CellPos> = Vec::new();
        let len = self.map.len();
        let mut i: usize = 0;
        while i < len
            invariant
                i <= len,
                len == self.map@.len(),
                self.width >= 2,
                cells@ == Self::stamped(self.map@, self.width as int, pos, i as int).map_values(
                    |entry: (CellPos, PixelType)| entry.0,
                ),
            decreases len - i,
        {
            if self.map[i].is_some() {
                let x_offset = i % self.width;
                let y_offset = i / self.width;
                match (Self::moved(pos.0, x_offset), Self::moved(pos.1, y_offset)) {
                    (Some(x), Some(y)) => {
                        cells.push((x, y));
                    },
                    _ => {},
                }
            }
            i += 1;
            proof {
                match Self::placed(self.map@, self.width as int, pos, i - 1) {
                    Some(entry) => {
                    },
                    None => {},
                }
            }
        }
        cells
    }

    /// The cells that the object covers when its top-left body cell is
    /// `pos`, each with what it holds, row by row. Cells off the grid are
    /// left out.
    pub fn pixel_positions_with_types(self, pos: CellPos) -> (cells: Vec<(CellPos, PixelType)>)
        requires
            self.wf(),
        ensures
            cells@ == self.footprint(pos),
    {
        let mut cells: Vec<(CellPos, PixelType)> = Vec::new();
        let len = self.map.len();
        let mut i: usize = 0;
        while i < len
            invariant
                i <= len,
                len == self.map@.len(),
                self.width >= 2,
                cells@ == Self::stamped(self.map@, self.width as int, pos, i as int),
            decreases len - i,
        {
            match self.map[i] {
                Some(type_of) => {
                    let x_offset = i % self.width;
                    let y_offset = i / self.width;
                    match (Self::moved(pos.0, x_offset), Self::moved(pos.1, y_offset)) {
                        (Some(x), Some(y)) => {
                            cells.push(((x, y), type_of));
                        },
                        _ => {},
                    }
                },
                None => {},
            }
            i += 1;
        }
        cells
    }

    /// `from + by - 1`, where that is a coordinate.
    fn moved(from: usize, by: usize) -> (to: Option<usize>)
        ensures
            to == if 0 <= from + by - 1 <= usize::MAX {
                Some((from + by - 1) as usize)
            } else {
                None
            },
    {
        if by == 0 {
            from.checked_sub(1)
        } else {
            from.checked_add(by - 1)
        }
    }

    /// Nodes whose slots an object has lie within its picture.
    pub proof fn lemma_fitting_nodes_are_taken(nodes: Seq<Node>, dim: Dimensions)
        requires
            Self::fit(nodes, dim),
        ensures
            Self::take(nodes, dim.0 + 2, (dim.0 + 2) * (dim.1 + 2)),
    {
        let width = dim.0 + 2;
        let len = (dim.0 + 2) * (dim.1 + 2);
        assert forall|i: int| 0 <= i < nodes.len() implies 0 <= #[trigger] Self::node_index(
            nodes[i].side,
            width,
            len,
        ) < len by {
            let side = nodes[i].side;
            let v = side.spec_value();
            assert(0 <= Self::node_index(side, width, len) < len) by (nonlinear_arith)
                requires
                    width == dim.0 + 2,
                    len == (dim.0 + 2) * (dim.1 + 2),
                    0 <= v,
                    side.spec_side() == crate::size::Side::Top || side.spec_side()
                        == crate::size::Side::Bottom ==> v < dim.0,
                    side.spec_side() == crate::size::Side::Left || side.spec_side()
                        == crate::size::Side::Right ==> v < dim.1,
                    Self::node_index(side, width, len) == match side {
                        NodeObjectSide::Top(v) => 1 + v,
                        NodeObjectSide::Bottom(v) => len - v - 2,
                        NodeObjectSide::Right(v) => width * 2 + width * v - 1,
                        NodeObjectSide::Left(v) => len - width * 2 - width * v,
                    },
                    v == side.spec_value(),
            ;
        }
    }

    /// Whether no cell of a picture holds wire.
    pub open spec fn wireless(cells: Seq<Option<PixelType>>) -> bool {
        forall|i: int| 0 <= i < cells.len() ==> !((#[trigger] cells[i]) matches Some(kind) && kind is Wire)
    }

    /// Putting nodes into a picture without wire leaves it without wire.
    pub proof fn lemma_with_nodes_wireless(
        cells: Seq<Option<PixelType>>,
        width: int,
        nodes: Seq<Node>,
    )
        requires
            Self::wireless(cells),
            Self::take(nodes, width, cells.len() as int),
        ensures
            Self::wireless(Self::with_nodes(cells, width, nodes)),
            Self::with_nodes(cells, width, nodes).len() == cells.len(),
        decreases nodes.len(),
    {
        if nodes.len() > 0 {
            let before = nodes.drop_last();
            Self::lemma_with_nodes_wireless(cells, width, before);
        }
    }

    /// A picture without wire puts no wire on the grid.
    pub proof fn lemma_stamped_wireless(
        cells: Seq<Option<PixelType>>,
        width: int,
        pos: CellPos,
        n: int,
    )
        requires
            Self::wireless(cells),
            0 <= n <= cells.len(),
        ensures
            forall|k: int|
                0 <= k < Self::stamped(cells, width, pos, n).len() ==> !((#[trigger] Self::stamped(
                    cells,
                    width,
                    pos,
                    n,
                )[k]).1 is Wire),
        decreases n,
    {
        if n > 0 {
            Self::lemma_stamped_wireless(cells, width, pos, n - 1);
        }
    }

    /// Whether the cell `i` of the picture of an object of the size `dim`
    /// lies inside the ring, where the body is.
    pub open spec fn inside(i: int, dim: Dimensions) -> bool {
        1 <= i / (dim.0 + 2) <= dim.1 && 1 <= i % (dim.0 + 2) <= dim.0
    }

    /// The cells of a picture that hold something once nodes are put in are
    /// those that held something before and those of the nodes.
    pub proof fn lemma_with_nodes_some(
        cells: Seq<Option<PixelType>>,
        width: int,
        nodes: Seq<Node>,
        i: int,
    )
        requires
            Self::take(nodes, width, cells.len() as int),
            0 <= i < cells.len(),
        ensures
            Self::with_nodes(cells, width, nodes).len() == cells.len(),
            Self::with_nodes(cells, width, nodes)[i] is Some <==> cells[i] is Some || exists|k: int|
                0 <= k < nodes.len() && #[trigger] Self::node_index(
                    nodes[k].side,
                    width,
                    cells.len() as int,
                ) == i,
        decreases nodes.len(),
    {
        if nodes.len() > 0 {
            let before = nodes.drop_last();
            let last = nodes.len() - 1;
            Self::lemma_with_nodes_some(cells, width, before, i);
            let any = exists|k: int|
                0 <= k < nodes.len() && #[trigger] Self::node_index(
                    nodes[k].side,
                    width,
                    cells.len() as int,
                ) == i;
            if any {
                let k = choose|k: int|
                    0 <= k < nodes.len() && #[trigger] Self::node_index(
                        nodes[k].side,
                        width,
                        cells.len() as int,
                    ) == i;
                if k < last {
                    assert(before[k] == nodes[k]);
                }
            }
        }
    }

    /// A cell is among those that the first `n` entries of a picture put
    /// on the grid just when one of these entries lies there.
    pub proof fn lemma_stamped_has(
        cells: Seq<Option<PixelType>>,
        width: int,
        pos: CellPos,
        n: int,
        cell: CellPos,
    )
        requires
            0 <= n <= cells.len(),
        ensures
            Self::stamped(cells, width, pos, n).map_values(
                |entry: (CellPos, PixelType)| entry.0,
            ).contains(cell) <==> exists|i: int|
                0 <= i < n && Self::lies_at(#[trigger] Self::placed(cells, width, pos, i), cell),
        decreases n,
    {
        let first = |entry: (CellPos, PixelType)| entry.0;
        if n > 0 {
            Self::lemma_stamped_has(cells, width, pos, n - 1, cell);
            let before = Self::stamped(cells, width, pos, n - 1);
            let after = Self::stamped(cells, width, pos, n);
            let found = exists|i: int|
                0 <= i < n && Self::lies_at(#[trigger] Self::placed(cells, width, pos, i), cell);
            if after.map_values(first).contains(cell) {
                let k = choose|k: int|
                    0 <= k < after.map_values(first).len() && after.map_values(first)[k] == cell;
                if k < before.len() {
                    assert(before.map_values(first)[k] == cell);
                }
            }
            if found {
                let i = choose|i: int|
                    0 <= i < n && Self::lies_at(
                        #[trigger] Self::placed(cells, width, pos, i),
                        cell,
                    );
                if i < n - 1 {
                    let k = choose|k: int|
                        0 <= k < before.map_values(first).len() && before.map_values(first)[k]
                            == cell;
                    assert(after.map_values(first)[k] == cell);
                } else {
                    let k = after.len() - 1;
                    assert(after.map_values(first)[k] == cell);
                }
            }
        }
    }

    /// Whether the entry lies at the cell.
    pub open spec fn lies_at(entry: Option<(CellPos, PixelType)>, cell: CellPos) -> bool {
        entry matches Some(placed) && placed.0 == cell
    }
}

} // verus!
