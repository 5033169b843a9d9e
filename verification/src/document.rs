//! From a canvas to the document in which it is kept, and back.

use crate::canvas::pixels::cells::Cells;
use crate::canvas::pixels::map::PixelMap;
use crate::canvas::pixels::util::{PixelColor, PixelType};
use crate::canvas::pixels::grid::GridView;
use crate::canvas::pixels::joins::{with_cell, CellMap};
use crate::canvas::pixels::PixelBackground;
use crate::config::{CanvasStateJson, NodeJson, ObjectNormalJson, ObjectsJson, StateInfo};
use crate::editor::node::Node;
use crate::editor::state::CanvasState;
use crate::error::ConfigError;
use crate::http::CanvasJsonReqResp;
use crate::ids::{IdCounter, ObjectId};
use crate::object::NodeValue;
use crate::objects::{create_new_object, made, Object, ObjectStateView, ObjectView};
use crate::size::CellPos;
use vstd::prelude::*;

verus! {

/// The node that the document records as `json`.
pub open spec fn node_of(json: NodeJson) -> Node {
    Node {
        cell_pos: json.pos,
        side: json.side,
        direction: json.direction,
        accepts: json.accepts,
        is_disabled: json.is_disabled,
    }
}

/// Whether `json` records the node `node`, without a label.
pub open spec fn records_node(json: NodeJson, node: Node) -> bool {
    node_of(json) == node && json.label is None
}

/// The record of a node.
pub fn node_into_json(node: &Node) -> (json: NodeJson)
    ensures
        records_node(json, *node),
{
    NodeJson {
        pos: node.cell_pos,
        side: node.side,
        direction: node.direction,
        accepts: node.accepts,
        is_disabled: node.is_disabled,
        label: None,
    }
}

/// The node that a record stands for.
pub fn node_from_json(value: &NodeJson) -> (node: Node)
    ensures
        node == node_of(*value),
{
    Node {
        cell_pos: value.pos,
        side: value.side,
        direction: value.direction,
        accepts: value.accepts,
        is_disabled: value.is_disabled,
    }
}

/// Whether `json` records the object `object`: as an object of one of the
/// kinds that are built in, with its place, its size and its nodes.
pub open spec fn records_object(json: ObjectsJson, object: ObjectView) -> bool {
    json matches ObjectsJson::Normal(normal) && {
        &&& normal.id == object.state.id.0
        &&& normal.type_of == object.state.type_of
        &&& normal.pos == object.state.cell_pos
        &&& normal.dim == object.state.dimensions
        &&& normal.nodes@.len() == object.state.nodes.len()
        &&& forall|i: int|
            0 <= i < normal.nodes@.len() ==> records_node(
                #[trigger] normal.nodes@[i],
                object.state.nodes[i],
            )
    }
}

/// Whether `nets` lists the wire of `cells`: each colour that has wire
/// once, with each cell of that colour once, and nothing else.
pub open spec fn lists_wire(nets: Seq<(usize, Vec<CellPos>)>, cells: CellMap) -> bool {
    &&& forall|a: int, b: int| 0 <= a < b < nets.len() ==> nets[a].0 != nets[b].0
    &&& forall|k: int| 0 <= k < nets.len() ==> (#[trigger] nets[k]).1@.no_duplicates()
    &&& forall|k: int| 0 <= k < nets.len() ==> (#[trigger] nets[k]).1@.len() > 0
    &&& forall|k: int, pos: CellPos|
        0 <= k < nets.len() && #[trigger] nets[k].1@.contains(pos) ==> cells.contains_key(pos)
            && cells[pos].type_of.wire_index() == Some(nets[k].0)
    &&& forall|pos: CellPos| #[trigger]
        cells.contains_key(pos) && cells[pos].type_of is Wire ==> exists|k: int|
            0 <= k < nets.len() && nets[k].0 == cells[pos].type_of.wire_index().unwrap()
                && #[trigger] nets[k].1@.contains(pos)
}

/// The palette as the document lists it: for each colour of wire the
/// colour of wire that carries nothing, then the colour of wire that
/// carries something.
pub open spec fn palette_listed(palette: Seq<(PixelColor, PixelColor)>) -> Seq<(u16, u16, u16)> {
    Seq::new(
        2 * palette.len(),
        |i: int|
            {
                let color = if i % 2 == 0 {
                    palette[i / 2].0
                } else {
                    palette[i / 2].1
                };
                (color.0, color.1, color.2)
            },
    )
}

/// The palette that the document lists as `listed`, two entries for each
/// colour of wire.
pub open spec fn palette_of(listed: Seq<(u16, u16, u16)>) -> Seq<(PixelColor, PixelColor)> {
    Seq::new(
        (listed.len() / 2) as nat,
        |i: int|
            (
                PixelColor(listed[2 * i].0, listed[2 * i].1, listed[2 * i].2),
                PixelColor(listed[2 * i + 1].0, listed[2 * i + 1].1, listed[2 * i + 1].2),
            ),
    )
}

/// The document of a canvas: every object as it is recorded, the palette
/// colour by colour, and the wire by its colours. In which order the
/// colours stand, and in which order the cells of a colour, is not said.
pub fn try_from_editor_state(value: &CanvasState) -> (json: CanvasStateJson)
    requires
        value.pixels.cells.wf(),
        2 * value.pixels@.palette.len() <= usize::MAX,
    ensures
        json.objects@.len() == value.pixels@.objects.len(),
        forall|i: int|
            0 <= i < json.objects@.len() ==> records_object(
                #[trigger] json.objects@[i],
                value.pixels@.objects[i],
            ),
        json.color_palette@ == palette_listed(value.pixels@.palette),
        lists_wire(json.pixels@, value.pixels@.cells),
{
    let pixels = list_wire(&value.pixels.cells);
    let mut objects: Vec<ObjectsJson> = Vec::new();
    let mut i: usize = 0;
    while i < value.pixels.objects.len()
        invariant
            i <= value.pixels.objects@.len(),
            objects@.len() == i,
            forall|k: int|
                0 <= k < i ==> records_object(#[trigger] objects@[k], value.pixels@.objects[k]),
        decreases value.pixels.objects@.len() - i,
    {
        let v = &value.pixels.objects[i];
        let state = v.get_object_state();
        let held = state.get_nodes();
        let mut nodes: Vec<NodeJson> = Vec::new();
        let mut n: usize = 0;
        while n < held.len()
            invariant
                n <= held@.len(),
                nodes@.len() == n,
                forall|k: int| 0 <= k < n ==> records_node(#[trigger] nodes@[k], held@[k]),
            decreases held@.len() - n,
        {
            nodes.push(node_into_json(&held[n]));
            n += 1;
        }
        objects.push(
            ObjectsJson::Normal(
                ObjectNormalJson {
                    id: v.get_id().into_usize(),
                    type_of: state.get_type(),
                    pos: v.get_cell_pos(),
                    dim: v.get_dimensions(),
                    nodes,
                },
            ),
        );
        i += 1;
    }
    let mut color_palette: Vec<(u16, u16, u16)> = Vec::new();
    let mut c: usize = 0;
    while c < value.pixels.palette.len()
        invariant
            c <= value.pixels.palette@.len(),
            2 * value.pixels.palette@.len() <= usize::MAX,
            color_palette@.len() == 2 * c,
            forall|k: int|
                0 <= k < 2 * c ==> #[trigger] color_palette@[k] == palette_listed(
                    value.pixels.palette@,
                )[k],
        decreases value.pixels.palette@.len() - c,
    {
        let (idle, busy) = value.pixels.palette[c];
        color_palette.push((idle.0, idle.1, idle.2));
        color_palette.push((busy.0, busy.1, busy.2));
        c += 1;
    }
    CanvasStateJson { pixels, objects, color_palette }
}

/// Where among `nets` the colour `index` is listed.
fn find_net(nets: &Vec<(usize, Vec<CellPos>)>, index: usize) -> (found: Option<usize>)
    ensures
        match found {
            Some(k) => k < nets@.len() && nets@[k as int].0 == index,
            None => forall|k: int| 0 <= k < nets@.len() ==> (#[trigger] nets@[k]).0 != index,
        },
{
    let mut k: usize = 0;
    while k < nets.len()
        invariant
            k <= nets@.len(),
            forall|j: int| 0 <= j < k ==> (#[trigger] nets@[j]).0 != index,
        decreases nets@.len() - k,
    {
        if nets[k].0 == index {
            return Some(k);
        }
        k += 1;
    }
    None
}

/// Whether `nets` lists the wire among the first `n` of `positions`, and
/// nothing else.
spec fn lists_upto(
    nets: Seq<(usize, Vec<CellPos>)>,
    cells: CellMap,
    positions: Seq<CellPos>,
    n: int,
) -> bool {
    &&& forall|a: int, b: int| 0 <= a < b < nets.len() ==> nets[a].0 != nets[b].0
    &&& forall|k: int| 0 <= k < nets.len() ==> (#[trigger] nets[k]).1@.no_duplicates()
    &&& forall|k: int| 0 <= k < nets.len() ==> (#[trigger] nets[k]).1@.len() > 0
    &&& forall|k: int, pos: CellPos|
        0 <= k < nets.len() && #[trigger] nets[k].1@.contains(pos) ==> cells.contains_key(pos)
            && cells[pos].type_of.wire_index() == Some(nets[k].0) && exists|j: int|
            0 <= j < n && #[trigger] positions[j] == pos
    &&& forall|j: int|
        0 <= j < n && cells[#[trigger] positions[j]].type_of is Wire ==> exists|k: int|
            0 <= k < nets.len() && nets[k].0 == cells[positions[j]].type_of.wire_index().unwrap()
                && #[trigger] nets[k].1@.contains(positions[j])
}

/// The wire of `cells`, by its colours.
fn list_wire(cells: &Cells) -> (nets: Vec<(usize, Vec<CellPos>)>)
    requires
        cells.wf(),
    ensures
        lists_wire(nets@, cells@),
{
    let positions = cells.positions();
    let mut nets: Vec<(usize, Vec<CellPos>)> = Vec::new();
    let mut n: usize = 0;
    while n < positions.len()
        invariant
            n <= positions@.len(),
            positions@.no_duplicates(),
            forall|pos: CellPos| positions@.contains(pos) <==> cells@.contains_key(pos),
            lists_upto(nets@, cells@, positions@, n as int),
        decreases positions@.len() - n,
    {
        let pos = positions[n];
        assert(positions@.contains(pos));
        let ghost before = nets@;
        match cells.get(pos) {
            Some(pixel) => match pixel.type_of {
                PixelType::Wire { index, .. } => {
                    match find_net(&nets, index) {
                        Some(k) => {
                            let ghost listed = nets@[k as int].1@;
                            let mut entry = nets.remove(k);
                            entry.1.push(pos);
                            nets.insert(k, entry);
                            proof {
                                let after = nets@;
                                assert(!listed.contains(pos));
                                assert forall|j: int, at: CellPos|
                                    0 <= j < after.len() && #[trigger] after[j].1@.contains(
                                        at,
                                    ) implies cells@.contains_key(at)
                                    && cells@[at].type_of.wire_index() == Some(after[j].0)
                                    && exists|m: int|
                                    0 <= m < n + 1 && #[trigger] positions@[m] == at by {
                                    if j == k && at == pos {
                                    } else {
                                        assert(before[j].1@.contains(at));
                                    }
                                }
                                assert forall|j: int|
                                    0 <= j < n + 1 && cells@[#[trigger] positions@[j]].type_of
                                        is Wire implies exists|q: int|
                                    0 <= q < after.len() && after[q].0
                                        == cells@[positions@[j]].type_of.wire_index().unwrap()
                                        && #[trigger] after[q].1@.contains(positions@[j]) by {
                                    if j < n {
                                        let q = choose|q: int|
                                            0 <= q < before.len() && before[q].0
                                                == cells@[positions@[j]].type_of.wire_index().unwrap()
                                                && #[trigger] before[q].1@.contains(positions@[j]);
                                        let w = choose|w: int|
                                            0 <= w < before[q].1@.len() && before[q].1@[w]
                                                == positions@[j];
                                        if q == k {
                                            assert(listed.push(pos)[w] == positions@[j]);
                                        }
                                        assert(after[q].1@.contains(positions@[j]));
                                    } else {
                                        assert(listed.push(pos)[listed.len() as int] == pos);
                                        assert(after[k as int].1@.contains(pos));
                                    }
                                }
                            }
                        },
                        None => {
                            let mut listed: Vec<CellPos> = Vec::new();
                            listed.push(pos);
                            nets.push((index, listed));
                            proof {
                                let after = nets@;
                                let last = before.len() as int;
                                assert forall|j: int|
                                    0 <= j < n + 1 && cells@[#[trigger] positions@[j]].type_of
                                        is Wire implies exists|q: int|
                                    0 <= q < after.len() && after[q].0
                                        == cells@[positions@[j]].type_of.wire_index().unwrap()
                                        && #[trigger] after[q].1@.contains(positions@[j]) by {
                                    if j < n {
                                        let q = choose|q: int|
                                            0 <= q < before.len() && before[q].0
                                                == cells@[positions@[j]].type_of.wire_index().unwrap()
                                                && #[trigger] before[q].1@.contains(positions@[j]);
                                        assert(after[q] == before[q]);
                                    } else {
                                        assert(after[last].1@[0] == pos);
                                        assert(after[last].1@.contains(pos));
                                    }
                                }
                            }
                        },
                    }
                },
                _ => {
                },
            },
            None => {},
        }
        n += 1;
    }
    proof {
        assert forall|pos: CellPos| #[trigger]
            cells@.contains_key(pos) && cells@[pos].type_of is Wire implies exists|k: int|
            0 <= k < nets@.len() && nets@[k].0 == cells@[pos].type_of.wire_index().unwrap()
                && #[trigger] nets@[k].1@.contains(pos) by {
            assert(positions@.contains(pos));
        }
    }
    nets
}

/// The nodes that the records stand for.
pub open spec fn nodes_of(records: Seq<NodeJson>) -> Seq<Node> {
    records.map_values(|json: NodeJson| node_of(json))
}

/// What is wrong with the record of an object, if anything: it is not of
/// a kind that is built in and can be made; its size has a length of zero
/// or is too large for its picture to be held; or one of its nodes is in a
/// slot that an object of its size does not have.
pub open spec fn object_flaw(json: ObjectsJson) -> Option<ConfigError> {
    match json {
        ObjectsJson::Normal(normal) => if !normal.type_of.available() {
            Some(ConfigError::UnexpectedObject)
        } else if !(normal.dim.valid() && PixelMap::holds(normal.dim)) {
            Some(ConfigError::InvalidSaveState)
        } else if !PixelMap::fit(nodes_of(normal.nodes@), normal.dim) {
            Some(ConfigError::UnexpectedNodeType)
        } else {
            None
        },
        _ => Some(ConfigError::UnexpectedObject),
    }
}

/// What is wrong with the first of the records, from `from` on, with which
/// something is wrong.
pub open spec fn first_object_flaw(objects: Seq<ObjectsJson>, from: int) -> Option<ConfigError>
    decreases objects.len() - from,
{
    if from < 0 || from >= objects.len() {
        None
    } else {
        match object_flaw(objects[from]) {
            Some(flaw) => Some(flaw),
            None => first_object_flaw(objects, from + 1),
        }
    }
}

/// Whether the document lists wire in a colour that the palette does not
/// have.
pub open spec fn wire_flaw(nets: Seq<(usize, Vec<CellPos>)>, colors: int) -> bool {
    exists|k: int| 0 <= k < nets.len() && (#[trigger] nets[k]).0 >= colors && nets[k].1@.len() > 0
}

/// What is wrong with a document, if anything: the palette does not list
/// two entries for each colour; something is wrong with the record of an
/// object; or there is wire in a colour that the palette does not have.
pub open spec fn flaw(doc: CanvasStateJson) -> Option<ConfigError> {
    if doc.color_palette@.len() % 2 != 0 {
        Some(ConfigError::InvalidSaveState)
    } else {
        match first_object_flaw(doc.objects@, 0) {
            Some(flaw) => Some(flaw),
            None => if wire_flaw(doc.pixels@, doc.color_palette@.len() as int / 2) {
                Some(ConfigError::UnexpectedConnection)
            } else {
                None
            },
        }
    }
}

/// The cells after wire of the colour `index` has been laid into the
/// first `n` of `positions`, one after the other.
pub open spec fn wire_laid(cells: CellMap, index: usize, positions: Seq<CellPos>, n: int) -> CellMap
    decreases n,
{
    if n <= 0 {
        cells
    } else {
        with_cell(
            wire_laid(cells, index, positions, n - 1),
            positions[n - 1],
            PixelType::Wire { index, value: NodeValue::Gpio(false) },
        )
    }
}

/// The cells after the wire of the first `n` colours listed has been laid,
/// colour after colour.
pub open spec fn nets_laid(cells: CellMap, nets: Seq<(usize, Vec<CellPos>)>, n: int) -> CellMap
    decreases n,
{
    if n <= 0 {
        cells
    } else {
        wire_laid(
            nets_laid(cells, nets, n - 1),
            nets[n - 1].0,
            nets[n - 1].1@,
            nets[n - 1].1@.len() as int,
        )
    }
}

/// The object that `json` records, under the identifier `id`: made as
/// objects of its kind are, and then given the nodes as they are recorded.
pub open spec fn loaded_object(json: ObjectsJson, id: ObjectId) -> ObjectView {
    let normal = json->Normal_0;
    let fresh = made(id, normal.type_of, normal.pos, Some(normal.dim));
    ObjectView {
        state: ObjectStateView { nodes: nodes_of(normal.nodes@), ..fresh.state },
        ..fresh
    }
}

/// The objects that the document records, with identifiers from
/// `first_id` on.
pub open spec fn loaded_objects(doc: CanvasStateJson, first_id: int) -> Seq<ObjectView> {
    Seq::new(
        doc.objects@.len(),
        |i: int| loaded_object(doc.objects@[i], ObjectId((first_id + i) as usize)),
    )
}

/// The grid that the document records: its palette, its objects under
/// fresh identifiers, its wire laid in the order listed and carrying
/// nothing, and then the footprint of every object put on.
pub open spec fn loaded(doc: CanvasStateJson, first_id: int) -> GridView {
    GridView {
        palette: palette_of(doc.color_palette@),
        cells: nets_laid(CellMap::empty(), doc.pixels@, doc.pixels@.len() as int),
        objects: loaded_objects(doc, first_id),
    }.restamped()
}

/// What is wrong with the record of an object, if anything.
fn check_object(json: &ObjectsJson) -> (found: Option<ConfigError>)
    ensures
        found == object_flaw(*json),
{
    match json {
        ObjectsJson::Normal(normal) => {
            if !normal.type_of.is_available() {
                return Some(ConfigError::UnexpectedObject);
            }
            if !(normal.dim.width() >= 1 && normal.dim.height() >= 1 && PixelMap::can_hold(normal.dim)) {
                return Some(ConfigError::InvalidSaveState);
            }
            let mut n: usize = 0;
            while n < normal.nodes.len()
                invariant
                    n <= normal.nodes@.len(),
                    *json == ObjectsJson::Normal(*normal),
                    normal.type_of.available(),
                    normal.dim.valid(),
                    PixelMap::holds(normal.dim),
                    forall|k: int|
                        0 <= k < n ==> (#[trigger] nodes_of(normal.nodes@)[k]).side.fits(normal.dim),
                decreases normal.nodes@.len() - n,
            {
                let side = normal.nodes[n].side;
                assert(nodes_of(normal.nodes@)[n as int] == node_of(normal.nodes@[n as int]));
                if side.value() >= normal.dim.from_side(side.side()) {
                    return Some(ConfigError::UnexpectedNodeType);
                }
                n += 1;
            }
            None
        },
        _ => Some(ConfigError::UnexpectedObject),
    }
}

/// What is wrong with a document, if anything.
pub fn check_document(doc: &CanvasStateJson) -> (found: Option<ConfigError>)
    ensures
        found == flaw(*doc),
{
    if doc.color_palette.len() % 2 != 0 {
        return Some(ConfigError::InvalidSaveState);
    }
    let mut i: usize = 0;
    while i < doc.objects.len()
        invariant
            i <= doc.objects@.len(),
            doc.color_palette@.len() % 2 == 0,
            first_object_flaw(doc.objects@, 0) == first_object_flaw(doc.objects@, i as int),
        decreases doc.objects@.len() - i,
    {
        match check_object(&doc.objects[i]) {
            Some(flaw) => {
                return Some(flaw);
            },
            None => {},
        }
        i += 1;
    }
    let colors = doc.color_palette.len() / 2;
    let mut k: usize = 0;
    while k < doc.pixels.len()
        invariant
            k <= doc.pixels@.len(),
            doc.color_palette@.len() % 2 == 0,
            colors == doc.color_palette@.len() / 2,
            first_object_flaw(doc.objects@, 0) is None,
            forall|j: int|
                0 <= j < k ==> !((#[trigger] doc.pixels@[j]).0 >= colors && doc.pixels@[j].1@.len()
                    > 0),
        decreases doc.pixels@.len() - k,
    {
        if doc.pixels[k].0 >= colors && doc.pixels[k].1.len() > 0 {
            return Some(ConfigError::UnexpectedConnection);
        }
        k += 1;
    }
    None
}

/// The canvas that a loaded document records. See `create_state_from_json`.
pub fn create_config_from_json(json: CanvasJsonReqResp, ids: &mut IdCounter) -> (state: Result<
    CanvasState,
    ConfigError,
>)
    requires
        old(ids).upcoming() + json.json.inner().objects@.len() < usize::MAX,
    ensures
        match state {
            Ok(canvas) => {
                &&& flaw(json.json.inner()) is None
                &&& canvas.wf()
                &&& canvas.info == json.info
                &&& canvas.event is None
                &&& canvas.pixels@ == loaded(json.json.inner(), old(ids).upcoming() as int)
                &&& final(ids).upcoming() == old(ids).upcoming() + json.json.inner().objects@.len()
            },
            Err(error) => flaw(json.json.inner()) == Some(error) && *final(ids) == *old(ids),
        },
{
    create_state_from_json(json.json.into_inner_json(), json.info, ids)
}

/// The canvas that a document records, or what is wrong with the
/// document.
///
/// The objects are made anew, under fresh identifiers, and given their
/// nodes as recorded; the wire is laid in the order listed; then the
/// footprint of every object is put on. A document with which something is
/// wrong makes no canvas and uses up no identifier.
pub fn create_state_from_json(editor: CanvasStateJson, info: StateInfo, ids: &mut IdCounter) -> (state:
    Result<CanvasState, ConfigError>)
    requires
        old(ids).upcoming() + editor.objects@.len() < usize::MAX,
    ensures
        match state {
            Ok(canvas) => {
                &&& flaw(editor) is None
                &&& canvas.wf()
                &&& canvas.info == info
                &&& canvas.event is None
                &&& canvas.pixels@ == loaded(editor, old(ids).upcoming() as int)
                &&& final(ids).upcoming() == old(ids).upcoming() + editor.objects@.len()
            },
            Err(error) => flaw(editor) == Some(error) && *final(ids) == *old(ids),
        },
{
    match check_document(&editor) {
        Some(flaw) => {
            return Err(flaw);
        },
        None => {},
    }
    let ghost first_id = ids.upcoming() as int;
    let mut palette: Vec<(PixelColor, PixelColor)> = Vec::new();
    let listed = editor.color_palette.len();
    let colors = listed / 2;
    let mut c: usize = 0;
    while c < colors
        invariant
            c <= colors,
            listed == editor.color_palette@.len(),
            colors == editor.color_palette@.len() / 2,
            palette@.len() == c,
            forall|k: int|
                0 <= k < c ==> #[trigger] palette@[k] == palette_of(editor.color_palette@)[k],
        decreases colors - c,
    {
        let v0 = editor.color_palette[2 * c];
        let v1 = editor.color_palette[2 * c + 1];
        palette.push((PixelColor(v0.0, v0.1, v0.2), PixelColor(v1.0, v1.1, v1.2)));
        c += 1;
    }
    assert(palette@ =~= palette_of(editor.color_palette@));
    let mut objects: Vec<Object> = Vec::new();
    let mut i: usize = 0;
    while i < editor.objects.len()
        invariant
            i <= editor.objects@.len(),
            first_id + editor.objects@.len() < usize::MAX,
            ids.upcoming() == first_id + i,
            first_object_flaw(editor.objects@, i as int) is None,
            objects@.len() == i,
            forall|k: int|
                0 <= k < i ==> (#[trigger] objects@[k])@ == loaded_object(
                    editor.objects@[k],
                    ObjectId((first_id + k) as usize),
                ),
            forall|k: int| 0 <= k < i ==> (#[trigger] objects@[k])@.valid(),
        decreases editor.objects@.len() - i,
    {
        match &editor.objects[i] {
            ObjectsJson::Normal(json) => {
                let id = ObjectId::gen_id(ids);
                let mut object = create_new_object(id, json.type_of, json.pos, Some(json.dim));
                let mut nodes: Vec<Node> = Vec::new();
                let mut n: usize = 0;
                while n < json.nodes.len()
                    invariant
                        n <= json.nodes@.len(),
                        nodes@.len() == n,
                        forall|k: int|
                            0 <= k < n ==> #[trigger] nodes@[k] == node_of(json.nodes@[k]),
                    decreases json.nodes@.len() - n,
                {
                    nodes.push(node_from_json(&json.nodes[n]));
                    n += 1;
                }
                assert(nodes@ =~= nodes_of(json.nodes@));
                object.set_nodes(nodes);
                objects.push(object);
            },
            _ => {},
        }
        i += 1;
    }
    let mut background = PixelBackground { cells: Cells::new(), palette, objects };
    assert(background@.objects =~= loaded_objects(editor, first_id));
    let mut k: usize = 0;
    while k < editor.pixels.len()
        invariant
            k <= editor.pixels@.len(),
            background.wf(),
            !wire_flaw(editor.pixels@, background@.palette.len() as int),
            background@ == (GridView {
                palette: palette_of(editor.color_palette@),
                cells: nets_laid(CellMap::empty(), editor.pixels@, k as int),
                objects: loaded_objects(editor, first_id),
            }),
        decreases editor.pixels@.len() - k,
    {
        let index = editor.pixels[k].0;
        let poses = &editor.pixels[k].1;
        let ghost before = background@.cells;
        let mut p: usize = 0;
        while p < poses.len()
            invariant
                p <= poses@.len(),
                k < editor.pixels@.len(),
                index == editor.pixels@[k as int].0,
                poses@ == editor.pixels@[k as int].1@,
                background.wf(),
                !wire_flaw(editor.pixels@, background@.palette.len() as int),
                background@ == (GridView {
                    palette: palette_of(editor.color_palette@),
                    cells: wire_laid(before, index, poses@, p as int),
                    objects: loaded_objects(editor, first_id),
                }),
            decreases poses@.len() - p,
        {
            background.insert_cell(
                poses[p],
                PixelType::Wire { index, value: NodeValue::Gpio(false) },
            );
            p += 1;
        }
        k += 1;
    }
    background.re_render_objects();
    Ok(CanvasState { info, event: None, pixels: background })
}

} // verus!
