//! The objects that can be placed on the grid and the signals they send.
//!
//! Every kind of object is a value of `Object`. What an object does is said
//! over its view, an `ObjectView`: what it covers, what it sends when it is
//! clicked or ticked, what it does with a value that reaches one of its
//! inputs.

pub mod basic;
pub mod testobj;

use crate::canvas::pixels::map::PixelMap;
use crate::canvas::pixels::util::{PixelColor, PixelType};
use crate::editor::event::MouseEvent;
use crate::editor::node::Node;
use crate::ids::{IdCounter, ObjectId};
use crate::objects::basic::button::ButtonState;
use crate::objects::basic::led::LedState;
use crate::objects::basic::switch::SwitchState;
use crate::objects::testobj::TestObjState;
use crate::object::{NodeValue, ObjectType};
use crate::size::{CellPos, Dimensions, NodeDirection, NodeObjectSide, Side};
use vstd::arithmetic::div_mod::{lemma_fundamental_div_mod, lemma_fundamental_div_mod_converse};
use vstd::prelude::*;

verus! {

/// A signal on its way, one hop at a time.
///
/// `==` on this type asks whether two signals are of the same kind and at
/// the same cell, whatever they carry and wherever they came from.
#[derive(Debug, Clone, Copy)]
pub enum ObjectData {
    /// A value leaving an object: the object, the cell of the node it
    /// leaves by, the node's slot, and the value.
    FromNode(ObjectId, CellPos, NodeObjectSide, NodeValue),
    /// A value that has reached a wire cell and goes on from there: the
    /// side of the cell on which it came in, and the cell.
    Wire(Side, CellPos),
}

impl ObjectData {
    /// The cell the signal is at.
    pub open spec fn spec_cell(&self) -> CellPos {
        match *self {
            ObjectData::FromNode(_, cell, _, _) => cell,
            ObjectData::Wire(_, cell) => cell,
        }
    }

    /// Whether the two signals are of the same kind and at the same cell.
    pub open spec fn same_target(&self, other: &ObjectData) -> bool {
        (*self is FromNode) == (*other is FromNode) && self.spec_cell() == other.spec_cell()
    }

    #[verifier::when_used_as_spec(spec_cell)]
    pub fn cell(&self) -> (cell: CellPos)
        ensures
            cell == self.spec_cell(),
    {
        match self {
            ObjectData::FromNode(_, cell, _, _) => *cell,
            ObjectData::Wire(_, cell) => *cell,
        }
    }
}

impl PartialEq for ObjectData {
    fn eq(&self, other: &ObjectData) -> (yes: bool) {
        match (self, other) {
            (ObjectData::FromNode(_, v1, _, _), ObjectData::FromNode(_, v2, _, _)) => {
                v1.0 == v2.0 && v1.1 == v2.1
            },
            (ObjectData::Wire(_, v1), ObjectData::Wire(_, v2)) => v1.0 == v2.0 && v1.1 == v2.1,
            _ => false,
        }
    }
}

impl vstd::std_specs::cmp::PartialEqSpecImpl for ObjectData {
    open spec fn obeys_eq_spec() -> bool {
        true
    }

    open spec fn eq_spec(&self, other: &ObjectData) -> bool {
        self.same_target(other)
    }
}

/// What an object is told of.
#[derive(Debug, Clone, Copy, PartialEq, Eq, Structural)]
pub enum ObjectUpdateEvent {
    MouseHoveringObject,
    MouseClickObject(MouseEvent),
    MouseDownObject(MouseEvent),
    MouseUpObject(MouseEvent),
    /// The tick that every object gets once per frame.
    GlobalTick,
}

impl ObjectUpdateEvent {
    pub fn is_global_tick(&self) -> (yes: bool)
        ensures
            yes == (*self is GlobalTick),
    {
        match self {
            ObjectUpdateEvent::GlobalTick => true,
            _ => false,
        }
    }

    pub fn is_click(&self) -> (yes: bool)
        ensures
            yes == (*self is MouseClickObject),
    {
        match self {
            ObjectUpdateEvent::MouseClickObject(_) => true,
            _ => false,
        }
    }
}

/// The state that an object goes back to when it is reset, for the kinds
/// that keep one.
#[derive(Debug, Clone, Copy, PartialEq, Eq, Structural)]
pub enum DefaultValue {
    Null,
    Bool(bool),
}

/// What every object has, whatever its kind.
#[derive(Debug)]
pub struct ObjectState {
    pub id: ObjectId,
    pub type_of: ObjectType,
    cell_pos: CellPos,
    dimensions: Dimensions,
    pub nodes: Vec<Node>,
    default: DefaultValue,
}

/// An `ObjectState` as a value.
pub struct ObjectStateView {
    pub id: ObjectId,
    pub type_of: ObjectType,
    /// The top-left cell of the body.
    pub cell_pos: CellPos,
    pub dimensions: Dimensions,
    pub nodes: Seq<Node>,
    pub default: DefaultValue,
}

impl View for ObjectState {
    type V = ObjectStateView;

    closed spec fn view(&self) -> ObjectStateView {
        ObjectStateView {
            id: self.id,
            type_of: self.type_of,
            cell_pos: self.cell_pos,
            dimensions: self.dimensions,
            nodes: self.nodes@,
            default: self.default,
        }
    }
}

impl ObjectStateView {
    /// The state after the object has gone to `pos`: every node at the
    /// cell of its slot.
    pub open spec fn moved(self, pos: CellPos) -> ObjectStateView {
        ObjectStateView {
            cell_pos: pos,
            nodes: self.nodes.map_values(|node: Node| node.placed(self.dimensions, pos)),
            ..self
        }
    }

    /// The state after the object has taken the size `dim`.
    pub open spec fn resized(self, dim: Dimensions) -> ObjectStateView {
        ObjectStateView {
            dimensions: dim,
            nodes: self.nodes.map_values(|node: Node| node.placed(dim, self.cell_pos)),
            ..self
        }
    }

    /// Whether every node is where its slot says.
    pub open spec fn settled(self) -> bool {
        forall|i: int|
            0 <= i < self.nodes.len() ==> #[trigger] self.nodes[i] == self.nodes[i].placed(
                self.dimensions,
                self.cell_pos,
            )
    }

    /// Whether neither length is zero, the picture of the object can be
    /// held, and every node is in a slot that the object has.
    pub open spec fn valid(self) -> bool {
        &&& self.dimensions.valid()
        &&& PixelMap::holds(self.dimensions)
        &&& PixelMap::fit(self.nodes, self.dimensions)
    }

    /// Whether `cell` is a cell of the body.
    pub open spec fn in_body(self, cell: CellPos) -> bool {
        &&& self.cell_pos.0 <= cell.0 < self.cell_pos.0 + self.dimensions.0
        &&& self.cell_pos.1 <= cell.1 < self.cell_pos.1 + self.dimensions.1
    }

    /// Whether `cell` is the cell of the slot of one of the nodes.
    pub open spec fn at_node(self, cell: CellPos) -> bool {
        exists|i: int|
            0 <= i < self.nodes.len() && (#[trigger] self.nodes[i]).side.cell(
                self.dimensions,
                self.cell_pos,
            ) == Some(cell)
    }

    /// Whether `cell` is a cell of the body or the cell of a node.
    pub open spec fn contains_cell(self, cell: CellPos) -> bool {
        self.in_body(cell) || self.at_node(cell)
    }

    /// The first node that is recorded as lying at `cell`, if there is one.
    pub open spec fn node_at(self, cell: CellPos) -> Option<Node> {
        Self::first_at(self.nodes, cell, 0)
    }

    /// The first of `nodes`, from `from` on, recorded as lying at `cell`.
    pub open spec fn first_at(nodes: Seq<Node>, cell: CellPos, from: int) -> Option<Node>
        decreases nodes.len() - from,
    {
        if from < 0 || from >= nodes.len() {
            None
        } else if nodes[from].cell_pos == cell {
            Some(nodes[from])
        } else {
            Self::first_at(nodes, cell, from + 1)
        }
    }

    /// The signals by which the first `n` nodes that are outputs send
    /// `value`, in the order of the nodes.
    pub open spec fn outputs_upto(self, value: NodeValue, n: int) -> Seq<ObjectData>
        decreases n,
    {
        if n <= 0 {
            Seq::empty()
        } else {
            let before = self.outputs_upto(value, n - 1);
            if self.nodes[n - 1].direction == NodeDirection::Output {
                before.push(self.nodes[n - 1].output(self.id, value))
            } else {
                before
            }
        }
    }

    /// The signals by which every output node sends `value`.
    pub open spec fn outputs(self, value: NodeValue) -> Seq<ObjectData> {
        self.outputs_upto(value, self.nodes.len() as int)
    }

    /// Every signal that an object sends out of its nodes names the object
    /// and carries the value sent.
    pub proof fn lemma_outputs_name_sender(self, value: NodeValue, n: int)
        requires
            0 <= n <= self.nodes.len(),
        ensures
            forall|k: int|
                0 <= k < self.outputs_upto(value, n).len() ==> ((
                #[trigger] self.outputs_upto(value, n)[k]) matches ObjectData::FromNode(
                    id,
                    _,
                    _,
                    sent,
                ) && id == self.id && sent == value),
        decreases n,
    {
        if n > 0 {
            self.lemma_outputs_name_sender(value, n - 1);
        }
    }
}

impl ObjectState {
    pub fn get_id(&self) -> (id: ObjectId)
        ensures
            id == self@.id,
    {
        self.id
    }

    pub fn get_type(&self) -> (type_of: ObjectType)
        ensures
            type_of == self@.type_of,
    {
        self.type_of
    }

    /// Whether neither length is zero, the picture of the object can be
    /// held, and every node is in a slot that the object has.
    pub fn is_valid(&self) -> (yes: bool)
        ensures
            yes == self@.valid(),
    {
        if !(self.dimensions.width() >= 1 && self.dimensions.height() >= 1 && PixelMap::can_hold(
            self.dimensions,
        )) {
            return false;
        }
        let mut n: usize = 0;
        while n < self.nodes.len()
            invariant
                n <= self.nodes@.len(),
                self.dimensions.valid(),
                PixelMap::holds(self.dimensions),
                forall|k: int| 0 <= k < n ==> (#[trigger] self.nodes@[k]).side.fits(self.dimensions),
            decreases self.nodes@.len() - n,
        {
            let side = self.nodes[n].side;
            if side.value() >= self.dimensions.from_side(side.side()) {
                return false;
            }
            n += 1;
        }
        true
    }

    pub fn get_nodes(&self) -> (nodes: &Vec<Node>)
        ensures
            nodes@ == self@.nodes,
    {
        &self.nodes
    }

    pub fn new_opts(
        id: ObjectId,
        type_of: ObjectType,
        cell_pos: CellPos,
        dimensions: Dimensions,
        default: DefaultValue,
    ) -> (state: Self)
        ensures
            state@ == (ObjectStateView {
                id,
                type_of,
                cell_pos,
                dimensions,
                nodes: Seq::empty(),
                default,
            }),
    {
        ObjectState { id, type_of, cell_pos, dimensions, default, nodes: Vec::new() }
    }

    /// The state that a switch goes back to when it is reset.
    pub fn get_default_saved(&self) -> (saved: bool)
        requires
            self@.default is Bool,
        ensures
            self@.default == DefaultValue::Bool(saved),
    {
        match self.default {
            DefaultValue::Bool(saved) => saved,
            DefaultValue::Null => false,
        }
    }

    pub fn get_default(&self) -> (saved: DefaultValue)
        ensures
            saved == self@.default,
    {
        self.default
    }

    pub fn get_dimensions(&self) -> (dim: Dimensions)
        ensures
            dim == self@.dimensions,
    {
        self.dimensions
    }

    /// Gives the object another size and puts every node at the cell of
    /// its slot.
    pub fn set_dimensions(&mut self, dimensions: Dimensions)
        ensures
            final(self)@ == old(self)@.resized(dimensions),
    {
        self.dimensions = dimensions;
        self.update_nodes();
        assert(final(self)@.nodes =~= old(self)@.resized(dimensions).nodes);
    }

    pub fn get_cell_pos(&self) -> (pos: CellPos)
        ensures
            pos == self@.cell_pos,
    {
        self.cell_pos
    }

    /// Moves the object and puts every node at the cell of its slot.
    pub fn set_cell_pos(&mut self, cell_pos: CellPos)
        ensures
            final(self)@ == old(self)@.moved(cell_pos),
    {
        self.cell_pos = cell_pos;
        self.update_nodes();
        assert(final(self)@.nodes =~= old(self)@.moved(cell_pos).nodes);
    }

    fn update_nodes(&mut self)
        ensures
            final(self).id == old(self).id,
            final(self).type_of == old(self).type_of,
            final(self).cell_pos == old(self).cell_pos,
            final(self).dimensions == old(self).dimensions,
            final(self).default == old(self).default,
            final(self).nodes@.len() == old(self).nodes@.len(),
            forall|i: int|
                0 <= i < old(self).nodes@.len() ==> #[trigger] final(self).nodes@[i] == old(
                    self,
                ).nodes@[i].placed(old(self).dimensions, old(self).cell_pos),
    {
        let obj_dim = self.dimensions;
        let obj_pos = self.cell_pos;
        let mut i: usize = 0;
        while i < self.nodes.len()
            invariant
                i <= self.nodes@.len(),
                self.id == old(self).id,
                self.type_of == old(self).type_of,
                self.cell_pos == old(self).cell_pos,
                self.dimensions == old(self).dimensions,
                self.default == old(self).default,
                obj_dim == self.dimensions,
                obj_pos == self.cell_pos,
                self.nodes@.len() == old(self).nodes@.len(),
                forall|j: int|
                    0 <= j < i ==> #[trigger] self.nodes@[j] == old(self).nodes@[j].placed(
                        obj_dim,
                        obj_pos,
                    ),
                forall|j: int|
                    i <= j < self.nodes@.len() ==> #[trigger] self.nodes@[j] == old(
                        self,
                    ).nodes@[j],
            decreases self.nodes@.len() - i,
        {
            let mut node = self.nodes[i];
            match node.side.get_cell_pos(&obj_dim, obj_pos) {
                Some(pos) => {
                    node.cell_pos = pos;
                    node.is_disabled = false;
                },
                None => {
                    node.cell_pos = (0, 0);
                    node.is_disabled = true;
                },
            }
            self.nodes.set(i, node);
            i += 1;
        }
    }

    /// The first node that is recorded as lying at `cell_pos`.
    pub fn get_node_from_cell_pos(&self, cell_pos: &CellPos) -> (found: Option<Node>)
        ensures
            found == self@.node_at(*cell_pos),
    {
        let mut i: usize = 0;
        while i < self.nodes.len()
            invariant
                i <= self.nodes@.len(),
                ObjectStateView::first_at(self.nodes@, *cell_pos, 0) == ObjectStateView::first_at(
                    self.nodes@,
                    *cell_pos,
                    i as int,
                ),
            decreases self.nodes@.len() - i,
        {
            let node = self.nodes[i];
            if node.cell_pos.0 == cell_pos.0 && node.cell_pos.1 == cell_pos.1 {
                return Some(node);
            }
            i += 1;
        }
        None
    }

    /// Whether `value` is a cell of the body or the cell of a node.
    pub fn is_cell_inside(&self, value: CellPos) -> (inside: bool)
        ensures
            inside == self@.contains_cell(value),
    {
        let (min_x, min_y) = self.cell_pos;
        let (p_x, p_y) = value;
        if p_x >= min_x && p_y >= min_y && p_x - min_x < self.dimensions.width() && p_y - min_y
            < self.dimensions.height() {
            return true;
        }
        let mut i: usize = 0;
        while i < self.nodes.len()
            invariant
                i <= self.nodes@.len(),
                !self@.in_body(value),
                forall|j: int|
                    0 <= j < i ==> (#[trigger] self.nodes@[j]).side.cell(
                        self.dimensions,
                        self.cell_pos,
                    ) != Some(value),
            decreases self.nodes@.len() - i,
        {
            match self.nodes[i].side.get_cell_pos(&self.dimensions, self.cell_pos) {
                Some(cell) => {
                    if cell.0 == value.0 && cell.1 == value.1 {
                        return true;
                    }
                },
                None => {},
            }
            i += 1;
        }
        false
    }

    /// The signals by which every output node sends `value`.
    pub fn send_outputs(&self, value: NodeValue) -> (signals: Vec<ObjectData>)
        ensures
            signals@ == self@.outputs(value),
    {
        let mut signals: Vec<ObjectData> = Vec::new();
        let mut i: usize = 0;
        while i < self.nodes.len()
            invariant
                i <= self.nodes@.len(),
                signals@ == self@.outputs_upto(value, i as int),
            decreases self.nodes@.len() - i,
        {
            let node = &self.nodes[i];
            if node.direction.is_output() {
                signals.push(node.send_output(self.id, value));
            }
            i += 1;
        }
        signals
    }

    pub fn add_node(&mut self, node: Node)
        ensures
            final(self)@ == (ObjectStateView { nodes: old(self)@.nodes.push(node), ..old(self)@ }),
    {
        self.nodes.push(node);
    }

    /// Replaces the nodes.
    pub fn set_nodes(&mut self, nodes: Vec<Node>)
        ensures
            final(self)@ == (ObjectStateView { nodes: nodes@, ..old(self)@ }),
    {
        self.nodes = nodes;
    }
}

/// What an object remembers, by its kind.
pub enum Memory {
    Button,
    /// The value that last reached the light.
    Led(NodeValue),
    /// Whether the switch is on.
    Switch(bool),
    /// The value that last reached the probe, if one has.
    TestObj(Option<NodeValue>),
}

/// An object as a value: what every object has, and what its kind
/// remembers.
pub struct ObjectView {
    pub state: ObjectStateView,
    pub memory: Memory,
}

impl ObjectView {
    /// The colour of a light that is lit.
    pub open spec fn led_lit() -> PixelColor {
        PixelColor(190, 224, 31)
    }

    /// The colour of a light that is dark.
    pub open spec fn led_dark() -> PixelColor {
        PixelColor(80, 100, 15)
    }

    /// The colour of a switch that is on.
    pub open spec fn switch_on() -> PixelColor {
        PixelColor(66, 251, 85)
    }

    /// The colour of a switch that is off.
    pub open spec fn switch_off() -> PixelColor {
        PixelColor(237, 66, 18)
    }

    /// The kind of object that remembers `memory`.
    pub open spec fn kind_of(memory: Memory) -> ObjectType {
        match memory {
            Memory::Button => ObjectType::Button,
            Memory::Led(_) => ObjectType::Led,
            Memory::Switch(_) => ObjectType::Switch,
            Memory::TestObj(_) => ObjectType::TestObj,
        }
    }

    /// Whether the object is sound: its state is valid, its kind is the one
    /// its state names, and a switch has a state to go back to.
    pub open spec fn valid(self) -> bool {
        &&& self.state.valid()
        &&& self.state.type_of == Self::kind_of(self.memory)
        &&& self.memory is Switch ==> self.state.default is Bool
    }

    /// What the object shows to the outside: whether a light is lit,
    /// whether a switch is on, what last reached a probe. A button shows
    /// nothing.
    pub open spec fn current_value(self) -> NodeValue {
        match self.memory {
            Memory::Button => NodeValue::Gpio(false),
            Memory::Led(last) => last,
            Memory::Switch(active) => NodeValue::Gpio(active),
            Memory::TestObj(last) => match last {
                Some(value) => value,
                None => NodeValue::Gpio(false),
            },
        }
    }

    /// The colour of the body, for the kinds that have one of their own.
    pub open spec fn body_color(self) -> Option<PixelColor> {
        match self.memory {
            Memory::Led(last) => Some(
                if last.active() {
                    Self::led_lit()
                } else {
                    Self::led_dark()
                },
            ),
            Memory::Switch(active) => Some(
                if active {
                    Self::switch_on()
                } else {
                    Self::switch_off()
                },
            ),
            _ => None,
        }
    }

    /// The picture before the nodes are put in: the body, in its own
    /// colour or in the common one.
    pub open spec fn body(self) -> Seq<Option<PixelType>> {
        let dim = self.state.dimensions;
        match self.body_color() {
            Some(color) => PixelMap::framed(
                dim,
                Seq::new((dim.0 * dim.1) as nat, |i: int| PixelType::Custom(color)),
            ),
            None => PixelMap::with_body(PixelMap::blank(dim), dim.0 + 2),
        }
    }

    /// The picture of the object: its body, in its own colour or in the
    /// common one, and its nodes around it.
    pub open spec fn picture(self) -> Seq<Option<PixelType>> {
        PixelMap::with_nodes(self.body(), self.state.dimensions.0 + 2, self.state.nodes)
    }

    /// The cells that the object covers, each with what it holds there.
    pub open spec fn footprint(self) -> Seq<(CellPos, PixelType)> {
        PixelMap::stamped(
            self.picture(),
            self.state.dimensions.0 + 2,
            self.state.cell_pos,
            (self.state.dimensions.0 + 2) * (self.state.dimensions.1 + 2),
        )
    }

    /// The cells that the object covers.
    pub open spec fn footprint_cells(self) -> Seq<CellPos> {
        self.footprint().map_values(|entry: (CellPos, PixelType)| entry.0)
    }

    /// Whether the two objects cover a cell in common.
    pub open spec fn overlaps(self, other: ObjectView) -> bool {
        exists|i: int, j: int|
            0 <= i < self.footprint_cells().len() && 0 <= j < other.footprint_cells().len()
                && self.footprint_cells()[i] == other.footprint_cells()[j]
    }

    /// Whether the object reacts to clicks and ticks. The probe does not.
    pub open spec fn tickable(self) -> bool {
        !(self.memory is TestObj)
    }

    /// Whether a click does something to the object.
    pub open spec fn clickable(self) -> bool {
        self.memory is Button || self.memory is Switch
    }

    /// The object after `value` has reached one of its inputs. A light and
    /// a probe remember the value; a button and a switch take no notice.
    pub open spec fn after_receive(self, value: NodeValue) -> ObjectView {
        match self.memory {
            Memory::Led(_) => ObjectView { memory: Memory::Led(value), ..self },
            Memory::TestObj(_) => ObjectView { memory: Memory::TestObj(Some(value)), ..self },
            _ => self,
        }
    }

    /// What the object sends on when `value` reaches one of its inputs: a
    /// light and a probe send it out of every output.
    pub open spec fn sent_on_receive(self, value: NodeValue) -> Seq<ObjectData> {
        match self.memory {
            Memory::Led(_) => self.state.outputs(value),
            Memory::TestObj(_) => self.state.outputs(value),
            _ => Seq::empty(),
        }
    }

    /// The object after it has been told of `event`. A click turns a
    /// switch over; the tick of the frame makes a light go dark.
    pub open spec fn after_tick(self, event: ObjectUpdateEvent) -> ObjectView {
        match self.memory {
            Memory::Switch(active) => if event is MouseClickObject {
                ObjectView { memory: Memory::Switch(!active), ..self }
            } else {
                self
            },
            Memory::Led(_) => if event is GlobalTick {
                ObjectView { memory: Memory::Led(NodeValue::Gpio(false)), ..self }
            } else {
                self
            },
            _ => self,
        }
    }

    /// What the object sends when it is told of `event`: a button sends
    /// an active value out of every output when it is clicked; a switch
    /// that is on sends one with every tick of the frame.
    pub open spec fn sent_on_tick(self, event: ObjectUpdateEvent) -> Seq<ObjectData> {
        match self.memory {
            Memory::Button => if event is MouseClickObject {
                self.state.outputs(NodeValue::Gpio(true))
            } else {
                Seq::empty()
            },
            Memory::Switch(active) => if active && event is GlobalTick {
                self.state.outputs(NodeValue::Gpio(true))
            } else {
                Seq::empty()
            },
            _ => Seq::empty(),
        }
    }

    /// The object after a reset: a light is dark, a switch is as it was
    /// made, a probe has forgotten what reached it. A button has nothing
    /// to forget.
    pub open spec fn after_reset(self) -> ObjectView {
        match self.memory {
            Memory::Led(_) => ObjectView { memory: Memory::Led(NodeValue::Gpio(false)), ..self },
            Memory::Switch(_) => match self.state.default {
                DefaultValue::Bool(saved) => ObjectView { memory: Memory::Switch(saved), ..self },
                DefaultValue::Null => self,
            },
            Memory::TestObj(_) => ObjectView { memory: Memory::TestObj(None), ..self },
            Memory::Button => self,
        }
    }

    /// No object covers a cell with wire of its own.
    pub proof fn lemma_footprint_wireless(self)
        requires
            self.state.valid(),
        ensures
            forall|k: int|
                0 <= k < self.footprint().len() ==> !((#[trigger] self.footprint()[k]).1 is Wire),
    {
        let dim = self.state.dimensions;
        let body = match self.body_color() {
            Some(color) => PixelMap::framed(
                dim,
                Seq::new((dim.0 * dim.1) as nat, |i: int| PixelType::Custom(color)),
            ),
            None => PixelMap::with_body(PixelMap::blank(dim), dim.0 + 2),
        };
        assert((dim.0 + 2) * (dim.1 + 2) >= 0) by (nonlinear_arith)
            requires
                dim.0 >= 0,
                dim.1 >= 0,
        ;
        match self.body_color() {
            Some(color) => {
                assert forall|i: int| 0 <= i < body.len() implies !((#[trigger] body[i]) matches Some(
                    kind,
                ) && kind is Wire) by {
                    let row = i / (dim.0 + 2);
                    let col = i % (dim.0 + 2);
                    if 1 <= row <= dim.1 && 1 <= col <= dim.0 {
                        assert(0 <= (row - 1) * dim.0 + (col - 1) < dim.0 * dim.1)
                            by (nonlinear_arith)
                            requires
                                1 <= row <= dim.1,
                                1 <= col <= dim.0,
                        ;
                    }
                }
            },
            None => {},
        }
        PixelMap::lemma_fitting_nodes_are_taken(self.state.nodes, dim);
        PixelMap::lemma_with_nodes_wireless(body, dim.0 + 2, self.state.nodes);
        PixelMap::lemma_stamped_wireless(
            self.picture(),
            dim.0 + 2,
            self.state.cell_pos,
            (dim.0 + 2) * (dim.1 + 2),
        );
    }

    /// The body of the picture holds something just inside the ring.
    proof fn lemma_body_is_inside(self, i: int)
        requires
            self.state.valid(),
            0 <= i < (self.state.dimensions.0 + 2) * (self.state.dimensions.1 + 2),
        ensures
            self.body()[i] is Some <==> PixelMap::inside(i, self.state.dimensions),
            self.body().len() == (self.state.dimensions.0 + 2) * (self.state.dimensions.1 + 2),
    {
        let dim = self.state.dimensions;
        let width = dim.0 + 2;
        let len = (dim.0 + 2) * (dim.1 + 2);
        lemma_fundamental_div_mod(i, width);
        let row = i / width;
        let col = i % width;
        assert(0 <= row <= dim.1 + 1 && (row >= 1 <==> i >= width) && (row <= dim.1 <==> i < len
            - width)) by (nonlinear_arith)
            requires
                i == width * row + col,
                0 <= col < width,
                0 <= i < len,
                len == width * (dim.1 + 2),
                width >= 3,
        ;
    }

    /// Where in the picture a slot lies, by row and column: the top row
    /// and the bottom row of the ring hold the slots of the top and of the
    /// bottom, the first and the last column those of the left and of the
    /// right.
    proof fn lemma_slot_in_ring(self, side: NodeObjectSide)
        requires
            self.state.valid(),
            side.fits(self.state.dimensions),
        ensures
            ({
                let dim = self.state.dimensions;
                let at = PixelMap::node_index(side, dim.0 + 2, (dim.0 + 2) * (dim.1 + 2));
                &&& 0 <= at < (dim.0 + 2) * (dim.1 + 2)
                &&& at % (dim.0 + 2) - 1 == side.cell_x(dim, self.state.cell_pos)
                    - self.state.cell_pos.0
                &&& at / (dim.0 + 2) - 1 == side.cell_y(dim, self.state.cell_pos)
                    - self.state.cell_pos.1
            }),
    {
        let dim = self.state.dimensions;
        let width = dim.0 + 2;
        let len = (dim.0 + 2) * (dim.1 + 2);
        let at = PixelMap::node_index(side, width, len);
        let v = side.spec_value();
        let (row, col): (int, int) = match side {
            NodeObjectSide::Top(_) => (0, 1 + v),
            NodeObjectSide::Bottom(_) => (dim.1 + 1, dim.0 - v),
            NodeObjectSide::Right(_) => (v + 1, dim.0 + 1),
            NodeObjectSide::Left(_) => (dim.1 - v, 0),
        };
        assert(at == row * width + col && 0 <= col < width && 0 <= at < len) by (nonlinear_arith)
            requires
                width == dim.0 + 2,
                len == (dim.0 + 2) * (dim.1 + 2),
                dim.0 >= 1,
                dim.1 >= 1,
                0 <= v,
                side.spec_side() == Side::Top || side.spec_side() == Side::Bottom ==> v < dim.0,
                side.spec_side() == Side::Left || side.spec_side() == Side::Right ==> v < dim.1,
                at == match side {
                    NodeObjectSide::Top(_) => 1 + v,
                    NodeObjectSide::Bottom(_) => len - v - 2,
                    NodeObjectSide::Right(_) => width * 2 + width * v - 1,
                    NodeObjectSide::Left(_) => len - width * 2 - width * v,
                },
                (row, col) == match side {
                    NodeObjectSide::Top(_) => (0, 1 + v),
                    NodeObjectSide::Bottom(_) => (dim.1 + 1, dim.0 - v),
                    NodeObjectSide::Right(_) => (v + 1, dim.0 + 1),
                    NodeObjectSide::Left(_) => (dim.1 - v, 0int),
                },
        ;
        lemma_fundamental_div_mod_converse(at, width, row, col);
    }

    /// An object covers just the cells that it contains: the footprint is
    /// made of the cells of the body and the cells of the nodes, as far as
    /// they lie on the grid, and of nothing else.
    pub proof fn lemma_footprint_is_what_is_contained(self, cell: CellPos)
        requires
            self.state.valid(),
        ensures
            self.footprint_cells().contains(cell) <==> self.state.contains_cell(cell),
    {
        let dim = self.state.dimensions;
        let pos = self.state.cell_pos;
        let nodes = self.state.nodes;
        let width = dim.0 + 2;
        let len = (dim.0 + 2) * (dim.1 + 2);
        let picture = self.picture();
        let body = self.body();
        assert(len >= 9) by (nonlinear_arith)
            requires
                len == (dim.0 + 2) * (dim.1 + 2),
                dim.0 >= 1,
                dim.1 >= 1,
        ;
        PixelMap::lemma_fitting_nodes_are_taken(nodes, dim);
        PixelMap::lemma_with_nodes_some(body, width, nodes, 0);
        PixelMap::lemma_stamped_has(picture, width, pos, len, cell);
        if self.footprint_cells().contains(cell) {
            let i = choose|i: int|
                0 <= i < len && PixelMap::lies_at(
                    #[trigger] PixelMap::placed(picture, width, pos, i),
                    cell,
                );
            PixelMap::lemma_with_nodes_some(body, width, nodes, i);
            self.lemma_body_is_inside(i);
            if body[i] is Some {
            } else {
                let k = choose|k: int|
                    0 <= k < nodes.len() && #[trigger] PixelMap::node_index(
                        nodes[k].side,
                        width,
                        len,
                    ) == i;
                self.lemma_slot_in_ring(nodes[k].side);
            }
        }
        if self.state.in_body(cell) {
            let row = cell.1 - pos.1 + 1;
            let col = cell.0 - pos.0 + 1;
            let i = row * width + col;
            assert(0 <= i < len) by (nonlinear_arith)
                requires
                    i == row * width + col,
                    1 <= row <= dim.1,
                    1 <= col <= dim.0,
                    width == dim.0 + 2,
                    len == (dim.0 + 2) * (dim.1 + 2),
            ;
            lemma_fundamental_div_mod_converse(i, width, row, col);
            self.lemma_body_is_inside(i);
            PixelMap::lemma_with_nodes_some(body, width, nodes, i);
            assert(PixelMap::lies_at(PixelMap::placed(picture, width, pos, i), cell));
        }
        if self.state.at_node(cell) {
            let k = choose|k: int|
                0 <= k < nodes.len() && (#[trigger] nodes[k]).side.cell(dim, pos) == Some(cell);
            let side = nodes[k].side;
            self.lemma_slot_in_ring(side);
            let i = PixelMap::node_index(side, width, len);
            PixelMap::lemma_with_nodes_some(body, width, nodes, i);
            assert(PixelMap::lies_at(PixelMap::placed(picture, width, pos, i), cell));
        }
    }

    /// Two objects overlap just when there is a cell that both contain.
    pub proof fn lemma_overlap_is_a_shared_cell(self, other: ObjectView)
        requires
            self.state.valid(),
            other.state.valid(),
        ensures
            self.overlaps(other) <==> exists|cell: CellPos|
                #[trigger] self.state.contains_cell(cell) && other.state.contains_cell(cell),
    {
        if self.overlaps(other) {
            let (i, j) = choose|i: int, j: int|
                0 <= i < self.footprint_cells().len() && 0 <= j < other.footprint_cells().len()
                    && self.footprint_cells()[i] == other.footprint_cells()[j];
            let cell = self.footprint_cells()[i];
            self.lemma_footprint_is_what_is_contained(cell);
            other.lemma_footprint_is_what_is_contained(cell);
        }
        if exists|cell: CellPos|
            #[trigger] self.state.contains_cell(cell) && other.state.contains_cell(cell) {
            let cell = choose|cell: CellPos|
                #[trigger] self.state.contains_cell(cell) && other.state.contains_cell(cell);
            self.lemma_footprint_is_what_is_contained(cell);
            other.lemma_footprint_is_what_is_contained(cell);
        }
    }

    /// The object at `pos`.
    pub open spec fn moved(self, pos: CellPos) -> ObjectView {
        ObjectView { state: self.state.moved(pos), ..self }
    }

    /// The object in the size `dim`.
    pub open spec fn resized(self, dim: Dimensions) -> ObjectView {
        ObjectView { state: self.state.resized(dim), ..self }
    }
}

/// A body of the size `dim` in which every cell holds `pixel`.
pub(crate) fn filled_body(dim: Dimensions, pixel: PixelType) -> (body: Vec<PixelType>)
    requires
        PixelMap::holds(dim),
    ensures
        body@ == Seq::new((dim.0 * dim.1) as nat, |i: int| pixel),
{
    assert(0 <= dim.0 * dim.1 <= (dim.0 + 2) * (dim.1 + 2)) by (nonlinear_arith);
    let count = dim.width() * dim.height();
    let mut body: Vec<PixelType> = Vec::new();
    let mut i: usize = 0;
    while i < count
        invariant
            i <= count,
            body@ == Seq::new(i as nat, |i: int| pixel),
        decreases count - i,
    {
        body.push(pixel);
        i += 1;
    }
    body
}

/// An object of any kind.
#[derive(Debug)]
pub enum Object {
    Button(ButtonState),
    Led(LedState),
    Switch(SwitchState),
    TestObj(TestObjState),
}

impl View for Object {
    type V = ObjectView;

    open spec fn view(&self) -> ObjectView {
        match self {
            Object::Button(item) => item@,
            Object::Led(item) => item@,
            Object::Switch(item) => item@,
            Object::TestObj(item) => item@,
        }
    }
}

impl Object {
    /// Each kind of object remembers what its kind does.
    pub proof fn lemma_kind(&self)
        ensures
            *self is Button <==> self@.memory is Button,
            *self is Led <==> self@.memory is Led,
            *self is Switch <==> self@.memory is Switch,
            *self is TestObj <==> self@.memory is TestObj,
    {
        match self {
            Object::Button(item) => item.lemma_kind(),
            Object::Led(item) => item.lemma_kind(),
            Object::Switch(item) => item.lemma_kind(),
            Object::TestObj(item) => item.lemma_kind(),
        }
    }

    pub fn get_object_state(&self) -> (state: &ObjectState)
        ensures
            state@ == self@.state,
    {
        match self {
            Object::Button(item) => item.get_object_state(),
            Object::Led(item) => item.get_object_state(),
            Object::Switch(item) => item.get_object_state(),
            Object::TestObj(item) => item.get_object_state(),
        }
    }

    pub fn get_object_state_mut(&mut self) -> (state: &mut ObjectState)
        ensures
            state@ == old(self)@.state,
            final(self)@ == (ObjectView { state: final(state)@, ..old(self)@ }),
    {
        match self {
            Object::Button(item) => item.get_object_state_mut(),
            Object::Led(item) => item.get_object_state_mut(),
            Object::Switch(item) => item.get_object_state_mut(),
            Object::TestObj(item) => item.get_object_state_mut(),
        }
    }

    pub fn get_id(&self) -> (id: ObjectId)
        ensures
            id == self@.state.id,
    {
        let state = self.get_object_state();
        state.id
    }

    pub fn get_dimensions(&self) -> (dim: Dimensions)
        ensures
            dim == self@.state.dimensions,
    {
        self.get_object_state().get_dimensions()
    }

    /// Gives the object another size and puts every node at the cell of
    /// its slot.
    pub fn set_dimensions(&mut self, dimensions: Dimensions)
        ensures
            final(self)@ == old(self)@.resized(dimensions),
    {
        match self {
            Object::Button(item) => item.set_dimensions(dimensions),
            Object::Led(item) => item.set_dimensions(dimensions),
            Object::Switch(item) => item.set_dimensions(dimensions),
            Object::TestObj(item) => item.set_dimensions(dimensions),
        }
    }

    pub fn get_cell_pos(&self) -> (pos: CellPos)
        ensures
            pos == self@.state.cell_pos,
    {
        self.get_object_state().get_cell_pos()
    }

    /// Moves the object and puts every node at the cell of its slot.
    pub fn set_cell_pos(&mut self, cell_pos: CellPos)
        ensures
            final(self)@ == old(self)@.moved(cell_pos),
    {
        match self {
            Object::Button(item) => item.set_cell_pos(cell_pos),
            Object::Led(item) => item.set_cell_pos(cell_pos),
            Object::Switch(item) => item.set_cell_pos(cell_pos),
            Object::TestObj(item) => item.set_cell_pos(cell_pos),
        }
    }

    /// The first node that is recorded as lying at `cell_pos`.
    pub fn get_node_from_cell_pos(&self, cell_pos: &CellPos) -> (found: Option<Node>)
        ensures
            found == self@.state.node_at(*cell_pos),
    {
        self.get_object_state().get_node_from_cell_pos(cell_pos)
    }

    /// The picture of the object.
    pub fn pixel_map(&self) -> (picture: PixelMap)
        requires
            self@.state.valid(),
        ensures
            picture.shaped(self@.state.dimensions),
            picture.cells() == self@.picture(),
    {
        match self {
            Object::Button(item) => item.pixel_map(),
            Object::Led(item) => item.pixel_map(),
            Object::Switch(item) => item.pixel_map(),
            Object::TestObj(item) => item.pixel_map(),
        }
    }

    pub fn name(&self) -> (name: String)
        ensures
            name@ == match self@.memory {
                Memory::Button => "Button"@,
                Memory::Led(_) => "LED"@,
                Memory::Switch(_) => "Switch"@,
                Memory::TestObj(_) => "TestObj"@,
            },
    {
        proof {
            self.lemma_kind();
        }
        match self {
            Object::Button(item) => item.name(),
            Object::Led(item) => item.name(),
            Object::Switch(item) => item.name(),
            Object::TestObj(item) => item.name(),
        }
    }

    pub fn display_name(&self) -> (name: String)
        ensures
            name@ == match self@.memory {
                Memory::Button => "Btn"@,
                Memory::Led(_) => "LED"@,
                Memory::Switch(active) => if active {
                    "1"@
                } else {
                    "0"@
                },
                Memory::TestObj(_) => "Test"@,
            },
    {
        proof {
            self.lemma_kind();
        }
        match self {
            Object::Button(item) => item.display_name(),
            Object::Led(item) => item.display_name(),
            Object::Switch(item) => item.display_name(),
            Object::TestObj(item) => item.display_name(),
        }
    }

    /// Hands the object a value that has reached one of its inputs, and
    /// returns what the object sends on. `None` says the same as no
    /// signals.
    pub fn on_receive(&mut self, node_side: NodeObjectSide, value: NodeValue) -> (signals: Option<
        Vec<ObjectData>,
    >)
        ensures
            final(self)@ == old(self)@.after_receive(value),
            match signals {
                Some(sent) => sent@ == old(self)@.sent_on_receive(value),
                None => old(self)@.sent_on_receive(value).len() == 0,
            },
    {
        proof {
            self.lemma_kind();
        }
        match self {
            Object::Button(_) => None,
            Object::Led(item) => item.on_receive(node_side, value),
            Object::Switch(_) => None,
            Object::TestObj(item) => item.on_receive(node_side, value),
        }
    }

    pub fn current_value(&self) -> (value: NodeValue)
        ensures
            value == self@.current_value(),
    {
        match self {
            Object::Button(item) => item.current_value(),
            Object::Led(item) => item.current_value(),
            Object::Switch(item) => item.current_value(),
            Object::TestObj(item) => item.current_value(),
        }
    }

    /// Puts what the object remembers as it was when the object was made.
    pub fn reset_values(&mut self)
        requires
            old(self)@.memory is Switch ==> old(self)@.state.default is Bool,
        ensures
            final(self)@ == old(self)@.after_reset(),
    {
        proof {
            self.lemma_kind();
        }
        match self {
            Object::Button(_) => {},
            Object::Led(item) => item.reset_values(),
            Object::Switch(item) => item.reset_values(),
            Object::TestObj(item) => item.reset_values(),
        }
    }

    /// Whether the two objects cover a cell in common.
    pub fn is_overlapping(&self, other: &Object) -> (overlapping: bool)
        requires
            self@.state.valid(),
            other@.state.valid(),
        ensures
            overlapping == self@.overlaps(other@),
    {
        let pix_pos_this = self.pixel_map().pixel_positions(self.get_cell_pos());
        let pix_pos_other = other.pixel_map().pixel_positions(other.get_cell_pos());
        let mut i: usize = 0;
        while i < pix_pos_this.len()
            invariant
                i <= pix_pos_this@.len(),
                pix_pos_this@ == self@.footprint_cells(),
                pix_pos_other@ == other@.footprint_cells(),
                forall|a: int, b: int|
                    0 <= a < i && 0 <= b < pix_pos_other@.len() ==> pix_pos_this@[a]
                        != pix_pos_other@[b],
            decreases pix_pos_this@.len() - i,
        {
            let pos = pix_pos_this[i];
            let mut j: usize = 0;
            while j < pix_pos_other.len()
                invariant
                    i < pix_pos_this@.len(),
                    j <= pix_pos_other@.len(),
                    pix_pos_this@ == self@.footprint_cells(),
                    pix_pos_other@ == other@.footprint_cells(),
                    pos == pix_pos_this@[i as int],
                    forall|b: int| 0 <= b < j ==> pos != pix_pos_other@[b],
                decreases pix_pos_other@.len() - j,
            {
                let there = pix_pos_other[j];
                if there.0 == pos.0 && there.1 == pos.1 {
                    return true;
                }
                j += 1;
            }
            i += 1;
        }
        false
    }

    /// Whether `value` is a cell of the body or the cell of a node.
    pub fn is_cell_inside(&self, value: CellPos) -> (inside: bool)
        ensures
            inside == self@.state.contains_cell(value),
    {
        self.get_object_state().is_cell_inside(value)
    }

    pub fn add_node(&mut self, node: Node)
        ensures
            final(self)@ == (ObjectView {
                state: ObjectStateView {
                    nodes: old(self)@.state.nodes.push(node),
                    ..old(self)@.state
                },
                ..old(self)@
            }),
    {
        match self {
            Object::Button(item) => item.add_node(node),
            Object::Led(item) => item.add_node(node),
            Object::Switch(item) => item.add_node(node),
            Object::TestObj(item) => item.add_node(node),
        }
    }

    /// Replaces the nodes.
    pub fn set_nodes(&mut self, nodes: Vec<Node>)
        ensures
            final(self)@ == (ObjectView {
                state: ObjectStateView { nodes: nodes@, ..old(self)@.state },
                ..old(self)@
            }),
    {
        match self {
            Object::Button(item) => item.set_nodes(nodes),
            Object::Led(item) => item.set_nodes(nodes),
            Object::Switch(item) => item.set_nodes(nodes),
            Object::TestObj(item) => item.set_nodes(nodes),
        }
    }

    /// Whether the object is sound: its state is valid, its kind is the
    /// one its state names, and a switch has a state to go back to.
    pub fn is_valid(&self) -> (yes: bool)
        ensures
            yes == self@.valid(),
    {
        proof {
            self.lemma_kind();
        }
        let state = self.get_object_state();
        if !state.is_valid() {
            return false;
        }
        match self {
            Object::Button(_) => state.get_type() == ObjectType::Button,
            Object::Led(_) => state.get_type() == ObjectType::Led,
            Object::Switch(_) => state.get_type() == ObjectType::Switch && match state.get_default() {
                DefaultValue::Bool(_) => true,
                DefaultValue::Null => false,
            },
            Object::TestObj(_) => state.get_type() == ObjectType::TestObj,
        }
    }

    /// Whether the object reacts to clicks and ticks.
    pub fn is_tickable(&self) -> (yes: bool)
        ensures
            yes == self@.tickable(),
    {
        proof {
            self.lemma_kind();
        }
        match self {
            Object::TestObj(_) => false,
            _ => true,
        }
    }

    /// Tells the object of `event` and returns what it sends. An object
    /// that is not tickable takes no notice.
    pub fn tick(&mut self, event: ObjectUpdateEvent) -> (signals: Vec<ObjectData>)
        ensures
            final(self)@ == old(self)@.after_tick(event),
            signals@ == old(self)@.sent_on_tick(event),
    {
        proof {
            self.lemma_kind();
        }
        match self {
            Object::Button(item) => item.tick(event),
            Object::Led(item) => item.tick(event),
            Object::Switch(item) => item.tick(event),
            Object::TestObj(_) => Vec::new(),
        }
    }

    /// Whether a click does something to the object.
    pub fn is_clickable(&self) -> (yes: bool)
        ensures
            yes == self@.clickable(),
    {
        proof {
            self.lemma_kind();
        }
        match self {
            Object::Button(item) => item.is_clickable(),
            Object::Led(item) => item.is_clickable(),
            Object::Switch(item) => item.is_clickable(),
            Object::TestObj(_) => false,
        }
    }
}

/// The nodes that an object of the kind `type_of` is made with.
pub open spec fn first_nodes(type_of: ObjectType) -> Seq<Node> {
    match type_of {
        ObjectType::Button => ButtonState::first_nodes(),
        ObjectType::Led => LedState::first_nodes(),
        ObjectType::Switch => SwitchState::first_nodes(),
        _ => TestObjState::first_nodes(),
    }
}

/// An object of the kind `type_of` as it is made: with the nodes of its
/// kind, none of them placed yet, and in the size of its kind where none is
/// given.
pub open spec fn made(
    id: ObjectId,
    type_of: ObjectType,
    position: CellPos,
    dimensions: Option<Dimensions>,
) -> ObjectView {
    let bare = match type_of {
        ObjectType::Button => ButtonState::made(id, position, dimensions),
        ObjectType::Led => LedState::made(id, position, dimensions),
        ObjectType::Switch => SwitchState::made(id, position, dimensions),
        _ => TestObjState::made(id, position, dimensions),
    };
    ObjectView { state: ObjectStateView { nodes: first_nodes(type_of), ..bare.state }, ..bare }
}

/// A new object of the kind `type_of` at the cell (5, 5), with a fresh
/// identifier.
pub fn create_new_object_from_type(type_of: ObjectType, ids: &mut IdCounter) -> (object: Object)
    requires
        type_of.available(),
        old(ids).upcoming() < usize::MAX,
    ensures
        object@ == made(ObjectId(old(ids).upcoming()), type_of, (5, 5), None),
        final(ids).upcoming() == old(ids).upcoming() + 1,
{
    let position = (5, 5);
    let id = ObjectId::gen_id(ids);
    create_new_object(id, type_of, position, None)
}

/// A new object of the kind `type_of`.
pub fn create_new_object(
    id: ObjectId,
    type_of: ObjectType,
    position: CellPos,
    dimensions: Option<Dimensions>,
) -> (object: Object)
    requires
        type_of.available(),
    ensures
        object@ == made(id, type_of, position, dimensions),
{
    match type_of {
        ObjectType::TestObj => Object::TestObj(
            TestObjState::new_with_nodes(id, position, dimensions),
        ),
        ObjectType::Switch => Object::Switch(SwitchState::new_with_nodes(id, position, dimensions)),
        ObjectType::Button => Object::Button(ButtonState::new_with_nodes(id, position, dimensions)),
        _ => Object::Led(LedState::new_with_nodes(id, position, dimensions)),
    }
}

/// An object as it is made is sound if its size is: neither length zero,
/// small enough for its picture to be held, and high enough for the slots
/// of its nodes, which a probe has in the second place.
pub proof fn lemma_made_objects_are_valid(
    id: ObjectId,
    type_of: ObjectType,
    position: CellPos,
    dimensions: Option<Dimensions>,
)
    requires
        type_of.available(),
    ensures
        ({
            let object = made(id, type_of, position, dimensions);
            let dim = object.state.dimensions;
            object.valid() <==> dim.valid() && PixelMap::holds(dim) && (type_of
                == ObjectType::TestObj ==> dim.1 >= 2)
        }),
        dimensions is None ==> made(id, type_of, position, dimensions).valid(),
{
    let object = made(id, type_of, position, dimensions);
    let dim = object.state.dimensions;
    if dimensions is None {
        assert((dim.0 + 2) * (dim.1 + 2) <= 25) by (nonlinear_arith)
            requires
                dim.0 <= 3,
                dim.1 <= 3,
        ;
    }
}

} // verus!
