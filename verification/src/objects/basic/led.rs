//! The light: lit by an active value, dark again with the next tick of
//! the frame unless the value keeps coming.

use crate::canvas::pixels::map::PixelMap;
use crate::canvas::pixels::util::{PixelColor, PixelType};
use crate::objects::filled_body;
use crate::editor::node::Node;
use crate::ids::ObjectId;
use crate::object::{NodeValue, NodeValueTypes, ObjectType};
use crate::objects::{
    DefaultValue, Memory, ObjectData, ObjectState, ObjectStateView, ObjectUpdateEvent, ObjectView,
};
use crate::size::{CellPos, Dimensions, NodeDirection, NodeObjectSide};
use vstd::prelude::*;
use vstd::string::StringExecFns;

verus! {

#[derive(Debug)]
pub struct LedState {
    state: ObjectState,
    last_value: NodeValue,
}

impl View for LedState {
    type V = ObjectView;

    closed spec fn view(&self) -> ObjectView {
        ObjectView { state: self.state@, memory: Memory::Led(self.last_value) }
    }
}

impl LedState {
    /// The nodes a light is made with: an input on the left and an output
    /// on the right.
    pub open spec fn first_nodes() -> Seq<Node> {
        seq![
            Node {
                cell_pos: (0, 0),
                side: NodeObjectSide::Left(0),
                direction: NodeDirection::Input,
                accepts: NodeValueTypes::GpioOrCurrent,
                is_disabled: false,
            },
            Node {
                cell_pos: (0, 0),
                side: NodeObjectSide::Right(0),
                direction: NodeDirection::Output,
                accepts: NodeValueTypes::GpioOrCurrent,
                is_disabled: false,
            },
        ]
    }

    /// The light as it is made, before it has nodes: dark.
    pub open spec fn made(
        id: ObjectId,
        position: CellPos,
        dimensions: Option<Dimensions>,
    ) -> ObjectView {
        ObjectView {
            state: ObjectStateView {
                id,
                type_of: ObjectType::Led,
                cell_pos: position,
                dimensions: match dimensions {
                    Some(dim) => dim,
                    None => Dimensions(1, 1),
                },
                nodes: Seq::empty(),
                default: DefaultValue::Null,
            },
            memory: Memory::Led(NodeValue::Gpio(false)),
        }
    }

    /// A light remembers a value.
    pub proof fn lemma_kind(&self)
        ensures
            self@.memory is Led,
    {
    }

    pub fn default_dim() -> (dim: Dimensions)
        ensures
            dim == Dimensions(1, 1),
    {
        Dimensions(1, 1)
    }

    pub fn new_with_opts(id: ObjectId, position: CellPos, dimensions: Option<Dimensions>) -> (item:
        Self)
        ensures
            item@ == Self::made(id, position, dimensions),
    {
        let dim = match dimensions {
            Some(dim) => dim,
            None => Self::default_dim(),
        };
        LedState {
            state: ObjectState::new_opts(id, ObjectType::Led, position, dim, DefaultValue::Null),
            last_value: NodeValue::Gpio(false),
        }
    }

    pub fn new_with_nodes(id: ObjectId, position: CellPos, dimensions: Option<Dimensions>) -> (item:
        Self)
        ensures
            item@.state == (ObjectStateView {
                nodes: Self::first_nodes(),
                ..Self::made(id, position, dimensions).state
            }),
            item@.memory == Memory::Led(NodeValue::Gpio(false)),
    {
        let mut item = Self::new_with_opts(id, position, dimensions);
        item.add_node(Node::new_input(NodeObjectSide::Left(0), NodeValueTypes::GpioOrCurrent));
        item.add_node(Node::new_output(NodeObjectSide::Right(0), NodeValueTypes::GpioOrCurrent));
        assert(item@.state.nodes =~= Self::first_nodes());
        item
    }

    pub fn is_lit(&self) -> (lit: bool)
        ensures
            lit == self@.current_value().active(),
    {
        self.last_value.is_active()
    }

    pub fn get_object_state(&self) -> (state: &ObjectState)
        ensures
            state@ == self@.state,
    {
        &self.state
    }

    pub fn get_object_state_mut(&mut self) -> (state: &mut ObjectState)
        ensures
            state@ == old(self)@.state,
            final(self)@ == (ObjectView { state: final(state)@, ..old(self)@ }),
    {
        &mut self.state
    }

    pub fn set_cell_pos(&mut self, cell_pos: CellPos)
        ensures
            final(self)@ == old(self)@.moved(cell_pos),
    {
        self.state.set_cell_pos(cell_pos);
    }

    pub fn set_dimensions(&mut self, dimensions: Dimensions)
        ensures
            final(self)@ == old(self)@.resized(dimensions),
    {
        self.state.set_dimensions(dimensions);
    }

    pub fn add_node(&mut self, node: Node)
        ensures
            final(self)@ == (ObjectView {
                state: ObjectStateView {
                    nodes: old(self)@.state.nodes.push(node),
                    ..old(self)@.state
                },
                ..old(self)@
            }),
    {
        self.state.add_node(node);
    }

    pub fn set_nodes(&mut self, nodes: Vec<Node>)
        ensures
            final(self)@ == (ObjectView {
                state: ObjectStateView { nodes: nodes@, ..old(self)@.state },
                ..old(self)@
            }),
    {
        self.state.set_nodes(nodes);
    }

    /// The body in the colour of a lit or of a dark light, and the nodes
    /// around it.
    pub fn pixel_map(&self) -> (picture: PixelMap)
        requires
            self@.state.valid(),
        ensures
            picture.shaped(self@.state.dimensions),
            picture.cells() == self@.picture(),
    {
        let pixel = PixelType::Custom(
            if self.is_lit() {
                PixelColor(190, 224, 31)
            } else {
                PixelColor(80, 100, 15)
            },
        );
        let dim = self.state.get_dimensions();
        PixelMap::generate_with_object_map(dim, filled_body(dim, pixel), self.state.nodes.as_slice())
    }

    pub fn current_value(&self) -> (value: NodeValue)
        ensures
            value == self@.current_value(),
    {
        self.last_value
    }

    /// Remembers `value` and sends it out of every output. The result is
    /// `None` where there is no output to send it from.
    pub fn on_receive(&mut self, side: NodeObjectSide, value: NodeValue) -> (signals: Option<
        Vec<ObjectData>,
    >)
        ensures
            final(self)@ == old(self)@.after_receive(value),
            match signals {
                Some(sent) => sent@ == old(self)@.sent_on_receive(value) && sent@.len() > 0,
                None => old(self)@.sent_on_receive(value).len() == 0,
            },
    {
        self.last_value = value;
        let nodes = self.state.send_outputs(self.current_value());
        if nodes.len() == 0 {
            None
        } else {
            Some(nodes)
        }
    }

    pub fn name(&self) -> (name: String)
        ensures
            name@ == "LED"@,
    {
        String::from_str("LED")
    }

    pub fn display_name(&self) -> (name: String)
        ensures
            name@ == "LED"@,
    {
        String::from_str("LED")
    }

    /// Makes the light dark.
    pub fn reset_values(&mut self)
        ensures
            final(self)@ == old(self)@.after_reset(),
    {
        self.last_value = NodeValue::Gpio(false);
    }

    /// With the tick of the frame the light goes dark. It sends nothing.
    pub fn tick(&mut self, event: ObjectUpdateEvent) -> (signals: Vec<ObjectData>)
        ensures
            final(self)@ == old(self)@.after_tick(event),
            signals@ == old(self)@.sent_on_tick(event),
    {
        if event.is_global_tick() {
            self.last_value.unset();
        }
        Vec::new()
    }

    pub fn is_clickable(&self) -> (yes: bool)
        ensures
            yes == self@.clickable(),
    {
        false
    }
}

} // verus!
