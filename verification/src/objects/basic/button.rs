//! The button: sends an active value out of every output when clicked.

use crate::canvas::pixels::map::PixelMap;
use crate::editor::node::Node;
use crate::ids::ObjectId;
use crate::object::{NodeValue, NodeValueTypes, ObjectType};
use crate::objects::{
    DefaultValue, Memory, ObjectData, ObjectState, ObjectStateView, ObjectUpdateEvent, ObjectView,
};
use crate::size::{CellPos, Dimensions, NodeDirection, NodeObjectSide};
use vstd::prelude::*;
use vstd::string::StringExecFns;

verus! {

#[derive(Debug)]
pub struct ButtonState {
    state: ObjectState,
}

impl View for ButtonState {
    type V = ObjectView;

    closed spec fn view(&self) -> ObjectView {
        ObjectView { state: self.state@, memory: Memory::Button }
    }
}

impl ButtonState {
    /// The nodes a button is made with: an output on each side.
    pub open spec fn first_nodes() -> Seq<Node> {
        seq![
            Node {
                cell_pos: (0, 0),
                side: NodeObjectSide::Right(0),
                direction: NodeDirection::Output,
                accepts: NodeValueTypes::Gpio,
                is_disabled: false,
            },
            Node {
                cell_pos: (0, 0),
                side: NodeObjectSide::Left(0),
                direction: NodeDirection::Output,
                accepts: NodeValueTypes::Gpio,
                is_disabled: false,
            },
            Node {
                cell_pos: (0, 0),
                side: NodeObjectSide::Top(0),
                direction: NodeDirection::Output,
                accepts: NodeValueTypes::Gpio,
                is_disabled: false,
            },
            Node {
                cell_pos: (0, 0),
                side: NodeObjectSide::Bottom(0),
                direction: NodeDirection::Output,
                accepts: NodeValueTypes::Gpio,
                is_disabled: false,
            },
        ]
    }

    /// The button as it is made, before it has nodes.
    pub open spec fn made(
        id: ObjectId,
        position: CellPos,
        dimensions: Option<Dimensions>,
    ) -> ObjectView {
        ObjectView {
            state: ObjectStateView {
                id,
                type_of: ObjectType::Button,
                cell_pos: position,
                dimensions: match dimensions {
                    Some(dim) => dim,
                    None => Dimensions(1, 1),
                },
                nodes: Seq::empty(),
                default: DefaultValue::Null,
            },
            memory: Memory::Button,
        }
    }

    /// A button remembers nothing.
    pub proof fn lemma_kind(&self)
        ensures
            self@.memory is Button,
    {
    }

    pub fn default_dim() -> (dim: Dimensions)
        ensures
            dim == Dimensions(1, 1),
    {
        Dimensions(1, 1)
    }

    pub fn new_with_opts(id: ObjectId, position: CellPos, dimensions: Option<Dimensions>) -> (item:
        Self)
        ensures
            item@ == Self::made(id, position, dimensions),
    {
        let dim = match dimensions {
            Some(dim) => dim,
            None => Self::default_dim(),
        };
        ButtonState {
            state: ObjectState::new_opts(id, ObjectType::Button, position, dim, DefaultValue::Null),
        }
    }

    pub fn new_with_nodes(id: ObjectId, position: CellPos, dimensions: Option<Dimensions>) -> (item:
        Self)
        ensures
            item@.state == (ObjectStateView {
                nodes: Self::first_nodes(),
                ..Self::made(id, position, dimensions).state
            }),
            item@.memory == Memory::Button,
    {
        let mut item = Self::new_with_opts(id, position, dimensions);
        item.add_node(Node::new_output(NodeObjectSide::Right(0), NodeValueTypes::Gpio));
        item.add_node(Node::new_output(NodeObjectSide::Left(0), NodeValueTypes::Gpio));
        item.add_node(Node::new_output(NodeObjectSide::Top(0), NodeValueTypes::Gpio));
        item.add_node(Node::new_output(NodeObjectSide::Bottom(0), NodeValueTypes::Gpio));
        assert(item@.state.nodes =~= Self::first_nodes());
        item
    }

    pub fn get_object_state(&self) -> (state: &ObjectState)
        ensures
            state@ == self@.state,
    {
        &self.state
    }

    pub fn get_object_state_mut(&mut self) -> (state: &mut ObjectState)
        ensures
            state@ == old(self)@.state,
            final(self)@ == (ObjectView { state: final(state)@, ..old(self)@ }),
    {
        &mut self.state
    }

    pub fn set_cell_pos(&mut self, cell_pos: CellPos)
        ensures
            final(self)@ == old(self)@.moved(cell_pos),
    {
        self.state.set_cell_pos(cell_pos);
    }

    pub fn set_dimensions(&mut self, dimensions: Dimensions)
        ensures
            final(self)@ == old(self)@.resized(dimensions),
    {
        self.state.set_dimensions(dimensions);
    }

    pub fn add_node(&mut self, node: Node)
        ensures
            final(self)@ == (ObjectView {
                state: ObjectStateView {
                    nodes: old(self)@.state.nodes.push(node),
                    ..old(self)@.state
                },
                ..old(self)@
            }),
    {
        self.state.add_node(node);
    }

    pub fn set_nodes(&mut self, nodes: Vec<Node>)
        ensures
            final(self)@ == (ObjectView {
                state: ObjectStateView { nodes: nodes@, ..old(self)@.state },
                ..old(self)@
            }),
    {
        self.state.set_nodes(nodes);
    }

    pub fn pixel_map(&self) -> (picture: PixelMap)
        requires
            self@.state.valid(),
        ensures
            picture.shaped(self@.state.dimensions),
            picture.cells() == self@.picture(),
    {
        PixelMap::new_with_nodes(self.state.get_dimensions(), self.state.nodes.as_slice())
    }

    pub fn current_value(&self) -> (value: NodeValue)
        ensures
            value == self@.current_value(),
    {
        NodeValue::Gpio(false)
    }

    pub fn name(&self) -> (name: String)
        ensures
            name@ == "Button"@,
    {
        String::from_str("Button")
    }

    pub fn display_name(&self) -> (name: String)
        ensures
            name@ == "Btn"@,
    {
        String::from_str("Btn")
    }

    pub fn tick(&mut self, event: ObjectUpdateEvent) -> (signals: Vec<ObjectData>)
        ensures
            final(self)@ == old(self)@.after_tick(event),
            signals@ == old(self)@.sent_on_tick(event),
    {
        if event.is_click() {
            self.state.send_outputs(NodeValue::Gpio(true))
        } else {
            Vec::new()
        }
    }

    pub fn is_clickable(&self) -> (yes: bool)
        ensures
            yes == self@.clickable(),
    {
        true
    }
}

} // verus!
