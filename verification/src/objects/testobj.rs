//! The probe: remembers what reaches it and sends it on unchanged.

use crate::canvas::pixels::map::PixelMap;
use crate::editor::node::Node;
use crate::ids::ObjectId;
use crate::object::{NodeValue, NodeValueTypes, ObjectType};
use crate::objects::{DefaultValue, Memory, ObjectData, ObjectState, ObjectStateView, ObjectView};
use crate::size::{CellPos, Dimensions, NodeDirection, NodeObjectSide};
use vstd::prelude::*;
use vstd::string::StringExecFns;

verus! {

#[derive(Debug)]
pub struct TestObjState {
    state: ObjectState,
    last_received: Option<NodeValue>,
}

impl View for TestObjState {
    type V = ObjectView;

    closed spec fn view(&self) -> ObjectView {
        ObjectView { state: self.state@, memory: Memory::TestObj(self.last_received) }
    }
}

impl TestObjState {
    /// The nodes a probe is made with: an input on the left and an output
    /// on the right, each in the second slot.
    pub open spec fn first_nodes() -> Seq<Node> {
        seq![
            Node {
                cell_pos: (0, 0),
                side: NodeObjectSide::Left(1),
                direction: NodeDirection::Input,
                accepts: NodeValueTypes::Gpio,
                is_disabled: false,
            },
            Node {
                cell_pos: (0, 0),
                side: NodeObjectSide::Right(1),
                direction: NodeDirection::Output,
                accepts: NodeValueTypes::Gpio,
                is_disabled: false,
            },
        ]
    }

    /// The probe as it is made, before it has nodes.
    pub open spec fn made(
        id: ObjectId,
        position: CellPos,
        dimensions: Option<Dimensions>,
    ) -> ObjectView {
        ObjectView {
            state: ObjectStateView {
                id,
                type_of: ObjectType::TestObj,
                cell_pos: position,
                dimensions: match dimensions {
                    Some(dim) => dim,
                    None => Dimensions(3, 3),
                },
                nodes: Seq::empty(),
                default: DefaultValue::Null,
            },
            memory: Memory::TestObj(None),
        }
    }

    /// A probe remembers what reached it.
    pub proof fn lemma_kind(&self)
        ensures
            self@.memory is TestObj,
    {
    }

    pub fn default_dim() -> (dim: Dimensions)
        ensures
            dim == Dimensions(3, 3),
    {
        Dimensions(3, 3)
    }

    pub fn new_with_opts(id: ObjectId, position: CellPos, dimensions: Option<Dimensions>) -> (item:
        Self)
        ensures
            item@ == Self::made(id, position, dimensions),
    {
        let dim = match dimensions {
            Some(dim) => dim,
            None => Self::default_dim(),
        };
        TestObjState {
            state: ObjectState::new_opts(id, ObjectType::TestObj, position, dim, DefaultValue::Null),
            last_received: None,
        }
    }

    pub fn new_with_nodes(id: ObjectId, position: CellPos, dimensions: Option<Dimensions>) -> (item:
        Self)
        ensures
            item@.state == (ObjectStateView {
                nodes: Self::first_nodes(),
                ..Self::made(id, position, dimensions).state
            }),
            item@.memory == Memory::TestObj(None),
    {
        let mut item = Self::new_with_opts(id, position, dimensions);
        item.add_node(Node::new_input(NodeObjectSide::Left(1), NodeValueTypes::Gpio));
        item.add_node(Node::new_output(NodeObjectSide::Right(1), NodeValueTypes::Gpio));
        assert(item@.state.nodes =~= Self::first_nodes());
        item
    }

    pub fn get_object_state(&self) -> (state: &ObjectState)
        ensures
            state@ == self@.state,
    {
        &self.state
    }

    pub fn get_object_state_mut(&mut self) -> (state: &mut ObjectState)
        ensures
            state@ == old(self)@.state,
            final(self)@ == (ObjectView { state: final(state)@, ..old(self)@ }),
    {
        &mut self.state
    }

    pub fn set_cell_pos(&mut self, cell_pos: CellPos)
        ensures
            final(self)@ == old(self)@.moved(cell_pos),
    {
        self.state.set_cell_pos(cell_pos);
    }

    pub fn set_dimensions(&mut self, dimensions: Dimensions)
        ensures
            final(self)@ == old(self)@.resized(dimensions),
    {
        self.state.set_dimensions(dimensions);
    }

    pub fn add_node(&mut self, node: Node)
        ensures
            final(self)@ == (ObjectView {
                state: ObjectStateView {
                    nodes: old(self)@.state.nodes.push(node),
                    ..old(self)@.state
                },
                ..old(self)@
            }),
    {
        self.state.add_node(node);
    }

    pub fn set_nodes(&mut self, nodes: Vec<Node>)
        ensures
            final(self)@ == (ObjectView {
                state: ObjectStateView { nodes: nodes@, ..old(self)@.state },
                ..old(self)@
            }),
    {
        self.state.set_nodes(nodes);
    }

    pub fn pixel_map(&self) -> (picture: PixelMap)
        requires
            self@.state.valid(),
        ensures
            picture.shaped(self@.state.dimensions),
            picture.cells() == self@.picture(),
    {
        PixelMap::new_with_nodes(self.state.get_dimensions(), self.state.nodes.as_slice())
    }

    pub fn name(&self) -> (name: String)
        ensures
            name@ == "TestObj"@,
    {
        String::from_str("TestObj")
    }

    pub fn display_name(&self) -> (name: String)
        ensures
            name@ == "Test"@,
    {
        String::from_str("Test")
    }

    /// What last reached the probe, or an inactive value if nothing has.
    pub fn current_value(&self) -> (value: NodeValue)
        ensures
            value == self@.current_value(),
    {
        match self.last_received {
            Some(value) => value,
            None => NodeValue::Gpio(false),
        }
    }

    /// Forgets what reached the probe.
    pub fn reset_values(&mut self)
        ensures
            final(self)@ == old(self)@.after_reset(),
    {
        self.last_received = None;
    }

    /// Remembers `value` and sends it out of every output.
    pub fn on_receive(&mut self, from_node: NodeObjectSide, value: NodeValue) -> (signals: Option<
        Vec<ObjectData>,
    >)
        ensures
            final(self)@ == old(self)@.after_receive(value),
            signals matches Some(sent) && sent@ == old(self)@.sent_on_receive(value),
    {
        self.last_received = Some(value);
        Some(self.state.send_outputs(value))
    }
}

} // verus!
