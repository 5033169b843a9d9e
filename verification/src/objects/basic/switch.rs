//! The switch: a click turns it over, and while it is on it sends an
//! active value out of every output with each tick of the frame.

use crate::canvas::pixels::map::PixelMap;
use crate::canvas::pixels::util::{PixelColor, PixelType};
use crate::objects::filled_body;
use crate::editor::node::Node;
use crate::ids::ObjectId;
use crate::object::{NodeValue, NodeValueTypes, ObjectType};
use crate::objects::{
    DefaultValue, Memory, ObjectData, ObjectState, ObjectStateView, ObjectUpdateEvent, ObjectView,
};
use crate::size::{CellPos, Dimensions, NodeDirection, NodeObjectSide};
use vstd::prelude::*;
use vstd::string::StringExecFns;

verus! {

#[derive(Debug)]
pub struct SwitchState {
    state: ObjectState,
    active: bool,
}

impl View for SwitchState {
    type V = ObjectView;

    closed spec fn view(&self) -> ObjectView {
        ObjectView { state: self.state@, memory: Memory::Switch(self.active) }
    }
}

impl SwitchState {
    /// The nodes a switch is made with: an output on the left and one on
    /// the right.
    pub open spec fn first_nodes() -> Seq<Node> {
        seq![
            Node {
                cell_pos: (0, 0),
                side: NodeObjectSide::Left(0),
                direction: NodeDirection::Output,
                accepts: NodeValueTypes::Gpio,
                is_disabled: false,
            },
            Node {
                cell_pos: (0, 0),
                side: NodeObjectSide::Right(0),
                direction: NodeDirection::Output,
                accepts: NodeValueTypes::Gpio,
                is_disabled: false,
            },
        ]
    }

    /// The switch as it is made, before it has nodes: off, and off is what
    /// a reset goes back to.
    pub open spec fn made(
        id: ObjectId,
        position: CellPos,
        dimensions: Option<Dimensions>,
    ) -> ObjectView {
        ObjectView {
            state: ObjectStateView {
                id,
                type_of: ObjectType::Switch,
                cell_pos: position,
                dimensions: match dimensions {
                    Some(dim) => dim,
                    None => Dimensions(1, 1),
                },
                nodes: Seq::empty(),
                default: DefaultValue::Bool(false),
            },
            memory: Memory::Switch(false),
        }
    }

    /// A switch remembers whether it is on.
    pub proof fn lemma_kind(&self)
        ensures
            self@.memory is Switch,
    {
    }

    pub fn default_dim() -> (dim: Dimensions)
        ensures
            dim == Dimensions(1, 1),
    {
        Dimensions(1, 1)
    }

    pub fn new_with_opts(id: ObjectId, position: CellPos, dimensions: Option<Dimensions>) -> (item:
        Self)
        ensures
            item@ == Self::made(id, position, dimensions),
    {
        let dim = match dimensions {
            Some(dim) => dim,
            None => Self::default_dim(),
        };
        SwitchState {
            state: ObjectState::new_opts(
                id,
                ObjectType::Switch,
                position,
                dim,
                DefaultValue::Bool(false),
            ),
            active: false,
        }
    }

    pub fn new_with_nodes(id: ObjectId, position: CellPos, dimensions: Option<Dimensions>) -> (item:
        Self)
        ensures
            item@.state == (ObjectStateView {
                nodes: Self::first_nodes(),
                ..Self::made(id, position, dimensions).state
            }),
            item@.memory == Memory::Switch(false),
    {
        let mut item = Self::new_with_opts(id, position, dimensions);
        item.add_node(Node::new_output(NodeObjectSide::Left(0), NodeValueTypes::Gpio));
        item.add_node(Node::new_output(NodeObjectSide::Right(0), NodeValueTypes::Gpio));
        assert(item@.state.nodes =~= Self::first_nodes());
        item
    }

    pub fn is_toggled(&self) -> (on: bool)
        ensures
            self@.memory == Memory::Switch(on),
    {
        self.active
    }

    fn toggle(&mut self)
        ensures
            final(self).state == old(self).state,
            final(self).active == !old(self).active,
    {
        self.active = !self.active;
    }

    pub fn get_object_state(&self) -> (state: &ObjectState)
        ensures
            state@ == self@.state,
    {
        &self.state
    }

    pub fn get_object_state_mut(&mut self) -> (state: &mut ObjectState)
        ensures
            state@ == old(self)@.state,
            final(self)@ == (ObjectView { state: final(state)@, ..old(self)@ }),
    {
        &mut self.state
    }

    pub fn set_cell_pos(&mut self, cell_pos: CellPos)
        ensures
            final(self)@ == old(self)@.moved(cell_pos),
    {
        self.state.set_cell_pos(cell_pos);
    }

    pub fn set_dimensions(&mut self, dimensions: Dimensions)
        ensures
            final(self)@ == old(self)@.resized(dimensions),
    {
        self.state.set_dimensions(dimensions);
    }

    pub fn add_node(&mut self, node: Node)
        ensures
            final(self)@ == (ObjectView {
                state: ObjectStateView {
                    nodes: old(self)@.state.nodes.push(node),
                    ..old(self)@.state
                },
                ..old(self)@
            }),
    {
        self.state.add_node(node);
    }

    pub fn set_nodes(&mut self, nodes: Vec<Node>)
        ensures
            final(self)@ == (ObjectView {
                state: ObjectStateView { nodes: nodes@, ..old(self)@.state },
                ..old(self)@
            }),
    {
        self.state.set_nodes(nodes);
    }

    /// The body in the colour of a switch that is on or off, and the nodes
    /// around it.
    pub fn pixel_map(&self) -> (picture: PixelMap)
        requires
            self@.state.valid(),
        ensures
            picture.shaped(self@.state.dimensions),
            picture.cells() == self@.picture(),
    {
        let pixel = if self.is_toggled() {
            PixelType::Custom(PixelColor(66, 251, 85))
        } else {
            PixelType::Custom(PixelColor(237, 66, 18))
        };
        let dim = self.state.get_dimensions();
        PixelMap::generate_with_object_map(dim, filled_body(dim, pixel), self.state.nodes.as_slice())
    }

    pub fn current_value(&self) -> (value: NodeValue)
        ensures
            value == self@.current_value(),
    {
        NodeValue::Gpio(self.is_toggled())
    }

    pub fn name(&self) -> (name: String)
        ensures
            name@ == "Switch"@,
    {
        String::from_str("Switch")
    }

    /// "1" for a switch that is on, "0" for one that is off.
    pub fn display_name(&self) -> (name: String)
        ensures
            name@ == if self@.current_value().active() {
                "1"@
            } else {
                "0"@
            },
    {
        String::from_str(
            if self.is_toggled() {
                "1"
            } else {
                "0"
            },
        )
    }

    /// Puts the switch as it was made.
    pub fn reset_values(&mut self)
        requires
            old(self)@.state.default is Bool,
        ensures
            final(self)@ == old(self)@.after_reset(),
    {
        self.active = self.state.get_default_saved();
    }

    /// A click turns the switch over. With the tick of the frame a switch
    /// that is on sends an active value out of every output.
    pub fn tick(&mut self, event: ObjectUpdateEvent) -> (signals: Vec<ObjectData>)
        ensures
            final(self)@ == old(self)@.after_tick(event),
            signals@ == old(self)@.sent_on_tick(event),
    {
        if event.is_click() {
            self.toggle();
        }
        if self.is_toggled() && event.is_global_tick() {
            self.state.send_outputs(NodeValue::Gpio(self.is_toggled()))
        } else {
            Vec::new()
        }
    }

    pub fn is_clickable(&self) -> (yes: bool)
        ensures
            yes == self@.clickable(),
    {
        true
    }
}

} // verus!
