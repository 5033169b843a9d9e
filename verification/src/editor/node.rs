//! The connection points of an object.

use crate::ids::ObjectId;
use crate::object::{NodeValue, NodeValueTypes};
use crate::objects::ObjectData;
use crate::size::{CellPos, Dimensions, NodeDirection, NodeObjectSide};
use vstd::prelude::*;

verus! {

/// A node of an object: a slot on one of its sides through which a value
/// comes in or goes out.
///
/// `cell_pos` and `is_disabled` are derived from the slot and from where
/// the object lies; `placed` says what they should be.
#[derive(Debug, Clone, Copy)]
pub struct Node {
    pub cell_pos: CellPos,
    pub side: NodeObjectSide,
    pub direction: NodeDirection,
    pub accepts: NodeValueTypes,
    pub is_disabled: bool,
}

impl Node {
    /// This node as it is once its object of the size `dim` lies at `pos`:
    /// at the cell of its slot, or disabled and at the origin where that
    /// cell is off the grid.
    pub open spec fn placed(self, dim: Dimensions, pos: CellPos) -> Node {
        match self.side.cell(dim, pos) {
            Some(cell) => Node {
                cell_pos: cell,
                side: self.side,
                direction: self.direction,
                accepts: self.accepts,
                is_disabled: false,
            },
            None => Node {
                cell_pos: (0, 0),
                side: self.side,
                direction: self.direction,
                accepts: self.accepts,
                is_disabled: true,
            },
        }
    }

    /// A node that no object has placed yet: enabled, at the origin.
    pub fn new(side: NodeObjectSide, direction: NodeDirection, accepts: NodeValueTypes) -> (node:
        Self)
        ensures
            node == (Node { cell_pos: (0, 0), side, direction, accepts, is_disabled: false }),
    {
        Node { side, direction, accepts, is_disabled: false, cell_pos: (0, 0) }
    }

    pub fn new_input(side: NodeObjectSide, accepts: NodeValueTypes) -> (node: Self)
        ensures
            node == (Node {
                cell_pos: (0, 0),
                side,
                direction: NodeDirection::Input,
                accepts,
                is_disabled: false,
            }),
    {
        Self::new(side, NodeDirection::Input, accepts)
    }

    pub fn new_output(side: NodeObjectSide, accepts: NodeValueTypes) -> (node: Self)
        ensures
            node == (Node {
                cell_pos: (0, 0),
                side,
                direction: NodeDirection::Output,
                accepts,
                is_disabled: false,
            }),
    {
        Self::new(side, NodeDirection::Output, accepts)
    }

    /// The signal by which the object `object_id` sends `value` out of this
    /// node.
    pub open spec fn output(self, object_id: ObjectId, value: NodeValue) -> ObjectData {
        ObjectData::FromNode(object_id, self.cell_pos, self.side, value)
    }

    pub fn send_output(&self, object_id: ObjectId, value: NodeValue) -> (signal: ObjectData)
        ensures
            signal == self.output(object_id, value),
    {
        ObjectData::FromNode(object_id, self.cell_pos, self.side, value)
    }
}

} // verus!
