//! How a signal goes on: one hop of it, from the cell it is at to the
//! cells ahead.
//!
//! A signal that leaves a node looks at the three cells ahead of the node.
//! A signal on a wire cell looks at the three cells ahead of it, away from
//! where it came in, and then the wire cell it was on carries nothing
//! again. In each cell ahead an input node takes the value for its object,
//! and wire takes it and sends it on with the next hop: any wire from a
//! node, only wire of the same net from wire. Wire is of one net where it
//! has the same place in the palette, whatever colours stand there.

use crate::canvas::pixels::util::PixelType;
use crate::canvas::pixels::grid::GridView;
use crate::canvas::pixels::joins::{wire_index_at, CellMap};
use crate::canvas::pixels::PixelBackground;
use crate::editor::state::CanvasState;
use crate::object::NodeValue;
use crate::objects::ObjectData;
use crate::size::{CellPos, NodeDirection, NodeObjectSide, Side};
use vstd::prelude::*;

verus! {

impl GridView {
    /// Whether the grid can take the signal: a signal that leaves a node
    /// names an object that is on the grid.
    pub open spec fn admits(self, signal: ObjectData) -> bool {
        match signal {
            ObjectData::FromNode(id, _, _, _) => self.has_object(id),
            ObjectData::Wire(_, _) => true,
        }
    }

    /// Whether the grid can take each of the signals.
    pub open spec fn admits_all(self, signals: Seq<ObjectData>) -> bool {
        forall|i: int| 0 <= i < signals.len() ==> self.admits(#[trigger] signals[i])
    }

    /// The grid after the first object that covers `at` has been handed
    /// `value`, and what that object sends on. The footprint of the object
    /// is put on anew (that of the first object with its identifier).
    /// Where `by_node` holds, the value is handed over only if the object
    /// records a node as lying at `at`.
    pub open spec fn delivered(self, at: CellPos, value: NodeValue, by_node: bool) -> (
        GridView,
        Seq<ObjectData>,
    ) {
        match self.index_at(at, 0) {
            Some(i) => if by_node && self.objects[i].state.node_at(at) is None {
                (self, Seq::empty())
            } else {
                let received = GridView {
                    objects: self.objects.update(i, self.objects[i].after_receive(value)),
                    ..self
                };
                (
                    received.stamped(received.object_by_id(self.objects[i].state.id)),
                    self.objects[i].sent_on_receive(value),
                )
            },
            None => (self, Seq::empty()),
        }
    }

    /// The grid after a signal that carries `value` has looked at the cell
    /// `at`, which lies on the side `moving` of the cell the signal is at,
    /// and the signals that come of it. `net` is the place in the palette
    /// of the wire the signal is on, if it is on wire.
    ///
    /// An input node hands the value to its object. Wire that carries
    /// another value, and has the place `net` in the palette if there is
    /// one, takes the value and will send it on. Nothing else happens.
    pub open spec fn hop(
        self,
        at: Option<CellPos>,
        moving: Side,
        value: NodeValue,
        net: Option<usize>,
    ) -> (GridView, Seq<ObjectData>) {
        match at {
            Some(at) => if self.cells.contains_key(at) {
                match self.cells[at].type_of {
                    PixelType::Node { direction: NodeDirection::Input, .. } => self.delivered(
                        at,
                        value,
                        net is Some,
                    ),
                    PixelType::Wire { index, value: carried } => if carried != value && (net
                        matches Some(own) ==> index == own) {
                        (
                            self.with_wire_value(at, value),
                            seq![ObjectData::Wire(moving.spec_opposite(), at)],
                        )
                    } else {
                        (self, Seq::empty())
                    },
                    _ => (self, Seq::empty()),
                }
            } else {
                (self, Seq::empty())
            },
            None => (self, Seq::empty()),
        }
    }

    /// The grid after the signal has looked at the first `n` of the cells
    /// `ahead`, and the signals that come of it.
    pub open spec fn hops(
        self,
        ahead: Seq<(Option<CellPos>, Side)>,
        value: NodeValue,
        net: Option<usize>,
        n: int,
    ) -> (GridView, Seq<ObjectData>)
        decreases n,
    {
        if n <= 0 {
            (self, Seq::empty())
        } else {
            let (grid, signals) = self.hops(ahead, value, net, n - 1);
            let (next, more) = grid.hop(ahead[n - 1].0, ahead[n - 1].1, value, net);
            (next, signals + more)
        }
    }

    /// The grid after one hop of `signal`, and the signals that go on from
    /// there with the next hop.
    ///
    /// A signal that leaves a node first has the footprint of its object
    /// put on anew, and then looks at the three cells ahead of the node.
    ///
    /// A signal on wire looks at the three cells ahead, away from the side
    /// it came in by; then the cell it is on carries nothing again. If the
    /// cell holds no wire there is no hop, and nothing comes of it; if it
    /// holds none afterwards, the grid is as the hop left it, and nothing
    /// comes of it either.
    pub open spec fn advanced(self, signal: ObjectData) -> (GridView, Option<Seq<ObjectData>>) {
        match signal {
            ObjectData::FromNode(id, start, node_side, value) => {
                let (grid, signals) = self.stamped(self.object_by_id(id)).hops(
                    node_side.spec_side().surrounding(start),
                    value,
                    None,
                    3,
                );
                (grid, Some(signals))
            },
            ObjectData::Wire(movement, start) => match (
                wire_index_at(self.cells, start),
                self.wire_value(start),
            ) {
                (Some(net), Some(value)) => {
                    let (grid, signals) = self.hops(
                        movement.spec_opposite().surrounding(start),
                        value,
                        Some(net),
                        3,
                    );
                    if grid.is_wire(start) {
                        (grid.with_wire_value(start, NodeValue::Gpio(false)), Some(signals))
                    } else {
                        (grid, None)
                    }
                },
                _ => (self, None),
            },
        }
    }
}

/// Whether no wire has come or changed its place in the palette from
/// `before` to `after`, and wire that has another place in the palette than
/// `net` carries what it carried.
pub open spec fn net_kept(before: CellMap, after: CellMap, net: usize) -> bool {
    forall|pos: CellPos| #[trigger]
        after.contains_key(pos) && after[pos].type_of is Wire ==> {
            &&& before.contains_key(pos)
            &&& before[pos].type_of is Wire
            &&& before[pos].type_of.wire_index() == after[pos].type_of.wire_index()
            &&& after[pos].type_of.wire_index() != Some(net) ==> before[pos].type_of
                == after[pos].type_of
        }
}

/// Whether every signal among `signals` that goes on along wire is at a
/// cell of `cells` that holds wire of the net `net`.
pub open spec fn relays_within(signals: Seq<ObjectData>, cells: CellMap, net: usize) -> bool {
    forall|k: int|
        0 <= k < signals.len() ==> (#[trigger] signals[k] matches ObjectData::Wire(_, at)
            ==> wire_index_at(cells, at) == Some(net))
}

impl GridView {
    /// A look at a cell ahead, from wire of the net `net`, leaves a sound
    /// grid sound, changes no wire of another net and sends nothing on
    /// along wire of another net.
    pub proof fn lemma_hop_keeps_nets(
        self,
        at: Option<CellPos>,
        moving: Side,
        value: NodeValue,
        net: usize,
    )
        requires
            self.valid(),
        ensures
            self.hop(at, moving, value, Some(net)).0.valid(),
            self.hop(at, moving, value, Some(net)).0.palette == self.palette,
            net_kept(self.cells, self.hop(at, moving, value, Some(net)).0.cells, net),
            relays_within(self.hop(at, moving, value, Some(net)).1, self.cells, net),
    {
        match at {
            Some(at) => {
                if self.cells.contains_key(at) {
                    match self.cells[at].type_of {
                        PixelType::Node { direction: NodeDirection::Input, .. } => {
                            self.lemma_index_at(at, 0);
                            match self.index_at(at, 0) {
                                Some(i) => {
                                    if self.objects[i].state.node_at(at) is Some {
                                        let received = GridView {
                                            objects: self.objects.update(
                                                i,
                                                self.objects[i].after_receive(value),
                                            ),
                                            ..self
                                        };
                                        let id = self.objects[i].state.id;
                                        received.lemma_objects_are_found(i);
                                        received.lemma_index_by_id(id, 0);
                                        let object = received.object_by_id(id);
                                        received.lemma_stamped_keeps(object);
                                        self.objects[i].state.lemma_outputs_name_sender(
                                            value,
                                            self.objects[i].state.nodes.len() as int,
                                        );
                                    }
                                },
                                None => {},
                            }
                        },
                        _ => {},
                    }
                }
            },
            None => {},
        }
    }

    /// Looks at cells ahead, from wire of the net `net`, leave a sound
    /// grid sound, change no wire of another net and send nothing on along
    /// wire of another net.
    pub proof fn lemma_hops_keep_nets(
        self,
        ahead: Seq<(Option<CellPos>, Side)>,
        value: NodeValue,
        net: usize,
        n: int,
    )
        requires
            self.valid(),
            0 <= n <= ahead.len(),
        ensures
            self.hops(ahead, value, Some(net), n).0.valid(),
            self.hops(ahead, value, Some(net), n).0.palette == self.palette,
            net_kept(self.cells, self.hops(ahead, value, Some(net), n).0.cells, net),
            relays_within(self.hops(ahead, value, Some(net), n).1, self.cells, net),
        decreases n,
    {
        if n > 0 {
            self.lemma_hops_keep_nets(ahead, value, net, n - 1);
            let before = self.hops(ahead, value, Some(net), n - 1).0;
            before.lemma_hop_keeps_nets(ahead[n - 1].0, ahead[n - 1].1, value, net);
        }
    }

    /// The nets keep apart: a hop of a signal on wire changes what wire
    /// carries only where the wire has the same place in the palette as the
    /// wire the signal is on. Wherever there is wire with another place in
    /// the palette after the hop, the same wire was there before, carrying
    /// the same, whatever colours the palette lists and whatever the wire
    /// of the signal carries. And no signal goes on from the hop along
    /// wire with another place in the palette.
    pub proof fn lemma_nets_keep_apart(self, movement: Side, start: CellPos, other: CellPos)
        requires
            self.valid(),
            self.is_wire(start),
        ensures
            ({
                let after = self.advanced(ObjectData::Wire(movement, start)).0;
                &&& after.valid()
                &&& after.palette == self.palette
                &&& after.is_wire(other) ==> self.is_wire(other)
                &&& after.is_wire(other) ==> wire_index_at(after.cells, other) == wire_index_at(
                    self.cells,
                    other,
                )
                &&& after.is_wire(other) && wire_index_at(after.cells, other) != wire_index_at(
                    self.cells,
                    start,
                ) ==> after.wire_value(other) == self.wire_value(other)
                &&& self.advanced(ObjectData::Wire(movement, start)).1 matches Some(signals)
                    ==> forall|k: int|
                    0 <= k < signals.len() ==> (#[trigger] signals[k] matches ObjectData::Wire(
                        _,
                        at,
                    ) ==> wire_index_at(self.cells, at) == wire_index_at(self.cells, start))
            }),
    {
        let net = wire_index_at(self.cells, start).unwrap();
        let value = self.wire_value(start).unwrap();
        let ahead = movement.spec_opposite().surrounding(start);
        self.lemma_hops_keep_nets(ahead, value, net, 3);
    }
}

impl PixelBackground {
    /// Hands `value` to the first object that covers `at` and puts the
    /// footprint of that object on anew. Returns what the object sends on.
    fn deliver(
        &mut self,
        at: CellPos,
        sender: Option<NodeObjectSide>,
        value: NodeValue,
    ) -> (signals: Vec<ObjectData>)
        requires
            old(self).wf(),
        ensures
            final(self).wf(),
            (final(self)@, signals@) == old(self)@.delivered(at, value, sender is None),
            old(self)@.same_cast(final(self)@),
            final(self)@.admits_all(signals@),
    {
        let i = match self.object_index_in_cell(at) {
            Some(i) => i,
            None => {
                return Vec::new();
            },
        };
        let node_side = match sender {
            Some(side) => side,
            None => match self.objects[i].get_node_from_cell_pos(&at) {
                Some(node) => node.side,
                None => {
                    return Vec::new();
                },
            },
        };
        let ghost receiver = self@.objects[i as int];
        let sent = self.objects[i].on_receive(node_side, value);
        let id = self.objects[i].get_id();
        proof {
            assert(self@.objects =~= old(self)@.objects.update(
                i as int,
                receiver.after_receive(value),
            ));
            self@.lemma_objects_are_found(i as int);
            receiver.state.lemma_outputs_name_sender(value, receiver.state.nodes.len() as int);
        }
        self.insert_object_cells_by_id(id);
        let signals = match sent {
            Some(signals) => signals,
            None => Vec::new(),
        };
        signals
    }

    /// Lets a signal that carries `value` look at the cell `at`. Returns
    /// the signals that come of it.
    fn hop_to(
        &mut self,
        at: Option<CellPos>,
        moving: Side,
        value: NodeValue,
        net: Option<usize>,
        sender: Option<NodeObjectSide>,
    ) -> (signals: Vec<ObjectData>)
        requires
            old(self).wf(),
            (net is Some) == (sender is None),
        ensures
            final(self).wf(),
            (final(self)@, signals@) == old(self)@.hop(at, moving, value, net),
            old(self)@.same_cast(final(self)@),
            final(self)@.admits_all(signals@),
    {
        let at = match at {
            Some(at) => at,
            None => {
                return Vec::new();
            },
        };
        let pixel = match self.get_pixel_type_from_cell(&at) {
            Some(pixel) => pixel,
            None => {
                return Vec::new();
            },
        };
        match pixel.type_of {
            PixelType::Node { direction: NodeDirection::Input, .. } => self.deliver(at, sender, value),
            PixelType::Wire { index, value: carried } => {
                let same_net = match net {
                    Some(own) => index == own,
                    None => true,
                };
                if carried != value && same_net {
                    self.set_wire_value(at, value);
                    let mut signals = Vec::new();
                    signals.push(ObjectData::Wire(moving.opposite(), at));
                    signals
                } else {
                    Vec::new()
                }
            },
            _ => Vec::new(),
        }
    }

    /// Lets a signal that carries `value` look at the three cells `ahead`,
    /// one after the other. Returns the signals that come of it.
    fn hop_ahead(
        &mut self,
        ahead: [(Option<CellPos>, Side); 3],
        value: NodeValue,
        net: Option<usize>,
        sender: Option<NodeObjectSide>,
    ) -> (signals: Vec<ObjectData>)
        requires
            old(self).wf(),
            (net is Some) == (sender is None),
        ensures
            final(self).wf(),
            (final(self)@, signals@) == old(self)@.hops(ahead@, value, net, 3),
            old(self)@.same_cast(final(self)@),
            final(self)@.admits_all(signals@),
    {
        let mut data: Vec<ObjectData> = Vec::new();
        let mut n: usize = 0;
        while n < 3
            invariant
                n <= 3,
                self.wf(),
                (net is Some) == (sender is None),
                (self@, data@) == old(self)@.hops(ahead@, value, net, n as int),
                old(self)@.same_cast(self@),
                self@.admits_all(data@),
            decreases 3 - n,
        {
            let (at, moving) = ahead[n];
            let ghost before = self@;
            let ghost sofar = data@;
            let mut more = self.hop_to(at, moving, value, net, sender);
            data.append(&mut more);
            proof {
                assert forall|k: int| 0 <= k < data@.len() implies self@.admits(
                    #[trigger] data@[k],
                ) by {
                    if k < sofar.len() {
                        match sofar[k] {
                            ObjectData::FromNode(id, _, _, _) => {
                                before.lemma_same_cast_finds_same(self@, id, 0);
                            },
                            ObjectData::Wire(_, _) => {},
                        }
                    }
                }
            }
            n += 1;
        }
        data
    }
}

impl ObjectData {
    /// Takes the signal one hop on. Returns the signals that go on from
    /// there with the next hop, or `None` where the signal was on a cell
    /// that holds no wire, before the hop or after it.
    pub fn continue_sending(self, canvas: &mut CanvasState) -> (signals: Option<Vec<ObjectData>>)
        requires
            old(canvas).pixels.wf(),
            old(canvas).pixels@.admits(self),
        ensures
            final(canvas).pixels.wf(),
            final(canvas).pixels@ == old(canvas).pixels@.advanced(self).0,
            match signals {
                Some(next) => old(canvas).pixels@.advanced(self).1 == Some(next@),
                None => old(canvas).pixels@.advanced(self).1 is None,
            },
            old(canvas).pixels@.same_cast(final(canvas).pixels@),
            signals matches Some(next) ==> final(canvas).pixels@.admits_all(next@),
            final(canvas).info == old(canvas).info,
            final(canvas).event == old(canvas).event,
    {
        match self {
            ObjectData::FromNode(object_id, cell_pos_start, node_side, node_value) => {
                canvas.pixels.insert_object_cells_by_id(object_id);
                let ahead = node_side.side().get_surrounding_cells_with_side_its_on(cell_pos_start);
                let data = canvas.pixels.hop_ahead(ahead, node_value, None, Some(node_side));
                Some(data)
            },
            ObjectData::Wire(movement, start_cell_pos) => {
                let net = match canvas.pixels.get_wire_index(start_cell_pos) {
                    Some(net) => net,
                    None => {
                        return None;
                    },
                };
                let start_value = match canvas.pixels.get_wire_value(start_cell_pos) {
                    Some(value) => value,
                    None => {
                        return None;
                    },
                };
                let ahead = movement.opposite().get_surrounding_cells_with_side_its_on(
                    start_cell_pos,
                );
                let data = canvas.pixels.hop_ahead(ahead, start_value, Some(net), None);
                if !canvas.pixels.is_cell_wire(start_cell_pos) {
                    return None;
                }
                canvas.pixels.set_wire_value(start_cell_pos, NodeValue::Gpio(false));
                Some(data)
            },
        }
    }
}

} // verus!
