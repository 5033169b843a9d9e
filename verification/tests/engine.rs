use circuit_sim::canvas::pixels::util::{PixelColor, PixelType};
use circuit_sim::editor::event::{MouseButton, MouseEvent};
use circuit_sim::editor::state::CanvasState;
use circuit_sim::ids::ObjectId;
use circuit_sim::object::{NodeValue, ObjectType};
use circuit_sim::objects::{create_new_object, ObjectData, ObjectUpdateEvent};
use circuit_sim::size::{NodeObjectSide, Side};

fn wire(index: usize) -> PixelType {
    PixelType::Wire { index, value: NodeValue::Gpio(false) }
}

fn on() -> NodeValue {
    NodeValue::Gpio(true)
}

fn off() -> NodeValue {
    NodeValue::Gpio(false)
}

fn relay(signal: &ObjectData) -> (Side, (usize, usize)) {
    match signal {
        ObjectData::Wire(side, cell) => (*side, *cell),
        ObjectData::FromNode(..) => panic!("a signal from a node, where one on wire was expected"),
    }
}

fn from_node(signal: &ObjectData) -> (usize, (usize, usize), NodeObjectSide, NodeValue) {
    match signal {
        ObjectData::FromNode(id, cell, side, value) => (id.0, *cell, *side, *value),
        ObjectData::Wire(..) => panic!("a signal on wire, where one from a node was expected"),
    }
}

/// A switch at (5, 5) and three cells of wire to the right of its right node.
fn switch_and_wire() -> CanvasState {
    let mut canvas = CanvasState::new(0);
    let mut switch = create_new_object(ObjectId(1), ObjectType::Switch, (5, 5), None);
    switch.set_cell_pos((5, 5));
    canvas.pixels.add_object(switch);
    canvas.pixels.insert_object_cells_by_id(ObjectId(1));
    for x in 7..10 {
        canvas.pixels.insert_cell((x, 5), wire(0));
    }
    canvas
}

fn values(canvas: &CanvasState) -> [bool; 3] {
    [
        canvas.pixels.get_wire_value((7, 5)).expect("wire").is_active(),
        canvas.pixels.get_wire_value((8, 5)).expect("wire").is_active(),
        canvas.pixels.get_wire_value((9, 5)).expect("wire").is_active(),
    ]
}

#[test]
fn a_signal_moves_one_cell_with_each_hop() {
    let mut canvas = switch_and_wire();
    let first = ObjectData::FromNode(ObjectId(1), (6, 5), NodeObjectSide::Right(0), on());
    let next = first.continue_sending(&mut canvas).expect("signals");
    assert_eq!(values(&canvas), [true, false, false]);
    assert_eq!(next.len(), 1);
    assert_eq!(relay(&next[0]), (Side::Left, (7, 5)));

    let next = next[0].continue_sending(&mut canvas).expect("signals");
    assert_eq!(values(&canvas), [false, true, false]);
    assert_eq!(next.len(), 1);
    assert_eq!(relay(&next[0]), (Side::Left, (8, 5)));

    let next = next[0].continue_sending(&mut canvas).expect("signals");
    assert_eq!(values(&canvas), [false, false, true]);
    assert_eq!(next.len(), 1);
    assert_eq!(relay(&next[0]), (Side::Left, (9, 5)));

    let next = next[0].continue_sending(&mut canvas).expect("signals");
    assert_eq!(values(&canvas), [false, false, false]);
    assert!(next.is_empty());
}

#[test]
fn a_signal_from_a_node_puts_the_footprint_on_anew() {
    let mut canvas = switch_and_wire();
    canvas.pixels.objects[0]
        .tick(ObjectUpdateEvent::MouseClickObject(MouseEvent { button: MouseButton::Left }));
    let off_color = PixelType::Custom(PixelColor(237, 66, 18));
    let on_color = PixelType::Custom(PixelColor(66, 251, 85));
    assert_eq!(canvas.pixels.get_pixel_type_from_cell(&(5, 5)).map(|p| p.type_of), Some(off_color));
    let left = ObjectData::FromNode(ObjectId(1), (4, 5), NodeObjectSide::Left(0), on());
    let next = left.continue_sending(&mut canvas).expect("signals");
    assert!(next.is_empty());
    assert_eq!(canvas.pixels.get_pixel_type_from_cell(&(5, 5)).map(|p| p.type_of), Some(on_color));
    assert_eq!(values(&canvas), [false, false, false]);
}

#[test]
fn a_signal_from_a_node_sets_wire_of_any_colour_on_three_sides() {
    let mut canvas = CanvasState::new(0);
    let mut button = create_new_object(ObjectId(1), ObjectType::Button, (5, 5), None);
    button.set_cell_pos((5, 5));
    canvas.pixels.add_object(button);
    canvas.pixels.insert_cell((6, 4), wire(1));
    canvas.pixels.insert_cell((7, 5), wire(2));
    canvas.pixels.insert_cell((6, 6), wire(3));
    let signal = ObjectData::FromNode(ObjectId(1), (6, 5), NodeObjectSide::Right(0), on());
    let next = signal.continue_sending(&mut canvas).expect("signals");
    assert_eq!(next.len(), 3);
    assert_eq!(relay(&next[0]), (Side::Bottom, (6, 4)));
    assert_eq!(relay(&next[1]), (Side::Left, (7, 5)));
    assert_eq!(relay(&next[2]), (Side::Top, (6, 6)));
    assert_eq!(canvas.pixels.get_wire_value((6, 4)), Some(on()));
    assert_eq!(canvas.pixels.get_wire_value((7, 5)), Some(on()));
    assert_eq!(canvas.pixels.get_wire_value((6, 6)), Some(on()));
}

#[test]
fn wire_that_carries_the_value_already_is_left_alone() {
    let mut canvas = switch_and_wire();
    canvas.pixels.set_wire_value((7, 5), on());
    let signal = ObjectData::FromNode(ObjectId(1), (6, 5), NodeObjectSide::Right(0), on());
    let next = signal.continue_sending(&mut canvas).expect("signals");
    assert!(next.is_empty());
    assert_eq!(values(&canvas), [true, false, false]);
    let dark = ObjectData::FromNode(ObjectId(1), (6, 5), NodeObjectSide::Right(0), off());
    let next = dark.continue_sending(&mut canvas).expect("signals");
    assert_eq!(next.len(), 1);
    assert_eq!(values(&canvas), [false, false, false]);
}

#[test]
fn nets_of_different_colours_keep_apart() {
    for driven in [true, false] {
        let mut canvas = CanvasState::new(0);
        canvas.pixels.insert_cell((5, 5), wire(2));
        canvas.pixels.insert_cell((6, 5), wire(5));
        canvas.pixels.insert_cell((5, 4), wire(5));
        canvas.pixels.insert_cell((5, 6), wire(2));
        canvas.pixels.set_wire_value((5, 5), NodeValue::Gpio(driven));
        canvas.pixels.set_wire_value((6, 5), NodeValue::Gpio(!driven));
        let next = ObjectData::Wire(Side::Left, (5, 5)).continue_sending(&mut canvas).expect("signals");
        assert_eq!(canvas.pixels.get_wire_value((6, 5)), Some(NodeValue::Gpio(!driven)));
        assert_eq!(canvas.pixels.get_wire_value((5, 4)), Some(off()));
        assert_eq!(canvas.pixels.get_wire_value((5, 6)), Some(NodeValue::Gpio(driven)));
        assert_eq!(canvas.pixels.get_wire_value((5, 5)), Some(off()));
        if driven {
            assert_eq!(next.len(), 1);
            assert_eq!(relay(&next[0]), (Side::Top, (5, 6)));
        } else {
            assert!(next.is_empty());
        }
    }
}

#[test]
fn nets_listed_with_one_colour_keep_apart() {
    for driven in [true, false] {
        let mut canvas = CanvasState::new(0);
        let shared = canvas.pixels.palette[2];
        canvas.pixels.palette[5] = shared;
        assert_eq!(canvas.pixels.palette[2], canvas.pixels.palette[5]);
        canvas.pixels.insert_cell((5, 5), wire(2));
        canvas.pixels.insert_cell((6, 5), wire(5));
        canvas.pixels.insert_cell((5, 4), wire(5));
        canvas.pixels.insert_cell((5, 6), wire(2));
        canvas.pixels.set_wire_value((5, 5), NodeValue::Gpio(driven));
        canvas.pixels.set_wire_value((6, 5), NodeValue::Gpio(!driven));
        assert_eq!(canvas.pixels.get_wire_color((5, 5)), canvas.pixels.get_wire_color((6, 5)));
        assert_eq!(canvas.pixels.get_wire_index((5, 5)), Some(2));
        assert_eq!(canvas.pixels.get_wire_index((6, 5)), Some(5));
        let next = ObjectData::Wire(Side::Left, (5, 5)).continue_sending(&mut canvas).expect("signals");
        assert_eq!(canvas.pixels.get_wire_value((6, 5)), Some(NodeValue::Gpio(!driven)));
        assert_eq!(canvas.pixels.get_wire_value((5, 4)), Some(off()));
        assert_eq!(canvas.pixels.get_wire_value((5, 6)), Some(NodeValue::Gpio(driven)));
        assert_eq!(canvas.pixels.get_wire_value((5, 5)), Some(off()));
        if driven {
            assert_eq!(next.len(), 1);
            assert_eq!(relay(&next[0]), (Side::Top, (5, 6)));
        } else {
            assert!(next.is_empty());
        }
    }
}

#[test]
fn the_place_in_the_palette_of_wire_is_found() {
    let mut canvas = CanvasState::new(0);
    canvas.pixels.insert_cell((5, 5), wire(3));
    canvas.pixels.insert_cell((6, 5), PixelType::ObjectColor);
    assert_eq!(canvas.pixels.get_wire_index((5, 5)), Some(3));
    assert_eq!(canvas.pixels.get_wire_index((6, 5)), None);
    assert_eq!(canvas.pixels.get_wire_index((7, 5)), None);
}

#[test]
fn a_signal_on_wire_does_not_go_back() {
    let mut canvas = CanvasState::new(0);
    for x in 4..7 {
        canvas.pixels.insert_cell((x, 5), wire(0));
    }
    canvas.pixels.set_wire_value((5, 5), on());
    let next = ObjectData::Wire(Side::Left, (5, 5)).continue_sending(&mut canvas).expect("signals");
    assert_eq!(next.len(), 1);
    assert_eq!(relay(&next[0]), (Side::Left, (6, 5)));
    assert_eq!(canvas.pixels.get_wire_value((4, 5)), Some(off()));
    assert_eq!(canvas.pixels.get_wire_value((5, 5)), Some(off()));
    assert_eq!(canvas.pixels.get_wire_value((6, 5)), Some(on()));
}

#[test]
fn a_signal_on_wire_branches() {
    let mut canvas = CanvasState::new(0);
    canvas.pixels.insert_cell((5, 5), wire(0));
    canvas.pixels.insert_cell((5, 4), wire(0));
    canvas.pixels.insert_cell((6, 5), wire(0));
    canvas.pixels.insert_cell((5, 6), wire(0));
    canvas.pixels.set_wire_value((5, 5), on());
    let next = ObjectData::Wire(Side::Left, (5, 5)).continue_sending(&mut canvas).expect("signals");
    assert_eq!(next.len(), 3);
    assert_eq!(relay(&next[0]), (Side::Bottom, (5, 4)));
    assert_eq!(relay(&next[1]), (Side::Left, (6, 5)));
    assert_eq!(relay(&next[2]), (Side::Top, (5, 6)));
}

#[test]
fn a_signal_where_there_is_no_wire_comes_to_nothing() {
    let mut canvas = switch_and_wire();
    assert!(ObjectData::Wire(Side::Left, (20, 20)).continue_sending(&mut canvas).is_none());
    assert!(ObjectData::Wire(Side::Left, (5, 5)).continue_sending(&mut canvas).is_none());
    assert_eq!(values(&canvas), [false, false, false]);
    assert_eq!(canvas.pixels.cells.positions().len(), 6);
}

#[test]
fn wire_hands_its_value_to_an_input_node() {
    let mut canvas = CanvasState::new(0);
    let mut led = create_new_object(ObjectId(4), ObjectType::Led, (5, 5), None);
    led.set_cell_pos((5, 5));
    canvas.pixels.add_object(led);
    canvas.pixels.insert_object_cells_by_id(ObjectId(4));
    canvas.pixels.insert_cell((3, 5), wire(0));
    canvas.pixels.insert_cell((7, 5), wire(0));
    canvas.pixels.set_wire_value((3, 5), on());
    let next = ObjectData::Wire(Side::Left, (3, 5)).continue_sending(&mut canvas).expect("signals");
    assert_eq!(canvas.pixels.objects[0].current_value(), on());
    assert_eq!(next.len(), 1);
    assert_eq!(from_node(&next[0]), (4, (6, 5), NodeObjectSide::Right(0), on()));
    assert_eq!(
        canvas.pixels.get_pixel_type_from_cell(&(5, 5)).map(|p| p.type_of),
        Some(PixelType::Custom(PixelColor(190, 224, 31)))
    );
    assert_eq!(canvas.pixels.get_wire_value((3, 5)), Some(off()));
    let next = next[0].continue_sending(&mut canvas).expect("signals");
    assert_eq!(next.len(), 1);
    assert_eq!(relay(&next[0]), (Side::Left, (7, 5)));
    assert_eq!(canvas.pixels.get_wire_value((7, 5)), Some(on()));
}

#[test]
fn a_node_hands_its_value_to_an_input_node_next_to_it() {
    let mut canvas = CanvasState::new(0);
    let mut button = create_new_object(ObjectId(1), ObjectType::Button, (5, 5), None);
    button.set_cell_pos((5, 5));
    let mut probe = create_new_object(ObjectId(2), ObjectType::TestObj, (8, 4), None);
    probe.set_cell_pos((8, 4));
    canvas.pixels.add_object(button);
    canvas.pixels.add_object(probe);
    canvas.pixels.re_render_objects();
    let signal = ObjectData::FromNode(ObjectId(1), (6, 5), NodeObjectSide::Right(0), on());
    let next = signal.continue_sending(&mut canvas).expect("signals");
    assert_eq!(canvas.pixels.objects[1].current_value(), on());
    assert_eq!(next.len(), 1);
    assert_eq!(from_node(&next[0]), (2, (11, 5), NodeObjectSide::Right(1), on()));
}

#[test]
fn output_nodes_take_nothing() {
    let mut canvas = CanvasState::new(0);
    let mut a = create_new_object(ObjectId(1), ObjectType::Button, (5, 5), None);
    a.set_cell_pos((5, 5));
    let mut b = create_new_object(ObjectId(2), ObjectType::Switch, (8, 5), None);
    b.set_cell_pos((8, 5));
    canvas.pixels.add_object(a);
    canvas.pixels.add_object(b);
    canvas.pixels.re_render_objects();
    let signal = ObjectData::FromNode(ObjectId(1), (6, 5), NodeObjectSide::Right(0), on());
    let next = signal.continue_sending(&mut canvas).expect("signals");
    assert!(next.is_empty());
    assert_eq!(canvas.pixels.objects[1].current_value(), off());
}

#[test]
fn a_pulse_goes_round_a_ring_one_cell_at_a_time() {
    let mut canvas = CanvasState::new(0);
    let ring = [(5, 5), (6, 5), (7, 5), (7, 6), (7, 7), (6, 7), (5, 7), (5, 6)];
    for cell in ring {
        canvas.pixels.insert_cell(cell, wire(0));
    }
    canvas.pixels.set_wire_value((5, 5), on());
    let mut waiting = vec![ObjectData::Wire(Side::Bottom, (5, 5))];
    for hop in 1..=24 {
        let mut next = Vec::new();
        for signal in waiting {
            if let Some(mut more) = signal.continue_sending(&mut canvas) {
                next.append(&mut more);
            }
        }
        waiting = next;
        assert_eq!(waiting.len(), 1);
        let active: Vec<_> =
            ring.iter().filter(|cell| canvas.pixels.get_wire_value(**cell) == Some(on())).collect();
        assert_eq!(active, vec![&ring[hop % 8]]);
        assert_eq!(waiting[0].cell(), ring[hop % 8]);
    }
}

#[test]
fn a_pulse_ends_at_the_end_of_the_wire() {
    let mut canvas = CanvasState::new(0);
    for x in 5..9 {
        canvas.pixels.insert_cell((x, 5), wire(0));
    }
    canvas.pixels.set_wire_value((5, 5), on());
    let mut waiting = vec![ObjectData::Wire(Side::Left, (5, 5))];
    let mut hops = 0;
    while !waiting.is_empty() {
        let mut next = Vec::new();
        for signal in waiting {
            if let Some(mut more) = signal.continue_sending(&mut canvas) {
                next.append(&mut more);
            }
        }
        waiting = next;
        hops += 1;
        assert!(hops <= 4);
    }
    assert_eq!(hops, 4);
    for x in 5..9 {
        assert_eq!(canvas.pixels.get_wire_value((x, 5)), Some(off()));
    }
}
