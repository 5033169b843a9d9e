use circuit_sim::canvas::pixels::map::PixelMap;
use circuit_sim::canvas::pixels::util::{PixelColor, PixelType};
use circuit_sim::editor::event::{MouseButton, MouseEvent};
use circuit_sim::editor::node::Node;
use circuit_sim::ids::{IdCounter, ObjectId};
use circuit_sim::object::{NodeValue, NodeValueTypes, ObjectType};
use circuit_sim::objects::basic::button::ButtonState;
use circuit_sim::objects::basic::led::LedState;
use circuit_sim::objects::basic::switch::SwitchState;
use circuit_sim::objects::testobj::TestObjState;
use circuit_sim::objects::{
    create_new_object, create_new_object_from_type, DefaultValue, Object, ObjectData,
    ObjectUpdateEvent,
};
use circuit_sim::size::{Dimensions, NodeDirection, NodeObjectSide, Side};

fn click() -> ObjectUpdateEvent {
    ObjectUpdateEvent::MouseClickObject(MouseEvent { button: MouseButton::Left })
}

fn parts(signal: &ObjectData) -> (usize, (usize, usize), NodeObjectSide, bool) {
    match signal {
        ObjectData::FromNode(id, cell, side, value) => (id.0, *cell, *side, value.is_active()),
        ObjectData::Wire(_, _) => panic!("a signal on wire, where one from a node was expected"),
    }
}

fn node_parts(node: &Node) -> ((usize, usize), NodeObjectSide, NodeDirection, bool) {
    (node.cell_pos, node.side, node.direction, node.is_disabled)
}

#[test]
fn new_node_is_at_the_origin() {
    let node = Node::new(NodeObjectSide::Top(2), NodeDirection::Input, NodeValueTypes::Current);
    assert_eq!(node_parts(&node), ((0, 0), NodeObjectSide::Top(2), NodeDirection::Input, false));
    assert!(node.accepts.accepts(NodeValueTypes::Current));
    assert!(!node.accepts.accepts(NodeValueTypes::Gpio));
    let input = Node::new_input(NodeObjectSide::Left(0), NodeValueTypes::Gpio);
    assert_eq!(input.direction, NodeDirection::Input);
    let output = Node::new_output(NodeObjectSide::Right(1), NodeValueTypes::Gpio);
    assert_eq!(output.direction, NodeDirection::Output);
    assert_eq!(output.side, NodeObjectSide::Right(1));
}

#[test]
fn node_sends_from_where_it_is() {
    let mut node = Node::new_output(NodeObjectSide::Right(1), NodeValueTypes::Gpio);
    node.cell_pos = (8, 6);
    let signal = node.send_output(ObjectId(4), NodeValue::Gpio(true));
    assert_eq!(parts(&signal), (4, (8, 6), NodeObjectSide::Right(1), true));
}

#[test]
fn button_as_made() {
    let button = create_new_object(ObjectId(7), ObjectType::Button, (5, 5), None);
    assert!(matches!(button, Object::Button(_)));
    assert_eq!(button.get_id(), ObjectId(7));
    assert_eq!(button.get_cell_pos(), (5, 5));
    assert_eq!(button.get_dimensions(), Dimensions(1, 1));
    assert_eq!(button.get_object_state().get_type(), ObjectType::Button);
    assert_eq!(button.get_object_state().get_default(), DefaultValue::Null);
    let nodes = button.get_object_state().get_nodes();
    assert_eq!(nodes.len(), 4);
    assert_eq!(nodes[0].side, NodeObjectSide::Right(0));
    assert_eq!(nodes[1].side, NodeObjectSide::Left(0));
    assert_eq!(nodes[2].side, NodeObjectSide::Top(0));
    assert_eq!(nodes[3].side, NodeObjectSide::Bottom(0));
    for node in nodes.iter() {
        assert_eq!(node.direction, NodeDirection::Output);
        assert_eq!(node.cell_pos, (0, 0));
        assert!(!node.is_disabled);
    }
    assert_eq!(button.name(), "Button");
    assert_eq!(button.display_name(), "Btn");
    assert!(button.is_clickable());
    assert!(button.is_tickable());
    assert_eq!(button.current_value(), NodeValue::Gpio(false));
}

#[test]
fn objects_keep_the_size_they_are_given() {
    let led = create_new_object(ObjectId(1), ObjectType::Led, (0, 0), Some(Dimensions(2, 3)));
    assert_eq!(led.get_dimensions(), Dimensions(2, 3));
    let probe = create_new_object(ObjectId(1), ObjectType::TestObj, (0, 0), None);
    assert_eq!(probe.get_dimensions(), Dimensions(3, 3));
    assert_eq!(ButtonState::default_dim(), Dimensions(1, 1));
    assert_eq!(LedState::default_dim(), Dimensions(1, 1));
    assert_eq!(SwitchState::default_dim(), Dimensions(1, 1));
    assert_eq!(TestObjState::default_dim(), Dimensions(3, 3));
}

#[test]
fn new_object_from_type_gets_fresh_identifiers() {
    let mut ids = IdCounter::new();
    let first = create_new_object_from_type(ObjectType::Switch, &mut ids);
    let second = create_new_object_from_type(ObjectType::Led, &mut ids);
    assert_eq!(first.get_id(), ObjectId(1));
    assert_eq!(second.get_id(), ObjectId(2));
    assert_eq!(first.get_cell_pos(), (5, 5));
    assert_eq!(second.get_cell_pos(), (5, 5));
    assert!(matches!(first, Object::Switch(_)));
    assert!(matches!(second, Object::Led(_)));
}

#[test]
fn moving_an_object_places_its_nodes() {
    let mut button = create_new_object(ObjectId(1), ObjectType::Button, (5, 5), None);
    button.set_cell_pos((10, 10));
    assert_eq!(button.get_cell_pos(), (10, 10));
    let nodes = button.get_object_state().get_nodes();
    assert_eq!(nodes[0].cell_pos, (11, 10));
    assert_eq!(nodes[1].cell_pos, (9, 10));
    assert_eq!(nodes[2].cell_pos, (10, 9));
    assert_eq!(nodes[3].cell_pos, (10, 11));
    assert!(nodes.iter().all(|node| !node.is_disabled));
}

#[test]
fn nodes_off_the_grid_are_disabled() {
    let mut button = create_new_object(ObjectId(1), ObjectType::Button, (5, 5), None);
    button.set_cell_pos((0, 0));
    let nodes = button.get_object_state().get_nodes();
    assert_eq!(node_parts(&nodes[0]), ((1, 0), NodeObjectSide::Right(0), NodeDirection::Output, false));
    assert_eq!(node_parts(&nodes[1]), ((0, 0), NodeObjectSide::Left(0), NodeDirection::Output, true));
    assert_eq!(node_parts(&nodes[2]), ((0, 0), NodeObjectSide::Top(0), NodeDirection::Output, true));
    assert_eq!(node_parts(&nodes[3]), ((0, 1), NodeObjectSide::Bottom(0), NodeDirection::Output, false));
    button.set_cell_pos((3, 3));
    let nodes = button.get_object_state().get_nodes();
    assert!(nodes.iter().all(|node| !node.is_disabled));
    assert_eq!(nodes[1].cell_pos, (2, 3));
}

#[test]
fn resizing_an_object_places_its_nodes() {
    let mut probe = create_new_object(ObjectId(1), ObjectType::TestObj, (5, 5), None);
    probe.set_cell_pos((5, 5));
    let nodes = probe.get_object_state().get_nodes();
    assert_eq!(nodes[0].cell_pos, (4, 6));
    assert_eq!(nodes[1].cell_pos, (8, 6));
    probe.set_dimensions(Dimensions(4, 5));
    assert_eq!(probe.get_dimensions(), Dimensions(4, 5));
    let nodes = probe.get_object_state().get_nodes();
    assert_eq!(nodes[0].cell_pos, (4, 8));
    assert_eq!(nodes[1].cell_pos, (9, 6));
}

#[test]
fn button_sends_on_click_only() {
    let mut button = create_new_object(ObjectId(3), ObjectType::Button, (5, 5), None);
    button.set_cell_pos((5, 5));
    let sent = button.tick(click());
    assert_eq!(sent.len(), 4);
    assert_eq!(parts(&sent[0]), (3, (6, 5), NodeObjectSide::Right(0), true));
    assert_eq!(parts(&sent[1]), (3, (4, 5), NodeObjectSide::Left(0), true));
    assert_eq!(parts(&sent[2]), (3, (5, 4), NodeObjectSide::Top(0), true));
    assert_eq!(parts(&sent[3]), (3, (5, 6), NodeObjectSide::Bottom(0), true));
    assert!(button.tick(ObjectUpdateEvent::GlobalTick).is_empty());
    assert!(button.tick(ObjectUpdateEvent::MouseHoveringObject).is_empty());
    assert!(button
        .tick(ObjectUpdateEvent::MouseDownObject(MouseEvent { button: MouseButton::Left }))
        .is_empty());
    assert!(button
        .tick(ObjectUpdateEvent::MouseUpObject(MouseEvent { button: MouseButton::Left }))
        .is_empty());
    assert_eq!(button.current_value(), NodeValue::Gpio(false));
    assert!(button.on_receive(NodeObjectSide::Left(0), NodeValue::Gpio(true)).is_none());
}

#[test]
fn switch_toggles_on_click_and_sends_on_tick() {
    let mut switch = create_new_object(ObjectId(9), ObjectType::Switch, (5, 5), None);
    switch.set_cell_pos((5, 5));
    assert_eq!(switch.current_value(), NodeValue::Gpio(false));
    assert_eq!(switch.display_name(), "0");
    assert_eq!(switch.name(), "Switch");
    assert!(switch.tick(ObjectUpdateEvent::GlobalTick).is_empty());
    assert!(switch.tick(click()).is_empty());
    assert_eq!(switch.current_value(), NodeValue::Gpio(true));
    assert_eq!(switch.display_name(), "1");
    let sent = switch.tick(ObjectUpdateEvent::GlobalTick);
    assert_eq!(sent.len(), 2);
    assert_eq!(parts(&sent[0]), (9, (4, 5), NodeObjectSide::Left(0), true));
    assert_eq!(parts(&sent[1]), (9, (6, 5), NodeObjectSide::Right(0), true));
    assert_eq!(switch.current_value(), NodeValue::Gpio(true));
    assert!(switch.tick(click()).is_empty());
    assert_eq!(switch.current_value(), NodeValue::Gpio(false));
    assert!(switch.tick(ObjectUpdateEvent::GlobalTick).is_empty());
    assert!(switch.is_clickable());
    assert!(switch.on_receive(NodeObjectSide::Left(0), NodeValue::Gpio(true)).is_none());
    assert_eq!(switch.current_value(), NodeValue::Gpio(false));
}

#[test]
fn switch_goes_back_to_off_on_reset() {
    let mut switch = SwitchState::new_with_nodes(ObjectId(1), (2, 2), None);
    assert!(!switch.is_toggled());
    switch.tick(click());
    assert!(switch.is_toggled());
    switch.reset_values();
    assert!(!switch.is_toggled());
    assert_eq!(switch.get_object_state().get_default(), DefaultValue::Bool(false));
    assert!(switch.get_object_state().get_default_saved() == false);
    let mut wrapped = Object::Switch(switch);
    wrapped.tick(click());
    assert_eq!(wrapped.current_value(), NodeValue::Gpio(true));
    wrapped.reset_values();
    assert_eq!(wrapped.current_value(), NodeValue::Gpio(false));
}

#[test]
fn led_remembers_and_relays() {
    let mut led = create_new_object(ObjectId(2), ObjectType::Led, (5, 5), None);
    led.set_cell_pos((5, 5));
    assert_eq!(led.current_value(), NodeValue::Gpio(false));
    let sent = led.on_receive(NodeObjectSide::Left(0), NodeValue::Gpio(true)).expect("an output");
    assert_eq!(sent.len(), 1);
    assert_eq!(parts(&sent[0]), (2, (6, 5), NodeObjectSide::Right(0), true));
    assert_eq!(led.current_value(), NodeValue::Gpio(true));
    let sent = led.on_receive(NodeObjectSide::Left(0), NodeValue::Gpio(false)).expect("an output");
    assert_eq!(parts(&sent[0]), (2, (6, 5), NodeObjectSide::Right(0), false));
    assert_eq!(led.current_value(), NodeValue::Gpio(false));
    assert_eq!(led.name(), "LED");
    assert_eq!(led.display_name(), "LED");
    assert!(!led.is_clickable());
    assert!(led.is_tickable());
}

#[test]
fn led_without_outputs_sends_nothing() {
    let mut led = LedState::new_with_opts(ObjectId(2), (5, 5), None);
    assert!(led.on_receive(NodeObjectSide::Left(0), NodeValue::Gpio(true)).is_none());
    assert!(led.is_lit());
}

#[test]
fn led_goes_dark_with_the_tick_and_on_reset() {
    let mut led = create_new_object(ObjectId(2), ObjectType::Led, (5, 5), None);
    led.on_receive(NodeObjectSide::Left(0), NodeValue::Gpio(true));
    assert!(led.tick(click()).is_empty());
    assert_eq!(led.current_value(), NodeValue::Gpio(true));
    assert!(led.tick(ObjectUpdateEvent::GlobalTick).is_empty());
    assert_eq!(led.current_value(), NodeValue::Gpio(false));
    led.on_receive(NodeObjectSide::Left(0), NodeValue::Gpio(true));
    led.reset_values();
    assert_eq!(led.current_value(), NodeValue::Gpio(false));
}

#[test]
fn probe_relays_and_keeps_what_it_got() {
    let mut probe = create_new_object(ObjectId(5), ObjectType::TestObj, (5, 5), None);
    probe.set_cell_pos((5, 5));
    assert_eq!(probe.current_value(), NodeValue::Gpio(false));
    assert!(!probe.is_tickable());
    assert!(!probe.is_clickable());
    let sent = probe.on_receive(NodeObjectSide::Left(1), NodeValue::Gpio(true)).expect("signals");
    assert_eq!(sent.len(), 1);
    assert_eq!(parts(&sent[0]), (5, (8, 6), NodeObjectSide::Right(1), true));
    assert_eq!(probe.current_value(), NodeValue::Gpio(true));
    assert!(probe.tick(ObjectUpdateEvent::GlobalTick).is_empty());
    assert!(probe.tick(click()).is_empty());
    assert_eq!(probe.current_value(), NodeValue::Gpio(true));
    probe.reset_values();
    assert_eq!(probe.current_value(), NodeValue::Gpio(false));
    assert_eq!(probe.name(), "TestObj");
    assert_eq!(probe.display_name(), "Test");
}

#[test]
fn probe_without_outputs_answers_with_no_signals() {
    let mut probe = TestObjState::new_with_opts(ObjectId(5), (5, 5), None);
    let sent = probe.on_receive(NodeObjectSide::Left(1), NodeValue::Gpio(true)).expect("a list");
    assert!(sent.is_empty());
}

#[test]
fn cells_inside_an_object() {
    let mut probe = create_new_object(ObjectId(5), ObjectType::TestObj, (5, 5), None);
    probe.set_cell_pos((5, 5));
    for x in 5..8 {
        for y in 5..8 {
            assert!(probe.is_cell_inside((x, y)));
        }
    }
    assert!(probe.is_cell_inside((4, 6)));
    assert!(probe.is_cell_inside((8, 6)));
    assert!(!probe.is_cell_inside((4, 5)));
    assert!(!probe.is_cell_inside((4, 7)));
    assert!(!probe.is_cell_inside((8, 5)));
    assert!(!probe.is_cell_inside((5, 4)));
    assert!(!probe.is_cell_inside((5, 8)));
    assert!(!probe.is_cell_inside((9, 6)));
    assert!(!probe.is_cell_inside((0, 0)));
}

#[test]
fn node_found_by_its_cell() {
    let mut probe = create_new_object(ObjectId(5), ObjectType::TestObj, (5, 5), None);
    assert!(probe.get_node_from_cell_pos(&(4, 6)).is_none());
    let stale = probe.get_node_from_cell_pos(&(0, 0)).expect("the first node, not placed yet");
    assert_eq!(stale.side, NodeObjectSide::Left(1));
    probe.set_cell_pos((5, 5));
    let input = probe.get_node_from_cell_pos(&(4, 6)).expect("the input");
    assert_eq!(input.side, NodeObjectSide::Left(1));
    assert_eq!(input.direction, NodeDirection::Input);
    let output = probe.get_node_from_cell_pos(&(8, 6)).expect("the output");
    assert_eq!(output.side, NodeObjectSide::Right(1));
    assert!(probe.get_node_from_cell_pos(&(6, 6)).is_none());
    assert!(probe.get_node_from_cell_pos(&(0, 0)).is_none());
}

fn node() -> PixelType {
    PixelType::Node { direction: NodeDirection::Output, side: Side::Top }
}

#[test]
fn footprint_of_a_button() {
    let mut button = create_new_object(ObjectId(1), ObjectType::Button, (5, 5), None);
    button.set_cell_pos((5, 5));
    let out = |side| PixelType::Node { direction: NodeDirection::Output, side };
    assert_eq!(
        button.pixel_map().pixel_positions_with_types((5, 5)),
        vec![
            ((5, 4), out(Side::Top)),
            ((4, 5), out(Side::Left)),
            ((5, 5), PixelType::ObjectColor),
            ((6, 5), out(Side::Right)),
            ((5, 6), out(Side::Bottom)),
        ]
    );
    assert_eq!(
        button.pixel_map().pixel_positions((5, 5)),
        vec![(5, 4), (4, 5), (5, 5), (6, 5), (5, 6)]
    );
    assert_ne!(out(Side::Top), out(Side::Left));
    assert_eq!(node(), out(Side::Top));
}

#[test]
fn footprint_at_the_corner_leaves_out_what_is_off_the_grid() {
    let button = create_new_object(ObjectId(1), ObjectType::Button, (0, 0), None);
    assert_eq!(button.pixel_map().pixel_positions((0, 0)), vec![(0, 0), (1, 0), (0, 1)]);
}

#[test]
fn footprint_of_a_probe() {
    let probe = create_new_object(ObjectId(1), ObjectType::TestObj, (5, 5), None);
    let cells = probe.pixel_map().pixel_positions_with_types((5, 5));
    assert_eq!(cells.len(), 11);
    assert_eq!(cells[0], ((5, 5), PixelType::ObjectColor));
    assert_eq!(cells[2], ((7, 5), PixelType::ObjectColor));
    assert_eq!(
        cells[3],
        ((4, 6), PixelType::Node { direction: NodeDirection::Input, side: Side::Left })
    );
    assert_eq!(cells[4], ((5, 6), PixelType::ObjectColor));
    assert_eq!(
        cells[7],
        ((8, 6), PixelType::Node { direction: NodeDirection::Output, side: Side::Right })
    );
    assert_eq!(cells[10], ((7, 7), PixelType::ObjectColor));
}

#[test]
fn footprint_of_a_light_shows_whether_it_is_lit() {
    let mut led = create_new_object(ObjectId(1), ObjectType::Led, (5, 5), None);
    let dark = led.pixel_map().pixel_positions_with_types((5, 5));
    assert_eq!(
        dark,
        vec![
            ((4, 5), PixelType::Node { direction: NodeDirection::Input, side: Side::Left }),
            ((5, 5), PixelType::Custom(PixelColor(80, 100, 15))),
            ((6, 5), PixelType::Node { direction: NodeDirection::Output, side: Side::Right }),
        ]
    );
    led.on_receive(NodeObjectSide::Left(0), NodeValue::Gpio(true));
    let lit = led.pixel_map().pixel_positions_with_types((5, 5));
    assert_eq!(lit[1], ((5, 5), PixelType::Custom(PixelColor(190, 224, 31))));
}

#[test]
fn footprint_of_a_switch_shows_whether_it_is_on() {
    let mut switch = create_new_object(ObjectId(1), ObjectType::Switch, (5, 5), None);
    let off = switch.pixel_map().pixel_positions_with_types((5, 5));
    assert_eq!(off[1], ((5, 5), PixelType::Custom(PixelColor(237, 66, 18))));
    switch.tick(click());
    let on = switch.pixel_map().pixel_positions_with_types((5, 5));
    assert_eq!(on[1], ((5, 5), PixelType::Custom(PixelColor(66, 251, 85))));
    assert_eq!(on.len(), 3);
}

#[test]
fn a_larger_light_is_coloured_all_over() {
    let led = create_new_object(ObjectId(1), ObjectType::Led, (5, 5), Some(Dimensions(2, 2)));
    let cells = led.pixel_map().pixel_positions_with_types((5, 5));
    let body: Vec<_> =
        cells.iter().filter(|(_, kind)| matches!(kind, PixelType::Custom(_))).map(|(pos, _)| *pos).collect();
    assert_eq!(body, vec![(5, 5), (6, 5), (5, 6), (6, 6)]);
}

#[test]
fn pixel_map_of_nothing() {
    let empty = PixelMap::new_empty(Dimensions(2, 2));
    assert!(empty.pixel_positions((5, 5)).is_empty());
    let body = PixelMap::new_empty(Dimensions(2, 1)).generate(&[]);
    assert_eq!(body.pixel_positions((5, 5)), vec![(5, 5), (6, 5)]);
}

#[test]
fn pixel_map_from_a_body_given_cell_by_cell() {
    let body = vec![
        PixelType::Custom(PixelColor(1, 0, 0)),
        PixelType::Custom(PixelColor(2, 0, 0)),
        PixelType::Custom(PixelColor(3, 0, 0)),
        PixelType::Custom(PixelColor(4, 0, 0)),
        PixelType::Custom(PixelColor(5, 0, 0)),
        PixelType::Custom(PixelColor(6, 0, 0)),
    ];
    let nodes = [Node::new_input(NodeObjectSide::Bottom(0), NodeValueTypes::Gpio)];
    let map = PixelMap::generate_with_object_map(Dimensions(3, 2), body, &nodes);
    assert_eq!(
        map.pixel_positions_with_types((1, 1)),
        vec![
            ((1, 1), PixelType::Custom(PixelColor(1, 0, 0))),
            ((2, 1), PixelType::Custom(PixelColor(2, 0, 0))),
            ((3, 1), PixelType::Custom(PixelColor(3, 0, 0))),
            ((1, 2), PixelType::Custom(PixelColor(4, 0, 0))),
            ((2, 2), PixelType::Custom(PixelColor(5, 0, 0))),
            ((3, 2), PixelType::Custom(PixelColor(6, 0, 0))),
            ((3, 3), PixelType::Node { direction: NodeDirection::Input, side: Side::Bottom }),
        ]
    );
}

#[test]
fn later_node_shows_where_two_share_a_slot() {
    let nodes = [
        Node::new_input(NodeObjectSide::Top(0), NodeValueTypes::Gpio),
        Node::new_output(NodeObjectSide::Top(0), NodeValueTypes::Gpio),
    ];
    let map = PixelMap::new_with_nodes(Dimensions(1, 1), &nodes);
    assert_eq!(
        map.pixel_positions_with_types((3, 3)),
        vec![
            ((3, 2), PixelType::Node { direction: NodeDirection::Output, side: Side::Top }),
            ((3, 3), PixelType::ObjectColor),
        ]
    );
}

#[test]
fn overlapping_objects() {
    let mut a = create_new_object(ObjectId(1), ObjectType::Button, (5, 5), None);
    let mut b = create_new_object(ObjectId(2), ObjectType::Button, (5, 5), None);
    a.set_cell_pos((5, 5));
    b.set_cell_pos((5, 5));
    assert!(a.is_overlapping(&b));
    b.set_cell_pos((7, 5));
    assert!(a.is_overlapping(&b));
    b.set_cell_pos((8, 5));
    assert!(!a.is_overlapping(&b));
    b.set_cell_pos((6, 6));
    assert!(a.is_overlapping(&b));
    b.set_cell_pos((7, 7));
    assert!(!a.is_overlapping(&b));
    assert!(!b.is_overlapping(&a));
}

#[test]
fn nodes_can_be_added_and_replaced() {
    let mut led = create_new_object(ObjectId(1), ObjectType::Led, (5, 5), None);
    led.add_node(Node::new_output(NodeObjectSide::Top(0), NodeValueTypes::Gpio));
    assert_eq!(led.get_object_state().get_nodes().len(), 3);
    assert_eq!(led.get_object_state().get_nodes()[2].side, NodeObjectSide::Top(0));
    led.set_nodes(vec![Node::new_input(NodeObjectSide::Bottom(0), NodeValueTypes::Gpio)]);
    assert_eq!(led.get_object_state().get_nodes().len(), 1);
    led.get_object_state_mut().add_node(Node::new_output(NodeObjectSide::Left(0), NodeValueTypes::Gpio));
    assert_eq!(led.get_object_state().get_nodes().len(), 2);
    led.get_object_state_mut().set_cell_pos((9, 9));
    assert_eq!(led.get_cell_pos(), (9, 9));
    assert_eq!(led.get_object_state().get_nodes()[0].cell_pos, (9, 10));
    assert_eq!(led.get_object_state().get_nodes()[1].cell_pos, (8, 9));
}

#[test]
fn update_events() {
    assert!(ObjectUpdateEvent::GlobalTick.is_global_tick());
    assert!(!click().is_global_tick());
    assert!(click().is_click());
    assert!(!ObjectUpdateEvent::MouseHoveringObject.is_click());
}

#[test]
fn signals_compare_by_kind_and_cell() {
    let a = ObjectData::FromNode(ObjectId(1), (2, 3), NodeObjectSide::Left(0), NodeValue::Gpio(true));
    let b = ObjectData::FromNode(ObjectId(9), (2, 3), NodeObjectSide::Top(4), NodeValue::Gpio(false));
    let c = ObjectData::FromNode(ObjectId(1), (2, 4), NodeObjectSide::Left(0), NodeValue::Gpio(true));
    let w = ObjectData::Wire(Side::Left, (2, 3));
    let v = ObjectData::Wire(Side::Top, (2, 3));
    let u = ObjectData::Wire(Side::Left, (3, 2));
    assert!(a == b);
    assert!(a != c);
    assert!(a != w);
    assert!(w == v);
    assert!(w != u);
    assert_eq!(a.cell(), (2, 3));
    assert_eq!(u.cell(), (3, 2));
}

#[test]
fn sound_and_unsound_objects() {
    for kind in ObjectType::list() {
        assert!(create_new_object(ObjectId(1), kind, (5, 5), None).is_valid());
    }
    let flat = create_new_object(ObjectId(1), ObjectType::Button, (5, 5), Some(Dimensions(0, 1)));
    assert!(!flat.is_valid());
    let low = create_new_object(ObjectId(1), ObjectType::TestObj, (5, 5), Some(Dimensions(3, 1)));
    assert!(!low.is_valid());
    let tall = create_new_object(ObjectId(1), ObjectType::TestObj, (5, 5), Some(Dimensions(1, 2)));
    assert!(tall.is_valid());
    let huge = create_new_object(ObjectId(1), ObjectType::Led, (5, 5), Some(Dimensions(usize::MAX, 1)));
    assert!(!huge.is_valid());
    let mut led = create_new_object(ObjectId(1), ObjectType::Led, (5, 5), None);
    assert!(led.get_object_state().is_valid());
    led.add_node(Node::new_output(NodeObjectSide::Top(1), NodeValueTypes::Gpio));
    assert!(!led.is_valid());
    led.set_dimensions(Dimensions(2, 1));
    assert!(led.is_valid());
    assert_eq!(led.get_object_state().get_id(), ObjectId(1));
}

#[test]
fn pictures_that_can_and_cannot_be_held() {
    assert!(PixelMap::can_hold(Dimensions(1, 1)));
    assert!(PixelMap::can_hold(Dimensions(0, 0)));
    assert!(PixelMap::can_hold(Dimensions(1000, 1000)));
    assert!(!PixelMap::can_hold(Dimensions(usize::MAX, 0)));
    assert!(!PixelMap::can_hold(Dimensions(0, usize::MAX - 1)));
    assert!(!PixelMap::can_hold(Dimensions(usize::MAX / 2, 1)));
    assert!(PixelMap::can_hold(Dimensions(usize::MAX / 2 - 2, 0)));
}
