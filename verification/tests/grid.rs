use circuit_sim::canvas::pixels::util::{Pixel, PixelColor, PixelDisplay, PixelType};
use circuit_sim::canvas::pixels::PixelBackground;
use circuit_sim::editor::event::{MouseButton, MouseEvent};
use circuit_sim::ids::ObjectId;
use circuit_sim::object::{NodeValue, ObjectType};
use circuit_sim::objects::{create_new_object, Object, ObjectUpdateEvent};
use circuit_sim::size::{NodeDirection, NodeObjectSide, Side};

fn wire(index: usize) -> PixelType {
    PixelType::Wire { index, value: NodeValue::Gpio(false) }
}

fn flags(grid: &PixelBackground, pos: (usize, usize)) -> u8 {
    grid.get_pixel_type_from_cell(&pos).expect("a cell that holds something").display.0
}

fn kind(grid: &PixelBackground, pos: (usize, usize)) -> Option<PixelType> {
    grid.get_pixel_type_from_cell(&pos).map(|pixel| pixel.type_of)
}

fn placed(id: usize, kind: ObjectType, pos: (usize, usize)) -> Object {
    let mut object = create_new_object(ObjectId(id), kind, (5, 5), None);
    object.set_cell_pos(pos);
    object
}

#[test]
fn new_grid_is_empty_with_nine_colours() {
    let grid = PixelBackground::new();
    assert_eq!(grid.palette.len(), 9);
    assert_eq!(grid.palette[0], (PixelColor(196, 196, 190), PixelColor(145, 145, 134)));
    assert_eq!(grid.palette[8], (PixelColor(243, 143, 149), PixelColor(233, 46, 58)));
    assert!(grid.objects.is_empty());
    assert!(grid.cells.positions().is_empty());
    assert_eq!(grid.get_pixel_type_from_cell(&(0, 0)), None);
}

#[test]
fn neighbours_of_a_cell() {
    assert_eq!(
        PixelBackground::get_surrounding_cells((5, 5)),
        vec![
            ((5, 6), Side::Bottom),
            ((6, 5), Side::Right),
            ((4, 5), Side::Left),
            ((5, 4), Side::Top)
        ]
    );
    assert_eq!(
        PixelBackground::get_surrounding_cells((0, 0)),
        vec![((0, 1), Side::Bottom), ((1, 0), Side::Right)]
    );
    assert_eq!(
        PixelBackground::get_surrounding_cells((0, 3)),
        vec![((0, 4), Side::Bottom), ((1, 3), Side::Right), ((0, 2), Side::Top)]
    );
}

#[test]
fn lone_wire_shows_no_joins() {
    let mut grid = PixelBackground::new();
    grid.insert_cell((5, 5), wire(0));
    assert_eq!(
        grid.get_pixel_type_from_cell(&(5, 5)),
        Some(Pixel { type_of: wire(0), display: PixelDisplay(0) })
    );
    assert!(grid.is_cell_wire((5, 5)));
    assert!(!grid.is_cell_node((5, 5)));
    assert!(!grid.is_cell_wire((5, 6)));
}

#[test]
fn wire_joins_wire_of_its_colour() {
    let mut grid = PixelBackground::new();
    grid.insert_cell((5, 5), wire(0));
    grid.insert_cell((6, 5), wire(0));
    assert_eq!(flags(&grid, (5, 5)), 0b0001);
    assert_eq!(flags(&grid, (6, 5)), 0b0010);
    grid.insert_cell((5, 4), wire(0));
    grid.insert_cell((5, 6), wire(0));
    grid.insert_cell((4, 5), wire(0));
    assert_eq!(flags(&grid, (5, 5)), 0b1111);
    assert_eq!(flags(&grid, (5, 4)), 0b0100);
    assert_eq!(flags(&grid, (5, 6)), 0b1000);
    assert_eq!(flags(&grid, (4, 5)), 0b0001);
}

#[test]
fn wire_does_not_join_wire_of_another_colour() {
    let mut grid = PixelBackground::new();
    grid.insert_cell((5, 5), wire(0));
    grid.insert_cell((6, 5), wire(1));
    assert_eq!(flags(&grid, (5, 5)), 0);
    assert_eq!(flags(&grid, (6, 5)), 0);
    assert_eq!(grid.is_wire_same_palette_index((5, 5), 0), Some(true));
    assert_eq!(grid.is_wire_same_palette_index((6, 5), 0), Some(false));
    assert_eq!(grid.is_wire_same_palette_index((7, 5), 0), None);
}

#[test]
fn deleting_a_cell_drops_the_joins_with_it() {
    let mut grid = PixelBackground::new();
    grid.insert_cell((5, 5), wire(0));
    grid.insert_cell((6, 5), wire(0));
    grid.insert_cell((7, 5), wire(0));
    assert_eq!(flags(&grid, (6, 5)), 0b0011);
    grid.delete_cell((6, 5));
    assert_eq!(grid.get_pixel_type_from_cell(&(6, 5)), None);
    assert_eq!(flags(&grid, (5, 5)), 0);
    assert_eq!(flags(&grid, (7, 5)), 0);
    grid.delete_cell((6, 5));
    assert_eq!(grid.cells.positions().len(), 2);
}

#[test]
fn putting_something_into_a_full_cell_replaces_it() {
    let mut grid = PixelBackground::new();
    grid.insert_cell((5, 5), wire(0));
    grid.insert_cell((6, 5), wire(0));
    grid.insert_cell((6, 5), wire(3));
    assert_eq!(kind(&grid, (6, 5)), Some(wire(3)));
    assert_eq!(flags(&grid, (5, 5)), 0);
    assert_eq!(flags(&grid, (6, 5)), 0);
    grid.insert_cell((6, 5), PixelType::ObjectColor);
    assert_eq!(kind(&grid, (6, 5)), Some(PixelType::ObjectColor));
    assert_eq!(flags(&grid, (6, 5)), 0);
}

#[test]
fn node_joins_what_is_next_to_it_and_its_body() {
    let mut grid = PixelBackground::new();
    grid.insert_cell((5, 5), wire(4));
    let node = PixelType::Node { direction: NodeDirection::Input, side: Side::Left };
    grid.insert_cell((4, 5), node);
    assert_eq!(flags(&grid, (4, 5)), 0b0001);
    assert_eq!(flags(&grid, (5, 5)), 0b0010);
    assert!(grid.is_cell_node((4, 5)));
    let top = PixelType::Node { direction: NodeDirection::Output, side: Side::Top };
    grid.insert_cell((5, 4), top);
    assert_eq!(flags(&grid, (5, 4)), 0b0100);
    assert_eq!(flags(&grid, (5, 5)), 0b1010);
    let right = PixelType::Node { direction: NodeDirection::Output, side: Side::Right };
    grid.insert_cell((9, 9), right);
    assert_eq!(flags(&grid, (9, 9)), 0b0010);
    let bottom = PixelType::Node { direction: NodeDirection::Output, side: Side::Bottom };
    grid.insert_cell((12, 12), bottom);
    assert_eq!(flags(&grid, (12, 12)), 0b1000);
}

#[test]
fn connectable_sides() {
    let mut grid = PixelBackground::new();
    grid.insert_cell((5, 4), wire(0));
    grid.insert_cell((4, 5), wire(1));
    grid.insert_cell((6, 5), PixelType::ObjectColor);
    grid.insert_cell(
        (5, 6),
        PixelType::Node { direction: NodeDirection::Input, side: Side::Top },
    );
    assert_eq!(grid.find_connectable_sides(&wire(0), (5, 5)), (true, true, false, false));
    assert_eq!(grid.find_connectable_sides(&wire(1), (5, 5)), (false, true, true, false));
    let node = PixelType::Node { direction: NodeDirection::Input, side: Side::Left };
    assert_eq!(grid.find_connectable_sides(&node, (5, 5)), (true, true, true, true));
    assert_eq!(
        grid.find_connectable_sides(&PixelType::ObjectColor, (5, 5)),
        (false, false, false, false)
    );
    assert_eq!(grid.find_connectable_sides(&node, (0, 0)), (false, false, false, false));
    assert!(grid.can_connect_to_cell(&wire(0), (5, 4)));
    assert!(!grid.can_connect_to_cell(&wire(0), (4, 5)));
    assert!(!grid.can_connect_to_cell(&wire(0), (6, 5)));
    assert!(grid.can_connect_to_cell(&wire(0), (5, 6)));
    assert!(grid.can_connect_to_cell(&node, (6, 5)));
    assert!(!grid.can_connect_to_cell(&node, (7, 7)));
}

#[test]
fn laying_wire_by_colour() {
    let mut grid = PixelBackground::new();
    let third = grid.palette[2].0;
    grid.set_wire((5, 5), third);
    assert_eq!(kind(&grid, (5, 5)), Some(wire(2)));
    assert_eq!(grid.get_wire_color((5, 5)), Some(third));
    assert_eq!(grid.get_wire_value((5, 5)), Some(NodeValue::Gpio(false)));
    grid.set_wire((5, 5), grid.palette[4].0);
    assert_eq!(kind(&grid, (5, 5)), Some(wire(4)));
    grid.set_wire((6, 6), PixelColor(1, 2, 3));
    assert_eq!(kind(&grid, (6, 6)), None);
    grid.set_wire((6, 6), grid.palette[2].1);
    assert_eq!(kind(&grid, (6, 6)), None);
    grid.insert_cell((7, 7), PixelType::ObjectColor);
    grid.set_wire((7, 7), third);
    assert_eq!(kind(&grid, (7, 7)), Some(PixelType::ObjectColor));
    assert_eq!(grid.get_wire_color((7, 7)), None);
    assert_eq!(grid.get_wire_value((7, 7)), None);
    assert_eq!(grid.palette_index_of(third), Some(2));
    assert_eq!(grid.palette_index_of(PixelColor(1, 2, 3)), None);
}

#[test]
fn wire_value_can_be_set() {
    let mut grid = PixelBackground::new();
    grid.insert_cell((5, 5), wire(0));
    grid.insert_cell((6, 5), wire(0));
    grid.set_wire_value((5, 5), NodeValue::Gpio(true));
    assert_eq!(grid.get_wire_value((5, 5)), Some(NodeValue::Gpio(true)));
    assert_eq!(grid.get_wire_value((6, 5)), Some(NodeValue::Gpio(false)));
    assert_eq!(flags(&grid, (5, 5)), 0b0001);
    grid.set_wire_value((9, 9), NodeValue::Gpio(true));
    assert_eq!(grid.get_wire_value((9, 9)), None);
    grid.insert_cell((9, 9), PixelType::ObjectColor);
    grid.set_wire_value((9, 9), NodeValue::Gpio(true));
    assert_eq!(kind(&grid, (9, 9)), Some(PixelType::ObjectColor));
}

#[test]
fn stamping_an_object() {
    let mut grid = PixelBackground::new();
    grid.add_object(placed(1, ObjectType::Button, (5, 5)));
    assert!(grid.cells.positions().is_empty());
    grid.insert_object_cells_by_id(ObjectId(1));
    let out = |side| Some(PixelType::Node { direction: NodeDirection::Output, side });
    assert_eq!(kind(&grid, (5, 4)), out(Side::Top));
    assert_eq!(kind(&grid, (4, 5)), out(Side::Left));
    assert_eq!(kind(&grid, (5, 5)), Some(PixelType::ObjectColor));
    assert_eq!(kind(&grid, (6, 5)), out(Side::Right));
    assert_eq!(kind(&grid, (5, 6)), out(Side::Bottom));
    assert_eq!(grid.cells.positions().len(), 5);
    assert_eq!(flags(&grid, (5, 4)), 0b0100);
    assert_eq!(flags(&grid, (4, 5)), 0b0001);
    assert_eq!(flags(&grid, (5, 5)), 0);
    assert_eq!(flags(&grid, (6, 5)), 0b0010);
    assert_eq!(flags(&grid, (5, 6)), 0b1000);
    grid.insert_object_cells_by_id(ObjectId(1));
    assert_eq!(grid.cells.positions().len(), 5);
    assert_eq!(flags(&grid, (5, 6)), 0b1000);
    assert_eq!(flags(&grid, (6, 5)), 0b0010);
}

#[test]
fn stamping_replaces_wire_and_joins_wire_next_to_nodes() {
    let mut grid = PixelBackground::new();
    grid.insert_cell((5, 5), wire(0));
    grid.insert_cell((7, 5), wire(0));
    grid.add_object(placed(1, ObjectType::Switch, (5, 5)));
    grid.insert_object_cells_by_id(ObjectId(1));
    assert_eq!(kind(&grid, (5, 5)), Some(PixelType::Custom(PixelColor(237, 66, 18))));
    assert_eq!(kind(&grid, (7, 5)), Some(wire(0)));
    assert_eq!(flags(&grid, (7, 5)), 0b0010);
    assert_eq!(flags(&grid, (6, 5)), 0b0011);
}

#[test]
fn unstamping_an_object() {
    let mut grid = PixelBackground::new();
    grid.insert_cell((7, 5), wire(0));
    grid.add_object(placed(1, ObjectType::Switch, (5, 5)));
    grid.insert_object_cells_by_id(ObjectId(1));
    grid.delete_object_cells(ObjectId(1));
    assert_eq!(grid.cells.positions(), vec![(7, 5)]);
    assert_eq!(flags(&grid, (7, 5)), 0);
    assert_eq!(grid.objects.len(), 1);
    grid.insert_object_cells_by_id(ObjectId(1));
    grid.delete_object(ObjectId(1));
    assert_eq!(grid.cells.positions(), vec![(7, 5)]);
    assert!(grid.objects.is_empty());
    assert!(grid.get_object_by_id(ObjectId(1)).is_none());
}

#[test]
fn finding_objects() {
    let mut grid = PixelBackground::new();
    grid.add_object(placed(1, ObjectType::Button, (5, 5)));
    grid.add_object(placed(2, ObjectType::TestObj, (10, 10)));
    assert_eq!(grid.get_object_by_id(ObjectId(2)).map(|o| o.get_cell_pos()), Some((10, 10)));
    assert!(grid.get_object_by_id(ObjectId(3)).is_none());
    assert_eq!(grid.object_index_by_id(ObjectId(1)), Some(0));
    assert_eq!(grid.object_index_by_id(ObjectId(2)), Some(1));
    assert_eq!(grid.object_index_by_id(ObjectId(0)), None);
    assert_eq!(grid.get_object_in_cell((5, 5)).map(|o| o.get_id()), Some(ObjectId(1)));
    assert_eq!(grid.get_object_in_cell((6, 5)).map(|o| o.get_id()), Some(ObjectId(1)));
    assert_eq!(grid.get_object_in_cell((11, 12)).map(|o| o.get_id()), Some(ObjectId(2)));
    assert_eq!(grid.get_object_in_cell((9, 11)).map(|o| o.get_id()), Some(ObjectId(2)));
    assert!(grid.get_object_in_cell((9, 10)).is_none());
    assert_eq!(grid.object_index_in_cell((13, 11)), Some(1));
    assert_eq!(grid.object_index_in_cell((13, 12)), None);
    let node = grid.get_node_in_cell((9, 11)).expect("the input of the probe");
    assert_eq!(node.side, NodeObjectSide::Left(1));
    assert!(grid.get_node_in_cell((10, 10)).is_none());
    assert!(grid.get_node_in_cell((0, 0)).is_none());
}

#[test]
fn objects_can_be_changed_in_place() {
    let mut grid = PixelBackground::new();
    grid.add_object(placed(1, ObjectType::Switch, (5, 5)));
    grid.get_object_by_id_mut(ObjectId(1))
        .expect("the switch")
        .tick(ObjectUpdateEvent::MouseClickObject(MouseEvent { button: MouseButton::Left }));
    assert_eq!(grid.objects[0].current_value(), NodeValue::Gpio(true));
    grid.get_object_in_cell_mut((5, 5)).expect("the switch").set_cell_pos((8, 8));
    assert_eq!(grid.objects[0].get_cell_pos(), (8, 8));
    assert!(grid.get_object_by_id_mut(ObjectId(2)).is_none());
    assert!(grid.get_object_in_cell_mut((5, 5)).is_none());
}

#[test]
fn a_move_onto_another_object_is_undone() {
    let mut grid = PixelBackground::new();
    grid.add_object(placed(1, ObjectType::Button, (5, 5)));
    grid.add_object(placed(2, ObjectType::Button, (10, 5)));
    grid.insert_object_cells_by_id(ObjectId(2));
    let cells_before = {
        let mut cells = grid.cells.positions();
        cells.sort();
        cells
    };
    assert!(!grid.move_object(ObjectId(1), (9, 5)));
    assert_eq!(grid.objects[0].get_cell_pos(), (5, 5));
    assert_eq!(grid.objects[0].get_object_state().get_nodes()[0].cell_pos, (6, 5));
    assert!(!grid.move_object(ObjectId(1), (10, 5)));
    assert!(!grid.move_object(ObjectId(1), (11, 5)));
    assert!(!grid.move_object(ObjectId(1), (10, 6)));
    assert_eq!(grid.objects[0].get_cell_pos(), (5, 5));
    assert_eq!(grid.objects[1].get_cell_pos(), (10, 5));
    let mut cells_after = grid.cells.positions();
    cells_after.sort();
    assert_eq!(cells_before, cells_after);
}

#[test]
fn a_move_to_free_cells_succeeds() {
    let mut grid = PixelBackground::new();
    grid.add_object(placed(1, ObjectType::Button, (5, 5)));
    grid.add_object(placed(2, ObjectType::Button, (10, 5)));
    assert!(grid.move_object(ObjectId(1), (7, 5)));
    assert_eq!(grid.objects[0].get_cell_pos(), (7, 5));
    assert_eq!(grid.objects[0].get_object_state().get_nodes()[0].cell_pos, (8, 5));
    assert_eq!(grid.objects[0].get_object_state().get_nodes()[1].cell_pos, (6, 5));
    assert!(grid.move_object(ObjectId(1), (7, 5)));
    assert!(grid.move_object(ObjectId(1), (13, 5)));
    assert!(!grid.move_object(ObjectId(1), (12, 5)));
    assert_eq!(grid.objects[0].get_cell_pos(), (13, 5));
    assert!(!grid.move_object(ObjectId(1), (11, 6)));
    assert!(grid.move_object(ObjectId(1), (12, 7)));
    assert_eq!(grid.objects[0].get_cell_pos(), (12, 7));
    assert!(grid.is_valid_object_pos(ObjectId(1)));
    assert!(grid.is_valid_object_pos(ObjectId(2)));
    assert!(grid.is_valid_object_pos(ObjectId(77)));
}

#[test]
fn object_position_is_not_valid_where_two_overlap() {
    let mut grid = PixelBackground::new();
    grid.add_object(placed(1, ObjectType::Button, (5, 5)));
    grid.add_object(placed(2, ObjectType::Button, (6, 5)));
    assert!(!grid.is_valid_object_pos(ObjectId(1)));
    assert!(!grid.is_valid_object_pos(ObjectId(2)));
}

#[test]
fn reset_puts_everything_to_rest() {
    let mut grid = PixelBackground::new();
    for x in 20..25 {
        grid.insert_cell((x, 3), wire(x % 3));
        grid.set_wire_value((x, 3), NodeValue::Gpio(x % 2 == 0));
    }
    let click = ObjectUpdateEvent::MouseClickObject(MouseEvent { button: MouseButton::Left });
    let mut switch = placed(1, ObjectType::Switch, (5, 5));
    switch.tick(click);
    let mut led = placed(2, ObjectType::Led, (10, 5));
    led.on_receive(NodeObjectSide::Left(0), NodeValue::Gpio(true));
    let mut probe = placed(3, ObjectType::TestObj, (15, 5));
    probe.on_receive(NodeObjectSide::Left(1), NodeValue::Gpio(true));
    let button = placed(4, ObjectType::Button, (5, 10));
    grid.add_object(switch);
    grid.add_object(led);
    grid.add_object(probe);
    grid.add_object(button);
    grid.re_render_objects();
    assert_eq!(kind(&grid, (5, 5)), Some(PixelType::Custom(PixelColor(66, 251, 85))));
    assert_eq!(kind(&grid, (10, 5)), Some(PixelType::Custom(PixelColor(190, 224, 31))));
    grid.reset_all();
    for x in 20..25 {
        assert_eq!(grid.get_wire_value((x, 3)), Some(NodeValue::Gpio(false)));
        assert_eq!(kind(&grid, (x, 3)), Some(wire(x % 3)));
    }
    assert_eq!(grid.objects[0].current_value(), NodeValue::Gpio(false));
    assert_eq!(grid.objects[1].current_value(), NodeValue::Gpio(false));
    assert_eq!(grid.objects[2].current_value(), NodeValue::Gpio(false));
    assert_eq!(grid.objects[3].current_value(), NodeValue::Gpio(false));
    assert_eq!(kind(&grid, (5, 5)), Some(PixelType::Custom(PixelColor(237, 66, 18))));
    assert_eq!(kind(&grid, (10, 5)), Some(PixelType::Custom(PixelColor(80, 100, 15))));
    assert_eq!(kind(&grid, (16, 6)), Some(PixelType::ObjectColor));
    assert_eq!(kind(&grid, (5, 10)), Some(PixelType::ObjectColor));
}

#[test]
fn reset_of_an_empty_grid() {
    let mut grid = PixelBackground::new();
    grid.reset_all();
    assert!(grid.cells.positions().is_empty());
    assert!(grid.objects.is_empty());
}

#[test]
fn sound_and_unsound_grids() {
    let mut grid = PixelBackground::new();
    assert!(grid.is_sound());
    grid.insert_cell((1, 1), wire(8));
    grid.add_object(placed(1, ObjectType::Led, (5, 5)));
    grid.re_render_objects();
    assert!(grid.is_sound());
    grid.palette.pop();
    assert!(!grid.is_sound());
    grid.cells.remove((1, 1));
    assert!(grid.is_sound());
    grid.objects[0].set_dimensions(circuit_sim::size::Dimensions(0, 0));
    assert!(!grid.is_sound());
}
