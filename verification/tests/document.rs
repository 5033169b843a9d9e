use circuit_sim::canvas::pixels::util::{PixelColor, PixelType};
use circuit_sim::config::{
    CanvasStateJson, ConfigJson, CustomObjectStateJson, EditorStateJson, EditorType, NodeJson,
    ObjectCustomJson, ObjectNormalJson, ObjectReferenceJson, ObjectsJson, StateInfo,
};
use circuit_sim::document::{
    check_document, create_config_from_json, create_state_from_json, node_from_json,
    node_into_json, try_from_editor_state,
};
use circuit_sim::editor::node::Node;
use circuit_sim::editor::state::CanvasState;
use circuit_sim::error::ConfigError;
use circuit_sim::http::CanvasJsonReqResp;
use circuit_sim::ids::{IdCounter, ObjectId};
use circuit_sim::object::{NodeValue, NodeValueTypes, ObjectType};
use circuit_sim::objects::create_new_object;
use circuit_sim::size::{Dimensions, NodeDirection, NodeObjectSide};

fn wire(index: usize) -> PixelType {
    PixelType::Wire { index, value: NodeValue::Gpio(false) }
}

fn palette() -> Vec<(u16, u16, u16)> {
    vec![(1, 1, 1), (2, 2, 2), (3, 3, 3), (4, 4, 4)]
}

fn node_json(side: NodeObjectSide, direction: NodeDirection, pos: (usize, usize)) -> NodeJson {
    NodeJson {
        pos,
        side,
        direction,
        accepts: NodeValueTypes::Gpio,
        label: None,
        is_disabled: false,
    }
}

fn led_json(pos: (usize, usize)) -> ObjectsJson {
    ObjectsJson::Normal(ObjectNormalJson {
        type_of: ObjectType::Led,
        id: 40,
        pos,
        dim: Dimensions(1, 1),
        nodes: vec![
            node_json(NodeObjectSide::Left(0), NodeDirection::Input, (pos.0 - 1, pos.1)),
            node_json(NodeObjectSide::Right(0), NodeDirection::Output, (pos.0 + 1, pos.1)),
        ],
    })
}

fn document(objects: Vec<ObjectsJson>, pixels: Vec<(usize, Vec<(usize, usize)>)>) -> CanvasStateJson {
    CanvasStateJson { objects, color_palette: palette(), pixels }
}

fn kind_of_error(result: Result<CanvasState, ConfigError>) -> String {
    match result {
        Ok(_) => String::from("Ok"),
        Err(error) => format!("{:?}", error),
    }
}

#[test]
fn node_to_record_and_back() {
    let mut node = Node::new_output(NodeObjectSide::Bottom(2), NodeValueTypes::Current);
    node.cell_pos = (3, 9);
    node.is_disabled = true;
    let json = node_into_json(&node);
    assert_eq!(json.pos, (3, 9));
    assert_eq!(json.side, NodeObjectSide::Bottom(2));
    assert_eq!(json.direction, NodeDirection::Output);
    assert!(json.is_disabled);
    assert!(json.label.is_none());
    assert!(json.is_output());
    assert!(!json.is_input());
    let back = node_from_json(&json);
    assert_eq!(back.cell_pos, (3, 9));
    assert_eq!(back.side, NodeObjectSide::Bottom(2));
    assert_eq!(back.direction, NodeDirection::Output);
    assert!(back.is_disabled);
    assert!(back.accepts.accepts(NodeValueTypes::Current));
    assert!(!back.accepts.accepts(NodeValueTypes::Gpio));
}

#[test]
fn saving_a_canvas() {
    let mut canvas = CanvasState::new(0);
    let mut switch = create_new_object(ObjectId(7), ObjectType::Switch, (5, 5), None);
    switch.set_cell_pos((5, 5));
    canvas.pixels.add_object(switch);
    canvas.pixels.re_render_objects();
    canvas.pixels.insert_cell((7, 5), wire(0));
    canvas.pixels.insert_cell((8, 5), wire(0));
    canvas.pixels.insert_cell((1, 1), wire(4));
    let json = try_from_editor_state(&canvas);
    assert_eq!(json.objects.len(), 1);
    match &json.objects[0] {
        ObjectsJson::Normal(object) => {
            assert_eq!(object.id, 7);
            assert_eq!(object.type_of, ObjectType::Switch);
            assert_eq!(object.pos, (5, 5));
            assert_eq!(object.dim, Dimensions(1, 1));
            assert_eq!(object.nodes.len(), 2);
            assert_eq!(object.nodes[0].pos, (4, 5));
            assert_eq!(object.nodes[0].side, NodeObjectSide::Left(0));
            assert_eq!(object.nodes[1].pos, (6, 5));
            assert_eq!(object.nodes[1].direction, NodeDirection::Output);
        },
        _ => panic!("an object of a kind that is built in was expected"),
    }
    assert_eq!(json.color_palette.len(), 18);
    assert_eq!(json.color_palette[0], (196, 196, 190));
    assert_eq!(json.color_palette[1], (145, 145, 134));
    assert_eq!(json.color_palette[17], (233, 46, 58));
    let mut pixels = json.pixels;
    pixels.sort();
    for entry in pixels.iter_mut() {
        entry.1.sort();
    }
    assert_eq!(pixels, vec![(0, vec![(7, 5), (8, 5)]), (4, vec![(1, 1)])]);
}

#[test]
fn saving_an_empty_canvas() {
    let json = try_from_editor_state(&CanvasState::new(0));
    assert!(json.objects.is_empty());
    assert!(json.pixels.is_empty());
    assert_eq!(json.color_palette.len(), 18);
}

#[test]
fn loading_a_document() {
    let doc = document(vec![led_json((5, 5)), led_json((9, 5))], vec![(1, vec![(7, 5), (2, 2)]), (0, vec![(3, 5)])]);
    let mut ids = IdCounter::new();
    ObjectId::gen_id(&mut ids);
    let canvas = create_state_from_json(doc, StateInfo::from_user_id(3, 9), &mut ids).expect("a canvas");
    assert_eq!(ids.take(), 4);
    assert_eq!(canvas.info.user_id, 3);
    assert_eq!(canvas.event, None);
    assert_eq!(
        canvas.pixels.palette,
        vec![(PixelColor(1, 1, 1), PixelColor(2, 2, 2)), (PixelColor(3, 3, 3), PixelColor(4, 4, 4))]
    );
    assert_eq!(canvas.pixels.objects.len(), 2);
    assert_eq!(canvas.pixels.objects[0].get_id(), ObjectId(2));
    assert_eq!(canvas.pixels.objects[1].get_id(), ObjectId(3));
    assert_eq!(canvas.pixels.objects[1].get_cell_pos(), (9, 5));
    assert_eq!(canvas.pixels.objects[0].get_object_state().get_nodes()[1].cell_pos, (6, 5));
    let kind = |pos| canvas.pixels.get_pixel_type_from_cell(&pos).map(|pixel| pixel.type_of);
    assert_eq!(kind((7, 5)), Some(wire(1)));
    assert_eq!(kind((2, 2)), Some(wire(1)));
    assert_eq!(kind((3, 5)), Some(wire(0)));
    assert_eq!(kind((5, 5)), Some(PixelType::Custom(PixelColor(80, 100, 15))));
    assert!(matches!(kind((6, 5)), Some(PixelType::Node { direction: NodeDirection::Output, .. })));
    assert!(matches!(kind((8, 5)), Some(PixelType::Node { direction: NodeDirection::Input, .. })));
    assert_eq!(canvas.pixels.cells.positions().len(), 9);
    assert_eq!(canvas.pixels.get_pixel_type_from_cell(&(7, 5)).map(|p| p.display.0), Some(0b0011));
}

#[test]
fn an_object_stamped_over_wire_takes_its_cells() {
    let doc = document(vec![led_json((5, 5))], vec![(0, vec![(5, 5), (6, 5), (7, 5)])]);
    let mut ids = IdCounter::new();
    let canvas = create_state_from_json(doc, StateInfo::from_user_id(1, 0), &mut ids).expect("a canvas");
    let kind = |pos| canvas.pixels.get_pixel_type_from_cell(&pos).map(|pixel| pixel.type_of);
    assert_eq!(kind((5, 5)), Some(PixelType::Custom(PixelColor(80, 100, 15))));
    assert!(matches!(kind((6, 5)), Some(PixelType::Node { .. })));
    assert_eq!(kind((7, 5)), Some(wire(0)));
}

#[test]
fn a_later_colour_wins_a_cell_listed_twice() {
    let doc = document(Vec::new(), vec![(0, vec![(5, 5)]), (1, vec![(5, 5)])]);
    let mut ids = IdCounter::new();
    let canvas = create_state_from_json(doc, StateInfo::from_user_id(1, 0), &mut ids).expect("a canvas");
    assert_eq!(canvas.pixels.get_pixel_type_from_cell(&(5, 5)).map(|p| p.type_of), Some(wire(1)));
    assert_eq!(canvas.pixels.cells.positions().len(), 1);
}

#[test]
fn saving_and_loading_come_round() {
    let mut canvas = CanvasState::new(0);
    let mut probe = create_new_object(ObjectId(1), ObjectType::TestObj, (5, 5), None);
    probe.set_cell_pos((5, 5));
    let mut button = create_new_object(ObjectId(2), ObjectType::Button, (12, 5), None);
    button.set_cell_pos((12, 5));
    canvas.pixels.add_object(probe);
    canvas.pixels.add_object(button);
    canvas.pixels.re_render_objects();
    for x in 9..11 {
        canvas.pixels.insert_cell((x, 6), wire(2));
    }
    canvas.pixels.set_wire_value((9, 6), NodeValue::Gpio(true));
    let json = try_from_editor_state(&canvas);
    let mut ids = IdCounter::new();
    let loaded = create_config_from_json(
        CanvasJsonReqResp { info: StateInfo::from_user_id(1, 0), json: ConfigJson::new(json) },
        &mut ids,
    )
    .expect("a canvas");
    assert_eq!(loaded.pixels.palette, canvas.pixels.palette);
    assert_eq!(loaded.pixels.objects.len(), 2);
    let mut before = canvas.pixels.cells.positions();
    let mut after = loaded.pixels.cells.positions();
    before.sort();
    after.sort();
    assert_eq!(before, after);
    for pos in before {
        let was = canvas.pixels.get_pixel_type_from_cell(&pos).expect("a cell");
        let is = loaded.pixels.get_pixel_type_from_cell(&pos).expect("a cell");
        assert_eq!(is.display, was.display);
        if pos == (9, 6) {
            assert_eq!(is.type_of, wire(2));
        } else {
            assert_eq!(is.type_of, was.type_of);
        }
    }
}

#[test]
fn a_palette_with_half_a_colour_is_refused() {
    let mut doc = document(Vec::new(), Vec::new());
    doc.color_palette.push((5, 5, 5));
    assert!(matches!(check_document(&doc), Some(ConfigError::InvalidSaveState)));
    let mut ids = IdCounter::new();
    let result = create_state_from_json(doc, StateInfo::from_user_id(1, 0), &mut ids);
    assert_eq!(kind_of_error(result), "InvalidSaveState");
    assert_eq!(ids.take(), 1);
}

#[test]
fn objects_that_cannot_be_made_are_refused() {
    let reference = ObjectsJson::Reference(ObjectReferenceJson {
        id: 1,
        canvas_id: String::from("oABCDEFGH"),
        type_of: ObjectType::Led,
        pos: (1, 1),
        nodes: Vec::new(),
    });
    let custom = ObjectsJson::Custom(Box::new(ObjectCustomJson {
        type_of: ObjectType::Led,
        id: 1,
        pos: (1, 1),
        dim: Dimensions(1, 1),
        nodes: Vec::new(),
        inner_nodes: Vec::new(),
        node_positions: Vec::new(),
        object_name: None,
        canvas: document(Vec::new(), Vec::new()),
    }));
    let clock = ObjectsJson::Normal(ObjectNormalJson {
        type_of: ObjectType::Clock,
        id: 1,
        pos: (1, 1),
        dim: Dimensions(1, 1),
        nodes: Vec::new(),
    });
    for object in [reference, custom, clock] {
        let doc = document(vec![led_json((5, 5)), object], Vec::new());
        assert!(matches!(check_document(&doc), Some(ConfigError::UnexpectedObject)));
        let mut ids = IdCounter::new();
        let result = create_state_from_json(doc, StateInfo::from_user_id(1, 0), &mut ids);
        assert_eq!(kind_of_error(result), "UnexpectedObject");
        assert_eq!(ids.take(), 1);
    }
}

#[test]
fn an_object_without_size_is_refused() {
    for dim in [Dimensions(0, 1), Dimensions(1, 0), Dimensions(usize::MAX, 1), Dimensions(usize::MAX / 2, 3)] {
        let object = ObjectsJson::Normal(ObjectNormalJson {
            type_of: ObjectType::Button,
            id: 1,
            pos: (1, 1),
            dim,
            nodes: Vec::new(),
        });
        let doc = document(vec![object], Vec::new());
        assert!(matches!(check_document(&doc), Some(ConfigError::InvalidSaveState)));
    }
}

#[test]
fn a_node_in_a_slot_the_object_does_not_have_is_refused() {
    for side in [
        NodeObjectSide::Left(1),
        NodeObjectSide::Right(1),
        NodeObjectSide::Top(2),
        NodeObjectSide::Bottom(2),
        NodeObjectSide::Top(usize::MAX),
    ] {
        let object = ObjectsJson::Normal(ObjectNormalJson {
            type_of: ObjectType::Button,
            id: 1,
            pos: (1, 1),
            dim: Dimensions(2, 1),
            nodes: vec![
                node_json(NodeObjectSide::Top(1), NodeDirection::Input, (0, 0)),
                node_json(side, NodeDirection::Input, (0, 0)),
            ],
        });
        let doc = document(vec![object], Vec::new());
        assert!(matches!(check_document(&doc), Some(ConfigError::UnexpectedNodeType)));
    }
}

#[test]
fn wire_in_a_colour_the_palette_lacks_is_refused() {
    let doc = document(Vec::new(), vec![(1, vec![(1, 1)]), (2, vec![(2, 2)])]);
    assert!(matches!(check_document(&doc), Some(ConfigError::UnexpectedConnection)));
    let mut ids = IdCounter::new();
    let result = create_state_from_json(doc, StateInfo::from_user_id(1, 0), &mut ids);
    assert_eq!(kind_of_error(result), "UnexpectedConnection");
    let empty = document(Vec::new(), vec![(7, Vec::new())]);
    assert!(check_document(&empty).is_none());
}

#[test]
fn the_first_flaw_is_the_one_reported() {
    let clock = ObjectsJson::Normal(ObjectNormalJson {
        type_of: ObjectType::Clock,
        id: 1,
        pos: (1, 1),
        dim: Dimensions(0, 0),
        nodes: Vec::new(),
    });
    let flat = ObjectsJson::Normal(ObjectNormalJson {
        type_of: ObjectType::Led,
        id: 1,
        pos: (1, 1),
        dim: Dimensions(0, 0),
        nodes: vec![node_json(NodeObjectSide::Top(9), NodeDirection::Input, (0, 0))],
    });
    let doc = document(vec![clock], vec![(9, vec![(1, 1)])]);
    assert!(matches!(check_document(&doc), Some(ConfigError::UnexpectedObject)));
    let doc = document(vec![flat], vec![(9, vec![(1, 1)])]);
    assert!(matches!(check_document(&doc), Some(ConfigError::InvalidSaveState)));
    let sound = document(vec![led_json((5, 5))], vec![(1, vec![(1, 1)])]);
    assert!(check_document(&sound).is_none());
}

#[test]
fn config_json_holds_a_canvas() {
    let mut json = ConfigJson::new(document(Vec::new(), vec![(0, vec![(1, 1)])]));
    assert_eq!(json.editor_type().num(), EditorType::Canvas.num());
    assert_eq!(json.as_inner_json().pixels.len(), 1);
    json.as_mut_inner_json().pixels.clear();
    assert!(json.as_inner_json().pixels.is_empty());
    assert_eq!(json.into_inner_json().color_palette, palette());
}

#[test]
fn editor_state_json_by_kind() {
    let mut canvas = EditorStateJson::Canvas(document(Vec::new(), Vec::new()));
    assert!(canvas.is_editor_canvas());
    assert!(!canvas.is_editor_custom_object());
    assert!(canvas.as_canvas().is_some());
    assert!(canvas.as_custom_object().is_none());
    assert!(canvas.as_mut_custom_object().is_none());
    canvas.as_mut_canvas().expect("a canvas").color_palette.clear();
    assert!(canvas.as_canvas().expect("a canvas").color_palette.is_empty());
    assert_eq!(canvas.type_of(), EditorType::Canvas);
    assert!(canvas.into_custom_object().is_none());
    let mut object = EditorStateJson::CustomObject(Box::new(CustomObjectStateJson {
        custom_object: led_json((5, 5)),
    }));
    assert!(object.is_editor_custom_object());
    assert!(object.as_canvas().is_none());
    assert!(object.as_mut_canvas().is_none());
    assert!(object.as_custom_object().is_some());
    object.as_mut_custom_object().expect("an object").custom_object = led_json((9, 9));
    assert_eq!(object.type_of(), EditorType::CustomObject);
    match object.into_custom_object().expect("an object").custom_object {
        ObjectsJson::Normal(normal) => assert_eq!(normal.pos, (9, 9)),
        _ => panic!("the light was expected"),
    }
}

#[test]
fn objects_json_by_kind() {
    let mut normal = led_json((5, 5));
    assert!(normal.as_custom().is_none());
    assert!(normal.as_mut_custom().is_none());
    assert!(normal.as_reference().is_none());
    assert!(normal.into_reference().is_none());
    let reference = ObjectsJson::Reference(ObjectReferenceJson {
        id: 4,
        canvas_id: String::from("oABCDEFGH"),
        type_of: ObjectType::Led,
        pos: (1, 1),
        nodes: Vec::new(),
    });
    assert_eq!(reference.as_reference().map(|r| r.id), Some(4));
    assert_eq!(reference.into_reference().map(|r| r.canvas_id), Some(String::from("oABCDEFGH")));
    let mut custom = ObjectsJson::Custom(Box::new(ObjectCustomJson {
        type_of: ObjectType::Led,
        id: 1,
        pos: (1, 1),
        dim: Dimensions(1, 1),
        nodes: Vec::new(),
        inner_nodes: Vec::new(),
        node_positions: Vec::new(),
        object_name: None,
        canvas: document(Vec::new(), Vec::new()),
    }));
    custom.as_mut_custom().expect("a custom object").id = 8;
    assert_eq!(custom.as_custom().map(|c| c.id), Some(8));
}
