//! The canvas under edit: the grid, what is known of the canvas, and what
//! the user is in the middle of.

use crate::canvas::pixels::util::PixelColor;
use crate::canvas::pixels::grid::GridView;
use crate::canvas::pixels::joins::without;
use crate::canvas::pixels::PixelBackground;
use crate::config::StateInfo;
use crate::editor::event::{EditorEvent, MouseButton};
use crate::ids::ObjectId;
use crate::object::NodeValue;
use crate::objects::{ObjectData, ObjectUpdateEvent};
use crate::size::{CellPos, Dimensions};
use crate::ticking::{deduped, Ticker};
use vstd::prelude::*;

verus! {

/// What the user is in the middle of.
#[derive(Debug, Clone, Copy, PartialEq, Eq, Structural)]
pub enum CanvasEvent {
    SelectedObject(ObjectId),
    MovingObject(ObjectId),
    /// Laying wire of this colour.
    Painting(PixelColor),
    Tooling(CanvasTool),
}

#[derive(Debug, Clone, Copy, PartialEq, Eq, Structural)]
pub enum CanvasTool {
    Eraser,
}

#[derive(Debug)]
pub struct CanvasState {
    pub info: StateInfo,
    pub pixels: PixelBackground,
    pub event: Option<CanvasEvent>,
}

impl CanvasState {
    /// An empty canvas, begun at the time `date` by the user 1, with the
    /// nine colours of wire and nothing in hand.
    pub fn new(date: i64) -> (state: Self)
        ensures
            state.wf(),
            state@ == (CanvasView {
                grid: GridView {
                    palette: PixelBackground::first_palette(),
                    cells: Map::empty(),
                    objects: Seq::empty(),
                },
                event: None,
            }),
            state.info == (StateInfo {
                id: None,
                user_id: 1,
                canvas_id: None,
                revision: 0,
                forked_id: None,
                title: None,
                description: None,
                private: false,
                created_at: date,
                updated_at: date,
                is_edited: false,
            }),
    {
        CanvasState {
            info: StateInfo::from_user_id(1, date),
            pixels: PixelBackground::new(),
            event: None,
        }
    }

    pub fn set_state_info(&mut self, value: StateInfo)
        ensures
            final(self).info == value,
            final(self).pixels == old(self).pixels,
            final(self).event == old(self).event,
    {
        self.info = value;
    }
}

/// What the canvas reads of the pointer.
#[derive(Debug, Clone, Copy)]
pub struct Pointer {
    /// The cell the pointer is over.
    pub cell: CellPos,
    /// Whether the pointer has moved far enough since the button went
    /// down for the move to count as dragging.
    pub is_mouse_dragging: bool,
    /// Whether the button that is down is the left one.
    pub is_last_button_press_left: bool,
    /// Whether the button that is down is the right one.
    pub is_last_button_press_right: bool,
    /// The cell the pointer was over when the button went down.
    pub cursor_start_drag_cell: Option<CellPos>,
    /// Whether the canvas is being dragged.
    pub is_dragging_canvas: bool,
}

impl Pointer {
    /// Whether the canvas is to begin being dragged: the right button is
    /// down, the pointer is dragging, and the canvas is not dragged yet.
    pub open spec fn begins_canvas_drag(self) -> bool {
        self.is_last_button_press_right && !self.is_dragging_canvas && self.is_mouse_dragging
    }
}

/// A canvas as a value: the grid and what the user is in the middle of.
pub struct CanvasView {
    pub grid: GridView,
    pub event: Option<CanvasEvent>,
}

impl View for CanvasState {
    type V = CanvasView;

    open spec fn view(&self) -> CanvasView {
        CanvasView { grid: self.pixels@, event: self.event }
    }
}

/// Whether `input` is a click with `button`.
pub open spec fn is_click(input: EditorEvent, button: MouseButton) -> bool {
    input matches EditorEvent::MouseClick(e) && e.button == button
}

/// Where the top-left body cell of an object of the size `dim` goes for
/// the object to lie with its middle under the pointer at `cell`, as far
/// as the edge of the grid lets it.
pub open spec fn centred(cell: CellPos, dim: Dimensions) -> CellPos {
    (
        if cell.0 >= dim.0 / 2 {
            (cell.0 - dim.0 / 2) as usize
        } else {
            0
        },
        if cell.1 >= dim.1 / 2 {
            (cell.1 - dim.1 / 2) as usize
        } else {
            0
        },
    )
}

impl CanvasView {
    /// Whether the canvas is sound: the grid is, and the object that the
    /// user has selected or is moving is on it.
    pub open spec fn valid(self) -> bool {
        &&& self.grid.valid()
        &&& match self.event {
            Some(CanvasEvent::SelectedObject(id)) => self.grid.has_object(id),
            Some(CanvasEvent::MovingObject(id)) => self.grid.has_object(id),
            _ => true,
        }
    }

    /// The canvas after the user has done `input` while the circuit is
    /// being edited, and whether the canvas is to begin being dragged.
    ///
    /// While laying wire, a left click or a drag with the left button lays
    /// wire into the cell under the pointer. With the eraser they take wire
    /// out of it. A right click puts either away.
    ///
    /// With nothing in hand, a left click on an object selects it and
    /// takes its footprint off the cells. A left click elsewhere than on
    /// the top-left body cell of the selected object puts the footprint
    /// back and lets go of the object. Dragging it from that cell with the
    /// left button begins moving it.
    ///
    /// An object that is being moved follows the pointer to wherever it
    /// covers no cell of another object. A left click puts it down, its
    /// footprint on the cells; a right click takes it off the grid.
    pub open spec fn edited(self, pointer: Pointer, input: EditorEvent) -> (CanvasView, bool) {
        let cell = pointer.cell;
        let idle = (self, pointer.begins_canvas_drag());
        let left = is_click(input, MouseButton::Left);
        let right = is_click(input, MouseButton::Right);
        let left_drag = (input matches EditorEvent::MouseMove(e) && e.button == MouseButton::Left)
            && pointer.is_mouse_dragging;
        match self.event {
            Some(CanvasEvent::Painting(color)) => if right {
                (CanvasView { event: None, ..self }, false)
            } else if left || left_drag {
                (CanvasView { grid: self.grid.wired(cell, color), ..self }, false)
            } else {
                idle
            },
            Some(CanvasEvent::Tooling(CanvasTool::Eraser)) => if right {
                (CanvasView { event: None, ..self }, false)
            } else if left || left_drag {
                if self.grid.is_wire(cell) {
                    (
                        CanvasView {
                            grid: GridView { cells: without(self.grid.cells, cell), ..self.grid },
                            ..self
                        },
                        false,
                    )
                } else {
                    (self, false)
                }
            } else {
                idle
            },
            Some(CanvasEvent::SelectedObject(id)) => {
                let object = self.grid.object_by_id(id);
                if left {
                    if object.state.cell_pos != cell {
                        (CanvasView { grid: self.grid.stamped(object), event: None }, false)
                    } else {
                        idle
                    }
                } else if input is MouseMove && pointer.is_last_button_press_left {
                    match pointer.cursor_start_drag_cell {
                        Some(start) if object.state.cell_pos == start && cell != start => (
                            CanvasView { event: Some(CanvasEvent::MovingObject(id)), ..self },
                            pointer.begins_canvas_drag(),
                        ),
                        _ => idle,
                    }
                } else {
                    idle
                }
            },
            Some(CanvasEvent::MovingObject(id)) => {
                let object = self.grid.object_by_id(id);
                if input is MouseMove {
                    (
                        CanvasView {
                            grid: self.grid.placed_at(id, centred(cell, object.state.dimensions)),
                            ..self
                        },
                        false,
                    )
                } else if right {
                    (CanvasView { grid: self.grid.deleted(id), event: None }, false)
                } else if left {
                    (CanvasView { grid: self.grid.stamped(object), event: None }, false)
                } else {
                    idle
                }
            },
            None => if left {
                match self.grid.index_at(cell, 0) {
                    Some(i) => {
                        let id = self.grid.objects[i].state.id;
                        (
                            CanvasView {
                                grid: self.grid.unstamped(self.grid.object_by_id(id)),
                                event: Some(CanvasEvent::SelectedObject(id)),
                            },
                            false,
                        )
                    },
                    None => idle,
                }
            } else {
                idle
            },
        }
    }

    /// What the object under the pointer is told when the user does
    /// `input` with the left button while the circuit runs; `None` for
    /// anything else the user does.
    pub open spec fn told(input: EditorEvent) -> Option<ObjectUpdateEvent> {
        match input {
            EditorEvent::MouseClick(e) if e.button == MouseButton::Left => Some(
                ObjectUpdateEvent::MouseClickObject(e),
            ),
            EditorEvent::MouseDown(e) if e.button == MouseButton::Left => Some(
                ObjectUpdateEvent::MouseDownObject(e),
            ),
            EditorEvent::MouseUp(e) if e.button == MouseButton::Left => Some(
                ObjectUpdateEvent::MouseUpObject(e),
            ),
            EditorEvent::MouseMove(e) if e.button == MouseButton::Left => Some(
                ObjectUpdateEvent::MouseHoveringObject,
            ),
            _ => None,
        }
    }

    /// The grid and the queue after the user has done `input` at `cell`
    /// while the circuit runs: the first object that covers the cell, if it
    /// reacts to such things, is told of it; what it sends joins the queue;
    /// and its footprint is put on anew.
    pub open spec fn ran(self, queue: Seq<ObjectData>, cell: CellPos, input: EditorEvent) -> (
        GridView,
        Seq<ObjectData>,
    ) {
        match (self.grid.index_at(cell, 0), Self::told(input)) {
            (Some(i), Some(event)) if self.grid.objects[i].tickable() => {
                let object = self.grid.objects[i];
                let sent = object.sent_on_tick(event);
                let told = GridView {
                    objects: self.grid.objects.update(i, object.after_tick(event)),
                    ..self.grid
                };
                (
                    told.stamped(told.object_by_id(object.state.id)),
                    if sent.len() > 0 {
                        deduped(queue + sent)
                    } else {
                        queue
                    },
                )
            },
            _ => (self.grid, queue),
        }
    }
}

impl CanvasState {
    /// Whether the canvas is sound.
    pub open spec fn wf(&self) -> bool {
        self.pixels.cells.wf() && self@.valid()
    }

    /// Whether the canvas is sound.
    pub fn is_sound(&self) -> (yes: bool)
        requires
            self.pixels.cells.wf(),
        ensures
            yes == self.wf(),
    {
        if !self.pixels.is_sound() {
            return false;
        }
        match self.event {
            Some(CanvasEvent::SelectedObject(id)) => self.pixels.get_object_by_id(id).is_some(),
            Some(CanvasEvent::MovingObject(id)) => self.pixels.get_object_by_id(id).is_some(),
            _ => true,
        }
    }

    /// Takes in what the user has done while the circuit is being edited.
    /// Returns whether the canvas is to begin being dragged.
    pub fn update_editing(&mut self, pointer: &Pointer, editor_event: &EditorEvent) -> (drag: bool)
        requires
            old(self).wf(),
        ensures
            final(self).wf(),
            (final(self)@, drag) == old(self)@.edited(*pointer, *editor_event),
            final(self).info == old(self).info,
    {
        let cell = pointer.cell;
        let event = self.event;
        match event {
            Some(CanvasEvent::Painting(p)) => {
                match editor_event {
                    EditorEvent::MouseClick(e) => {
                        if e.button.right() {
                            self.event = None;
                            return false;
                        }
                        if e.button.left() {
                            self.pixels.set_wire(cell, p);
                            return false;
                        }
                    },
                    EditorEvent::MouseMove(e) => {
                        if e.button.left() && pointer.is_mouse_dragging {
                            self.pixels.set_wire(cell, p);
                            return false;
                        }
                    },
                    _ => {},
                }
            },
            Some(CanvasEvent::Tooling(CanvasTool::Eraser)) => {
                match editor_event {
                    EditorEvent::MouseClick(e) => {
                        if e.button.right() {
                            self.event = None;
                            return false;
                        }
                        if e.button.left() {
                            if self.pixels.is_cell_wire(cell) {
                                self.pixels.delete_cell(cell);
                            }
                            return false;
                        }
                    },
                    EditorEvent::MouseMove(e) => {
                        if e.button.left() && pointer.is_mouse_dragging {
                            if self.pixels.is_cell_wire(cell) {
                                self.pixels.delete_cell(cell);
                            }
                            return false;
                        }
                    },
                    _ => {},
                }
            },
            Some(CanvasEvent::SelectedObject(object_id)) => {
                let at = match self.pixels.get_object_by_id(object_id) {
                    Some(object) => object.get_cell_pos(),
                    None => {
                        return false;
                    },
                };
                match editor_event {
                    EditorEvent::MouseClick(e) => {
                        if e.button.left() && (at.0 != cell.0 || at.1 != cell.1) {
                            self.pixels.insert_object_cells_by_id(object_id);
                            self.event = None;
                            return false;
                        }
                    },
                    EditorEvent::MouseMove(_) => {
                        if pointer.is_last_button_press_left {
                            match pointer.cursor_start_drag_cell {
                                Some(start) => {
                                    if (at.0 == start.0 && at.1 == start.1) && (cell.0 != start.0
                                        || cell.1 != start.1) {
                                        self.event = Some(CanvasEvent::MovingObject(object_id));
                                    }
                                },
                                None => {},
                            }
                        }
                    },
                    _ => {},
                }
            },
            Some(CanvasEvent::MovingObject(object_id)) => {
                match editor_event {
                    EditorEvent::MouseMove(_) => {
                        let size = match self.pixels.get_object_by_id(object_id) {
                            Some(object) => object.get_dimensions(),
                            None => {
                                return false;
                            },
                        };
                        let new_cell_pos = (
                            cell.0.saturating_sub(size.width() / 2),
                            cell.1.saturating_sub(size.height() / 2),
                        );
                        self.pixels.move_object(object_id, new_cell_pos);
                        return false;
                    },
                    EditorEvent::MouseClick(e) => {
                        if e.button.right() {
                            self.pixels.delete_object(object_id);
                            self.event = None;
                            return false;
                        }
                        if e.button.left() {
                            self.pixels.insert_object_cells_by_id(object_id);
                            self.event = None;
                            return false;
                        }
                    },
                    _ => {},
                }
            },
            None => {
                match editor_event {
                    EditorEvent::MouseClick(e) => {
                        if e.button.left() {
                            let found = match self.pixels.get_object_in_cell(cell) {
                                Some(object) => Some(object.get_id()),
                                None => None,
                            };
                            match found {
                                Some(id) => {
                                    proof {
                                        self.pixels@.lemma_index_at(cell, 0);
                                        self.pixels@.lemma_objects_are_found(
                                            self.pixels@.index_at(cell, 0).unwrap(),
                                        );
                                    }
                                    self.pixels.delete_object_cells(id);
                                    self.event = Some(CanvasEvent::SelectedObject(id));
                                    return false;
                                },
                                None => {},
                            }
                        }
                    },
                    _ => {},
                }
            },
        }
        pointer.is_last_button_press_right && !pointer.is_dragging_canvas
            && pointer.is_mouse_dragging
    }

    /// Takes in what the user has done at `cell` while the circuit runs:
    /// tells the object there, puts what it sends into the queue, and puts
    /// its footprint on anew.
    pub fn update_running(&mut self, ticker: &mut Ticker, cell: CellPos, editor_event: &EditorEvent)
        requires
            old(self).wf(),
        ensures
            final(self).wf(),
            (final(self).pixels@, final(ticker)@) == old(self)@.ran(
                old(ticker)@,
                cell,
                *editor_event,
            ),
            final(self).event == old(self).event,
            final(self).info == old(self).info,
            old(self).pixels@.same_cast(final(self).pixels@),
    {
        let i = match self.pixels.object_index_in_cell(cell) {
            Some(i) => i,
            None => {
                return ;
            },
        };
        if !self.pixels.objects[i].is_tickable() {
            return ;
        }
        let told = match editor_event {
            EditorEvent::MouseClick(e) => {
                if e.button.left() {
                    ObjectUpdateEvent::MouseClickObject(*e)
                } else {
                    return ;
                }
            },
            EditorEvent::MouseDown(e) => {
                if e.button.left() {
                    ObjectUpdateEvent::MouseDownObject(*e)
                } else {
                    return ;
                }
            },
            EditorEvent::MouseUp(e) => {
                if e.button.left() {
                    ObjectUpdateEvent::MouseUpObject(*e)
                } else {
                    return ;
                }
            },
            EditorEvent::MouseMove(e) => {
                if e.button.left() {
                    ObjectUpdateEvent::MouseHoveringObject
                } else {
                    return ;
                }
            },
            _ => {
                return ;
            },
        };
        let (id, resp) = self.pixels.tick_object(i, told);
        if resp.len() > 0 {
            ticker.add(resp);
        }
        proof {
            old(self).pixels@.lemma_same_cast_finds_same(self.pixels@, id, 0);
            match old(self).event {
                Some(CanvasEvent::SelectedObject(held)) => {
                    old(self).pixels@.lemma_same_cast_finds_same(self.pixels@, held, 0);
                },
                Some(CanvasEvent::MovingObject(held)) => {
                    old(self).pixels@.lemma_same_cast_finds_same(self.pixels@, held, 0);
                },
                _ => {},
            }
            self.pixels@.lemma_objects_are_found(i as int);
        }
        let ghost told_grid = self.pixels@;
        self.pixels.insert_object_cells_by_id(id);
        proof {
            match old(self).event {
                Some(CanvasEvent::SelectedObject(held)) => {
                    told_grid.lemma_same_cast_finds_same(self.pixels@, held, 0);
                },
                Some(CanvasEvent::MovingObject(held)) => {
                    told_grid.lemma_same_cast_finds_same(self.pixels@, held, 0);
                },
                _ => {},
            }
        }
    }
}

impl PixelBackground {
    /// Tells the object in the place `index` of the list of `event`.
    /// Returns the identifier of the object and what it sends.
    pub fn tick_object(&mut self, index: usize, event: ObjectUpdateEvent) -> (told: (
        ObjectId,
        Vec<ObjectData>,
    ))
        requires
            old(self).wf(),
            index < old(self)@.objects.len(),
        ensures
            final(self).wf(),
            told.0 == old(self)@.objects[index as int].state.id,
            told.1@ == old(self)@.objects[index as int].sent_on_tick(event),
            final(self)@ == (GridView {
                objects: old(self)@.objects.update(
                    index as int,
                    old(self)@.objects[index as int].after_tick(event),
                ),
                ..old(self)@
            }),
            old(self)@.same_cast(final(self)@),
            final(self)@.admits_all(told.1@),
    {
        let ghost was = self@.objects[index as int];
        let resp = self.objects[index].tick(event);
        let id = self.objects[index].get_id();
        proof {
            let target = old(self)@.objects.update(index as int, was.after_tick(event));
            assert(self@.objects =~= target);
            was.state.lemma_outputs_name_sender(
                NodeValue::Gpio(true),
                was.state.nodes.len() as int,
            );
            self@.lemma_objects_are_found(index as int);
        }
        (id, resp)
    }
}

} // verus!
