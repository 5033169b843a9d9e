//! The circuit as a whole: the canvas, the queue of signals, the counter
//! of identifiers, and whether the circuit runs or is being edited.

use crate::canvas::pixels::grid::GridView;
use crate::editor::event::EditorEvent;
use crate::editor::state::{CanvasEvent, CanvasState, CanvasView, Pointer};
use crate::error::EditingError;
use crate::ids::IdCounter;
use crate::object::ObjectType;
use crate::objects::{create_new_object_from_type, made, ObjectData, ObjectUpdateEvent};
use crate::ticking::{deduped, drained, Ticker};
use vstd::prelude::*;

verus! {

/// The grid and the queue after the first `n` objects have had the tick of
/// the frame, one after the other: each that reacts to ticks is told, and
/// what it sends joins the queue, where of signals of the same kind at the
/// same cell the first is kept.
pub open spec fn swept(grid: GridView, queue: Seq<ObjectData>, n: int) -> (
    GridView,
    Seq<ObjectData>,
)
    decreases n,
{
    if n <= 0 {
        (grid, queue)
    } else {
        let (before, waiting) = swept(grid, queue, n - 1);
        let object = before.objects[n - 1];
        if object.tickable() {
            (
                GridView {
                    objects: before.objects.update(
                        n - 1,
                        object.after_tick(ObjectUpdateEvent::GlobalTick),
                    ),
                    ..before
                },
                deduped(waiting + object.sent_on_tick(ObjectUpdateEvent::GlobalTick)),
            )
        } else {
            (before, waiting)
        }
    }
}

/// The grid and the queue after one frame: every object has had the tick
/// of the frame, and then every signal that waited has been taken one hop
/// on.
pub open spec fn framed(grid: GridView, queue: Seq<ObjectData>) -> (GridView, Seq<ObjectData>) {
    let (ticked, waiting) = swept(grid, queue, grid.objects.len() as int);
    let (after, came) = drained(ticked, waiting, waiting.len() as int);
    (after, deduped(came))
}

/// A circuit, with all that goes with it.
#[derive(Debug)]
pub struct Simulation {
    pub canvas: CanvasState,
    pub ticker: Ticker,
    pub ids: IdCounter,
    /// Whether the circuit runs, rather than being edited.
    pub running: bool,
}

impl Simulation {
    /// An empty circuit, begun at the time `date`, ready to be edited: an
    /// empty canvas, no signal waiting, and the first identifier to come.
    pub fn new(date: i64) -> (simulation: Self)
        ensures
            simulation.canvas.wf(),
            simulation.canvas@ == (CanvasView {
                grid: GridView {
                    palette: crate::canvas::pixels::PixelBackground::first_palette(),
                    cells: Map::empty(),
                    objects: Seq::empty(),
                },
                event: None,
            }),
            simulation.canvas.info.user_id == 1,
            simulation.canvas.info.created_at == date,
            simulation.canvas.info.updated_at == date,
            simulation.ticker@ == Seq::<ObjectData>::empty(),
            simulation.ids.upcoming() == 1,
            !simulation.running,
    {
        Simulation {
            canvas: CanvasState::new(date),
            ticker: Ticker::new(),
            ids: IdCounter::new(),
            running: false,
        }
    }

    pub fn is_editor_running(&self) -> (yes: bool)
        ensures
            yes == self.running,
    {
        self.running
    }

    pub fn set_editor_running(&mut self, value: bool)
        ensures
            final(self).running == value,
            final(self).canvas == old(self).canvas,
            final(self).ticker == old(self).ticker,
            final(self).ids == old(self).ids,
    {
        self.running = value;
    }

    /// Puts the grid back to rest, as is done whenever the circuit is
    /// started or stopped.
    pub fn toggled_edit_mode(&mut self)
        requires
            old(self).canvas.wf(),
        ensures
            final(self).canvas.pixels.wf(),
            final(self).canvas.pixels@ == old(self).canvas.pixels@.after_reset(),
            final(self).canvas.event == old(self).canvas.event,
            final(self).canvas.info == old(self).canvas.info,
            final(self).ticker == old(self).ticker,
            final(self).ids == old(self).ids,
            final(self).running == old(self).running,
    {
        self.canvas.pixels.reset_all();
    }

    /// Takes in what the user has done: as a circuit that runs does, or as
    /// one that is being edited. Returns whether the canvas is to begin
    /// being dragged.
    pub fn update(&mut self, pointer: &Pointer, editor_event: &EditorEvent) -> (drag: bool)
        requires
            old(self).canvas.wf(),
        ensures
            final(self).canvas.wf(),
            final(self).running == old(self).running,
            final(self).ids == old(self).ids,
            final(self).canvas.info == old(self).canvas.info,
            old(self).running ==> !drag && final(self).canvas.event == old(self).canvas.event && (
            final(self).canvas.pixels@, final(self).ticker@) == old(self).canvas@.ran(
                old(self).ticker@,
                pointer.cell,
                *editor_event,
            ),
            !old(self).running ==> final(self).ticker == old(self).ticker && (
            final(self).canvas@, drag) == old(self).canvas@.edited(*pointer, *editor_event),
    {
        if self.running {
            self.canvas.update_running(&mut self.ticker, pointer.cell, editor_event);
            false
        } else {
            self.canvas.update_editing(pointer, editor_event)
        }
    }

    /// Lets one frame pass: gives every object the tick of the frame and
    /// then takes every waiting signal one hop on. Nothing is done, and
    /// the error says so, if a signal waits that names an object that is
    /// no longer on the grid.
    pub fn global_tick(&mut self) -> (done: Result<(), EditingError>)
        requires
            old(self).canvas.wf(),
        ensures
            final(self).canvas.wf(),
            final(self).running == old(self).running,
            final(self).ids == old(self).ids,
            final(self).canvas.info == old(self).canvas.info,
            final(self).canvas.event == old(self).canvas.event,
            match done {
                Ok(()) => old(self).canvas.pixels@.admits_all(old(self).ticker@) && (
                final(self).canvas.pixels@, final(self).ticker@) == framed(
                    old(self).canvas.pixels@,
                    old(self).ticker@,
                ),
                Err(error) => error == EditingError::UnableToFindObject && !old(
                    self,
                ).canvas.pixels@.admits_all(old(self).ticker@) && final(self).canvas.pixels@ == old(
                    self,
                ).canvas.pixels@ && final(self).ticker@ == old(self).ticker@,
            },
    {
        if !self.ticker.is_admitted(&self.canvas) {
            return Err(EditingError::UnableToFindObject);
        }
        let count = self.canvas.pixels.objects.len();
        let mut n: usize = 0;
        while n < count
            invariant
                n <= count,
                count == old(self).canvas.pixels@.objects.len(),
                self.canvas.pixels.wf(),
                self.running == old(self).running,
                self.ids == old(self).ids,
                self.canvas.info == old(self).canvas.info,
                self.canvas.event == old(self).canvas.event,
                old(self).canvas.pixels@.same_cast(self.canvas.pixels@),
                self.canvas.pixels@.admits_all(self.ticker@),
                (self.canvas.pixels@, self.ticker@) == swept(
                    old(self).canvas.pixels@,
                    old(self).ticker@,
                    n as int,
                ),
            decreases count - n,
        {
            if self.canvas.pixels.objects[n].is_tickable() {
                let ghost before = self.canvas.pixels@;
                let ghost waiting = self.ticker@;
                let (_id, resp) = self.canvas.pixels.tick_object(n, ObjectUpdateEvent::GlobalTick);
                let ghost sent = resp@;
                self.ticker.add(resp);
                proof {
                    crate::ticking::lemma_deduped_is_drawn_from(
                        waiting + sent,
                        (waiting + sent).len() as int,
                    );
                    assert forall|k: int|
                        0 <= k < self.ticker@.len() implies self.canvas.pixels@.admits(
                        #[trigger] self.ticker@[k],
                    ) by {
                        let j = choose|j: int|
                            0 <= j < (waiting + sent).len() && (waiting + sent)[j]
                                == self.ticker@[k];
                        if j < waiting.len() {
                            match waiting[j] {
                                ObjectData::FromNode(id, _, _, _) => {
                                    before.lemma_same_cast_finds_same(self.canvas.pixels@, id, 0);
                                },
                                ObjectData::Wire(_, _) => {},
                            }
                        }
                    }
                }
            }
            n += 1;
        }
        let ghost ticked = self.canvas.pixels@;
        self.ticker.tick_all(&mut self.canvas);
        proof {
            match old(self).canvas.event {
                Some(CanvasEvent::SelectedObject(held)) => {
                    old(self).canvas.pixels@.lemma_same_cast_finds_same(ticked, held, 0);
                    ticked.lemma_same_cast_finds_same(self.canvas.pixels@, held, 0);
                },
                Some(CanvasEvent::MovingObject(held)) => {
                    old(self).canvas.pixels@.lemma_same_cast_finds_same(ticked, held, 0);
                    ticked.lemma_same_cast_finds_same(self.canvas.pixels@, held, 0);
                },
                _ => {},
            }
        }
        Ok(())
    }

    /// Makes a new object of the kind `type_of`, puts it on the list at
    /// the cell (10, 10), and gives it to the user to move. Its footprint
    /// is not put on the cells.
    pub fn add_new_object(&mut self, type_of: ObjectType)
        requires
            old(self).canvas.wf(),
            type_of.available(),
            old(self).ids.upcoming() < usize::MAX,
        ensures
            final(self).canvas.wf(),
            final(self).ids.upcoming() == old(self).ids.upcoming() + 1,
            final(self).canvas@ == (CanvasView {
                grid: GridView {
                    objects: old(self).canvas.pixels@.objects.push(
                        made(
                            crate::ids::ObjectId(old(self).ids.upcoming()),
                            type_of,
                            (5, 5),
                            None,
                        ).moved((10, 10)),
                    ),
                    ..old(self).canvas.pixels@
                },
                event: Some(
                    CanvasEvent::MovingObject(crate::ids::ObjectId(old(self).ids.upcoming())),
                ),
            }),
            final(self).canvas.info == old(self).canvas.info,
            final(self).ticker == old(self).ticker,
            final(self).running == old(self).running,
    {
        let mut new_obj = create_new_object_from_type(type_of, &mut self.ids);
        proof {
            crate::objects::lemma_made_objects_are_valid(
                crate::ids::ObjectId(old(self).ids.upcoming()),
                type_of,
                (5, 5),
                None,
            );
        }
        new_obj.set_cell_pos((10, 10));
        let id = new_obj.get_id();
        self.canvas.event = Some(CanvasEvent::MovingObject(id));
        self.canvas.pixels.add_object(new_obj);
        proof {
            let grid = self.canvas.pixels@;
            grid.lemma_objects_are_found(grid.objects.len() - 1);
        }
    }
}

} // verus!
