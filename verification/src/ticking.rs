//! The queue of signals that wait for their next hop.
//!
//! Once per frame every waiting signal is taken one hop on, and the signals
//! that come of it wait for the next frame. A signal therefore needs as
//! many frames as it has cells to cross.

use crate::canvas::pixels::grid::GridView;
use crate::editor::state::CanvasState;
use crate::objects::ObjectData;
use vstd::prelude::*;

verus! {

/// Whether one of `signals` is of the same kind and at the same cell as
/// `signal`.
pub open spec fn targeted(signals: Seq<ObjectData>, signal: ObjectData) -> bool {
    exists|k: int| 0 <= k < signals.len() && (#[trigger] signals[k]).same_target(&signal)
}

/// The first `n` of `signals` without those that are of the same kind and
/// at the same cell as an earlier one.
pub open spec fn deduped_upto(signals: Seq<ObjectData>, n: int) -> Seq<ObjectData>
    decreases n,
{
    if n <= 0 {
        Seq::empty()
    } else {
        let before = deduped_upto(signals, n - 1);
        if targeted(before, signals[n - 1]) {
            before
        } else {
            before.push(signals[n - 1])
        }
    }
}

/// The signals without those that are of the same kind and at the same
/// cell as an earlier one.
pub open spec fn deduped(signals: Seq<ObjectData>) -> Seq<ObjectData> {
    deduped_upto(signals, signals.len() as int)
}

/// The grid after the first `n` of `queue` have each been taken one hop
/// on, one after the other, and the signals that came of it, in order.
pub open spec fn drained(grid: GridView, queue: Seq<ObjectData>, n: int) -> (
    GridView,
    Seq<ObjectData>,
)
    decreases n,
{
    if n <= 0 {
        (grid, Seq::empty())
    } else {
        let (before, signals) = drained(grid, queue, n - 1);
        let (after, more) = before.advanced(queue[n - 1]);
        (
            after,
            match more {
                Some(more) => signals + more,
                None => signals,
            },
        )
    }
}

/// The signals that wait for their next hop.
#[derive(Debug)]
pub struct Ticker {
    queries: Vec<ObjectData>,
}

impl View for Ticker {
    type V = Seq<ObjectData>;

    closed spec fn view(&self) -> Seq<ObjectData> {
        self.queries@
    }
}

impl Ticker {
    pub fn new() -> (ticker: Self)
        ensures
            ticker@ == Seq::<ObjectData>::empty(),
    {
        Ticker { queries: Vec::new() }
    }

    /// The signals that wait, in order.
    pub fn queries(&self) -> (waiting: &Vec<ObjectData>)
        ensures
            waiting@ == self@,
    {
        &self.queries
    }

    fn is_targeted(signals: &Vec<ObjectData>, signal: &ObjectData) -> (yes: bool)
        ensures
            yes == targeted(signals@, *signal),
    {
        let mut k: usize = 0;
        while k < signals.len()
            invariant
                k <= signals@.len(),
                forall|j: int| 0 <= j < k ==> !(#[trigger] signals@[j]).same_target(signal),
            decreases signals@.len() - k,
        {
            if signals[k] == *signal {
                return true;
            }
            k += 1;
        }
        false
    }

    /// Of signals of the same kind at the same cell, keeps the first.
    pub fn remove_duplicates(&mut self)
        ensures
            final(self)@ == deduped(old(self)@),
    {
        let mut waiting: Vec<ObjectData> = Vec::new();
        std::mem::swap(&mut waiting, &mut self.queries);
        let mut unique: Vec<ObjectData> = Vec::new();
        let mut n: usize = 0;
        while n < waiting.len()
            invariant
                n <= waiting@.len(),
                waiting@ == old(self)@,
                unique@ == deduped_upto(waiting@, n as int),
            decreases waiting@.len() - n,
        {
            let data = waiting[n];
            if !Self::is_targeted(&unique, &data) {
                unique.push(data);
            }
            n += 1;
        }
        self.queries = unique;
    }

    /// Puts signals at the end of the queue; then, of signals of the same
    /// kind at the same cell, keeps the first.
    pub fn add(&mut self, data: Vec<ObjectData>)
        ensures
            final(self)@ == deduped(old(self)@ + data@),
    {
        let mut data = data;
        self.queries.append(&mut data);
        self.remove_duplicates();
    }

    /// Whether the grid can take every signal that waits.
    pub fn is_admitted(&self, canvas: &CanvasState) -> (yes: bool)
        ensures
            yes == canvas.pixels@.admits_all(self@),
    {
        let mut n: usize = 0;
        while n < self.queries.len()
            invariant
                n <= self.queries@.len(),
                forall|k: int| 0 <= k < n ==> canvas.pixels@.admits(#[trigger] self.queries@[k]),
            decreases self.queries@.len() - n,
        {
            match self.queries[n] {
                ObjectData::FromNode(id, _, _, _) => {
                    if canvas.pixels.get_object_by_id(id).is_none() {
                        return false;
                    }
                },
                ObjectData::Wire(_, _) => {},
            }
            n += 1;
        }
        true
    }

    /// Takes every waiting signal one hop on, in order, and leaves in the
    /// queue the signals that came of it: of signals of the same kind at
    /// the same cell, the first.
    pub fn tick_all(&mut self, canvas: &mut CanvasState)
        requires
            old(canvas).pixels.wf(),
            old(canvas).pixels@.admits_all(old(self)@),
        ensures
            final(canvas).pixels.wf(),
            final(canvas).pixels@ == drained(
                old(canvas).pixels@,
                old(self)@,
                old(self)@.len() as int,
            ).0,
            final(self)@ == deduped(
                drained(old(canvas).pixels@, old(self)@, old(self)@.len() as int).1,
            ),
            old(canvas).pixels@.same_cast(final(canvas).pixels@),
            final(canvas).pixels@.admits_all(final(self)@),
            final(canvas).info == old(canvas).info,
            final(canvas).event == old(canvas).event,
    {
        let mut waiting: Vec<ObjectData> = Vec::new();
        std::mem::swap(&mut waiting, &mut self.queries);
        let ghost first = canvas.pixels@;
        let mut n: usize = 0;
        while n < waiting.len()
            invariant
                n <= waiting@.len(),
                waiting@ == old(self)@,
                first == old(canvas).pixels@,
                first.admits_all(waiting@),
                canvas.pixels.wf(),
                canvas.info == old(canvas).info,
                canvas.event == old(canvas).event,
                (canvas.pixels@, self.queries@) == drained(first, waiting@, n as int),
                first.same_cast(canvas.pixels@),
                canvas.pixels@.admits_all(self.queries@),
            decreases waiting@.len() - n,
        {
            let data = waiting[n];
            let ghost before = canvas.pixels@;
            let ghost sofar = self.queries@;
            proof {
                match data {
                    ObjectData::FromNode(id, _, _, _) => {
                        first.lemma_same_cast_finds_same(before, id, 0);
                    },
                    ObjectData::Wire(_, _) => {},
                }
            }
            match data.continue_sending(canvas) {
                Some(next) => {
                    let mut next = next;
                    self.queries.append(&mut next);
                },
                None => {},
            }
            proof {
                assert forall|k: int| 0 <= k < self.queries@.len() implies canvas.pixels@.admits(
                    #[trigger] self.queries@[k],
                ) by {
                    if k < sofar.len() {
                        match sofar[k] {
                            ObjectData::FromNode(id, _, _, _) => {
                                before.lemma_same_cast_finds_same(canvas.pixels@, id, 0);
                            },
                            ObjectData::Wire(_, _) => {},
                        }
                    }
                }
            }
            n += 1;
        }
        let ghost came = self.queries@;
        self.remove_duplicates();
        proof {
            lemma_deduped_is_drawn_from(came, came.len() as int);
        }
    }
}

/// Puts signals at the end of the queue; then, of signals of the same kind
/// at the same cell, keeps the first.
pub fn add_to_ticking(ticker: &mut Ticker, data: Vec<ObjectData>)
    ensures
        final(ticker)@ == deduped(old(ticker)@ + data@),
{
    ticker.add(data);
}

/// Takes every waiting signal one hop on.
pub fn tick(ticker: &mut Ticker, canvas: &mut CanvasState)
    requires
        old(canvas).pixels.wf(),
        old(canvas).pixels@.admits_all(old(ticker)@),
    ensures
        final(canvas).pixels.wf(),
        final(canvas).pixels@ == drained(
            old(canvas).pixels@,
            old(ticker)@,
            old(ticker)@.len() as int,
        ).0,
        final(ticker)@ == deduped(
            drained(old(canvas).pixels@, old(ticker)@, old(ticker)@.len() as int).1,
        ),
        old(canvas).pixels@.same_cast(final(canvas).pixels@),
        final(canvas).pixels@.admits_all(final(ticker)@),
        final(canvas).info == old(canvas).info,
        final(canvas).event == old(canvas).event,
{
    ticker.tick_all(canvas);
}

/// Every signal that is left after duplicates are removed was there
/// before.
pub proof fn lemma_deduped_is_drawn_from(signals: Seq<ObjectData>, n: int)
    requires
        0 <= n <= signals.len(),
    ensures
        forall|k: int|
            0 <= k < deduped_upto(signals, n).len() ==> exists|j: int|
                0 <= j < n && signals[j] == #[trigger] deduped_upto(signals, n)[k],
    decreases n,
{
    if n > 0 {
        lemma_deduped_is_drawn_from(signals, n - 1);
        assert(deduped_upto(signals, n).len() <= deduped_upto(signals, n - 1).len() + 1);
    }
}

/// After duplicates are removed no two signals in the queue are of the
/// same kind and at the same cell, and every signal that was there is
/// still stood for by one of its kind at its cell: the first.
pub proof fn lemma_deduped_is_unique_and_stands_for_all(signals: Seq<ObjectData>, n: int)
    requires
        0 <= n <= signals.len(),
    ensures
        forall|i: int, j: int|
            #![trigger deduped_upto(signals, n)[i], deduped_upto(signals, n)[j]]
            0 <= i < j < deduped_upto(signals, n).len() ==> !deduped_upto(signals, n)[i].same_target(
                &deduped_upto(signals, n)[j],
            ),
        forall|k: int| 0 <= k < n ==> targeted(deduped_upto(signals, n), #[trigger] signals[k]),
    decreases n,
{
    if n > 0 {
        lemma_deduped_is_unique_and_stands_for_all(signals, n - 1);
        let before = deduped_upto(signals, n - 1);
        let after = deduped_upto(signals, n);
        let last = signals[n - 1];
        assert forall|k: int| 0 <= k < n implies targeted(after, #[trigger] signals[k]) by {
            if k < n - 1 {
                let w = choose|w: int| 0 <= w < before.len() && (#[trigger] before[w]).same_target(
                    &signals[k],
                );
                assert(after[w].same_target(&signals[k]));
            } else if targeted(before, last) {
            } else {
                assert(after[after.len() - 1].same_target(&last));
            }
        }
    }
}

} // verus!
