//! Identifiers of objects and of texts, and the counters that issue them.

use vstd::prelude::*;

verus! {

/// Issues identifiers in rising order, beginning at one. Zero is never
/// issued: it stands for "none".
#[derive(Debug, Clone, Copy, PartialEq, Eq, Structural)]
pub struct IdCounter {
    next: usize,
}

impl IdCounter {
    /// The number that the next identifier will be.
    pub closed spec fn upcoming(self) -> usize {
        self.next
    }

    pub fn new() -> (counter: Self)
        ensures
            counter.upcoming() == 1,
    {
        IdCounter { next: 1 }
    }

    /// The number that the next identifier will be.
    pub fn next_id(&self) -> (id: usize)
        ensures
            id == self.upcoming(),
    {
        self.next
    }

    /// Whether no further identifier can be issued.
    pub fn is_exhausted(&self) -> (yes: bool)
        ensures
            yes == (self.upcoming() == usize::MAX),
    {
        self.next == usize::MAX
    }

    /// Starts again at one.
    pub fn reset(&mut self)
        ensures
            final(self).upcoming() == 1,
    {
        self.next = 1;
    }

    /// Hands out the upcoming number and moves on by one.
    pub fn take(&mut self) -> (id: usize)
        requires
            old(self).upcoming() < usize::MAX,
        ensures
            id == old(self).upcoming(),
            final(self).upcoming() == id + 1,
    {
        let id = self.next;
        self.next = id + 1;
        id
    }
}

#[derive(Debug, Clone, Copy, PartialEq, Eq, Structural)]
pub struct TextId(pub usize);

#[derive(Debug, Clone, Copy, PartialEq, Eq, Structural)]
pub struct ObjectId(pub usize);

impl ObjectId {
    /// A fresh identifier: larger than every one `counter` issued before.
    pub fn gen_id(counter: &mut IdCounter) -> (id: Self)
        requires
            old(counter).upcoming() < usize::MAX,
        ensures
            id.0 == old(counter).upcoming(),
            final(counter).upcoming() == id.0 + 1,
    {
        ObjectId(counter.take())
    }

    pub fn reset(counter: &mut IdCounter)
        ensures
            final(counter).upcoming() == 1,
    {
        counter.reset();
    }

    /// The identifier that no object has.
    pub fn empty() -> (id: Self)
        ensures
            id.0 == 0,
    {
        ObjectId(0)
    }

    pub fn into_usize(self) -> (number: usize)
        ensures
            number == self.0,
    {
        self.0
    }

    pub fn eq_usize(&self, other: usize) -> (yes: bool)
        ensures
            yes == (self.0 == other),
    {
        self.0 == other
    }
}

impl TextId {
    /// A fresh identifier: larger than every one `counter` issued before.
    pub fn gen_id(counter: &mut IdCounter) -> (id: Self)
        requires
            old(counter).upcoming() < usize::MAX,
        ensures
            id.0 == old(counter).upcoming(),
            final(counter).upcoming() == id.0 + 1,
    {
        TextId(counter.take())
    }

    pub fn reset(counter: &mut IdCounter)
        ensures
            final(counter).upcoming() == 1,
    {
        counter.reset();
    }

    /// The identifier that no text has.
    pub fn empty() -> (id: Self)
        ensures
            id.0 == 0,
    {
        TextId(0)
    }

    pub fn into_usize(self) -> (number: usize)
        ensures
            number == self.0,
    {
        self.0
    }

    pub fn eq_usize(&self, other: usize) -> (yes: bool)
        ensures
            yes == (self.0 == other),
    {
        self.0 == other
    }
}

} // verus!
