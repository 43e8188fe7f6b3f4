//! Fresh numeric identifiers, counted separately for each kind of entity.

use vstd::prelude::*;

verus! {

/// The kinds of entity that are named by a number.
#[derive(Clone, Copy, Debug, PartialEq, Eq, Hash, Structural)]
pub enum EntityKind {
    Course,
    Video,
    Hackathon,
}

/// Hands out identifiers, counted from 1 for each kind of entity and never
/// one of them twice.
pub struct IdAllocator {
    next_course: u64,
    next_video: u64,
    next_hackathon: u64,
}

impl IdAllocator {
    /// The identifier that will be handed out next for `kind`.
    pub closed spec fn upcoming(&self, kind: EntityKind) -> u64 {
        match kind {
            EntityKind::Course => self.next_course,
            EntityKind::Video => self.next_video,
            EntityKind::Hackathon => self.next_hackathon,
        }
    }

    /// An allocator that has handed out nothing yet.
    pub fn new() -> (r: Self)
        ensures
            forall|kind: EntityKind| r.upcoming(kind) == 1,
    {
        IdAllocator { next_course: 1, next_video: 1, next_hackathon: 1 }
    }

    /// The identifier that will be handed out next for `kind`.
    pub fn peek(&self, kind: EntityKind) -> (r: u64)
        ensures
            r == self.upcoming(kind),
    {
        match kind {
            EntityKind::Course => self.next_course,
            EntityKind::Video => self.next_video,
            EntityKind::Hackathon => self.next_hackathon,
        }
    }

    /// Whether an identifier is left to hand out for `kind`.
    pub fn has_next(&self, kind: EntityKind) -> (r: bool)
        ensures
            r == (self.upcoming(kind) < u64::MAX),
    {
        self.peek(kind) < u64::MAX
    }

    /// Hands out a fresh identifier for `kind`: one more than the last, and 1
    /// the first time. The other kinds are left as they are.
    pub fn next_id(&mut self, kind: EntityKind) -> (id: u64)
        requires
            old(self).upcoming(kind) < u64::MAX,
        ensures
            id == old(self).upcoming(kind),
            final(self).upcoming(kind) == id + 1,
            forall|other: EntityKind|
                other != kind ==> final(self).upcoming(other) == old(self).upcoming(other),
    {
        match kind {
            EntityKind::Course => {
                let id: u64 = self.next_course;
                self.next_course = id + 1;
                id
            },
            EntityKind::Video => {
                let id: u64 = self.next_video;
                self.next_video = id + 1;
                id
            },
            EntityKind::Hackathon => {
                let id: u64 = self.next_hackathon;
                self.next_hackathon = id + 1;
                id
            },
        }
    }
}

} // verus!
