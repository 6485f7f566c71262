//! Playlist navigator: circular position tracking over an ordered track list.
//!
//! The navigator keeps two cursors. `current` is the active position;
//! `last` is the position whose track was most recently loaded into the
//! sink, and is also left at the immediately preceding position by a cursor
//! move. The distinction lets the player skip a reload when resuming the
//! track it already loaded.

use vstd::prelude::*;

verus! {

/// Ghost image of a navigator: the track paths and the two cursors.
pub struct NavView {
    pub tracks: Seq<String>,
    pub current: int,
    pub last: int,
}

/// The cursor one step forward of `current`, wrapping past the final index
/// to 0. An empty sequence leaves the cursor in place.
pub open spec fn next_current(current: int, len: int) -> int {
    if len <= 0 {
        current
    } else if current + 1 < len {
        current + 1
    } else {
        0
    }
}

/// The cursor one step back of `current`, wrapping before 0 to the final
/// index. An empty sequence leaves the cursor in place.
pub open spec fn prev_current(current: int, len: int) -> int {
    if len <= 0 {
        current
    } else if current == 0 {
        len - 1
    } else {
        current - 1
    }
}

/// Ordered track list with the two cursors.
pub struct Navigator {
    tracks: Vec<String>,
    current: usize,
    last: usize,
}

impl View for Navigator {
    type V = NavView;

    closed spec fn view(&self) -> NavView {
        NavView { tracks: self.tracks@, current: self.current as int, last: self.last as int }
    }
}

impl Navigator {
    /// Both cursors are valid indices whenever the list is non-empty, and
    /// rest at 0 while it is empty.
    pub open spec fn inv(&self) -> bool {
        if self@.tracks.len() == 0 {
            self@.current == 0 && self@.last == 0
        } else {
            0 <= self@.current < self@.tracks.len() && 0 <= self@.last < self@.tracks.len()
        }
    }

    /// An empty navigator with both cursors at 0.
    pub fn new() -> (r: Self)
        ensures
            r.inv(),
            r@.tracks == Seq::<String>::empty(),
            r@.current == 0,
            r@.last == 0,
    {
        Self { tracks: Vec::new(), current: 0, last: 0 }
    }

    /// Append a track at the end; the cursors do not move.
    pub fn enqueue(&mut self, track: String)
        requires
            old(self).inv(),
        ensures
            final(self).inv(),
            final(self)@.tracks == old(self)@.tracks.push(track),
            final(self)@.current == old(self)@.current,
            final(self)@.last == old(self)@.last,
    {
        self.tracks.push(track);
    }

    /// Advance: `last` takes the old position, `current` moves one step
    /// forward, wrapping to 0 past the final index. On an empty list nothing
    /// moves.
    pub fn next(&mut self)
        requires
            old(self).inv(),
        ensures
            final(self).inv(),
            final(self)@.tracks == old(self)@.tracks,
            old(self)@.tracks.len() > 0 ==> final(self)@.last == old(self)@.current,
            old(self)@.tracks.len() == 0 ==> final(self)@.last == old(self)@.last,
            final(self)@.current == next_current(old(self)@.current, old(self)@.tracks.len() as int),
    {
        if self.tracks.len() > 0 {
            self.last = self.current;
            self.current = if self.current + 1 < self.tracks.len() {
                self.current + 1
            } else {
                0
            };
        }
    }

    /// Retreat: `last` takes the old position, `current` moves one step
    /// back, wrapping to the final index before 0. On an empty list nothing
    /// moves.
    pub fn prev(&mut self)
        requires
            old(self).inv(),
        ensures
            final(self).inv(),
            final(self)@.tracks == old(self)@.tracks,
            old(self)@.tracks.len() > 0 ==> final(self)@.last == old(self)@.current,
            old(self)@.tracks.len() == 0 ==> final(self)@.last == old(self)@.last,
            final(self)@.current == prev_current(old(self)@.current, old(self)@.tracks.len() as int),
    {
        if self.tracks.len() > 0 {
            self.last = self.current;
            self.current = if self.current == 0 {
                self.tracks.len() - 1
            } else {
                self.current - 1
            };
        }
    }

    /// Mark the current position as the one whose track is loaded.
    pub fn mark_loaded(&mut self)
        requires
            old(self).inv(),
        ensures
            final(self).inv(),
            final(self)@.tracks == old(self)@.tracks,
            final(self)@.current == old(self)@.current,
            final(self)@.last == old(self)@.current,
    {
        self.last = self.current;
    }

    /// The track at the current position, or nothing on an empty list.
    pub fn track(&self) -> (r: Option<&String>)
        requires
            self.inv(),
        ensures
            self@.tracks.len() == 0 ==> r is None,
            self@.tracks.len() > 0 ==> (r matches Some(t) && *t == self@.tracks[self@.current]),
    {
        if self.tracks.len() == 0 {
            None
        } else {
            Some(&self.tracks[self.current])
        }
    }

    /// True exactly when `current` rests on the final index.
    pub fn at_end(&self) -> (r: bool)
        requires
            self.inv(),
        ensures
            r == (self@.current == self@.tracks.len() - 1),
    {
        self.tracks.len() > 0 && self.current == self.tracks.len() - 1
    }

    /// Read-only snapshot `(last, current, length)`.
    pub fn position(&self) -> (r: (usize, usize, usize))
        ensures
            r.0 == self@.last,
            r.1 == self@.current,
            r.2 == self@.tracks.len(),
    {
        (self.last, self.current, self.tracks.len())
    }
}

/// The two cursor moves are mutual inverses on a list of more than one
/// track: stepping forward and then back returns `current` to where it
/// began, and so does stepping back and then forward. The `last` cursor is
/// outside the statement: it always takes the immediately preceding
/// position, not a history.
pub proof fn lemma_next_prev_inverse(current: int, len: int)
    requires
        len > 1,
        0 <= current < len,
    ensures
        prev_current(next_current(current, len), len) == current,
        next_current(prev_current(current, len), len) == current,
{
}

} // verus!
