//! Typed event queues and the events of a window that travel through them.
//!
//! A queue keeps what was sent since the update before last, so that every
//! reader gets one full tick to see an event. A reader holds a cursor of its
//! own and is handed only what arrived since it last read; any number of
//! readers may follow one queue.

use vstd::prelude::*;
use crate::input::WindowId;
use crate::window::ScaleFactor;

verus! {

/// A window was resized.
#[derive(Debug, Clone, Copy, PartialEq, Eq, Structural)]
pub struct OnWindowResized {
    /// The window.
    pub id: WindowId,
    /// The new width of its client area in physical pixels.
    pub width: u32,
    /// The new height of its client area in physical pixels.
    pub height: u32,
}

/// The ratio of physical to logical pixels of a window changed.
#[derive(Debug, Clone, Copy, PartialEq, Eq, Structural)]
pub struct OnWindowScaleFactorChanged {
    /// The window.
    pub id: WindowId,
    /// The new ratio.
    pub scale_factor: ScaleFactor,
}

/// The user asked for a window to be closed.
#[derive(Debug, Clone, Copy, PartialEq, Eq, Structural)]
pub struct OnWindowCloseRequested {
    /// The window.
    pub id: WindowId,
}

/// A window gained or lost focus.
#[derive(Debug, Clone, Copy, PartialEq, Eq, Structural)]
pub struct OnWindowFocused {
    /// The window.
    pub id: WindowId,
    /// Whether it has the focus now.
    pub focused: bool,
}

/// The cursor entered a window.
#[derive(Debug, Clone, Copy, PartialEq, Eq, Structural)]
pub struct OnCursorEntered {
    /// The window.
    pub id: WindowId,
}

/// The cursor left a window.
#[derive(Debug, Clone, Copy, PartialEq, Eq, Structural)]
pub struct OnCursorLeft {
    /// The window.
    pub id: WindowId,
}

/// A window received a character of text.
#[derive(Debug, Clone, Copy, PartialEq, Eq, Structural)]
pub struct OnReceivedCharacter {
    /// The window.
    pub id: WindowId,
    /// The character.
    pub char: char,
}

/// A file is held over a window or was dropped into it.
#[derive(Debug, Clone, PartialEq, Eq)]
pub enum OnFileDragAndDrop {
    /// The file was dropped into the window.
    DroppedFile {
        /// The window.
        id: WindowId,
        /// The path of the file.
        path_buf: String,
    },
    /// The file is held over the window.
    HoveredFile {
        /// The window.
        id: WindowId,
        /// The path of the file.
        path_buf: String,
    },
}

/// A frame was asked for and dealt with.
#[derive(Debug, Clone, Copy, PartialEq, Eq, Structural)]
pub struct OnRedrawRequested {}

/// The application is to end.
#[derive(Debug, Clone, Copy, PartialEq, Eq, Structural)]
pub struct AppExit {}

/// A queue of events of one type.
#[derive(Debug, Clone)]
pub struct Events<T> {
    /// What was sent before the last update and after the one before.
    older: Vec<T>,
    /// What was sent since the last update.
    newer: Vec<T>,
    /// How many events the queue has let go of.
    dropped: u64,
}

impl<T> Events<T> {
    /// Whether the queue has kept count of its events. This holds of a new
    /// queue and of every queue that follows from it.
    pub closed spec fn wf(&self) -> bool {
        &&& self.dropped + self.older@.len() + self.newer@.len() <= u64::MAX
        &&& self.older@.len() + self.newer@.len() <= usize::MAX
    }

    /// The events that the queue holds, oldest first.
    pub closed spec fn retained(&self) -> Seq<T> {
        self.older@ + self.newer@
    }

    /// How many of the retained events were sent since the last update.
    pub closed spec fn fresh(&self) -> nat {
        self.newer@.len()
    }

    /// How many events the queue has let go of.
    pub closed spec fn oldest_event_count(&self) -> nat {
        self.dropped as nat
    }

    /// How many events were ever sent to the queue.
    pub open spec fn event_count(&self) -> nat {
        self.oldest_event_count() + self.retained().len()
    }

    /// Whether the queue can take one more event. It cannot while it holds
    /// `usize::MAX` events, nor after `u64::MAX` events.
    pub open spec fn has_room(&self) -> bool {
        &&& self.event_count() < u64::MAX
        &&& self.retained().len() < usize::MAX
    }

    /// An empty queue to which nothing was ever sent.
    pub fn new() -> (r: Self)
        ensures
            r.wf(),
            r.retained() == Seq::<T>::empty(),
            r.fresh() == 0,
            r.oldest_event_count() == 0,
    {
        Events { older: Vec::new(), newer: Vec::new(), dropped: 0 }
    }

    /// Whether the queue can take one more event.
    pub fn can_send(&self) -> (r: bool)
        requires
            self.wf(),
        ensures
            r == self.has_room(),
    {
        let held = self.older.len() + self.newer.len();
        held < usize::MAX && self.dropped < u64::MAX - held as u64
    }

    /// Appends `event` to the queue.
    pub fn send(&mut self, event: T)
        requires
            old(self).wf(),
            old(self).has_room(),
        ensures
            final(self).wf(),
            final(self).retained() == old(self).retained().push(event),
            final(self).fresh() == old(self).fresh() + 1,
            final(self).oldest_event_count() == old(self).oldest_event_count(),
    {
        self.newer.push(event);
    }

    /// Marks the start of a tick: only what was sent since the last update
    /// is kept, and none of it counts as fresh any more.
    pub fn update(&mut self)
        requires
            old(self).wf(),
        ensures
            final(self).wf(),
            final(self).retained() == old(self).retained().skip(
                old(self).retained().len() - old(self).fresh(),
            ),
            final(self).fresh() == 0,
            final(self).event_count() == old(self).event_count(),
    {
        let gone = self.older.len();
        std::mem::swap(&mut self.older, &mut self.newer);
        self.newer.clear();
        self.dropped = self.dropped + gone as u64;
    }

    /// Lets go of every event.
    pub fn clear(&mut self)
        requires
            old(self).wf(),
        ensures
            final(self).wf(),
            final(self).retained() == Seq::<T>::empty(),
            final(self).fresh() == 0,
            final(self).event_count() == old(self).event_count(),
    {
        let gone = self.older.len() + self.newer.len();
        self.older.clear();
        self.newer.clear();
        self.dropped = self.dropped + gone as u64;
    }

    /// How many events the queue holds.
    pub fn len(&self) -> (n: usize)
        requires
            self.wf(),
        ensures
            n == self.retained().len(),
    {
        self.older.len() + self.newer.len()
    }

    /// Whether the queue holds no event.
    pub fn is_empty(&self) -> (r: bool)
        ensures
            r == (self.retained().len() == 0),
    {
        self.older.len() == 0 && self.newer.len() == 0
    }

    /// A reader that is handed every event the queue holds and all that
    /// follow.
    pub fn get_reader(&self) -> (r: ManualEventReader)
        ensures
            r.spec_last_event_count() == 0,
    {
        ManualEventReader { last_event_count: 0 }
    }

    /// A reader that is handed only the events that follow.
    pub fn get_reader_current(&self) -> (r: ManualEventReader)
        requires
            self.wf(),
        ensures
            r.spec_last_event_count() == self.event_count(),
    {
        ManualEventReader {
            last_event_count: self.dropped + self.older.len() as u64 + self.newer.len() as u64,
        }
    }
}

/// A cursor into a queue of events: how many of the events ever sent to the
/// queue this reader has been handed or has missed.
#[derive(Debug, Clone, Copy, PartialEq, Eq, Structural)]
pub struct ManualEventReader {
    last_event_count: u64,
}

impl ManualEventReader {
    /// How many of the events ever sent to the queue lie behind the cursor.
    pub closed spec fn spec_last_event_count(&self) -> nat {
        self.last_event_count as nat
    }

    /// The events of `events` that this reader has not been handed: those
    /// that the queue still holds and that were sent after the cursor was
    /// last moved.
    pub open spec fn unread<T>(&self, events: &Events<T>) -> Seq<T> {
        let seen = self.spec_last_event_count() - events.oldest_event_count();
        if seen <= 0 {
            events.retained()
        } else if seen >= events.retained().len() {
            Seq::<T>::empty()
        } else {
            events.retained().skip(seen)
        }
    }

    /// A reader that is handed every event a queue holds.
    pub fn new() -> (r: Self)
        ensures
            r.spec_last_event_count() == 0,
    {
        ManualEventReader { last_event_count: 0 }
    }

    /// How many events of `events` this reader has not been handed.
    pub fn len<T>(&self, events: &Events<T>) -> (n: usize)
        requires
            events.wf(),
        ensures
            n == self.unread(events).len(),
    {
        let held = events.older.len() + events.newer.len();
        if self.last_event_count <= events.dropped {
            held
        } else {
            let seen = self.last_event_count - events.dropped;
            if seen >= held as u64 {
                0
            } else {
                held - seen as usize
            }
        }
    }

    /// Whether this reader has been handed everything that `events` holds.
    pub fn is_empty<T>(&self, events: &Events<T>) -> (r: bool)
        requires
            events.wf(),
        ensures
            r == (self.unread(events).len() == 0),
    {
        self.len(events) == 0
    }

    /// Hands out the events of `events` that this reader has not been
    /// handed, oldest first, and moves the cursor behind them.
    pub fn iter<'a, T>(&mut self, events: &'a Events<T>) -> (unread: Vec<&'a T>)
        requires
            events.wf(),
        ensures
            unread@.len() == old(self).unread(events).len(),
            forall|i: int|
                0 <= i < unread@.len() ==> *#[trigger] unread@[i] == old(self).unread(events)[i],
            final(self).spec_last_event_count() == events.event_count(),
            final(self).unread(events).len() == 0,
    {
        let ghost before = *self;
        let older = events.older.len();
        let held = older + events.newer.len();
        let skip = held - self.len(events);
        let mut out: Vec<&'a T> = Vec::new();
        let mut i: usize = skip;
        while i < held
            invariant
                skip <= i <= held,
                older == events.older@.len(),
                held == older + events.newer@.len(),
                out@.len() == i - skip,
                forall|j: int|
                    0 <= j < out@.len() ==> *#[trigger] out@[j] == events.retained()[skip + j],
            decreases held - i,
        {
            if i < older {
                out.push(&events.older[i]);
            } else {
                out.push(&events.newer[i - older]);
            }
            i += 1;
        }
        self.last_event_count = events.dropped + held as u64;
        out
    }
}

} // verus!
