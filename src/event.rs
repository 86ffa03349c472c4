//! The base event record shared by every kind of event.

use vstd::prelude::*;

verus! {

/// Whether an event bubbles up through its ancestors.
#[derive(Debug, Clone, Copy, PartialEq, Eq, Structural)]
pub enum EventBubbles {
    Bubbles,
    DoesNotBubble,
}

/// Whether an event's default action can be cancelled.
#[derive(Debug, Clone, Copy, PartialEq, Eq, Structural)]
pub enum EventCancelable {
    Cancelable,
    NotCancelable,
}

/// The errors that event operations report.
#[derive(Debug, Clone, Copy, PartialEq, Eq, Structural)]
pub enum Error {
    /// The operation is not allowed in the object's current state
    /// (an event that was already initialised).
    InvalidState,
}

/// The result of an operation that may fail with an [`Error`].
pub type Fallible<T> = Result<T, Error>;

/// The mathematical model of an [`Event`].
pub ghost struct EventView {
    pub type_: Seq<char>,
    pub bubbles: bool,
    pub cancelable: bool,
    pub trusted: bool,
    pub initialized: bool,
}

impl EventView {
    /// The state of a freshly made base record: no type, no flags, not
    /// trusted, not yet initialised.
    pub open spec fn fresh() -> EventView {
        EventView {
            type_: Seq::empty(),
            bubbles: false,
            cancelable: false,
            trusted: false,
            initialized: false,
        }
    }

    /// The state after `init_event`: the first call sets and freezes the
    /// type and the two flags; any later call leaves the record as it is.
    pub open spec fn after_init(self, type_: Seq<char>, bubbles: bool, cancelable: bool) -> EventView {
        if self.initialized {
            self
        } else {
            EventView { type_, bubbles, cancelable, initialized: true, ..self }
        }
    }

    /// What `init_event` returns: it fails on a record that was already
    /// initialised.
    pub open spec fn init_outcome(self) -> Fallible<()> {
        if self.initialized {
            Err(Error::InvalidState)
        } else {
            Ok(())
        }
    }
}

/// The base record of every event.
pub struct Event {
    type_: String,
    bubbles: bool,
    cancelable: bool,
    trusted: bool,
    initialized: bool,
}

impl View for Event {
    type V = EventView;

    closed spec fn view(&self) -> EventView {
        EventView {
            type_: self.type_@,
            bubbles: self.bubbles,
            cancelable: self.cancelable,
            trusted: self.trusted,
            initialized: self.initialized,
        }
    }
}

impl Event {
    /// A base record that is not yet initialised; the embedding record's
    /// factory calls `init_event` on it.
    pub fn new_inherited() -> (r: Event)
        ensures
            r@ == EventView::fresh(),
    {
        Event {
            type_: String::new(),
            bubbles: false,
            cancelable: false,
            trusted: false,
            initialized: false,
        }
    }

    /// Sets the type and the two flags, once. A second call is refused with
    /// `InvalidState` and changes nothing, so holders of the record never
    /// see its type or flags change.
    pub fn init_event(&mut self, type_: String, bubbles: bool, cancelable: bool) -> (r: Fallible<()>)
        ensures
            final(self)@ == old(self)@.after_init(type_@, bubbles, cancelable),
            r == old(self)@.init_outcome(),
    {
        if self.initialized {
            return Err(Error::InvalidState);
        }
        self.type_ = type_;
        self.bubbles = bubbles;
        self.cancelable = cancelable;
        self.initialized = true;
        Ok(())
    }

    /// Marks the record as made by native code (or not). Only native code
    /// calls this: the script constructor never does.
    pub fn set_trusted(&mut self, trusted: bool)
        ensures
            final(self)@ == (EventView { trusted, ..old(self)@ }),
    {
        self.trusted = trusted;
    }

    /// The event's type name.
    pub fn Type(&self) -> (r: String)
        ensures
            r@ == self@.type_,
    {
        self.type_.clone()
    }

    pub fn Bubbles(&self) -> (r: bool)
        ensures
            r == self@.bubbles,
    {
        self.bubbles
    }

    pub fn Cancelable(&self) -> (r: bool)
        ensures
            r == self@.cancelable,
    {
        self.cancelable
    }

    /// Whether native code made the event.
    pub fn IsTrusted(&self) -> (r: bool)
        ensures
            r == self@.trusted,
    {
        self.trusted
    }

    /// Whether `init_event` has run.
    pub fn is_initialized(&self) -> (r: bool)
        ensures
            r == self@.initialized,
    {
        self.initialized
    }
}

/// Initialisation is done once: after any call of `init_event`, every
/// further call fails with `InvalidState` and leaves the record unchanged,
/// so repeated calls agree with one another.
pub proof fn lemma_init_event_once(
    e: EventView,
    type1: Seq<char>,
    bubbles1: bool,
    cancelable1: bool,
    type2: Seq<char>,
    bubbles2: bool,
    cancelable2: bool,
)
    ensures
        e.after_init(type1, bubbles1, cancelable1).initialized,
        e.after_init(type1, bubbles1, cancelable1).after_init(type2, bubbles2, cancelable2)
            == e.after_init(type1, bubbles1, cancelable1),
        e.after_init(type1, bubbles1, cancelable1).init_outcome() == Err::<(), Error>(Error::InvalidState),
{
}

} // verus!
