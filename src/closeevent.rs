//! The event fired when a connection closes.

use vstd::prelude::*;

use crate::event::{Error, Event, EventBubbles, EventCancelable, EventView, Fallible};
use crate::realm::{Realm, Root};

verus! {

/// The initialiser of the base event's flags, as script passes it.
pub struct EventInit {
    pub bubbles: bool,
    pub cancelable: bool,
}

impl Default for EventInit {
    /// Neither flag set.
    fn default() -> (r: EventInit)
        ensures
            !r.bubbles,
            !r.cancelable,
    {
        EventInit { bubbles: false, cancelable: false }
    }
}

/// The initialiser that script passes to the constructor; a field that
/// script leaves out takes its default.
pub struct CloseEventInit {
    pub parent: EventInit,
    pub was_clean: bool,
    pub code: u16,
    pub reason: String,
}

impl Default for CloseEventInit {
    /// Not clean, code 0, empty reason, neither flag set.
    fn default() -> (r: CloseEventInit)
        ensures
            !r.parent.bubbles,
            !r.parent.cancelable,
            !r.was_clean,
            r.code == 0,
            r.reason@ == Seq::<char>::empty(),
    {
        CloseEventInit {
            parent: EventInit::default(),
            was_clean: false,
            code: 0,
            reason: String::new(),
        }
    }
}

/// The mathematical model of a [`CloseEvent`]: its base event and its own
/// three fields.
pub ghost struct CloseEventView {
    pub event: EventView,
    pub was_clean: bool,
    pub code: u16,
    pub reason: Seq<char>,
}

impl CloseEventView {
    /// The record after `init_event` on its base part; its own fields stay.
    pub open spec fn after_base_init(self, type_: Seq<char>, bubbles: bool, cancelable: bool) -> CloseEventView {
        CloseEventView { event: self.event.after_init(type_, bubbles, cancelable), ..self }
    }
}

/// The record that the native factory makes: an untrusted base initialised
/// with the type and flags, and the three fields as given.
pub open spec fn native_constructed(
    type_: Seq<char>,
    bubbles: EventBubbles,
    cancelable: EventCancelable,
    was_clean: bool,
    code: u16,
    reason: Seq<char>,
) -> CloseEventView {
    CloseEventView {
        event: EventView::fresh().after_init(
            type_,
            bubbles == EventBubbles::Bubbles,
            cancelable == EventCancelable::Cancelable,
        ),
        was_clean,
        code,
        reason,
    }
}

/// The policies that the script constructor derives from the two flags of
/// its initialiser.
pub open spec fn bubbles_policy(bubbles: bool) -> EventBubbles {
    if bubbles {
        EventBubbles::Bubbles
    } else {
        EventBubbles::DoesNotBubble
    }
}

pub open spec fn cancelable_policy(cancelable: bool) -> EventCancelable {
    if cancelable {
        EventCancelable::Cancelable
    } else {
        EventCancelable::NotCancelable
    }
}

/// The record that the script constructor makes from `init`.
pub open spec fn script_constructed(type_: Seq<char>, init: CloseEventInit) -> CloseEventView {
    native_constructed(
        type_,
        bubbles_policy(init.parent.bubbles),
        cancelable_policy(init.parent.cancelable),
        init.was_clean,
        init.code,
        init.reason@,
    )
}

/// The event fired when a connection closes. It owns its base event
/// whole; its own fields never change once it is made.
pub struct CloseEvent {
    event: Event,
    was_clean: bool,
    code: u16,
    reason: String,
}

impl View for CloseEvent {
    type V = CloseEventView;

    closed spec fn view(&self) -> CloseEventView {
        CloseEventView {
            event: self.event@,
            was_clean: self.was_clean,
            code: self.code,
            reason: self.reason@,
        }
    }
}

/// Relies on string_cache's `Atom::from(&str)` and the atom's `Deref` to
/// `str`: the interned atom reads back as the text it was made from.
#[verifier::external_body]
fn intern_type(type_: &str) -> (r: String)
    ensures
        r@ == type_@,
{
    let atom = string_cache::DefaultAtom::from(type_);
    String::from(&*atom)
}

impl CloseEvent {
    /// The record with its own fields set and its base part fresh (not yet
    /// initialised); the factory initialises the base afterwards.
    pub fn new_inherited(was_clean: bool, code: u16, reason: String) -> (r: CloseEvent)
        ensures
            r@ == (CloseEventView { event: EventView::fresh(), was_clean, code, reason: reason@ }),
    {
        CloseEvent { event: Event::new_inherited(), was_clean, code, reason }
    }

    /// The native factory: makes the record, reflects it into `global`, and
    /// initialises its base part with the type and the two policies. The
    /// handle it returns names a record whose base fields are already frozen.
    pub fn new(
        global: &mut Realm,
        type_: String,
        bubbles: EventBubbles,
        cancelable: EventCancelable,
        was_clean: bool,
        code: u16,
        reason: String,
    ) -> (r: Root)
        ensures
            r@ == old(global)@.len(),
            final(global)@ == old(global)@.push(
                native_constructed(type_@, bubbles, cancelable, was_clean, code, reason@),
            ),
    {
        let ghost type_view = type_@;
        let record = CloseEvent::new_inherited(was_clean, code, reason);
        let ev = global.reflect(record);
        let _ = global.init_event(
            ev,
            type_,
            bubbles == EventBubbles::Bubbles,
            cancelable == EventCancelable::Cancelable,
        );
        assert(global@ =~= old(global)@.push(
            native_constructed(type_view, bubbles, cancelable, was_clean, code, reason@),
        ));
        ev
    }

    /// The script constructor: reads the two flags and the three fields from
    /// `init` and goes through the native factory. The record is never
    /// trusted, whatever `init` holds.
    pub fn Constructor(global: &mut Realm, type_: String, init: &CloseEventInit) -> (r: Fallible<Root>)
        ensures
            r is Ok,
            r.unwrap()@ == old(global)@.len(),
            final(global)@ == old(global)@.push(script_constructed(type_@, *init)),
    {
        let bubbles = if init.parent.bubbles {
            EventBubbles::Bubbles
        } else {
            EventBubbles::DoesNotBubble
        };
        let cancelable = if init.parent.cancelable {
            EventCancelable::Cancelable
        } else {
            EventCancelable::NotCancelable
        };
        Ok(CloseEvent::new(
            global,
            intern_type(type_.as_str()),
            bubbles,
            cancelable,
            init.was_clean,
            init.code,
            init.reason.clone(),
        ))
    }

    /// Calls `init_event` on the base part.
    pub fn init_event(&mut self, type_: String, bubbles: bool, cancelable: bool) -> (r: Fallible<()>)
        ensures
            final(self)@ == old(self)@.after_base_init(type_@, bubbles, cancelable),
            r == old(self)@.event.init_outcome(),
    {
        self.event.init_event(type_, bubbles, cancelable)
    }

    /// The embedded base event.
    pub fn upcast(&self) -> (r: &Event)
        ensures
            r@ == self@.event,
    {
        &self.event
    }

    pub fn WasClean(&self) -> (r: bool)
        ensures
            r == self@.was_clean,
    {
        self.was_clean
    }

    pub fn Code(&self) -> (r: u16)
        ensures
            r == self@.code,
    {
        self.code
    }

    /// A copy of the reason: the caller owns it, and nothing done to it
    /// reaches the record.
    pub fn Reason(&self) -> (r: String)
        ensures
            r@ == self@.reason,
    {
        self.reason.clone()
    }

    pub fn IsTrusted(&self) -> (r: bool)
        ensures
            r == self@.event.trusted,
    {
        self.event.IsTrusted()
    }
}

/// A record made by the script constructor reads back exactly what its
/// initialiser held: the clean flag, the code, the reason and the two base
/// flags, with the type it was given; and it is initialised.
pub proof fn lemma_script_round_trip(type_: Seq<char>, init: CloseEventInit)
    ensures
        script_constructed(type_, init).was_clean == init.was_clean,
        script_constructed(type_, init).code == init.code,
        script_constructed(type_, init).reason == init.reason@,
        script_constructed(type_, init).event.type_ == type_,
        script_constructed(type_, init).event.bubbles == init.parent.bubbles,
        script_constructed(type_, init).event.cancelable == init.parent.cancelable,
        script_constructed(type_, init).event.initialized,
{
}

/// No initialiser makes the script constructor produce a trusted record;
/// a trusted record can only come from native code.
pub proof fn lemma_script_never_trusted(type_: Seq<char>, init: CloseEventInit)
    ensures
        !script_constructed(type_, init).event.trusted,
{
}

/// The native factory sets the base flags from its policies and freezes
/// them: a later `init_event` on the record, with any arguments, fails and
/// leaves the type, the flags and the record's own fields as they were.
pub proof fn lemma_native_flags_frozen(
    type_: Seq<char>,
    bubbles: EventBubbles,
    cancelable: EventCancelable,
    was_clean: bool,
    code: u16,
    reason: Seq<char>,
    type2: Seq<char>,
    bubbles2: bool,
    cancelable2: bool,
)
    ensures
        native_constructed(type_, bubbles, cancelable, was_clean, code, reason).event.bubbles
            == (bubbles == EventBubbles::Bubbles),
        native_constructed(type_, bubbles, cancelable, was_clean, code, reason).event.cancelable
            == (cancelable == EventCancelable::Cancelable),
        native_constructed(type_, bubbles, cancelable, was_clean, code, reason).after_base_init(
            type2,
            bubbles2,
            cancelable2,
        ) == native_constructed(type_, bubbles, cancelable, was_clean, code, reason),
        native_constructed(type_, bubbles, cancelable, was_clean, code, reason).event.init_outcome()
            == Err::<(), Error>(Error::InvalidState),
{
}

} // verus!
