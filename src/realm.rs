//! The realm into which event records are reflected: it owns each record
//! and hands out a handle that names the same record on every access.

use vstd::prelude::*;

use crate::closeevent::{CloseEvent, CloseEventView};
use crate::event::Fallible;

verus! {

/// A stable handle on a record reflected into a [`Realm`]. Copies of a
/// handle all name the one record.
#[derive(Debug, Clone, Copy, PartialEq, Eq, Structural)]
pub struct Root {
    index: usize,
}

impl View for Root {
    type V = nat;

    closed spec fn view(&self) -> nat {
        self.index as nat
    }
}

impl Root {
    /// The position of the record in its realm, which no other record shares.
    pub fn index(&self) -> (r: usize)
        ensures
            r as nat == self@,
    {
        self.index
    }
}

/// The registry of reflected records. Its model is the sequence of their
/// models, in order of reflection; a handle is a position in it.
pub struct Realm {
    objects: Vec<CloseEvent>,
}

impl View for Realm {
    type V = Seq<CloseEventView>;

    closed spec fn view(&self) -> Seq<CloseEventView> {
        self.objects@.map_values(|e: CloseEvent| e@)
    }
}

impl Realm {
    /// An empty realm.
    pub fn new() -> (r: Realm)
        ensures
            r@ == Seq::<CloseEventView>::empty(),
    {
        let r = Realm { objects: Vec::new() };
        assert(r@ =~= Seq::<CloseEventView>::empty());
        r
    }

    /// The number of records reflected so far.
    pub fn len(&self) -> (r: usize)
        ensures
            r as nat == self@.len(),
    {
        self.objects.len()
    }

    /// Whether `root` names a record of this realm.
    pub fn contains(&self, root: Root) -> (r: bool)
        ensures
            r == (root@ < self@.len()),
    {
        root.index < self.objects.len()
    }

    /// Takes ownership of `record` and returns its handle. The record is
    /// moved, not copied: every later access through the handle reaches it.
    pub fn reflect(&mut self, record: CloseEvent) -> (r: Root)
        ensures
            final(self)@ == old(self)@.push(record@),
            r@ == old(self)@.len(),
    {
        let index = self.objects.len();
        self.objects.push(record);
        assert(self@ =~= old(self)@.push(record@));
        Root { index }
    }

    /// The record that `root` names.
    pub fn get(&self, root: Root) -> (r: &CloseEvent)
        requires
            root@ < self@.len(),
        ensures
            r@ == self@[root@ as int],
    {
        &self.objects[root.index]
    }

    /// Calls `init_event` on the base part of the record that `root` names;
    /// the other records are left as they were.
    pub fn init_event(&mut self, root: Root, type_: String, bubbles: bool, cancelable: bool) -> (r: Fallible<()>)
        requires
            root@ < old(self)@.len(),
        ensures
            final(self)@ == old(self)@.update(
                root@ as int,
                old(self)@[root@ as int].after_base_init(type_@, bubbles, cancelable),
            ),
            r == old(self)@[root@ as int].event.init_outcome(),
    {
        let ghost before = self@;
        let record = &mut self.objects[root.index];
        let r = record.init_event(type_, bubbles, cancelable);
        assert(self@ =~= before.update(root@ as int, before[root@ as int].after_base_init(type_@, bubbles, cancelable)));
        r
    }
}

} // verus!
