//! The registry of one instance: the handlers that are bound to its commands
//! and to its events.

use crate::dispatch::Kind;
use crate::names::NameMap;
use crate::strings::texts;
use vstd::prelude::*;

verus! {

/// The handlers of one instance, by namespace and name. A name has at most
/// one handler in each namespace.
pub struct Registry<H> {
    commands: NameMap<H>,
    events: NameMap<H>,
}

impl<H> Registry<H> {
    /// The internal tables are in order.
    pub closed spec fn wf(&self) -> bool {
        self.commands.wf() && self.events.wf()
    }

    /// The handlers bound to commands, by command id.
    pub closed spec fn commands(&self) -> Map<Seq<char>, H> {
        self.commands@
    }

    /// The handlers bound to events, by event name.
    pub closed spec fn events(&self) -> Map<Seq<char>, H> {
        self.events@
    }

    /// The handlers of one namespace, by name.
    pub open spec fn handlers(&self, kind: Kind) -> Map<Seq<char>, H> {
        match kind {
            Kind::Command => self.commands(),
            Kind::Event => self.events(),
        }
    }

    /// The registry without handlers.
    pub fn new() -> (registry: Self)
        ensures
            registry.wf(),
            registry.commands() == Map::<Seq<char>, H>::empty(),
            registry.events() == Map::<Seq<char>, H>::empty(),
    {
        Registry { commands: NameMap::new(), events: NameMap::new() }
    }

    /// Binds `handler` to the command `id`. A handler that was bound to `id`
    /// before is released.
    pub fn register_command(&mut self, id: &str, handler: H)
        requires
            old(self).wf(),
        ensures
            final(self).wf(),
            final(self).commands() == old(self).commands().insert(id@, handler),
            final(self).events() == old(self).events(),
    {
        self.commands.insert(id, handler);
    }

    /// Binds `handler` to the event `name`. A handler that was bound to
    /// `name` before is released.
    pub fn register_event(&mut self, name: &str, handler: H)
        requires
            old(self).wf(),
        ensures
            final(self).wf(),
            final(self).events() == old(self).events().insert(name@, handler),
            final(self).commands() == old(self).commands(),
    {
        self.events.insert(name, handler);
    }

    /// Releases the handler of the command `id`. Without one, nothing
    /// changes.
    pub fn unregister_command(&mut self, id: &str)
        requires
            old(self).wf(),
        ensures
            final(self).wf(),
            final(self).commands() == old(self).commands().remove(id@),
            final(self).events() == old(self).events(),
    {
        let _ = self.commands.remove(id);
    }

    /// Releases the handler of the event `name`. Without one, nothing
    /// changes.
    pub fn unregister_event(&mut self, name: &str)
        requires
            old(self).wf(),
        ensures
            final(self).wf(),
            final(self).events() == old(self).events().remove(name@),
            final(self).commands() == old(self).commands(),
    {
        let _ = self.events.remove(name);
    }

    /// The handler that is bound to `name` in the namespace `kind`, if there
    /// is one.
    pub fn lookup(&self, kind: Kind, name: &str) -> (handler: Option<&H>)
        requires
            self.wf(),
        ensures
            handler is Some <==> self.handlers(kind).contains_key(name@),
            handler matches Some(h) ==> *h == self.handlers(kind)[name@],
    {
        match kind {
            Kind::Command => self.commands.get(name),
            Kind::Event => self.events.get(name),
        }
    }

    /// The number of names that have a handler in the namespace `kind`.
    pub fn count(&self, kind: Kind) -> (n: usize)
        requires
            self.wf(),
        ensures
            self.handlers(kind).dom().finite(),
            n == self.handlers(kind).dom().len(),
    {
        match kind {
            Kind::Command => self.commands.len(),
            Kind::Event => self.events.len(),
        }
    }

    /// The names that have a handler in the namespace `kind`, each once.
    pub fn names(&self, kind: Kind) -> (names: Vec<String>)
        requires
            self.wf(),
        ensures
            texts(names@).no_duplicates(),
            texts(names@).to_set() == self.handlers(kind).dom(),
    {
        match kind {
            Kind::Command => self.commands.names(),
            Kind::Event => self.events.names(),
        }
    }

    /// Releases every handler.
    pub fn clear(&mut self)
        ensures
            final(self).wf(),
            final(self).commands() == Map::<Seq<char>, H>::empty(),
            final(self).events() == Map::<Seq<char>, H>::empty(),
    {
        self.commands.clear();
        self.events.clear();
    }
}

} // verus!
