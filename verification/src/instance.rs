//! The life cycle of a plugin instance, and dispatch into it.

use crate::capability::{granted_by, CapabilitySet};
use crate::dispatch::{Handler, Kind, Tagged};
use crate::error::PluginError;
use crate::host::Host;
use crate::manifest::PluginManifest;
use crate::registry::Registry;
use crate::strings::texts;
use vstd::prelude::*;

verus! {

/// Where an instance stands in its life. An instance is loaded when it is
/// made, is activated once, and is deactivated once: there is no way back.
#[derive(Clone, Copy, Debug, PartialEq, Eq, Structural)]
pub enum Lifecycle {
    Loaded,
    Active,
    Deactivated,
}

/// What a dispatch comes to.
pub type Outcome<P> = Result<Option<Tagged<P>>, PluginError>;

/// An instance as a mathematical value: its state, its capabilities and its
/// handlers.
pub struct InstanceView<H> {
    pub state: Lifecycle,
    pub capabilities: Set<Seq<char>>,
    pub commands: Map<Seq<char>, H>,
    pub events: Map<Seq<char>, H>,
}

impl<H> InstanceView<H> {
    /// The instance as it is loaded: with the capabilities of its manifest
    /// and without handlers.
    pub open spec fn loaded(capabilities: Set<Seq<char>>) -> Self {
        InstanceView {
            state: Lifecycle::Loaded,
            capabilities,
            commands: Map::empty(),
            events: Map::empty(),
        }
    }

    /// The handlers of one namespace, by name.
    pub open spec fn handlers(self, kind: Kind) -> Map<Seq<char>, H> {
        match kind {
            Kind::Command => self.commands,
            Kind::Event => self.events,
        }
    }

    /// Only an active instance has handlers.
    pub open spec fn inv(self) -> bool {
        self.state != Lifecycle::Active ==> self.commands == Map::<Seq<char>, H>::empty()
            && self.events == Map::<Seq<char>, H>::empty()
    }

    /// Activation: a loaded instance becomes active. In any other state it
    /// is refused and changes nothing.
    pub open spec fn activate(self) -> (Self, Result<(), PluginError>) {
        if self.state == Lifecycle::Loaded {
            (InstanceView { state: Lifecycle::Active, ..self }, Ok(()))
        } else {
            (self, Err(PluginError::LifecycleViolation))
        }
    }

    /// Deactivation: an active instance becomes deactivated and loses its
    /// handlers. In any other state it is refused and changes nothing.
    pub open spec fn deactivate(self) -> (Self, Result<(), PluginError>) {
        if self.state == Lifecycle::Active {
            (
                InstanceView {
                    state: Lifecycle::Deactivated,
                    commands: Map::empty(),
                    events: Map::empty(),
                    ..self
                },
                Ok(()),
            )
        } else {
            (self, Err(PluginError::LifecycleViolation))
        }
    }

    /// Registration: in an active instance `handler` takes the place of
    /// whatever `name` was bound to in the namespace `kind`. In any other
    /// state it is refused and changes nothing.
    pub open spec fn register(self, kind: Kind, name: Seq<char>, handler: H) -> (
        Self,
        Result<(), PluginError>,
    ) {
        if self.state == Lifecycle::Active {
            (
                match kind {
                    Kind::Command => InstanceView {
                        commands: self.commands.insert(name, handler),
                        ..self
                    },
                    Kind::Event => InstanceView {
                        events: self.events.insert(name, handler),
                        ..self
                    },
                },
                Ok(()),
            )
        } else {
            (self, Err(PluginError::LifecycleViolation))
        }
    }

    /// Removal: `name` has no handler in the namespace `kind` afterwards.
    pub open spec fn unregister(self, kind: Kind, name: Seq<char>) -> Self {
        match kind {
            Kind::Command => InstanceView { commands: self.commands.remove(name), ..self },
            Kind::Event => InstanceView { events: self.events.remove(name), ..self },
        }
    }
}

impl<H> InstanceView<H> {
    /// Whether `outcome` may be what dispatching `input` to `name` in the
    /// namespace `kind` comes to, while the host goes from `before` to
    /// `after`: a violation unless the instance is active, "no result" where
    /// no handler is bound, and else an answer of the bound handler, which
    /// runs with the capabilities of the instance. Only a handler touches
    /// the host.
    pub open spec fn dispatches<B: Host>(
        self,
        kind: Kind,
        name: Seq<char>,
        input: serde_json::Value,
        before: B,
        outcome: Outcome<H::Payload>,
        after: B,
    ) -> bool where H: Handler<B> {
        if self.state != Lifecycle::Active {
            outcome == Err::<Option<Tagged<H::Payload>>, PluginError>(
                PluginError::LifecycleViolation,
            ) && after == before
        } else if !self.handlers(kind).contains_key(name) {
            outcome == Ok::<Option<Tagged<H::Payload>>, PluginError>(None) && after == before
        } else {
            outcome matches Ok(out) && self.handlers(kind)[name].yields(
                input,
                self.capabilities,
                before,
                out,
                after,
            )
        }
    }
}

/// One loaded plugin: its manifest, the capabilities that the manifest
/// grants, its place in the life cycle and the handlers it has registered.
pub struct Instance<H> {
    manifest: PluginManifest,
    capabilities: CapabilitySet,
    state: Lifecycle,
    registry: Registry<H>,
}

impl<H> View for Instance<H> {
    type V = InstanceView<H>;

    closed spec fn view(&self) -> InstanceView<H> {
        InstanceView {
            state: self.state,
            capabilities: self.capabilities@,
            commands: self.registry.commands(),
            events: self.registry.events(),
        }
    }
}

impl<H> Instance<H> {
    /// The registry is in order, and it is empty unless the instance is
    /// active.
    pub closed spec fn wf(&self) -> bool {
        self.registry.wf() && self@.inv()
    }

    /// The manifest that the instance was loaded from.
    pub closed spec fn spec_manifest(&self) -> PluginManifest {
        self.manifest
    }

    /// Loads an instance from its manifest. The capabilities are those that
    /// the manifest's permissions name; there are no handlers yet.
    pub fn load(manifest: PluginManifest) -> (instance: Self)
        ensures
            instance.wf(),
            instance@ == InstanceView::<H>::loaded(granted_by(manifest.permissions@)),
            instance.spec_manifest() == manifest,
    {
        let capabilities = CapabilitySet::from_permissions(&manifest.permissions);
        Instance { manifest, capabilities, state: Lifecycle::Loaded, registry: Registry::new() }
    }

    /// The manifest that the instance was loaded from.
    pub fn manifest(&self) -> (manifest: &PluginManifest)
        ensures
            *manifest == self.spec_manifest(),
    {
        &self.manifest
    }

    /// The capabilities of the instance.
    pub fn capabilities(&self) -> (capabilities: &CapabilitySet)
        ensures
            capabilities@ == self@.capabilities,
    {
        &self.capabilities
    }

    /// Tells whether the manifest grants `capability`.
    pub fn has(&self, capability: &str) -> (granted: bool)
        ensures
            granted == self@.capabilities.contains(capability@),
    {
        self.capabilities.has(capability)
    }

    /// Where the instance stands in its life.
    pub fn state(&self) -> (state: Lifecycle)
        ensures
            state == self@.state,
    {
        self.state
    }

    /// The number of names that have a handler in the namespace `kind`.
    pub fn count(&self, kind: Kind) -> (n: usize)
        requires
            self.wf(),
        ensures
            self@.handlers(kind).dom().finite(),
            n == self@.handlers(kind).dom().len(),
    {
        self.registry.count(kind)
    }

    /// The names that have a handler in the namespace `kind`, each once.
    pub fn names(&self, kind: Kind) -> (names: Vec<String>)
        requires
            self.wf(),
        ensures
            texts(names@).no_duplicates(),
            texts(names@).to_set() == self@.handlers(kind).dom(),
    {
        self.registry.names(kind)
    }

    /// Activates a loaded instance. In any other state the call fails with
    /// `LifecycleViolation` and changes nothing.
    pub fn activate(&mut self) -> (result: Result<(), PluginError>)
        requires
            old(self).wf(),
        ensures
            final(self).wf(),
            (final(self)@, result) == old(self)@.activate(),
            final(self).spec_manifest() == old(self).spec_manifest(),
    {
        match self.state {
            Lifecycle::Loaded => {
                self.state = Lifecycle::Active;
                Ok(())
            },
            _ => Err(PluginError::LifecycleViolation),
        }
    }

    /// Deactivates an active instance and releases all its handlers. In any
    /// other state the call fails with `LifecycleViolation` and changes
    /// nothing.
    pub fn deactivate(&mut self) -> (result: Result<(), PluginError>)
        requires
            old(self).wf(),
        ensures
            final(self).wf(),
            (final(self)@, result) == old(self)@.deactivate(),
            final(self).spec_manifest() == old(self).spec_manifest(),
    {
        match self.state {
            Lifecycle::Active => {
                self.registry.clear();
                self.state = Lifecycle::Deactivated;
                Ok(())
            },
            _ => Err(PluginError::LifecycleViolation),
        }
    }

    /// Binds `handler` to `name` in the namespace `kind` of an active
    /// instance; a handler bound there before is released. In any other
    /// state the call fails with `LifecycleViolation` and changes nothing.
    pub fn register(&mut self, kind: Kind, name: &str, handler: H) -> (result: Result<
        (),
        PluginError,
    >)
        requires
            old(self).wf(),
        ensures
            final(self).wf(),
            (final(self)@, result) == old(self)@.register(kind, name@, handler),
            final(self).spec_manifest() == old(self).spec_manifest(),
    {
        match self.state {
            Lifecycle::Active => {
                match kind {
                    Kind::Command => self.registry.register_command(name, handler),
                    Kind::Event => self.registry.register_event(name, handler),
                }
                Ok(())
            },
            _ => Err(PluginError::LifecycleViolation),
        }
    }

    /// Releases the handler of `name` in the namespace `kind`. Without one,
    /// nothing changes; this is no error.
    pub fn unregister(&mut self, kind: Kind, name: &str)
        requires
            old(self).wf(),
        ensures
            final(self).wf(),
            final(self)@ == old(self)@.unregister(kind, name@),
            final(self).spec_manifest() == old(self).spec_manifest(),
    {
        match kind {
            Kind::Command => self.registry.unregister_command(name),
            Kind::Event => self.registry.unregister_event(name),
        }
        proof {
            assert(Map::<Seq<char>, H>::empty().remove(name@) =~= Map::<Seq<char>, H>::empty());
        }
    }

    /// Hands `input` to the handler of `name` in the namespace `kind` and
    /// returns its answer; the handler reaches `host` with the capabilities
    /// of the instance. Without a handler the answer is "no result", which
    /// is no error. An instance that is not active fails the call with
    /// `LifecycleViolation`.
    pub fn dispatch<B: Host>(
        &self,
        kind: Kind,
        name: &str,
        input: &serde_json::Value,
        host: &mut B,
    ) -> (outcome: Outcome<H::Payload>) where H: Handler<B>
        requires
            self.wf(),
        ensures
            self@.dispatches(kind, name@, *input, *old(host), outcome, *final(host)),
    {
        match self.state {
            Lifecycle::Active => {
                match self.registry.lookup(kind, name) {
                    Some(handler) => Ok(handler.handle(input, &self.capabilities, host)),
                    None => Ok(None),
                }
            },
            _ => Err(PluginError::LifecycleViolation),
        }
    }
}

/// Binds `handler` to the command `command_id` of an active instance.
pub fn register_command<H>(instance: &mut Instance<H>, command_id: &str, handler: H) -> (result:
    Result<(), PluginError>)
    requires
        old(instance).wf(),
    ensures
        final(instance).wf(),
        (final(instance)@, result) == old(instance)@.register(Kind::Command, command_id@, handler),
        final(instance).spec_manifest() == old(instance).spec_manifest(),
{
    instance.register(Kind::Command, command_id, handler)
}

/// Binds `handler` to the event `event_name` of an active instance.
pub fn register_event<H>(instance: &mut Instance<H>, event_name: &str, handler: H) -> (result:
    Result<(), PluginError>)
    requires
        old(instance).wf(),
    ensures
        final(instance).wf(),
        (final(instance)@, result) == old(instance)@.register(Kind::Event, event_name@, handler),
        final(instance).spec_manifest() == old(instance).spec_manifest(),
{
    instance.register(Kind::Event, event_name, handler)
}

/// A dispatch before activation or after deactivation is a life cycle
/// violation, and the host does not hear of it: an instance that was just
/// loaded refuses it, an instance that was deactivated refuses it, and
/// nothing brings a deactivated instance back.
pub proof fn law_dispatch_needs_active_instance<B: Host, H: Handler<B>>(
    instance: InstanceView<H>,
    capabilities: Set<Seq<char>>,
    kind: Kind,
    name: Seq<char>,
    input: serde_json::Value,
    handler: H,
    before: B,
    outcome: Outcome<H::Payload>,
    after: B,
)
    ensures
        InstanceView::<H>::loaded(capabilities).dispatches(
            kind,
            name,
            input,
            before,
            outcome,
            after,
        ) ==> outcome == Err::<Option<Tagged<H::Payload>>, PluginError>(
            PluginError::LifecycleViolation,
        ) && after == before,
        instance.state != Lifecycle::Active && instance.dispatches(
            kind,
            name,
            input,
            before,
            outcome,
            after,
        ) ==> outcome == Err::<Option<Tagged<H::Payload>>, PluginError>(
            PluginError::LifecycleViolation,
        ) && after == before,
        instance.deactivate().1 is Ok ==> instance.deactivate().0.state == Lifecycle::Deactivated,
        instance.state == Lifecycle::Deactivated ==> ({
            &&& instance.activate().0.state == Lifecycle::Deactivated
            &&& instance.deactivate().0.state == Lifecycle::Deactivated
            &&& instance.register(kind, name, handler).0.state == Lifecycle::Deactivated
            &&& instance.unregister(kind, name).state == Lifecycle::Deactivated
        }),
        instance.state == Lifecycle::Loaded ==> ({
            &&& instance.deactivate().0.state == Lifecycle::Loaded
            &&& instance.register(kind, name, handler).0.state == Lifecycle::Loaded
            &&& instance.unregister(kind, name).state == Lifecycle::Loaded
        }),
{
}

/// No operation changes the capabilities of an instance, and none leaves
/// handlers in an instance that is not active: a deactivated instance has
/// none.
pub proof fn law_operations_keep_capabilities_and_order<H>(
    instance: InstanceView<H>,
    kind: Kind,
    name: Seq<char>,
    handler: H,
)
    requires
        instance.inv(),
    ensures
        instance.activate().0.inv(),
        instance.deactivate().0.inv(),
        instance.register(kind, name, handler).0.inv(),
        instance.unregister(kind, name).inv(),
        instance.activate().0.capabilities == instance.capabilities,
        instance.deactivate().0.capabilities == instance.capabilities,
        instance.register(kind, name, handler).0.capabilities == instance.capabilities,
        instance.unregister(kind, name).capabilities == instance.capabilities,
        instance.deactivate().1 is Ok ==> instance.deactivate().0.handlers(kind) == Map::<
            Seq<char>,
            H,
        >::empty(),
{
    assert(Map::<Seq<char>, H>::empty().remove(name) =~= Map::<Seq<char>, H>::empty());
}

/// A name has at most one handler in a namespace: registering a second
/// handler under a name replaces the first, and leaves as many names bound
/// as the first registration did.
pub proof fn law_registration_replaces<H>(
    instance: InstanceView<H>,
    kind: Kind,
    name: Seq<char>,
    first: H,
    second: H,
)
    requires
        instance.state == Lifecycle::Active,
        instance.handlers(kind).dom().finite(),
    ensures
        instance.register(kind, name, first).0.register(kind, name, second).0 == instance.register(
            kind,
            name,
            second,
        ).0,
        instance.register(kind, name, first).0.register(kind, name, second).0.handlers(kind)[name]
            == second,
        instance.register(kind, name, first).0.register(kind, name, second).0.handlers(
            kind,
        ).dom().len() == instance.register(kind, name, first).0.handlers(kind).dom().len(),
{
    let once = instance.register(kind, name, first).0;
    let twice = once.register(kind, name, second).0;
    let direct = instance.register(kind, name, second).0;
    assert(instance.handlers(kind).insert(name, first).insert(name, second) =~= instance.handlers(
        kind,
    ).insert(name, second));
    assert(twice.handlers(kind).dom() =~= once.handlers(kind).dom());
}

/// An event whose handler was just removed has no listener: dispatching it
/// comes to "no result", not to an error, and the host does not hear of it.
pub proof fn law_unregistered_event_has_no_result<B: Host, H: Handler<B>>(
    instance: InstanceView<H>,
    name: Seq<char>,
    input: serde_json::Value,
    before: B,
    outcome: Outcome<H::Payload>,
    after: B,
)
    requires
        instance.state == Lifecycle::Active,
        instance.unregister(Kind::Event, name).dispatches(
            Kind::Event,
            name,
            input,
            before,
            outcome,
            after,
        ),
    ensures
        outcome == Ok::<Option<Tagged<H::Payload>>, PluginError>(None),
        after == before,
{
}

} // verus!
