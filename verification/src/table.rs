//! The shared resource table and the values it holds.
//!
//! The table maps a canonical scheme key (represented by the capability kind
//! it identifies) to the one resource instance linked for that kind during
//! the run.  Every environment built for the same run shares one table.  A
//! key is inserted during linking and its entry may later be updated in place
//! (a secondary instantiation adopted, or released on close) but never
//! removed while the run is active.
//!
//! Because the table is keyed by the closed [`CapabilityKind`] enumeration
//! and each entry carries its kind, the "present but of the wrong capability
//! type" failure of an open-ended, type-erased design cannot arise here: a
//! lookup either finds the kind's entry or reports the key absent.

use vstd::prelude::*;

use crate::capability::CapabilityKind;
use crate::errors::SlightError;

verus! {

/// A handle to one sandboxed instantiation of the guest module: an engine
/// handle plus the module instantiation it produced.  The identifiers are
/// issued by the execution engine; the composition core only stores and
/// compares them.
#[derive(Clone, Copy, Debug, PartialEq, Eq, Structural)]
pub struct Environment {
    /// The engine handle the environment was built with.
    pub engine_id: u64,
    /// The module instantiation living inside that engine.
    pub instance_id: u64,
}

/// The common dependency bundle handed to a capability backend when it is
/// constructed: the optional secret-store descriptor and the configuration
/// file's location (used by some backends to resolve relative paths).  The
/// shared resource table itself is passed alongside, by reference.
#[derive(Clone, Debug, PartialEq, Eq)]
pub struct BasicState {
    /// The configured secret-store descriptor, when the backend gets one.
    pub secret_store: Option<String>,
    /// The configuration file's location.
    pub config_path: String,
}

/// One linked capability resource, stored in the table under its canonical
/// scheme key.  It records which implementor was chosen, the dependency
/// bundle its backend was constructed from, and — for kinds that receive
/// inbound calls — the secondary instantiation adopted for calling back into
/// guest code.
#[derive(Clone, Debug, PartialEq, Eq)]
pub struct Resource {
    /// The capability kind this resource implements; equal to the key it is
    /// stored under.
    pub kind: CapabilityKind,
    /// The declared implementor name the resource was resolved from, such as
    /// `"kv.filesystem"`.
    pub implementor: String,
    /// The dependency bundle the backend was constructed from; the events and
    /// HTTP kinds are constructed from the shared table alone and carry none.
    pub state: Option<BasicState>,
    /// The adopted secondary instantiation, once the dual-instantiation step
    /// has handed one over; released again on close.
    pub secondary: Option<Environment>,
}

/// `resource` with a secondary instantiation adopted into it.
pub open spec fn with_secondary(resource: Resource, env: Environment) -> Resource {
    Resource {
        kind: resource.kind,
        implementor: resource.implementor,
        state: resource.state,
        secondary: Some(env),
    }
}

/// `resource` with its adopted secondary instantiation released.
pub open spec fn without_secondary(resource: Resource) -> Resource {
    Resource {
        kind: resource.kind,
        implementor: resource.implementor,
        state: resource.state,
        secondary: None,
    }
}

/// The shared mapping from canonical scheme key to the linked resource
/// instance, one slot per capability kind.
pub struct ResourceTable {
    events: Option<Resource>,
    kv: Option<Resource>,
    mq: Option<Resource>,
    lockd: Option<Resource>,
    pubsub: Option<Resource>,
    configs: Option<Resource>,
    http: Option<Resource>,
}

impl View for ResourceTable {
    type V = Map<CapabilityKind, Resource>;

    closed spec fn view(&self) -> Map<CapabilityKind, Resource> {
        Map::new(
            |k: CapabilityKind| self.slot(k) is Some,
            |k: CapabilityKind| self.slot(k)->Some_0,
        )
    }
}

impl ResourceTable {
    spec fn slot(&self, kind: CapabilityKind) -> Option<Resource> {
        match kind {
            CapabilityKind::Events => self.events,
            CapabilityKind::Kv => self.kv,
            CapabilityKind::Mq => self.mq,
            CapabilityKind::Lockd => self.lockd,
            CapabilityKind::Pubsub => self.pubsub,
            CapabilityKind::Configs => self.configs,
            CapabilityKind::Http => self.http,
        }
    }

    /// Every entry is stored under the key of its own kind.
    pub open spec fn wf(self) -> bool {
        forall|k: CapabilityKind| #[trigger] self@.dom().contains(k) ==> self@[k].kind == k
    }

    /// An empty table, shared from here on by every environment of one run.
    pub fn new() -> (t: ResourceTable)
        ensures
            t@ == Map::<CapabilityKind, Resource>::empty(),
            t.wf(),
    {
        let t = ResourceTable {
            events: None,
            kv: None,
            mq: None,
            lockd: None,
            pubsub: None,
            configs: None,
            http: None,
        };
        proof {
            assert(t@ =~= Map::<CapabilityKind, Resource>::empty());
        }
        t
    }

    /// Whether the canonical key of `kind` holds an entry.
    pub fn contains(&self, kind: CapabilityKind) -> (b: bool)
        ensures
            b == self@.dom().contains(kind),
    {
        match kind {
            CapabilityKind::Events => self.events.is_some(),
            CapabilityKind::Kv => self.kv.is_some(),
            CapabilityKind::Mq => self.mq.is_some(),
            CapabilityKind::Lockd => self.lockd.is_some(),
            CapabilityKind::Pubsub => self.pubsub.is_some(),
            CapabilityKind::Configs => self.configs.is_some(),
            CapabilityKind::Http => self.http.is_some(),
        }
    }

    /// Inserts a fresh entry under the resource's own kind.  Inserting a key
    /// that is already present is a programming error in the composition
    /// logic, fatal by contract, so callers must rule it out.
    pub fn insert(&mut self, resource: Resource)
        requires
            !old(self)@.dom().contains(resource.kind),
        ensures
            final(self)@ == old(self)@.insert(resource.kind, resource),
    {
        self.link(resource)
    }

    /// Links a resource under its canonical key: inserts it, or — when a
    /// second declaration of one run canonicalized to the same key —
    /// overwrites the earlier entry, so the later linking wins.  The
    /// overwrite is documented behaviour, not a rejected configuration.
    pub fn link(&mut self, resource: Resource)
        ensures
            final(self)@ == old(self)@.insert(resource.kind, resource),
    {
        let ghost prior = *self;
        let ghost linked = resource;
        let kind = resource.kind;
        match kind {
            CapabilityKind::Events => {
                self.events = Some(resource);
            },
            CapabilityKind::Kv => {
                self.kv = Some(resource);
            },
            CapabilityKind::Mq => {
                self.mq = Some(resource);
            },
            CapabilityKind::Lockd => {
                self.lockd = Some(resource);
            },
            CapabilityKind::Pubsub => {
                self.pubsub = Some(resource);
            },
            CapabilityKind::Configs => {
                self.configs = Some(resource);
            },
            CapabilityKind::Http => {
                self.http = Some(resource);
            },
        }
        proof {
            assert(self@ =~= prior@.insert(linked.kind, linked));
        }
    }

    /// Looks the kind's entry up.  An absent key is an internal-error
    /// condition: the composition logic links every declared capability
    /// before anything looks it up, so for correctly resolved configuration
    /// the error never occurs.
    pub fn get(&self, kind: CapabilityKind) -> (r: Result<&Resource, SlightError>)
        ensures
            self@.dom().contains(kind) ==> (r matches Result::Ok(resource) && *resource
                == self@[kind]),
            !self@.dom().contains(kind) ==> r == Result::<&Resource, SlightError>::Err(
                SlightError::MissingResource(kind),
            ),
    {
        let slot: &Option<Resource> = match kind {
            CapabilityKind::Events => &self.events,
            CapabilityKind::Kv => &self.kv,
            CapabilityKind::Mq => &self.mq,
            CapabilityKind::Lockd => &self.lockd,
            CapabilityKind::Pubsub => &self.pubsub,
            CapabilityKind::Configs => &self.configs,
            CapabilityKind::Http => &self.http,
        };
        match slot {
            Some(resource) => Ok(resource),
            None => Err(SlightError::MissingResource(kind)),
        }
    }

    /// Updates the kind's entry in place, handing it the secondary
    /// instantiation it will invoke guest exports through.  An absent key is
    /// the internal-error condition of [`ResourceTable::get`].
    pub fn adopt_secondary(&mut self, kind: CapabilityKind, env: Environment) -> (r: Result<
        (),
        SlightError,
    >)
        ensures
            old(self)@.dom().contains(kind) ==> r is Ok && final(self)@ == old(self)@.insert(
                kind,
                with_secondary(old(self)@[kind], env),
            ),
            !old(self)@.dom().contains(kind) ==> r == Result::<(), SlightError>::Err(
                SlightError::MissingResource(kind),
            ) && final(self)@ == old(self)@,
    {
        let ghost prior = *self;
        if !self.contains(kind) {
            return Err(SlightError::MissingResource(kind));
        }
        match kind {
            CapabilityKind::Events => {
                if let Some(resource) = &mut self.events {
                    resource.secondary = Some(env);
                }
            },
            CapabilityKind::Kv => {
                if let Some(resource) = &mut self.kv {
                    resource.secondary = Some(env);
                }
            },
            CapabilityKind::Mq => {
                if let Some(resource) = &mut self.mq {
                    resource.secondary = Some(env);
                }
            },
            CapabilityKind::Lockd => {
                if let Some(resource) = &mut self.lockd {
                    resource.secondary = Some(env);
                }
            },
            CapabilityKind::Pubsub => {
                if let Some(resource) = &mut self.pubsub {
                    resource.secondary = Some(env);
                }
            },
            CapabilityKind::Configs => {
                if let Some(resource) = &mut self.configs {
                    resource.secondary = Some(env);
                }
            },
            CapabilityKind::Http => {
                if let Some(resource) = &mut self.http {
                    resource.secondary = Some(env);
                }
            },
        }
        proof {
            assert(self@ =~= prior@.insert(kind, with_secondary(prior@[kind], env)));
        }
        Ok(())
    }

    /// Updates the kind's entry in place so it stops accepting inbound work:
    /// the adopted secondary instantiation is released.  An absent key is the
    /// internal-error condition of [`ResourceTable::get`].
    pub fn close(&mut self, kind: CapabilityKind) -> (r: Result<(), SlightError>)
        ensures
            old(self)@.dom().contains(kind) ==> r is Ok && final(self)@ == old(self)@.insert(
                kind,
                without_secondary(old(self)@[kind]),
            ),
            !old(self)@.dom().contains(kind) ==> r == Result::<(), SlightError>::Err(
                SlightError::MissingResource(kind),
            ) && final(self)@ == old(self)@,
    {
        let ghost prior = *self;
        if !self.contains(kind) {
            return Err(SlightError::MissingResource(kind));
        }
        match kind {
            CapabilityKind::Events => {
                if let Some(resource) = &mut self.events {
                    resource.secondary = None;
                }
            },
            CapabilityKind::Kv => {
                if let Some(resource) = &mut self.kv {
                    resource.secondary = None;
                }
            },
            CapabilityKind::Mq => {
                if let Some(resource) = &mut self.mq {
                    resource.secondary = None;
                }
            },
            CapabilityKind::Lockd => {
                if let Some(resource) = &mut self.lockd {
                    resource.secondary = None;
                }
            },
            CapabilityKind::Pubsub => {
                if let Some(resource) = &mut self.pubsub {
                    resource.secondary = None;
                }
            },
            CapabilityKind::Configs => {
                if let Some(resource) = &mut self.configs {
                    resource.secondary = None;
                }
            },
            CapabilityKind::Http => {
                if let Some(resource) = &mut self.http {
                    resource.secondary = None;
                }
            },
        }
        proof {
            assert(self@ =~= prior@.insert(kind, without_secondary(prior@[kind])));
        }
        Ok(())
    }
}

} // verus!
