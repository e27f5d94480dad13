//! Capability kinds and the capability resolver.
//!
//! A declared capability is a name string such as `"kv.filesystem"` or
//! `"http"`.  The resolver classifies a name into one of a fixed, closed set
//! of capability kinds, validating that the name is recognized and that any
//! prerequisite configuration (a secret-store descriptor) is present.

use vstd::prelude::*;

use crate::errors::SlightError;

verus! {

/// The fixed, closed set of capability kinds a guest module may be granted.
///
/// Using a closed enumeration (rather than open-ended type erasure with
/// runtime downcasts) makes a type mismatch on a resource-table lookup a
/// compile-time impossibility.
#[derive(Clone, Copy, Debug, PartialEq, Eq, Structural)]
pub enum CapabilityKind {
    Events,
    Kv,
    Mq,
    Lockd,
    Pubsub,
    Configs,
    Http,
}

/// Canonical scheme key under which a resource of the given kind is stored in
/// the resource table.  Every implementor variant of one kind shares the one
/// canonical key (every key-value implementor is stored under `"kv"`).
pub open spec fn scheme_key(kind: CapabilityKind) -> Seq<char> {
    match kind {
        CapabilityKind::Events => "events"@,
        CapabilityKind::Kv => "kv"@,
        CapabilityKind::Mq => "mq"@,
        CapabilityKind::Lockd => "lockd"@,
        CapabilityKind::Pubsub => "pubsub"@,
        CapabilityKind::Configs => "configs"@,
        CapabilityKind::Http => "http"@,
    }
}

/// Executable form of [`scheme_key`].
pub fn scheme_key_name(kind: CapabilityKind) -> (s: String)
    ensures
        s@ == scheme_key(kind),
{
    match kind {
        CapabilityKind::Events => "events".to_owned(),
        CapabilityKind::Kv => "kv".to_owned(),
        CapabilityKind::Mq => "mq".to_owned(),
        CapabilityKind::Lockd => "lockd".to_owned(),
        CapabilityKind::Pubsub => "pubsub".to_owned(),
        CapabilityKind::Configs => "configs".to_owned(),
        CapabilityKind::Http => "http".to_owned(),
    }
}

/// The recognized key-value store implementor names.
pub open spec fn is_kv_name(name: Seq<char>) -> bool {
    ||| name == "kv.filesystem"@
    ||| name == "kv.azblob"@
    ||| name == "kv.awsdynamodb"@
}

/// The recognized message-queue implementor names.
pub open spec fn is_mq_name(name: Seq<char>) -> bool {
    ||| name == "mq.filesystem"@
    ||| name == "mq.azsbus"@
}

/// The recognized distributed-lock implementor names.
pub open spec fn is_lockd_name(name: Seq<char>) -> bool {
    name == "lockd.etcd"@
}

/// The recognized publish/subscribe implementor names.
pub open spec fn is_pubsub_name(name: Seq<char>) -> bool {
    name == "pubsub.confluent_apache_kafka"@
}

/// The recognized config/secret provider implementor names.
pub open spec fn is_configs_name(name: Seq<char>) -> bool {
    ||| name == "configs.usersecrets"@
    ||| name == "configs.envvars"@
}

/// Classifies a declared capability name: `Some(kind)` exactly when the name
/// is one of the supported names, in which case `kind` is its capability
/// kind.
pub open spec fn kind_of_name(name: Seq<char>) -> Option<CapabilityKind> {
    if name == "events"@ {
        Some(CapabilityKind::Events)
    } else if name == "http"@ {
        Some(CapabilityKind::Http)
    } else if is_kv_name(name) {
        Some(CapabilityKind::Kv)
    } else if is_mq_name(name) {
        Some(CapabilityKind::Mq)
    } else if is_lockd_name(name) {
        Some(CapabilityKind::Lockd)
    } else if is_pubsub_name(name) {
        Some(CapabilityKind::Pubsub)
    } else if is_configs_name(name) {
        Some(CapabilityKind::Configs)
    } else {
        None
    }
}

/// A name is supported exactly when the resolver classifies it.
pub open spec fn supported_name(name: Seq<char>) -> bool {
    kind_of_name(name) is Some
}

/// Whether a capability of this kind requires a secret-store descriptor to be
/// present in configuration before it can be linked.  The events, HTTP and
/// config/secret kinds have no such prerequisite.
pub open spec fn requires_secret_store(kind: CapabilityKind) -> bool {
    ||| kind == CapabilityKind::Kv
    ||| kind == CapabilityKind::Mq
    ||| kind == CapabilityKind::Lockd
    ||| kind == CapabilityKind::Pubsub
}

/// Whether a capability of this kind receives inbound calls from the host
/// into the guest asynchronously, and therefore needs a second, independent
/// instantiation of the module adopted into its resource before the primary
/// entry point runs.
pub open spec fn needs_secondary(kind: CapabilityKind) -> bool {
    kind == CapabilityKind::Events || kind == CapabilityKind::Http
}

/// What resolving one declared capability name yields: the capability kind on
/// success, or the first applicable failure.  An unrecognized name is an
/// error of its own; a recognized name whose kind requires a secret-store
/// descriptor fails when none is configured.
pub open spec fn resolve_spec(name: Seq<char>, has_secret_store: bool) -> Result<
    CapabilityKind,
    SlightError,
> {
    match kind_of_name(name) {
        Option::None => Result::Err(SlightError::UnknownCapability),
        Option::Some(kind) => if requires_secret_store(kind) && !has_secret_store {
            Result::Err(SlightError::MissingSecretStore(kind))
        } else {
            Result::Ok(kind)
        },
    }
}

/// True exactly when resolving the name with the given prerequisite succeeds.
pub open spec fn declaration_ok(name: Seq<char>, has_secret_store: bool) -> bool {
    resolve_spec(name, has_secret_store) is Ok
}

fn name_is(name: &String, expected: &str) -> (b: bool)
    ensures
        b == (name@ == expected@),
{
    let expected_owned: String = expected.to_owned();
    *name == expected_owned
}

fn is_kv_implementor(name: &String) -> (b: bool)
    ensures
        b == is_kv_name(name@),
{
    name_is(name, "kv.filesystem") || name_is(name, "kv.azblob") || name_is(name, "kv.awsdynamodb")
}

fn is_mq_implementor(name: &String) -> (b: bool)
    ensures
        b == is_mq_name(name@),
{
    name_is(name, "mq.filesystem") || name_is(name, "mq.azsbus")
}

fn is_lockd_implementor(name: &String) -> (b: bool)
    ensures
        b == is_lockd_name(name@),
{
    name_is(name, "lockd.etcd")
}

fn is_pubsub_implementor(name: &String) -> (b: bool)
    ensures
        b == is_pubsub_name(name@),
{
    name_is(name, "pubsub.confluent_apache_kafka")
}

fn is_configs_implementor(name: &String) -> (b: bool)
    ensures
        b == is_configs_name(name@),
{
    name_is(name, "configs.usersecrets") || name_is(name, "configs.envvars")
}

/// The capability resolver: classifies one declared capability name into its
/// capability kind, failing on an unrecognized name, and on a recognized name
/// whose kind requires a secret-store descriptor when none is configured.
pub fn resolve_capability(name: &String, has_secret_store: bool) -> (r: Result<
    CapabilityKind,
    SlightError,
>)
    ensures
        r == resolve_spec(name@, has_secret_store),
{
    if name_is(name, "events") {
        Ok(CapabilityKind::Events)
    } else if name_is(name, "http") {
        Ok(CapabilityKind::Http)
    } else if is_kv_implementor(name) {
        if has_secret_store {
            Ok(CapabilityKind::Kv)
        } else {
            Err(SlightError::MissingSecretStore(CapabilityKind::Kv))
        }
    } else if is_mq_implementor(name) {
        if has_secret_store {
            Ok(CapabilityKind::Mq)
        } else {
            Err(SlightError::MissingSecretStore(CapabilityKind::Mq))
        }
    } else if is_lockd_implementor(name) {
        if has_secret_store {
            Ok(CapabilityKind::Lockd)
        } else {
            Err(SlightError::MissingSecretStore(CapabilityKind::Lockd))
        }
    } else if is_pubsub_implementor(name) {
        if has_secret_store {
            Ok(CapabilityKind::Pubsub)
        } else {
            Err(SlightError::MissingSecretStore(CapabilityKind::Pubsub))
        }
    } else if is_configs_implementor(name) {
        Ok(CapabilityKind::Configs)
    } else {
        Err(SlightError::UnknownCapability)
    }
}

} // verus!
