//! The error taxonomy of the composition core.
//!
//! Configuration errors (unsupported spec version, unknown capability name,
//! missing required secret-store descriptor) are detected during resolution,
//! before any linking.  Composition errors (a resource key absent from the
//! table when a holder asks for it) indicate a bug in the composition logic,
//! not bad user input.  Execution errors (an entry-point trap, an engine
//! build failure) are surfaced as-is.  No error in this core is retried.

use vstd::prelude::*;
use vstd::string::StringExecFns;

use crate::capability::scheme_key;
use crate::capability::scheme_key_name;
use crate::capability::CapabilityKind;

verus! {

/// Every failure the composition core can surface.
#[derive(Clone, Debug, PartialEq, Eq)]
pub enum SlightError {
    /// The configuration's spec-version is not the supported one.
    UnsupportedSpecVersion,
    /// A declared capability name is not one of the supported names.
    UnknownCapability,
    /// A declared capability of this kind requires a secret-store descriptor
    /// and none is configured.
    MissingSecretStore(CapabilityKind),
    /// A holder asked the resource table for this kind's entry and it was
    /// absent: a composition bug, never a user error.
    MissingResource(CapabilityKind),
    /// The execution engine failed: an environment build error or a trap from
    /// the guest's entry point, carried as-is.
    Execution(String),
}

/// The diagnostic for an unrecognized capability name.  It enumerates every
/// supported name (see [`lemma_unknown_capability_message_enumerates`]).
pub open spec fn unknown_capability_message() -> Seq<char> {
    "invalid url: currently slight only supports 'configs.usersecrets', 'configs.envvars', 'events', 'kv.filesystem', 'kv.azblob', 'kv.awsdynamodb', 'mq.filesystem', 'mq.azsbus', 'lockd.etcd', 'pubsub.confluent_apache_kafka', and 'http' schemes"@
}

/// The kind-specific diagnostic for a capability that requires a secret-store
/// descriptor when none is configured.  Each message names the capability and
/// the exact credential fields its backend would need: the Azure storage
/// fields for the key-value store, the service-bus fields for the message
/// queue, the etcd endpoint for the distributed lock, and the Kafka
/// connection and SASL fields for publish/subscribe.  Kinds without the
/// prerequisite never produce this error, so no diagnostic exists for them.
pub open spec fn missing_secret_store_message(kind: CapabilityKind) -> Seq<char> {
    match kind {
        CapabilityKind::Kv => "the kv capability requires a secret store of some type (i.e., envvars, or usersecrets) specified in your config file so it knows where to grab, say, the AZURE_STORAGE_ACCOUNT, and AZURE_STORAGE_KEY from."@,
        CapabilityKind::Mq => "the mq capability requires a secret store of some type (i.e., envvars, or usersecrets) specified in your config file so it knows where to grab the AZURE_SERVICE_BUS_NAMESPACE, AZURE_POLICY_NAME, and AZURE_POLICY_KEY from."@,
        CapabilityKind::Lockd => "the lockd capability requires a secret store of some type (i.e., envvars, or usersecrets) specified in your config file so it knows where to grab the ETCD_ENDPOINT."@,
        CapabilityKind::Pubsub => "the pubsub capability requires a secret store of some type (i.e., envvars, or usersecrets) specified in your config file so it knows where to grab the CK_ENDPOINT, CK_SECURITY_PROTOCOL, CK_SASL_MECHANISMS, CK_SASL_USERNAME, and CK_SASL_PASSWORD from."@,
        CapabilityKind::Events => ""@,
        CapabilityKind::Http => ""@,
        CapabilityKind::Configs => ""@,
    }
}

/// The human-readable message of each error.
pub open spec fn error_message(e: SlightError) -> Seq<char> {
    match e {
        SlightError::UnsupportedSpecVersion => "unsupported toml spec version"@,
        SlightError::UnknownCapability => unknown_capability_message(),
        SlightError::MissingSecretStore(kind) => missing_secret_store_message(kind),
        SlightError::MissingResource(kind) => "internal error: resource_map does not contain key: "@
            + scheme_key(kind),
        SlightError::Execution(m) => m@,
    }
}

impl SlightError {
    /// Renders the error as its human-actionable message.
    pub fn message(&self) -> (s: String)
        ensures
            s@ == error_message(*self),
    {
        match self {
            SlightError::UnsupportedSpecVersion => "unsupported toml spec version".to_owned(),
            SlightError::UnknownCapability => "invalid url: currently slight only supports 'configs.usersecrets', 'configs.envvars', 'events', 'kv.filesystem', 'kv.azblob', 'kv.awsdynamodb', 'mq.filesystem', 'mq.azsbus', 'lockd.etcd', 'pubsub.confluent_apache_kafka', and 'http' schemes".to_owned(),
            SlightError::MissingSecretStore(kind) => match kind {
                CapabilityKind::Kv => "the kv capability requires a secret store of some type (i.e., envvars, or usersecrets) specified in your config file so it knows where to grab, say, the AZURE_STORAGE_ACCOUNT, and AZURE_STORAGE_KEY from.".to_owned(),
                CapabilityKind::Mq => "the mq capability requires a secret store of some type (i.e., envvars, or usersecrets) specified in your config file so it knows where to grab the AZURE_SERVICE_BUS_NAMESPACE, AZURE_POLICY_NAME, and AZURE_POLICY_KEY from.".to_owned(),
                CapabilityKind::Lockd => "the lockd capability requires a secret store of some type (i.e., envvars, or usersecrets) specified in your config file so it knows where to grab the ETCD_ENDPOINT.".to_owned(),
                CapabilityKind::Pubsub => "the pubsub capability requires a secret store of some type (i.e., envvars, or usersecrets) specified in your config file so it knows where to grab the CK_ENDPOINT, CK_SECURITY_PROTOCOL, CK_SASL_MECHANISMS, CK_SASL_USERNAME, and CK_SASL_PASSWORD from.".to_owned(),
                CapabilityKind::Events => "".to_owned(),
                CapabilityKind::Http => "".to_owned(),
                CapabilityKind::Configs => "".to_owned(),
            },
            SlightError::MissingResource(kind) => {
                let mut s: String =
                    "internal error: resource_map does not contain key: ".to_owned();
                let key = scheme_key_name(*kind);
                s.append(key.as_str());
                s
            },
            SlightError::Execution(m) => m.clone(),
        }
    }
}

/// `needle` occurs contiguously somewhere inside `hay`.
pub open spec fn seq_contains(hay: Seq<char>, needle: Seq<char>) -> bool {
    exists|i: int|
        0 <= i && i + needle.len() <= hay.len() && #[trigger] hay.subrange(i, i + needle.len())
            == needle
}

proof fn lemma_contains_at(hay: Seq<char>, needle: Seq<char>, i: int)
    requires
        0 <= i,
        i + needle.len() <= hay.len(),
        hay.subrange(i, i + needle.len()) == needle,
    ensures
        seq_contains(hay, needle),
{
}

/// The unknown-capability diagnostic enumerates all supported names: every
/// name the resolver accepts occurs verbatim inside the message.
pub proof fn lemma_unknown_capability_message_enumerates(name: Seq<char>)
    requires
        crate::capability::supported_name(name),
    ensures
        seq_contains(unknown_capability_message(), name),
{
    reveal_strlit(
        "invalid url: currently slight only supports 'configs.usersecrets', 'configs.envvars', 'events', 'kv.filesystem', 'kv.azblob', 'kv.awsdynamodb', 'mq.filesystem', 'mq.azsbus', 'lockd.etcd', 'pubsub.confluent_apache_kafka', and 'http' schemes",
    );
    let msg = unknown_capability_message();
    if name == "events"@ {
        reveal_strlit("events");
        assert(msg.subrange(87, 87 + name.len() as int) =~= name);
        lemma_contains_at(msg, name, 87);
    } else if name == "http"@ {
        reveal_strlit("http");
        assert(msg.subrange(226, 226 + name.len() as int) =~= name);
        lemma_contains_at(msg, name, 226);
    } else if name == "kv.filesystem"@ {
        reveal_strlit("kv.filesystem");
        assert(msg.subrange(97, 97 + name.len() as int) =~= name);
        lemma_contains_at(msg, name, 97);
    } else if name == "kv.azblob"@ {
        reveal_strlit("kv.azblob");
        assert(msg.subrange(114, 114 + name.len() as int) =~= name);
        lemma_contains_at(msg, name, 114);
    } else if name == "kv.awsdynamodb"@ {
        reveal_strlit("kv.awsdynamodb");
        assert(msg.subrange(127, 127 + name.len() as int) =~= name);
        lemma_contains_at(msg, name, 127);
    } else if name == "mq.filesystem"@ {
        reveal_strlit("mq.filesystem");
        assert(msg.subrange(145, 145 + name.len() as int) =~= name);
        lemma_contains_at(msg, name, 145);
    } else if name == "mq.azsbus"@ {
        reveal_strlit("mq.azsbus");
        assert(msg.subrange(162, 162 + name.len() as int) =~= name);
        lemma_contains_at(msg, name, 162);
    } else if name == "lockd.etcd"@ {
        reveal_strlit("lockd.etcd");
        assert(msg.subrange(175, 175 + name.len() as int) =~= name);
        lemma_contains_at(msg, name, 175);
    } else if name == "pubsub.confluent_apache_kafka"@ {
        reveal_strlit("pubsub.confluent_apache_kafka");
        assert(msg.subrange(189, 189 + name.len() as int) =~= name);
        lemma_contains_at(msg, name, 189);
    } else if name == "configs.usersecrets"@ {
        reveal_strlit("configs.usersecrets");
        assert(msg.subrange(45, 45 + name.len() as int) =~= name);
        lemma_contains_at(msg, name, 45);
    } else {
        reveal_strlit("configs.envvars");
        assert(name == "configs.envvars"@);
        assert(msg.subrange(68, 68 + name.len() as int) =~= name);
        lemma_contains_at(msg, name, 68);
    }
}

} // verus!
