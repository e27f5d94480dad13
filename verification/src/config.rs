//! The declarative configuration of one run, and the check it must pass.
//!
//! Configuration supplies a spec-version string, an ordered list of declared
//! capability names, an optional secret-store descriptor, and the
//! configuration file's own location.  A run with an unsupported spec-version
//! fails immediately, before any capability declaration is inspected; every
//! declaration is then resolved eagerly, before any linking, so a
//! misconfigured run fails fast with no partially linked environment.

use vstd::prelude::*;

use crate::capability::declaration_ok;
use crate::capability::kind_of_name;
use crate::capability::resolve_spec;
use crate::capability::resolve_capability;
use crate::capability::CapabilityKind;
use crate::errors::SlightError;

verus! {

/// What one run is configured with.
#[derive(Clone, Debug)]
pub struct RunConfig {
    /// The configuration's spec-version string; only `"0.1"` is supported.
    pub spec_version: String,
    /// The declared capability names, in declaration order.
    pub capabilities: Vec<String>,
    /// The secret-store descriptor, when one is configured.
    pub secret_store: Option<String>,
    /// The configuration file's location, used by some backends to resolve
    /// relative paths.
    pub config_path: String,
}

impl RunConfig {
    /// The declared capability names, in declaration order.
    pub open spec fn cap_names(self) -> Seq<Seq<char>> {
        self.capabilities@.map_values(|name: String| name@)
    }

    /// Whether a secret-store descriptor is configured.
    pub open spec fn has_secret_store(self) -> bool {
        self.secret_store is Some
    }

    /// Whether the spec-version is the one supported version.
    pub open spec fn version_supported(self) -> bool {
        self.spec_version@ == "0.1"@
    }

    /// The configuration passes resolution: the spec-version is
    /// supported and every declared capability resolves.
    pub open spec fn valid(self) -> bool {
        &&& self.version_supported()
        &&& forall|i: int|
            0 <= i < self.cap_names().len() ==> declaration_ok(
                #[trigger] self.cap_names()[i],
                self.has_secret_store(),
            )
    }

    /// Whether some declared capability name resolves to this kind.
    pub open spec fn declares_kind(self, kind: CapabilityKind) -> bool {
        exists|i: int|
            0 <= i < self.cap_names().len() && kind_of_name(#[trigger] self.cap_names()[i])
                == Some(kind)
    }

    /// Decides [`RunConfig::declares_kind`]: whether some declared name
    /// resolves to the given kind.
    pub fn declares(&self, kind: CapabilityKind) -> (b: bool)
        ensures
            b == self.declares_kind(kind),
    {
        let mut idx: usize = 0;
        while idx < self.capabilities.len()
            invariant
                idx <= self.capabilities@.len(),
                forall|i: int|
                    0 <= i < idx ==> kind_of_name(#[trigger] self.cap_names()[i]) != Some(kind),
            decreases self.capabilities@.len() - idx,
        {
            // With the prerequisite assumed present, resolution succeeds on
            // every supported name and reports exactly the name's kind.
            match resolve_capability(&self.capabilities[idx], true) {
                Ok(found) => {
                    if found == kind {
                        proof {
                            assert(kind_of_name(self.cap_names()[idx as int]) == Some(kind));
                        }
                        return true;
                    }
                },
                Err(_) => {},
            }
            idx += 1;
        }
        false
    }
}

/// The first resolution failure among the declared names, scanning in
/// declaration order; `None` when every declaration resolves.
pub open spec fn first_resolution_error(names: Seq<Seq<char>>, has_secret_store: bool) -> Option<
    SlightError,
>
    decreases names.len(),
{
    if names.len() == 0 {
        None
    } else {
        match resolve_spec(names[0], has_secret_store) {
            Result::Err(e) => Some(e),
            Result::Ok(_) => first_resolution_error(names.drop_first(), has_secret_store),
        }
    }
}

/// The error that stops a run with this configuration before any linking, if
/// any: an unsupported spec-version fails immediately, before any capability
/// declaration is inspected; otherwise the first resolution failure, if one
/// exists.
pub open spec fn config_error(config: RunConfig) -> Option<SlightError> {
    if !config.version_supported() {
        Some(SlightError::UnsupportedSpecVersion)
    } else {
        first_resolution_error(config.cap_names(), config.has_secret_store())
    }
}

proof fn lemma_first_error_none(names: Seq<Seq<char>>, has_secret_store: bool)
    ensures
        first_resolution_error(names, has_secret_store) is None <==> forall|i: int|
            0 <= i < names.len() ==> declaration_ok(#[trigger] names[i], has_secret_store),
    decreases names.len(),
{
    if names.len() > 0 {
        let rest = names.drop_first();
        lemma_first_error_none(rest, has_secret_store);
        assert forall|j: int| 0 <= j < rest.len() implies #[trigger] rest[j] == names[j + 1] by {}
        if first_resolution_error(names, has_secret_store) is None {
            assert forall|i: int|
                0 <= i < names.len() implies declaration_ok(
                #[trigger] names[i],
                has_secret_store,
            ) by {
                if i > 0 {
                    assert(rest[i - 1] == names[i]);
                    assert(declaration_ok(rest[i - 1], has_secret_store));
                }
            }
        }
        if forall|i: int|
            0 <= i < names.len() ==> declaration_ok(#[trigger] names[i], has_secret_store) {
            assert(declaration_ok(names[0], has_secret_store));
            assert forall|j: int|
                0 <= j < rest.len() implies declaration_ok(
                #[trigger] rest[j],
                has_secret_store,
            ) by {
                assert(rest[j] == names[j + 1]);
                assert(declaration_ok(names[j + 1], has_secret_store));
            }
            assert(first_resolution_error(rest, has_secret_store) is None);
        }
    }
}

/// A configuration is valid exactly when no error stops it.
pub proof fn lemma_valid_iff_no_error(config: RunConfig)
    ensures
        config.valid() <==> config_error(config) is None,
{
    lemma_first_error_none(config.cap_names(), config.has_secret_store());
}

/// Law: an unsupported spec-version stops the run immediately, whatever the
/// declarations say: the configuration is invalid and the stopping error is the
/// unsupported-spec-version error itself, so environment building fails with
/// the table untouched and no environment produced (see
/// [`crate::builder::build_environment`]).
pub proof fn lemma_unsupported_version_rejected(config: RunConfig)
    requires
        !config.version_supported(),
    ensures
        !config.valid(),
        config_error(config) == Some(SlightError::UnsupportedSpecVersion),
{
}

/// Law: a declared capability that requires a secret-store descriptor, with
/// none configured, stops the whole run: the configuration is invalid and
/// some error stops it, so environment building fails before any resource
/// table entry is inserted (see [`crate::builder::build_environment`]).
pub proof fn lemma_missing_secret_store_rejected(config: RunConfig, i: int)
    requires
        0 <= i < config.cap_names().len(),
        kind_of_name(config.cap_names()[i]) matches Some(kind)
            && crate::capability::requires_secret_store(kind),
        !config.has_secret_store(),
    ensures
        !config.valid(),
        config_error(config) is Some,
{
    assert(!declaration_ok(config.cap_names()[i], config.has_secret_store()));
    lemma_valid_iff_no_error(config);
}

/// The error of a resolution outcome, if it failed.
pub open spec fn err_of(r: Result<CapabilityKind, SlightError>) -> Option<SlightError> {
    match r {
        Result::Ok(_) => None,
        Result::Err(e) => Some(e),
    }
}

/// When the declarations before index `i` all resolve and the one at `i`
/// fails, that failure is the first resolution error.
pub proof fn lemma_first_error_at(names: Seq<Seq<char>>, has_secret_store: bool, i: int)
    requires
        0 <= i < names.len(),
        forall|j: int| 0 <= j < i ==> declaration_ok(#[trigger] names[j], has_secret_store),
        resolve_spec(names[i], has_secret_store) is Err,
    ensures
        first_resolution_error(names, has_secret_store) == err_of(
            resolve_spec(names[i], has_secret_store),
        ),
    decreases i,
{
    if i > 0 {
        assert(forall|j: int|
            0 <= j < i - 1 ==> #[trigger] names.drop_first()[j] == names[j + 1]);
        lemma_first_error_at(names.drop_first(), has_secret_store, i - 1);
    }
}

} // verus!
