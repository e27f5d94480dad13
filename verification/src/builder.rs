//! The environment builder.
//!
//! Given a configuration and the run's shared resource table, the builder
//! resolves every declared capability eagerly — so a misconfigured run fails
//! fast, with no partially linked environment — and then links each resolved
//! capability's host-side resource into the table under its canonical scheme
//! key, in declaration order.  The result is a [`LinkPlan`]: the blueprint
//! the execution engine follows to construct one sandboxed environment
//! (ambient system-interface linking first, unconditionally, then each item's
//! host function group).
//!
//! Linking two declarations that canonicalize to the same key stores one
//! entry: the later linking overwrites the earlier.  That is documented
//! behaviour, not a rejected configuration (see
//! [`lemma_later_linking_overwrites`]).

use vstd::prelude::*;

use crate::capability::kind_of_name;
use crate::capability::requires_secret_store;
use crate::capability::resolve_capability;
use crate::capability::CapabilityKind;
use crate::config::config_error;
use crate::config::lemma_first_error_at;
use crate::config::RunConfig;
use crate::errors::SlightError;
use crate::table::BasicState;
use crate::table::Resource;
use crate::table::ResourceTable;

verus! {

/// One capability to link into an environment: the resolved kind, the
/// declared implementor name it was resolved from, and the dependency bundle
/// its backend is constructed with.
#[derive(Debug, PartialEq, Eq)]
pub struct LinkItem {
    /// The capability kind the declaration resolved to.
    pub kind: CapabilityKind,
    /// The declared implementor name, such as `"kv.filesystem"`.
    pub implementor: String,
    /// The dependency bundle for the backend; the events and HTTP kinds are
    /// constructed from the shared table alone and carry none.
    pub state: Option<BasicState>,
}

/// The blueprint of one sandboxed environment: the engine links the ambient
/// system interface unconditionally, then every item's host function group,
/// in declaration order.
#[derive(Debug, PartialEq, Eq)]
pub struct LinkPlan {
    /// The capabilities to link, in declaration order.
    pub items: Vec<LinkItem>,
}

/// The dependency bundle a declaration of this kind is constructed with:
/// none for the events and HTTP kinds, the configuration file's location
/// without a descriptor for the config/secret kind, and the configured
/// descriptor plus the file's location for every kind that requires a
/// secret store.
pub open spec fn state_matches(
    kind: CapabilityKind,
    state: Option<BasicState>,
    config: RunConfig,
) -> bool {
    if kind == CapabilityKind::Events || kind == CapabilityKind::Http {
        state is None
    } else if kind == CapabilityKind::Configs {
        &&& state matches Some(bundle)
        &&& bundle.secret_store is None
        &&& bundle.config_path@ == config.config_path@
    } else {
        &&& state matches Some(bundle)
        &&& bundle.secret_store matches Some(descriptor)
        &&& config.secret_store matches Some(configured)
        &&& descriptor@ == configured@
        &&& bundle.config_path@ == config.config_path@
    }
}

/// The item is what resolving `name` under `config` links.
pub open spec fn item_matches(item: LinkItem, name: Seq<char>, config: RunConfig) -> bool {
    &&& kind_of_name(name) == Some(item.kind)
    &&& item.implementor@ == name
    &&& state_matches(item.kind, item.state, config)
}

/// The plan links exactly the configuration's declarations, in declaration
/// order.
pub open spec fn plan_matches(plan: LinkPlan, config: RunConfig) -> bool {
    &&& plan.items@.len() == config.cap_names().len()
    &&& forall|i: int|
        0 <= i < plan.items@.len() ==> item_matches(
            #[trigger] plan.items@[i],
            config.cap_names()[i],
            config,
        )
}

/// The freshly linked resource of one plan item: no secondary instantiation
/// is adopted yet.
pub open spec fn resource_of(item: LinkItem) -> Resource {
    Resource { kind: item.kind, implementor: item.implementor, state: item.state, secondary: None }
}

/// The table after linking every item, in order, each under its own kind's
/// canonical key.
pub open spec fn link_all(
    before: Map<CapabilityKind, Resource>,
    items: Seq<LinkItem>,
) -> Map<CapabilityKind, Resource>
    decreases items.len(),
{
    if items.len() == 0 {
        before
    } else {
        link_all(before.insert(items[0].kind, resource_of(items[0])), items.drop_first())
    }
}

/// Whether some item of the plan links this kind.
pub open spec fn plan_has_kind(items: Seq<LinkItem>, kind: CapabilityKind) -> bool {
    exists|i: int| 0 <= i < items.len() && (#[trigger] items[i]).kind == kind
}

/// The index of the last item that links this kind, `-1` when none does.
pub open spec fn last_item_of_kind(items: Seq<LinkItem>, kind: CapabilityKind) -> int
    decreases items.len(),
{
    if items.len() == 0 {
        -1
    } else {
        let rest = last_item_of_kind(items.drop_first(), kind);
        if rest >= 0 {
            rest + 1
        } else if items[0].kind == kind {
            0
        } else {
            -1
        }
    }
}

/// The last item of a kind exists exactly when the plan has the kind, is of
/// that kind, and no later item is.
pub proof fn lemma_last_item_of_kind(items: Seq<LinkItem>, kind: CapabilityKind)
    ensures
        plan_has_kind(items, kind) <==> 0 <= last_item_of_kind(items, kind) < items.len(),
        plan_has_kind(items, kind) ==> items[last_item_of_kind(items, kind)].kind == kind,
        !plan_has_kind(items, kind) ==> last_item_of_kind(items, kind) == -1,
        forall|i: int|
            0 <= i < items.len() && (#[trigger] items[i]).kind == kind ==> i <= last_item_of_kind(
                items,
                kind,
            ),
    decreases items.len(),
{
    if items.len() > 0 {
        let rest = items.drop_first();
        lemma_last_item_of_kind(rest, kind);
        assert forall|j: int| 0 <= j < rest.len() implies #[trigger] rest[j] == items[j + 1] by {}
        assert(plan_has_kind(items, kind) <==> (items[0].kind == kind || plan_has_kind(
            rest,
            kind,
        ))) by {
            if items[0].kind == kind {
                assert((items[0]).kind == kind);
            }
            if plan_has_kind(rest, kind) {
                let j = choose|j: int| 0 <= j < rest.len() && (#[trigger] rest[j]).kind == kind;
                assert((items[j + 1]).kind == kind);
            }
            if plan_has_kind(items, kind) && items[0].kind != kind {
                let i = choose|i: int| 0 <= i < items.len() && (#[trigger] items[i]).kind == kind;
                assert((rest[i - 1]).kind == kind);
            }
        }
        assert forall|i: int|
            0 <= i < items.len() && (#[trigger] items[i]).kind == kind implies i
            <= last_item_of_kind(items, kind) by {
            if i > 0 {
                assert((rest[i - 1]).kind == kind);
            }
        }
    }
}

/// Linking touches no key that no item of the plan links.
pub proof fn lemma_link_all_untouched(
    before: Map<CapabilityKind, Resource>,
    items: Seq<LinkItem>,
    kind: CapabilityKind,
)
    requires
        !plan_has_kind(items, kind),
    ensures
        link_all(before, items).dom().contains(kind) == before.dom().contains(kind),
        before.dom().contains(kind) ==> link_all(before, items)[kind] == before[kind],
    decreases items.len(),
{
    if items.len() > 0 {
        let rest = items.drop_first();
        assert(items[0].kind != kind);
        assert forall|j: int| 0 <= j < rest.len() implies #[trigger] rest[j] == items[j + 1] by {}
        assert(!plan_has_kind(rest, kind)) by {
            if plan_has_kind(rest, kind) {
                let j = choose|j: int| 0 <= j < rest.len() && (#[trigger] rest[j]).kind == kind;
                assert(items[j + 1].kind == kind);
            }
        }
        lemma_link_all_untouched(
            before.insert(items[0].kind, resource_of(items[0])),
            rest,
            kind,
        );
    }
}

/// Linking stores, under each linked kind's canonical key, the resource of
/// the last item that links the kind.
pub proof fn lemma_link_all_last(
    before: Map<CapabilityKind, Resource>,
    items: Seq<LinkItem>,
    kind: CapabilityKind,
)
    requires
        plan_has_kind(items, kind),
    ensures
        link_all(before, items).dom().contains(kind),
        link_all(before, items)[kind] == resource_of(items[last_item_of_kind(items, kind)]),
    decreases items.len(),
{
    lemma_last_item_of_kind(items, kind);
    let rest = items.drop_first();
    let mid = before.insert(items[0].kind, resource_of(items[0]));
    assert forall|j: int| 0 <= j < rest.len() implies #[trigger] rest[j] == items[j + 1] by {}
    lemma_last_item_of_kind(rest, kind);
    if plan_has_kind(rest, kind) {
        lemma_link_all_last(mid, rest, kind);
    } else {
        assert(items[0].kind == kind) by {
            let i = choose|i: int| 0 <= i < items.len() && (#[trigger] items[i]).kind == kind;
            if i > 0 {
                assert(rest[i - 1].kind == kind);
            }
        }
        assert(last_item_of_kind(items, kind) == 0);
        lemma_link_all_untouched(mid, rest, kind);
    }
}

/// Linking preserves the table's well-formedness: every entry sits under the
/// key of its own kind.
pub proof fn lemma_link_all_kinds(before: Map<CapabilityKind, Resource>, items: Seq<LinkItem>)
    requires
        forall|k: CapabilityKind| #[trigger] before.dom().contains(k) ==> before[k].kind == k,
    ensures
        forall|k: CapabilityKind| #[trigger]
            link_all(before, items).dom().contains(k) ==> link_all(before, items)[k].kind == k,
    decreases items.len(),
{
    if items.len() > 0 {
        let mid = before.insert(items[0].kind, resource_of(items[0]));
        assert forall|k: CapabilityKind| #[trigger] mid.dom().contains(k) implies mid[k].kind
            == k by {}
        lemma_link_all_kinds(mid, items.drop_first());
    }
}

proof fn lemma_link_all_push(
    before: Map<CapabilityKind, Resource>,
    items: Seq<LinkItem>,
    item: LinkItem,
)
    ensures
        link_all(before, items.push(item)) == link_all(before, items).insert(
            item.kind,
            resource_of(item),
        ),
    decreases items.len(),
{
    if items.len() == 0 {
        reveal_with_fuel(link_all, 2);
        assert(items.push(item)[0] == item);
        assert(items.push(item).drop_first() =~= Seq::<LinkItem>::empty());
    } else {
        assert(items.push(item)[0] == items[0]);
        assert(items.push(item).drop_first() =~= items.drop_first().push(item));
        lemma_link_all_push(
            before.insert(items[0].kind, resource_of(items[0])),
            items.drop_first(),
            item,
        );
    }
}

/// A matching plan links a kind exactly when some declaration resolves to it.
pub proof fn lemma_plan_kinds(config: RunConfig, plan: LinkPlan)
    requires
        plan_matches(plan, config),
    ensures
        forall|k: CapabilityKind| #[trigger]
            plan_has_kind(plan.items@, k) <==> config.declares_kind(k),
{
    assert forall|k: CapabilityKind| #[trigger]
        plan_has_kind(plan.items@, k) <==> config.declares_kind(k) by {
        if plan_has_kind(plan.items@, k) {
            let i = choose|i: int|
                0 <= i < plan.items@.len() && (#[trigger] plan.items@[i]).kind == k;
            assert(item_matches(plan.items@[i], config.cap_names()[i], config));
            assert(kind_of_name(config.cap_names()[i]) == Some(k));
        }
        if config.declares_kind(k) {
            let i = choose|i: int|
                0 <= i < config.cap_names().len() && kind_of_name(
                    #[trigger] config.cap_names()[i],
                ) == Some(k);
            assert(item_matches(plan.items@[i], config.cap_names()[i], config));
            assert((plan.items@[i]).kind == k);
        }
    }
}

fn make_basic_state(kind: CapabilityKind, config: &RunConfig) -> (state: Option<BasicState>)
    requires
        requires_secret_store(kind) ==> config.has_secret_store(),
    ensures
        state_matches(kind, state, *config),
{
    match kind {
        CapabilityKind::Events => None,
        CapabilityKind::Http => None,
        CapabilityKind::Configs => Some(
            BasicState { secret_store: None, config_path: config.config_path.clone() },
        ),
        _ => {
            let descriptor = match &config.secret_store {
                Some(configured) => Some(configured.clone()),
                None => unreached(),
            };
            Some(BasicState { secret_store: descriptor, config_path: config.config_path.clone() })
        },
    }
}

/// Resolves every declared capability eagerly, before any linking: either
/// every declaration resolves and the environment blueprint comes back, or
/// the first resolution failure does and nothing was linked anywhere.
pub fn resolve_config(config: &RunConfig) -> (r: Result<LinkPlan, SlightError>)
    ensures
        r is Ok <==> config.valid(),
        r matches Result::Err(e) ==> config_error(*config) == Some(e),
        r matches Result::Ok(plan) ==> plan_matches(plan, *config),
{
    let supported: String = "0.1".to_owned();
    if !(config.spec_version == supported) {
        return Err(SlightError::UnsupportedSpecVersion);
    }
    let mut items: Vec<LinkItem> = Vec::new();
    let mut idx: usize = 0;
    while idx < config.capabilities.len()
        invariant
            idx <= config.capabilities@.len(),
            config.version_supported(),
            items@.len() == idx,
            forall|i: int|
                0 <= i < idx ==> item_matches(
                    #[trigger] items@[i],
                    config.cap_names()[i],
                    *config,
                ),
            forall|i: int|
                0 <= i < idx ==> crate::capability::declaration_ok(
                    #[trigger] config.cap_names()[i],
                    config.has_secret_store(),
                ),
        decreases config.capabilities@.len() - idx,
    {
        let name: &String = &config.capabilities[idx];
        match resolve_capability(name, config.secret_store.is_some()) {
            Ok(kind) => {
                let state = make_basic_state(kind, config);
                let item = LinkItem { kind, implementor: name.clone(), state };
                items.push(item);
            },
            Err(e) => {
                proof {
                    lemma_first_error_at(
                        config.cap_names(),
                        config.has_secret_store(),
                        idx as int,
                    );
                }
                return Err(e);
            },
        }
        idx += 1;
    }
    Ok(LinkPlan { items })
}

/// Links every item of the plan into the shared table, in order, each under
/// its own kind's canonical key.
pub fn link_environment(table: &mut ResourceTable, plan: &LinkPlan)
    ensures
        final(table)@ == link_all(old(table)@, plan.items@),
{
    let ghost before = table@;
    let mut idx: usize = 0;
    while idx < plan.items.len()
        invariant
            idx <= plan.items@.len(),
            table@ == link_all(before, plan.items@.take(idx as int)),
        decreases plan.items@.len() - idx,
    {
        let item: &LinkItem = &plan.items[idx];
        let resource = Resource {
            kind: item.kind,
            implementor: item.implementor.clone(),
            state: clone_state(&item.state),
            secondary: None,
        };
        proof {
            assert(resource == resource_of(plan.items@[idx as int]));
        }
        table.link(resource);
        proof {
            lemma_link_all_push(before, plan.items@.take(idx as int), plan.items@[idx as int]);
            assert(plan.items@.take(idx as int).push(plan.items@[idx as int]) =~= plan.items@.take(
                idx as int + 1,
            ));
        }
        idx += 1;
    }
    proof {
        assert(plan.items@.take(plan.items@.len() as int) =~= plan.items@);
    }
}

fn clone_state(state: &Option<BasicState>) -> (r: Option<BasicState>)
    ensures
        r == *state,
{
    match state {
        Some(bundle) => Some(
            BasicState {
                secret_store: clone_descriptor(&bundle.secret_store),
                config_path: bundle.config_path.clone(),
            },
        ),
        None => None,
    }
}

fn clone_descriptor(descriptor: &Option<String>) -> (r: Option<String>)
    ensures
        r == *descriptor,
{
    match descriptor {
        Some(d) => Some(d.clone()),
        None => None,
    }
}

/// Produces one environment blueprint for the configuration and populates the
/// shared table with every declared capability's resource.  Any resolution
/// failure aborts the whole build before anything is linked: the table is
/// exactly as it was, and no environment is produced.
pub fn build_environment(config: &RunConfig, table: &mut ResourceTable) -> (r: Result<
    LinkPlan,
    SlightError,
>)
    ensures
        r is Ok <==> config.valid(),
        r matches Result::Err(e) ==> config_error(*config) == Some(e) && final(table)@ == old(
            table,
        )@,
        r matches Result::Ok(plan) ==> plan_matches(plan, *config) && final(table)@ == link_all(
            old(table)@,
            plan.items@,
        ),
{
    let plan = match resolve_config(config) {
        Ok(plan) => plan,
        Err(e) => {
            return Err(e);
        },
    };
    link_environment(table, &plan);
    Ok(plan)
}

/// Law: for every declared capability name the resolver accepts, building an
/// environment leaves exactly one entry under that capability's canonical
/// key: the key is present, and the resource found there is of the expected
/// kind, freshly linked.
pub proof fn lemma_declared_capability_linked(
    config: RunConfig,
    plan: LinkPlan,
    before: Map<CapabilityKind, Resource>,
    i: int,
)
    requires
        plan_matches(plan, config),
        0 <= i < config.cap_names().len(),
        kind_of_name(config.cap_names()[i]) is Some,
    ensures
        ({
            let kind = kind_of_name(config.cap_names()[i])->Some_0;
            let after = link_all(before, plan.items@);
            &&& after.dom().contains(kind)
            &&& after[kind].kind == kind
            &&& after[kind].secondary is None
        }),
{
    let kind = kind_of_name(config.cap_names()[i])->Some_0;
    assert(item_matches(plan.items@[i], config.cap_names()[i], config));
    assert((plan.items@[i]).kind == kind);
    assert(plan_has_kind(plan.items@, kind));
    lemma_last_item_of_kind(plan.items@, kind);
    lemma_link_all_last(before, plan.items@, kind);
}

/// Law: when two declarations resolve to the same capability kind, the table
/// holds one entry under the shared canonical key, and the later linking
/// overwrites the earlier: the surviving entry is the resource of the last
/// declaration of that kind, no earlier than the later of the two.
pub proof fn lemma_later_linking_overwrites(
    config: RunConfig,
    plan: LinkPlan,
    before: Map<CapabilityKind, Resource>,
    i: int,
    j: int,
    kind: CapabilityKind,
)
    requires
        plan_matches(plan, config),
        0 <= i < j < config.cap_names().len(),
        kind_of_name(config.cap_names()[i]) == Some(kind),
        kind_of_name(config.cap_names()[j]) == Some(kind),
    ensures
        ({
            let after = link_all(before, plan.items@);
            let last = last_item_of_kind(plan.items@, kind);
            &&& j <= last < plan.items@.len()
            &&& after.dom().contains(kind)
            &&& after[kind] == resource_of(plan.items@[last])
            &&& after[kind].implementor@ == config.cap_names()[last]
        }),
{
    assert(item_matches(plan.items@[j], config.cap_names()[j], config));
    assert((plan.items@[j]).kind == kind);
    assert(plan_has_kind(plan.items@, kind));
    lemma_last_item_of_kind(plan.items@, kind);
    lemma_link_all_last(before, plan.items@, kind);
    let last = last_item_of_kind(plan.items@, kind);
    assert(item_matches(plan.items@[last], config.cap_names()[last], config));
}

} // verus!
