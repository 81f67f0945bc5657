//! Lattice configuration: where components roll out and which components
//! make up the lattice.

use vstd::prelude::*;
use crate::bindings::{
    binding_is, capabilities, contract_paths, http_capability, http_capability_binding, same_binding,
    signed_component_ref, surrealdb_capability, surrealdb_capability_binding, CapabilityBindingV1,
    SignedComponentRefV1, WasmComponentBindingV1, WorkloadKindV1,
};
use crate::command_plan::strs;
use crate::text::{concat2, owned};

verus! {

/// The environment, namespace and policy group of a rollout.
#[derive(Debug, PartialEq, Eq)]
pub struct RolloutTargetV1 {
    pub environment: String,
    pub namespace: String,
    pub policy_group: String,
}

/// The rollout target of an environment: its own namespace and the
/// `origin-<environment>` policy group.
pub fn rollout_target_for_environment(environment: &str) -> (t: RolloutTargetV1)
    ensures
        t.environment@ == environment@,
        t.namespace@ == environment@,
        t.policy_group@ == "origin-"@ + environment@,
{
    RolloutTargetV1 {
        environment: owned(environment),
        namespace: owned(environment),
        policy_group: concat2("origin-", environment),
    }
}

/// A lattice, its rollout target and its components.
#[derive(Debug, PartialEq, Eq)]
pub struct LatticeConfigV1 {
    pub lattice_name: String,
    pub rollout: RolloutTargetV1,
    pub components: Vec<WasmComponentBindingV1>,
}

impl LatticeConfigV1 {
    /// The artifact of each component, in order.
    pub fn component_refs(&self) -> (r: Vec<&SignedComponentRefV1>)
        ensures
            r@.len() == self.components@.len(),
            forall|i: int| 0 <= i < r@.len() ==> *r@[i] == (#[trigger] self.components@[i]).component,
    {
        let mut r: Vec<&SignedComponentRefV1> = Vec::new();
        let mut i: usize = 0;
        while i < self.components.len()
            invariant
                i <= self.components.len(),
                r@.len() == i,
                forall|j: int| 0 <= j < i ==> *r@[j] == (#[trigger] self.components@[j]).component,
            decreases self.components.len() - i,
        {
            r.push(&self.components[i].component);
            i = i + 1;
        }
        r
    }
}

/// The contract schema the finance and treasury components are configured
/// with.
pub open spec fn treasury_contract() -> Seq<char> {
    "schemas/contracts/v1/treasury-disbursement-v1.json"@
}

/// The configuration schemas of the finance and treasury components: the
/// platform WIT package and the treasury disbursement contract.
pub fn platform_contract_paths() -> (v: Vec<String>)
    ensures
        strs(v@) == seq!["schemas/wit/v1/platform.wit"@, treasury_contract()],
{
    contract_paths("schemas/contracts/v1/treasury-disbursement-v1.json")
}

/// The finance service component, built from the given artifact.
pub fn finance_service_component_binding_with_artifact(
    component_ref: &str,
    digest: &str,
    rollout_environment: &str,
) -> (b: WasmComponentBindingV1)
    ensures
        binding_is(b, WorkloadKindV1::Service, "finance-service"@, component_ref@, digest@,
            rollout_environment@, seq!["schemas/wit/v1/platform.wit"@, treasury_contract()],
            seq![surrealdb_capability()]),
{
    let mut caps: Vec<CapabilityBindingV1> = Vec::new();
    caps.push(surrealdb_capability_binding());
    assert(capabilities(caps@) =~= seq![surrealdb_capability()]);
    WasmComponentBindingV1::service("finance-service", signed_component_ref(component_ref, digest),
        rollout_environment, platform_contract_paths(), caps)
}

/// The finance service component at its default artifact, for production.
pub fn finance_service_component_binding() -> (b: WasmComponentBindingV1)
    ensures
        binding_is(b, WorkloadKindV1::Service, "finance-service"@,
            "ghcr.io/shortorigin/finance-service:wasm"@, "sha256:finance-service"@, "prod"@,
            seq!["schemas/wit/v1/platform.wit"@, treasury_contract()], seq![surrealdb_capability()]),
{
    finance_service_component_binding_with_artifact("ghcr.io/shortorigin/finance-service:wasm",
        "sha256:finance-service", "prod")
}

/// The treasury disbursement workflow component, built from the given
/// artifact.
pub fn treasury_disbursement_component_binding_with_artifact(
    component_ref: &str,
    digest: &str,
    rollout_environment: &str,
) -> (b: WasmComponentBindingV1)
    ensures
        binding_is(b, WorkloadKindV1::Workflow, "treasury-disbursement"@, component_ref@, digest@,
            rollout_environment@, seq!["schemas/wit/v1/platform.wit"@, treasury_contract()],
            seq![surrealdb_capability(), http_capability()]),
{
    let mut caps: Vec<CapabilityBindingV1> = Vec::new();
    caps.push(surrealdb_capability_binding());
    caps.push(http_capability_binding());
    assert(capabilities(caps@) =~= seq![surrealdb_capability(), http_capability()]);
    WasmComponentBindingV1::workflow("treasury-disbursement", signed_component_ref(component_ref, digest),
        rollout_environment, platform_contract_paths(), caps)
}

/// The treasury disbursement workflow component at its default artifact,
/// for production.
pub fn treasury_disbursement_component_binding() -> (b: WasmComponentBindingV1)
    ensures
        binding_is(b, WorkloadKindV1::Workflow, "treasury-disbursement"@,
            "ghcr.io/shortorigin/treasury-disbursement:wasm"@, "sha256:treasury-disbursement"@, "prod"@,
            seq!["schemas/wit/v1/platform.wit"@, treasury_contract()],
            seq![surrealdb_capability(), http_capability()]),
{
    treasury_disbursement_component_binding_with_artifact(
        "ghcr.io/shortorigin/treasury-disbursement:wasm", "sha256:treasury-disbursement", "prod")
}

impl RolloutTargetV1 {
    /// A copy of this target.
    pub fn duplicate(&self) -> (r: RolloutTargetV1)
        ensures
            r == *self,
    {
        RolloutTargetV1 {
            environment: self.environment.clone(),
            namespace: self.namespace.clone(),
            policy_group: self.policy_group.clone(),
        }
    }
}

/// Whether two lattice configurations hold the same content.
pub open spec fn same_lattice(a: LatticeConfigV1, b: LatticeConfigV1) -> bool {
    &&& a.lattice_name == b.lattice_name
    &&& a.rollout == b.rollout
    &&& a.components@.len() == b.components@.len()
    &&& forall|i: int| 0 <= i < a.components@.len() ==> same_binding(#[trigger] a.components@[i], b.components@[i])
}

/// Whether two optional lattice configurations hold the same content.
pub open spec fn same_opt_lattice(a: Option<LatticeConfigV1>, b: Option<LatticeConfigV1>) -> bool {
    match (a, b) {
        (Some(x), Some(y)) => same_lattice(x, y),
        (None, None) => true,
        _ => false,
    }
}

impl LatticeConfigV1 {
    /// A copy of this configuration.
    pub fn duplicate(&self) -> (r: LatticeConfigV1)
        ensures
            same_lattice(r, *self),
    {
        let mut components: Vec<WasmComponentBindingV1> = Vec::new();
        let mut i: usize = 0;
        while i < self.components.len()
            invariant
                i <= self.components.len(),
                components@.len() == i,
                forall|j: int| 0 <= j < i ==> same_binding(#[trigger] components@[j], self.components@[j]),
            decreases self.components.len() - i,
        {
            components.push(self.components[i].duplicate());
            i = i + 1;
        }
        LatticeConfigV1 {
            lattice_name: self.lattice_name.clone(),
            rollout: self.rollout.duplicate(),
            components,
        }
    }
}

/// A copy of an optional configuration.
pub fn copy_lattice(o: &Option<LatticeConfigV1>) -> (r: Option<LatticeConfigV1>)
    ensures
        same_opt_lattice(r, *o),
{
    match o {
        Some(l) => Some(l.duplicate()),
        None => None,
    }
}

} // verus!
