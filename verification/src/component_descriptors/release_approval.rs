//! The component of the release approval workflow.

use vstd::prelude::*;
use crate::bindings::{binding_is, http_capability, surrealdb_capability, standard_binding, WasmComponentBindingV1, WorkloadKindV1};
use crate::text::concat3;

verus! {

/// Where the component's artifacts are published.
pub const COMPONENT_REPOSITORY: &'static str = "ghcr.io/shortorigin/release-approval";
/// The tag of the default artifact.
pub const DEFAULT_COMPONENT_TAG: &'static str = "wasm";
/// The digest of the default artifact.
pub const DEFAULT_COMPONENT_DIGEST: &'static str = "sha256:release-approval";

/// The component, built from the given artifact.
pub fn component_binding_with_artifact(
    component_ref: &str,
    digest: &str,
    rollout_environment: &str,
) -> (b: WasmComponentBindingV1)
    ensures
        binding_is(b, WorkloadKindV1::Workflow, "release-approval"@, component_ref@, digest@, rollout_environment@,
            seq!["schemas/wit/v1/platform.wit"@, "schemas/contracts/v1/release-approval-v1.json"@], seq![surrealdb_capability(), http_capability()]),
{
    standard_binding(WorkloadKindV1::Workflow, "release-approval", component_ref, digest, rollout_environment,
        "schemas/contracts/v1/release-approval-v1.json")
}

/// The component at its default artifact `<repository>:<tag>`, for
/// production.
pub fn component_binding() -> (b: WasmComponentBindingV1)
    ensures
        binding_is(b, WorkloadKindV1::Workflow, "release-approval"@,
            COMPONENT_REPOSITORY@ + ":"@ + DEFAULT_COMPONENT_TAG@, DEFAULT_COMPONENT_DIGEST@, "prod"@,
            seq!["schemas/wit/v1/platform.wit"@, "schemas/contracts/v1/release-approval-v1.json"@], seq![surrealdb_capability(), http_capability()]),
{
    let component_ref = concat3(COMPONENT_REPOSITORY, ":", DEFAULT_COMPONENT_TAG);
    component_binding_with_artifact(component_ref.as_str(), DEFAULT_COMPONENT_DIGEST, "prod")
}

} // verus!
