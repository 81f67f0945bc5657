//! The component of the security service.

use vstd::prelude::*;
use crate::bindings::{binding_is, surrealdb_capability, standard_binding, WasmComponentBindingV1, WorkloadKindV1};
use crate::text::concat3;

verus! {

/// Where the component's artifacts are published.
pub const COMPONENT_REPOSITORY: &'static str = "ghcr.io/shortorigin/security-service";
/// The tag of the default artifact.
pub const DEFAULT_COMPONENT_TAG: &'static str = "wasm";
/// The digest of the default artifact.
pub const DEFAULT_COMPONENT_DIGEST: &'static str = "sha256:security-service";

/// The component, built from the given artifact.
pub fn component_binding_with_artifact(
    component_ref: &str,
    digest: &str,
    rollout_environment: &str,
) -> (b: WasmComponentBindingV1)
    ensures
        binding_is(b, WorkloadKindV1::Service, "security-service"@, component_ref@, digest@, rollout_environment@,
            seq!["schemas/wit/v1/platform.wit"@, "schemas/contracts/v1/release-approval-v1.json"@], seq![surrealdb_capability()]),
{
    standard_binding(WorkloadKindV1::Service, "security-service", component_ref, digest, rollout_environment,
        "schemas/contracts/v1/release-approval-v1.json")
}

/// The component at its default artifact `<repository>:<tag>`, for
/// production.
pub fn component_binding() -> (b: WasmComponentBindingV1)
    ensures
        binding_is(b, WorkloadKindV1::Service, "security-service"@,
            COMPONENT_REPOSITORY@ + ":"@ + DEFAULT_COMPONENT_TAG@, DEFAULT_COMPONENT_DIGEST@, "prod"@,
            seq!["schemas/wit/v1/platform.wit"@, "schemas/contracts/v1/release-approval-v1.json"@], seq![surrealdb_capability()]),
{
    let component_ref = concat3(COMPONENT_REPOSITORY, ":", DEFAULT_COMPONENT_TAG);
    component_binding_with_artifact(component_ref.as_str(), DEFAULT_COMPONENT_DIGEST, "prod")
}

} // verus!
