//! Runtime security checks: the runtime lab's location and the admission
//! rule for service component bindings.

use vstd::prelude::*;
use crate::bindings::{service_world, worlds, WasmComponentBindingV1, WorkloadKindV1};
use crate::command_plan::{join_path, path_join};
use crate::text::owned;

verus! {

/// Why a component binding is not an admissible service.
#[derive(Debug, Clone, Copy, PartialEq, Eq)]
pub enum DescriptorError {
    WrongWorkloadKind,
    MissingServiceWorld,
    MissingSchemaReference,
}

impl DescriptorError {
    /// The message of this error.
    pub fn message(&self) -> (s: String)
        ensures
            s@ == match self {
                DescriptorError::WrongWorkloadKind => "component binding is not a service workload"@,
                DescriptorError::MissingServiceWorld => "component binding must expose the service world"@,
                DescriptorError::MissingSchemaReference =>
                    "component binding must declare at least one config schema reference"@,
            },
    {
        match self {
            DescriptorError::WrongWorkloadKind => owned("component binding is not a service workload"),
            DescriptorError::MissingServiceWorld => owned("component binding must expose the service world"),
            DescriptorError::MissingSchemaReference =>
                owned("component binding must declare at least one config schema reference"),
        }
    }
}

/// The runtime lab, relative to the workspace root.
pub const RUNTIME_LAB_ROOT: &'static str = "testing/security-labs/runtime-security";

/// Where the runtime lab lives in the workspace.
pub open spec fn lab_dir(root: Seq<char>) -> Seq<char> {
    path_join(root, RUNTIME_LAB_ROOT@)
}

/// The runtime lab directory under a workspace root.
pub fn runtime_lab_path(workspace_root: &str) -> (p: String)
    ensures
        p@ == lab_dir(workspace_root@),
{
    join_path(workspace_root, RUNTIME_LAB_ROOT)
}

/// A fixture of the runtime lab.
pub fn runtime_lab_fixture_path(workspace_root: &str, name: &str) -> (p: String)
    ensures
        p@ == path_join(path_join(lab_dir(workspace_root@), "fixtures"@), name@),
{
    let lab = runtime_lab_path(workspace_root);
    let fixtures = join_path(lab.as_str(), "fixtures");
    join_path(fixtures.as_str(), name)
}

/// The first reason a binding is not an admissible service, if any.
pub open spec fn service_binding_error(b: WasmComponentBindingV1) -> Option<DescriptorError> {
    if b.workload_kind != WorkloadKindV1::Service {
        Some(DescriptorError::WrongWorkloadKind)
    } else if !worlds(b.interfaces@).contains(service_world()) {
        Some(DescriptorError::MissingServiceWorld)
    } else if b.config_schema_refs@.len() == 0 {
        Some(DescriptorError::MissingSchemaReference)
    } else {
        None
    }
}

/// Admits a binding that runs as a service, exposes the service world and
/// declares a configuration schema.
pub fn validate_service_binding(binding: &WasmComponentBindingV1) -> (r: Result<(), DescriptorError>)
    ensures
        match r {
            Ok(_) => service_binding_error(*binding) is None,
            Err(e) => service_binding_error(*binding) == Some(e),
        },
{
    match binding.workload_kind {
        WorkloadKindV1::Service => {},
        WorkloadKindV1::Workflow => { return Err(DescriptorError::WrongWorkloadKind); },
    }
    let world = owned("service-component");
    let mut found = false;
    let mut i: usize = 0;
    while i < binding.interfaces.len()
        invariant
            i <= binding.interfaces.len(),
            world@ == service_world(),
            found == worlds(binding.interfaces@).subrange(0, i as int).contains(service_world()),
        decreases binding.interfaces.len() - i,
    {
        let ghost prev = worlds(binding.interfaces@).subrange(0, i as int);
        let ghost next = worlds(binding.interfaces@).subrange(0, i + 1);
        assert(next =~= prev.push(binding.interfaces@[i as int].world@));
        if binding.interfaces[i].world == world {
            assert(next[i as int] == service_world());
            found = true;
        } else {
            assert(next.contains(service_world()) ==> prev.contains(service_world())) by {
                if next.contains(service_world()) {
                    let j = next.index_of(service_world());
                    assert(j != i as int);
                    assert(prev[j] == service_world());
                }
            }
            proof {
                if found {
                    let j = prev.index_of(service_world());
                    assert(next[j] == service_world());
                }
            }
        }
        i = i + 1;
    }
    assert(worlds(binding.interfaces@).subrange(0, i as int) =~= worlds(binding.interfaces@));
    if !found {
        return Err(DescriptorError::MissingServiceWorld);
    }
    if binding.config_schema_refs.len() == 0 {
        return Err(DescriptorError::MissingSchemaReference);
    }
    Ok(())
}

/// Every binding that runs as a service, exposes exactly the service world
/// and declares at least one configuration schema is admitted; so is each
/// binding built by `WasmComponentBindingV1::service` with a schema.
pub proof fn law_service_bindings_are_admitted(b: WasmComponentBindingV1)
    requires
        b.workload_kind == WorkloadKindV1::Service,
        worlds(b.interfaces@) == seq![service_world()],
        b.config_schema_refs@.len() > 0,
    ensures
        service_binding_error(b) is None,
{
    assert(worlds(b.interfaces@)[0] == service_world());
}

/// A workflow binding is never admitted as a service.
pub proof fn law_workflow_bindings_are_refused(b: WasmComponentBindingV1)
    requires
        b.workload_kind == WorkloadKindV1::Workflow,
    ensures
        service_binding_error(b) == Some(DescriptorError::WrongWorkloadKind),
{
}

} // verus!
