//! Descriptions of WebAssembly components deployed to the lattice: the
//! signed artifact, the workload kind, the worlds it exposes, its
//! configuration schemas and the capabilities it links to.

use vstd::prelude::*;
use crate::command_plan::strs;
use crate::text::owned;

verus! {

/// A component artifact and its digest, optionally signed.
#[derive(Debug, PartialEq, Eq)]
pub struct SignedComponentRefV1 {
    pub component_ref: String,
    pub digest: String,
    pub signature_ref: Option<String>,
}

/// A capability provider a component links to.
#[derive(Debug, PartialEq, Eq)]
pub struct CapabilityBindingV1 {
    pub provider_id: String,
    pub contract_id: String,
    pub link_name: String,
}

/// The kind of workload a component runs as.
#[derive(Debug, Clone, Copy, PartialEq, Eq)]
pub enum WorkloadKindV1 {
    Service,
    Workflow,
}

/// A WIT world a component exposes.
#[derive(Debug, PartialEq, Eq)]
pub struct InterfaceBindingV1 {
    pub world: String,
}

/// The world a service component exposes.
pub open spec fn service_world() -> Seq<char> {
    "service-component"@
}

/// The world a workflow component exposes.
pub open spec fn workflow_world() -> Seq<char> {
    "workflow-component"@
}

impl InterfaceBindingV1 {
    /// The service world.
    pub fn service_world() -> (i: InterfaceBindingV1)
        ensures
            i.world@ == service_world(),
    {
        InterfaceBindingV1 { world: owned("service-component") }
    }

    /// The workflow world.
    pub fn workflow_world() -> (i: InterfaceBindingV1)
        ensures
            i.world@ == workflow_world(),
    {
        InterfaceBindingV1 { world: owned("workflow-component") }
    }
}

/// A component deployed to the lattice.
#[derive(Debug, PartialEq, Eq)]
pub struct WasmComponentBindingV1 {
    pub workload_name: String,
    pub workload_kind: WorkloadKindV1,
    pub component: SignedComponentRefV1,
    pub rollout_environment: String,
    pub interfaces: Vec<InterfaceBindingV1>,
    pub config_schema_refs: Vec<String>,
    pub required_capabilities: Vec<CapabilityBindingV1>,
}

/// The parts of a capability binding.
pub open spec fn capability_parts(c: CapabilityBindingV1) -> (Seq<char>, Seq<char>, Seq<char>) {
    (c.provider_id@, c.contract_id@, c.link_name@)
}

/// The parts of each capability binding.
pub open spec fn capabilities(v: Seq<CapabilityBindingV1>) -> Seq<(Seq<char>, Seq<char>, Seq<char>)> {
    v.map_values(|c: CapabilityBindingV1| capability_parts(c))
}

/// The worlds of each interface binding.
pub open spec fn worlds(v: Seq<InterfaceBindingV1>) -> Seq<Seq<char>> {
    v.map_values(|i: InterfaceBindingV1| i.world@)
}

/// Whether a binding has exactly the given parts, unsigned.
pub open spec fn binding_is(
    b: WasmComponentBindingV1,
    kind: WorkloadKindV1,
    name: Seq<char>,
    component_ref: Seq<char>,
    digest: Seq<char>,
    environment: Seq<char>,
    schema_refs: Seq<Seq<char>>,
    caps: Seq<(Seq<char>, Seq<char>, Seq<char>)>,
) -> bool {
    &&& b.workload_kind == kind
    &&& b.workload_name@ == name
    &&& b.component.component_ref@ == component_ref
    &&& b.component.digest@ == digest
    &&& b.component.signature_ref is None
    &&& b.rollout_environment@ == environment
    &&& worlds(b.interfaces@) == seq![if kind == WorkloadKindV1::Service { service_world() } else { workflow_world() }]
    &&& strs(b.config_schema_refs@) == schema_refs
    &&& capabilities(b.required_capabilities@) == caps
}

impl WasmComponentBindingV1 {
    /// A service component exposing the service world.
    pub fn service(
        workload_name: &str,
        component: SignedComponentRefV1,
        rollout_environment: &str,
        config_schema_refs: Vec<String>,
        required_capabilities: Vec<CapabilityBindingV1>,
    ) -> (b: WasmComponentBindingV1)
        ensures
            b.workload_kind == WorkloadKindV1::Service,
            b.workload_name@ == workload_name@,
            b.component == component,
            b.rollout_environment@ == rollout_environment@,
            worlds(b.interfaces@) == seq![service_world()],
            b.config_schema_refs == config_schema_refs,
            b.required_capabilities == required_capabilities,
    {
        let mut interfaces: Vec<InterfaceBindingV1> = Vec::new();
        interfaces.push(InterfaceBindingV1::service_world());
        assert(worlds(interfaces@) =~= seq![service_world()]);
        WasmComponentBindingV1 {
            workload_name: owned(workload_name),
            workload_kind: WorkloadKindV1::Service,
            component,
            rollout_environment: owned(rollout_environment),
            interfaces,
            config_schema_refs,
            required_capabilities,
        }
    }

    /// A workflow component exposing the workflow world.
    pub fn workflow(
        workload_name: &str,
        component: SignedComponentRefV1,
        rollout_environment: &str,
        config_schema_refs: Vec<String>,
        required_capabilities: Vec<CapabilityBindingV1>,
    ) -> (b: WasmComponentBindingV1)
        ensures
            b.workload_kind == WorkloadKindV1::Workflow,
            b.workload_name@ == workload_name@,
            b.component == component,
            b.rollout_environment@ == rollout_environment@,
            worlds(b.interfaces@) == seq![workflow_world()],
            b.config_schema_refs == config_schema_refs,
            b.required_capabilities == required_capabilities,
    {
        let mut interfaces: Vec<InterfaceBindingV1> = Vec::new();
        interfaces.push(InterfaceBindingV1::workflow_world());
        assert(worlds(interfaces@) =~= seq![workflow_world()]);
        WasmComponentBindingV1 {
            workload_name: owned(workload_name),
            workload_kind: WorkloadKindV1::Workflow,
            component,
            rollout_environment: owned(rollout_environment),
            interfaces,
            config_schema_refs,
            required_capabilities,
        }
    }
}

/// An unsigned reference to a component artifact.
pub fn signed_component_ref(component_ref: &str, digest: &str) -> (r: SignedComponentRefV1)
    ensures
        r.component_ref@ == component_ref@,
        r.digest@ == digest@,
        r.signature_ref is None,
{
    SignedComponentRefV1 { component_ref: owned(component_ref), digest: owned(digest), signature_ref: None }
}

/// A capability binding from its parts.
pub fn capability(provider_id: &str, contract_id: &str, link_name: &str) -> (c: CapabilityBindingV1)
    ensures
        capability_parts(c) == (provider_id@, contract_id@, link_name@),
{
    CapabilityBindingV1 {
        provider_id: owned(provider_id),
        contract_id: owned(contract_id),
        link_name: owned(link_name),
    }
}

/// The key-value store link every stateful component needs.
pub open spec fn surrealdb_capability() -> (Seq<char>, Seq<char>, Seq<char>) {
    ("wasmcloud:keyvalue"@, "keyvalue"@, "surrealdb"@)
}

/// The HTTP server link of workflow components.
pub open spec fn http_capability() -> (Seq<char>, Seq<char>, Seq<char>) {
    ("wasmcloud:httpserver"@, "http"@, "default"@)
}

/// The key-value store capability binding.
pub fn surrealdb_capability_binding() -> (c: CapabilityBindingV1)
    ensures
        capability_parts(c) == surrealdb_capability(),
{
    capability("wasmcloud:keyvalue", "keyvalue", "surrealdb")
}

/// The HTTP server capability binding.
pub fn http_capability_binding() -> (c: CapabilityBindingV1)
    ensures
        capability_parts(c) == http_capability(),
{
    capability("wasmcloud:httpserver", "http", "default")
}

/// The platform WIT package and one contract schema.
pub fn contract_paths(contract: &str) -> (v: Vec<String>)
    ensures
        strs(v@) == seq!["schemas/wit/v1/platform.wit"@, contract@],
{
    let mut v: Vec<String> = Vec::new();
    v.push(owned("schemas/wit/v1/platform.wit"));
    v.push(owned(contract));
    assert(strs(v@) =~= seq!["schemas/wit/v1/platform.wit"@, contract@]);
    v
}

/// A deployable binding built from an artifact reference: a service with
/// the key-value link, or a workflow with the key-value and HTTP links.
pub fn standard_binding(
    kind: WorkloadKindV1,
    name: &str,
    component_ref: &str,
    digest: &str,
    rollout_environment: &str,
    contract: &str,
) -> (b: WasmComponentBindingV1)
    ensures
        binding_is(b, kind, name@, component_ref@, digest@, rollout_environment@,
            seq!["schemas/wit/v1/platform.wit"@, contract@],
            if kind == WorkloadKindV1::Service {
                seq![surrealdb_capability()]
            } else {
                seq![surrealdb_capability(), http_capability()]
            }),
{
    let mut caps: Vec<CapabilityBindingV1> = Vec::new();
    caps.push(surrealdb_capability_binding());
    match kind {
        WorkloadKindV1::Service => {
            assert(capabilities(caps@) =~= seq![surrealdb_capability()]);
            WasmComponentBindingV1::service(name, signed_component_ref(component_ref, digest),
                rollout_environment, contract_paths(contract), caps)
        },
        WorkloadKindV1::Workflow => {
            caps.push(http_capability_binding());
            assert(capabilities(caps@) =~= seq![surrealdb_capability(), http_capability()]);
            WasmComponentBindingV1::workflow(name, signed_component_ref(component_ref, digest),
                rollout_environment, contract_paths(contract), caps)
        },
    }
}

/// A copy of an optional string.
pub fn copy_opt_string(o: &Option<String>) -> (r: Option<String>)
    ensures
        r == *o,
{
    match o {
        Some(s) => Some(s.clone()),
        None => None,
    }
}

impl SignedComponentRefV1 {
    /// A copy of this reference.
    pub fn duplicate(&self) -> (r: SignedComponentRefV1)
        ensures
            r == *self,
    {
        SignedComponentRefV1 {
            component_ref: self.component_ref.clone(),
            digest: self.digest.clone(),
            signature_ref: copy_opt_string(&self.signature_ref),
        }
    }
}

/// Whether two bindings hold the same content.
pub open spec fn same_binding(a: WasmComponentBindingV1, b: WasmComponentBindingV1) -> bool {
    &&& a.workload_name == b.workload_name
    &&& a.workload_kind == b.workload_kind
    &&& a.component == b.component
    &&& a.rollout_environment == b.rollout_environment
    &&& a.interfaces@ == b.interfaces@
    &&& a.config_schema_refs@ == b.config_schema_refs@
    &&& a.required_capabilities@ == b.required_capabilities@
}

impl WasmComponentBindingV1 {
    /// A copy of this binding.
    pub fn duplicate(&self) -> (r: WasmComponentBindingV1)
        ensures
            same_binding(r, *self),
    {
        let mut interfaces: Vec<InterfaceBindingV1> = Vec::new();
        let mut i: usize = 0;
        while i < self.interfaces.len()
            invariant
                i <= self.interfaces.len(),
                interfaces@ == self.interfaces@.subrange(0, i as int),
            decreases self.interfaces.len() - i,
        {
            interfaces.push(InterfaceBindingV1 { world: self.interfaces[i].world.clone() });
            i = i + 1;
        }
        assert(self.interfaces@.subrange(0, i as int) =~= self.interfaces@);
        let mut caps: Vec<CapabilityBindingV1> = Vec::new();
        let mut j: usize = 0;
        while j < self.required_capabilities.len()
            invariant
                j <= self.required_capabilities.len(),
                caps@ == self.required_capabilities@.subrange(0, j as int),
            decreases self.required_capabilities.len() - j,
        {
            let c = &self.required_capabilities[j];
            caps.push(CapabilityBindingV1 {
                provider_id: c.provider_id.clone(),
                contract_id: c.contract_id.clone(),
                link_name: c.link_name.clone(),
            });
            j = j + 1;
        }
        assert(self.required_capabilities@.subrange(0, j as int) =~= self.required_capabilities@);
        let mut schemas: Vec<String> = Vec::new();
        let mut k: usize = 0;
        while k < self.config_schema_refs.len()
            invariant
                k <= self.config_schema_refs.len(),
                schemas@ == self.config_schema_refs@.subrange(0, k as int),
            decreases self.config_schema_refs.len() - k,
        {
            schemas.push(self.config_schema_refs[k].clone());
            k = k + 1;
        }
        assert(self.config_schema_refs@.subrange(0, k as int) =~= self.config_schema_refs@);
        WasmComponentBindingV1 {
            workload_name: self.workload_name.clone(),
            workload_kind: self.workload_kind,
            component: self.component.duplicate(),
            rollout_environment: self.rollout_environment.clone(),
            interfaces,
            config_schema_refs: schemas,
            required_capabilities: caps,
        }
    }
}

} // verus!
