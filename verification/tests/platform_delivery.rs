use origin_platform::bindings::{InterfaceBindingV1, SignedComponentRefV1, WasmComponentBindingV1, WorkloadKindV1};
use origin_platform::component_descriptors::{
    engineering_service, finance_service, release_approval, security_service, treasury_disbursement,
};
use origin_platform::lattice::{
    finance_service_component_binding, platform_contract_paths, rollout_target_for_environment,
    treasury_disbursement_component_binding, LatticeConfigV1,
};
use origin_platform::runtime_security::{
    runtime_lab_fixture_path, runtime_lab_path, validate_service_binding, DescriptorError,
};

#[test]
fn finance_descriptor_matches_expected_defaults() {
    let binding = finance_service::component_binding();

    assert_eq!(binding.workload_name, "finance-service");
    assert_eq!(binding.component.component_ref, "ghcr.io/shortorigin/finance-service:wasm");
    assert_eq!(binding.component.digest, "sha256:finance-service");
    assert_eq!(binding.rollout_environment, "prod");
    assert_eq!(binding.required_capabilities.len(), 1);
    assert_eq!(binding.required_capabilities[0].link_name, "surrealdb");
}

#[test]
fn treasury_descriptor_preserves_capabilities_and_refs() {
    let binding = treasury_disbursement::component_binding_with_artifact(
        "ghcr.io/shortorigin/treasury-disbursement:v1",
        "sha256:test",
        "stage",
    );

    assert_eq!(binding.workload_name, "treasury-disbursement");
    assert_eq!(binding.component.component_ref, "ghcr.io/shortorigin/treasury-disbursement:v1");
    assert_eq!(binding.component.digest, "sha256:test");
    assert_eq!(binding.rollout_environment, "stage");
    assert_eq!(binding.required_capabilities.len(), 2);
    assert!(binding.config_schema_refs.iter().any(|path| path == "schemas/wit/v1/platform.wit"));
}

#[test]
fn release_approval_descriptor_matches_defaults() {
    let binding = release_approval::component_binding();
    assert_eq!(binding.workload_name, "release-approval");
    assert_eq!(binding.component.component_ref, "ghcr.io/shortorigin/release-approval:wasm");
    assert_eq!(binding.required_capabilities.len(), 2);
}

#[test]
fn engineering_and_security_descriptors_reference_release_contract() {
    let engineering = engineering_service::component_binding();
    let security = security_service::component_binding();
    assert!(engineering
        .config_schema_refs
        .iter()
        .any(|path| path == "schemas/contracts/v1/release-approval-v1.json"));
    assert!(security
        .config_schema_refs
        .iter()
        .any(|path| path == "schemas/contracts/v1/release-approval-v1.json"));
}

#[test]
fn finance_service_component_binding_stays_in_platform_delivery_layer() {
    let binding = finance_service_component_binding();
    assert_eq!(binding.component.component_ref, "ghcr.io/shortorigin/finance-service:wasm");
    assert_eq!(binding.component.digest, "sha256:finance-service");
    assert_eq!(binding.required_capabilities.len(), 1);
}

#[test]
fn treasury_workflow_component_binding_declares_expected_capabilities() {
    let binding = treasury_disbursement_component_binding();
    assert_eq!(binding.component.component_ref, "ghcr.io/shortorigin/treasury-disbursement:wasm");
    assert_eq!(binding.required_capabilities.len(), 2);
}

#[test]
fn rollout_target_tracks_environment_name() {
    let target = rollout_target_for_environment("stage");
    assert_eq!(target.environment, "stage");
    assert_eq!(target.namespace, "stage");
    assert_eq!(target.policy_group, "origin-stage");
}

#[test]
fn synthetic_service_binding_stays_runtime_compatible() {
    let binding = WasmComponentBindingV1::service(
        "runtime-lab",
        SignedComponentRefV1 {
            component_ref: "ghcr.io/shortorigin/runtime-lab:wasm".to_string(),
            digest: "sha256:runtime-lab".to_string(),
            signature_ref: None,
        },
        "lab",
        vec!["schemas/wit/v1/platform.wit".to_string()],
        Vec::new(),
    );

    validate_service_binding(&binding).expect("service binding");
}

#[test]
fn finance_component_descriptor_matches_service_world() {
    let binding = finance_service::component_binding();
    validate_service_binding(&binding).expect("service binding");
    assert!(binding
        .interfaces
        .iter()
        .any(|interface| interface == &InterfaceBindingV1::service_world()));
}

#[test]
fn service_validation_refuses_each_defect_in_order() {
    let workflow = treasury_disbursement::component_binding();
    assert_eq!(workflow.workload_kind, WorkloadKindV1::Workflow);
    assert_eq!(validate_service_binding(&workflow), Err(DescriptorError::WrongWorkloadKind));

    let mut no_world = finance_service::component_binding();
    no_world.interfaces = vec![InterfaceBindingV1::workflow_world()];
    assert_eq!(validate_service_binding(&no_world), Err(DescriptorError::MissingServiceWorld));

    let mut no_schema = finance_service::component_binding();
    no_schema.config_schema_refs.clear();
    assert_eq!(validate_service_binding(&no_schema), Err(DescriptorError::MissingSchemaReference));
}

#[test]
fn descriptor_error_messages_name_the_defect() {
    assert!(!DescriptorError::WrongWorkloadKind.message().is_empty());
    assert_ne!(
        DescriptorError::MissingServiceWorld.message(),
        DescriptorError::MissingSchemaReference.message()
    );
}

#[test]
fn runtime_lab_paths_sit_under_the_workspace() {
    assert_eq!(runtime_lab_path("/repo"), "/repo/testing/security-labs/runtime-security");
    assert_eq!(
        runtime_lab_fixture_path("/repo", "busy-loop.wat"),
        "/repo/testing/security-labs/runtime-security/fixtures/busy-loop.wat"
    );
}

#[test]
fn lattice_lists_component_refs_in_order() {
    let lattice = LatticeConfigV1 {
        lattice_name: "institutional-lattice".to_string(),
        rollout: rollout_target_for_environment("prod"),
        components: vec![
            engineering_service::component_binding(),
            security_service::component_binding(),
            release_approval::component_binding(),
        ],
    };
    let refs = lattice.component_refs();
    assert_eq!(refs.len(), 3);
    assert_eq!(refs[0].component_ref, "ghcr.io/shortorigin/engineering-service:wasm");
    assert_eq!(refs[1].digest, "sha256:security-service");
    assert_eq!(refs[2].component_ref, "ghcr.io/shortorigin/release-approval:wasm");
}

#[test]
fn finance_and_treasury_components_share_platform_contracts() {
    let expected = vec![
        "schemas/wit/v1/platform.wit".to_string(),
        "schemas/contracts/v1/treasury-disbursement-v1.json".to_string(),
    ];
    assert_eq!(platform_contract_paths(), expected);
    assert_eq!(finance_service_component_binding().config_schema_refs, expected);
    assert_eq!(treasury_disbursement_component_binding().config_schema_refs, expected);
    assert_eq!(treasury_disbursement_component_binding().required_capabilities[1].link_name, "default");
}
