use origin_platform::boundaries::{
    assert_service_boundary_matches_catalog, check_approved_workflows, check_domains,
    check_workflow_targets, CatalogServiceBoundary,
};
use origin_platform::catalog::{catalog_from_table, parse_service_boundary_catalog, TomlField};
use origin_platform::contracts::{ServiceBoundaryV1, WorkflowBoundaryV1};
use origin_platform::{governance, meteorological};

fn strings(v: &[&str]) -> Vec<String> {
    v.iter().map(|s| s.to_string()).collect()
}

fn workflow(name: &str, domains: &[&str], targets: &[&str]) -> WorkflowBoundaryV1 {
    WorkflowBoundaryV1 {
        workflow_name: name.to_string(),
        touched_domains: strings(domains),
        target_services: strings(targets),
        emits_evidence: true,
        mutation_path_only: true,
    }
}

fn service_catalog() -> Vec<ServiceBoundaryV1> {
    vec![governance::service_boundary(), meteorological::service_boundary()]
}

fn workflow_catalog() -> Vec<WorkflowBoundaryV1> {
    vec![
        workflow("strategy_review", &["strategy_governance"], &["governance-service"]),
        workflow("policy_exception", &["strategy_governance"], &["governance-service"]),
        workflow("quant_strategy_promotion", &["strategy_governance"], &["governance-service"]),
        workflow("weather_ingestion", &["meteorological_intelligence"], &["meteorological-service"]),
    ]
}

fn enterprise_domains() -> Vec<String> {
    strings(&["strategy_governance", "meteorological_intelligence"])
}

const GOVERNANCE_CATALOG: &str = r#"
version = "v1"
primary_service = "governance-service"
approved_workflows = ["strategy_review", "policy_exception", "quant_strategy_promotion"]
owned_aggregates = ["governance_decision", "institutional_invariant", "promotion_recommendation", "model_approval"]
"#;

const METEOROLOGICAL_CATALOG: &str = r#"
version = "v1"
primary_service = "meteorological-service"
approved_workflows = ["weather_ingestion"]
owned_aggregates = ["weather_dataset", "weather_feature_product", "weather_alert"]
"#;

#[test]
fn workflow_targets_are_explicitly_approved_by_target_services() {
    assert_eq!(check_workflow_targets(&service_catalog(), &workflow_catalog()), Ok(()));
}

#[test]
fn approved_workflows_reference_existing_workflows() {
    assert_eq!(check_approved_workflows(&service_catalog(), &workflow_catalog()), Ok(()));
}

#[test]
fn boundary_catalogs_reference_existing_enterprise_domains() {
    assert_eq!(check_domains(&service_catalog(), &workflow_catalog(), &enterprise_domains()), Ok(()));
}

#[test]
fn lib_service_boundary_matches_enterprise_catalog() {
    let catalog = parse_service_boundary_catalog(GOVERNANCE_CATALOG).expect("catalog");
    let boundary = governance::service_boundary();
    assert!(assert_service_boundary_matches_catalog(&boundary, "strategy_governance", &catalog));

    let catalog = parse_service_boundary_catalog(METEOROLOGICAL_CATALOG).expect("catalog");
    let boundary = meteorological::service_boundary();
    assert!(assert_service_boundary_matches_catalog(&boundary, "meteorological_intelligence", &catalog));
}

#[test]
fn catalog_mismatches_are_detected() {
    let boundary = governance::service_boundary();
    let mut catalog = parse_service_boundary_catalog(GOVERNANCE_CATALOG).expect("catalog");
    assert!(!assert_service_boundary_matches_catalog(&boundary, "meteorological_intelligence", &catalog));
    catalog.approved_workflows.reverse();
    assert!(!assert_service_boundary_matches_catalog(&boundary, "strategy_governance", &catalog));
    let mut catalog = parse_service_boundary_catalog(GOVERNANCE_CATALOG).expect("catalog");
    catalog.version = "v2".to_string();
    assert!(!assert_service_boundary_matches_catalog(&boundary, "strategy_governance", &catalog));
}

#[test]
fn missing_target_boundary_is_reported() {
    let workflows = vec![workflow("release_approval", &["engineering"], &["engineering-service"])];
    assert_eq!(
        check_workflow_targets(&service_catalog(), &workflows),
        Err("missing service boundary for `engineering-service`".to_string())
    );
}

#[test]
fn unapproved_target_is_reported() {
    let workflows = vec![
        workflow("weather_ingestion", &["meteorological_intelligence"], &["meteorological-service"]),
        workflow("weather_ingestion", &["meteorological_intelligence"], &["governance-service"]),
    ];
    assert_eq!(
        check_workflow_targets(&service_catalog(), &workflows),
        Err("workflow `weather_ingestion` targets `governance-service` without approval".to_string())
    );
}

#[test]
fn later_boundary_of_a_service_wins() {
    let mut services = service_catalog();
    let mut replacement = meteorological::service_boundary();
    replacement.approved_workflows.clear();
    services.push(replacement);
    assert_eq!(
        check_workflow_targets(&services, &workflow_catalog()),
        Err("workflow `weather_ingestion` targets `meteorological-service` without approval".to_string())
    );
}

#[test]
fn unknown_approved_workflow_is_reported() {
    let workflows = vec![workflow("strategy_review", &["strategy_governance"], &["governance-service"])];
    assert_eq!(
        check_approved_workflows(&service_catalog(), &workflows),
        Err("service `governance-service` references unknown workflow `policy_exception`".to_string())
    );
}

#[test]
fn unknown_domains_are_reported() {
    let domains = strings(&["strategy_governance"]);
    assert_eq!(
        check_domains(&service_catalog(), &workflow_catalog(), &domains),
        Err("service `meteorological-service` references unknown domain `meteorological_intelligence`".to_string())
    );
    let services = vec![governance::service_boundary()];
    assert_eq!(
        check_domains(&services, &workflow_catalog(), &domains),
        Err("workflow `weather_ingestion` references unknown domain `meteorological_intelligence`".to_string())
    );
}

#[test]
fn catalog_entries_are_read_from_toml() {
    assert_eq!(
        parse_service_boundary_catalog(METEOROLOGICAL_CATALOG),
        Ok(CatalogServiceBoundary {
            version: "v1".to_string(),
            primary_service: "meteorological-service".to_string(),
            approved_workflows: strings(&["weather_ingestion"]),
            owned_aggregates: strings(&["weather_dataset", "weather_feature_product", "weather_alert"]),
        })
    );
    assert_eq!(
        parse_service_boundary_catalog("version = = 1"),
        Err("service boundary catalog should be valid TOML".to_string())
    );
    assert_eq!(
        parse_service_boundary_catalog("version = 1\nprimary_service = \"s\""),
        Err("missing string field `version`".to_string())
    );
    assert_eq!(
        parse_service_boundary_catalog("version = \"v1\""),
        Err("missing string field `primary_service`".to_string())
    );
    assert_eq!(
        parse_service_boundary_catalog("version = \"v1\"\nprimary_service = \"s\"\napproved_workflows = \"x\""),
        Err("missing string array field `approved_workflows`".to_string())
    );
    assert_eq!(
        parse_service_boundary_catalog(
            "version = \"v1\"\nprimary_service = \"s\"\napproved_workflows = [\"a\"]\nowned_aggregates = [\"b\", 3]"
        ),
        Err("field `owned_aggregates` should contain only strings".to_string())
    );
}

#[test]
fn catalog_fields_are_taken_from_a_table() {
    let table = vec![
        ("owned_aggregates".to_string(), TomlField::Array(vec![Some("agg".to_string())])),
        ("version".to_string(), TomlField::Str("v2".to_string())),
        ("primary_service".to_string(), TomlField::Str("svc".to_string())),
        ("approved_workflows".to_string(), TomlField::Array(Vec::new())),
        ("extra".to_string(), TomlField::Other),
    ];
    assert_eq!(
        catalog_from_table(&table),
        Ok(CatalogServiceBoundary {
            version: "v2".to_string(),
            primary_service: "svc".to_string(),
            approved_workflows: Vec::new(),
            owned_aggregates: strings(&["agg"]),
        })
    );
    let wrong_kind = vec![("version".to_string(), TomlField::Other)];
    assert_eq!(catalog_from_table(&wrong_kind), Err("missing string field `version`".to_string()));
}
