use origin_platform::capability::{CapabilityError, CapabilityGrant};
use origin_platform::instrumentation::correlate_observation;
use origin_platform::contracts::{
    Classification, InstitutionalRole, MutationAuthorizationV1, ReleaseApprovalRequestV1, SecurityReleaseAssessmentV1,
};
use origin_platform::engineering::EngineeringService;
use origin_platform::error_model::{
    InstitutionalError, InstitutionalErrorCategory, OperationContext, SourceErrorInfo,
};
use origin_platform::governance::{GovernanceService, ModelApprovalStatusV1};
use origin_platform::services::{
    AuditService, FinanceService, MemoryEvidenceSink, RiskService, SecurityService, WorkflowEngine,
};

fn authorization(workflow: &str, service: &str) -> MutationAuthorizationV1 {
    MutationAuthorizationV1 {
        workflow_name: workflow.to_string(),
        target_service: service.to_string(),
        approved_by_roles: vec![InstitutionalRole::Cto, InstitutionalRole::Ciso],
        correlation_id: "corr-1".to_string(),
    }
}

fn request(digest: &str, evidence: &str) -> ReleaseApprovalRequestV1 {
    ReleaseApprovalRequestV1 {
        release_id: "release-2026-03-06.1".to_string(),
        build_ref: "ghcr.io/shortorigin/release@sha256:test".to_string(),
        artifact_digest: digest.to_string(),
        test_evidence_ref: evidence.to_string(),
        environment: "prod".to_string(),
    }
}

#[test]
fn capability_grant_allows_only_configured_actions() {
    let grant = CapabilityGrant::new("security-gateway", &["inspect_packet", "emit_alert"]);

    assert!(grant.allows("inspect_packet"));
    assert_eq!(
        grant.require("reconfigure_listener"),
        Err(CapabilityError::Denied {
            service: "security-gateway".to_string(),
            action: "reconfigure_listener".to_string(),
        })
    );
}

#[test]
fn capability_grant_counts_repeated_actions_once() {
    let grant = CapabilityGrant::new("svc", &["read", "read", "write"]);
    assert_eq!(grant.service(), "svc");
    assert!(grant.allows("read"));
    assert!(grant.allows("write"));
    assert!(!grant.allows("delete"));
    assert_eq!(grant.require("write"), Ok(()));
    let error = grant.require("delete").unwrap_err();
    assert_eq!(error.message(), "capability grant for `svc` does not allow `delete`");
}

#[test]
fn parse_helper_preserves_category_and_source() {
    let error = InstitutionalError::parse_with_parser("config.toml", "toml", "bad key");
    assert_eq!(error.category(), InstitutionalErrorCategory::Parse);
    assert_eq!(error.context().operation, "toml");
    assert_eq!(
        error.source_info(),
        Some(&SourceErrorInfo::new("config.toml", Some("toml".to_string()), "bad key"))
    );
}

#[test]
fn persistence_helper_preserves_context_and_source() {
    let error = InstitutionalError::persistence(
        OperationContext::new("shared/surrealdb-access", "store"),
        "failed to store evidence",
        SourceErrorInfo::new("surrealdb", Some("upsert".to_string()), "record missing"),
    );
    assert_eq!(error.category(), InstitutionalErrorCategory::Persistence);
    assert_eq!(error.context().subsystem, "shared/surrealdb-access");
    assert_eq!(error.message(), "failed to store evidence");
    assert_eq!(
        error.source_info(),
        Some(&SourceErrorInfo::new("surrealdb", Some("upsert".to_string()), "record missing"))
    );
}

#[test]
fn error_constructors_keep_their_category_and_parts() {
    let ctx = || OperationContext::new("sub", "op");
    let cases = vec![
        (InstitutionalError::configuration(ctx(), "m"), InstitutionalErrorCategory::Configuration),
        (InstitutionalError::transport(ctx(), "m"), InstitutionalErrorCategory::Transport),
        (InstitutionalError::dependency_unavailable(ctx(), "m"), InstitutionalErrorCategory::DependencyUnavailable),
        (InstitutionalError::validation(ctx(), "m"), InstitutionalErrorCategory::Validation),
        (InstitutionalError::policy_denied(ctx(), "m"), InstitutionalErrorCategory::PolicyDenied),
        (InstitutionalError::approval_denied(ctx(), "m"), InstitutionalErrorCategory::ApprovalDenied),
        (InstitutionalError::not_found(ctx(), "m"), InstitutionalErrorCategory::NotFound),
        (InstitutionalError::invariant_violation(ctx(), "m"), InstitutionalErrorCategory::InvariantViolation),
        (InstitutionalError::identity_violation(ctx(), "m"), InstitutionalErrorCategory::IdentityViolation),
    ];
    for (error, category) in cases {
        assert_eq!(error.category(), category);
        assert_eq!(error.context(), &ctx());
        assert_eq!(error.message(), "m");
        assert_eq!(error.source_info(), None);
    }
}

#[test]
fn parse_and_external_errors_name_their_source() {
    let parse = InstitutionalError::parse("weather.json", "eof");
    assert_eq!(parse.category(), InstitutionalErrorCategory::Parse);
    assert_eq!(parse.context().subsystem, "parser");
    assert_eq!(parse.context().operation, "parse");
    assert_eq!(parse.message(), "failed to parse `weather.json`");
    assert_eq!(parse.source_info(), Some(&SourceErrorInfo::new("parse", None, "eof")));

    let external = InstitutionalError::external("surrealdb", None, "timeout");
    assert_eq!(external.category(), InstitutionalErrorCategory::Transport);
    assert_eq!(external.context().operation, "external");
    assert_eq!(external.message(), "dependency `surrealdb` operation failed");

    let named = InstitutionalError::external("nats", Some("publish".to_string()), "closed");
    assert_eq!(named.context().operation, "publish");
    assert_eq!(named.source_info().map(|s| s.details.clone()), Some("closed".to_string()));
}

#[test]
fn operation_context_carries_optional_ids() {
    let ctx = OperationContext::new("sub", "op")
        .with_service_id("svc")
        .with_workflow_id("wf")
        .with_correlation_id("corr");
    assert_eq!(ctx.subsystem, "sub");
    assert_eq!(ctx.operation, "op");
    assert_eq!(ctx.service_id.as_deref(), Some("svc"));
    assert_eq!(ctx.workflow_id.as_deref(), Some("wf"));
    assert_eq!(ctx.correlation_id.as_deref(), Some("corr"));
    let bare = OperationContext::new("sub", "op");
    assert_eq!(bare.service_id, None);
}

#[test]
fn error_display_names_category_and_message() {
    let error = InstitutionalError::not_found(OperationContext::new("sub", "op"), "release-1");
    assert_eq!(error.to_display_string(), "not found in `sub` during `op`: release-1");
}

#[test]
fn security_assessment_checks_digest_and_evidence() {
    let service = SecurityService;
    let ready = service.assess_release(&request("sha256:test", "evidence/tests/r1")).unwrap();
    assert!(ready.ready);
    assert_eq!(ready.summary, "security release controls satisfied for `release-2026-03-06.1`");
    assert_eq!(
        ready.control_refs,
        vec![
            "security.release/prod/artifact-integrity".to_string(),
            "security.release/prod/test-evidence".to_string(),
        ]
    );
    let bad_digest = service.assess_release(&request("md5:test", "evidence")).unwrap();
    assert!(!bad_digest.ready);
    assert_eq!(bad_digest.summary, "artifact digest must be a sha256 reference");
    let no_evidence = service.assess_release(&request("sha256:test", "  \t")).unwrap();
    assert!(!no_evidence.ready);
    assert_eq!(no_evidence.summary, "test evidence reference must not be empty");
}

fn assessment(ready: bool) -> SecurityReleaseAssessmentV1 {
    SecurityReleaseAssessmentV1 {
        release_id: "release-2026-03-06.1".to_string(),
        environment: "prod".to_string(),
        ready,
        control_refs: Vec::new(),
        summary: "not ready".to_string(),
    }
}

#[test]
fn engineering_approves_ready_releases_and_appends_audit_events() {
    let mut service = EngineeringService::new();
    let auth = authorization("release_approval", "engineering-service");
    let record = service
        .approve_release(&auth, request("sha256:test", "e"), &assessment(true), vec!["ev-1".to_string()], Vec::new())
        .unwrap();
    assert_eq!(record.release_id, "release-2026-03-06.1");
    assert_eq!(record.release_window_ref, "release-window/prod/release-2026-03-06.1");
    assert_eq!(record.approved_by_roles, vec![InstitutionalRole::Cto, InstitutionalRole::Ciso]);
    assert_eq!(service.release_approvals().len(), 1);

    let updated = service.append_audit_event("release-2026-03-06.1", "audit-1".to_string()).unwrap();
    assert_eq!(updated.audit_event_ids, vec!["audit-1".to_string()]);
    assert_eq!(service.release_approvals()[0].audit_event_ids, vec!["audit-1".to_string()]);

    let missing = service.append_audit_event("release-x", "audit-2".to_string()).unwrap_err();
    assert_eq!(missing.category(), InstitutionalErrorCategory::NotFound);
    assert_eq!(missing.message(), "release-x");
}

#[test]
fn engineering_refuses_unready_or_misdirected_releases() {
    let mut service = EngineeringService::new();
    let denied = service
        .approve_release(
            &authorization("release_approval", "engineering-service"),
            request("sha256:test", "e"),
            &assessment(false),
            Vec::new(),
            Vec::new(),
        )
        .unwrap_err();
    assert_eq!(denied.category(), InstitutionalErrorCategory::PolicyDenied);
    assert_eq!(denied.message(), "not ready");

    let misdirected = service
        .approve_release(
            &authorization("treasury_disbursement", "engineering-service"),
            request("sha256:test", "e"),
            &assessment(true),
            Vec::new(),
            Vec::new(),
        )
        .unwrap_err();
    assert_eq!(misdirected.category(), InstitutionalErrorCategory::InvariantViolation);
    assert_eq!(
        misdirected.message(),
        "mutation authorized for workflow `treasury_disbursement` but `release_approval` is required"
    );
    assert!(service.release_approvals().is_empty());
}

#[test]
fn finance_records_only_treasury_disbursements() {
    let mut finance: FinanceService<u64> = FinanceService::new();
    let record = finance
        .record_disbursement(&authorization("treasury_disbursement", "finance-service"), 250)
        .unwrap();
    assert_eq!(record.correlation_id, "corr-1");
    assert_eq!(record.request, 250);
    assert_eq!(finance.disbursements().len(), 1);

    let error = finance
        .record_disbursement(&authorization("treasury_disbursement", "risk-service"), 10)
        .unwrap_err();
    assert_eq!(error.category(), InstitutionalErrorCategory::InvariantViolation);
    assert_eq!(
        error.message(),
        "mutation authorized for service `risk-service` but `finance-service` is required"
    );
    assert_eq!(finance.disbursements().len(), 1);
}

#[test]
fn governance_approves_submitted_models_in_key_order() {
    let mut governance: GovernanceService<u32> = GovernanceService::new();
    governance.submit_model("momentum", "v2", "second");
    governance.submit_model("alpha", "v1", "first");
    governance.submit_model("carry", "v1", "third");
    governance.approve_model("momentum", "v2", "human.cio");
    governance.approve_model("alpha", "v1", "human.cio");
    governance.approve_model("unknown", "v9", "human.cio");
    assert_eq!(
        governance.approved_models(),
        vec!["alpha:v1".to_string(), "momentum:v2".to_string()]
    );

    let recorded = governance
        .record_recommendation(&authorization("quant_strategy_promotion", "governance-service"), 7)
        .unwrap();
    assert_eq!(recorded, 7);
    assert_eq!(governance.recommendations(), &[7]);
    let refused = governance
        .record_recommendation(&authorization("strategy_review", "governance-service"), 8)
        .unwrap_err();
    assert_eq!(refused.category(), InstitutionalErrorCategory::InvariantViolation);
    assert_eq!(governance.recommendations(), &[7]);
}

#[test]
fn governance_resubmission_resets_approval() {
    let mut governance: GovernanceService<u32> = GovernanceService::new();
    governance.submit_model("alpha", "v1", "first");
    governance.approve_model("alpha", "v1", "human.cio");
    governance.submit_model("alpha", "v1", "again");
    assert!(governance.approved_models().is_empty());
    let _ = ModelApprovalStatusV1::Pending;
}

#[test]
fn audit_risk_and_evidence_keep_what_they_are_given() {
    let snapshot = AuditService.snapshot(&[1, 2, 3], &["risk"], &[true, false]);
    assert_eq!(snapshot.evidence_count, 3);
    assert_eq!(snapshot.risk_count, 1);
    assert_eq!(snapshot.approval_count, 2);

    let mut risks: RiskService<&str> = RiskService::new();
    risks.register("r1");
    risks.register("r2");
    assert_eq!(risks.active_records(), &["r1", "r2"]);

    let mut sink: MemoryEvidenceSink<u8> = MemoryEvidenceSink::new();
    assert!(sink.is_empty());
    sink.record(4);
    sink.record(5);
    assert_eq!(sink.len(), 2);
    assert_eq!(sink.recorded(), &[4, 5]);

    let engine = WorkflowEngine::new(1u8, "approvals", sink);
    let (policy, approvals, evidence) = engine.into_parts();
    assert_eq!(policy, 1);
    assert_eq!(approvals, "approvals");
    assert_eq!(evidence.len(), 2);
}

#[test]
fn observations_keep_evidence_for_their_decision() {
    let observation = correlate_observation("runtime-plane", "high", "decision-42", Some("decision-42"));
    assert_eq!(observation.component, "runtime-plane");
    assert_eq!(observation.severity, "high");
    assert_eq!(observation.trace, Some("decision-42"));
    assert_eq!(observation.evidence.evidence_id, "evidence::decision-42");
    assert_eq!(observation.evidence.producer, "shared/security-instrumentation");
    assert_eq!(observation.evidence.artifact_hash, "sha256::decision-42");
    assert_eq!(observation.evidence.storage_ref, "memory://security-observation/decision-42");
    assert_eq!(observation.evidence.retention_class, "institutional_record");
    assert_eq!(observation.evidence.classification, Classification::Internal);
    assert_eq!(observation.evidence.related_decision_refs, vec!["decision-42"]);
}
