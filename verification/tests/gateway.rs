use origin_platform::gateway::{gateway_event, retain_delivered, GatewayEventV1};
use origin_platform::platform::payload_digest;
use origin_platform::component_descriptors::{engineering_service, release_approval, security_service};
use origin_platform::contracts::{AgentActionRequestV1, Classification, ImpactTier, WorkflowBoundaryV1};
use origin_platform::gateway::{
    emitted_event_types, release_outcome_event, release_requested_event, role_name, InstitutionalPlatformClientV1, MemoryPlatformTransport,
    PlatformGateway,
};
use origin_platform::error_model::{InstitutionalError, OperationContext};
use origin_platform::contracts::{InstitutionalRole, ReleaseApprovalRecordV1};
use origin_platform::governance;
use origin_platform::lattice::{rollout_target_for_environment, LatticeConfigV1};
use origin_platform::platform::{
    PlatformCommandResultV1, PlatformCommandV1, PlatformQueryResultV1, PlatformQueryV1, ReleasedUiAppV1,
};

fn release_apps() -> Vec<ReleasedUiAppV1> {
    vec![ReleasedUiAppV1 {
        app_id: "system.terminal".to_string(),
        display_name: "Terminal".to_string(),
        desktop_enabled: true,
    }]
}

fn workflow(name: &str) -> WorkflowBoundaryV1 {
    WorkflowBoundaryV1 {
        workflow_name: name.to_string(),
        touched_domains: vec!["strategy_governance".to_string()],
        target_services: vec!["governance-service".to_string()],
        emits_evidence: true,
        mutation_path_only: true,
    }
}

fn manifest() -> InstitutionalPlatformClientV1 {
    InstitutionalPlatformClientV1 {
        client_name: "short-origin-shell".to_string(),
        supported_services: vec![governance::service_boundary()],
        supported_workflows: vec![workflow("strategy_review")],
        lattice_config: Some(LatticeConfigV1 {
            lattice_name: "institutional-lattice".to_string(),
            rollout: rollout_target_for_environment("prod"),
            components: vec![
                engineering_service::component_binding(),
                security_service::component_binding(),
                release_approval::component_binding(),
            ],
        }),
    }
}

fn action() -> AgentActionRequestV1 {
    AgentActionRequestV1 {
        action_id: "action-1".to_string(),
        actor_ref: "ui-shell".to_string(),
        objective: "noop".to_string(),
        requested_workflow: "release_approval".to_string(),
        impact_tier: ImpactTier::Tier0,
        classification: Classification::Internal,
        required_approver_roles: Vec::new(),
        policy_refs: vec!["policy.test.v1".to_string()],
    }
}

#[test]
fn memory_transport_serves_dashboard_and_events() {
    let manifest = InstitutionalPlatformClientV1 {
        client_name: "ui-shell".to_string(),
        supported_services: Vec::new(),
        supported_workflows: Vec::new(),
        lattice_config: None,
    };
    let dashboard = manifest.dashboard_snapshot(
        vec![ReleasedUiAppV1 {
            app_id: "system.control-center".to_string(),
            display_name: "Control Center".to_string(),
            desktop_enabled: true,
        }],
        true,
    );
    let expected = manifest.dashboard_snapshot(
        vec![ReleasedUiAppV1 {
            app_id: "system.control-center".to_string(),
            display_name: "Control Center".to_string(),
            desktop_enabled: true,
        }],
        true,
    );
    let event = "shell.started".to_string();
    let transport = MemoryPlatformTransport::new(dashboard, vec![event.clone()]);

    assert_eq!(
        transport.execute_query(PlatformQueryV1::Dashboard),
        Ok(PlatformQueryResultV1::Dashboard(expected))
    );
    assert_eq!(
        transport.execute_query(PlatformQueryV1::SupportedWorkflows),
        Ok(PlatformQueryResultV1::SupportedWorkflows(Vec::new()))
    );
    let command: PlatformCommandV1<(), (), ()> = PlatformCommandV1::DispatchAgentAction(action());
    assert!(matches!(transport.execute_command(command), Ok(PlatformCommandResultV1::Ack(_))));
    assert_eq!(transport.subscribe_events(), vec![event]);
}

#[test]
fn memory_transport_serves_the_first_recent_events() {
    let dashboard = manifest().dashboard_snapshot(Vec::new(), false);
    let transport = MemoryPlatformTransport::new(dashboard, vec![1u32, 2, 3]);
    assert_eq!(
        transport.execute_query(PlatformQueryV1::RecentEvents { limit: 2 }),
        Ok(PlatformQueryResultV1::RecentEvents(vec![1, 2]))
    );
    assert_eq!(
        transport.execute_query(PlatformQueryV1::RecentEvents { limit: 10 }),
        Ok(PlatformQueryResultV1::RecentEvents(vec![1, 2, 3]))
    );
}

#[test]
fn client_passes_requests_through_and_describes_its_dashboard() {
    let client = manifest();
    assert_eq!(client.prepare_action(action()), action());
    assert_eq!(client.receive_event(7u8), 7);
    assert_eq!(client.register_market_data_batch("batch"), "batch");
    assert_eq!(client.submit_promotion_recommendation(3i32), 3);
    assert_eq!(client.prepare_quant_strategy_promotion(action(), 5u8), (action(), 5));

    let dashboard = client.dashboard_snapshot(release_apps(), true);
    assert_eq!(dashboard.client_name, "short-origin-shell");
    assert_eq!(dashboard.services, vec![governance::service_boundary()]);
    assert_eq!(dashboard.workflows, vec![workflow("strategy_review")]);
    assert_eq!(dashboard.lattice, client.lattice_config);
    assert_eq!(dashboard.release_apps, release_apps());
    assert!(dashboard.connected_cache);
    assert_eq!(client.duplicate(), client);
}

#[test]
fn gateway_serves_dashboard_workflows_and_newest_events() {
    let mut gateway: PlatformGateway<String> = PlatformGateway::new(manifest(), release_apps(), true);
    assert_eq!(gateway.manifest(), manifest());
    assert_eq!(gateway.dashboard_snapshot(), manifest().dashboard_snapshot(release_apps(), true));
    assert_eq!(
        gateway.execute_query(PlatformQueryV1::SupportedWorkflows),
        Ok(PlatformQueryResultV1::SupportedWorkflows(vec![workflow("strategy_review")]))
    );
    gateway.emit_event("release_approval_requested".to_string());
    gateway.emit_event("release_approval_approved".to_string());
    assert_eq!(
        gateway.execute_query(PlatformQueryV1::RecentEvents { limit: 8 }),
        Ok(PlatformQueryResultV1::RecentEvents(vec![
            "release_approval_approved".to_string(),
            "release_approval_requested".to_string(),
        ]))
    );
    assert_eq!(
        gateway.execute_query(PlatformQueryV1::RecentEvents { limit: 1 }),
        Ok(PlatformQueryResultV1::RecentEvents(vec!["release_approval_approved".to_string()]))
    );
}

#[test]
fn gateway_acknowledges_everything_but_release_submissions() {
    let gateway: PlatformGateway<String> = PlatformGateway::new(manifest(), Vec::new(), false);
    let dispatch: PlatformCommandV1<(), (), ()> = PlatformCommandV1::DispatchAgentAction(action());
    match gateway.acknowledge(&dispatch) {
        Some(PlatformCommandResultV1::Ack(ack)) => {
            assert_eq!(ack.command_id, "platform-gateway-ack");
            assert!(ack.accepted);
        }
        other => panic!("unexpected {other:?}"),
    }
    let submission: PlatformCommandV1<(), (), ()> = PlatformCommandV1::SubmitReleaseApproval {
        action: action(),
        request: origin_platform::contracts::ReleaseApprovalRequestV1 {
            release_id: "r".to_string(),
            build_ref: "b".to_string(),
            artifact_digest: "sha256:d".to_string(),
            test_evidence_ref: "e".to_string(),
            environment: "prod".to_string(),
        },
    };
    assert_eq!(gateway.acknowledge(&submission), None);
}

#[test]
fn release_events_record_request_and_outcome() {
    let mut restricted = action();
    restricted.action_id = "action::release::r1".to_string();
    restricted.classification = Classification::Restricted;

    let requested = release_requested_event(&restricted);
    assert_eq!(requested.event_type, "release_approval_requested");
    assert_eq!(requested.correlation_id, "action::release::r1");
    assert_eq!(requested.decision_ref, None);
    assert_eq!(requested.classification, Classification::Restricted);
    assert_eq!(requested.schema_ref, "schemas/events/platform/v1/release-approval-requested-v1.json");

    let record = ReleaseApprovalRecordV1 {
        release_id: "r1".to_string(),
        environment: "prod".to_string(),
        release_window_ref: "release-window/prod/r1".to_string(),
        approved_by_roles: vec![InstitutionalRole::Cto, InstitutionalRole::Ciso],
        evidence_refs: Vec::new(),
        audit_event_ids: Vec::new(),
    };
    let approved = release_outcome_event(&restricted, &Ok(record));
    assert_eq!(approved.event_type, "release_approval_approved");
    assert_eq!(approved.decision_ref.as_deref(), Some("release-approval/r1"));
    assert_eq!(approved.schema_ref, "schemas/events/platform/v1/release-approval-approved-v1.json");

    let denied = release_outcome_event(
        &restricted,
        &Err(InstitutionalError::policy_denied(OperationContext::new("s", "o"), "not ready")),
    );
    assert_eq!(denied.event_type, "release_approval_denied");
    assert_eq!(denied.decision_ref, None);
    assert_eq!(denied.correlation_id, "action::release::r1");
    assert_eq!(denied.schema_ref, "schemas/events/platform/v1/release-approval-denied-v1.json");
}

#[test]
fn shell_reports_the_events_of_its_action() {
    let mut mine = action();
    mine.action_id = "action::release::r1".to_string();
    let mut other = action();
    other.action_id = "action::release::r2".to_string();
    let events = vec![
        release_requested_event(&mine),
        release_requested_event(&other),
        release_outcome_event(
            &mine,
            &Err(InstitutionalError::policy_denied(OperationContext::new("s", "o"), "not ready")),
        ),
    ];
    assert_eq!(
        emitted_event_types(&events, "action::release::r1"),
        vec!["release_approval_requested".to_string(), "release_approval_denied".to_string()]
    );
    assert!(emitted_event_types(&events, "action::release::r3").is_empty());
    assert_eq!(role_name(InstitutionalRole::Cto), "Cto");
    assert_eq!(role_name(InstitutionalRole::Ciso), "Ciso");
}

#[test]
fn gateway_records_release_approval_runs() {

    let mut gateway: PlatformGateway<GatewayEventV1> = PlatformGateway::new(manifest(), release_apps(), true);
    let mut release = action();
    release.action_id = "action::release::r1".to_string();
    release.actor_ref = "human.release_operator".to_string();
    let record = ReleaseApprovalRecordV1 {
        release_id: "r1".to_string(),
        environment: "prod".to_string(),
        release_window_ref: "release-window/prod/r1".to_string(),
        approved_by_roles: vec![InstitutionalRole::Cto, InstitutionalRole::Ciso],
        evidence_refs: Vec::new(),
        audit_event_ids: Vec::new(),
    };
    let expected = record.duplicate();
    let answer = gateway.record_release_approval(&release, "{\"requested\":1}", Ok(record), "{\"approved\":1}");
    assert_eq!(answer, Ok(PlatformCommandResultV1::ReleaseApproval(expected)));

    let events = match gateway.execute_query(PlatformQueryV1::RecentEvents { limit: 8 }) {
        Ok(PlatformQueryResultV1::RecentEvents(events)) => events,
        other => panic!("unexpected {other:?}"),
    };
    assert_eq!(events.len(), 2);
    assert_eq!(events[0].header.event_type, "release_approval_approved");
    assert_eq!(events[0].header.decision_ref.as_deref(), Some("release-approval/r1"));
    assert_eq!(events[0].payload_hash, payload_digest("{\"approved\":1}"));
    assert_eq!(events[1].header.event_type, "release_approval_requested");
    assert_eq!(events[1].header.actor_ref, "human.release_operator");
    assert_eq!(events[1].payload_hash, payload_digest("{\"requested\":1}"));

    let denied = gateway.record_release_approval(
        &release,
        "{}",
        Err(InstitutionalError::policy_denied(OperationContext::new("s", "o"), "not ready")),
        "{\"denied\":1}",
    );
    assert_eq!(
        denied,
        Err(InstitutionalError::policy_denied(OperationContext::new("s", "o"), "not ready"))
    );

    assert_eq!(retain_delivered(vec!["a", "b", "c"], &[true, false, true]), vec!["a", "c"]);
    assert!(retain_delivered(Vec::<u8>::new(), &[]).is_empty());
}

#[test]
fn emitted_events_carry_the_payload_digest() {
    let mut gateway: PlatformGateway<GatewayEventV1> = PlatformGateway::new(manifest(), Vec::new(), false);
    let event = gateway.emit(release_requested_event(&action()), "");
    assert_eq!(event.payload_hash, "e3b0c44298fc1c149afbf4c8996fb92427ae41e4649b934ca495991b7852b855");
    assert_eq!(event, gateway_event(release_requested_event(&action()), ""));
    assert_eq!(event.header.actor_ref, "ui-shell");
}
