use origin_platform::contracts::{
    AgentActionRequestV1, Classification, ImpactTier, InstitutionalRole, ReleaseApprovalRecordV1,
    ReleaseApprovalRequestV1,
};
use origin_platform::error_model::InstitutionalErrorCategory;
use origin_platform::event_log::{RecentEventLog, MAX_RECENT_EVENTS};
use origin_platform::ordered::StrMap;
use origin_platform::platform::{
    dashboard_from, gateway_ack, memory_ack, payload_digest, recent_events_from,
    release_approval_submission, release_record_from, runs_release_approval, to_hex,
    workflows_from, NoopPlatformTransport, PlatformCommandAckV1, PlatformCommandResultV1,
    PlatformCommandV1, PlatformQueryResultV1, PlatformQueryV1, ShellSyncEvent,
    UiDashboardSnapshotV1,
};

fn args(v: &[&str]) -> Vec<String> {
    v.iter().map(|s| s.to_string()).collect()
}

fn dashboard() -> UiDashboardSnapshotV1 {
    UiDashboardSnapshotV1 {
        client_name: "short-origin-shell".to_string(),
        services: Vec::new(),
        workflows: Vec::new(),
        lattice: None,
        release_apps: Vec::new(),
        connected_cache: true,
    }
}

#[test]
fn payload_digest_is_hex_sha256() {
    assert_eq!(
        payload_digest(""),
        "e3b0c44298fc1c149afbf4c8996fb92427ae41e4649b934ca495991b7852b855"
    );
    assert_eq!(
        payload_digest("abc"),
        "ba7816bf8f01cfea414140de5dae2223b00361a396177a9cb410ff61f20015ad"
    );
    assert_eq!(payload_digest("{\"action_id\":\"a\"}").len(), 64);
}

#[test]
fn hex_text_has_two_lowercase_digits_per_byte() {
    assert_eq!(to_hex(&[]), "");
    assert_eq!(to_hex(&[0x00, 0x0f, 0xa0, 0xff]), "000fa0ff");
}

#[test]
fn shell_release_submission_builds_action_and_request() {
    let (action, request) = release_approval_submission(&args(&[
        "release-2026-03-06.1",
        "ghcr.io/shortorigin/release@sha256:test",
        "sha256:test",
        "evidence/tests/release-2026-03-06.1",
        "prod",
    ]))
    .expect("submission");
    assert_eq!(
        action,
        AgentActionRequestV1 {
            action_id: "action::release::release-2026-03-06.1".to_string(),
            actor_ref: "human.release_operator".to_string(),
            objective: "Approve governed release `release-2026-03-06.1`".to_string(),
            requested_workflow: "release_approval".to_string(),
            impact_tier: ImpactTier::Tier3,
            classification: Classification::Restricted,
            required_approver_roles: vec![InstitutionalRole::Cto, InstitutionalRole::Ciso],
            policy_refs: vec!["engineering.release.approval.v1".to_string()],
        }
    );
    assert_eq!(
        request,
        ReleaseApprovalRequestV1 {
            release_id: "release-2026-03-06.1".to_string(),
            build_ref: "ghcr.io/shortorigin/release@sha256:test".to_string(),
            artifact_digest: "sha256:test".to_string(),
            test_evidence_ref: "evidence/tests/release-2026-03-06.1".to_string(),
            environment: "prod".to_string(),
        }
    );
}

#[test]
fn shell_release_submission_needs_five_arguments() {
    let usage = "usage: workflow release-approval submit <release-id> <build-ref> <artifact-digest> <test-evidence-ref> <environment>";
    assert_eq!(release_approval_submission(&args(&["only-one"])), Err(usage.to_string()));
    assert_eq!(release_approval_submission(&[]), Err(usage.to_string()));
}

#[test]
fn query_results_are_unpacked_by_kind() {
    let result: PlatformQueryResultV1<u8> = PlatformQueryResultV1::Dashboard(dashboard());
    assert_eq!(dashboard_from(result), Ok(dashboard()));
    let wrong: PlatformQueryResultV1<u8> = PlatformQueryResultV1::RecentEvents(vec![1]);
    let error = dashboard_from(wrong).unwrap_err();
    assert_eq!(error.category(), InstitutionalErrorCategory::InvariantViolation);
    assert_eq!(error.message(), "dashboard query returned non-dashboard payload");

    let events: PlatformQueryResultV1<u8> = PlatformQueryResultV1::RecentEvents(vec![3, 2]);
    assert_eq!(recent_events_from(events), Ok(vec![3, 2]));
    let not_events: PlatformQueryResultV1<u8> = PlatformQueryResultV1::SupportedWorkflows(Vec::new());
    assert_eq!(
        recent_events_from(not_events).unwrap_err().message(),
        "recent events query returned non-event payload"
    );
    let workflows: PlatformQueryResultV1<u8> = PlatformQueryResultV1::SupportedWorkflows(Vec::new());
    assert_eq!(workflows_from(workflows), Ok(Vec::new()));
    let not_workflows: PlatformQueryResultV1<u8> = PlatformQueryResultV1::Dashboard(dashboard());
    assert_eq!(
        workflows_from(not_workflows).unwrap_err().message(),
        "workflow query returned non-workflow payload"
    );
}

#[test]
fn command_results_are_unpacked_by_kind() {
    let record = ReleaseApprovalRecordV1 {
        release_id: "r1".to_string(),
        environment: "prod".to_string(),
        release_window_ref: "release-window/prod/r1".to_string(),
        approved_by_roles: vec![InstitutionalRole::Cto],
        evidence_refs: Vec::new(),
        audit_event_ids: Vec::new(),
    };
    let expected = ReleaseApprovalRecordV1 { release_id: "r1".to_string(), ..record.duplicate() };
    assert_eq!(release_record_from(PlatformCommandResultV1::ReleaseApproval(record)), Ok(expected));
    let ack = PlatformCommandResultV1::Ack(gateway_ack());
    assert_eq!(
        release_record_from(ack).unwrap_err().message(),
        "release approval command returned non-release payload"
    );
    assert_eq!(
        gateway_ack(),
        PlatformCommandAckV1 { command_id: "platform-gateway-ack".to_string(), accepted: true }
    );
    assert_eq!(memory_ack().command_id, "memory-ack");
}

#[test]
fn only_release_submissions_run_the_workflow() {
    let action = release_approval_submission(&args(&["r", "b", "sha256:d", "e", "prod"])).unwrap();
    let submit: PlatformCommandV1<(), (), ()> =
        PlatformCommandV1::SubmitReleaseApproval { action: action.0, request: action.1 };
    assert!(runs_release_approval(&submit));
    let other: PlatformCommandV1<(), u8, ()> = PlatformCommandV1::RegisterMarketDataBatch(1);
    assert!(!runs_release_approval(&other));
}

#[test]
fn noop_transport_refuses_everything() {
    let transport = NoopPlatformTransport;
    let command: PlatformCommandV1<(), u8, ()> = PlatformCommandV1::RegisterMarketDataBatch(1);
    let error = transport.execute_command(command).unwrap_err();
    assert_eq!(error.category(), InstitutionalErrorCategory::PolicyDenied);
    assert_eq!(error.message(), "no platform transport configured");
    assert_eq!(error.context().operation, "execute_command");
    let error = transport.execute_query::<u8>(PlatformQueryV1::Dashboard).unwrap_err();
    assert_eq!(error.context().operation, "execute_query");
}

#[test]
fn shell_sync_events_have_messages() {
    assert_eq!(ShellSyncEvent::ThemeChanged.as_message(), "theme-changed");
    assert_eq!(ShellSyncEvent::WallpaperChanged.as_message(), "wallpaper-changed");
    assert_eq!(ShellSyncEvent::LayoutChanged.as_message(), "layout-changed");
}

#[test]
fn recent_event_log_keeps_the_newest_events() {
    let mut log: RecentEventLog<usize> = RecentEventLog::new();
    for i in 0..(MAX_RECENT_EVENTS + 6) {
        log.push(i);
    }
    assert_eq!(log.len(), MAX_RECENT_EVENTS);
    let newest = log.recent(3);
    assert_eq!(newest, vec![&69, &68, &67]);
    let all = log.recent(1000);
    assert_eq!(all.len(), 64);
    assert_eq!(*all[63], 6);
    assert!(log.recent(0).is_empty());
}

#[test]
fn ordered_map_reads_back_what_was_written() {
    let mut map: StrMap<u32> = StrMap::new();
    assert_eq!(map.insert("b".to_string(), 2), None);
    assert_eq!(map.insert("a".to_string(), 1), None);
    assert_eq!(map.insert("b".to_string(), 3), Some(2));
    assert_eq!(map.len(), 2);
    assert_eq!(map.get("a"), Some(&1));
    assert_eq!(map.get("b"), Some(&3));
    assert_eq!(map.get("c"), None);
    assert_eq!(map.get_index("a"), Some(0));
    assert_eq!(map.get_index("b"), Some(1));
    assert_eq!(*map.value_at(1), 3);
    assert_eq!(map.set_value_at(0, 10), 1);
    assert_eq!(map.get("a"), Some(&10));
}
