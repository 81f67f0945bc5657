//! The platform's client-facing contract: released apps, commands, queries
//! and their results, how a client checks a result's kind, the gateway's
//! routing of commands, the digest of event payloads, the shell's release
//! approval command and the shell's cross-tab sync events.

use vstd::prelude::*;
use sha2::Digest;
use vstd::string::StringSliceAdditionalSpecFns;
use crate::contracts::{
    AgentActionRequestV1, Classification, ImpactTier, InstitutionalRole, ReleaseApprovalRecordV1,
    ReleaseApprovalRequestV1, ServiceBoundaryV1, WorkflowBoundaryV1,
};
use crate::error_model::{InstitutionalError, InstitutionalErrorCategory, OperationContext};
use crate::lattice::LatticeConfigV1;
use crate::text::{concat2, concat3, owned};

verus! {

/// An app released to the desktop shell.
#[derive(Debug, PartialEq, Eq)]
pub struct ReleasedUiAppV1 {
    pub app_id: String,
    pub display_name: String,
    pub desktop_enabled: bool,
}

/// What the shell's dashboard shows.
#[derive(Debug, PartialEq, Eq)]
pub struct UiDashboardSnapshotV1 {
    pub client_name: String,
    pub services: Vec<ServiceBoundaryV1>,
    pub workflows: Vec<WorkflowBoundaryV1>,
    pub lattice: Option<LatticeConfigV1>,
    pub release_apps: Vec<ReleasedUiAppV1>,
    pub connected_cache: bool,
}

/// A command sent to the platform; `Q`, `M` and `P` are the strategy
/// promotion request, the market data batch and the promotion
/// recommendation it carries.
#[derive(Debug, PartialEq, Eq)]
pub enum PlatformCommandV1<Q, M, P> {
    DispatchAgentAction(AgentActionRequestV1),
    SubmitReleaseApproval { action: AgentActionRequestV1, request: ReleaseApprovalRequestV1 },
    PreparePromotion { action: AgentActionRequestV1, request: Q },
    RegisterMarketDataBatch(M),
    SubmitPromotionRecommendation(P),
}

/// The acknowledgement of a command.
#[derive(Debug, PartialEq, Eq)]
pub struct PlatformCommandAckV1 {
    pub command_id: String,
    pub accepted: bool,
}

/// The result of a command.
#[derive(Debug, PartialEq, Eq)]
pub enum PlatformCommandResultV1 {
    Ack(PlatformCommandAckV1),
    ReleaseApproval(ReleaseApprovalRecordV1),
}

/// A query sent to the platform.
#[derive(Debug, Clone, Copy, PartialEq, Eq)]
pub enum PlatformQueryV1 {
    Dashboard,
    SupportedWorkflows,
    RecentEvents { limit: usize },
}

/// The result of a query; `E` is the event envelope.
#[derive(Debug, PartialEq, Eq)]
pub enum PlatformQueryResultV1<E> {
    Dashboard(UiDashboardSnapshotV1),
    SupportedWorkflows(Vec<WorkflowBoundaryV1>),
    RecentEvents(Vec<E>),
}

fn sdk_error(operation: &str, message: &str) -> (e: InstitutionalError)
    ensures
        e.kind() == InstitutionalErrorCategory::InvariantViolation,
        e.ctx().subsystem@ == "platform/sdk"@,
        e.ctx().operation@ == operation@,
        e.msg()@ == message@,
{
    InstitutionalError::invariant_violation(OperationContext::new("platform/sdk", operation), message)
}

/// The dashboard of a dashboard query's result; any other payload is an
/// invariant violation.
pub fn dashboard_from<E>(result: PlatformQueryResultV1<E>) -> (r: Result<UiDashboardSnapshotV1, InstitutionalError>)
    ensures
        match result {
            PlatformQueryResultV1::Dashboard(s) => r == Ok::<UiDashboardSnapshotV1, InstitutionalError>(s),
            _ => r matches Err(e) && e.kind() == InstitutionalErrorCategory::InvariantViolation
                && e.msg()@ == "dashboard query returned non-dashboard payload"@,
        },
{
    match result {
        PlatformQueryResultV1::Dashboard(s) => Ok(s),
        _ => Err(sdk_error("query_dashboard", "dashboard query returned non-dashboard payload")),
    }
}

/// The workflows of a supported-workflows query's result; any other
/// payload is an invariant violation.
pub fn workflows_from<E>(result: PlatformQueryResultV1<E>) -> (r: Result<Vec<WorkflowBoundaryV1>, InstitutionalError>)
    ensures
        match result {
            PlatformQueryResultV1::SupportedWorkflows(w) => r == Ok::<Vec<WorkflowBoundaryV1>, InstitutionalError>(w),
            _ => r matches Err(e) && e.kind() == InstitutionalErrorCategory::InvariantViolation
                && e.msg()@ == "workflow query returned non-workflow payload"@,
        },
{
    match result {
        PlatformQueryResultV1::SupportedWorkflows(w) => Ok(w),
        _ => Err(sdk_error("query_supported_workflows", "workflow query returned non-workflow payload")),
    }
}

/// The events of a recent-events query's result; any other payload is an
/// invariant violation.
pub fn recent_events_from<E>(result: PlatformQueryResultV1<E>) -> (r: Result<Vec<E>, InstitutionalError>)
    ensures
        match result {
            PlatformQueryResultV1::RecentEvents(v) => r == Ok::<Vec<E>, InstitutionalError>(v),
            _ => r matches Err(e) && e.kind() == InstitutionalErrorCategory::InvariantViolation
                && e.msg()@ == "recent events query returned non-event payload"@,
        },
{
    match result {
        PlatformQueryResultV1::RecentEvents(v) => Ok(v),
        _ => Err(sdk_error("query_recent_events", "recent events query returned non-event payload")),
    }
}

/// The record of a release approval command's result; an acknowledgement
/// is an invariant violation.
pub fn release_record_from(result: PlatformCommandResultV1) -> (r: Result<ReleaseApprovalRecordV1, InstitutionalError>)
    ensures
        match result {
            PlatformCommandResultV1::ReleaseApproval(rec) => r == Ok::<ReleaseApprovalRecordV1, InstitutionalError>(rec),
            PlatformCommandResultV1::Ack(_) => r matches Err(e)
                && e.kind() == InstitutionalErrorCategory::InvariantViolation
                && e.msg()@ == "release approval command returned non-release payload"@,
        },
{
    match result {
        PlatformCommandResultV1::ReleaseApproval(rec) => Ok(rec),
        PlatformCommandResultV1::Ack(_) => Err(sdk_error("submit_release_approval",
            "release approval command returned non-release payload")),
    }
}

/// A transport that refuses everything.
#[derive(Debug, Clone, Copy, Default)]
pub struct NoopPlatformTransport;

/// The refusal of a transport that is not configured.
pub open spec fn unconfigured(e: InstitutionalError) -> bool {
    &&& e.kind() == InstitutionalErrorCategory::PolicyDenied
    &&& e.ctx().subsystem@ == "platform/sdk"@
    &&& e.msg()@ == "no platform transport configured"@
}

impl NoopPlatformTransport {
    /// Refuses the command.
    pub fn execute_command<Q, M, P>(&self, command: PlatformCommandV1<Q, M, P>)
        -> (r: Result<PlatformCommandResultV1, InstitutionalError>)
        ensures
            r matches Err(e) && unconfigured(e) && e.ctx().operation@ == "execute_command"@,
    {
        Err(InstitutionalError::policy_denied(
            OperationContext::new("platform/sdk", "execute_command"),
            "no platform transport configured",
        ))
    }

    /// Refuses the query.
    pub fn execute_query<E>(&self, query: PlatformQueryV1)
        -> (r: Result<PlatformQueryResultV1<E>, InstitutionalError>)
        ensures
            r matches Err(e) && unconfigured(e) && e.ctx().operation@ == "execute_query"@,
    {
        Err(InstitutionalError::policy_denied(
            OperationContext::new("platform/sdk", "execute_query"),
            "no platform transport configured",
        ))
    }
}

/// Whether the gateway runs a command through the release approval
/// workflow; every other command is acknowledged.
pub fn runs_release_approval<Q, M, P>(command: &PlatformCommandV1<Q, M, P>) -> (b: bool)
    ensures
        b == (command is SubmitReleaseApproval),
{
    match command {
        PlatformCommandV1::SubmitReleaseApproval { .. } => true,
        _ => false,
    }
}

/// The gateway's acknowledgement of a command it does not run.
pub fn gateway_ack() -> (a: PlatformCommandAckV1)
    ensures
        a.command_id@ == "platform-gateway-ack"@,
        a.accepted,
{
    PlatformCommandAckV1 { command_id: owned("platform-gateway-ack"), accepted: true }
}

/// The in-memory transport's acknowledgement of a command.
pub fn memory_ack() -> (a: PlatformCommandAckV1)
    ensures
        a.command_id@ == "memory-ack"@,
        a.accepted,
{
    PlatformCommandAckV1 { command_id: owned("memory-ack"), accepted: true }
}

/// The digest of a byte string under SHA-256.
pub uninterp spec fn sha256_digest(data: Seq<u8>) -> Seq<u8>;

/// SHA-256 of `data` (`sha2::Sha256::digest`): a 32-byte digest that
/// depends on the data alone.
#[verifier::external_body]
fn sha256(data: &[u8]) -> (r: Vec<u8>)
    ensures
        r@ == sha256_digest(data@),
        r@.len() == 32,
{
    sha2::Sha256::digest(data).to_vec()
}

/// The lowercase hexadecimal digit of `n < 16`.
pub open spec fn hex_digit(n: int) -> char {
    if n < 10 {
        crate::text::digit_char(n as nat)
    } else if n == 10 { 'a' } else if n == 11 { 'b' } else if n == 12 { 'c' }
    else if n == 13 { 'd' } else if n == 14 { 'e' } else { 'f' }
}

/// Lowercase hexadecimal text of bytes, two digits per byte.
pub open spec fn hex_lower(bytes: Seq<u8>) -> Seq<char>
    decreases bytes.len(),
{
    if bytes.len() == 0 {
        Seq::empty()
    } else {
        hex_lower(bytes.drop_last()) + seq![hex_digit((bytes.last() / 16) as int), hex_digit((bytes.last() % 16) as int)]
    }
}

fn hex_char(n: u8) -> (c: char)
    requires
        n < 16,
    ensures
        c == hex_digit(n as int),
{
    if n == 0 { '0' } else if n == 1 { '1' } else if n == 2 { '2' } else if n == 3 { '3' }
    else if n == 4 { '4' } else if n == 5 { '5' } else if n == 6 { '6' } else if n == 7 { '7' }
    else if n == 8 { '8' } else if n == 9 { '9' } else if n == 10 { 'a' } else if n == 11 { 'b' }
    else if n == 12 { 'c' } else if n == 13 { 'd' } else if n == 14 { 'e' } else { 'f' }
}

/// The lowercase hexadecimal text of bytes.
pub fn to_hex(bytes: &[u8]) -> (s: String)
    ensures
        s@ == hex_lower(bytes@),
{
    let mut s = String::new();
    let mut i: usize = 0;
    while i < bytes.len()
        invariant
            i <= bytes.len(),
            s@ == hex_lower(bytes@.subrange(0, i as int)),
        decreases bytes.len() - i,
    {
        let b = bytes[i];
        crate::text::push_char(&mut s, hex_char(b / 16));
        crate::text::push_char(&mut s, hex_char(b % 16));
        let ghost sub = bytes@.subrange(0, i + 1);
        assert(sub.drop_last() =~= bytes@.subrange(0, i as int));
        assert(sub.last() == b);
        assert(s@ =~= hex_lower(sub));
        i = i + 1;
    }
    assert(bytes@.subrange(0, i as int) =~= bytes@);
    s
}

/// The digest an event envelope records of its payload: lowercase hex of
/// the SHA-256 of the payload's JSON text.
pub fn payload_digest(payload_json: &str) -> (d: String)
    ensures
        d@ == hex_lower(sha256_digest(payload_json.spec_bytes())),
        d@.len() == 64,
{
    let digest = sha256(payload_json.as_bytes());
    let d = to_hex(digest.as_slice());
    proof {
        lemma_hex_len(digest@);
    }
    d
}

proof fn lemma_hex_len(bytes: Seq<u8>)
    ensures
        hex_lower(bytes).len() == 2 * bytes.len(),
    decreases bytes.len(),
{
    if bytes.len() > 0 {
        lemma_hex_len(bytes.drop_last());
    }
}

/// The usage line of the shell's release approval command.
pub open spec fn release_usage() -> Seq<char> {
    "usage: workflow release-approval submit <release-id> <build-ref> <artifact-digest> <test-evidence-ref> <environment>"@
}

/// The action and request the shell's `workflow release-approval submit`
/// command sends for its five arguments: release id, build reference,
/// artifact digest, test evidence reference and environment. Any other
/// number of arguments is answered with the usage line.
pub fn release_approval_submission(args: &[String])
    -> (r: Result<(AgentActionRequestV1, ReleaseApprovalRequestV1), String>)
    ensures
        match r {
            Err(usage) => args.len() != 5 && usage@ == release_usage(),
            Ok((action, request)) => {
                &&& args.len() == 5
                &&& action.action_id@ == "action::release::"@ + args[0]@
                &&& action.actor_ref@ == "human.release_operator"@
                &&& action.objective@ == "Approve governed release `"@ + args[0]@ + "`"@
                &&& action.requested_workflow@ == "release_approval"@
                &&& action.impact_tier == ImpactTier::Tier3
                &&& action.classification == Classification::Restricted
                &&& action.required_approver_roles@ == seq![InstitutionalRole::Cto, InstitutionalRole::Ciso]
                &&& crate::command_plan::strs(action.policy_refs@) == seq!["engineering.release.approval.v1"@]
                &&& request.release_id@ == args[0]@
                &&& request.build_ref@ == args[1]@
                &&& request.artifact_digest@ == args[2]@
                &&& request.test_evidence_ref@ == args[3]@
                &&& request.environment@ == args[4]@
            },
        },
{
    if args.len() != 5 {
        return Err(owned(
            "usage: workflow release-approval submit <release-id> <build-ref> <artifact-digest> <test-evidence-ref> <environment>",
        ));
    }
    let mut roles: Vec<InstitutionalRole> = Vec::new();
    roles.push(InstitutionalRole::Cto);
    roles.push(InstitutionalRole::Ciso);
    assert(roles@ =~= seq![InstitutionalRole::Cto, InstitutionalRole::Ciso]);
    let mut policies: Vec<String> = Vec::new();
    policies.push(owned("engineering.release.approval.v1"));
    assert(crate::command_plan::strs(policies@) =~= seq!["engineering.release.approval.v1"@]);
    let action = AgentActionRequestV1 {
        action_id: concat2("action::release::", args[0].as_str()),
        actor_ref: owned("human.release_operator"),
        objective: concat3("Approve governed release `", args[0].as_str(), "`"),
        requested_workflow: owned("release_approval"),
        impact_tier: ImpactTier::Tier3,
        classification: Classification::Restricted,
        required_approver_roles: roles,
        policy_refs: policies,
    };
    let request = ReleaseApprovalRequestV1 {
        release_id: args[0].clone(),
        build_ref: args[1].clone(),
        artifact_digest: args[2].clone(),
        test_evidence_ref: args[3].clone(),
        environment: args[4].clone(),
    };
    Ok((action, request))
}

/// A shell event shared with other browser contexts of the same origin.
#[derive(Debug, Clone, Copy, PartialEq, Eq)]
pub enum ShellSyncEvent {
    ThemeChanged,
    WallpaperChanged,
    LayoutChanged,
}

/// The message a shell event is broadcast as.
pub open spec fn sync_message(e: ShellSyncEvent) -> Seq<char> {
    match e {
        ShellSyncEvent::ThemeChanged => "theme-changed"@,
        ShellSyncEvent::WallpaperChanged => "wallpaper-changed"@,
        ShellSyncEvent::LayoutChanged => "layout-changed"@,
    }
}

impl ShellSyncEvent {
    /// The message this event is broadcast as.
    pub fn as_message(&self) -> (s: &'static str)
        ensures
            s@ == sync_message(*self),
    {
        match self {
            ShellSyncEvent::ThemeChanged => "theme-changed",
            ShellSyncEvent::WallpaperChanged => "wallpaper-changed",
            ShellSyncEvent::LayoutChanged => "layout-changed",
        }
    }
}

} // verus!
