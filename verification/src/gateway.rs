//! The platform a client talks to: the client manifest and the dashboard it
//! describes, the in-memory transport, and the gateway's answers to
//! commands and queries over its bounded log of recent events.

use vstd::prelude::*;
use vstd::string::StringSliceAdditionalSpecFns;
use crate::contracts::{
    copy_services, copy_workflows, same_services, same_workflows, AgentActionRequestV1, Classification,
    InstitutionalRole, ReleaseApprovalRecordV1, ServiceBoundaryV1, WorkflowBoundaryV1,
};
use crate::command_plan::strs;
use crate::text::{concat2, owned};
use crate::error_model::InstitutionalError;
use crate::event_log::{newest, newest_first, RecentEventLog};
use crate::lattice::{copy_lattice, same_opt_lattice, LatticeConfigV1};
use crate::platform::{
    gateway_ack, hex_lower, memory_ack, payload_digest, sha256_digest, PlatformCommandResultV1, PlatformCommandV1, PlatformQueryResultV1,
    PlatformQueryV1, ReleasedUiAppV1, UiDashboardSnapshotV1,
};

verus! {

/// A copy of a list of released apps.
pub fn copy_apps(v: &Vec<ReleasedUiAppV1>) -> (r: Vec<ReleasedUiAppV1>)
    ensures
        r@ == v@,
{
    let mut r: Vec<ReleasedUiAppV1> = Vec::new();
    let mut i: usize = 0;
    while i < v.len()
        invariant
            i <= v.len(),
            r@ == v@.subrange(0, i as int),
        decreases v.len() - i,
    {
        let a = &v[i];
        r.push(ReleasedUiAppV1 {
            app_id: a.app_id.clone(),
            display_name: a.display_name.clone(),
            desktop_enabled: a.desktop_enabled,
        });
        i = i + 1;
    }
    assert(v@.subrange(0, i as int) =~= v@);
    r
}

/// Whether two dashboards hold the same content.
pub open spec fn same_dashboard(a: UiDashboardSnapshotV1, b: UiDashboardSnapshotV1) -> bool {
    &&& a.client_name == b.client_name
    &&& same_services(a.services@, b.services@)
    &&& same_workflows(a.workflows@, b.workflows@)
    &&& same_opt_lattice(a.lattice, b.lattice)
    &&& a.release_apps@ == b.release_apps@
    &&& a.connected_cache == b.connected_cache
}

/// A copy of a dashboard.
pub fn copy_dashboard(d: &UiDashboardSnapshotV1) -> (r: UiDashboardSnapshotV1)
    ensures
        same_dashboard(r, *d),
{
    UiDashboardSnapshotV1 {
        client_name: d.client_name.clone(),
        services: copy_services(&d.services),
        workflows: copy_workflows(&d.workflows),
        lattice: copy_lattice(&d.lattice),
        release_apps: copy_apps(&d.release_apps),
        connected_cache: d.connected_cache,
    }
}

/// What a client knows of the platform: its name, the services and
/// workflows it may use and the lattice they run on.
#[derive(Debug, PartialEq, Eq)]
pub struct InstitutionalPlatformClientV1 {
    pub client_name: String,
    pub supported_services: Vec<ServiceBoundaryV1>,
    pub supported_workflows: Vec<WorkflowBoundaryV1>,
    pub lattice_config: Option<LatticeConfigV1>,
}

/// The dashboard a manifest describes for the given released apps and
/// cache state.
pub open spec fn describes(d: UiDashboardSnapshotV1, m: InstitutionalPlatformClientV1,
    release_apps: Seq<ReleasedUiAppV1>, connected_cache: bool) -> bool {
    &&& d.client_name == m.client_name
    &&& same_services(d.services@, m.supported_services@)
    &&& same_workflows(d.workflows@, m.supported_workflows@)
    &&& same_opt_lattice(d.lattice, m.lattice_config)
    &&& d.release_apps@ == release_apps
    &&& d.connected_cache == connected_cache
}

impl InstitutionalPlatformClientV1 {
    /// An action, as sent.
    pub fn prepare_action(&self, action: AgentActionRequestV1) -> (r: AgentActionRequestV1)
        ensures
            r == action,
    {
        action
    }

    /// An event envelope, as received.
    pub fn receive_event<E>(&self, envelope: E) -> (r: E)
        ensures
            r == envelope,
    {
        envelope
    }

    /// A promotion request with its action, as sent.
    pub fn prepare_quant_strategy_promotion<Q>(&self, action: AgentActionRequestV1, request: Q)
        -> (r: (AgentActionRequestV1, Q))
        ensures
            r == (action, request),
    {
        (action, request)
    }

    /// A market data batch, as sent.
    pub fn register_market_data_batch<M>(&self, batch: M) -> (r: M)
        ensures
            r == batch,
    {
        batch
    }

    /// A promotion recommendation, as sent.
    pub fn submit_promotion_recommendation<P>(&self, recommendation: P) -> (r: P)
        ensures
            r == recommendation,
    {
        recommendation
    }

    /// The dashboard of this client for the given released apps and cache
    /// state.
    pub fn dashboard_snapshot(&self, release_apps: Vec<ReleasedUiAppV1>, connected_cache: bool)
        -> (r: UiDashboardSnapshotV1)
        ensures
            describes(r, *self, release_apps@, connected_cache),
    {
        UiDashboardSnapshotV1 {
            client_name: self.client_name.clone(),
            services: copy_services(&self.supported_services),
            workflows: copy_workflows(&self.supported_workflows),
            lattice: copy_lattice(&self.lattice_config),
            release_apps,
            connected_cache,
        }
    }

    /// A copy of this manifest.
    pub fn duplicate(&self) -> (r: InstitutionalPlatformClientV1)
        ensures
            r.client_name == self.client_name,
            same_services(r.supported_services@, self.supported_services@),
            same_workflows(r.supported_workflows@, self.supported_workflows@),
            same_opt_lattice(r.lattice_config, self.lattice_config),
    {
        InstitutionalPlatformClientV1 {
            client_name: self.client_name.clone(),
            supported_services: copy_services(&self.supported_services),
            supported_workflows: copy_workflows(&self.supported_workflows),
            lattice_config: copy_lattice(&self.lattice_config),
        }
    }
}

/// The first `limit` events of a list, each cloned, in order.
fn first_events<E: Clone>(events: &Vec<E>, limit: usize) -> (r: Vec<E>)
    ensures
        r@.len() == if limit < events@.len() { limit as nat } else { events@.len() },
        forall|i: int| 0 <= i < r@.len() ==> cloned(events@[i], #[trigger] r@[i]),
{
    let mut r: Vec<E> = Vec::new();
    let mut i: usize = 0;
    while i < events.len() && i < limit
        invariant
            i <= events.len(),
            i <= limit,
            r@.len() == i,
            forall|j: int| 0 <= j < i ==> cloned(events@[j], #[trigger] r@[j]),
        decreases events.len() - i,
    {
        r.push(events[i].clone());
        i = i + 1;
    }
    r
}

/// A transport that answers from memory: a fixed dashboard and a list of
/// recent events.
pub struct MemoryPlatformTransport<E> {
    dashboard: UiDashboardSnapshotV1,
    recent_events: Vec<E>,
}

impl<E: Clone> MemoryPlatformTransport<E> {
    /// The dashboard it serves.
    pub closed spec fn board(&self) -> UiDashboardSnapshotV1 {
        self.dashboard
    }

    /// The events it serves, in order.
    pub closed spec fn events(&self) -> Seq<E> {
        self.recent_events@
    }

    /// A transport serving `dashboard` and `recent_events`.
    pub fn new(dashboard: UiDashboardSnapshotV1, recent_events: Vec<E>) -> (t: MemoryPlatformTransport<E>)
        ensures
            t.board() == dashboard,
            t.events() == recent_events@,
    {
        MemoryPlatformTransport { dashboard, recent_events }
    }

    /// Acknowledges every command.
    pub fn execute_command<Q, M, P>(&self, command: PlatformCommandV1<Q, M, P>)
        -> (r: Result<PlatformCommandResultV1, InstitutionalError>)
        ensures
            r matches Ok(PlatformCommandResultV1::Ack(a)) && a.command_id@ == "memory-ack"@ && a.accepted,
    {
        Ok(PlatformCommandResultV1::Ack(memory_ack()))
    }

    /// Answers a query: the dashboard, its workflows, or the first `limit`
    /// recent events in the order they were given.
    pub fn execute_query(&self, query: PlatformQueryV1) -> (r: Result<PlatformQueryResultV1<E>, InstitutionalError>)
        ensures
            match query {
                PlatformQueryV1::Dashboard => r matches Ok(PlatformQueryResultV1::Dashboard(d))
                    && same_dashboard(d, self.board()),
                PlatformQueryV1::SupportedWorkflows => r matches Ok(PlatformQueryResultV1::SupportedWorkflows(w))
                    && same_workflows(w@, self.board().workflows@),
                PlatformQueryV1::RecentEvents { limit } => r matches Ok(PlatformQueryResultV1::RecentEvents(v))
                    && v@.len() == (if limit < self.events().len() { limit as nat } else { self.events().len() })
                    && forall|i: int| 0 <= i < v@.len() ==> cloned(self.events()[i], #[trigger] v@[i]),
            },
    {
        match query {
            PlatformQueryV1::Dashboard => Ok(PlatformQueryResultV1::Dashboard(copy_dashboard(&self.dashboard))),
            PlatformQueryV1::SupportedWorkflows => Ok(PlatformQueryResultV1::SupportedWorkflows(
                copy_workflows(&self.dashboard.workflows),
            )),
            PlatformQueryV1::RecentEvents { limit } => Ok(PlatformQueryResultV1::RecentEvents(
                first_events(&self.recent_events, limit),
            )),
        }
    }

    /// The events a new subscriber receives: every recent event, in order.
    pub fn subscribe_events(&self) -> (r: Vec<E>)
        ensures
            r@.len() == self.events().len(),
            forall|i: int| 0 <= i < r@.len() ==> cloned(self.events()[i], #[trigger] r@[i]),
    {
        first_events(&self.recent_events, self.recent_events.len())
    }
}

/// The gateway's state apart from the services it runs: the manifest it
/// serves, the released apps, whether its cache is connected, and the
/// bounded log of the events it emitted.
pub struct PlatformGateway<E> {
    manifest: InstitutionalPlatformClientV1,
    release_apps: Vec<ReleasedUiAppV1>,
    connected_cache: bool,
    recent_events: RecentEventLog<E>,
}

impl<E: Clone> PlatformGateway<E> {
    /// The manifest it serves.
    pub closed spec fn client(&self) -> InstitutionalPlatformClientV1 {
        self.manifest
    }

    /// The released apps it lists.
    pub closed spec fn apps(&self) -> Seq<ReleasedUiAppV1> {
        self.release_apps@
    }

    /// Whether its cache is connected.
    pub closed spec fn connected(&self) -> bool {
        self.connected_cache
    }

    /// The events it keeps, oldest first.
    pub closed spec fn events(&self) -> Seq<E> {
        self.recent_events.events()
    }

    /// A gateway that has emitted nothing yet.
    pub fn new(manifest: InstitutionalPlatformClientV1, release_apps: Vec<ReleasedUiAppV1>, connected_cache: bool)
        -> (g: PlatformGateway<E>)
        ensures
            g.client() == manifest,
            g.apps() == release_apps@,
            g.connected() == connected_cache,
            g.events() == Seq::<E>::empty(),
    {
        PlatformGateway { manifest, release_apps, connected_cache, recent_events: RecentEventLog::new() }
    }

    /// A copy of the manifest it serves.
    pub fn manifest(&self) -> (m: InstitutionalPlatformClientV1)
        ensures
            m.client_name == self.client().client_name,
            same_services(m.supported_services@, self.client().supported_services@),
            same_workflows(m.supported_workflows@, self.client().supported_workflows@),
            same_opt_lattice(m.lattice_config, self.client().lattice_config),
    {
        self.manifest.duplicate()
    }

    /// The dashboard it serves.
    pub fn dashboard_snapshot(&self) -> (d: UiDashboardSnapshotV1)
        ensures
            describes(d, self.client(), self.apps(), self.connected()),
    {
        self.manifest.dashboard_snapshot(copy_apps(&self.release_apps), self.connected_cache)
    }

    /// Keeps an emitted event, dropping the oldest when the log is full.
    pub fn emit_event(&mut self, event: E)
        ensures
            final(self).events() == newest(old(self).events().push(event)),
            final(self).client() == old(self).client(),
            final(self).apps() == old(self).apps(),
            final(self).connected() == old(self).connected(),
    {
        self.recent_events.push(event);
    }

    /// Acknowledges a command it does not run itself. Release approval
    /// submissions get no acknowledgement: the release approval workflow
    /// runs them, and `record_release_approval` records its result and gives
    /// the answer.
    pub fn acknowledge<Q, M, P>(&self, command: &PlatformCommandV1<Q, M, P>)
        -> (r: Option<PlatformCommandResultV1>)
        ensures
            match r {
                Some(PlatformCommandResultV1::Ack(a)) => !(command is SubmitReleaseApproval)
                    && a.command_id@ == "platform-gateway-ack"@ && a.accepted,
                Some(PlatformCommandResultV1::ReleaseApproval(_)) => false,
                None => command is SubmitReleaseApproval,
            },
    {
        match command {
            PlatformCommandV1::SubmitReleaseApproval { .. } => None,
            _ => Some(PlatformCommandResultV1::Ack(gateway_ack())),
        }
    }

    /// Answers a query: its dashboard, the manifest's workflows, or up to
    /// `limit` of its recent events, newest first.
    pub fn execute_query(&self, query: PlatformQueryV1) -> (r: Result<PlatformQueryResultV1<E>, InstitutionalError>)
        ensures
            match query {
                PlatformQueryV1::Dashboard => r matches Ok(PlatformQueryResultV1::Dashboard(d))
                    && describes(d, self.client(), self.apps(), self.connected()),
                PlatformQueryV1::SupportedWorkflows => r matches Ok(PlatformQueryResultV1::SupportedWorkflows(w))
                    && same_workflows(w@, self.client().supported_workflows@),
                PlatformQueryV1::RecentEvents { limit } => r matches Ok(PlatformQueryResultV1::RecentEvents(v))
                    && v@.len() == newest_first(self.events(), limit as nat).len()
                    && forall|i: int| 0 <= i < v@.len()
                        ==> cloned(newest_first(self.events(), limit as nat)[i], #[trigger] v@[i]),
            },
    {
        match query {
            PlatformQueryV1::Dashboard => Ok(PlatformQueryResultV1::Dashboard(self.dashboard_snapshot())),
            PlatformQueryV1::SupportedWorkflows => Ok(PlatformQueryResultV1::SupportedWorkflows(
                copy_workflows(&self.manifest.supported_workflows),
            )),
            PlatformQueryV1::RecentEvents { limit } => {
                let refs = self.recent_events.recent(limit);
                let mut out: Vec<E> = Vec::new();
                let mut i: usize = 0;
                while i < refs.len()
                    invariant
                        i <= refs.len(),
                        refs@.len() == newest_first(self.events(), limit as nat).len(),
                        forall|j: int| 0 <= j < refs@.len() ==> *refs@[j] == newest_first(self.events(), limit as nat)[j],
                        out@.len() == i,
                        forall|j: int| 0 <= j < i ==> cloned(newest_first(self.events(), limit as nat)[j], #[trigger] out@[j]),
                    decreases refs.len() - i,
                {
                    out.push(refs[i].clone());
                    i = i + 1;
                }
                Ok(PlatformQueryResultV1::RecentEvents(out))
            },
        }
    }
}

/// The routing part of an event the gateway emits: its type, the actor
/// behind it, the action it correlates with, the decision it records, its
/// classification and the schema of its payload.
#[derive(Debug, Clone, PartialEq, Eq)]
pub struct EventHeaderV1 {
    pub event_type: String,
    pub actor_ref: String,
    pub correlation_id: String,
    pub decision_ref: Option<String>,
    pub classification: Classification,
    pub schema_ref: String,
}

/// The content of an event header.
pub struct EventHeaderView {
    pub event_type: Seq<char>,
    pub actor_ref: Seq<char>,
    pub correlation_id: Seq<char>,
    pub decision_ref: Option<Seq<char>>,
    pub classification: Classification,
    pub schema_ref: Seq<char>,
}

impl View for EventHeaderV1 {
    type V = EventHeaderView;

    open spec fn view(&self) -> EventHeaderView {
        EventHeaderView {
            event_type: self.event_type@,
            actor_ref: self.actor_ref@,
            correlation_id: self.correlation_id@,
            decision_ref: match self.decision_ref {
                Some(d) => Some(d@),
                None => None,
            },
            classification: self.classification,
            schema_ref: self.schema_ref@,
        }
    }
}

/// The header announcing that `action` asked for a release approval.
pub open spec fn requested_header(action: AgentActionRequestV1) -> EventHeaderView {
    EventHeaderView {
        event_type: "release_approval_requested"@,
        actor_ref: action.actor_ref@,
        correlation_id: action.action_id@,
        decision_ref: None,
        classification: action.classification,
        schema_ref: "schemas/events/platform/v1/release-approval-requested-v1.json"@,
    }
}

/// The header announcing how a release approval for `action` ended:
/// approved, with the decision `release-approval/<release id>`, or denied.
pub open spec fn outcome_header(action: AgentActionRequestV1, outcome: Result<ReleaseApprovalRecordV1, InstitutionalError>)
    -> EventHeaderView {
    match outcome {
        Ok(record) => EventHeaderView {
            event_type: "release_approval_approved"@,
            actor_ref: action.actor_ref@,
            correlation_id: action.action_id@,
            decision_ref: Some("release-approval/"@ + record.release_id@),
            classification: action.classification,
            schema_ref: "schemas/events/platform/v1/release-approval-approved-v1.json"@,
        },
        Err(_) => EventHeaderView {
            event_type: "release_approval_denied"@,
            actor_ref: action.actor_ref@,
            correlation_id: action.action_id@,
            decision_ref: None,
            classification: action.classification,
            schema_ref: "schemas/events/platform/v1/release-approval-denied-v1.json"@,
        },
    }
}

/// The event announcing that `action` asked for a release approval.
pub fn release_requested_event(action: &AgentActionRequestV1) -> (h: EventHeaderV1)
    ensures
        h@ == requested_header(*action),
        h.event_type@ == "release_approval_requested"@,
        h.correlation_id@ == action.action_id@,
        h.actor_ref@ == action.actor_ref@,
        h.classification == action.classification,
        h.decision_ref is None,
{
    EventHeaderV1 {
        event_type: owned("release_approval_requested"),
        actor_ref: action.actor_ref.clone(),
        correlation_id: action.action_id.clone(),
        decision_ref: None,
        classification: action.classification,
        schema_ref: owned("schemas/events/platform/v1/release-approval-requested-v1.json"),
    }
}

/// The event announcing how a release approval ended: approved, with the
/// decision `release-approval/<release id>`, or denied.
pub fn release_outcome_event(action: &AgentActionRequestV1, outcome: &Result<ReleaseApprovalRecordV1, InstitutionalError>)
    -> (h: EventHeaderV1)
    ensures
        h@ == outcome_header(*action, *outcome),
        h.correlation_id@ == action.action_id@,
        h.actor_ref@ == action.actor_ref@,
        h.classification == action.classification,
        match *outcome {
            Ok(record) => h.event_type@ == "release_approval_approved"@
                && h@.decision_ref == Some("release-approval/"@ + record.release_id@),
            Err(_) => h.event_type@ == "release_approval_denied"@ && h.decision_ref is None,
        },
{
    match outcome {
        Ok(record) => EventHeaderV1 {
            event_type: owned("release_approval_approved"),
            actor_ref: action.actor_ref.clone(),
            correlation_id: action.action_id.clone(),
            decision_ref: Some(concat2("release-approval/", record.release_id.as_str())),
            classification: action.classification,
            schema_ref: owned("schemas/events/platform/v1/release-approval-approved-v1.json"),
        },
        Err(_) => EventHeaderV1 {
            event_type: owned("release_approval_denied"),
            actor_ref: action.actor_ref.clone(),
            correlation_id: action.action_id.clone(),
            decision_ref: None,
            classification: action.classification,
            schema_ref: owned("schemas/events/platform/v1/release-approval-denied-v1.json"),
        },
    }
}

/// An event the gateway keeps and sends: its header and the digest of its
/// payload's JSON text.
#[derive(Debug, Clone, PartialEq, Eq)]
pub struct GatewayEventV1 {
    pub header: EventHeaderV1,
    pub payload_hash: String,
}

/// The content of a gateway event.
pub struct GatewayEventView {
    pub header: EventHeaderView,
    pub payload_hash: Seq<char>,
}

impl View for GatewayEventV1 {
    type V = GatewayEventView;

    open spec fn view(&self) -> GatewayEventView {
        GatewayEventView { header: self.header@, payload_hash: self.payload_hash@ }
    }
}

/// The digest an event records of a payload's JSON text.
pub open spec fn digest_of(payload_json: Seq<u8>) -> Seq<char> {
    hex_lower(sha256_digest(payload_json))
}

/// The event with `header` whose payload is `payload_json`.
pub open spec fn event_of(header: EventHeaderView, payload_json: Seq<u8>) -> GatewayEventView {
    GatewayEventView { header, payload_hash: digest_of(payload_json) }
}

/// The contents of a list of gateway events.
pub open spec fn event_views(events: Seq<GatewayEventV1>) -> Seq<GatewayEventView> {
    events.map_values(|e: GatewayEventV1| e@)
}

proof fn lemma_newest_views(events: Seq<GatewayEventV1>, e: GatewayEventV1)
    ensures
        event_views(newest(events.push(e))) == newest(event_views(events).push(e@)),
{
    let pushed = events.push(e);
    assert(event_views(pushed) =~= event_views(events).push(e@));
    if pushed.len() > crate::event_log::MAX_RECENT_EVENTS {
        assert(event_views(pushed.skip(pushed.len() - crate::event_log::MAX_RECENT_EVENTS))
            =~= event_views(pushed).skip(pushed.len() - crate::event_log::MAX_RECENT_EVENTS));
    }
}

/// The event with `header` whose payload is `payload_json`: the digest is
/// the lowercase hex SHA-256 of the payload's text.
pub fn gateway_event(header: EventHeaderV1, payload_json: &str) -> (e: GatewayEventV1)
    ensures
        e@ == event_of(header@, payload_json.spec_bytes()),
{
    GatewayEventV1 { header, payload_hash: payload_digest(payload_json) }
}

/// The subscribers kept after sending an event: those whose send succeeded
/// (`sent[i]` tells whether the send to `subscribers[i]` did), in order.
pub fn retain_delivered<S>(subscribers: Vec<S>, sent: &[bool]) -> (r: Vec<S>)
    requires
        sent.len() == subscribers.len(),
    ensures
        r@ == delivered(subscribers@, sent@),
{
    let mut kept: Vec<S> = Vec::new();
    let mut rest = subscribers;
    let ghost all = rest@;
    let mut i: usize = 0;
    let n = rest.len();
    let mut reversed: Vec<S> = Vec::new();
    while rest.len() > 0
        invariant
            n == all.len(),
            sent@.len() == n,
            rest@ == all.subrange(0, rest@.len() as int),
            reversed@.len() + rest@.len() == n,
            forall|j: int| 0 <= j < reversed@.len() ==> #[trigger] reversed@[j] == all[n - 1 - j],
        decreases rest.len(),
    {
        let x = rest.pop().unwrap();
        reversed.push(x);
    }
    assert(delivered(all.subrange(0, 0), sent@.subrange(0, 0)) =~= Seq::<S>::empty());
    while i < n
        invariant
            i <= n,
            n == all.len(),
            sent@.len() == n,
            reversed@.len() == n - i,
            forall|j: int| 0 <= j < reversed@.len() ==> #[trigger] reversed@[j] == all[n - 1 - j],
            kept@ == delivered(all.subrange(0, i as int), sent@.subrange(0, i as int)),
        decreases n - i,
    {
        let x = reversed.pop().unwrap();
        assert(x == all[i as int]);
        assert(all.subrange(0, i + 1).drop_last() =~= all.subrange(0, i as int));
        assert(sent@.subrange(0, i + 1).drop_last() =~= sent@.subrange(0, i as int));
        if sent[i] {
            kept.push(x);
        }
        i = i + 1;
    }
    assert(all.subrange(0, n as int) =~= all);
    assert(sent@.subrange(0, n as int) =~= sent@);
    kept
}

/// The subscribers whose send succeeded, in order.
pub open spec fn delivered<S>(subscribers: Seq<S>, sent: Seq<bool>) -> Seq<S>
    decreases subscribers.len(),
{
    if subscribers.len() == 0 || sent.len() == 0 {
        Seq::empty()
    } else {
        let rest = delivered(subscribers.drop_last(), sent.drop_last());
        if sent.last() { rest.push(subscribers.last()) } else { rest }
    }
}

impl PlatformGateway<GatewayEventV1> {
    /// Emits an event: builds it from `header` and the digest of its payload
    /// text, and keeps it in the log, dropping the oldest when the log is
    /// full. The event is returned for delivery to the subscribers.
    pub fn emit(&mut self, header: EventHeaderV1, payload_json: &str) -> (e: GatewayEventV1)
        ensures
            e@ == event_of(header@, payload_json.spec_bytes()),
            event_views(final(self).events()) == newest(event_views(old(self).events()).push(e@)),
            final(self).client() == old(self).client(),
            final(self).apps() == old(self).apps(),
            final(self).connected() == old(self).connected(),
    {
        let e = gateway_event(header, payload_json);
        let kept = GatewayEventV1 {
            header: EventHeaderV1 {
                event_type: e.header.event_type.clone(),
                actor_ref: e.header.actor_ref.clone(),
                correlation_id: e.header.correlation_id.clone(),
                decision_ref: match &e.header.decision_ref {
                    Some(d) => Some(d.clone()),
                    None => None,
                },
                classification: e.header.classification,
                schema_ref: e.header.schema_ref.clone(),
            },
            payload_hash: e.payload_hash.clone(),
        };
        proof {
            lemma_newest_views(self.events(), kept);
        }
        self.emit_event(kept);
        e
    }

    /// Records a run of the release approval workflow for `action`: the
    /// request event (with the digest of `requested_payload`), then the
    /// outcome event (approved or denied, with the digest of
    /// `outcome_payload`), and answers the command with the workflow's
    /// record or its error.
    pub fn record_release_approval(
        &mut self,
        action: &AgentActionRequestV1,
        requested_payload: &str,
        outcome: Result<ReleaseApprovalRecordV1, InstitutionalError>,
        outcome_payload: &str,
    ) -> (r: Result<PlatformCommandResultV1, InstitutionalError>)
        ensures
            event_views(final(self).events()) == newest(newest(event_views(old(self).events())
                .push(event_of(requested_header(*action), requested_payload.spec_bytes())))
                .push(event_of(outcome_header(*action, outcome), outcome_payload.spec_bytes()))),
            match outcome {
                Ok(record) => r == Ok::<PlatformCommandResultV1, InstitutionalError>(
                    PlatformCommandResultV1::ReleaseApproval(record)),
                Err(error) => r == Err::<PlatformCommandResultV1, InstitutionalError>(error),
            },
            final(self).client() == old(self).client(),
            final(self).apps() == old(self).apps(),
            final(self).connected() == old(self).connected(),
    {
        self.emit(release_requested_event(action), requested_payload);
        self.emit(release_outcome_event(action, &outcome), outcome_payload);
        match outcome {
            Ok(record) => Ok(PlatformCommandResultV1::ReleaseApproval(record)),
            Err(error) => Err(error),
        }
    }
}

/// The types of the events correlated with `action_id`, in order.
pub open spec fn correlated_types(events: Seq<EventHeaderV1>, action_id: Seq<char>) -> Seq<Seq<char>>
    decreases events.len(),
{
    if events.len() == 0 {
        Seq::empty()
    } else {
        let rest = correlated_types(events.drop_last(), action_id);
        if events.last().correlation_id@ == action_id {
            rest.push(events.last().event_type@)
        } else {
            rest
        }
    }
}

/// Both events of a release approval run, the request and its outcome
/// (approved or denied), carry the action's id as their correlation id and
/// the action's actor and classification; the outcome event is of type
/// `release_approval_approved` exactly when the run succeeded and
/// `release_approval_denied` exactly when it failed.
pub proof fn law_release_events_correlate(
    action: AgentActionRequestV1,
    outcome: Result<ReleaseApprovalRecordV1, InstitutionalError>,
)
    ensures
        requested_header(action).correlation_id == action.action_id@,
        outcome_header(action, outcome).correlation_id == action.action_id@,
        requested_header(action).actor_ref == action.actor_ref@,
        outcome_header(action, outcome).actor_ref == action.actor_ref@,
        requested_header(action).classification == action.classification,
        outcome_header(action, outcome).classification == action.classification,
        requested_header(action).event_type == "release_approval_requested"@,
        outcome_header(action, outcome).event_type == "release_approval_approved"@ <==> outcome is Ok,
        outcome_header(action, outcome).event_type == "release_approval_denied"@ <==> outcome is Err,
{
    reveal_strlit("release_approval_approved");
    reveal_strlit("release_approval_denied");
    assert("release_approval_approved"@ != "release_approval_denied"@) by {
        assert("release_approval_approved"@[17] != "release_approval_denied"@[17]);
    }
}

/// After a release approval run for `action` appends its two events to a
/// log, the types of the events correlated with the action are those it
/// had before, then `release_approval_requested`, then
/// `release_approval_approved` or `release_approval_denied` as the run
/// ended.
pub proof fn law_release_run_event_types(
    events: Seq<EventHeaderV1>,
    action: AgentActionRequestV1,
    outcome: Result<ReleaseApprovalRecordV1, InstitutionalError>,
    requested: EventHeaderV1,
    ended: EventHeaderV1,
)
    requires
        requested@ == requested_header(action),
        ended@ == outcome_header(action, outcome),
    ensures
        correlated_types(events.push(requested).push(ended), action.action_id@)
            == correlated_types(events, action.action_id@)
                .push("release_approval_requested"@)
                .push(if outcome is Ok { "release_approval_approved"@ } else { "release_approval_denied"@ }),
{
    let once = events.push(requested);
    let twice = once.push(ended);
    assert(twice.drop_last() =~= once);
    assert(once.drop_last() =~= events);
    assert(twice.last() == ended && once.last() == requested);
    assert(requested.correlation_id@ == requested@.correlation_id);
    assert(ended.correlation_id@ == ended@.correlation_id);
    assert(requested.event_type@ == requested@.event_type);
    assert(ended.event_type@ == ended@.event_type);
    assert(correlated_types(once, action.action_id@)
        == correlated_types(events, action.action_id@).push("release_approval_requested"@));
    match outcome {
        Ok(_) => {
            assert(ended.correlation_id@ == action.action_id@);
        },
        Err(_) => {
            assert(ended.correlation_id@ == action.action_id@);
        },
    }
}

/// The types of the events an action caused, as the shell reports them.
pub fn emitted_event_types(events: &[EventHeaderV1], action_id: &str) -> (r: Vec<String>)
    ensures
        strs(r@) == correlated_types(events@, action_id@),
{
    let id = owned(action_id);
    let mut out: Vec<String> = Vec::new();
    let mut i: usize = 0;
    while i < events.len()
        invariant
            i <= events.len(),
            id@ == action_id@,
            strs(out@) == correlated_types(events@.subrange(0, i as int), action_id@),
        decreases events.len() - i,
    {
        let ghost sub = events@.subrange(0, i + 1);
        assert(sub.drop_last() =~= events@.subrange(0, i as int));
        if events[i].correlation_id == id {
            let ghost before = strs(out@);
            out.push(events[i].event_type.clone());
            assert(strs(out@) =~= before.push(events@[i as int].event_type@));
        }
        i = i + 1;
    }
    assert(events@.subrange(0, i as int) =~= events@);
    out
}

/// The name the shell shows for an approver role.
pub open spec fn role_label(role: InstitutionalRole) -> Seq<char> {
    match role {
        InstitutionalRole::Cto => "Cto"@,
        InstitutionalRole::Ciso => "Ciso"@,
    }
}

/// The name the shell shows for an approver role.
pub fn role_name(role: InstitutionalRole) -> (s: &'static str)
    ensures
        s@ == role_label(role),
{
    match role {
        InstitutionalRole::Cto => "Cto",
        InstitutionalRole::Ciso => "Ciso",
    }
}

} // verus!
