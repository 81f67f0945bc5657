//! The records exchanged by the platform's services and workflows.

use vstd::prelude::*;
use crate::command_plan::strs;
use crate::error_model::{InstitutionalError, OperationContext};
use crate::text::{concat3, owned};

verus! {

/// A copy of a list of strings.
pub fn copy_strings(v: &Vec<String>) -> (r: Vec<String>)
    ensures
        r@ == v@,
{
    let mut r: Vec<String> = Vec::new();
    let mut i: usize = 0;
    while i < v.len()
        invariant
            i <= v.len(),
            r@ == v@.subrange(0, i as int),
        decreases v.len() - i,
    {
        r.push(v[i].clone());
        i = i + 1;
    }
    r
}

/// An institutional role that can approve a mutation.
#[derive(Debug, Clone, Copy, PartialEq, Eq)]
pub enum InstitutionalRole {
    Cto,
    Ciso,
}

/// The impact tier of a requested action.
#[derive(Debug, Clone, Copy, PartialEq, Eq)]
pub enum ImpactTier {
    Tier0,
    Tier1,
    Tier2,
    Tier3,
}

/// The classification of data an action touches.
#[derive(Debug, Clone, Copy, PartialEq, Eq)]
pub enum Classification {
    Internal,
    Restricted,
}

/// A request by an actor to run a governed workflow.
#[derive(Debug, PartialEq, Eq)]
pub struct AgentActionRequestV1 {
    pub action_id: String,
    pub actor_ref: String,
    pub objective: String,
    pub requested_workflow: String,
    pub impact_tier: ImpactTier,
    pub classification: Classification,
    pub required_approver_roles: Vec<InstitutionalRole>,
    pub policy_refs: Vec<String>,
}

/// A request to approve a release for an environment.
#[derive(Debug, PartialEq, Eq)]
pub struct ReleaseApprovalRequestV1 {
    pub release_id: String,
    pub build_ref: String,
    pub artifact_digest: String,
    pub test_evidence_ref: String,
    pub environment: String,
}

/// The security service's verdict on a release.
#[derive(Debug, PartialEq, Eq)]
pub struct SecurityReleaseAssessmentV1 {
    pub release_id: String,
    pub environment: String,
    pub ready: bool,
    pub control_refs: Vec<String>,
    pub summary: String,
}

/// An approved release, with the roles that approved it, its evidence and
/// the audit events recorded for it.
#[derive(Debug, PartialEq, Eq)]
pub struct ReleaseApprovalRecordV1 {
    pub release_id: String,
    pub environment: String,
    pub release_window_ref: String,
    pub approved_by_roles: Vec<InstitutionalRole>,
    pub evidence_refs: Vec<String>,
    pub audit_event_ids: Vec<String>,
}

/// The content of a release approval record.
pub struct ReleaseApprovalRecordView {
    pub release_id: Seq<char>,
    pub environment: Seq<char>,
    pub release_window_ref: Seq<char>,
    pub approved_by_roles: Seq<InstitutionalRole>,
    pub evidence_refs: Seq<Seq<char>>,
    pub audit_event_ids: Seq<Seq<char>>,
}

impl View for ReleaseApprovalRecordV1 {
    type V = ReleaseApprovalRecordView;

    open spec fn view(&self) -> ReleaseApprovalRecordView {
        ReleaseApprovalRecordView {
            release_id: self.release_id@,
            environment: self.environment@,
            release_window_ref: self.release_window_ref@,
            approved_by_roles: self.approved_by_roles@,
            evidence_refs: strs(self.evidence_refs@),
            audit_event_ids: strs(self.audit_event_ids@),
        }
    }
}

/// The release window a release is scheduled in. The reference format,
/// `release-window/<environment>/<release id>`, is this library's own
/// choice.
pub open spec fn release_window(environment: Seq<char>, release_id: Seq<char>) -> Seq<char> {
    "release-window/"@ + environment + "/"@ + release_id
}

impl ReleaseApprovalRecordV1 {
    /// The approval record of `request`.
    pub fn new(
        request: &ReleaseApprovalRequestV1,
        approved_by_roles: Vec<InstitutionalRole>,
        evidence_refs: Vec<String>,
        audit_event_ids: Vec<String>,
    ) -> (r: ReleaseApprovalRecordV1)
        ensures
            r.release_id@ == request.release_id@,
            r.environment@ == request.environment@,
            r.release_window_ref@ == release_window(request.environment@, request.release_id@),
            r.approved_by_roles == approved_by_roles,
            r.evidence_refs == evidence_refs,
            r.audit_event_ids == audit_event_ids,
    {
        let mut window = concat3("release-window/", request.environment.as_str(), "/");
        window.append(request.release_id.as_str());
        ReleaseApprovalRecordV1 {
            release_id: request.release_id.clone(),
            environment: request.environment.clone(),
            release_window_ref: window,
            approved_by_roles,
            evidence_refs,
            audit_event_ids,
        }
    }

    /// A copy of this record.
    pub fn duplicate(&self) -> (r: ReleaseApprovalRecordV1)
        ensures
            r@ == self@,
    {
        let mut roles: Vec<InstitutionalRole> = Vec::new();
        let mut i: usize = 0;
        while i < self.approved_by_roles.len()
            invariant
                i <= self.approved_by_roles.len(),
                roles@ == self.approved_by_roles@.subrange(0, i as int),
            decreases self.approved_by_roles.len() - i,
        {
            roles.push(self.approved_by_roles[i]);
            i = i + 1;
        }
        assert(roles@ =~= self.approved_by_roles@);
        assert(self.approved_by_roles@.subrange(0, i as int) =~= self.approved_by_roles@);
        let evidence_refs = copy_strings(&self.evidence_refs);
        let audit_event_ids = copy_strings(&self.audit_event_ids);
        let r = ReleaseApprovalRecordV1 {
            release_id: self.release_id.clone(),
            environment: self.environment.clone(),
            release_window_ref: self.release_window_ref.clone(),
            approved_by_roles: roles,
            evidence_refs,
            audit_event_ids,
        };
        assert(r@.evidence_refs =~= self@.evidence_refs);
        assert(r@.audit_event_ids =~= self@.audit_event_ids);
        r
    }
}

/// What a workflow was authorized to mutate: the workflow, its target
/// service, the roles that approved it and the correlation of the request.
#[derive(Debug, PartialEq, Eq)]
pub struct MutationAuthorizationV1 {
    pub workflow_name: String,
    pub target_service: String,
    pub approved_by_roles: Vec<InstitutionalRole>,
    pub correlation_id: String,
}

/// The message of a workflow mismatch (wording of this library's own).
pub open spec fn workflow_mismatch(authorized: Seq<char>, expected: Seq<char>) -> Seq<char> {
    "mutation authorized for workflow `"@ + authorized + "` but `"@ + expected + "` is required"@
}

/// The message of a target service mismatch (wording of this library's own).
pub open spec fn target_mismatch(authorized: Seq<char>, expected: Seq<char>) -> Seq<char> {
    "mutation authorized for service `"@ + authorized + "` but `"@ + expected + "` is required"@
}

impl MutationAuthorizationV1 {
    /// Succeeds when the authorization is for `workflow`.
    pub fn assert_workflow(&self, workflow: &str) -> (r: Result<(), String>)
        ensures
            match r {
                Ok(_) => self.workflow_name@ == workflow@,
                Err(m) => self.workflow_name@ != workflow@
                    && m@ == workflow_mismatch(self.workflow_name@, workflow@),
            },
    {
        if self.workflow_name == owned(workflow) {
            Ok(())
        } else {
            let mut m = concat3("mutation authorized for workflow `", self.workflow_name.as_str(), "` but `");
            m.append(workflow);
            m.append("` is required");
            Err(m)
        }
    }

    /// Succeeds when the authorization targets `service`.
    pub fn assert_target_service(&self, service: &str) -> (r: Result<(), String>)
        ensures
            match r {
                Ok(_) => self.target_service@ == service@,
                Err(m) => self.target_service@ != service@
                    && m@ == target_mismatch(self.target_service@, service@),
            },
    {
        if self.target_service == owned(service) {
            Ok(())
        } else {
            let mut m = concat3("mutation authorized for service `", self.target_service.as_str(), "` but `");
            m.append(service);
            m.append("` is required");
            Err(m)
        }
    }

    /// Checks that the authorization is for `workflow` on `service`; the
    /// first mismatch becomes an invariant violation of `subsystem`'s
    /// `operation`.
    pub fn authorize(&self, workflow: &str, service: &str, subsystem: &str, operation: &str)
        -> (r: Result<(), InstitutionalError>)
        ensures
            match r {
                Ok(_) => self.workflow_name@ == workflow@ && self.target_service@ == service@,
                Err(e) => e.kind() == crate::error_model::InstitutionalErrorCategory::InvariantViolation
                    && e.ctx().subsystem@ == subsystem@ && e.ctx().operation@ == operation@
                    && e.src() is None
                    && if self.workflow_name@ != workflow@ {
                        e.msg()@ == workflow_mismatch(self.workflow_name@, workflow@)
                    } else {
                        self.target_service@ != service@
                            && e.msg()@ == target_mismatch(self.target_service@, service@)
                    },
            },
    {
        match self.assert_workflow(workflow) {
            Ok(_) => {},
            Err(m) => {
                return Err(InstitutionalError::invariant_violation(
                    OperationContext::new(subsystem, operation),
                    m.as_str(),
                ));
            },
        }
        match self.assert_target_service(service) {
            Ok(_) => Ok(()),
            Err(m) => Err(InstitutionalError::invariant_violation(
                OperationContext::new(subsystem, operation),
                m.as_str(),
            )),
        }
    }
}

/// A service's boundary: its domain, the workflows allowed to mutate it and
/// the aggregates it owns.
#[derive(Debug, PartialEq, Eq)]
pub struct ServiceBoundaryV1 {
    pub service_name: String,
    pub domain: String,
    pub approved_workflows: Vec<String>,
    pub owned_aggregates: Vec<String>,
}

/// A workflow's boundary: the domains it touches and the services it
/// targets.
#[derive(Debug, PartialEq, Eq)]
pub struct WorkflowBoundaryV1 {
    pub workflow_name: String,
    pub touched_domains: Vec<String>,
    pub target_services: Vec<String>,
    pub emits_evidence: bool,
    pub mutation_path_only: bool,
}

/// Whether two service boundaries hold the same content.
pub open spec fn same_service(a: ServiceBoundaryV1, b: ServiceBoundaryV1) -> bool {
    &&& a.service_name == b.service_name
    &&& a.domain == b.domain
    &&& a.approved_workflows@ == b.approved_workflows@
    &&& a.owned_aggregates@ == b.owned_aggregates@
}

/// Whether two lists of service boundaries hold the same content.
pub open spec fn same_services(a: Seq<ServiceBoundaryV1>, b: Seq<ServiceBoundaryV1>) -> bool {
    &&& a.len() == b.len()
    &&& forall|i: int| 0 <= i < a.len() ==> same_service(#[trigger] a[i], b[i])
}

/// Whether two workflow boundaries hold the same content.
pub open spec fn same_workflow(a: WorkflowBoundaryV1, b: WorkflowBoundaryV1) -> bool {
    &&& a.workflow_name == b.workflow_name
    &&& a.touched_domains@ == b.touched_domains@
    &&& a.target_services@ == b.target_services@
    &&& a.emits_evidence == b.emits_evidence
    &&& a.mutation_path_only == b.mutation_path_only
}

/// Whether two lists of workflow boundaries hold the same content.
pub open spec fn same_workflows(a: Seq<WorkflowBoundaryV1>, b: Seq<WorkflowBoundaryV1>) -> bool {
    &&& a.len() == b.len()
    &&& forall|i: int| 0 <= i < a.len() ==> same_workflow(#[trigger] a[i], b[i])
}

impl ServiceBoundaryV1 {
    /// A copy of this boundary.
    pub fn duplicate(&self) -> (r: ServiceBoundaryV1)
        ensures
            same_service(r, *self),
    {
        ServiceBoundaryV1 {
            service_name: self.service_name.clone(),
            domain: self.domain.clone(),
            approved_workflows: copy_strings(&self.approved_workflows),
            owned_aggregates: copy_strings(&self.owned_aggregates),
        }
    }
}

impl WorkflowBoundaryV1 {
    /// A copy of this boundary.
    pub fn duplicate(&self) -> (r: WorkflowBoundaryV1)
        ensures
            same_workflow(r, *self),
    {
        WorkflowBoundaryV1 {
            workflow_name: self.workflow_name.clone(),
            touched_domains: copy_strings(&self.touched_domains),
            target_services: copy_strings(&self.target_services),
            emits_evidence: self.emits_evidence,
            mutation_path_only: self.mutation_path_only,
        }
    }
}

/// A copy of a list of service boundaries.
pub fn copy_services(v: &Vec<ServiceBoundaryV1>) -> (r: Vec<ServiceBoundaryV1>)
    ensures
        same_services(r@, v@),
{
    let mut r: Vec<ServiceBoundaryV1> = Vec::new();
    let mut i: usize = 0;
    while i < v.len()
        invariant
            i <= v.len(),
            same_services(r@, v@.subrange(0, i as int)),
        decreases v.len() - i,
    {
        r.push(v[i].duplicate());
        i = i + 1;
    }
    assert(v@.subrange(0, i as int) =~= v@);
    r
}

/// A copy of a list of workflow boundaries.
pub fn copy_workflows(v: &Vec<WorkflowBoundaryV1>) -> (r: Vec<WorkflowBoundaryV1>)
    ensures
        same_workflows(r@, v@),
{
    let mut r: Vec<WorkflowBoundaryV1> = Vec::new();
    let mut i: usize = 0;
    while i < v.len()
        invariant
            i <= v.len(),
            same_workflows(r@, v@.subrange(0, i as int)),
        decreases v.len() - i,
    {
        r.push(v[i].duplicate());
        i = i + 1;
    }
    assert(v@.subrange(0, i as int) =~= v@);
    r
}

} // verus!
