//! The platform's smaller services: audit snapshots, the risk register,
//! release security assessment, treasury disbursements, evidence and
//! knowledge storage, and the workflow engine's ports.

use vstd::prelude::*;
use crate::command_plan::strs;
use crate::contracts::{
    InstitutionalRole, MutationAuthorizationV1, ReleaseApprovalRequestV1,
    SecurityReleaseAssessmentV1,
};
use crate::error_model::InstitutionalError;
use crate::text::{all_ws, chars_of, concat3, has_prefix, is_blank, owned, starts_with};

verus! {

/// Counts of the audit material at hand: evidence, risks and approvals.
#[derive(Debug, Clone, PartialEq, Eq)]
pub struct AuditSnapshot {
    pub evidence_count: usize,
    pub risk_count: usize,
    pub approval_count: usize,
}

/// The audit service.
pub struct AuditService;

impl AuditService {
    /// How much evidence, how many risks and how many approvals there are.
    pub fn snapshot<E, R, A>(&self, evidence: &[E], risks: &[R], approvals: &[A]) -> (s: AuditSnapshot)
        ensures
            s.evidence_count == evidence.len(),
            s.risk_count == risks.len(),
            s.approval_count == approvals.len(),
    {
        AuditSnapshot {
            evidence_count: evidence.len(),
            risk_count: risks.len(),
            approval_count: approvals.len(),
        }
    }
}

/// The register of risk records, in the order they were registered.
pub struct RiskService<R> {
    records: Vec<R>,
}

impl<R> RiskService<R> {
    /// The registered records.
    pub closed spec fn records(&self) -> Seq<R> {
        self.records@
    }

    /// An empty register.
    pub fn new() -> (s: RiskService<R>)
        ensures
            s.records() == Seq::<R>::empty(),
    {
        RiskService { records: Vec::new() }
    }

    /// Registers a record.
    pub fn register(&mut self, record: R)
        ensures
            final(self).records() == old(self).records().push(record),
    {
        self.records.push(record);
    }

    /// The active records, oldest first.
    pub fn active_records(&self) -> (r: &[R])
        ensures
            r@ == self.records(),
    {
        self.records.as_slice()
    }
}

/// Whether an artifact digest is a sha256 reference.
pub open spec fn digest_ok(request: &ReleaseApprovalRequestV1) -> bool {
    has_prefix(request.artifact_digest@, "sha256:"@)
}

/// Whether a release names its test evidence.
pub open spec fn evidence_ok(request: &ReleaseApprovalRequestV1) -> bool {
    !all_ws(request.test_evidence_ref@)
}

/// The summary of a release assessment.
pub open spec fn assessment_summary(request: &ReleaseApprovalRequestV1) -> Seq<char> {
    if digest_ok(request) && evidence_ok(request) {
        "security release controls satisfied for `"@ + request.release_id@ + "`"@
    } else if !digest_ok(request) {
        "artifact digest must be a sha256 reference"@
    } else {
        "test evidence reference must not be empty"@
    }
}

/// The controls a release in `environment` is assessed against.
pub open spec fn release_controls(environment: Seq<char>) -> Seq<Seq<char>> {
    seq!["security.release/"@ + environment + "/artifact-integrity"@,
        "security.release/"@ + environment + "/test-evidence"@]
}

/// The security service.
#[derive(Debug, Clone, Copy, Default)]
pub struct SecurityService;

impl SecurityService {
    /// Assesses a release: it is ready when its digest is a sha256
    /// reference and its test evidence is named.
    pub fn assess_release(&self, request: &ReleaseApprovalRequestV1)
        -> (r: Result<SecurityReleaseAssessmentV1, InstitutionalError>)
        ensures
            r matches Ok(a) && a.release_id@ == request.release_id@
                && a.environment@ == request.environment@
                && a.ready == (digest_ok(request) && evidence_ok(request))
                && strs(a.control_refs@) == release_controls(request.environment@)
                && a.summary@ == assessment_summary(request),
    {
        let digest_ok = starts_with(&chars_of(request.artifact_digest.as_str()), &chars_of("sha256:"));
        let evidence_ok = !is_blank(&chars_of(request.test_evidence_ref.as_str()));
        let ready = digest_ok && evidence_ok;
        let mut control_refs: Vec<String> = Vec::new();
        control_refs.push(concat3("security.release/", request.environment.as_str(), "/artifact-integrity"));
        control_refs.push(concat3("security.release/", request.environment.as_str(), "/test-evidence"));
        assert(strs(control_refs@) =~= release_controls(request.environment@));
        let summary = if ready {
            concat3("security release controls satisfied for `", request.release_id.as_str(), "`")
        } else if !digest_ok {
            owned("artifact digest must be a sha256 reference")
        } else {
            owned("test evidence reference must not be empty")
        };
        Ok(SecurityReleaseAssessmentV1 {
            release_id: request.release_id.clone(),
            environment: request.environment.clone(),
            ready,
            control_refs,
            summary,
        })
    }
}

/// A recorded treasury disbursement: the request, the correlation of the
/// authorization and the roles that approved it.
#[derive(Debug, PartialEq, Eq)]
pub struct TreasuryDisbursementRecordedV1<Q> {
    pub correlation_id: String,
    pub request: Q,
    pub approved_by_roles: Vec<InstitutionalRole>,
}

/// The finance service's ledger of disbursements.
pub struct FinanceService<Q> {
    disbursements: Vec<TreasuryDisbursementRecordedV1<Q>>,
}

fn copy_roles(v: &Vec<InstitutionalRole>) -> (r: Vec<InstitutionalRole>)
    ensures
        r@ == v@,
{
    let mut r: Vec<InstitutionalRole> = Vec::new();
    let mut i: usize = 0;
    while i < v.len()
        invariant
            i <= v.len(),
            r@ == v@.subrange(0, i as int),
        decreases v.len() - i,
    {
        r.push(v[i]);
        i = i + 1;
    }
    r
}

impl<Q: Copy> FinanceService<Q> {
    /// The recorded disbursements, oldest first.
    pub closed spec fn ledger(&self) -> Seq<TreasuryDisbursementRecordedV1<Q>> {
        self.disbursements@
    }

    /// An empty ledger.
    pub fn new() -> (s: FinanceService<Q>)
        ensures
            s.ledger().len() == 0,
    {
        FinanceService { disbursements: Vec::new() }
    }

    /// Records a disbursement authorized for the `treasury_disbursement`
    /// workflow on `finance-service`; any other authorization is an
    /// invariant violation and records nothing.
    pub fn record_disbursement(&mut self, authorization: &MutationAuthorizationV1, request: Q)
        -> (r: Result<TreasuryDisbursementRecordedV1<Q>, InstitutionalError>)
        ensures
            match r {
                Ok(rec) => authorization.workflow_name@ == "treasury_disbursement"@
                    && authorization.target_service@ == "finance-service"@
                    && rec.correlation_id@ == authorization.correlation_id@
                    && rec.request == request
                    && rec.approved_by_roles@ == authorization.approved_by_roles@
                    && final(self).ledger().len() == old(self).ledger().len() + 1
                    && final(self).ledger().drop_last() == old(self).ledger()
                    && final(self).ledger().last().correlation_id@ == authorization.correlation_id@
                    && final(self).ledger().last().request == request
                    && final(self).ledger().last().approved_by_roles@ == authorization.approved_by_roles@,
                Err(e) => final(self).ledger() == old(self).ledger()
                    && e.kind() == crate::error_model::InstitutionalErrorCategory::InvariantViolation
                    && !(authorization.workflow_name@ == "treasury_disbursement"@
                        && authorization.target_service@ == "finance-service"@),
            },
    {
        match authorization.authorize("treasury_disbursement", "finance-service",
            "services/finance-service", "record_disbursement") {
            Ok(_) => {},
            Err(e) => { return Err(e); },
        }
        let stored = TreasuryDisbursementRecordedV1 {
            correlation_id: authorization.correlation_id.clone(),
            request,
            approved_by_roles: copy_roles(&authorization.approved_by_roles),
        };
        let returned = TreasuryDisbursementRecordedV1 {
            correlation_id: authorization.correlation_id.clone(),
            request,
            approved_by_roles: copy_roles(&authorization.approved_by_roles),
        };
        let ghost before = self.disbursements@;
        self.disbursements.push(stored);
        assert(self.disbursements@.drop_last() =~= before);
        Ok(returned)
    }

    /// The recorded disbursements, oldest first.
    pub fn disbursements(&self) -> (r: &[TreasuryDisbursementRecordedV1<Q>])
        ensures
            r@ == self.ledger(),
    {
        self.disbursements.as_slice()
    }
}

/// Evidence manifests kept in memory, in the order they were recorded.
pub struct MemoryEvidenceSink<M> {
    manifests: Vec<M>,
}

impl<M> MemoryEvidenceSink<M> {
    /// The recorded manifests.
    pub closed spec fn manifests(&self) -> Seq<M> {
        self.manifests@
    }

    /// An empty sink.
    pub fn new() -> (s: MemoryEvidenceSink<M>)
        ensures
            s.manifests() == Seq::<M>::empty(),
    {
        MemoryEvidenceSink { manifests: Vec::new() }
    }

    /// Records a manifest.
    pub fn record(&mut self, manifest: M)
        ensures
            final(self).manifests() == old(self).manifests().push(manifest),
    {
        self.manifests.push(manifest);
    }

    /// The recorded manifests, oldest first.
    pub fn recorded(&self) -> (r: &[M])
        ensures
            r@ == self.manifests(),
    {
        self.manifests.as_slice()
    }

    /// How many manifests were recorded.
    pub fn len(&self) -> (n: usize)
        ensures
            n == self.manifests().len(),
    {
        self.manifests.len()
    }

    /// Whether nothing was recorded.
    pub fn is_empty(&self) -> (b: bool)
        ensures
            b == (self.manifests().len() == 0),
    {
        self.len() == 0
    }
}

/// A knowledge store that governs access to a storage backend.
pub struct GovernedKnowledgeStore<B> {
    inner: B,
}

impl<B> GovernedKnowledgeStore<B> {
    /// The backend the store governs.
    pub closed spec fn backend(&self) -> B {
        self.inner
    }

    /// A store over `inner`.
    pub fn new(inner: B) -> (s: GovernedKnowledgeStore<B>)
        ensures
            s.backend() == inner,
    {
        GovernedKnowledgeStore { inner }
    }
}

/// The engine that runs governed mutations through its policy, approval and
/// evidence ports.
pub struct WorkflowEngine<P, A, E> {
    policy_port: P,
    approval_port: A,
    evidence_sink: E,
}

impl<P, A, E> WorkflowEngine<P, A, E> {
    /// The engine's ports.
    pub closed spec fn ports(&self) -> (P, A, E) {
        (self.policy_port, self.approval_port, self.evidence_sink)
    }

    /// An engine over the given ports.
    pub fn new(policy_port: P, approval_port: A, evidence_sink: E) -> (w: WorkflowEngine<P, A, E>)
        ensures
            w.ports() == (policy_port, approval_port, evidence_sink),
    {
        WorkflowEngine { policy_port, approval_port, evidence_sink }
    }

    /// The engine's ports, handed back.
    pub fn into_parts(self) -> (r: (P, A, E))
        ensures
            r == self.ports(),
    {
        (self.policy_port, self.approval_port, self.evidence_sink)
    }
}

} // verus!
