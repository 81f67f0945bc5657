//! The engineering service: the register of approved releases.

use vstd::prelude::*;
use crate::contracts::{
    release_window, InstitutionalRole, MutationAuthorizationV1, ReleaseApprovalRecordV1,
    ReleaseApprovalRecordView, ReleaseApprovalRequestV1, SecurityReleaseAssessmentV1,
};
use crate::command_plan::strs;
use crate::error_model::{InstitutionalError, InstitutionalErrorCategory, OperationContext};

verus! {

/// The views of a list of records.
pub open spec fn record_views(v: Seq<ReleaseApprovalRecordV1>) -> Seq<ReleaseApprovalRecordView> {
    v.map_values(|r: ReleaseApprovalRecordV1| r@)
}

/// The position of the first record of `release_id`, or -1.
pub open spec fn first_release(records: Seq<ReleaseApprovalRecordView>, release_id: Seq<char>) -> int
    decreases records.len(),
{
    if records.len() == 0 {
        -1
    } else if first_release(records.drop_last(), release_id) >= 0 {
        first_release(records.drop_last(), release_id)
    } else if records.last().release_id == release_id {
        records.len() - 1
    } else {
        -1
    }
}

/// A record with one more audit event.
pub open spec fn with_audit_event(r: ReleaseApprovalRecordView, id: Seq<char>) -> ReleaseApprovalRecordView {
    ReleaseApprovalRecordView { audit_event_ids: r.audit_event_ids.push(id), ..r }
}

/// The engineering service.
pub struct EngineeringService {
    release_approvals: Vec<ReleaseApprovalRecordV1>,
}

proof fn lemma_first_release(records: Seq<ReleaseApprovalRecordView>, release_id: Seq<char>)
    ensures
        -1 <= first_release(records, release_id) < records.len(),
        first_release(records, release_id) >= 0 ==> records[first_release(records, release_id)].release_id == release_id,
        forall|j: int| 0 <= j < records.len() && (first_release(records, release_id) == -1 || j < first_release(records, release_id))
            ==> records[j].release_id != release_id,
    decreases records.len(),
{
    if records.len() > 0 {
        let prefix = records.drop_last();
        lemma_first_release(prefix, release_id);
        assert forall|j: int| 0 <= j < prefix.len() implies prefix[j] == records[j] by {}
    }
}

impl EngineeringService {
    /// The approved releases, oldest first.
    pub closed spec fn approvals(&self) -> Seq<ReleaseApprovalRecordView> {
        record_views(self.release_approvals@)
    }

    /// A service with no approvals.
    pub fn new() -> (s: EngineeringService)
        ensures
            s.approvals() == Seq::<ReleaseApprovalRecordView>::empty(),
    {
        let s = EngineeringService { release_approvals: Vec::new() };
        assert(s.approvals() =~= Seq::<ReleaseApprovalRecordView>::empty());
        s
    }

    /// Approves a release: the authorization must be for the
    /// `release_approval` workflow on `engineering-service` (else an
    /// invariant violation), and the security assessment must be ready (else
    /// a policy denial carrying its summary). The approval is recorded with
    /// the authorizing roles.
    pub fn approve_release(
        &mut self,
        authorization: &MutationAuthorizationV1,
        request: ReleaseApprovalRequestV1,
        security: &SecurityReleaseAssessmentV1,
        evidence_refs: Vec<String>,
        audit_event_ids: Vec<String>,
    ) -> (r: Result<ReleaseApprovalRecordV1, InstitutionalError>)
        ensures
            match r {
                Ok(rec) => authorization.workflow_name@ == "release_approval"@
                    && authorization.target_service@ == "engineering-service"@
                    && security.ready
                    && rec@ == (ReleaseApprovalRecordView {
                        release_id: request.release_id@,
                        environment: request.environment@,
                        release_window_ref: release_window(request.environment@, request.release_id@),
                        approved_by_roles: authorization.approved_by_roles@,
                        evidence_refs: strs(evidence_refs@),
                        audit_event_ids: strs(audit_event_ids@),
                    })
                    && final(self).approvals() == old(self).approvals().push(rec@),
                Err(e) => final(self).approvals() == old(self).approvals()
                    && if authorization.workflow_name@ == "release_approval"@
                        && authorization.target_service@ == "engineering-service"@ {
                        !security.ready && e.kind() == InstitutionalErrorCategory::PolicyDenied
                            && e.msg()@ == security.summary@
                            && e.ctx().subsystem@ == "services/engineering-service"@
                            && e.ctx().operation@ == "approve_release"@
                    } else {
                        e.kind() == InstitutionalErrorCategory::InvariantViolation
                    },
            },
    {
        match authorization.authorize("release_approval", "engineering-service",
            "services/engineering-service", "approve_release") {
            Ok(_) => {},
            Err(e) => { return Err(e); },
        }
        if !security.ready {
            return Err(InstitutionalError::policy_denied(
                OperationContext::new("services/engineering-service", "approve_release"),
                security.summary.as_str(),
            ));
        }
        let mut roles: Vec<InstitutionalRole> = Vec::new();
        let mut i: usize = 0;
        while i < authorization.approved_by_roles.len()
            invariant
                i <= authorization.approved_by_roles.len(),
                roles@ == authorization.approved_by_roles@.subrange(0, i as int),
            decreases authorization.approved_by_roles.len() - i,
        {
            roles.push(authorization.approved_by_roles[i]);
            i = i + 1;
        }
        assert(authorization.approved_by_roles@.subrange(0, i as int) =~= authorization.approved_by_roles@);
        let record = ReleaseApprovalRecordV1::new(&request, roles, evidence_refs, audit_event_ids);
        let ghost before = self.approvals();
        self.release_approvals.push(record.duplicate());
        assert(self.approvals() =~= before.push(record@));
        Ok(record)
    }

    /// Records another audit event for the first approval of `release_id`;
    /// without one, the release is not found.
    pub fn append_audit_event(&mut self, release_id: &str, audit_event_id: String)
        -> (r: Result<ReleaseApprovalRecordV1, InstitutionalError>)
        ensures
            ({
                let k = first_release(old(self).approvals(), release_id@);
                match r {
                    Ok(rec) => k >= 0
                        && rec@ == with_audit_event(old(self).approvals()[k], audit_event_id@)
                        && final(self).approvals() == old(self).approvals().update(k, rec@),
                    Err(e) => k == -1 && final(self).approvals() == old(self).approvals()
                        && e.kind() == InstitutionalErrorCategory::NotFound
                        && e.msg()@ == release_id@
                        && e.ctx().subsystem@ == "services/engineering-service"@
                        && e.ctx().operation@ == "append_audit_event"@,
                }
            }),
    {
        let ghost old_views = self.approvals();
        proof {
            lemma_first_release(old_views, release_id@);
        }
        let id = crate::text::owned(release_id);
        let mut i: usize = 0;
        while i < self.release_approvals.len()
            invariant
                i <= self.release_approvals.len(),
                self.approvals() == old_views,
                old_views == old(self).approvals(),
                id@ == release_id@,
                -1 <= first_release(old_views, release_id@) < old_views.len(),
                first_release(old_views, release_id@) >= 0 ==> old_views[first_release(old_views, release_id@)].release_id == release_id@,
                forall|j: int| 0 <= j < old_views.len() && (first_release(old_views, release_id@) == -1 || j < first_release(old_views, release_id@))
                    ==> old_views[j].release_id != release_id@,
                forall|j: int| 0 <= j < i ==> old_views[j].release_id != release_id@,
            decreases self.release_approvals.len() - i,
        {
            if self.release_approvals[i].release_id == id {
                assert(old_views[i as int].release_id == release_id@);
                assert(first_release(old_views, release_id@) == i);
                let mut rec = self.release_approvals.remove(i);
                rec.audit_event_ids.push(audit_event_id);
                assert(rec@ == with_audit_event(old_views[i as int], audit_event_id@)) by {
                    assert(rec@.audit_event_ids =~= old_views[i as int].audit_event_ids.push(audit_event_id@));
                }
                let out = rec.duplicate();
                self.release_approvals.insert(i, rec);
                assert(self.approvals() =~= old_views.update(i as int, out@));
                return Ok(out);
            }
            i = i + 1;
        }
        assert(first_release(old_views, release_id@) == -1);
        Err(InstitutionalError::not_found(
            OperationContext::new("services/engineering-service", "append_audit_event"),
            release_id,
        ))
    }

    /// The approved releases, oldest first.
    pub fn release_approvals(&self) -> (r: &[ReleaseApprovalRecordV1])
        ensures
            record_views(r@) == self.approvals(),
    {
        self.release_approvals.as_slice()
    }
}

/// Once a release is approved, its record can be found again by release id:
/// the search that appending an audit event makes finds the new record when
/// no earlier record carries the same release id, and an earlier one
/// otherwise.
pub proof fn law_approved_release_is_found(records: Seq<ReleaseApprovalRecordView>, rec: ReleaseApprovalRecordView)
    ensures
        first_release(records.push(rec), rec.release_id) >= 0,
        first_release(records, rec.release_id) == -1
            ==> first_release(records.push(rec), rec.release_id) == records.len(),
        first_release(records, rec.release_id) >= 0
            ==> first_release(records.push(rec), rec.release_id) == first_release(records, rec.release_id),
{
    assert(records.push(rec).drop_last() =~= records);
}

} // verus!
