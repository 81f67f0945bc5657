//! The governance service: model approvals kept by model and version, and
//! the promotion recommendations it has recorded.

use vstd::prelude::*;
use crate::contracts::{MutationAuthorizationV1, ServiceBoundaryV1};
use crate::error_model::{InstitutionalError, InstitutionalErrorCategory};
use crate::ordered::{lemma_lt_irreflexive, seq_lt, strictly_sorted, StrMap};
use crate::command_plan::strs;
use crate::text::{concat3, owned};

verus! {

/// The approval state of a model version.
#[derive(Debug, Clone, Copy, PartialEq, Eq)]
pub enum ModelApprovalStatusV1 {
    Pending,
    Approved,
}

/// A model version submitted to governance.
#[derive(Debug, PartialEq, Eq)]
pub struct ModelApprovalV1 {
    pub model_id: String,
    pub version: String,
    pub approved_by: Option<String>,
    pub status: ModelApprovalStatusV1,
    pub notes: String,
}

/// The content of a model approval.
pub struct ModelApprovalView {
    pub model_id: Seq<char>,
    pub version: Seq<char>,
    pub approved_by: Option<Seq<char>>,
    pub status: ModelApprovalStatusV1,
    pub notes: Seq<char>,
}

impl View for ModelApprovalV1 {
    type V = ModelApprovalView;

    open spec fn view(&self) -> ModelApprovalView {
        ModelApprovalView {
            model_id: self.model_id@,
            version: self.version@,
            approved_by: match self.approved_by {
                Some(r) => Some(r@),
                None => None,
            },
            status: self.status,
            notes: self.notes@,
        }
    }
}

/// The catalog key of a model version: `<model>:<version>`.
pub open spec fn model_key(model_id: Seq<char>, version: Seq<char>) -> Seq<char> {
    model_id + ":"@ + version
}

/// The labels of the approved models of a catalog, in catalog order.
pub open spec fn approved_labels(models: Seq<ModelApprovalView>) -> Seq<Seq<char>>
    decreases models.len(),
{
    if models.len() == 0 {
        Seq::empty()
    } else {
        let rest = approved_labels(models.drop_last());
        let m = models.last();
        if m.status == ModelApprovalStatusV1::Approved {
            rest.push(model_key(m.model_id, m.version))
        } else {
            rest
        }
    }
}

/// A catalog after submitting a model version: the version is pending
/// under its key, replacing an earlier submission under that key.
pub open spec fn submitted(
    models: Map<Seq<char>, ModelApprovalView>,
    model_id: Seq<char>,
    version: Seq<char>,
    notes: Seq<char>,
) -> Map<Seq<char>, ModelApprovalView> {
    models.insert(model_key(model_id, version), ModelApprovalView {
        model_id,
        version,
        approved_by: None,
        status: ModelApprovalStatusV1::Pending,
        notes,
    })
}

/// A catalog after approving a model version on behalf of `approver`: a
/// submitted version is marked approved by the approver, anything else is
/// left alone.
pub open spec fn approved(
    models: Map<Seq<char>, ModelApprovalView>,
    model_id: Seq<char>,
    version: Seq<char>,
    approver: Seq<char>,
) -> Map<Seq<char>, ModelApprovalView> {
    let k = model_key(model_id, version);
    if models.contains_key(k) {
        models.insert(k, ModelApprovalView {
            approved_by: Some(approver),
            status: ModelApprovalStatusV1::Approved,
            ..models[k]
        })
    } else {
        models
    }
}

/// Submitting a model version and then approving it leaves that version
/// approved by the approver, with the notes it was submitted with, and
/// every other entry as it was.
pub proof fn law_submit_then_approve(
    models: Map<Seq<char>, ModelApprovalView>,
    model_id: Seq<char>,
    version: Seq<char>,
    notes: Seq<char>,
    approver: Seq<char>,
)
    ensures
        approved(submitted(models, model_id, version, notes), model_id, version, approver)
            == models.insert(model_key(model_id, version), ModelApprovalView {
                model_id,
                version,
                approved_by: Some(approver),
                status: ModelApprovalStatusV1::Approved,
                notes,
            }),
{
    let k = model_key(model_id, version);
    assert(submitted(models, model_id, version, notes).contains_key(k));
    assert(approved(submitted(models, model_id, version, notes), model_id, version, approver)
        =~= models.insert(k, ModelApprovalView {
            model_id,
            version,
            approved_by: Some(approver),
            status: ModelApprovalStatusV1::Approved,
            notes,
        }));
}

/// Approving a version that was never submitted changes nothing.
pub proof fn law_approve_unsubmitted_is_noop(
    models: Map<Seq<char>, ModelApprovalView>,
    model_id: Seq<char>,
    version: Seq<char>,
    approver: Seq<char>,
)
    requires
        !models.contains_key(model_key(model_id, version)),
    ensures
        approved(models, model_id, version, approver) == models,
{
}

/// One call that changes the catalog of submitted models.
pub enum ModelOp {
    /// `submit_model(model_id, version, notes)`.
    Submit { model_id: Seq<char>, version: Seq<char>, notes: Seq<char> },
    /// `approve_model(model_id, version, approver)`.
    Approve { model_id: Seq<char>, version: Seq<char>, approver: Seq<char> },
}

/// The catalog key an operation acts on.
pub open spec fn op_key(op: ModelOp) -> Seq<char> {
    match op {
        ModelOp::Submit { model_id, version, .. } => model_key(model_id, version),
        ModelOp::Approve { model_id, version, .. } => model_key(model_id, version),
    }
}

/// A catalog after one operation.
pub open spec fn apply_op(models: Map<Seq<char>, ModelApprovalView>, op: ModelOp) -> Map<Seq<char>, ModelApprovalView> {
    match op {
        ModelOp::Submit { model_id, version, notes } => submitted(models, model_id, version, notes),
        ModelOp::Approve { model_id, version, approver } => approved(models, model_id, version, approver),
    }
}

/// A catalog after a sequence of operations, applied in order.
pub open spec fn replay(models: Map<Seq<char>, ModelApprovalView>, ops: Seq<ModelOp>) -> Map<Seq<char>, ModelApprovalView>
    decreases ops.len(),
{
    if ops.len() == 0 {
        models
    } else {
        apply_op(replay(models, ops.drop_last()), ops.last())
    }
}

/// The position of the last submission (`submits`) or the last approval
/// (`!submits`) of key `k` in `ops`, or -1.
pub open spec fn last_of(ops: Seq<ModelOp>, k: Seq<char>, submits: bool) -> int
    decreases ops.len(),
{
    if ops.len() == 0 {
        -1
    } else if op_key(ops.last()) == k && (ops.last() is Submit) == submits {
        ops.len() - 1
    } else {
        last_of(ops.drop_last(), k, submits)
    }
}

/// The keys of `keys` that satisfy `pred`, in order.
pub open spec fn keys_where(keys: Seq<Seq<char>>, pred: spec_fn(Seq<char>) -> bool) -> Seq<Seq<char>>
    decreases keys.len(),
{
    if keys.len() == 0 {
        Seq::empty()
    } else {
        let rest = keys_where(keys.drop_last(), pred);
        if pred(keys.last()) { rest.push(keys.last()) } else { rest }
    }
}

proof fn lemma_last_of(ops: Seq<ModelOp>, k: Seq<char>, submits: bool)
    ensures
        -1 <= last_of(ops, k, submits) < ops.len(),
        last_of(ops, k, submits) >= 0 ==> op_key(ops[last_of(ops, k, submits)]) == k
            && (ops[last_of(ops, k, submits)] is Submit) == submits,
    decreases ops.len(),
{
    if ops.len() > 0 {
        lemma_last_of(ops.drop_last(), k, submits);
    }
}

/// Starting from an empty catalog, after any sequence of submissions and
/// approvals a key is in the catalog exactly when it was submitted; its
/// entry carries the model, version and notes of its last submission, and it
/// is approved, by the approver of its last approval, exactly when that
/// approval came after the last submission; otherwise it is pending with no
/// approver. Approving a key never submitted, and approving before a
/// resubmission, therefore leave no trace.
pub proof fn law_catalog_after_calls(ops: Seq<ModelOp>, k: Seq<char>)
    ensures
        ({
            let m = replay(Map::empty(), ops);
            let s = last_of(ops, k, true);
            let a = last_of(ops, k, false);
            &&& m.contains_key(k) <==> s >= 0
            &&& s >= 0 ==> {
                &&& ops[s] matches ModelOp::Submit { model_id, version, notes }
                    && m[k].model_id == model_id && m[k].version == version && m[k].notes == notes
                &&& model_key(m[k].model_id, m[k].version) == k
                &&& if a > s {
                    &&& m[k].status == ModelApprovalStatusV1::Approved
                    &&& ops[a] matches ModelOp::Approve { approver, .. } && m[k].approved_by == Some(approver)
                } else {
                    &&& m[k].status == ModelApprovalStatusV1::Pending
                    &&& m[k].approved_by is None
                }
            }
        }),
    decreases ops.len(),
{
    if ops.len() > 0 {
        let init = ops.drop_last();
        law_catalog_after_calls(init, k);
        lemma_last_of(init, k, true);
        lemma_last_of(init, k, false);
        let prev = replay(Map::empty(), init);
        let op = ops.last();
        assert(replay(Map::empty(), ops) == apply_op(prev, op));
        let s0 = last_of(init, k, true);
        if s0 >= 0 {
            assert(ops[s0] == init[s0]);
        }
        let a0 = last_of(init, k, false);
        if a0 >= 0 {
            assert(ops[a0] == init[a0]);
        }
    }
}

proof fn lemma_keys_where(keys: Seq<Seq<char>>, pred: spec_fn(Seq<char>) -> bool)
    requires
        strictly_sorted(keys),
    ensures
        strictly_sorted(keys_where(keys, pred)),
        forall|x: Seq<char>| #[trigger] keys_where(keys, pred).contains(x) <==> keys.contains(x) && pred(x),
    decreases keys.len(),
{
    if keys.len() > 0 {
        let init = keys.drop_last();
        assert(strictly_sorted(init)) by {
            assert forall|i: int, j: int| 0 <= i < j < init.len() implies seq_lt(#[trigger] init[i], #[trigger] init[j]) by {
                assert(init[i] == keys[i] && init[j] == keys[j]);
            }
        }
        lemma_keys_where(init, pred);
        let rest = keys_where(init, pred);
        assert forall|x: Seq<char>| keys.contains(x) <==> init.contains(x) || x == keys.last() by {
            if keys.contains(x) && x != keys.last() {
                let i = keys.index_of(x);
                assert(init[i] == x);
            }
            if init.contains(x) {
                let i = init.index_of(x);
                assert(keys[i] == x);
            }
            if x == keys.last() {
                assert(keys[keys.len() - 1] == x);
            }
        }
        if pred(keys.last()) {
            let out = rest.push(keys.last());
            assert forall|i: int, j: int| 0 <= i < j < out.len() implies seq_lt(#[trigger] out[i], #[trigger] out[j]) by {
                if j == out.len() - 1 {
                    assert(rest.contains(out[i]));
                    let p = init.index_of(out[i]);
                    assert(keys[p] == out[i]);
                    assert(seq_lt(keys[p], keys[keys.len() - 1]));
                } else {
                    assert(out[i] == rest[i] && out[j] == rest[j]);
                }
            }
            assert forall|x: Seq<char>| #[trigger] out.contains(x) <==> keys.contains(x) && pred(x) by {
                if out.contains(x) && x != keys.last() {
                    let i = out.index_of(x);
                    assert(rest[i] == x);
                }
                if rest.contains(x) {
                    let i = rest.index_of(x);
                    assert(out[i] == x);
                }
                if x == keys.last() {
                    assert(out[out.len() - 1] == x);
                }
            }
        } else {
            assert forall|x: Seq<char>| #[trigger] rest.contains(x) <==> keys.contains(x) && pred(x) by {
                if x == keys.last() && rest.contains(x) {
                    let i = init.index_of(x);
                    assert(keys[i] == x);
                    assert(seq_lt(keys[i], keys[keys.len() - 1]));
                    lemma_lt_irreflexive(x);
                }
            }
        }
    }
}

proof fn lemma_labels_of_keys(
    keys: Seq<Seq<char>>,
    ordered: Seq<ModelApprovalView>,
    models: Map<Seq<char>, ModelApprovalView>,
)
    requires
        keys.len() == ordered.len(),
        forall|i: int| 0 <= i < keys.len() ==> #[trigger] models[keys[i]] == ordered[i],
        forall|i: int| 0 <= i < keys.len()
            ==> model_key(#[trigger] ordered[i].model_id, ordered[i].version) == keys[i],
    ensures
        approved_labels(ordered)
            == keys_where(keys, |k: Seq<char>| models[k].status == ModelApprovalStatusV1::Approved),
    decreases keys.len(),
{
    if keys.len() > 0 {
        let ki = keys.drop_last();
        let oi = ordered.drop_last();
        assert forall|i: int| 0 <= i < ki.len() implies #[trigger] models[ki[i]] == oi[i] by {
            assert(models[keys[i]] == ordered[i]);
        }
        assert forall|i: int| 0 <= i < ki.len() implies model_key(#[trigger] oi[i].model_id, oi[i].version) == ki[i] by {
            assert(model_key(ordered[i].model_id, ordered[i].version) == keys[i]);
        }
        lemma_labels_of_keys(ki, oi, models);
        assert(models[keys[keys.len() - 1]] == ordered[ordered.len() - 1]);
        assert(model_key(ordered[ordered.len() - 1].model_id, ordered[ordered.len() - 1].version) == keys[keys.len() - 1]);
    }
}

/// After any sequence of submissions and approvals on a new service, the
/// labels `approved_models` lists are the keys whose last approval came
/// after their last submission, each once, in strictly increasing order.
/// The requirements on `keys` and `ordered` are what `approved_models`
/// ensures of `model_keys()` and `ordered_models()`.
pub proof fn law_approved_models_after_calls(
    ops: Seq<ModelOp>,
    keys: Seq<Seq<char>>,
    ordered: Seq<ModelApprovalView>,
)
    requires
        strictly_sorted(keys),
        keys.len() == ordered.len(),
        forall|k: Seq<char>| #[trigger] replay(Map::empty(), ops).contains_key(k) <==> keys.contains(k),
        forall|i: int| 0 <= i < keys.len() ==> #[trigger] replay(Map::empty(), ops)[keys[i]] == ordered[i],
    ensures
        approved_labels(ordered)
            == keys_where(keys, |k: Seq<char>| last_of(ops, k, false) > last_of(ops, k, true)),
        strictly_sorted(approved_labels(ordered)),
        forall|k: Seq<char>| #[trigger] approved_labels(ordered).contains(k)
            <==> last_of(ops, k, true) >= 0 && last_of(ops, k, false) > last_of(ops, k, true),
{
    let m = replay(Map::empty(), ops);
    assert forall|i: int| 0 <= i < keys.len()
        implies model_key(#[trigger] ordered[i].model_id, ordered[i].version) == keys[i] by {
        law_catalog_after_calls(ops, keys[i]);
        assert(keys.contains(keys[i]));
    }
    lemma_labels_of_keys(keys, ordered, m);
    let by_status = |k: Seq<char>| m[k].status == ModelApprovalStatusV1::Approved;
    let by_calls = |k: Seq<char>| last_of(ops, k, false) > last_of(ops, k, true);
    assert forall|i: int| 0 <= i < keys.len() implies by_status(#[trigger] keys[i]) == by_calls(keys[i]) by {
        law_catalog_after_calls(ops, keys[i]);
        assert(keys.contains(keys[i]));
    }
    assert(keys_where(keys, by_status) == keys_where(keys, by_calls)) by {
        lemma_keys_where_same(keys, by_status, by_calls);
    }
    lemma_keys_where(keys, by_calls);
    assert forall|k: Seq<char>| #[trigger] approved_labels(ordered).contains(k)
        <==> last_of(ops, k, true) >= 0 && last_of(ops, k, false) > last_of(ops, k, true) by {
        law_catalog_after_calls(ops, k);
        lemma_last_of(ops, k, true);
    }
}

proof fn lemma_keys_where_same(
    keys: Seq<Seq<char>>,
    p: spec_fn(Seq<char>) -> bool,
    q: spec_fn(Seq<char>) -> bool,
)
    requires
        forall|i: int| 0 <= i < keys.len() ==> p(#[trigger] keys[i]) == q(keys[i]),
    ensures
        keys_where(keys, p) == keys_where(keys, q),
    decreases keys.len(),
{
    if keys.len() > 0 {
        let init = keys.drop_last();
        assert forall|i: int| 0 <= i < init.len() implies p(#[trigger] init[i]) == q(init[i]) by {
            assert(init[i] == keys[i]);
        }
        lemma_keys_where_same(init, p, q);
        assert(p(keys[keys.len() - 1]) == q(keys[keys.len() - 1]));
    }
}

struct InMemoryGovernanceStore<R> {
    approvals: StrMap<ModelApprovalV1>,
    recommendations: Vec<R>,
}

impl<R> InMemoryGovernanceStore<R> {
    fn submit_model(&mut self, model_id: &str, version: &str, notes: &str)
        ensures
            final(self).approvals.view() == old(self).approvals.view().insert(
                model_key(model_id@, version@),
                final(self).approvals.view()[model_key(model_id@, version@)],
            ),
            final(self).approvals.view()[model_key(model_id@, version@)]@ == (ModelApprovalView {
                model_id: model_id@,
                version: version@,
                approved_by: None,
                status: ModelApprovalStatusV1::Pending,
                notes: notes@,
            }),
            final(self).recommendations == old(self).recommendations,
    {
        let entry = ModelApprovalV1 {
            model_id: owned(model_id),
            version: owned(version),
            approved_by: None,
            status: ModelApprovalStatusV1::Pending,
            notes: owned(notes),
        };
        self.approvals.insert(concat3(model_id, ":", version), entry);
    }

    fn approve_model(&mut self, model_id: &str, version: &str, approver: &str)
        ensures
            ({
                let k = model_key(model_id@, version@);
                if old(self).approvals.view().contains_key(k) {
                    &&& final(self).approvals.view() == old(self).approvals.view().insert(k, final(self).approvals.view()[k])
                    &&& final(self).approvals.view()[k]@ == (ModelApprovalView {
                        approved_by: Some(approver@),
                        status: ModelApprovalStatusV1::Approved,
                        ..old(self).approvals.view()[k]@
                    })
                } else {
                    final(self).approvals.view() == old(self).approvals.view()
                }
            }),
            final(self).recommendations == old(self).recommendations,
    {
        let key = concat3(model_id, ":", version);
        match self.approvals.get_index(key.as_str()) {
            Some(i) => {
                proof {
                    use_type_invariant(&self.approvals);
                    self.approvals.lemma_layout();
                }
                let current = self.approvals.value_at(i);
                let updated = ModelApprovalV1 {
                    model_id: current.model_id.clone(),
                    version: current.version.clone(),
                    approved_by: Some(owned(approver)),
                    status: ModelApprovalStatusV1::Approved,
                    notes: current.notes.clone(),
                };
                assert(self.approvals.view()[key@] == *current);
                self.approvals.set_value_at(i, updated);
            },
            None => {},
        }
    }

    fn approved_models(&self) -> (r: Vec<String>)
        ensures
            strs(r@) == approved_labels(self.approvals.values().map_values(|m: ModelApprovalV1| m@)),
    {
        let mut out: Vec<String> = Vec::new();
        let n = self.approvals.len();
        let ghost ms = self.approvals.values().map_values(|m: ModelApprovalV1| m@);
        let mut i: usize = 0;
        while i < n
            invariant
                i <= n,
                n == self.approvals.values().len(),
                n == self.approvals.keys().len(),
                ms == self.approvals.values().map_values(|m: ModelApprovalV1| m@),
                strs(out@) == approved_labels(ms.subrange(0, i as int)),
            decreases n - i,
        {
            let m = self.approvals.value_at(i);
            assert(ms.subrange(0, i + 1).drop_last() =~= ms.subrange(0, i as int));
            assert(ms.subrange(0, i + 1).last() == m@);
            if matches!(m.status, ModelApprovalStatusV1::Approved) {
                let ghost before = strs(out@);
                out.push(concat3(m.model_id.as_str(), ":", m.version.as_str()));
                assert(strs(out@) =~= before.push(model_key(m.model_id@, m.version@)));
            }
            i = i + 1;
        }
        assert(ms.subrange(0, i as int) =~= ms);
        out
    }

    fn record_recommendation(&mut self, recommendation: R)
        ensures
            final(self).recommendations@ == old(self).recommendations@.push(recommendation),
            final(self).approvals == old(self).approvals,
    {
        self.recommendations.push(recommendation);
    }

    fn recommendations(&self) -> (r: &[R])
        ensures
            r@ == self.recommendations@,
    {
        self.recommendations.as_slice()
    }
}

/// The governance service.
pub struct GovernanceService<R> {
    store: InMemoryGovernanceStore<R>,
}

impl<R> GovernanceService<R> {
    /// The submitted models, by catalog key.
    pub closed spec fn models(&self) -> Map<Seq<char>, ModelApprovalView> {
        self.store.approvals.view().map_values(|m: ModelApprovalV1| m@)
    }

    /// The catalog keys, in increasing order.
    pub closed spec fn model_keys(&self) -> Seq<Seq<char>> {
        self.store.approvals.keys()
    }

    /// The submitted models, in the order of their keys.
    pub closed spec fn ordered_models(&self) -> Seq<ModelApprovalView> {
        self.store.approvals.values().map_values(|m: ModelApprovalV1| m@)
    }

    /// The recorded recommendations, oldest first.
    pub closed spec fn recorded(&self) -> Seq<R> {
        self.store.recommendations@
    }

    /// A service with nothing submitted.
    pub fn new() -> (s: GovernanceService<R>)
        ensures
            s.models() == Map::<Seq<char>, ModelApprovalView>::empty(),
            s.recorded() == Seq::<R>::empty(),
    {
        let s = GovernanceService {
            store: InMemoryGovernanceStore { approvals: StrMap::new(), recommendations: Vec::new() },
        };
        assert(s.models() =~= Map::<Seq<char>, ModelApprovalView>::empty());
        s
    }

    /// Submits a model version, pending approval, replacing an earlier
    /// submission under the same key.
    pub fn submit_model(&mut self, model_id: &str, version: &str, notes: &str)
        ensures
            final(self).models() == submitted(old(self).models(), model_id@, version@, notes@),
            final(self).recorded() == old(self).recorded(),
    {
        self.store.submit_model(model_id, version, notes);
        assert(self.models() =~= submitted(old(self).models(), model_id@, version@, notes@));
    }

    /// Approves a submitted model version on behalf of `approver`; a version
    /// never submitted is left alone.
    pub fn approve_model(&mut self, model_id: &str, version: &str, approver: &str)
        ensures
            final(self).models() == approved(old(self).models(), model_id@, version@, approver@),
            final(self).recorded() == old(self).recorded(),
    {
        let ghost k = model_key(model_id@, version@);
        self.store.approve_model(model_id, version, approver);
        proof {
            if old(self).models().contains_key(k) {
                assert(self.models() =~= old(self).models().insert(k, ModelApprovalView {
                    approved_by: Some(approver@),
                    status: ModelApprovalStatusV1::Approved,
                    ..old(self).models()[k]
                }));
            } else {
                assert(self.models() =~= old(self).models());
            }
        }
    }

    /// The labels `<model>:<version>` of the approved models, in key order.
    pub fn approved_models(&self) -> (r: Vec<String>)
        ensures
            strs(r@) == approved_labels(self.ordered_models()),
            strictly_sorted(self.model_keys()),
            self.model_keys().len() == self.ordered_models().len(),
            forall|k: Seq<char>| #[trigger] self.models().contains_key(k) <==> self.model_keys().contains(k),
            forall|i: int| 0 <= i < self.model_keys().len()
                ==> #[trigger] self.models()[self.model_keys()[i]] == self.ordered_models()[i],
    {
        proof {
            use_type_invariant(&self.store.approvals);
            self.store.approvals.lemma_layout();
        }
        self.store.approved_models()
    }

    /// Records a promotion recommendation authorized for the
    /// `quant_strategy_promotion` workflow on `governance-service`; any other
    /// authorization is an invariant violation and records nothing.
    pub fn record_recommendation(&mut self, authorization: &MutationAuthorizationV1, recommendation: R)
        -> (r: Result<R, InstitutionalError>)
        where R: Clone
        ensures
            match r {
                Ok(rec) => authorization.workflow_name@ == "quant_strategy_promotion"@
                    && authorization.target_service@ == "governance-service"@
                    && rec == recommendation
                    && final(self).recorded().len() == old(self).recorded().len() + 1
                    && final(self).recorded().drop_last() == old(self).recorded()
                    && cloned(recommendation, final(self).recorded().last()),
                Err(e) => final(self).recorded() == old(self).recorded()
                    && e.kind() == InstitutionalErrorCategory::InvariantViolation
                    && !(authorization.workflow_name@ == "quant_strategy_promotion"@
                        && authorization.target_service@ == "governance-service"@),
            },
            final(self).models() == old(self).models(),
    {
        match authorization.authorize("quant_strategy_promotion", "governance-service",
            "services/governance-service", "record_recommendation") {
            Ok(_) => {},
            Err(e) => { return Err(e); },
        }
        let stored = recommendation.clone();
        let ghost before = self.store.recommendations@;
        self.store.record_recommendation(stored);
        assert(self.store.recommendations@.drop_last() =~= before);
        Ok(recommendation)
    }

    /// The recorded recommendations, oldest first.
    pub fn recommendations(&self) -> (r: &[R])
        ensures
            r@ == self.recorded(),
    {
        self.store.recommendations()
    }
}

/// The governance service's boundary.
pub fn service_boundary() -> (b: ServiceBoundaryV1)
    ensures
        b.service_name@ == "governance-service"@,
        b.domain@ == "strategy_governance"@,
        strs(b.approved_workflows@) == seq!["strategy_review"@, "policy_exception"@, "quant_strategy_promotion"@],
        strs(b.owned_aggregates@) == seq!["governance_decision"@, "institutional_invariant"@,
            "promotion_recommendation"@, "model_approval"@],
{
    let mut workflows: Vec<String> = Vec::new();
    workflows.push(owned("strategy_review"));
    workflows.push(owned("policy_exception"));
    workflows.push(owned("quant_strategy_promotion"));
    let mut aggregates: Vec<String> = Vec::new();
    aggregates.push(owned("governance_decision"));
    aggregates.push(owned("institutional_invariant"));
    aggregates.push(owned("promotion_recommendation"));
    aggregates.push(owned("model_approval"));
    let b = ServiceBoundaryV1 {
        service_name: owned("governance-service"),
        domain: owned("strategy_governance"),
        approved_workflows: workflows,
        owned_aggregates: aggregates,
    };
    assert(strs(b.approved_workflows@) =~= seq!["strategy_review"@, "policy_exception"@, "quant_strategy_promotion"@]);
    assert(strs(b.owned_aggregates@) =~= seq!["governance_decision"@, "institutional_invariant"@,
        "promotion_recommendation"@, "model_approval"@]);
    b
}

} // verus!
