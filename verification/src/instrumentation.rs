//! Security observations: a component's finding tied to the decision it
//! concerns, with the trace it was seen on and the evidence kept for it.

use vstd::prelude::*;
use crate::contracts::Classification;
use crate::text::{concat2, owned};

verus! {

/// The record of a piece of evidence: where it is stored, how long it is
/// kept, and the decisions it relates to.
#[derive(Debug, PartialEq, Eq)]
pub struct EvidenceManifestV1 {
    pub evidence_id: String,
    pub producer: String,
    pub artifact_hash: String,
    pub storage_ref: String,
    pub retention_class: String,
    pub classification: Classification,
    pub related_decision_refs: Vec<String>,
}

/// A component's security finding: its severity, the trace it was seen on
/// (`T`) and the evidence kept for it.
#[derive(Debug, PartialEq, Eq)]
pub struct SecurityObservation<T> {
    pub component: String,
    pub severity: String,
    pub trace: T,
    pub evidence: EvidenceManifestV1,
}

/// An observation of `component` at `severity` about the decision
/// `decision_ref`, seen on `trace`: its evidence is an internal
/// institutional record named after the decision and related to it alone.
/// The trace context, which tracing tooling outside this library creates
/// (with the decision recorded on it), is handed in by the caller rather
/// than made here.
pub fn correlate_observation<T>(component: &str, severity: &str, decision_ref: &str, trace: T)
    -> (o: SecurityObservation<T>)
    ensures
        o.component@ == component@,
        o.severity@ == severity@,
        o.trace == trace,
        o.evidence.evidence_id@ == "evidence::"@ + decision_ref@,
        o.evidence.producer@ == "shared/security-instrumentation"@,
        o.evidence.artifact_hash@ == "sha256::"@ + decision_ref@,
        o.evidence.storage_ref@ == "memory://security-observation/"@ + decision_ref@,
        o.evidence.retention_class@ == "institutional_record"@,
        o.evidence.classification == Classification::Internal,
        o.evidence.related_decision_refs@.len() == 1,
        o.evidence.related_decision_refs@[0]@ == decision_ref@,
{
    let mut related: Vec<String> = Vec::new();
    related.push(owned(decision_ref));
    let evidence = EvidenceManifestV1 {
        evidence_id: concat2("evidence::", decision_ref),
        producer: owned("shared/security-instrumentation"),
        artifact_hash: concat2("sha256::", decision_ref),
        storage_ref: concat2("memory://security-observation/", decision_ref),
        retention_class: owned("institutional_record"),
        classification: Classification::Internal,
        related_decision_refs: related,
    };
    SecurityObservation { component: owned(component), severity: owned(severity), trace, evidence }
}

} // verus!
