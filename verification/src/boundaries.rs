//! Consistency of the service and workflow boundary catalogs, and the
//! agreement of a service's boundary with its enterprise catalog entry.

use vstd::prelude::*;
use crate::command_plan::strs;
use crate::contracts::{ServiceBoundaryV1, WorkflowBoundaryV1};
use crate::text::{concat3, owned};

verus! {

/// Whether two lists of strings hold the same strings in the same order.
pub fn same_strings(a: &Vec<String>, b: &Vec<String>) -> (r: bool)
    ensures
        r == (strs(a@) == strs(b@)),
{
    if a.len() != b.len() {
        assert(strs(a@).len() != strs(b@).len());
        return false;
    }
    let mut i: usize = 0;
    while i < a.len()
        invariant
            i <= a.len(),
            a.len() == b.len(),
            forall|j: int| 0 <= j < i ==> a@[j]@ == b@[j]@,
        decreases a.len() - i,
    {
        if a[i] != b[i] {
            assert(strs(a@)[i as int] != strs(b@)[i as int]);
            return false;
        }
        i = i + 1;
    }
    assert(strs(a@) =~= strs(b@));
    true
}

/// Whether a list of strings holds `s`.
pub fn holds_string(v: &Vec<String>, s: &String) -> (r: bool)
    ensures
        r == strs(v@).contains(s@),
{
    let mut i: usize = 0;
    while i < v.len()
        invariant
            i <= v.len(),
            forall|j: int| 0 <= j < i ==> v@[j]@ != s@,
        decreases v.len() - i,
    {
        if v[i] == *s {
            assert(strs(v@)[i as int] == s@);
            return true;
        }
        i = i + 1;
    }
    assert(!strs(v@).contains(s@)) by {
        if strs(v@).contains(s@) {
            let j = strs(v@).index_of(s@);
            assert(v@[j]@ == s@);
        }
    }
    false
}

/// The position of the last service boundary named `name`, or -1.
pub open spec fn last_service(services: Seq<ServiceBoundaryV1>, name: Seq<char>) -> int
    decreases services.len(),
{
    if services.len() == 0 {
        -1
    } else if services.last().service_name@ == name {
        services.len() - 1
    } else {
        last_service(services.drop_last(), name)
    }
}

/// The first workflow target that has no boundary or does not approve the
/// workflow, scanning targets in order: the workflow, the target, and
/// whether the target has a boundary.
pub open spec fn target_failure(services: Seq<ServiceBoundaryV1>, w: WorkflowBoundaryV1, targets: Seq<String>)
    -> Option<(Seq<char>, bool)>
    decreases targets.len(),
{
    if targets.len() == 0 {
        None
    } else {
        let t = targets[0]@;
        let k = last_service(services, t);
        if k < 0 {
            Some((t, false))
        } else if !strs(services[k].approved_workflows@).contains(w.workflow_name@) {
            Some((t, true))
        } else {
            target_failure(services, w, targets.drop_first())
        }
    }
}

/// The first failure over a list of workflows.
pub open spec fn catalog_target_failure(services: Seq<ServiceBoundaryV1>, workflows: Seq<WorkflowBoundaryV1>)
    -> Option<(Seq<char>, Seq<char>, bool)>
    decreases workflows.len(),
{
    if workflows.len() == 0 {
        None
    } else {
        match target_failure(services, workflows[0], workflows[0].target_services@) {
            Some((t, known)) => Some((workflows[0].workflow_name@, t, known)),
            None => catalog_target_failure(services, workflows.drop_first()),
        }
    }
}

/// Whether every target in `targets` has a boundary (the last declared
/// under its name) that approves workflow `w`.
pub open spec fn targets_approve(services: Seq<ServiceBoundaryV1>, w: WorkflowBoundaryV1, targets: Seq<String>) -> bool {
    forall|i: int| 0 <= i < targets.len() ==> {
        let k = #[trigger] last_service(services, targets[i]@);
        k >= 0 && strs(services[k].approved_workflows@).contains(w.workflow_name@)
    }
}

proof fn lemma_target_failure(services: Seq<ServiceBoundaryV1>, w: WorkflowBoundaryV1, targets: Seq<String>)
    ensures
        target_failure(services, w, targets) is None <==> targets_approve(services, w, targets),
    decreases targets.len(),
{
    if targets.len() > 0 {
        let rest = targets.drop_first();
        lemma_target_failure(services, w, rest);
        if targets_approve(services, w, targets) {
            assert forall|i: int| 0 <= i < rest.len() implies {
                let k = #[trigger] last_service(services, rest[i]@);
                k >= 0 && strs(services[k].approved_workflows@).contains(w.workflow_name@)
            } by {
                assert(rest[i] == targets[i + 1]);
                let k = last_service(services, targets[i + 1]@);
            }
            let k0 = last_service(services, targets[0]@);
        }
        if target_failure(services, w, targets) is None {
            assert forall|i: int| 0 <= i < targets.len() implies {
                let k = #[trigger] last_service(services, targets[i]@);
                k >= 0 && strs(services[k].approved_workflows@).contains(w.workflow_name@)
            } by {
                if i > 0 {
                    assert(targets[i] == rest[i - 1]);
                    let k = last_service(services, rest[i - 1]@);
                }
            }
        }
    }
}

/// The workflow targets check passes exactly when every target service of
/// every workflow has a boundary that approves the workflow; where a name
/// has several boundaries, the last declared one counts.
pub proof fn law_targets_check_passes_iff_approved(
    services: Seq<ServiceBoundaryV1>,
    workflows: Seq<WorkflowBoundaryV1>,
)
    ensures
        catalog_target_failure(services, workflows) is None <==> forall|i: int| 0 <= i < workflows.len()
            ==> targets_approve(services, #[trigger] workflows[i], workflows[i].target_services@),
    decreases workflows.len(),
{
    if workflows.len() > 0 {
        let rest = workflows.drop_first();
        law_targets_check_passes_iff_approved(services, rest);
        lemma_target_failure(services, workflows[0], workflows[0].target_services@);
        if catalog_target_failure(services, workflows) is None {
            assert forall|i: int| 0 <= i < workflows.len()
                implies targets_approve(services, #[trigger] workflows[i], workflows[i].target_services@) by {
                if i > 0 {
                    assert(workflows[i] == rest[i - 1]);
                }
            }
        }
        if forall|i: int| 0 <= i < workflows.len()
            ==> targets_approve(services, #[trigger] workflows[i], workflows[i].target_services@) {
            assert(targets_approve(services, workflows[0], workflows[0].target_services@));
            assert forall|i: int| 0 <= i < rest.len()
                implies targets_approve(services, #[trigger] rest[i], rest[i].target_services@) by {
                assert(rest[i] == workflows[i + 1]);
            }
        }
    }
}

proof fn lemma_last_service(services: Seq<ServiceBoundaryV1>, name: Seq<char>)
    ensures
        -1 <= last_service(services, name) < services.len(),
        last_service(services, name) >= 0 ==> services[last_service(services, name)].service_name@ == name,
    decreases services.len(),
{
    if services.len() > 0 {
        lemma_last_service(services.drop_last(), name);
    }
}

fn find_last_service(services: &[ServiceBoundaryV1], name: &String) -> (r: Option<usize>)
    ensures
        match r {
            Some(k) => last_service(services@, name@) == k,
            None => last_service(services@, name@) == -1,
        },
{
    let mut i: usize = services.len();
    assert(services@.subrange(0, i as int) =~= services@);
    while i > 0
        invariant
            i <= services.len(),
            last_service(services@, name@) == last_service(services@.subrange(0, i as int), name@),
        decreases i,
    {
        let ghost sub = services@.subrange(0, i as int);
        assert(sub.drop_last() =~= services@.subrange(0, i - 1));
        if services[i - 1].service_name == *name {
            return Some(i - 1);
        }
        i = i - 1;
    }
    None
}

/// Checks that every workflow's target services have boundaries that
/// approve the workflow; reports the first that does not.
pub fn check_workflow_targets(services: &[ServiceBoundaryV1], workflows: &[WorkflowBoundaryV1])
    -> (r: Result<(), String>)
    ensures
        match r {
            Ok(_) => catalog_target_failure(services@, workflows@) is None,
            Err(m) => match catalog_target_failure(services@, workflows@) {
                Some((w, t, false)) => m@ == "missing service boundary for `"@ + t + "`"@,
                Some((w, t, true)) => m@ == "workflow `"@ + w + "` targets `"@ + t + "` without approval"@,
                None => false,
            },
        },
{
    let mut i: usize = 0;
    assert(workflows@.skip(0) =~= workflows@);
    while i < workflows.len()
        invariant
            i <= workflows.len(),
            catalog_target_failure(services@, workflows@) == catalog_target_failure(services@, workflows@.skip(i as int)),
        decreases workflows.len() - i,
    {
        let w = &workflows[i];
        let ghost rest = workflows@.skip(i as int);
        assert(rest.drop_first() =~= workflows@.skip(i + 1));
        assert(rest[0] == *w);
        let mut j: usize = 0;
        assert(w.target_services@.skip(0) =~= w.target_services@);
        while j < w.target_services.len()
            invariant
                j <= w.target_services.len(),
                target_failure(services@, *w, w.target_services@)
                    == target_failure(services@, *w, w.target_services@.skip(j as int)),
                i < workflows.len(),
                *w == workflows@[i as int],
                catalog_target_failure(services@, workflows@) == catalog_target_failure(services@, workflows@.skip(i as int)),
            decreases w.target_services.len() - j,
        {
            let t = &w.target_services[j];
            let ghost trest = w.target_services@.skip(j as int);
            assert(trest.drop_first() =~= w.target_services@.skip(j + 1));
            assert(trest[0] == *t);
            let k = find_last_service(services, t);
            proof {
                lemma_last_service(services@, t@);
            }
            let k = match k {
                Some(k) => k,
                None => {
                    assert(workflows@.skip(i as int)[0] == *w);
                    return Err(concat3("missing service boundary for `", t.as_str(), "`"));
                },
            };
            if !holds_string(&services[k].approved_workflows, &w.workflow_name) {
                assert(workflows@.skip(i as int)[0] == *w);
                let mut m = concat3("workflow `", w.workflow_name.as_str(), "` targets `");
                m.append(t.as_str());
                m.append("` without approval");
                return Err(m);
            }
            j = j + 1;
        }
        assert(w.target_services@.skip(j as int) =~= Seq::<String>::empty());
        i = i + 1;
    }
    assert(workflows@.skip(i as int) =~= Seq::<WorkflowBoundaryV1>::empty());
    Ok(())
}

/// The names of a list of workflow boundaries.
pub open spec fn workflow_names(workflows: Seq<WorkflowBoundaryV1>) -> Seq<Seq<char>> {
    workflows.map_values(|w: WorkflowBoundaryV1| w.workflow_name@)
}

/// The first approved workflow of a service that is not in the catalog.
pub open spec fn unknown_in(names: Seq<Seq<char>>, approved: Seq<String>) -> Option<Seq<char>>
    decreases approved.len(),
{
    if approved.len() == 0 {
        None
    } else if !names.contains(approved[0]@) {
        Some(approved[0]@)
    } else {
        unknown_in(names, approved.drop_first())
    }
}

/// The first service, with the workflow, that approves an unknown workflow.
pub open spec fn unknown_workflow(services: Seq<ServiceBoundaryV1>, names: Seq<Seq<char>>)
    -> Option<(Seq<char>, Seq<char>)>
    decreases services.len(),
{
    if services.len() == 0 {
        None
    } else {
        match unknown_in(names, services[0].approved_workflows@) {
            Some(w) => Some((services[0].service_name@, w)),
            None => unknown_workflow(services.drop_first(), names),
        }
    }
}

proof fn lemma_unknown_in(names: Seq<Seq<char>>, approved: Seq<String>)
    ensures
        unknown_in(names, approved) is None <==> forall|i: int| 0 <= i < approved.len()
            ==> names.contains(#[trigger] approved[i]@),
    decreases approved.len(),
{
    if approved.len() > 0 {
        let rest = approved.drop_first();
        lemma_unknown_in(names, rest);
        if unknown_in(names, approved) is None {
            assert forall|i: int| 0 <= i < approved.len() implies names.contains(#[trigger] approved[i]@) by {
                if i > 0 {
                    assert(approved[i] == rest[i - 1]);
                }
            }
        }
        if forall|i: int| 0 <= i < approved.len() ==> names.contains(#[trigger] approved[i]@) {
            assert(names.contains(approved[0]@));
            assert forall|i: int| 0 <= i < rest.len() implies names.contains(#[trigger] rest[i]@) by {
                assert(rest[i] == approved[i + 1]);
                assert(names.contains(approved[i + 1]@));
            }
        }
    }
}

/// The approved workflows check passes exactly when every workflow that
/// every service approves is named in the workflow catalog.
pub proof fn law_approved_check_passes_iff_known(
    services: Seq<ServiceBoundaryV1>,
    workflows: Seq<WorkflowBoundaryV1>,
)
    ensures
        unknown_workflow(services, workflow_names(workflows)) is None <==> forall|i: int, j: int|
            0 <= i < services.len() && 0 <= j < services[i].approved_workflows@.len()
            ==> workflow_names(workflows).contains(#[trigger] services[i].approved_workflows@[j]@),
    decreases services.len(),
{
    let names = workflow_names(workflows);
    if services.len() > 0 {
        let rest = services.drop_first();
        law_approved_check_passes_iff_known(rest, workflows);
        lemma_unknown_in(names, services[0].approved_workflows@);
        if unknown_workflow(services, names) is None {
            assert forall|i: int, j: int|
                0 <= i < services.len() && 0 <= j < services[i].approved_workflows@.len()
                implies names.contains(#[trigger] services[i].approved_workflows@[j]@) by {
                if i > 0 {
                    assert(services[i] == rest[i - 1]);
                }
            }
        }
        if forall|i: int, j: int|
            0 <= i < services.len() && 0 <= j < services[i].approved_workflows@.len()
            ==> names.contains(#[trigger] services[i].approved_workflows@[j]@) {
            assert forall|j: int| 0 <= j < services[0].approved_workflows@.len()
                implies names.contains(#[trigger] services[0].approved_workflows@[j]@) by {}
            assert forall|i: int, j: int|
                0 <= i < rest.len() && 0 <= j < rest[i].approved_workflows@.len()
                implies names.contains(#[trigger] rest[i].approved_workflows@[j]@) by {
                assert(rest[i] == services[i + 1]);
            }
        }
    }
}

fn has_workflow(workflows: &[WorkflowBoundaryV1], name: &String) -> (r: bool)
    ensures
        r == workflow_names(workflows@).contains(name@),
{
    let mut i: usize = 0;
    while i < workflows.len()
        invariant
            i <= workflows.len(),
            forall|j: int| 0 <= j < i ==> workflows@[j].workflow_name@ != name@,
        decreases workflows.len() - i,
    {
        if workflows[i].workflow_name == *name {
            assert(workflow_names(workflows@)[i as int] == name@);
            return true;
        }
        i = i + 1;
    }
    assert(!workflow_names(workflows@).contains(name@)) by {
        if workflow_names(workflows@).contains(name@) {
            let j = workflow_names(workflows@).index_of(name@);
            assert(workflows@[j].workflow_name@ == name@);
        }
    }
    false
}

/// Checks that every workflow a service approves is in the workflow
/// catalog; reports the first that is not.
pub fn check_approved_workflows(services: &[ServiceBoundaryV1], workflows: &[WorkflowBoundaryV1])
    -> (r: Result<(), String>)
    ensures
        match r {
            Ok(_) => unknown_workflow(services@, workflow_names(workflows@)) is None,
            Err(m) => unknown_workflow(services@, workflow_names(workflows@)) matches Some((s, w))
                && m@ == "service `"@ + s + "` references unknown workflow `"@ + w + "`"@,
        },
{
    let ghost names = workflow_names(workflows@);
    let mut i: usize = 0;
    assert(services@.skip(0) =~= services@);
    while i < services.len()
        invariant
            i <= services.len(),
            names == workflow_names(workflows@),
            unknown_workflow(services@, names) == unknown_workflow(services@.skip(i as int), names),
        decreases services.len() - i,
    {
        let s = &services[i];
        let ghost rest = services@.skip(i as int);
        assert(rest.drop_first() =~= services@.skip(i + 1));
        assert(rest[0] == *s);
        let mut j: usize = 0;
        assert(s.approved_workflows@.skip(0) =~= s.approved_workflows@);
        while j < s.approved_workflows.len()
            invariant
                j <= s.approved_workflows.len(),
                names == workflow_names(workflows@),
                unknown_in(names, s.approved_workflows@) == unknown_in(names, s.approved_workflows@.skip(j as int)),
                i < services.len(),
                *s == services@[i as int],
                unknown_workflow(services@, names) == unknown_workflow(services@.skip(i as int), names),
            decreases s.approved_workflows.len() - j,
        {
            let w = &s.approved_workflows[j];
            let ghost arest = s.approved_workflows@.skip(j as int);
            assert(arest.drop_first() =~= s.approved_workflows@.skip(j + 1));
            assert(arest[0] == *w);
            if !has_workflow(workflows, w) {
                assert(services@.skip(i as int)[0] == *s);
                let mut m = concat3("service `", s.service_name.as_str(), "` references unknown workflow `");
                m.append(w.as_str());
                m.append("`");
                return Err(m);
            }
            j = j + 1;
        }
        assert(s.approved_workflows@.skip(j as int) =~= Seq::<String>::empty());
        i = i + 1;
    }
    assert(services@.skip(i as int) =~= Seq::<ServiceBoundaryV1>::empty());
    Ok(())
}

/// The first service whose domain is not among `domains`: its name and
/// domain.
pub open spec fn service_domain_failure(services: Seq<ServiceBoundaryV1>, domains: Seq<Seq<char>>)
    -> Option<(Seq<char>, Seq<char>)>
    decreases services.len(),
{
    if services.len() == 0 {
        None
    } else if !domains.contains(services[0].domain@) {
        Some((services[0].service_name@, services[0].domain@))
    } else {
        service_domain_failure(services.drop_first(), domains)
    }
}

/// The first domain of `touched` that is not among `domains`.
pub open spec fn unknown_domain_in(domains: Seq<Seq<char>>, touched: Seq<String>) -> Option<Seq<char>>
    decreases touched.len(),
{
    if touched.len() == 0 {
        None
    } else if !domains.contains(touched[0]@) {
        Some(touched[0]@)
    } else {
        unknown_domain_in(domains, touched.drop_first())
    }
}

/// The first workflow that touches a domain not among `domains`: its name
/// and that domain.
pub open spec fn workflow_domain_failure(workflows: Seq<WorkflowBoundaryV1>, domains: Seq<Seq<char>>)
    -> Option<(Seq<char>, Seq<char>)>
    decreases workflows.len(),
{
    if workflows.len() == 0 {
        None
    } else {
        match unknown_domain_in(domains, workflows[0].touched_domains@) {
            Some(d) => Some((workflows[0].workflow_name@, d)),
            None => workflow_domain_failure(workflows.drop_first(), domains),
        }
    }
}

/// Checks that every service's domain and every domain a workflow touches
/// is one of the enterprise `domains`; reports the first that is not,
/// services before workflows.
pub fn check_domains(services: &[ServiceBoundaryV1], workflows: &[WorkflowBoundaryV1], domains: &[String])
    -> (r: Result<(), String>)
    ensures
        match r {
            Ok(_) => service_domain_failure(services@, strs(domains@)) is None
                && workflow_domain_failure(workflows@, strs(domains@)) is None,
            Err(m) => match service_domain_failure(services@, strs(domains@)) {
                Some((s, d)) => m@ == "service `"@ + s + "` references unknown domain `"@ + d + "`"@,
                None => workflow_domain_failure(workflows@, strs(domains@)) matches Some((w, d))
                    && m@ == "workflow `"@ + w + "` references unknown domain `"@ + d + "`"@,
            },
        },
{
    let ghost known = strs(domains@);
    let mut i: usize = 0;
    assert(services@.skip(0) =~= services@);
    while i < services.len()
        invariant
            i <= services.len(),
            known == strs(domains@),
            service_domain_failure(services@, known) == service_domain_failure(services@.skip(i as int), known),
        decreases services.len() - i,
    {
        let s = &services[i];
        let ghost rest = services@.skip(i as int);
        assert(rest.drop_first() =~= services@.skip(i + 1));
        assert(rest[0] == *s);
        let known_domain = domain_listed(domains, &s.domain);
        if !known_domain {
            let mut m = concat3("service `", s.service_name.as_str(), "` references unknown domain `");
            m.append(s.domain.as_str());
            m.append("`");
            return Err(m);
        }
        i = i + 1;
    }
    assert(services@.skip(i as int) =~= Seq::<ServiceBoundaryV1>::empty());
    let mut i: usize = 0;
    assert(workflows@.skip(0) =~= workflows@);
    while i < workflows.len()
        invariant
            i <= workflows.len(),
            known == strs(domains@),
            service_domain_failure(services@, known) is None,
            workflow_domain_failure(workflows@, known) == workflow_domain_failure(workflows@.skip(i as int), known),
        decreases workflows.len() - i,
    {
        let w = &workflows[i];
        let ghost rest = workflows@.skip(i as int);
        assert(rest.drop_first() =~= workflows@.skip(i + 1));
        assert(rest[0] == *w);
        let mut j: usize = 0;
        assert(w.touched_domains@.skip(0) =~= w.touched_domains@);
        while j < w.touched_domains.len()
            invariant
                j <= w.touched_domains.len(),
                known == strs(domains@),
                i < workflows.len(),
                *w == workflows@[i as int],
                service_domain_failure(services@, known) is None,
                workflow_domain_failure(workflows@, known) == workflow_domain_failure(workflows@.skip(i as int), known),
                unknown_domain_in(known, w.touched_domains@)
                    == unknown_domain_in(known, w.touched_domains@.skip(j as int)),
            decreases w.touched_domains.len() - j,
        {
            let d = &w.touched_domains[j];
            let ghost drest = w.touched_domains@.skip(j as int);
            assert(drest.drop_first() =~= w.touched_domains@.skip(j + 1));
            assert(drest[0] == *d);
            if !domain_listed(domains, d) {
                assert(workflows@.skip(i as int)[0] == *w);
                let mut m = concat3("workflow `", w.workflow_name.as_str(), "` references unknown domain `");
                m.append(d.as_str());
                m.append("`");
                return Err(m);
            }
            j = j + 1;
        }
        assert(w.touched_domains@.skip(j as int) =~= Seq::<String>::empty());
        i = i + 1;
    }
    assert(workflows@.skip(i as int) =~= Seq::<WorkflowBoundaryV1>::empty());
    Ok(())
}

proof fn lemma_unknown_domain_in(domains: Seq<Seq<char>>, touched: Seq<String>)
    ensures
        unknown_domain_in(domains, touched) is None <==> forall|i: int| 0 <= i < touched.len()
            ==> domains.contains(#[trigger] touched[i]@),
    decreases touched.len(),
{
    if touched.len() > 0 {
        let rest = touched.drop_first();
        lemma_unknown_domain_in(domains, rest);
        if unknown_domain_in(domains, touched) is None {
            assert forall|i: int| 0 <= i < touched.len() implies domains.contains(#[trigger] touched[i]@) by {
                if i > 0 {
                    assert(touched[i] == rest[i - 1]);
                }
            }
        }
        if forall|i: int| 0 <= i < touched.len() ==> domains.contains(#[trigger] touched[i]@) {
            assert(domains.contains(touched[0]@));
            assert forall|i: int| 0 <= i < rest.len() implies domains.contains(#[trigger] rest[i]@) by {
                assert(rest[i] == touched[i + 1]);
                assert(domains.contains(touched[i + 1]@));
            }
        }
    }
}

/// The domain check passes exactly when every service's domain, and every
/// domain every workflow touches, is one of the enterprise domains.
pub proof fn law_domains_check_passes_iff_known(
    services: Seq<ServiceBoundaryV1>,
    workflows: Seq<WorkflowBoundaryV1>,
    domains: Seq<Seq<char>>,
)
    ensures
        service_domain_failure(services, domains) is None
            <==> forall|i: int| 0 <= i < services.len() ==> domains.contains(#[trigger] services[i].domain@),
        workflow_domain_failure(workflows, domains) is None <==> forall|i: int, j: int|
            0 <= i < workflows.len() && 0 <= j < workflows[i].touched_domains@.len()
            ==> domains.contains(#[trigger] workflows[i].touched_domains@[j]@),
    decreases services.len() + workflows.len(),
{
    if services.len() > 0 {
        let rest = services.drop_first();
        law_domains_check_passes_iff_known(rest, workflows, domains);
        if service_domain_failure(services, domains) is None {
            assert forall|i: int| 0 <= i < services.len() implies domains.contains(#[trigger] services[i].domain@) by {
                if i > 0 {
                    assert(services[i] == rest[i - 1]);
                }
            }
        }
        if forall|i: int| 0 <= i < services.len() ==> domains.contains(#[trigger] services[i].domain@) {
            assert(domains.contains(services[0].domain@));
            assert forall|i: int| 0 <= i < rest.len() implies domains.contains(#[trigger] rest[i].domain@) by {
                assert(rest[i] == services[i + 1]);
                assert(domains.contains(services[i + 1].domain@));
            }
        }
    } else if workflows.len() > 0 {
        let rest = workflows.drop_first();
        law_domains_check_passes_iff_known(services, rest, domains);
        lemma_unknown_domain_in(domains, workflows[0].touched_domains@);
        if workflow_domain_failure(workflows, domains) is None {
            assert forall|i: int, j: int|
                0 <= i < workflows.len() && 0 <= j < workflows[i].touched_domains@.len()
                implies domains.contains(#[trigger] workflows[i].touched_domains@[j]@) by {
                if i > 0 {
                    assert(workflows[i] == rest[i - 1]);
                }
            }
        }
        if forall|i: int, j: int|
            0 <= i < workflows.len() && 0 <= j < workflows[i].touched_domains@.len()
            ==> domains.contains(#[trigger] workflows[i].touched_domains@[j]@) {
            assert forall|j: int| 0 <= j < workflows[0].touched_domains@.len()
                implies domains.contains(#[trigger] workflows[0].touched_domains@[j]@) by {}
            assert forall|i: int, j: int|
                0 <= i < rest.len() && 0 <= j < rest[i].touched_domains@.len()
                implies domains.contains(#[trigger] rest[i].touched_domains@[j]@) by {
                assert(rest[i] == workflows[i + 1]);
            }
        }
    }
}

fn domain_listed(domains: &[String], d: &String) -> (r: bool)
    ensures
        r == strs(domains@).contains(d@),
{
    let mut i: usize = 0;
    while i < domains.len()
        invariant
            i <= domains.len(),
            forall|j: int| 0 <= j < i ==> domains@[j]@ != d@,
        decreases domains.len() - i,
    {
        if domains[i] == *d {
            assert(strs(domains@)[i as int] == d@);
            return true;
        }
        i = i + 1;
    }
    assert(!strs(domains@).contains(d@)) by {
        if strs(domains@).contains(d@) {
            let j = strs(domains@).index_of(d@);
            assert(domains@[j]@ == d@);
        }
    }
    false
}

/// A service's entry in its enterprise domain catalog.
#[derive(Debug, PartialEq, Eq)]
pub struct CatalogServiceBoundary {
    pub version: String,
    pub primary_service: String,
    pub approved_workflows: Vec<String>,
    pub owned_aggregates: Vec<String>,
}

/// Whether a service's boundary agrees with its catalog entry: the entry
/// is of version `v1`, the boundary is in `expected_domain`, and name,
/// approved workflows and owned aggregates coincide.
pub open spec fn matches_catalog(b: &ServiceBoundaryV1, expected_domain: Seq<char>, c: &CatalogServiceBoundary) -> bool {
    &&& c.version@ == "v1"@
    &&& b.domain@ == expected_domain
    &&& b.service_name@ == c.primary_service@
    &&& strs(b.approved_workflows@) == strs(c.approved_workflows@)
    &&& strs(b.owned_aggregates@) == strs(c.owned_aggregates@)
}

proof fn lemma_same_strings(a: Seq<String>, b: Seq<String>)
    ensures
        strs(a) == strs(b) <==> a.len() == b.len() && forall|i: int| 0 <= i < a.len() ==> #[trigger] a[i]@ == b[i]@,
{
    if a.len() == b.len() && forall|i: int| 0 <= i < a.len() ==> #[trigger] a[i]@ == b[i]@ {
        assert(strs(a) =~= strs(b));
    }
    if strs(a) == strs(b) {
        assert(strs(a).len() == strs(b).len());
        assert forall|i: int| 0 <= i < a.len() implies #[trigger] a[i]@ == b[i]@ by {
            assert(strs(a)[i] == strs(b)[i]);
        }
    }
}

/// A boundary matches its catalog entry exactly when the entry is of
/// version `v1`, the boundary lies in the expected domain, its service name
/// is the entry's primary service, and its approved workflows and owned
/// aggregates are, one by one and in order, those of the entry.
pub proof fn law_boundary_matches_iff_entry_agrees(
    b: &ServiceBoundaryV1,
    expected_domain: Seq<char>,
    c: &CatalogServiceBoundary,
)
    ensures
        matches_catalog(b, expected_domain, c) <==> {
            &&& c.version@ == "v1"@
            &&& b.domain@ == expected_domain
            &&& b.service_name@ == c.primary_service@
            &&& b.approved_workflows@.len() == c.approved_workflows@.len()
            &&& forall|i: int| 0 <= i < b.approved_workflows@.len()
                ==> #[trigger] b.approved_workflows@[i]@ == c.approved_workflows@[i]@
            &&& b.owned_aggregates@.len() == c.owned_aggregates@.len()
            &&& forall|i: int| 0 <= i < b.owned_aggregates@.len()
                ==> #[trigger] b.owned_aggregates@[i]@ == c.owned_aggregates@[i]@
        },
{
    lemma_same_strings(b.approved_workflows@, c.approved_workflows@);
    lemma_same_strings(b.owned_aggregates@, c.owned_aggregates@);
}

/// Decides whether a service's boundary agrees with its catalog entry.
pub fn assert_service_boundary_matches_catalog(
    boundary: &ServiceBoundaryV1,
    expected_domain: &str,
    catalog: &CatalogServiceBoundary,
) -> (r: bool)
    ensures
        r == matches_catalog(boundary, expected_domain@, catalog),
        r <==> {
            &&& catalog.version@ == "v1"@
            &&& boundary.domain@ == expected_domain@
            &&& boundary.service_name@ == catalog.primary_service@
            &&& boundary.approved_workflows@.len() == catalog.approved_workflows@.len()
            &&& forall|i: int| 0 <= i < boundary.approved_workflows@.len()
                ==> #[trigger] boundary.approved_workflows@[i]@ == catalog.approved_workflows@[i]@
            &&& boundary.owned_aggregates@.len() == catalog.owned_aggregates@.len()
            &&& forall|i: int| 0 <= i < boundary.owned_aggregates@.len()
                ==> #[trigger] boundary.owned_aggregates@[i]@ == catalog.owned_aggregates@[i]@
        },
{
    proof {
        law_boundary_matches_iff_entry_agrees(boundary, expected_domain@, catalog);
    }
    catalog.version == owned("v1")
        && boundary.domain == owned(expected_domain)
        && boundary.service_name == catalog.primary_service
        && same_strings(&boundary.approved_workflows, &catalog.approved_workflows)
        && same_strings(&boundary.owned_aggregates, &catalog.owned_aggregates)
}

} // verus!
