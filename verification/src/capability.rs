//! Least-authority capability grants: a service may perform exactly the
//! actions it was granted.

use vstd::prelude::*;
use crate::ordered::StrMap;
use crate::text::{concat3, owned};

verus! {

/// The actions a service has been granted, each at most once.
#[derive(Debug, Clone)]
pub struct CapabilityGrant {
    service: String,
    actions: StrMap<()>,
}

/// A refused capability check.
#[derive(Debug, PartialEq, Eq)]
pub enum CapabilityError {
    /// The grant of `service` does not include `action`.
    Denied { service: String, action: String },
}

impl CapabilityError {
    /// The message of this error.
    pub fn message(&self) -> (s: String)
        ensures
            match self {
                CapabilityError::Denied { service, action } => s@ == "capability grant for `"@
                    + service@ + "` does not allow `"@ + action@ + "`"@,
            },
    {
        match self {
            CapabilityError::Denied { service, action } => {
                let mut s = concat3("capability grant for `", service.as_str(), "` does not allow `");
                s.append(action.as_str());
                s.append("`");
                s
            },
        }
    }
}

impl CapabilityGrant {
    /// The service the grant belongs to.
    pub closed spec fn grantee(&self) -> Seq<char> {
        self.service@
    }

    /// The granted actions.
    pub closed spec fn granted(&self) -> Set<Seq<char>> {
        self.actions.view().dom()
    }

    /// A grant of `actions` to `service`; repeated actions count once.
    pub fn new(service: &str, actions: &[&str]) -> (g: CapabilityGrant)
        ensures
            g.grantee() == service@,
            g.granted() == actions@.map_values(|a: &str| a@).to_set(),
    {
        let mut set: StrMap<()> = StrMap::new();
        let mut i: usize = 0;
        while i < actions.len()
            invariant
                i <= actions.len(),
                set.view().dom() == actions@.subrange(0, i as int).map_values(|a: &str| a@).to_set(),
            decreases actions.len() - i,
        {
            set.insert(owned(actions[i]), ());
            proof {
                let prev = actions@.subrange(0, i as int).map_values(|a: &str| a@);
                let next = actions@.subrange(0, i + 1).map_values(|a: &str| a@);
                assert(next =~= prev.push(actions@[i as int]@));
                assert(next.to_set() =~= prev.to_set().insert(actions@[i as int]@)) by {
                    assert forall|x: Seq<char>| next.to_set().contains(x)
                        <==> prev.to_set().insert(actions@[i as int]@).contains(x) by {
                        if next.contains(x) && x != actions@[i as int]@ {
                            let j = next.index_of(x);
                            assert(prev[j] == x);
                        }
                        if prev.contains(x) {
                            let j = prev.index_of(x);
                            assert(next[j] == x);
                        }
                        if x == actions@[i as int]@ {
                            assert(next[i as int] == x);
                        }
                    }
                }
            }
            i = i + 1;
        }
        assert(actions@.subrange(0, i as int) =~= actions@);
        CapabilityGrant { service: owned(service), actions: set }
    }

    /// The service the grant belongs to.
    pub fn service(&self) -> (s: &str)
        ensures
            s@ == self.grantee(),
    {
        self.service.as_str()
    }

    /// Whether `action` was granted.
    pub fn allows(&self, action: &str) -> (r: bool)
        ensures
            r == self.granted().contains(action@),
    {
        self.actions.get(action).is_some()
    }

    /// Succeeds when `action` was granted; otherwise names the service and
    /// the refused action.
    pub fn require(&self, action: &str) -> (r: Result<(), CapabilityError>)
        ensures
            match r {
                Ok(_) => self.granted().contains(action@),
                Err(CapabilityError::Denied { service, action: refused }) => !self.granted().contains(action@)
                    && service@ == self.grantee() && refused@ == action@,
            },
    {
        if self.allows(action) {
            Ok(())
        } else {
            Err(CapabilityError::Denied { service: self.service.clone(), action: owned(action) })
        }
    }
}

/// A grant made from a list of actions allows an action exactly when the
/// action is in the list: `require` succeeds for those and refuses all
/// others.
pub proof fn law_grant_allows_only_configured(g: CapabilityGrant, actions: Seq<&str>, action: Seq<char>)
    requires
        g.granted() == actions.map_values(|a: &str| a@).to_set(),
    ensures
        g.granted().contains(action) <==> exists|i: int| 0 <= i < actions.len() && (#[trigger] actions[i])@ == action,
{
    let names = actions.map_values(|a: &str| a@);
    if g.granted().contains(action) {
        let i = names.index_of(action);
        assert(actions[i]@ == action);
    }
    if exists|i: int| 0 <= i < actions.len() && (#[trigger] actions[i])@ == action {
        let i = choose|i: int| 0 <= i < actions.len() && (#[trigger] actions[i])@ == action;
        assert(names[i] == action);
    }
}

} // verus!
