//! The policy filter over repository names, built from a deny-list and an
//! allow-list.

use vstd::prelude::*;
use crate::config::Configuration;
use crate::text::texts;

verus! {

/// A name passes the deny-list unless it equals one of its entries.
pub open spec fn passes_denylist(denylist: Seq<Seq<char>>, name: Seq<char>) -> bool {
    !denylist.contains(name)
}

/// A name passes the allow-list when it equals one of its entries. An empty
/// allow-list lets every name pass.
pub open spec fn passes_allowlist(allowlist: Seq<Seq<char>>, name: Seq<char>) -> bool {
    allowlist.len() == 0 || allowlist.contains(name)
}

/// A name is accepted when it is not denied, or when the allow-list lets it
/// pass: an allow-list entry overrides a deny-list entry for the same name.
pub open spec fn accepts(denylist: Seq<Seq<char>>, allowlist: Seq<Seq<char>>, name: Seq<char>) -> bool {
    passes_denylist(denylist, name) || passes_allowlist(allowlist, name)
}

/// Rejects exactly one repository name.
pub struct DenyListFilter {
    repo_name: String,
}

impl DenyListFilter {
    /// The name that this filter rejects.
    pub closed spec fn name(&self) -> Seq<char> {
        self.repo_name@
    }

    pub fn new(repo_name: String) -> (f: Self)
        ensures
            f.name() == repo_name@,
    {
        DenyListFilter { repo_name }
    }

    pub fn filter(&self, element: &String) -> (keep: bool)
        ensures
            keep == (element@ != self.name()),
    {
        !(*element == self.repo_name)
    }
}

/// Lets exactly one repository name pass.
pub struct AllowListFilter {
    repo_name: String,
}

impl AllowListFilter {
    /// The name that this filter lets pass.
    pub closed spec fn name(&self) -> Seq<char> {
        self.repo_name@
    }

    pub fn new(repo_name: String) -> (f: Self)
        ensures
            f.name() == repo_name@,
    {
        AllowListFilter { repo_name }
    }

    pub fn filter(&self, element: &String) -> (keep: bool)
        ensures
            keep == (element@ == self.name()),
    {
        *element == self.repo_name
    }
}

/// The names of a list of deny filters, in order.
pub open spec fn denied_names(filters: Seq<DenyListFilter>) -> Seq<Seq<char>> {
    filters.map_values(|f: DenyListFilter| f.name())
}

/// The names of a list of allow filters, in order.
pub open spec fn allowed_names(filters: Seq<AllowListFilter>) -> Seq<Seq<char>> {
    filters.map_values(|f: AllowListFilter| f.name())
}

/// The composed policy: one deny filter per deny-list entry and one allow
/// filter per allow-list entry.
pub struct RepoFilter {
    deny: Vec<DenyListFilter>,
    allow: Vec<AllowListFilter>,
}

impl RepoFilter {
    /// The deny-list that the policy was built from.
    pub closed spec fn denylist(&self) -> Seq<Seq<char>> {
        denied_names(self.deny@)
    }

    /// The allow-list that the policy was built from.
    pub closed spec fn allowlist(&self) -> Seq<Seq<char>> {
        allowed_names(self.allow@)
    }

    /// Builds the policy from the two lists.
    pub fn new(denylist: &Vec<String>, allowlist: &Vec<String>) -> (f: Self)
        ensures
            f.denylist() == texts(denylist@),
            f.allowlist() == texts(allowlist@),
    {
        let mut deny: Vec<DenyListFilter> = Vec::new();
        let mut i: usize = 0;
        while i < denylist.len()
            invariant
                i <= denylist.len(),
                deny@.len() == i,
                forall|j: int| 0 <= j < i ==> deny@[j].name() == denylist@[j]@,
            decreases denylist.len() - i,
        {
            deny.push(DenyListFilter::new(denylist[i].clone()));
            i += 1;
        }
        let mut allow: Vec<AllowListFilter> = Vec::new();
        let mut k: usize = 0;
        while k < allowlist.len()
            invariant
                k <= allowlist.len(),
                allow@.len() == k,
                forall|j: int| 0 <= j < k ==> allow@[j].name() == allowlist@[j]@,
            decreases allowlist.len() - k,
        {
            allow.push(AllowListFilter::new(allowlist[k].clone()));
            k += 1;
        }
        assert(denied_names(deny@) =~= texts(denylist@));
        assert(allowed_names(allow@) =~= texts(allowlist@));
        RepoFilter { deny, allow }
    }

    /// Whether every deny filter keeps the name.
    fn not_denied(&self, element: &String) -> (keep: bool)
        ensures
            keep == passes_denylist(self.denylist(), element@),
    {
        let mut keep = true;
        let mut i: usize = 0;
        while i < self.deny.len()
            invariant
                i <= self.deny.len(),
                keep == (forall|j: int| 0 <= j < i ==> self.deny@[j].name() != element@),
            decreases self.deny.len() - i,
        {
            let kept = self.deny[i].filter(element);
            keep = keep && kept;
            i += 1;
        }
        proof {
            let names = denied_names(self.deny@);
            if keep {
                assert forall|j: int| 0 <= j < names.len() implies names[j] != element@ by {
                    assert(names[j] == self.deny@[j].name());
                }
            } else {
                let j = choose|j: int| 0 <= j < self.deny@.len() && self.deny@[j].name() == element@;
                assert(names[j] == element@);
            }
        }
        keep
    }

    /// Whether the allow-list is empty or one allow filter keeps the name.
    fn allowed(&self, element: &String) -> (keep: bool)
        ensures
            keep == passes_allowlist(self.allowlist(), element@),
    {
        if self.allow.len() == 0 {
            return true;
        }
        let mut keep = false;
        let mut i: usize = 0;
        while i < self.allow.len()
            invariant
                i <= self.allow.len(),
                keep == (exists|j: int| 0 <= j < i && self.allow@[j].name() == element@),
            decreases self.allow.len() - i,
        {
            let kept = self.allow[i].filter(element);
            keep = keep || kept;
            i += 1;
        }
        proof {
            let names = allowed_names(self.allow@);
            if keep {
                let j = choose|j: int| 0 <= j < self.allow@.len() && self.allow@[j].name() == element@;
                assert(names[j] == element@);
            } else {
                assert forall|j: int| 0 <= j < names.len() implies names[j] != element@ by {
                    assert(names[j] == self.allow@[j].name());
                }
            }
        }
        keep
    }

    /// Decides one repository name.
    pub fn filter(&self, element: &String) -> (keep: bool)
        ensures
            keep == accepts(self.denylist(), self.allowlist(), element@),
    {
        let open = self.not_denied(element);
        let listed = self.allowed(element);
        open || listed
    }
}

/// The policy that a configuration asks for: a name is accepted when it is
/// absent from the configured deny-list, or when the configured allow-list
/// lets it pass.
pub fn repo_filter(config: &Configuration) -> (f: RepoFilter)
    ensures
        f.denylist() == config@.denylist,
        f.allowlist() == config@.allowlist,
{
    RepoFilter::new(config.denylist(), config.allowlist())
}

} // verus!
