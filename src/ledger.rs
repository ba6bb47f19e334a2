use vstd::prelude::*;

use crate::address::Address;

verus! {

/// The cumulative amount one account has contributed.
#[derive(Debug)]
pub struct Contribution {
    pub donor: Address,
    pub amount: i128,
}

/// The contributions read as a map from account key to cumulative amount.
pub open spec fn amounts_of(s: Seq<Contribution>) -> Map<Seq<char>, int>
    decreases s.len(),
{
    if s.len() == 0 {
        Map::empty()
    } else {
        amounts_of(s.drop_last()).insert(s.last().donor@, s.last().amount as int)
    }
}

/// The sum of all contributed amounts.
pub open spec fn total_of(s: Seq<Contribution>) -> int
    decreases s.len(),
{
    if s.len() == 0 {
        0
    } else {
        total_of(s.drop_last()) + s.last().amount
    }
}

/// No account appears in two entries.
pub open spec fn donors_unique(s: Seq<Contribution>) -> bool {
    forall|i: int, j: int| 0 <= i < j < s.len() ==> s[i].donor@ != s[j].donor@
}

/// Every entry holds a positive amount.
pub open spec fn amounts_positive(s: Seq<Contribution>) -> bool {
    forall|i: int| 0 <= i < s.len() ==> s[i].amount > 0
}

proof fn lemma_absent(s: Seq<Contribution>, k: Seq<char>)
    requires
        forall|i: int| 0 <= i < s.len() ==> s[i].donor@ != k,
    ensures
        !amounts_of(s).contains_key(k),
    decreases s.len(),
{
    if s.len() > 0 {
        lemma_absent(s.drop_last(), k);
    }
}

proof fn lemma_present(s: Seq<Contribution>, i: int)
    requires
        donors_unique(s),
        0 <= i < s.len(),
    ensures
        amounts_of(s).contains_key(s[i].donor@),
        amounts_of(s)[s[i].donor@] == s[i].amount,
    decreases s.len(),
{
    if i < s.len() - 1 {
        lemma_present(s.drop_last(), i);
    }
}

proof fn lemma_domain_size(s: Seq<Contribution>)
    requires
        donors_unique(s),
    ensures
        amounts_of(s).dom().finite(),
        amounts_of(s).dom().len() == s.len(),
    decreases s.len(),
{
    if s.len() > 0 {
        let p = s.drop_last();
        lemma_domain_size(p);
        lemma_absent(p, s.last().donor@);
        assert(amounts_of(s).dom() =~= amounts_of(p).dom().insert(s.last().donor@));
    }
}

proof fn lemma_total_bounds(s: Seq<Contribution>, i: int)
    requires
        amounts_positive(s),
        0 <= i < s.len(),
    ensures
        s[i].amount <= total_of(s),
    decreases s.len(),
{
    lemma_total_nonnegative(s.drop_last());
    if i < s.len() - 1 {
        lemma_total_bounds(s.drop_last(), i);
    }
}

proof fn lemma_total_nonnegative(s: Seq<Contribution>)
    requires
        amounts_positive(s),
    ensures
        total_of(s) >= 0,
    decreases s.len(),
{
    if s.len() > 0 {
        lemma_total_nonnegative(s.drop_last());
    }
}

proof fn lemma_update(s: Seq<Contribution>, i: int, e: Contribution)
    requires
        donors_unique(s),
        0 <= i < s.len(),
        e.donor@ == s[i].donor@,
    ensures
        amounts_of(s.update(i, e)) == amounts_of(s).insert(e.donor@, e.amount as int),
        total_of(s.update(i, e)) == total_of(s) - s[i].amount + e.amount,
    decreases s.len(),
{
    let t = s.update(i, e);
    let p = s.drop_last();
    if i == s.len() - 1 {
        assert(t.drop_last() =~= p);
        assert(amounts_of(t) =~= amounts_of(s).insert(e.donor@, e.amount as int));
    } else {
        assert(t.drop_last() =~= p.update(i, e));
        lemma_update(p, i, e);
        assert(s.last().donor@ != e.donor@);
        assert(amounts_of(t) =~= amounts_of(s).insert(e.donor@, e.amount as int));
    }
}

/// The sum of the amounts in stored account and amount pairs.
pub open spec fn pairs_total(s: Seq<(Address, i128)>) -> int
    decreases s.len(),
{
    if s.len() == 0 {
        0
    } else {
        pairs_total(s.drop_last()) + s.last().1
    }
}

/// The sum of the amounts of the account `k` in stored pairs.
pub open spec fn pairs_total_by(s: Seq<(Address, i128)>, k: Seq<char>) -> int
    decreases s.len(),
{
    if s.len() == 0 {
        0
    } else {
        pairs_total_by(s.drop_last(), k) + if s.last().0@ == k {
            s.last().1 as int
        } else {
            0
        }
    }
}

/// Every stored pair holds a positive amount.
pub open spec fn pairs_positive(s: Seq<(Address, i128)>) -> bool {
    forall|i: int| 0 <= i < s.len() ==> s[i].1 > 0
}

proof fn lemma_pairs(e: Seq<Contribution>, r: Seq<(Address, i128)>)
    requires
        donors_unique(e),
        r.len() == e.len(),
        forall|i: int| 0 <= i < r.len() ==> r[i].0@ == e[i].donor@ && r[i].1 == e[i].amount,
    ensures
        pairs_total(r) == total_of(e),
        forall|k: Seq<char>| #[trigger]
            pairs_total_by(r, k) == if amounts_of(e).contains_key(k) {
                amounts_of(e)[k]
            } else {
                0
            },
    decreases e.len(),
{
    if e.len() > 0 {
        let (e0, r0) = (e.drop_last(), r.drop_last());
        lemma_pairs(e0, r0);
        lemma_absent(e0, e.last().donor@);
        assert forall|k: Seq<char>| #[trigger]
            pairs_total_by(r, k) == if amounts_of(e).contains_key(k) {
                amounts_of(e)[k]
            } else {
                0
            } by {
            assert(pairs_total_by(r0, k) == if amounts_of(e0).contains_key(k) {
                amounts_of(e0)[k]
            } else {
                0
            });
        }
    }
}

/// Cumulative contributions per account, in the order in which each account
/// first contributed.
#[derive(Debug)]
pub struct Ledger {
    entries: Vec<Contribution>,
}

impl Ledger {
    /// The entries of the ledger.
    pub closed spec fn entries(&self) -> Seq<Contribution> {
        self.entries@
    }

    /// Each account appears once, with a positive amount.
    pub open spec fn wf(&self) -> bool {
        donors_unique(self.entries()) && amounts_positive(self.entries())
    }

    /// The ledger as a map from account key to cumulative amount.
    pub open spec fn amounts(&self) -> Map<Seq<char>, int> {
        amounts_of(self.entries())
    }

    /// The sum of all contributions.
    pub open spec fn total(&self) -> int {
        total_of(self.entries())
    }

    /// What the account `k` has contributed, zero for an account never seen.
    pub open spec fn contribution(&self, k: Seq<char>) -> int {
        if self.amounts().contains_key(k) {
            self.amounts()[k]
        } else {
            0
        }
    }

    /// The ledger with no contributions.
    pub fn new() -> (r: Ledger)
        ensures
            r.wf(),
            r.amounts() == Map::<Seq<char>, int>::empty(),
            r.total() == 0,
    {
        Ledger { entries: Vec::new() }
    }

    /// The position of the entry of `donor`, if it has one.
    fn position(&self, donor: &Address) -> (r: Option<usize>)
        ensures
            match r {
                Some(i) => i < self.entries().len() && self.entries()[i as int].donor@ == donor@,
                None => forall|i: int|
                    0 <= i < self.entries().len() ==> self.entries()[i].donor@ != donor@,
            },
    {
        let mut i: usize = 0;
        while i < self.entries.len()
            invariant
                i <= self.entries@.len(),
                forall|j: int| 0 <= j < i ==> self.entries@[j].donor@ != donor@,
            decreases self.entries@.len() - i,
        {
            if self.entries[i].donor.same_as(donor) {
                return Some(i);
            }
            i = i + 1;
        }
        None
    }

    /// What `donor` has contributed, zero for an account never seen.
    pub fn amount_for(&self, donor: &Address) -> (r: i128)
        requires
            self.wf(),
        ensures
            r == self.contribution(donor@),
    {
        match self.position(donor) {
            Some(i) => {
                proof {
                    lemma_present(self.entries(), i as int);
                }
                self.entries[i].amount
            },
            None => {
                proof {
                    lemma_absent(self.entries(), donor@);
                }
                0
            },
        }
    }

    /// The number of accounts that have contributed.
    pub fn donor_count(&self) -> (r: usize)
        requires
            self.wf(),
        ensures
            r == self.amounts().dom().len(),
            self.amounts().dom().finite(),
    {
        proof {
            lemma_domain_size(self.entries());
        }
        self.entries.len()
    }

    /// The total is never negative.
    pub proof fn lemma_total_nonnegative(&self)
        requires
            self.wf(),
        ensures
            self.total() >= 0,
    {
        lemma_total_nonnegative(self.entries());
    }

    /// Adds `amount` to what `donor` has contributed.
    pub fn add(&mut self, donor: Address, amount: i128)
        requires
            old(self).wf(),
            amount > 0,
            old(self).total() + amount <= i128::MAX,
        ensures
            final(self).wf(),
            final(self).amounts() == old(self).amounts().insert(
                donor@,
                old(self).contribution(donor@) + amount,
            ),
            final(self).total() == old(self).total() + amount,
    {
        match self.position(&donor) {
            Some(i) => {
                proof {
                    lemma_present(self.entries(), i as int);
                    lemma_total_bounds(self.entries(), i as int);
                }
                let e = Contribution { donor, amount: self.entries[i].amount + amount };
                proof {
                    lemma_update(self.entries(), i as int, e);
                }
                self.entries.set(i, e);
            },
            None => {
                proof {
                    lemma_absent(self.entries(), donor@);
                    lemma_total_nonnegative(self.entries());
                }
                let e = Contribution { donor, amount };
                let ghost s = self.entries();
                self.entries.push(e);
                proof {
                    assert(self.entries().drop_last() =~= s);
                }
            },
        }
    }

    /// The entries as account and amount pairs, in the ledger's order.
    pub fn to_pairs(&self) -> (r: Vec<(Address, i128)>)
        ensures
            r@.len() == self.entries().len(),
            forall|i: int|
                0 <= i < r@.len() ==> r@[i].0@ == self.entries()[i].donor@ && r@[i].1
                    == self.entries()[i].amount,
    {
        let mut r: Vec<(Address, i128)> = Vec::new();
        let mut i: usize = 0;
        while i < self.entries.len()
            invariant
                i <= self.entries@.len(),
                r@.len() == i,
                forall|j: int|
                    0 <= j < i ==> r@[j].0@ == self.entries@[j].donor@ && r@[j].1
                        == self.entries@[j].amount,
            decreases self.entries@.len() - i,
        {
            r.push((self.entries[i].donor.duplicate(), self.entries[i].amount));
            i = i + 1;
        }
        r
    }

    /// Pairs that list the entries in order sum to the ledger.
    pub proof fn lemma_pairs_match(&self, r: Seq<(Address, i128)>)
        requires
            self.wf(),
            r.len() == self.entries().len(),
            forall|i: int|
                0 <= i < r.len() ==> r[i].0@ == self.entries()[i].donor@ && r[i].1
                    == self.entries()[i].amount,
        ensures
            pairs_positive(r),
            pairs_total(r) == self.total(),
            forall|k: Seq<char>| #[trigger] pairs_total_by(r, k) == self.contribution(k),
    {
        lemma_pairs(self.entries(), r);
    }
}

} // verus!
