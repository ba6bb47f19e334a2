use vstd::prelude::*;

use crate::contract::{donation_recorded, CrowdfundingContract};

verus! {

/// The sum of the amounts in a run of donations, each an account key and an
/// amount.
pub open spec fn sum_of_amounts(ds: Seq<(Seq<char>, int)>) -> int
    decreases ds.len(),
{
    if ds.len() == 0 {
        0
    } else {
        sum_of_amounts(ds.drop_last()) + ds.last().1
    }
}

/// The sum of the amounts that the account `k` gave in a run of donations.
pub open spec fn sum_of_amounts_by(ds: Seq<(Seq<char>, int)>, k: Seq<char>) -> int
    decreases ds.len(),
{
    if ds.len() == 0 {
        0
    } else {
        sum_of_amounts_by(ds.drop_last(), k) + if ds.last().0 == k {
            ds.last().1
        } else {
            0
        }
    }
}

/// After a run of successful donations from a freshly initialized campaign,
/// the total raised is the sum of all donated amounts, and what each account
/// has donated is the sum of its own amounts.
///
/// `states[i + 1]` is the campaign after the donation `ds[i]`.
pub proof fn lemma_totals_follow_donations(
    states: Seq<CrowdfundingContract>,
    ds: Seq<(Seq<char>, int)>,
)
    requires
        states.len() == ds.len() + 1,
        states[0].raised() == 0,
        states[0].ledger().amounts() == Map::<Seq<char>, int>::empty(),
        forall|i: int|
            0 <= i < ds.len() ==> donation_recorded(
                #[trigger] states[i],
                states[i + 1],
                ds[i].0,
                ds[i].1,
            ),
    ensures
        states.last().raised() == sum_of_amounts(ds),
        forall|k: Seq<char>| #[trigger] states.last().donation(k) == sum_of_amounts_by(ds, k),
    decreases ds.len(),
{
    if ds.len() > 0 {
        let n = ds.len() - 1;
        lemma_totals_follow_donations(states.drop_last(), ds.drop_last());
        assert(donation_recorded(states[n], states[n + 1], ds[n].0, ds[n].1));
        let pre = states[n];
        assert(pre == states.drop_last().last());
        assert forall|k: Seq<char>| #[trigger]
            states.last().donation(k) == sum_of_amounts_by(ds, k) by {
            assert(pre.donation(k) == sum_of_amounts_by(ds.drop_last(), k));
        }
    }
}

} // verus!
