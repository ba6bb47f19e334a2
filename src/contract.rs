use vstd::arithmetic::div_mod::lemma_fundamental_div_mod_converse;
use vstd::prelude::*;

use crate::address::Address;
use crate::ledger::{pairs_positive, pairs_total, pairs_total_by, Ledger};

verus! {

/// Why a transition was refused. A refused transition changes nothing.
#[derive(Clone, Copy, Debug, PartialEq, Eq, Structural)]
pub enum CrowdfundingError {
    /// The caller is not the campaign owner.
    Unauthorized,
    /// The deadline has passed.
    CampaignEnded,
    /// The donated amount is not positive.
    InvalidAmount,
    /// The host refused to move the donated funds.
    TransferFailure,
}

/// A snapshot of the campaign's figures.
#[derive(Clone, Copy, Debug, PartialEq, Eq, Structural)]
pub struct CampaignStats {
    pub raised: i128,
    pub goal: i128,
    pub donors: i128,
    pub updates: i128,
    pub comments: i128,
}

/// Progress towards the goal in whole percent, held to `[0, 100]`; zero for a
/// goal of zero.
pub open spec fn progress_of(raised: int, goal: int) -> int {
    if goal == 0 {
        0
    } else if raised * 100 / goal > 100 {
        100
    } else if raised * 100 / goal < 0 {
        0
    } else {
        raised * 100 / goal
    }
}

/// Why a donation of `amount` at time `now` is refused before any funds move,
/// if it is.
pub open spec fn donation_refusal(deadline: int, amount: int, now: int) -> Option<
    CrowdfundingError,
> {
    if now > deadline {
        Some(CrowdfundingError::CampaignEnded)
    } else if amount <= 0 {
        Some(CrowdfundingError::InvalidAmount)
    } else {
        None
    }
}

/// `post` is `pre` after a successful donation of `amount` by `donor`: the
/// amount is added to the total and to the donor's entry, and nothing else
/// changes.
pub open spec fn donation_recorded(
    pre: CrowdfundingContract,
    post: CrowdfundingContract,
    donor: Seq<char>,
    amount: int,
) -> bool {
    &&& post.same_settings(&pre)
    &&& post.same_logs(&pre)
    &&& post.raised() == pre.raised() + amount
    &&& post.ledger().amounts() == pre.ledger().amounts().insert(
        donor,
        pre.donation(donor) + amount,
    )
}

/// The text of the category that a campaign has before it is set.
pub open spec fn default_category() -> Seq<char> {
    seq!['U', 'n', 'c', 'a', 't', 'e', 'g', 'o', 'r', 'i', 'z', 'e', 'd']
}

proof fn lemma_prefix_total_le(s: Seq<(Address, i128)>, j: int)
    requires
        pairs_positive(s),
        0 <= j <= s.len(),
    ensures
        pairs_total(s.take(j)) <= pairs_total(s),
    decreases s.len(),
{
    if j == s.len() {
        assert(s.take(j) =~= s);
    } else {
        assert(s.drop_last().take(j) =~= s.take(j));
        lemma_prefix_total_le(s.drop_last(), j);
    }
}

/// A copy of a list of texts.
fn copy_texts(v: &Vec<String>) -> (r: Vec<String>)
    ensures
        r@ == v@,
{
    let mut r: Vec<String> = Vec::new();
    let mut i: usize = 0;
    while i < v.len()
        invariant
            i <= v@.len(),
            r@ == v@.subrange(0, i as int),
        decreases v@.len() - i,
    {
        r.push(v[i].clone());
        i = i + 1;
        proof {
            assert(r@ =~= v@.subrange(0, i as int));
        }
    }
    proof {
        assert(v@.subrange(0, v@.len() as int) =~= v@);
    }
    r
}

/// One crowdfunding campaign: its settings, the funds raised, and its logs of
/// updates, comments and milestones.
pub struct CrowdfundingContract {
    owner: Address,
    goal: i128,
    deadline: u64,
    token: Address,
    category: String,
    raised: i128,
    initialized: bool,
    ledger: Ledger,
    updates: Vec<String>,
    comments: Vec<String>,
    milestones: Vec<String>,
    update_count: u32,
    comment_count: u32,
}

impl CrowdfundingContract {
    pub closed spec fn owner(&self) -> Seq<char> {
        self.owner@
    }

    pub closed spec fn goal(&self) -> int {
        self.goal as int
    }

    pub closed spec fn deadline(&self) -> int {
        self.deadline as int
    }

    /// The asset in which donations are made.
    pub closed spec fn token(&self) -> Seq<char> {
        self.token@
    }

    pub closed spec fn category(&self) -> Seq<char> {
        self.category@
    }

    pub closed spec fn raised(&self) -> int {
        self.raised as int
    }

    pub closed spec fn initialized(&self) -> bool {
        self.initialized
    }

    pub closed spec fn ledger(&self) -> Ledger {
        self.ledger
    }

    pub closed spec fn updates(&self) -> Seq<String> {
        self.updates@
    }

    pub closed spec fn comments(&self) -> Seq<String> {
        self.comments@
    }

    pub closed spec fn milestones(&self) -> Seq<String> {
        self.milestones@
    }

    pub closed spec fn update_count(&self) -> int {
        self.update_count as int
    }

    pub closed spec fn comment_count(&self) -> int {
        self.comment_count as int
    }

    /// What `k` has contributed, zero for an account that never donated.
    pub open spec fn donation(&self, k: Seq<char>) -> int {
        self.ledger().contribution(k)
    }

    /// The raised total is the sum of the ledger, and each counter is the
    /// length of its log.
    pub open spec fn wf(&self) -> bool {
        &&& self.ledger().wf()
        &&& self.raised() == self.ledger().total()
        &&& self.update_count() == self.updates().len()
        &&& self.comment_count() == self.comments().len()
    }

    /// The settings fixed by `initialize` are the same in both.
    pub open spec fn same_settings(&self, o: &Self) -> bool {
        &&& self.owner() == o.owner()
        &&& self.goal() == o.goal()
        &&& self.deadline() == o.deadline()
        &&& self.token() == o.token()
        &&& self.category() == o.category()
        &&& self.initialized() == o.initialized()
    }

    /// The funds raised are the same in both.
    pub open spec fn same_funds(&self, o: &Self) -> bool {
        self.raised() == o.raised() && self.ledger() == o.ledger()
    }

    /// The three logs and their counters are the same in both.
    pub open spec fn same_logs(&self, o: &Self) -> bool {
        &&& self.updates() == o.updates()
        &&& self.comments() == o.comments()
        &&& self.milestones() == o.milestones()
        &&& self.update_count() == o.update_count()
        &&& self.comment_count() == o.comment_count()
    }

    /// A campaign that has not been initialized: every read gives its default.
    pub fn new() -> (r: CrowdfundingContract)
        ensures
            r.wf(),
            !r.initialized(),
            r.goal() == 0,
            r.deadline() == 0,
            r.raised() == 0,
            r.category() == default_category(),
            r.ledger().amounts() == Map::<Seq<char>, int>::empty(),
            r.updates().len() == 0,
            r.comments().len() == 0,
            r.milestones().len() == 0,
    {
        let category = "Uncategorized".to_owned();
        proof {
            reveal_strlit("Uncategorized");
            assert(category@ =~= default_category());
        }
        CrowdfundingContract {
            owner: Address::from_key(String::new()),
            goal: 0,
            deadline: 0,
            token: Address::from_key(String::new()),
            category,
            raised: 0,
            initialized: false,
            ledger: Ledger::new(),
            updates: Vec::new(),
            comments: Vec::new(),
            milestones: Vec::new(),
            update_count: 0,
            comment_count: 0,
        }
    }

    /// Starts the campaign: sets its settings and clears the funds and logs.
    /// A second call starts it afresh.
    pub fn initialize(
        &mut self,
        owner: Address,
        goal: i128,
        deadline: u64,
        xlm_token: Address,
        category: String,
    )
        ensures
            final(self).wf(),
            final(self).initialized(),
            final(self).owner() == owner@,
            final(self).goal() == goal,
            final(self).deadline() == deadline,
            final(self).token() == xlm_token@,
            final(self).category() == category@,
            final(self).raised() == 0,
            final(self).ledger().amounts() == Map::<Seq<char>, int>::empty(),
            final(self).updates().len() == 0,
            final(self).comments().len() == 0,
            final(self).milestones().len() == 0,
    {
        self.owner = owner;
        self.goal = goal;
        self.deadline = deadline;
        self.token = xlm_token;
        self.category = category;
        self.raised = 0;
        self.initialized = true;
        self.ledger = Ledger::new();
        self.updates = Vec::new();
        self.comments = Vec::new();
        self.milestones = Vec::new();
        self.update_count = 0;
        self.comment_count = 0;
    }

    /// Whether a donation of `amount` at time `now` may go ahead, decided
    /// before any funds move: the deadline is checked first, then the amount.
    pub fn check_donation(&self, amount: i128, now: u64) -> (r: Result<(), CrowdfundingError>)
        ensures
            r == match donation_refusal(self.deadline(), amount as int, now as int) {
                Some(e) => Err::<(), CrowdfundingError>(e),
                None => Ok(()),
            },
    {
        if now > self.deadline {
            Err(CrowdfundingError::CampaignEnded)
        } else if amount <= 0 {
            Err(CrowdfundingError::InvalidAmount)
        } else {
            Ok(())
        }
    }

    /// Records a donation of `amount` by `donor` at time `now`, once the host
    /// has reported whether the funds moved (`transferred`). The funds count
    /// only when the donation is allowed and the transfer went through;
    /// otherwise nothing changes.
    pub fn donate(&mut self, donor: Address, amount: i128, now: u64, transferred: bool) -> (r:
        Result<(), CrowdfundingError>)
        requires
            old(self).wf(),
            old(self).initialized(),
            old(self).raised() + amount <= i128::MAX,
        ensures
            final(self).wf(),
            r == match donation_refusal(old(self).deadline(), amount as int, now as int) {
                Some(e) => Err::<(), CrowdfundingError>(e),
                None => if transferred {
                    Ok(())
                } else {
                    Err(CrowdfundingError::TransferFailure)
                },
            },
            r is Err ==> *final(self) == *old(self),
            r is Ok ==> donation_recorded(*old(self), *final(self), donor@, amount as int),
            amount <= 0 && now <= old(self).deadline() ==> r == Err::<(), CrowdfundingError>(
                CrowdfundingError::InvalidAmount,
            ),
            now > old(self).deadline() ==> r == Err::<(), CrowdfundingError>(
                CrowdfundingError::CampaignEnded,
            ),
            !transferred ==> r is Err,
    {
        if let Err(e) = self.check_donation(amount, now) {
            return Err(e);
        }
        if !transferred {
            return Err(CrowdfundingError::TransferFailure);
        }
        self.raised = self.raised + amount;
        self.ledger.add(donor, amount);
        Ok(())
    }

    /// Appends `update_text` to the updates, if `caller` is the owner.
    pub fn post_update(&mut self, caller: Address, update_text: String) -> (r: Result<
        (),
        CrowdfundingError,
    >)
        requires
            old(self).wf(),
            old(self).initialized(),
            old(self).update_count() < u32::MAX,
        ensures
            final(self).wf(),
            r is Ok <==> caller@ == old(self).owner(),
            r is Err ==> r == Err::<(), CrowdfundingError>(CrowdfundingError::Unauthorized),
            final(self).same_settings(old(self)),
            final(self).same_funds(old(self)),
            final(self).comments() == old(self).comments(),
            final(self).comment_count() == old(self).comment_count(),
            final(self).milestones() == old(self).milestones(),
            r is Err ==> *final(self) == *old(self),
            r is Ok ==> final(self).updates() == old(self).updates().push(update_text),
            r is Ok ==> final(self).update_count() == old(self).update_count() + 1,
    {
        if !caller.same_as(&self.owner) {
            return Err(CrowdfundingError::Unauthorized);
        }
        self.updates.push(update_text);
        self.update_count = self.update_count + 1;
        Ok(())
    }

    /// Appends `comment_text` to the comments; anyone may comment.
    pub fn add_comment(&mut self, commenter: Address, comment_text: String)
        requires
            old(self).wf(),
            old(self).initialized(),
            old(self).comment_count() < u32::MAX,
        ensures
            final(self).wf(),
            final(self).same_settings(old(self)),
            final(self).same_funds(old(self)),
            final(self).updates() == old(self).updates(),
            final(self).update_count() == old(self).update_count(),
            final(self).milestones() == old(self).milestones(),
            final(self).comments() == old(self).comments().push(comment_text),
            final(self).comment_count() == old(self).comment_count() + 1,
    {
        self.comments.push(comment_text);
        self.comment_count = self.comment_count + 1;
    }

    /// Appends `milestone_text` to the milestones, if `caller` is the owner.
    pub fn add_milestone(&mut self, caller: Address, milestone_text: String) -> (r: Result<
        (),
        CrowdfundingError,
    >)
        requires
            old(self).wf(),
            old(self).initialized(),
        ensures
            final(self).wf(),
            r is Ok <==> caller@ == old(self).owner(),
            r is Err ==> r == Err::<(), CrowdfundingError>(CrowdfundingError::Unauthorized),
            final(self).same_settings(old(self)),
            final(self).same_funds(old(self)),
            final(self).updates() == old(self).updates(),
            final(self).update_count() == old(self).update_count(),
            final(self).comments() == old(self).comments(),
            final(self).comment_count() == old(self).comment_count(),
            r is Err ==> *final(self) == *old(self),
            r is Ok ==> final(self).milestones() == old(self).milestones().push(milestone_text),
    {
        if !caller.same_as(&self.owner) {
            return Err(CrowdfundingError::Unauthorized);
        }
        self.milestones.push(milestone_text);
        Ok(())
    }

    /// The sum of all donations.
    pub fn get_total_raised(&self) -> (r: i128)
        ensures
            r == self.raised(),
    {
        self.raised
    }

    /// What `donor` has donated in total, zero for an account that never did.
    pub fn get_donation(&self, donor: &Address) -> (r: i128)
        requires
            self.wf(),
        ensures
            r == self.donation(donor@),
    {
        self.ledger.amount_for(donor)
    }

    /// Whether the campaign has been initialized.
    pub fn get_is_already_init(&self) -> (r: bool)
        ensures
            r == self.initialized(),
    {
        self.initialized
    }

    /// The campaign's category.
    pub fn get_category(&self) -> (r: String)
        ensures
            r@ == self.category(),
    {
        self.category.clone()
    }

    /// The asset in which donations are made.
    pub fn get_token(&self) -> (r: &Address)
        ensures
            r@ == self.token(),
    {
        &self.token
    }

    /// The campaign's owner.
    pub fn get_owner(&self) -> (r: &Address)
        ensures
            r@ == self.owner(),
    {
        &self.owner
    }

    /// The campaign's goal.
    pub fn get_goal(&self) -> (r: i128)
        ensures
            r == self.goal(),
    {
        self.goal
    }

    /// The campaign's deadline.
    pub fn get_deadline(&self) -> (r: u64)
        ensures
            r == self.deadline(),
    {
        self.deadline
    }

    /// The updates, oldest first.
    pub fn get_updates(&self) -> (r: Vec<String>)
        ensures
            r@ == self.updates(),
    {
        copy_texts(&self.updates)
    }

    /// The number of updates.
    pub fn get_update_count(&self) -> (r: u32)
        requires
            self.wf(),
        ensures
            r == self.updates().len(),
    {
        self.update_count
    }

    /// The comments, oldest first.
    pub fn get_comments(&self) -> (r: Vec<String>)
        ensures
            r@ == self.comments(),
    {
        copy_texts(&self.comments)
    }

    /// The number of comments.
    pub fn get_comment_count(&self) -> (r: u32)
        requires
            self.wf(),
        ensures
            r == self.comments().len(),
    {
        self.comment_count
    }

    /// The milestones, oldest first.
    pub fn get_milestones(&self) -> (r: Vec<String>)
        ensures
            r@ == self.milestones(),
    {
        copy_texts(&self.milestones)
    }

    /// Progress towards the goal in whole percent.
    pub fn get_progress_percentage(&self) -> (r: u32)
        requires
            self.wf(),
        ensures
            r == progress_of(self.raised(), self.goal()),
            0 <= r <= 100,
            self.goal() == 0 ==> r == 0,
    {
        proof {
            self.ledger.lemma_total_nonnegative();
        }
        let raised = self.raised;
        let goal = self.goal;
        if goal == 0 {
            return 0;
        }
        if goal < 0 {
            proof {
                let x = raised * 100;
                let q = x / (goal as int);
                let m = x % (goal as int);
                assert(x == (goal as int) * q + m && 0 <= m < -goal) by (nonlinear_arith)
                    requires
                        goal < 0,
                        q == x / (goal as int),
                        m == x % (goal as int),
                ;
                assert(q <= 0) by (nonlinear_arith)
                    requires
                        x >= 0,
                        goal < 0,
                        x == (goal as int) * q + m,
                        0 <= m < -goal,
                ;
            }
            return 0;
        }
        if raised >= goal {
            proof {
                let x = raised * 100;
                let q = x / (goal as int);
                let m = x % (goal as int);
                vstd::arithmetic::div_mod::lemma_fundamental_div_mod(x, goal as int);
                assert(q >= 100) by (nonlinear_arith)
                    requires
                        raised >= goal > 0,
                        x == raised * 100,
                        x == (goal as int) * q + m,
                        0 <= m < goal,
                ;
            }
            return 100;
        }
        let r = raised as u128;
        let g = goal as u128;
        let mut q: u128 = 0;
        let mut acc: u128 = 0;
        let mut i: u32 = 0;
        while i < 100
            invariant
                0 <= r < g <= i128::MAX,
                i <= 100,
                q <= i,
                acc < g,
                q * g + acc == i * r,
            decreases 100 - i,
        {
            acc = acc + r;
            if acc >= g {
                acc = acc - g;
                proof {
                    assert((q + 1) * g == q * g + g) by (nonlinear_arith);
                }
                q = q + 1;
            }
            proof {
                assert((i + 1) * r == i * r + r) by (nonlinear_arith);
            }
            i = i + 1;
        }
        proof {
            assert(100 * r == q * g + acc);
            lemma_fundamental_div_mod_converse(raised * 100, goal as int, q as int, acc as int);
        }
        q as u32
    }

    /// Whether donations are still taken at time `now`.
    pub fn is_campaign_active(&self, now: u64) -> (r: bool)
        ensures
            r == (now <= self.deadline()),
    {
        now <= self.deadline
    }

    /// The campaign's figures as they stand.
    pub fn get_campaign_stats(&self) -> (r: CampaignStats)
        requires
            self.wf(),
        ensures
            r.raised == self.raised(),
            r.goal == self.goal(),
            r.donors == self.ledger().amounts().dom().len(),
            r.updates == self.updates().len(),
            r.comments == self.comments().len(),
    {
        CampaignStats {
            raised: self.raised,
            goal: self.goal,
            donors: self.ledger.donor_count() as i128,
            updates: self.update_count as i128,
            comments: self.comment_count as i128,
        }
    }

    /// Rebuilds a campaign from its stored parts: the settings, the
    /// contributions as account and amount pairs (an account's pairs add up),
    /// and the three logs. Nothing comes back when an amount is not positive,
    /// the amounts add up beyond `i128`, or a log is longer than its counter
    /// can count.
    pub fn restore(
        owner: Address,
        goal: i128,
        deadline: u64,
        xlm_token: Address,
        category: String,
        initialized: bool,
        donations: Vec<(Address, i128)>,
        updates: Vec<String>,
        comments: Vec<String>,
        milestones: Vec<String>,
    ) -> (r: Option<CrowdfundingContract>)
        ensures
            r is Some <==> {
                &&& pairs_positive(donations@)
                &&& pairs_total(donations@) <= i128::MAX
                &&& updates@.len() <= u32::MAX
                &&& comments@.len() <= u32::MAX
            },
            r matches Some(c) ==> {
                &&& c.wf()
                &&& c.owner() == owner@
                &&& c.goal() == goal
                &&& c.deadline() == deadline
                &&& c.token() == xlm_token@
                &&& c.category() == category@
                &&& c.initialized() == initialized
                &&& c.raised() == pairs_total(donations@)
                &&& forall|k: Seq<char>| #[trigger] c.donation(k) == pairs_total_by(donations@, k)
                &&& c.updates() == updates@
                &&& c.comments() == comments@
                &&& c.milestones() == milestones@
            },
    {
        if updates.len() > 4294967295 || comments.len() > 4294967295 {
            return None;
        }
        let ghost s = donations@;
        let mut ledger = Ledger::new();
        let mut raised: i128 = 0;
        let mut i: usize = 0;
        while i < donations.len()
            invariant
                s == donations@,
                i <= s.len(),
                pairs_positive(s.take(i as int)),
                raised == pairs_total(s.take(i as int)),
                ledger.wf(),
                ledger.total() == raised,
                forall|k: Seq<char>| #[trigger]
                    ledger.contribution(k) == pairs_total_by(s.take(i as int), k),
            decreases s.len() - i,
        {
            let amount = donations[i].1;
            proof {
                assert(s.take(i + 1).drop_last() =~= s.take(i as int));
            }
            if amount <= 0 {
                return None;
            }
            if raised > i128::MAX - amount {
                proof {
                    if pairs_positive(s) {
                        lemma_prefix_total_le(s, i + 1);
                    }
                }
                return None;
            }
            let ghost before = ledger;
            ledger.add(donations[i].0.duplicate(), amount);
            raised = raised + amount;
            proof {
                assert forall|k: Seq<char>| #[trigger]
                    ledger.contribution(k) == pairs_total_by(s.take(i + 1), k) by {
                    assert(before.contribution(k) == pairs_total_by(s.take(i as int), k));
                }
            }
            i = i + 1;
        }
        proof {
            assert(s.take(s.len() as int) =~= s);
        }
        Some(
            CrowdfundingContract {
                owner,
                goal,
                deadline,
                token: xlm_token,
                category,
                raised,
                initialized,
                ledger,
                update_count: updates.len() as u32,
                comment_count: comments.len() as u32,
                updates,
                comments,
                milestones,
            },
        )
    }

    /// The contributions as account and amount pairs, one per account, in the
    /// order in which each account first donated.
    pub fn get_donations(&self) -> (r: Vec<(Address, i128)>)
        requires
            self.wf(),
        ensures
            pairs_positive(r@),
            pairs_total(r@) == self.raised(),
            forall|k: Seq<char>| #[trigger] pairs_total_by(r@, k) == self.donation(k),
    {
        let r = self.ledger.to_pairs();
        proof {
            self.ledger.lemma_pairs_match(r@);
        }
        r
    }
}

} // verus!
