use vstd::prelude::*;

verus! {

/// Seconds in the thirty-day period between premium payments.
pub const PAYMENT_PERIOD_SECS: u64 = 2592000;

/// An insurance policy; policies are numbered from 1 in order of creation.
#[derive(Debug)]
pub struct InsurancePolicy {
    pub id: u32,
    pub name: String,
    /// The kind of coverage, such as "health" or "emergency".
    pub coverage_type: String,
    pub monthly_premium: i128,
    pub coverage_amount: i128,
    pub active: bool,
    /// Unix timestamp.
    pub next_payment_date: u64,
}

impl Clone for InsurancePolicy {
    fn clone(&self) -> (r: InsurancePolicy)
        ensures
            r == *self,
    {
        InsurancePolicy {
            id: self.id,
            name: self.name.clone(),
            coverage_type: self.coverage_type.clone(),
            monthly_premium: self.monthly_premium,
            coverage_amount: self.coverage_amount,
            active: self.active,
            next_payment_date: self.next_payment_date,
        }
    }
}

/// The policy with identifier `id` among `policies`, where the policy at
/// position `i` has identifier `i + 1`.
pub open spec fn policy_at(policies: Seq<InsurancePolicy>, id: u32) -> Option<InsurancePolicy> {
    if 1 <= id <= policies.len() {
        Some(policies[id - 1])
    } else {
        None
    }
}

pub open spec fn is_active(p: InsurancePolicy) -> bool {
    p.active
}

/// The active policies among `policies`, in order.
pub open spec fn active_policies(policies: Seq<InsurancePolicy>) -> Seq<InsurancePolicy> {
    policies.filter(|p: InsurancePolicy| is_active(p))
}

/// The sum of the monthly premiums of the active policies among `policies`.
pub open spec fn active_premium_total(policies: Seq<InsurancePolicy>) -> int
    decreases policies.len(),
{
    if policies.len() == 0 {
        0
    } else {
        active_premium_total(policies.drop_last()) + if policies.last().active {
            policies.last().monthly_premium as int
        } else {
            0
        }
    }
}

/// The insurance policies held by one contract.
pub struct Insurance {
    pub policies: Vec<InsurancePolicy>,
}

impl Insurance {
    /// Policies are numbered consecutively from 1, and every premium and
    /// coverage amount is positive.
    pub open spec fn wf(&self) -> bool {
        forall|i: int|
            0 <= i < self.policies@.len() ==> {
                &&& (#[trigger] self.policies@[i]).id == i + 1
                &&& self.policies@[i].monthly_premium > 0
                &&& self.policies@[i].coverage_amount > 0
            }
    }

    pub fn new() -> (r: Insurance)
        ensures
            r.wf(),
            r.policies@.len() == 0,
    {
        Insurance { policies: Vec::new() }
    }

    /// Creates an active policy at ledger time `now`, first due one payment
    /// period later, and returns its identifier, one past the last one
    /// handed out. Premium and coverage must both be positive.
    pub fn create_policy(
        &mut self,
        name: String,
        coverage_type: String,
        monthly_premium: i128,
        coverage_amount: i128,
        now: u64,
    ) -> (r: u32)
        requires
            old(self).wf(),
            old(self).policies@.len() < u32::MAX,
            monthly_premium > 0,
            coverage_amount > 0,
            now + PAYMENT_PERIOD_SECS <= u64::MAX,
        ensures
            final(self).wf(),
            r == old(self).policies@.len() + 1,
            final(self).policies@ == old(self).policies@.push(
                InsurancePolicy {
                    id: r,
                    name,
                    coverage_type,
                    monthly_premium,
                    coverage_amount,
                    active: true,
                    next_payment_date: (now + PAYMENT_PERIOD_SECS) as u64,
                },
            ),
    {
        let next_id: u32 = self.policies.len() as u32 + 1;
        let policy = InsurancePolicy {
            id: next_id,
            name,
            coverage_type,
            monthly_premium,
            coverage_amount,
            active: true,
            next_payment_date: now + PAYMENT_PERIOD_SECS,
        };
        self.policies.push(policy);
        next_id
    }

    /// Records a premium payment at ledger time `now`: the next payment falls
    /// due one period from now. Fails, changing nothing, for an unknown or
    /// inactive policy.
    pub fn pay_premium(&mut self, policy_id: u32, now: u64) -> (r: bool)
        requires
            old(self).wf(),
            policy_at(old(self).policies@, policy_id) matches Some(p) && p.active ==> now
                + PAYMENT_PERIOD_SECS <= u64::MAX,
        ensures
            final(self).wf(),
            r == (policy_at(old(self).policies@, policy_id) matches Some(p) && p.active),
            r ==> final(self).policies@ == old(self).policies@.update(
                policy_id - 1,
                InsurancePolicy {
                    next_payment_date: (now + PAYMENT_PERIOD_SECS) as u64,
                    ..old(self).policies@[policy_id - 1]
                },
            ),
            !r ==> final(self).policies@ == old(self).policies@,
    {
        if policy_id == 0 || policy_id as usize > self.policies.len() {
            return false;
        }
        let idx = (policy_id - 1) as usize;
        if !self.policies[idx].active {
            return false;
        }
        self.policies[idx].next_payment_date = now + PAYMENT_PERIOD_SECS;
        proof {
            assert forall|i: int| 0 <= i < self.policies@.len() implies {
                &&& (#[trigger] self.policies@[i]).id == i + 1
                &&& self.policies@[i].monthly_premium > 0
                &&& self.policies@[i].coverage_amount > 0
            } by {
                assert(old(self).policies@[i].id == i + 1);
            }
        }
        true
    }

    /// The policy with identifier `policy_id`, if there is one.
    pub fn get_policy(&self, policy_id: u32) -> (r: Option<InsurancePolicy>)
        requires
            self.wf(),
        ensures
            r == policy_at(self.policies@, policy_id),
    {
        if policy_id == 0 || policy_id as usize > self.policies.len() {
            return None;
        }
        Some(self.policies[(policy_id - 1) as usize].clone())
    }

    /// The active policies, in order of creation.
    pub fn get_active_policies(&self) -> (r: Vec<InsurancePolicy>)
        ensures
            r@ == active_policies(self.policies@),
    {
        let mut result: Vec<InsurancePolicy> = Vec::new();
        let mut i: usize = 0;
        while i < self.policies.len()
            invariant
                i <= self.policies@.len(),
                result@ == active_policies(self.policies@.subrange(0, i as int)),
            decreases self.policies@.len() - i,
        {
            proof {
                reveal(Seq::filter);
                assert(self.policies@.subrange(0, i + 1).drop_last() =~= self.policies@.subrange(
                    0,
                    i as int,
                ));
            }
            if self.policies[i].active {
                result.push(self.policies[i].clone());
            }
            i = i + 1;
        }
        assert(self.policies@.subrange(0, i as int) =~= self.policies@);
        result
    }

    /// The sum of the monthly premiums of the active policies.
    pub fn get_total_monthly_premium(&self) -> (r: i128)
        requires
            self.wf(),
            active_premium_total(self.policies@) <= i128::MAX,
        ensures
            r == active_premium_total(self.policies@),
    {
        let mut total: i128 = 0;
        let mut i: usize = 0;
        while i < self.policies.len()
            invariant
                self.wf(),
                i <= self.policies@.len(),
                total == active_premium_total(self.policies@.subrange(0, i as int)),
                active_premium_total(self.policies@) <= i128::MAX,
            decreases self.policies@.len() - i,
        {
            proof {
                assert(self.policies@.subrange(0, i + 1).drop_last() =~= self.policies@.subrange(
                    0,
                    i as int,
                ));
                lemma_premium_total_prefix(self.policies@, i + 1);
            }
            if self.policies[i].active {
                total = total + self.policies[i].monthly_premium;
            }
            i = i + 1;
        }
        assert(self.policies@.subrange(0, i as int) =~= self.policies@);
        total
    }

    /// Marks a policy inactive; false, changing nothing, for an unknown one.
    pub fn deactivate_policy(&mut self, policy_id: u32) -> (r: bool)
        requires
            old(self).wf(),
        ensures
            final(self).wf(),
            r == (policy_at(old(self).policies@, policy_id) is Some),
            r ==> final(self).policies@ == old(self).policies@.update(
                policy_id - 1,
                InsurancePolicy { active: false, ..old(self).policies@[policy_id - 1] },
            ),
            !r ==> final(self).policies@ == old(self).policies@,
    {
        if policy_id == 0 || policy_id as usize > self.policies.len() {
            return false;
        }
        let idx = (policy_id - 1) as usize;
        self.policies[idx].active = false;
        proof {
            assert forall|i: int| 0 <= i < self.policies@.len() implies {
                &&& (#[trigger] self.policies@[i]).id == i + 1
                &&& self.policies@[i].monthly_premium > 0
                &&& self.policies@[i].coverage_amount > 0
            } by {
                assert(old(self).policies@[i].id == i + 1);
            }
        }
        true
    }
}

/// With positive premiums the running total only grows, so every prefix
/// total is bounded by the whole.
proof fn lemma_premium_total_prefix(policies: Seq<InsurancePolicy>, n: int)
    requires
        0 <= n <= policies.len(),
        forall|i: int| 0 <= i < policies.len() ==> (#[trigger] policies[i]).monthly_premium > 0,
    ensures
        0 <= active_premium_total(policies.subrange(0, n)) <= active_premium_total(policies),
    decreases policies.len() - n,
{
    if n < policies.len() {
        lemma_premium_total_prefix(policies, n + 1);
        let p = policies.subrange(0, n);
        assert(policies.subrange(0, n + 1).drop_last() =~= p);
        assert(policies.subrange(0, n + 1).last() == policies[n]);
        assert forall|i: int| 0 <= i < p.len() implies (#[trigger] p[i]).monthly_premium > 0 by {
            assert(p[i] == policies[i]);
        }
        lemma_premium_total_nonneg(p);
    } else {
        assert(policies.subrange(0, n) =~= policies);
        lemma_premium_total_nonneg(policies);
    }
}

proof fn lemma_premium_total_nonneg(policies: Seq<InsurancePolicy>)
    requires
        forall|i: int| 0 <= i < policies.len() ==> (#[trigger] policies[i]).monthly_premium > 0,
    ensures
        0 <= active_premium_total(policies),
    decreases policies.len(),
{
    if policies.len() > 0 {
        let d = policies.drop_last();
        assert forall|i: int| 0 <= i < d.len() implies (#[trigger] d[i]).monthly_premium > 0 by {
            assert(d[i] == policies[i]);
        }
        lemma_premium_total_nonneg(d);
        assert(policies.last() == policies[policies.len() - 1]);
    }
}

} // verus!
