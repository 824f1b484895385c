use vstd::prelude::*;

verus! {

/// Announced when a new split configuration is stored.
#[derive(Clone, Copy, Debug, PartialEq, Eq, Structural)]
pub struct SplitInitializedEvent {
    pub spending_percent: u32,
    pub savings_percent: u32,
    pub bills_percent: u32,
    pub insurance_percent: u32,
    pub timestamp: u64,
}

/// Announced each time an amount is split.
#[derive(Clone, Copy, Debug, PartialEq, Eq, Structural)]
pub struct SplitCalculatedEvent {
    pub total_amount: i128,
    pub spending_amount: i128,
    pub savings_amount: i128,
    pub bills_amount: i128,
    pub insurance_amount: i128,
    pub timestamp: u64,
}

/// The configuration in force until one is stored: spending, savings, bills
/// and insurance percentages.
pub open spec fn default_split() -> Seq<u32> {
    seq![50u32, 30u32, 15u32, 5u32]
}

pub open spec fn percent_total(p: Seq<u32>) -> int {
    p[0] + p[1] + p[2] + p[3]
}

/// Integer division rounding toward zero, as machine division does.
pub open spec fn trunc_div(a: int, b: int) -> int {
    if a >= 0 {
        a / b
    } else {
        -((-a) / b)
    }
}

/// The part of `total` that `pct` percent stands for, rounded toward zero.
pub open spec fn share(total: int, pct: int) -> int {
    trunc_div(total * pct, 100)
}

/// Whether `total * pct` is representable, so that a share can be computed.
pub open spec fn share_fits(total: i128, pct: u32) -> bool {
    i128::MIN <= total * pct <= i128::MAX
}

/// How a remittance is divided between spending, savings, bills and
/// insurance. The percentages are always four and always add up to 100.
pub struct RemittanceSplit {
    pub split: Vec<u32>,
}

impl RemittanceSplit {
    pub open spec fn wf(&self) -> bool {
        self.split@.len() == 4 && percent_total(self.split@) == 100
    }

    /// The default configuration.
    pub fn new() -> (r: RemittanceSplit)
        ensures
            r.wf(),
            r.split@ == default_split(),
    {
        let r = RemittanceSplit { split: vec![50u32, 30u32, 15u32, 5u32] };
        assert(r.split@ =~= default_split());
        r
    }

    /// Stores a new configuration at ledger time `now` if the four
    /// percentages add up to 100; otherwise leaves the old one and returns
    /// `None`.
    pub fn initialize_split(
        &mut self,
        spending_percent: u32,
        savings_percent: u32,
        bills_percent: u32,
        insurance_percent: u32,
        now: u64,
    ) -> (r: Option<SplitInitializedEvent>)
        ensures
            spending_percent + savings_percent + bills_percent + insurance_percent == 100 ==> {
                &&& r == Some(
                    SplitInitializedEvent {
                        spending_percent,
                        savings_percent,
                        bills_percent,
                        insurance_percent,
                        timestamp: now,
                    },
                )
                &&& final(self).split@ == seq![
                    spending_percent,
                    savings_percent,
                    bills_percent,
                    insurance_percent,
                ]
            },
            spending_percent + savings_percent + bills_percent + insurance_percent != 100 ==> {
                &&& r is None
                &&& final(self).split@ == old(self).split@
            },
            old(self).wf() ==> final(self).wf(),
    {
        let total: u64 = spending_percent as u64 + savings_percent as u64 + bills_percent as u64
            + insurance_percent as u64;
        if total != 100 {
            return None;
        }
        self.split = vec![spending_percent, savings_percent, bills_percent, insurance_percent];
        assert(self.split@ =~= seq![
            spending_percent,
            savings_percent,
            bills_percent,
            insurance_percent,
        ]);
        Some(
            SplitInitializedEvent {
                spending_percent,
                savings_percent,
                bills_percent,
                insurance_percent,
                timestamp: now,
            },
        )
    }

    /// The configuration in force.
    pub fn get_split(&self) -> (r: Vec<u32>)
        ensures
            r@ == self.split@,
    {
        self.split.clone()
    }

    /// Splits `total_amount` at ledger time `now`: each of the first three
    /// parts is its percentage of the total rounded toward zero, and
    /// insurance receives the rest, so that the parts add up to the total.
    pub fn calculate_split(&self, total_amount: i128, now: u64) -> (r: (
        Vec<i128>,
        SplitCalculatedEvent,
    ))
        requires
            self.wf(),
            share_fits(total_amount, self.split@[0]),
            share_fits(total_amount, self.split@[1]),
            share_fits(total_amount, self.split@[2]),
        ensures
            r.0@.len() == 4,
            r.0@[0] == share(total_amount as int, self.split@[0] as int),
            r.0@[1] == share(total_amount as int, self.split@[1] as int),
            r.0@[2] == share(total_amount as int, self.split@[2] as int),
            r.0@[3] == total_amount - r.0@[0] - r.0@[1] - r.0@[2],
            r.0@[0] + r.0@[1] + r.0@[2] + r.0@[3] == total_amount,
            r.1 == (SplitCalculatedEvent {
                total_amount,
                spending_amount: r.0@[0],
                savings_amount: r.0@[1],
                bills_amount: r.0@[2],
                insurance_amount: r.0@[3],
                timestamp: now,
            }),
    {
        let p0 = self.split[0];
        let p1 = self.split[1];
        let p2 = self.split[2];
        let spending: i128 = (total_amount * p0 as i128) / 100;
        let savings: i128 = (total_amount * p1 as i128) / 100;
        let bills: i128 = (total_amount * p2 as i128) / 100;
        proof {
            lemma_shares_within_total(total_amount as int, p0 as int, p1 as int, p2 as int);
        }
        let insurance: i128 = total_amount - spending - savings - bills;
        let event = SplitCalculatedEvent {
            total_amount,
            spending_amount: spending,
            savings_amount: savings,
            bills_amount: bills,
            insurance_amount: insurance,
            timestamp: now,
        };
        (vec![spending, savings, bills, insurance], event)
    }
}

proof fn lemma_share_bounds(t: int, p: int)
    requires
        0 <= p,
    ensures
        t >= 0 ==> 0 <= share(t, p) && share(t, p) * 100 <= t * p,
        t < 0 ==> share(t, p) <= 0 && share(t, p) * 100 >= t * p,
{
    if t >= 0 {
        assert(t * p >= 0) by (nonlinear_arith)
            requires
                t >= 0,
                p >= 0,
        ;
    } else {
        assert(-(t * p) >= 0) by (nonlinear_arith)
            requires
                t < 0,
                p >= 0,
        ;
    }
}

/// The three rounded shares of a split whose first three percentages add
/// up to at most 100 never overshoot the total, so every partial remainder
/// lies between zero and the total.
proof fn lemma_shares_within_total(t: int, p0: int, p1: int, p2: int)
    requires
        0 <= p0,
        0 <= p1,
        0 <= p2,
        p0 + p1 + p2 <= 100,
    ensures
        t >= 0 ==> 0 <= share(t, p0) && 0 <= share(t, p1) && 0 <= share(t, p2) && share(t, p0)
            + share(t, p1) + share(t, p2) <= t,
        t < 0 ==> share(t, p0) <= 0 && share(t, p1) <= 0 && share(t, p2) <= 0 && share(t, p0)
            + share(t, p1) + share(t, p2) >= t,
{
    lemma_share_bounds(t, p0);
    lemma_share_bounds(t, p1);
    lemma_share_bounds(t, p2);
    if t >= 0 {
        assert(t * p0 + t * p1 + t * p2 <= t * 100) by (nonlinear_arith)
            requires
                t >= 0,
                p0 + p1 + p2 <= 100,
        ;
    } else {
        assert(t * p0 + t * p1 + t * p2 >= t * 100) by (nonlinear_arith)
            requires
                t < 0,
                p0 + p1 + p2 <= 100,
        ;
    }
}

} // verus!
