use vstd::prelude::*;

verus! {

pub const SECS_PER_DAY: u64 = 86400;

/// A bill; bills are numbered from 1 in order of creation.
#[derive(Debug)]
pub struct Bill {
    pub id: u32,
    pub name: String,
    pub amount: i128,
    /// Unix timestamp.
    pub due_date: u64,
    pub recurring: bool,
    /// For a recurring bill, the days between one due date and the next.
    pub frequency_days: u32,
    pub paid: bool,
}

impl Clone for Bill {
    fn clone(&self) -> (r: Bill)
        ensures
            r == *self,
    {
        Bill {
            id: self.id,
            name: self.name.clone(),
            amount: self.amount,
            due_date: self.due_date,
            recurring: self.recurring,
            frequency_days: self.frequency_days,
            paid: self.paid,
        }
    }
}

/// Announced when a bill is created.
#[derive(Debug)]
pub struct BillCreatedEvent {
    pub bill_id: u32,
    pub name: String,
    pub amount: i128,
    pub due_date: u64,
    pub recurring: bool,
    pub timestamp: u64,
}

/// Announced when a bill is paid.
#[derive(Debug)]
pub struct BillPaidEvent {
    pub bill_id: u32,
    pub name: String,
    pub amount: i128,
    pub timestamp: u64,
}

/// Announced when paying a recurring bill creates its successor.
#[derive(Debug)]
pub struct RecurringBillCreatedEvent {
    pub bill_id: u32,
    pub parent_bill_id: u32,
    pub name: String,
    pub amount: i128,
    pub due_date: u64,
    pub timestamp: u64,
}

/// The bill with identifier `id` among `bills`, where the bill at position
/// `i` has identifier `i + 1`.
pub open spec fn bill_at(bills: Seq<Bill>, id: u32) -> Option<Bill> {
    if 1 <= id <= bills.len() {
        Some(bills[id - 1])
    } else {
        None
    }
}

pub open spec fn is_unpaid(b: Bill) -> bool {
    !b.paid
}

/// The unpaid bills among `bills`, in order.
pub open spec fn unpaid_bills(bills: Seq<Bill>) -> Seq<Bill> {
    bills.filter(|b: Bill| is_unpaid(b))
}

/// The sum of the amounts of the unpaid bills among `bills`.
pub open spec fn unpaid_total(bills: Seq<Bill>) -> int
    decreases bills.len(),
{
    if bills.len() == 0 {
        0
    } else {
        unpaid_total(bills.drop_last()) + if bills.last().paid {
            0
        } else {
            bills.last().amount as int
        }
    }
}

/// The due date of the bill that follows `b` when `b` recurs.
pub open spec fn next_due_date(b: Bill) -> int {
    b.due_date + b.frequency_days * SECS_PER_DAY
}

/// Whether paying `b` is possible without exceeding the machine limits:
/// a recurring bill needs room for its successor's identifier and due date.
pub open spec fn successor_fits(bills: Seq<Bill>, b: Bill) -> bool {
    b.recurring ==> bills.len() < u32::MAX && next_due_date(b) <= u64::MAX
}

/// The bills held by one contract.
pub struct BillPayments {
    pub bills: Vec<Bill>,
}

impl BillPayments {
    /// Bills are numbered consecutively from 1.
    pub open spec fn wf(&self) -> bool {
        forall|i: int| 0 <= i < self.bills@.len() ==> (#[trigger] self.bills@[i]).id == i + 1
    }

    pub fn new() -> (r: BillPayments)
        ensures
            r.wf(),
            r.bills@.len() == 0,
    {
        BillPayments { bills: Vec::new() }
    }

    /// Creates an unpaid bill at ledger time `now` and returns its
    /// identifier, one past the last one handed out.
    pub fn create_bill(
        &mut self,
        name: String,
        amount: i128,
        due_date: u64,
        recurring: bool,
        frequency_days: u32,
        now: u64,
    ) -> (r: (u32, BillCreatedEvent))
        requires
            old(self).wf(),
            old(self).bills@.len() < u32::MAX,
        ensures
            final(self).wf(),
            r.0 == old(self).bills@.len() + 1,
            final(self).bills@ == old(self).bills@.push(
                Bill { id: r.0, name, amount, due_date, recurring, frequency_days, paid: false },
            ),
            r.1 == (BillCreatedEvent {
                bill_id: r.0,
                name,
                amount,
                due_date,
                recurring,
                timestamp: now,
            }),
    {
        let next_id: u32 = self.bills.len() as u32 + 1;
        let event = BillCreatedEvent {
            bill_id: next_id,
            name: name.clone(),
            amount,
            due_date,
            recurring,
            timestamp: now,
        };
        let bill = Bill { id: next_id, name, amount, due_date, recurring, frequency_days, paid: false };
        self.bills.push(bill);
        (next_id, event)
    }

    /// Marks a bill paid at ledger time `now`. A recurring bill is followed
    /// by a fresh unpaid copy, due one period after it and numbered one past
    /// the last identifier. Fails, changing nothing, for an unknown bill or
    /// one already paid.
    pub fn pay_bill(&mut self, bill_id: u32, now: u64) -> (r: (
        bool,
        Option<BillPaidEvent>,
        Option<RecurringBillCreatedEvent>,
    ))
        requires
            old(self).wf(),
            bill_at(old(self).bills@, bill_id) matches Some(b) ==> successor_fits(
                old(self).bills@,
                b,
            ),
        ensures
            final(self).wf(),
            match bill_at(old(self).bills@, bill_id) {
                Some(b) if !b.paid => {
                    let paid = old(self).bills@.update(bill_id - 1, Bill { paid: true, ..b });
                    let next_id = old(self).bills@.len() + 1;
                    &&& r.0
                    &&& r.1 == Some(
                        BillPaidEvent { bill_id, name: b.name, amount: b.amount, timestamp: now },
                    )
                    &&& if b.recurring {
                        &&& final(self).bills@ == paid.push(
                            Bill {
                                id: next_id as u32,
                                due_date: next_due_date(b) as u64,
                                recurring: true,
                                paid: false,
                                ..b
                            },
                        )
                        &&& r.2 == Some(
                            RecurringBillCreatedEvent {
                                bill_id: next_id as u32,
                                parent_bill_id: bill_id,
                                name: b.name,
                                amount: b.amount,
                                due_date: next_due_date(b) as u64,
                                timestamp: now,
                            },
                        )
                    } else {
                        final(self).bills@ == paid && r.2 is None
                    }
                },
                _ => !r.0 && r.1 is None && r.2 is None && final(self).bills@ == old(self).bills@,
            },
    {
        if bill_id == 0 || bill_id as usize > self.bills.len() {
            return (false, None, None);
        }
        let idx = (bill_id - 1) as usize;
        if self.bills[idx].paid {
            return (false, None, None);
        }
        self.bills[idx].paid = true;
        let paid_event = BillPaidEvent {
            bill_id,
            name: self.bills[idx].name.clone(),
            amount: self.bills[idx].amount,
            timestamp: now,
        };
        proof {
            assert forall|i: int| 0 <= i < self.bills@.len() implies (#[trigger] self.bills@[i]).id
                == i + 1 by {
                assert(old(self).bills@[i].id == i + 1);
            }
        }
        if !self.bills[idx].recurring {
            return (true, Some(paid_event), None);
        }
        let next_id: u32 = self.bills.len() as u32 + 1;
        let due: u64 = self.bills[idx].due_date + self.bills[idx].frequency_days as u64
            * SECS_PER_DAY;
        let next_bill = Bill {
            id: next_id,
            name: self.bills[idx].name.clone(),
            amount: self.bills[idx].amount,
            due_date: due,
            recurring: true,
            frequency_days: self.bills[idx].frequency_days,
            paid: false,
        };
        let recurring_event = RecurringBillCreatedEvent {
            bill_id: next_id,
            parent_bill_id: bill_id,
            name: self.bills[idx].name.clone(),
            amount: self.bills[idx].amount,
            due_date: due,
            timestamp: now,
        };
        self.bills.push(next_bill);
        (true, Some(paid_event), Some(recurring_event))
    }

    /// The bill with identifier `bill_id`, if there is one.
    pub fn get_bill(&self, bill_id: u32) -> (r: Option<Bill>)
        requires
            self.wf(),
        ensures
            r == bill_at(self.bills@, bill_id),
    {
        if bill_id == 0 || bill_id as usize > self.bills.len() {
            return None;
        }
        Some(self.bills[(bill_id - 1) as usize].clone())
    }

    /// The unpaid bills, in order of creation.
    pub fn get_unpaid_bills(&self) -> (r: Vec<Bill>)
        ensures
            r@ == unpaid_bills(self.bills@),
    {
        let mut result: Vec<Bill> = Vec::new();
        let mut i: usize = 0;
        while i < self.bills.len()
            invariant
                i <= self.bills@.len(),
                result@ == unpaid_bills(self.bills@.subrange(0, i as int)),
            decreases self.bills@.len() - i,
        {
            proof {
                reveal(Seq::filter);
                assert(self.bills@.subrange(0, i + 1).drop_last() =~= self.bills@.subrange(
                    0,
                    i as int,
                ));
            }
            if !self.bills[i].paid {
                result.push(self.bills[i].clone());
            }
            i = i + 1;
        }
        assert(self.bills@.subrange(0, i as int) =~= self.bills@);
        result
    }

    /// The sum of the amounts of the unpaid bills. Every running total, in
    /// order of creation, must be representable.
    pub fn get_total_unpaid(&self) -> (r: i128)
        requires
            forall|n: int|
                0 <= n <= self.bills@.len() ==> i128::MIN <= #[trigger] unpaid_total(
                    self.bills@.subrange(0, n),
                ) <= i128::MAX,
        ensures
            r == unpaid_total(self.bills@),
    {
        let mut total: i128 = 0;
        let mut i: usize = 0;
        while i < self.bills.len()
            invariant
                i <= self.bills@.len(),
                total == unpaid_total(self.bills@.subrange(0, i as int)),
                forall|n: int|
                    0 <= n <= self.bills@.len() ==> i128::MIN <= #[trigger] unpaid_total(
                        self.bills@.subrange(0, n),
                    ) <= i128::MAX,
            decreases self.bills@.len() - i,
        {
            proof {
                assert(self.bills@.subrange(0, i + 1).drop_last() =~= self.bills@.subrange(
                    0,
                    i as int,
                ));
                assert(i128::MIN <= unpaid_total(self.bills@.subrange(0, i + 1)) <= i128::MAX);
            }
            if !self.bills[i].paid {
                total = total + self.bills[i].amount;
            }
            i = i + 1;
        }
        assert(self.bills@.subrange(0, i as int) =~= self.bills@);
        total
    }
}

} // verus!
