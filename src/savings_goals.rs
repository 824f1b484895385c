use vstd::prelude::*;

verus! {

/// A savings goal; goals are numbered from 1 in order of creation.
#[derive(Debug)]
pub struct SavingsGoal {
    pub id: u32,
    pub name: String,
    pub target_amount: i128,
    pub current_amount: i128,
    /// Unix timestamp.
    pub target_date: u64,
    pub locked: bool,
}

impl Clone for SavingsGoal {
    fn clone(&self) -> (r: SavingsGoal)
        ensures
            r == *self,
    {
        SavingsGoal {
            id: self.id,
            name: self.name.clone(),
            target_amount: self.target_amount,
            current_amount: self.current_amount,
            target_date: self.target_date,
            locked: self.locked,
        }
    }
}

/// Announced when a goal is created.
#[derive(Debug)]
pub struct GoalCreatedEvent {
    pub goal_id: u32,
    pub name: String,
    pub target_amount: i128,
    pub target_date: u64,
    pub timestamp: u64,
}

/// Announced each time funds are added to a goal.
#[derive(Clone, Copy, Debug, PartialEq, Eq, Structural)]
pub struct FundsAddedEvent {
    pub goal_id: u32,
    pub amount: i128,
    pub new_total: i128,
    pub timestamp: u64,
}

/// Announced when a deposit first brings a goal to its target.
#[derive(Debug)]
pub struct GoalCompletedEvent {
    pub goal_id: u32,
    pub name: String,
    pub final_amount: i128,
    pub timestamp: u64,
}

/// The goal with identifier `id` among `goals`, where the goal at position
/// `i` has identifier `i + 1`.
pub open spec fn goal_at(goals: Seq<SavingsGoal>, id: u32) -> Option<SavingsGoal> {
    if 1 <= id <= goals.len() {
        Some(goals[id - 1])
    } else {
        None
    }
}

pub open spec fn goal_completed(g: SavingsGoal) -> bool {
    g.current_amount >= g.target_amount
}

/// The savings goals held by one contract.
pub struct SavingsGoals {
    pub goals: Vec<SavingsGoal>,
}

impl SavingsGoals {
    /// Goals are numbered consecutively from 1.
    pub open spec fn wf(&self) -> bool {
        forall|i: int| 0 <= i < self.goals@.len() ==> #[trigger] self.goals@[i].id == i + 1
    }

    pub fn new() -> (r: SavingsGoals)
        ensures
            r.wf(),
            r.goals@.len() == 0,
    {
        SavingsGoals { goals: Vec::new() }
    }

    /// Creates an unfunded, locked goal at ledger time `now` and returns its
    /// identifier, one past the last one handed out.
    pub fn create_goal(&mut self, name: String, target_amount: i128, target_date: u64, now: u64) -> (r: (
        u32,
        GoalCreatedEvent,
    ))
        requires
            old(self).wf(),
            old(self).goals@.len() < u32::MAX,
        ensures
            final(self).wf(),
            r.0 == old(self).goals@.len() + 1,
            final(self).goals@ == old(self).goals@.push(
                SavingsGoal {
                    id: r.0,
                    name,
                    target_amount,
                    current_amount: 0,
                    target_date,
                    locked: true,
                },
            ),
            r.1 == (GoalCreatedEvent {
                goal_id: r.0,
                name,
                target_amount,
                target_date,
                timestamp: now,
            }),
    {
        let next_id: u32 = self.goals.len() as u32 + 1;
        let event = GoalCreatedEvent {
            goal_id: next_id,
            name: name.clone(),
            target_amount,
            target_date,
            timestamp: now,
        };
        let goal = SavingsGoal {
            id: next_id,
            name,
            target_amount,
            current_amount: 0,
            target_date,
            locked: true,
        };
        self.goals.push(goal);
        (next_id, event)
    }

    /// Adds `amount` to a goal at ledger time `now` and returns its new
    /// balance, with the deposit's announcement and, when this deposit is
    /// the one that reaches the target, the completion's. An unknown goal
    /// yields -1 and changes nothing.
    pub fn add_to_goal(&mut self, goal_id: u32, amount: i128, now: u64) -> (r: (
        i128,
        Option<FundsAddedEvent>,
        Option<GoalCompletedEvent>,
    ))
        requires
            old(self).wf(),
            goal_at(old(self).goals@, goal_id) matches Some(g) ==> i128::MIN <= g.current_amount
                + amount <= i128::MAX,
        ensures
            final(self).wf(),
            match goal_at(old(self).goals@, goal_id) {
                None => r == (-1i128, None::<FundsAddedEvent>, None::<GoalCompletedEvent>)
                    && final(self).goals@ == old(self).goals@,
                Some(g) => {
                    let new_total = g.current_amount + amount;
                    &&& r.0 == new_total
                    &&& final(self).goals@ == old(self).goals@.update(
                        goal_id - 1,
                        SavingsGoal { current_amount: new_total as i128, ..g },
                    )
                    &&& r.1 == Some(
                        FundsAddedEvent {
                            goal_id,
                            amount,
                            new_total: new_total as i128,
                            timestamp: now,
                        },
                    )
                    &&& if new_total >= g.target_amount && g.current_amount < g.target_amount {
                        r.2 == Some(
                            GoalCompletedEvent {
                                goal_id,
                                name: g.name,
                                final_amount: new_total as i128,
                                timestamp: now,
                            },
                        )
                    } else {
                        r.2 is None
                    }
                },
            },
    {
        if goal_id == 0 || goal_id as usize > self.goals.len() {
            return (-1, None, None);
        }
        let idx = (goal_id - 1) as usize;
        let new_total: i128 = self.goals[idx].current_amount + amount;
        self.goals[idx].current_amount = new_total;
        let funds = FundsAddedEvent { goal_id, amount, new_total, timestamp: now };
        let target = self.goals[idx].target_amount;
        let completed = if new_total >= target && new_total - amount < target {
            Some(
                GoalCompletedEvent {
                    goal_id,
                    name: self.goals[idx].name.clone(),
                    final_amount: new_total,
                    timestamp: now,
                },
            )
        } else {
            None
        };
        proof {
            assert forall|i: int| 0 <= i < self.goals@.len() implies #[trigger] self.goals@[i].id
                == i + 1 by {
                assert(old(self).goals@[i].id == i + 1);
            }
        }
        (new_total, Some(funds), completed)
    }

    /// The goal with identifier `goal_id`, if there is one.
    pub fn get_goal(&self, goal_id: u32) -> (r: Option<SavingsGoal>)
        requires
            self.wf(),
        ensures
            r == goal_at(self.goals@, goal_id),
    {
        if goal_id == 0 || goal_id as usize > self.goals.len() {
            return None;
        }
        Some(self.goals[(goal_id - 1) as usize].clone())
    }

    /// Every goal, in order of creation.
    pub fn get_all_goals(&self) -> (r: Vec<SavingsGoal>)
        ensures
            r@ == self.goals@,
    {
        let mut result: Vec<SavingsGoal> = Vec::new();
        let mut i: usize = 0;
        while i < self.goals.len()
            invariant
                i <= self.goals@.len(),
                result@ == self.goals@.subrange(0, i as int),
            decreases self.goals@.len() - i,
        {
            result.push(self.goals[i].clone());
            i = i + 1;
            assert(result@ =~= self.goals@.subrange(0, i as int));
        }
        assert(result@ =~= self.goals@);
        result
    }

    /// Whether the goal has reached its target; false for an unknown goal.
    pub fn is_goal_completed(&self, goal_id: u32) -> (r: bool)
        requires
            self.wf(),
        ensures
            r == (goal_at(self.goals@, goal_id) matches Some(g) && goal_completed(g)),
    {
        match self.get_goal(goal_id) {
            Some(g) => g.current_amount >= g.target_amount,
            None => false,
        }
    }
}

} // verus!
