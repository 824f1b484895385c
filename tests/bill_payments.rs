use remitwise::bill_payments::BillPayments;

fn s(text: &str) -> String {
    text.to_string()
}

#[test]
fn test_create_bill_emits_event() {
    let mut bills = BillPayments::new();
    let mut events: usize = 0;

    let (bill_id, _created) = bills.create_bill(s("Electricity"), 500, 1735689600, false, 0, 0);
    events += 1;
    assert_eq!(bill_id, 1);

    assert_eq!(events, 1);
}

#[test]
fn test_pay_bill_emits_event() {
    let mut bills = BillPayments::new();
    let mut events: usize = 0;

    let (bill_id, _) = bills.create_bill(s("Water Bill"), 300, 1735689600, false, 0, 0);
    events += 1;

    let events_before = events;

    let (result, paid, recurring) = bills.pay_bill(bill_id, 0);
    events += paid.iter().count() + recurring.iter().count();
    assert!(result);

    let events_after = events;
    assert_eq!(events_after - events_before, 1);
}

#[test]
fn test_pay_recurring_bill_emits_multiple_events() {
    let mut bills = BillPayments::new();
    let mut events: usize = 0;

    let (bill_id, _) = bills.create_bill(s("Rent"), 1000, 1735689600, true, 30, 0);
    events += 1;

    let events_before = events;

    let (_, paid, recurring) = bills.pay_bill(bill_id, 0);
    events += paid.iter().count() + recurring.iter().count();

    let events_after = events;
    assert_eq!(events_after - events_before, 2);
}

#[test]
fn test_multiple_bills_emit_separate_events() {
    let mut bills = BillPayments::new();
    let mut events: usize = 0;

    bills.create_bill(s("Bill 1"), 100, 1735689600, false, 0, 0);
    events += 1;
    bills.create_bill(s("Bill 2"), 200, 1735689600, false, 0, 0);
    events += 1;
    bills.create_bill(s("Bill 3"), 300, 1735689600, true, 30, 0);
    events += 1;

    assert_eq!(events, 3);
}

#[test]
fn recurring_payment_creates_successor() {
    let mut bills = BillPayments::new();
    let (id, _) = bills.create_bill(s("Rent"), 1000, 1735689600, true, 30, 0);
    let (ok, paid, recurring) = bills.pay_bill(id, 77);
    assert!(ok);
    let paid = paid.unwrap();
    assert_eq!((paid.bill_id, paid.amount, paid.timestamp), (1, 1000, 77));
    assert_eq!(paid.name, "Rent");
    let recurring = recurring.unwrap();
    assert_eq!(recurring.bill_id, 2);
    assert_eq!(recurring.parent_bill_id, 1);
    assert_eq!(recurring.due_date, 1735689600 + 30 * 86400);

    let next = bills.get_bill(2).unwrap();
    assert!(!next.paid && next.recurring);
    assert_eq!(next.frequency_days, 30);
    assert_eq!(next.due_date, 1735689600 + 30 * 86400);
    assert!(bills.get_bill(1).unwrap().paid);
}

#[test]
fn paying_twice_or_unknown_fails() {
    let mut bills = BillPayments::new();
    let (id, _) = bills.create_bill(s("Phone"), 40, 100, false, 0, 0);
    assert!(bills.pay_bill(id, 0).0);
    let (ok, paid, recurring) = bills.pay_bill(id, 0);
    assert!(!ok && paid.is_none() && recurring.is_none());
    assert!(!bills.pay_bill(0, 0).0);
    assert!(!bills.pay_bill(9, 0).0);
    assert!(bills.get_bill(9).is_none());
}

#[test]
fn unpaid_bills_and_total() {
    let mut bills = BillPayments::new();
    bills.create_bill(s("A"), 100, 0, false, 0, 0);
    let (b, _) = bills.create_bill(s("B"), 250, 0, false, 0, 0);
    bills.create_bill(s("C"), 5, 0, true, 7, 0);
    assert_eq!(bills.get_total_unpaid(), 355);
    bills.pay_bill(b, 0);
    let unpaid: Vec<u32> = bills.get_unpaid_bills().iter().map(|x| x.id).collect();
    assert_eq!(unpaid, vec![1, 3]);
    assert_eq!(bills.get_total_unpaid(), 105);
    bills.pay_bill(3, 0);
    let unpaid: Vec<u32> = bills.get_unpaid_bills().iter().map(|x| x.id).collect();
    assert_eq!(unpaid, vec![1, 4]);
    assert_eq!(bills.get_total_unpaid(), 105);
}
