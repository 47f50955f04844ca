use splitsol::{
    create_expense, create_group, sum_checked, CreateExpense, CreateGroup, ErrorCode, Identity,
};

fn id(key: u64) -> Identity {
    Identity { w0: key, w1: 0, w2: 0, w3: 0 }
}

fn trip_context() -> CreateExpense {
    let gctx = CreateGroup { authority: id(1) };
    let members = vec![id(1), id(2), id(3)];
    let group = create_group(&gctx, String::from("Trip"), members, 1000).unwrap();
    CreateExpense { group, group_address: id(77), payer: id(1) }
}

#[test]
fn create_expense_success_snapshots_schedule() {
    let mut ctx = trip_context();
    let e = create_expense(&mut ctx, String::from("Dinner"), 300, vec![100, 100, 100], 2000)
        .unwrap();
    assert_eq!(e.group, id(77));
    assert_eq!(e.payer, id(1));
    assert_eq!(e.description, "Dinner");
    assert_eq!(e.total_amount, 300);
    assert_eq!(e.split_amounts, vec![100, 100, 100]);
    assert_eq!(e.paid_status, vec![false, false, false]);
    assert!(!e.settled);
    assert_eq!(e.created_at, 2000);
    assert_eq!(ctx.group.total_expenses, 1);
}

#[test]
fn create_expense_uneven_split_sum_rejected() {
    // A schedule of [150, 100, 100] against a total of 300 sums to 350.
    let mut ctx = trip_context();
    let before = ctx.clone();
    let r = create_expense(&mut ctx, String::from("Dinner"), 300, vec![150, 100, 100], 2000);
    assert_eq!(r.unwrap_err(), ErrorCode::InvalidSplitSum);
    assert_eq!(ctx, before);
}

#[test]
fn create_expense_sum_off_by_one_rejected() {
    let mut ctx = trip_context();
    let low = create_expense(&mut ctx, String::from("Dinner"), 300, vec![100, 100, 99], 2000);
    assert_eq!(low.unwrap_err(), ErrorCode::InvalidSplitSum);
    let high = create_expense(&mut ctx, String::from("Dinner"), 300, vec![100, 100, 101], 2000);
    assert_eq!(high.unwrap_err(), ErrorCode::InvalidSplitSum);
    assert_eq!(ctx.group.total_expenses, 0);
}

#[test]
fn create_expense_overflowing_schedule_rejected() {
    // The mathematical sum exceeds the amount type, so it cannot equal any total.
    let mut ctx = trip_context();
    let r = create_expense(&mut ctx, String::from("Dinner"), 300, vec![u64::MAX, 1, 300], 2000);
    assert_eq!(r.unwrap_err(), ErrorCode::InvalidSplitSum);
}

#[test]
fn create_expense_empty_description_rejected() {
    let mut ctx = trip_context();
    let r = create_expense(&mut ctx, String::new(), 300, vec![100, 100, 100], 2000);
    assert_eq!(r.unwrap_err(), ErrorCode::InvalidDescription);
}

#[test]
fn create_expense_description_length_boundaries() {
    let mut ctx = trip_context();
    let two_hundred = "d".repeat(200);
    assert!(create_expense(&mut ctx, two_hundred, 300, vec![100, 100, 100], 2000).is_ok());
    let too_long = "d".repeat(201);
    let r = create_expense(&mut ctx, too_long, 300, vec![100, 100, 100], 2000);
    assert_eq!(r.unwrap_err(), ErrorCode::InvalidDescription);
}

#[test]
fn create_expense_zero_amount_rejected() {
    let mut ctx = trip_context();
    let r = create_expense(&mut ctx, String::from("Dinner"), 0, vec![0, 0, 0], 2000);
    assert_eq!(r.unwrap_err(), ErrorCode::InvalidAmount);
}

#[test]
fn create_expense_wrong_split_count_rejected() {
    let mut ctx = trip_context();
    let r = create_expense(&mut ctx, String::from("Dinner"), 300, vec![150, 150], 2000);
    assert_eq!(r.unwrap_err(), ErrorCode::MismatchedSplitCount);
}

#[test]
fn create_expense_counter_grows_once_per_expense() {
    let mut ctx = trip_context();
    create_expense(&mut ctx, String::from("Dinner"), 300, vec![100, 100, 100], 2000).unwrap();
    create_expense(&mut ctx, String::from("Taxi"), 30, vec![10, 10, 10], 2001).unwrap();
    assert_eq!(ctx.group.total_expenses, 2);
}

#[test]
fn sum_checked_exact_and_overflow() {
    assert_eq!(sum_checked(&vec![100, 200, 300]), Some(600));
    assert_eq!(sum_checked(&Vec::new()), Some(0));
    assert_eq!(sum_checked(&vec![u64::MAX, 1]), None);
    assert_eq!(sum_checked(&vec![u64::MAX]), Some(u64::MAX));
}
