use vstd::prelude::*;

use crate::errors::ErrorCode;
use crate::group::Group;
use crate::identity::Identity;

verus! {

/// An expense record: one bill's split schedule and per-member settlement
/// flags. Created once per expense, never deleted; only `pay_expense`
/// mutates it, flipping one flag false-to-true.
#[derive(Clone, Debug, PartialEq, Eq)]
pub struct Expense {
    /// Address of the group ledger this expense belongs to, immutable.
    pub group: Identity,
    /// The identity who fronted the money and is owed repayment, immutable.
    pub payer: Identity,
    /// Description of the expense, 1 to 200 characters, immutable.
    pub description: String,
    /// Total amount owed, positive, immutable.
    pub total_amount: u64,
    /// Per-member amounts owed, one per roster position at creation time,
    /// immutable; they add up to `total_amount` exactly.
    pub split_amounts: Vec<u64>,
    /// Per-member settlement flags, all false at creation; each flips
    /// false-to-true at most once and never reverts.
    pub paid_status: Vec<bool>,
    /// True exactly when every settlement flag is true.
    pub settled: bool,
    /// Creation timestamp, immutable.
    pub created_at: i64,
}

/// The mathematical sum of a schedule of amounts.
pub open spec fn sum_amounts(s: Seq<u64>) -> int
    decreases s.len(),
{
    if s.len() == 0 {
        0
    } else {
        sum_amounts(s.drop_last()) + s.last()
    }
}

/// Every settlement flag is set.
pub open spec fn all_paid(flags: Seq<bool>) -> bool {
    forall|j: int| 0 <= j < flags.len() ==> flags[j]
}

/// A prefix of a schedule never sums to more than the whole schedule.
proof fn lemma_sum_prefix_le(s: Seq<u64>, i: int)
    requires
        0 <= i <= s.len(),
    ensures
        sum_amounts(s.subrange(0, i)) <= sum_amounts(s),
    decreases s.len() - i,
{
    if i < s.len() {
        assert(s.subrange(0, i + 1).drop_last() =~= s.subrange(0, i));
        assert(s.subrange(0, i + 1).last() == s[i]);
        lemma_sum_prefix_le(s, i + 1);
    } else {
        assert(s.subrange(0, i) =~= s);
    }
}

/// Sum a schedule, reporting overflow instead of wrapping: `None` exactly
/// when the mathematical sum does not fit in the amount type.
pub fn sum_checked(amounts: &Vec<u64>) -> (r: Option<u64>)
    ensures
        match r {
            Some(total) => total as int == sum_amounts(amounts@),
            None => sum_amounts(amounts@) > u64::MAX,
        },
{
    let n: usize = amounts.len();
    let mut acc: u64 = 0;
    let mut i: usize = 0;
    while i < n
        invariant
            n == amounts@.len(),
            0 <= i <= n,
            acc as int == sum_amounts(amounts@.subrange(0, i as int)),
        decreases n - i,
    {
        proof {
            assert(amounts@.subrange(0, i + 1).drop_last() =~= amounts@.subrange(0, i as int));
            assert(amounts@.subrange(0, i + 1).last() == amounts@[i as int]);
        }
        match acc.checked_add(amounts[i]) {
            Some(next) => {
                acc = next;
            },
            None => {
                proof {
                    lemma_sum_prefix_le(amounts@, i + 1);
                }
                return None;
            },
        }
        i = i + 1;
    }
    proof {
        assert(amounts@.subrange(0, n as int) =~= amounts@);
    }
    Some(acc)
}

impl Expense {
    /// Well-formedness: schedule and flags are the same length (the roster
    /// size at creation time, 1 to 20), the schedule adds up to the positive
    /// total, the description is within its ceiling, and `settled` holds
    /// exactly when every flag does. Established by `create_expense` and
    /// preserved by `pay_expense`.
    pub open spec fn wf(self) -> bool {
        &&& self.split_amounts@.len() == self.paid_status@.len()
        &&& 1 <= self.split_amounts@.len() <= 20
        &&& self.total_amount > 0
        &&& sum_amounts(self.split_amounts@) == self.total_amount as int
        &&& 1 <= self.description@.len() <= 200
        &&& (self.settled <==> all_paid(self.paid_status@))
    }
}

/// The accounts a `create_expense` request names: the group ledger the
/// expense joins, that ledger's derived address (stored in the new record
/// as its back-reference), and the caller, who signs the request, fronts
/// the money, and becomes the payer. The new record itself is returned by
/// the transition and persisted by the runtime at an address derived from
/// `(group, payer, timestamp)`; a collision there — two expenses by one
/// payer within one timestamp unit — is the runtime's allocation failure,
/// not a condition this logic can see.
#[derive(Clone, Debug, PartialEq, Eq)]
pub struct CreateExpense {
    pub group: Group,
    pub group_address: Identity,
    pub payer: Identity,
}

/// Which error, if any, a `create_expense` request is rejected with.
///
/// A schedule whose mathematical sum overflows the amount type cannot equal
/// the total, so it too is rejected with `InvalidSplitSum`.
pub open spec fn create_expense_error(
    group: Group,
    description: Seq<char>,
    total_amount: u64,
    split_amounts: Seq<u64>,
) -> Option<ErrorCode> {
    if !(1 <= description.len() <= 200) {
        Some(ErrorCode::InvalidDescription)
    } else if !(total_amount > 0) {
        Some(ErrorCode::InvalidAmount)
    } else if split_amounts.len() != group.members@.len() {
        Some(ErrorCode::MismatchedSplitCount)
    } else if sum_amounts(split_amounts) != total_amount as int {
        Some(ErrorCode::InvalidSplitSum)
    } else {
        None
    }
}

/// A vector of `n` cleared settlement flags.
fn all_false_flags(n: usize) -> (r: Vec<bool>)
    ensures
        r@.len() == n,
        forall|j: int| 0 <= j < n ==> !r@[j],
{
    let mut flags: Vec<bool> = Vec::new();
    let mut i: usize = 0;
    while i < n
        invariant
            0 <= i <= n,
            flags@.len() == i,
            forall|j: int| 0 <= j < i ==> !flags@[j],
        decreases n - i,
    {
        flags.push(false);
        i = i + 1;
    }
    flags
}

/// Record a new expense under `ctx.group`, splitting `total_amount` over
/// the roster; `now` is the runtime clock's timestamp.
///
/// Succeeds exactly when the description has 1 to 200 characters, the total
/// is positive, the schedule has one entry per current roster position, and
/// the schedule adds up to the total exactly — a sum one off in either
/// direction is rejected with `InvalidSplitSum`. On success the new record
/// snapshots the schedule with every settlement flag cleared, and the
/// group's expense counter grows by one; on failure the group is left
/// exactly as it was.
pub fn create_expense(
    ctx: &mut CreateExpense,
    description: String,
    total_amount: u64,
    split_amounts: Vec<u64>,
    now: i64,
) -> (r: Result<Expense, ErrorCode>)
    requires
        old(ctx).group.wf(),
        old(ctx).group.total_expenses < u64::MAX,
    ensures
        final(ctx).group_address == old(ctx).group_address,
        final(ctx).payer == old(ctx).payer,
        match r {
            Ok(e) => {
                &&& create_expense_error(
                    old(ctx).group,
                    description@,
                    total_amount,
                    split_amounts@,
                ) is None
                &&& e.wf()
                &&& e.group == old(ctx).group_address
                &&& e.payer == old(ctx).payer
                &&& e.description@ == description@
                &&& e.total_amount == total_amount
                &&& e.split_amounts@ == split_amounts@
                &&& e.paid_status@.len() == old(ctx).group.members@.len()
                &&& (forall|j: int| 0 <= j < e.paid_status@.len() ==> !e.paid_status@[j])
                &&& !e.settled
                &&& e.created_at == now
                &&& final(ctx).group.total_expenses == old(ctx).group.total_expenses + 1
                &&& final(ctx).group.wf()
                &&& final(ctx).group.authority == old(ctx).group.authority
                &&& final(ctx).group.name@ == old(ctx).group.name@
                &&& final(ctx).group.members@ == old(ctx).group.members@
                &&& final(ctx).group.member_count == old(ctx).group.member_count
                &&& final(ctx).group.created_at == old(ctx).group.created_at
            },
            Err(err) => {
                &&& create_expense_error(old(ctx).group, description@, total_amount, split_amounts@)
                    == Some(err)
                &&& *final(ctx) == *old(ctx)
            },
        },
{
    let description_len: usize = description.as_str().unicode_len();
    if !(1 <= description_len && description_len <= 200) {
        return Err(ErrorCode::InvalidDescription);
    }
    if !(total_amount > 0) {
        return Err(ErrorCode::InvalidAmount);
    }
    if split_amounts.len() != ctx.group.members.len() {
        return Err(ErrorCode::MismatchedSplitCount);
    }
    let schedule_ok: bool = match sum_checked(&split_amounts) {
        Some(total) => total == total_amount,
        None => false,
    };
    if !schedule_ok {
        return Err(ErrorCode::InvalidSplitSum);
    }
    let flag_count: usize = ctx.group.members.len();
    let paid_status: Vec<bool> = all_false_flags(flag_count);
    let expense = Expense {
        group: ctx.group_address,
        payer: ctx.payer,
        description,
        total_amount,
        split_amounts,
        paid_status,
        settled: false,
        created_at: now,
    };
    proof {
        assert(!expense.paid_status@[0]);
    }
    ctx.group.total_expenses = ctx.group.total_expenses + 1;
    Ok(expense)
}

/// The accounts a `pay_expense` request names: the expense record to settle
/// against, its group ledger (read only), the member who signs the request
/// and pays, and the recipient the caller declares. The declared recipient
/// is deliberately not cross-checked against the record's `payer` — a known
/// authorization gap in this design: a caller could direct the transfer
/// elsewhere, though it still only ever flips its own flag.
#[derive(Clone, Debug, PartialEq, Eq)]
pub struct PayExpense {
    pub expense: Expense,
    pub group: Group,
    pub member: Identity,
    pub payer: Identity,
}

/// Which error, if any, a `pay_expense` request for `member_index` is
/// rejected with, checked in order: roster bounds, then the caller's
/// identity against that roster position, then the settlement flag.
pub open spec fn pay_expense_error(ctx: PayExpense, member_index: int) -> Option<ErrorCode> {
    if member_index >= ctx.group.members@.len() {
        Some(ErrorCode::InvalidMemberIndex)
    } else if ctx.member != ctx.group.members@[member_index] {
        Some(ErrorCode::UnauthorizedMember)
    } else if ctx.expense.paid_status@[member_index] {
        Some(ErrorCode::AlreadyPaid)
    } else {
        None
    }
}

/// Whether every settlement flag is set.
fn all_flags_true(flags: &Vec<bool>) -> (r: bool)
    ensures
        r == all_paid(flags@),
{
    let n: usize = flags.len();
    let mut i: usize = 0;
    while i < n
        invariant
            n == flags@.len(),
            0 <= i <= n,
            forall|j: int| 0 <= j < i ==> flags@[j],
        decreases n - i,
    {
        if !flags[i] {
            return false;
        }
        i = i + 1;
    }
    true
}

/// Settle the share of the roster member at `member_index`.
///
/// The caller must be exactly that member, the index must be within the
/// roster, and the member's flag must still be clear; the checks happen in
/// that order, so a second attempt on the same index fails with
/// `AlreadyPaid` and no flag ever flips back. On success the result is the
/// amount the member owes — the runtime transfers exactly that from
/// `ctx.member` to `ctx.payer` and commits it together with the record, or
/// rejects the whole request with neither effect — the one flag is set, and
/// `settled` holds afterwards exactly when every flag does. On failure the
/// records are left exactly as they were.
///
/// An expense is only ever paired with its own group, whose roster never
/// shrinks; a roster index beyond the expense's own flags belongs to a
/// member added after the expense was created, who has no share in it to
/// settle, so such calls are excluded here.
pub fn pay_expense(ctx: &mut PayExpense, member_index: u8) -> (r: Result<u64, ErrorCode>)
    requires
        old(ctx).expense.wf(),
        old(ctx).group.wf(),
        (member_index as int) < old(ctx).group.members@.len() ==> (member_index as int) < old(
            ctx,
        ).expense.paid_status@.len(),
    ensures
        final(ctx).group == old(ctx).group,
        final(ctx).member == old(ctx).member,
        final(ctx).payer == old(ctx).payer,
        match r {
            Ok(amount) => {
                &&& pay_expense_error(*old(ctx), member_index as int) is None
                &&& amount == old(ctx).expense.split_amounts@[member_index as int]
                &&& final(ctx).expense.wf()
                &&& final(ctx).expense.paid_status@ == old(ctx).expense.paid_status@.update(
                    member_index as int,
                    true,
                )
                &&& final(ctx).expense.paid_status@[member_index as int]
                &&& (forall|j: int|
                    0 <= j < old(ctx).expense.paid_status@.len() && old(
                        ctx,
                    ).expense.paid_status@[j] ==> final(ctx).expense.paid_status@[j])
                &&& (final(ctx).expense.settled <==> all_paid(final(ctx).expense.paid_status@))
                &&& final(ctx).expense.group == old(ctx).expense.group
                &&& final(ctx).expense.payer == old(ctx).expense.payer
                &&& final(ctx).expense.description@ == old(ctx).expense.description@
                &&& final(ctx).expense.total_amount == old(ctx).expense.total_amount
                &&& final(ctx).expense.split_amounts@ == old(ctx).expense.split_amounts@
                &&& final(ctx).expense.created_at == old(ctx).expense.created_at
            },
            Err(e) => {
                &&& pay_expense_error(*old(ctx), member_index as int) == Some(e)
                &&& *final(ctx) == *old(ctx)
            },
        },
{
    let idx: usize = member_index as usize;
    if !(idx < ctx.group.members.len()) {
        return Err(ErrorCode::InvalidMemberIndex);
    }
    let expected_member: Identity = ctx.group.members[idx];
    if !(ctx.member == expected_member) {
        return Err(ErrorCode::UnauthorizedMember);
    }
    if ctx.expense.paid_status[idx] {
        return Err(ErrorCode::AlreadyPaid);
    }
    let amount: u64 = ctx.expense.split_amounts[idx];
    ctx.expense.paid_status.set(idx, true);
    let settled: bool = all_flags_true(&ctx.expense.paid_status);
    ctx.expense.settled = settled;
    Ok(amount)
}

/// Settlement never duplicates a transfer: once a request for
/// `member_index` has succeeded — its flag is now set — a second request
/// for the same index against the same group is rejected with
/// `AlreadyPaid`, whoever signs it as that member.
pub proof fn lemma_pay_twice_rejected(before: PayExpense, after: PayExpense, member_index: int)
    requires
        0 <= member_index < before.expense.paid_status@.len(),
        pay_expense_error(before, member_index) is None,
        after.group == before.group,
        after.member == before.member,
        after.expense.paid_status@ == before.expense.paid_status@.update(member_index, true),
    ensures
        pay_expense_error(after, member_index) == Some(ErrorCode::AlreadyPaid),
{
}

/// Authorization: a request for `member_index` signed by any identity other
/// than the roster member at that position is rejected with
/// `UnauthorizedMember` — whether or not that identity is some other member
/// of the same group.
pub proof fn lemma_pay_unauthorized_rejected(ctx: PayExpense, member_index: int)
    requires
        0 <= member_index < ctx.group.members@.len(),
        ctx.member != ctx.group.members@[member_index],
    ensures
        pay_expense_error(ctx, member_index) == Some(ErrorCode::UnauthorizedMember),
{
}

} // verus!
