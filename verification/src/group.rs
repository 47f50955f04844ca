use vstd::prelude::*;

use crate::errors::ErrorCode;
use crate::identity::Identity;

verus! {

/// A group ledger: the roster of participants sharing expenses, and the
/// aggregate expense counter. Created once per group, never deleted.
#[derive(Clone, Debug, PartialEq, Eq)]
pub struct Group {
    /// The creator of the group; sole holder of roster-modification rights.
    pub authority: Identity,
    /// Display name, 1 to 50 characters, immutable after creation.
    pub name: String,
    /// Ordered roster of participant identities, 1 to 20 entries.
    pub members: Vec<Identity>,
    /// Cached count of `members`; always equals the roster length.
    pub member_count: u8,
    /// Number of expenses ever created under this group; only grows.
    pub total_expenses: u64,
    /// Creation timestamp, immutable.
    pub created_at: i64,
}

/// A display name is acceptable when it has 1 to 50 characters.
pub open spec fn group_name_ok(name: Seq<char>) -> bool {
    1 <= name.len() <= 50
}

/// A roster is acceptable when it has 1 to 20 entries.
///
/// Duplicates are not rejected here: only `add_member` checks for them,
/// so an initial roster may carry a repeated identity.
pub open spec fn roster_ok(members: Seq<Identity>) -> bool {
    1 <= members.len() <= 20
}

impl Group {
    /// Well-formedness: the cached count matches the roster, and both the
    /// roster and the name are within their fixed ceilings. Established by
    /// `create_group` and preserved by every later transition.
    pub open spec fn wf(self) -> bool {
        &&& self.member_count as nat == self.members@.len()
        &&& roster_ok(self.members@)
        &&& group_name_ok(self.name@)
    }
}

/// The accounts a `create_group` request names: the caller, who signs the
/// request, becomes the group's authority. The new record itself is returned
/// by the transition and persisted by the runtime at an address derived from
/// `(authority, name)`; a collision there is the runtime's `DuplicateGroup`
/// failure, not a condition this logic can see.
#[derive(Clone, Debug, PartialEq, Eq)]
pub struct CreateGroup {
    pub authority: Identity,
}

/// Which error, if any, a `create_group` request is rejected with.
pub open spec fn create_group_error(name: Seq<char>, members: Seq<Identity>) -> Option<
    ErrorCode,
> {
    if !group_name_ok(name) {
        Some(ErrorCode::InvalidGroupName)
    } else if !roster_ok(members) {
        Some(ErrorCode::InvalidMemberCount)
    } else {
        None
    }
}

/// Create a new group ledger for `ctx.authority` with the given display
/// name and initial roster; `now` is the runtime clock's timestamp.
///
/// Succeeds exactly when the name has 1 to 50 characters and the roster 1 to
/// 20 entries; the new record carries the roster unchanged, a matching cached
/// count, and a zero expense counter.
pub fn create_group(ctx: &CreateGroup, name: String, members: Vec<Identity>, now: i64) -> (r:
    Result<Group, ErrorCode>)
    ensures
        match r {
            Ok(g) => {
                &&& create_group_error(name@, members@) is None
                &&& g.wf()
                &&& g.authority == ctx.authority
                &&& g.name@ == name@
                &&& g.members@ == members@
                &&& g.member_count as nat == members@.len()
                &&& 1 <= g.member_count <= 20
                &&& g.total_expenses == 0
                &&& g.created_at == now
            },
            Err(e) => create_group_error(name@, members@) == Some(e),
        },
{
    let name_len: usize = name.as_str().unicode_len();
    if !(1 <= name_len && name_len <= 50) {
        return Err(ErrorCode::InvalidGroupName);
    }
    let member_len: usize = members.len();
    if !(1 <= member_len && member_len <= 20) {
        return Err(ErrorCode::InvalidMemberCount);
    }
    Ok(
        Group {
            authority: ctx.authority,
            name,
            members,
            member_count: member_len as u8,
            total_expenses: 0,
            created_at: now,
        },
    )
}

/// The accounts an `add_member` request names: the group record to grow and
/// the caller, who signs the request.
#[derive(Clone, Debug, PartialEq, Eq)]
pub struct AddMember {
    pub group: Group,
    pub authority: Identity,
}

/// Which error, if any, an `add_member` request is rejected with.
pub open spec fn add_member_error(group: Group, caller: Identity, new_member: Identity) -> Option<
    ErrorCode,
> {
    if group.authority != caller {
        Some(ErrorCode::Unauthorized)
    } else if group.members@.len() >= 20 {
        Some(ErrorCode::GroupFull)
    } else if group.members@.contains(new_member) {
        Some(ErrorCode::MemberAlreadyExists)
    } else {
        None
    }
}

/// Whether the roster holds `target`.
fn roster_contains(members: &Vec<Identity>, target: Identity) -> (r: bool)
    ensures
        r == members@.contains(target),
{
    let n: usize = members.len();
    let mut i: usize = 0;
    while i < n
        invariant
            n == members@.len(),
            0 <= i <= n,
            forall|k: int| 0 <= k < i ==> members@[k] != target,
        decreases n - i,
    {
        if members[i] == target {
            return true;
        }
        i = i + 1;
    }
    false
}

/// Append `new_member` to the group's roster.
///
/// Only the group's authority may do so; the roster must be below its
/// ceiling of 20 and must not already hold the identity. On success the
/// roster grows by exactly that one entry at the end and the cached count
/// follows; on failure the group is left exactly as it was.
pub fn add_member(ctx: &mut AddMember, new_member: Identity) -> (r: Result<(), ErrorCode>)
    requires
        old(ctx).group.wf(),
    ensures
        final(ctx).authority == old(ctx).authority,
        match r {
            Ok(()) => {
                &&& add_member_error(old(ctx).group, old(ctx).authority, new_member) is None
                &&& final(ctx).group.wf()
                &&& final(ctx).group.members@ == old(ctx).group.members@.push(new_member)
                &&& final(ctx).group.member_count == old(ctx).group.member_count + 1
                &&& final(ctx).group.authority == old(ctx).group.authority
                &&& final(ctx).group.name@ == old(ctx).group.name@
                &&& final(ctx).group.total_expenses == old(ctx).group.total_expenses
                &&& final(ctx).group.created_at == old(ctx).group.created_at
            },
            Err(e) => {
                &&& add_member_error(old(ctx).group, old(ctx).authority, new_member) == Some(e)
                &&& *final(ctx) == *old(ctx)
            },
        },
{
    if !(ctx.group.authority == ctx.authority) {
        return Err(ErrorCode::Unauthorized);
    }
    if !(ctx.group.members.len() < 20) {
        return Err(ErrorCode::GroupFull);
    }
    if roster_contains(&ctx.group.members, new_member) {
        return Err(ErrorCode::MemberAlreadyExists);
    }
    ctx.group.members.push(new_member);
    ctx.group.member_count = ctx.group.member_count + 1;
    Ok(())
}

} // verus!
