use vstd::prelude::*;

verus! {

/// The closed set of conditions on which a transition aborts.
///
/// Every validation failure rejects the whole request with exactly one of
/// these; no partial mutation is ever kept.
#[derive(Clone, Copy, Debug, PartialEq, Eq, Structural)]
pub enum ErrorCode {
    /// Group name must be between 1 and 50 characters.
    InvalidGroupName,
    /// Group must have between 1 and 20 members.
    InvalidMemberCount,
    /// Description must be between 1 and 200 characters.
    InvalidDescription,
    /// Amount must be greater than 0.
    InvalidAmount,
    /// Number of split amounts must match the number of group members.
    MismatchedSplitCount,
    /// Split amounts must add up to the total amount.
    InvalidSplitSum,
    /// Member index is out of range for the group roster.
    InvalidMemberIndex,
    /// The caller is not the member whose share it tries to settle.
    UnauthorizedMember,
    /// This member has already paid their share.
    AlreadyPaid,
    /// Only the group creator can perform this action.
    Unauthorized,
    /// Group is at maximum capacity.
    GroupFull,
    /// Member already exists in this group.
    MemberAlreadyExists,
}

} // verus!
