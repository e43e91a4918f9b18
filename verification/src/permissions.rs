//! Permission bitmask model.
//!
//! A permission set is a 64-bit signed integer where each set bit grants one
//! independent capability. The all-bits-set sentinel (`-1`) as a required mask
//! means "no permission required". A required mask is satisfied when any of
//! its bits overlaps the user's permissions unioned with the sign bit, so
//! every user implicitly holds the sign-bit capability ("any-of" semantics,
//! not "all-of").

use vstd::prelude::*;

verus! {

/// Named permission bits.
pub struct UserPermission {}

impl UserPermission {
    pub const ANY: i64 = -1;

    pub const MODIFY_SELF: i64 = 1;

    pub const USER_ADMIN: i64 = 2;

    pub const SYSTEM_ADMIN: i64 = 4;

    pub const SETUP: i64 = 8;

    pub const OPERATION: i64 = 16;
}

/// A required mask is satisfied when it overlaps the user's permissions
/// unioned with the sign bit.
pub open spec fn satisfies(user_permissions: i64, required: i64) -> bool {
    (required & (user_permissions | i64::MIN)) != 0
}

/// The sentinel mask is satisfied by every permission set, and a mask is
/// satisfied exactly when it overlaps the permissions unioned with the
/// sign bit.
pub proof fn lemma_satisfies_characterization(p: i64, r: i64)
    ensures
        satisfies(p, UserPermission::ANY),
        satisfies(p, r) <==> (r & (p | i64::MIN)) != 0,
{
    assert((-1i64 & (p | i64::MIN)) != 0) by (bit_vector);
}

/// Any required mask that overlaps the user's permissions is satisfied.
pub proof fn lemma_overlap_satisfies(p: i64, r: i64)
    ensures
        r & p != 0 ==> satisfies(p, r),
{
    assert((r & p != 0) ==> ((r & (p | i64::MIN)) != 0)) by (bit_vector);
}

} // verus!
