//! Access control: who may act on an account or a record.

use vstd::prelude::*;
use crate::identity::Identity;
use crate::state::{DocumentRecord, StakeRecord, UserAccount};

verus! {

/// Whether `caller` owns the account.
pub open spec fn owns_account(caller: Identity, account: UserAccount) -> bool {
    caller@ == account.owner@
}

/// Whether `caller` owns the document.
pub open spec fn owns_document(caller: Identity, document: DocumentRecord) -> bool {
    caller@ == document.owner@
}

/// Whether `caller` made the stake.
pub open spec fn owns_stake(caller: Identity, stake: StakeRecord) -> bool {
    caller@ == stake.user@
}

/// Lets the caller through if and only if it is the account's owner.
pub fn is_account_owner(caller: &Identity, account: &UserAccount) -> (allowed: bool)
    ensures
        allowed == owns_account(*caller, *account),
{
    caller.same(&account.owner)
}

/// Lets the caller through if and only if it is the document's owner.
pub fn is_document_owner(caller: &Identity, document: &DocumentRecord) -> (allowed: bool)
    ensures
        allowed == owns_document(*caller, *document),
{
    caller.same(&document.owner)
}

/// Lets the caller through if and only if it made the stake.
pub fn is_stake_owner(caller: &Identity, stake: &StakeRecord) -> (allowed: bool)
    ensures
        allowed == owns_stake(*caller, *stake),
{
    caller.same(&stake.user)
}

} // verus!
