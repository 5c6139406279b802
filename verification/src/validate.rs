//! The account validator: the ordered slot invariants an instruction handler
//! enforces before any side effect. Slot 0 is the payer, slot 1 the new
//! account, slot 2 the reference to the privileged allocator. The checks run
//! in a fixed order and short-circuit on the first failure; the validator
//! mutates nothing.

use vstd::prelude::*;
use crate::ExecError;
use crate::account::{Account, AccountModel, bytes_eq};
use crate::ids::{allocator_id, well_known_allocator_id};

verus! {

/// What validating an ordered slot list yields. Exactly three slots are
/// required; the payer and the new account must both be signers; the allocator
/// slot must reference the well-known allocator; the new account must still be
/// uninitialized (balance zero).
pub open spec fn spec_validate(accs: Seq<AccountModel>) -> Result<(), ExecError> {
    if accs.len() != 3 {
        Err(ExecError::MissingAccounts)
    } else if !accs[0].is_signer || !accs[1].is_signer {
        Err(ExecError::MissingSignature)
    } else if accs[2].key != allocator_id() {
        Err(ExecError::WrongProgramOwner)
    } else if accs[1].balance > 0 {
        Err(ExecError::AlreadyInitialized)
    } else {
        Ok(())
    }
}

/// Runs the ordered slot checks over the supplied account list.
pub fn validate_accounts(accounts: &Vec<Account>) -> (r: Result<(), ExecError>)
    ensures
        r == spec_validate(accounts.deep_view()),
{
    if accounts.len() != 3 {
        return Err(ExecError::MissingAccounts);
    }
    if !accounts[0].is_signer || !accounts[1].is_signer {
        return Err(ExecError::MissingSignature);
    }
    let expected = well_known_allocator_id();
    if !bytes_eq(&accounts[2].key, &expected) {
        return Err(ExecError::WrongProgramOwner);
    }
    if accounts[1].balance > 0 {
        return Err(ExecError::AlreadyInitialized);
    }
    Ok(())
}

} // verus!
