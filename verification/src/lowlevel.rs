//! The low-level variant: an eight-byte discriminator with no further payload.
//! It builds the delegated request through the outside allocator interface and
//! assigns the fixed platform-defined balance.

use vstd::prelude::*;
use crate::ExecError;
use crate::account::{Account, AccountModel, wf_accounts};
use crate::codec::{decode_fixed, spec_decode_fixed};
use crate::invoke::{BalancePolicy, FIXED_CREATE_BALANCE, run_delegated_create, spec_create_outcome};

verus! {

/// What processing a low-level instruction does.
pub open spec fn spec_process_outcome(pre: Seq<AccountModel>, data: Seq<u8>) -> (Result<
    (),
    ExecError,
>, Seq<AccountModel>) {
    match spec_decode_fixed(data) {
        Err(e) => (Err(e), pre),
        Ok(d) => spec_create_outcome(pre, BalancePolicy::FixedAmount(FIXED_CREATE_BALANCE)),
    }
}

/// The low-level variant's entry: resolves the discriminator, validates the
/// slots, and delegates a create request carrying the fixed balance.
pub fn process_instruction(
    _program_id: &Vec<u8>,
    accounts: &mut Vec<Account>,
    instruction_data: &[u8],
) -> (r: Result<(), ExecError>)
    requires
        wf_accounts(old(accounts).deep_view()),
    ensures
        r == spec_process_outcome(old(accounts).deep_view(), instruction_data@).0,
        final(accounts).deep_view() == spec_process_outcome(
            old(accounts).deep_view(),
            instruction_data@,
        ).1,
        r is Err ==> final(accounts)@ == old(accounts)@,
{
    if let Err(e) = decode_fixed(instruction_data) {
        return Err(e);
    }
    run_delegated_create(accounts, &BalancePolicy::FixedAmount(FIXED_CREATE_BALANCE))
}

} // verus!
