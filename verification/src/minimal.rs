//! The minimal variant: a single-byte opcode followed by a fixed-width
//! requested size. It builds the delegated request locally, byte for byte,
//! against the local placeholder identifier of the allocator, and assigns the
//! minimum persistent balance for the requested size.

use vstd::prelude::*;
use crate::ExecError;
use crate::account::{Account, AccountModel};
use crate::codec::{CREATE_OPCODE, read_u64_le, spec_decode_minimal, u64_from_le};
use crate::invoke::{BalancePolicy, run_local_create, spec_create_outcome};

verus! {

/// What handling a create request does, given the payload after the opcode.
pub open spec fn spec_create_account_outcome(pre: Seq<AccountModel>, data: Seq<u8>) -> (Result<
    (),
    ExecError,
>, Seq<AccountModel>) {
    if data.len() < 8 {
        (Err(ExecError::InvalidPayload), pre)
    } else {
        spec_create_outcome(
            pre,
            BalancePolicy::MinimumForSize(u64_from_le(data.subrange(0, 8))),
        )
    }
}

/// Handles a create request: the first eight payload bytes carry the requested
/// size; validation gates the delegated call; the new account receives the
/// minimum persistent balance for that size.
pub fn create_account(accounts: &mut Vec<Account>, data: &[u8]) -> (r: Result<(), ExecError>)
    ensures
        r == spec_create_account_outcome(old(accounts).deep_view(), data@).0,
        final(accounts).deep_view() == spec_create_account_outcome(
            old(accounts).deep_view(),
            data@,
        ).1,
        r is Err ==> final(accounts)@ == old(accounts)@,
{
    if data.len() < 8 {
        return Err(ExecError::InvalidPayload);
    }
    let space = read_u64_le(data, 0);
    run_local_create(accounts, &BalancePolicy::MinimumForSize(space))
}

/// What processing a full minimal-format instruction does.
pub open spec fn spec_process_outcome(pre: Seq<AccountModel>, data: Seq<u8>) -> (Result<
    (),
    ExecError,
>, Seq<AccountModel>) {
    match spec_decode_minimal(data) {
        Err(e) => (Err(e), pre),
        Ok(d) => spec_create_outcome(pre, BalancePolicy::MinimumForSize(d.space->Some_0)),
    }
}

/// The minimal variant's entry: dispatches on the opcode byte and hands the
/// remaining payload to the create handler.
pub fn process_instruction(
    _program_id: &Vec<u8>,
    accounts: &mut Vec<Account>,
    instruction_data: &[u8],
) -> (r: Result<(), ExecError>)
    ensures
        r == spec_process_outcome(old(accounts).deep_view(), instruction_data@).0,
        final(accounts).deep_view() == spec_process_outcome(
            old(accounts).deep_view(),
            instruction_data@,
        ).1,
        r is Err ==> final(accounts)@ == old(accounts)@,
{
    if instruction_data.len() < 1 {
        return Err(ExecError::InvalidPayload);
    }
    if instruction_data[0] != CREATE_OPCODE {
        return Err(ExecError::UnknownOperation);
    }
    let rest = &instruction_data[1..instruction_data.len()];
    let r = create_account(accounts, rest);
    proof {
        if instruction_data@.len() >= 9 {
            assert(rest@.subrange(0, 8) =~= instruction_data@.subrange(1, 9));
        }
    }
    r
}

} // verus!
