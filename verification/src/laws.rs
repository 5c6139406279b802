//! The laws of the create pipeline, each proved over the specification
//! functions the executable contracts are stated in.

use vstd::prelude::*;
use crate::ExecError;
use crate::account::AccountModel;
use crate::codec::{create_discriminator, spec_encode_minimal};
use crate::ids::allocator_id;
use crate::invoke::{
    BalancePolicy, FIXED_CREATE_BALANCE, rent_exempt_minimum, spec_balance, spec_create_outcome,
};
use crate::{declarative, lowlevel, minimal};

verus! {

/// Law: with both signers present, a correctly referenced allocator slot, an
/// uninitialized new account, and a payer able to cover the computed balance,
/// the execution succeeds; the new account ends with exactly the computed
/// balance, the allocator as owner, and no data, the payer pays exactly that
/// balance, and the allocator slot is untouched.
pub proof fn lemma_create_success(pre: Seq<AccountModel>, policy: BalancePolicy)
    requires
        pre.len() == 3,
        pre[0].is_signer,
        pre[1].is_signer,
        pre[2].key == allocator_id(),
        pre[1].balance == 0,
        pre[1].data.len() == 0,
        pre[0].balance >= spec_balance(policy),
    ensures
        spec_create_outcome(pre, policy).0 is Ok,
        spec_create_outcome(pre, policy).1.len() == 3,
        spec_create_outcome(pre, policy).1[1].balance == spec_balance(policy),
        spec_create_outcome(pre, policy).1[1].owner == allocator_id(),
        spec_create_outcome(pre, policy).1[1].data.len() == 0,
        spec_create_outcome(pre, policy).1[1].key == pre[1].key,
        spec_create_outcome(pre, policy).1[0].balance == pre[0].balance - spec_balance(policy),
        spec_create_outcome(pre, policy).1[0].key == pre[0].key,
        spec_create_outcome(pre, policy).1[2] == pre[2],
{
}

/// Law: a new account that already holds a balance is rejected as already
/// initialized, and the snapshot is returned exactly as it was.
pub proof fn lemma_already_initialized(pre: Seq<AccountModel>, policy: BalancePolicy)
    requires
        pre.len() == 3,
        pre[0].is_signer,
        pre[1].is_signer,
        pre[2].key == allocator_id(),
        pre[1].balance > 0,
    ensures
        spec_create_outcome(pre, policy) == (Err::<(), ExecError>(ExecError::AlreadyInitialized), pre),
{
}

/// Law: an allocator slot whose key differs from the well-known constant is
/// rejected, and the snapshot is returned exactly as it was.
pub proof fn lemma_wrong_program_owner(pre: Seq<AccountModel>, policy: BalancePolicy)
    requires
        pre.len() == 3,
        pre[0].is_signer,
        pre[1].is_signer,
        pre[2].key != allocator_id(),
    ensures
        spec_create_outcome(pre, policy) == (Err::<(), ExecError>(ExecError::WrongProgramOwner), pre),
{
}

/// Law: a missing signer flag on the payer or the new account is rejected, and
/// the snapshot is returned exactly as it was.
pub proof fn lemma_missing_signature(pre: Seq<AccountModel>, policy: BalancePolicy)
    requires
        pre.len() == 3,
        !pre[0].is_signer || !pre[1].is_signer,
    ensures
        spec_create_outcome(pre, policy) == (Err::<(), ExecError>(ExecError::MissingSignature), pre),
{
}

/// Law: no failing execution mutates the snapshot at all.
pub proof fn lemma_failure_preserves_snapshot(pre: Seq<AccountModel>, policy: BalancePolicy)
    ensures
        spec_create_outcome(pre, policy).0 is Err ==> spec_create_outcome(pre, policy).1 == pre,
{
}

/// Law: the minimal variant, on a well-formed payload requesting `space`
/// bytes, succeeds under the success preconditions and assigns the minimum
/// persistent balance for that size.
pub proof fn lemma_minimal_success(pre: Seq<AccountModel>, space: u64)
    requires
        pre.len() == 3,
        pre[0].is_signer,
        pre[1].is_signer,
        pre[2].key == allocator_id(),
        pre[1].balance == 0,
        pre[1].data.len() == 0,
        pre[0].balance >= rent_exempt_minimum(space),
    ensures
        minimal::spec_process_outcome(pre, spec_encode_minimal(space)).0 is Ok,
        minimal::spec_process_outcome(pre, spec_encode_minimal(space)).1[1].balance
            == rent_exempt_minimum(space),
        minimal::spec_process_outcome(pre, spec_encode_minimal(space)).1[1].owner == allocator_id(),
        minimal::spec_process_outcome(pre, spec_encode_minimal(space)).1[1].data.len() == 0,
{
    crate::codec::lemma_minimal_decode_of_encode(space);
    lemma_create_success(pre, BalancePolicy::MinimumForSize(space));
}

/// Law: the low-level variant, on its discriminator payload, succeeds under
/// the success preconditions and assigns the fixed platform-defined balance.
pub proof fn lemma_lowlevel_success(pre: Seq<AccountModel>)
    requires
        pre.len() == 3,
        pre[0].is_signer,
        pre[1].is_signer,
        pre[2].key == allocator_id(),
        pre[1].balance == 0,
        pre[1].data.len() == 0,
        pre[0].balance >= FIXED_CREATE_BALANCE,
    ensures
        lowlevel::spec_process_outcome(pre, create_discriminator()).0 is Ok,
        lowlevel::spec_process_outcome(pre, create_discriminator()).1[1].balance
            == FIXED_CREATE_BALANCE,
        lowlevel::spec_process_outcome(pre, create_discriminator()).1[1].owner == allocator_id(),
        lowlevel::spec_process_outcome(pre, create_discriminator()).1[1].data.len() == 0,
{
    crate::codec::lemma_fixed_round_trip(create_discriminator());
    lemma_create_success(pre, BalancePolicy::FixedAmount(FIXED_CREATE_BALANCE));
}

/// Law: the declarative variant, on its discriminator payload, succeeds under
/// the success preconditions and assigns the minimum persistent balance for a
/// zero-sized account.
pub proof fn lemma_declarative_success(pre: Seq<AccountModel>)
    requires
        pre.len() == 3,
        pre[0].is_signer,
        pre[1].is_signer,
        pre[2].key == allocator_id(),
        pre[1].balance == 0,
        pre[1].data.len() == 0,
        pre[0].balance >= rent_exempt_minimum(0),
    ensures
        declarative::spec_process_outcome(pre, create_discriminator()).0 is Ok,
        declarative::spec_process_outcome(pre, create_discriminator()).1[1].balance
            == rent_exempt_minimum(0),
        declarative::spec_process_outcome(pre, create_discriminator()).1[1].owner == allocator_id(),
        declarative::spec_process_outcome(pre, create_discriminator()).1[1].data.len() == 0,
{
    crate::codec::lemma_fixed_round_trip(create_discriminator());
    lemma_create_success(pre, BalancePolicy::MinimumForSize(0));
}

} // verus!
