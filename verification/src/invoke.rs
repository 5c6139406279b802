//! The privileged invocation builder and the simulated delegated call. After
//! validation succeeds, the handler computes the balance to assign to the new
//! account, builds a request descriptor for the external allocator, and
//! delegates. Here the allocator's effect is simulated deterministically; any
//! failure it reports propagates unchanged.

use vstd::prelude::*;
use vstd::pervasive::VecAdditionalExecFns;
use crate::{AllocError, ExecError};
use crate::account::{Account, AccountModel, wf_accounts};
use crate::codec::{create_account_payload_index, u64_le_bytes, write_u64_le};
use crate::ids::{allocator_id, well_known_allocator_id};
use crate::validate::{spec_validate, validate_accounts};

verus! {

/// The fixed platform-defined balance a variant without a size field assigns:
/// one whole unit of the platform's native token.
pub const FIXED_CREATE_BALANCE: u64 = 1_000_000_000;

/// The rule a variant computes the new account's balance by: a fixed
/// platform-defined amount, or the minimum persistent balance for the
/// requested size, as the external fee schedule defines it.
#[derive(Clone, Copy, Debug)]
pub enum BalancePolicy {
    /// Assign this fixed amount.
    FixedAmount(u64),
    /// Assign the minimum persistent balance for this data size.
    MinimumForSize(u64),
}

/// The minimum balance an account of the given data size must hold to be
/// exempt from reclamation, as the external fee schedule defines it.
pub uninterp spec fn rent_exempt_minimum(space: u64) -> u64;

/// Relies on solana_program::rent::Rent::minimum_balance over the default fee
/// schedule: the minimum persistent balance is a function of the data size
/// alone.
#[verifier::external_body]
pub(crate) fn min_balance_for(space: u64) -> (r: u64)
    ensures
        r == rent_exempt_minimum(space),
{
    solana_program::rent::Rent::default().minimum_balance(space as usize)
}

/// The balance a policy assigns.
pub open spec fn spec_balance(policy: BalancePolicy) -> u64 {
    match policy {
        BalancePolicy::FixedAmount(amount) => amount,
        BalancePolicy::MinimumForSize(space) => rent_exempt_minimum(space),
    }
}

/// Computes the balance the policy assigns to the new account.
pub fn compute_balance(policy: &BalancePolicy) -> (r: u64)
    ensures
        r == spec_balance(*policy),
{
    match policy {
        BalancePolicy::FixedAmount(amount) => *amount,
        BalancePolicy::MinimumForSize(space) => min_balance_for(*space),
    }
}

/// A propagated account reference of a delegated call.
#[derive(Debug)]
pub struct MetaEntry {
    /// The referenced account's identifier.
    pub key: Vec<u8>,
    /// Whether the caller's signer authority is forwarded for this account.
    pub is_signer: bool,
    /// Whether the slot is writable for the callee.
    pub is_writable: bool,
}

/// The model of a propagated account reference.
pub struct MetaModel {
    pub key: Seq<u8>,
    pub is_signer: bool,
    pub is_writable: bool,
}

impl View for MetaEntry {
    type V = MetaModel;

    open spec fn view(&self) -> MetaModel {
        MetaModel { key: self.key@, is_signer: self.is_signer, is_writable: self.is_writable }
    }
}

impl DeepView for MetaEntry {
    type V = MetaModel;

    open spec fn deep_view(&self) -> MetaModel {
        self.view()
    }
}

/// A descriptor of a delegated call into the privileged allocator. Created
/// only after validation succeeds; never mutated afterward.
#[derive(Debug)]
pub struct CallRequest {
    /// The identifier of the allocator the call targets.
    pub allocator: Vec<u8>,
    /// The balance to move from the funding account onto the new account.
    pub balance: u64,
    /// The data size the new account is allocated with.
    pub space: u64,
    /// The identifier of the program that will own the new account.
    pub owner: Vec<u8>,
    /// The account references the call propagates, with forwarded authority.
    pub metas: Vec<MetaEntry>,
    /// The encoded payload of the delegated call.
    pub data: Vec<u8>,
}

/// The model of a delegated call descriptor.
pub struct CallRequestModel {
    pub allocator: Seq<u8>,
    pub balance: u64,
    pub space: u64,
    pub owner: Seq<u8>,
    pub metas: Seq<MetaModel>,
    pub data: Seq<u8>,
}

impl View for CallRequest {
    type V = CallRequestModel;

    open spec fn view(&self) -> CallRequestModel {
        CallRequestModel {
            allocator: self.allocator@,
            balance: self.balance,
            space: self.space,
            owner: self.owner@,
            metas: self.metas.deep_view(),
            data: self.data@,
        }
    }
}

/// The request a handler is obliged to build once validation has passed:
/// the allocator as target and owner, the computed balance, zero initial data
/// length, the payer and new-account references with signer authority
/// forwarded for exactly those two keys, and the encoded payload.
pub open spec fn spec_request(payer_key: Seq<u8>, new_key: Seq<u8>, balance: u64) -> CallRequestModel {
    CallRequestModel {
        allocator: allocator_id(),
        balance,
        space: 0,
        owner: allocator_id(),
        metas: seq![
            MetaModel { key: payer_key, is_signer: true, is_writable: true },
            MetaModel { key: new_key, is_signer: true, is_writable: true },
        ],
        data: create_account_payload(balance, 0, allocator_id()),
    }
}

/// The wire payload of a delegated create request: the four-byte little-endian
/// operation index, the balance, the data size, then the owner identifier.
pub open spec fn create_account_payload(balance: u64, space: u64, owner: Seq<u8>) -> Seq<u8> {
    create_account_payload_index() + u64_le_bytes(balance) + u64_le_bytes(space) + owner
}

/// Encodes the payload of a delegated create request.
pub fn encode_create_account_payload(balance: u64, space: u64, owner: &Vec<u8>) -> (r: Vec<u8>)
    ensures
        r@ == create_account_payload(balance, space, owner@),
{
    let mut out: Vec<u8> = Vec::new();
    out.push(0u8);
    out.push(0u8);
    out.push(0u8);
    out.push(0u8);
    write_u64_le(&mut out, balance);
    write_u64_le(&mut out, space);
    let mut i: usize = 0;
    while i < owner.len()
        invariant
            i <= owner@.len(),
            out@ == create_account_payload_index() + u64_le_bytes(balance) + u64_le_bytes(space)
                + owner@.subrange(0, i as int),
        decreases owner@.len() - i,
    {
        out.push(owner[i]);
        proof {
            assert(owner@.subrange(0, i + 1) =~= owner@.subrange(0, i as int) + seq![owner@[i as int]]);
            assert(out@ =~= create_account_payload_index() + u64_le_bytes(balance) + u64_le_bytes(
                space) + owner@.subrange(0, i + 1));
        }
        i += 1;
    }
    proof {
        assert(owner@.subrange(0, owner@.len() as int) =~= owner@);
    }
    out
}

/// Duplicates a byte string.
pub fn copy_bytes(src: &Vec<u8>) -> (r: Vec<u8>)
    ensures
        r@ == src@,
{
    let mut out: Vec<u8> = Vec::new();
    let mut i: usize = 0;
    while i < src.len()
        invariant
            i <= src@.len(),
            out@ == src@.subrange(0, i as int),
        decreases src@.len() - i,
    {
        out.push(src[i]);
        proof {
            assert(out@ =~= src@.subrange(0, i + 1));
        }
        i += 1;
    }
    proof {
        assert(src@.subrange(0, src@.len() as int) =~= src@);
    }
    out
}

/// Builds the delegated create request for the validated slots.
pub fn build_request(payer_key: &Vec<u8>, new_key: &Vec<u8>, balance: u64) -> (r: CallRequest)
    ensures
        r@ == spec_request(payer_key@, new_key@, balance),
{
    let allocator = crate::ids::local_allocator_id();
    let owner = crate::ids::local_allocator_id();
    let data = encode_create_account_payload(balance, 0, &owner);
    let mut metas: Vec<MetaEntry> = Vec::new();
    metas.push(MetaEntry { key: copy_bytes(payer_key), is_signer: true, is_writable: true });
    metas.push(MetaEntry { key: copy_bytes(new_key), is_signer: true, is_writable: true });
    let r = CallRequest { allocator, balance, space: 0, owner, metas, data };
    proof {
        assert(r@.metas =~= spec_request(payer_key@, new_key@, balance).metas);
    }
    r
}

/// What the simulated allocator does with a request over a three-slot
/// snapshot: it refuses a target that is already in use, refuses a funding
/// account that cannot cover the balance, and otherwise moves the balance and
/// installs the owner with an empty data region.
pub open spec fn spec_allocator_outcome(pre: Seq<AccountModel>, req: CallRequestModel) -> Result<
    Seq<AccountModel>,
    AllocError,
>
    recommends
        pre.len() == 3,
{
    if pre[1].balance != 0 || pre[1].data.len() != 0 {
        Err(AllocError::AccountInUse)
    } else if pre[0].balance < req.balance {
        Err(AllocError::InsufficientFunds)
    } else {
        Ok(pre.update(0, AccountModel { balance: (pre[0].balance - req.balance) as u64, ..pre[0] }).update(
            1,
            AccountModel { balance: req.balance, data: Seq::empty(), owner: req.owner, ..pre[1] },
        ))
    }
}

/// Performs the delegated call against the snapshot, simulated: on success the
/// snapshot reflects the allocator's effect; on failure it is untouched and
/// the allocator's error is returned unchanged.
pub fn invoke_allocator(req: &CallRequest, accounts: &mut Vec<Account>) -> (r: Result<(), AllocError>)
    requires
        old(accounts)@.len() == 3,
    ensures
        (match spec_allocator_outcome(old(accounts).deep_view(), req@) {
            Ok(post) => r is Ok && final(accounts).deep_view() == post,
            Err(e) => r == Err::<(), AllocError>(e) && final(accounts)@ == old(accounts)@,
        }),
        final(accounts)@.len() == old(accounts)@.len(),
{
    if accounts[1].balance != 0 || accounts[1].data.len() > 0 {
        return Err(AllocError::AccountInUse);
    }
    if accounts[0].balance < req.balance {
        return Err(AllocError::InsufficientFunds);
    }
    let payer_balance = accounts[0].balance - req.balance;
    let payer = Account {
        key: copy_bytes(&accounts[0].key),
        balance: payer_balance,
        data: copy_bytes(&accounts[0].data),
        owner: copy_bytes(&accounts[0].owner),
        executable: accounts[0].executable,
        is_signer: accounts[0].is_signer,
        is_writable: accounts[0].is_writable,
    };
    let fresh = Account {
        key: copy_bytes(&accounts[1].key),
        balance: req.balance,
        data: Vec::new(),
        owner: copy_bytes(&req.owner),
        executable: accounts[1].executable,
        is_signer: accounts[1].is_signer,
        is_writable: accounts[1].is_writable,
    };
    accounts.set(0, payer);
    accounts.set(1, fresh);
    proof {
        let pre = old(accounts).deep_view();
        let post = spec_allocator_outcome(pre, req@)->Ok_0;
        assert(accounts.deep_view() =~~= post);
    }
    Ok(())
}

/// Relies on solana_system_interface::instruction::create_account: it targets
/// the well-known allocator, propagates the funding and new-account references
/// as writable signers, and encodes the four-byte create index followed by the
/// little-endian balance, the little-endian size, and the owner identifier.
#[verifier::external_body]
fn delegated_create_request(
    from: &Vec<u8>,
    to: &Vec<u8>,
    balance: u64,
    space: u64,
    owner: &Vec<u8>,
) -> (r: CallRequest)
    requires
        from@.len() == 32,
        to@.len() == 32,
        owner@.len() == 32,
    ensures
        r@.allocator == allocator_id(),
        r@.balance == balance,
        r@.space == space,
        r@.owner == owner@,
        r@.metas == seq![
            MetaModel { key: from@, is_signer: true, is_writable: true },
            MetaModel { key: to@, is_signer: true, is_writable: true },
        ],
        r@.data == create_account_payload(balance, space, owner@),
{
    let f = solana_program::pubkey::Pubkey::try_from(from.as_slice()).unwrap();
    let t = solana_program::pubkey::Pubkey::try_from(to.as_slice()).unwrap();
    let o = solana_program::pubkey::Pubkey::try_from(owner.as_slice()).unwrap();
    let ix = solana_system_interface::instruction::create_account(&f, &t, balance, space, &o);
    let metas = ix.accounts.iter().map(|m| MetaEntry {
        key: m.pubkey.to_bytes().to_vec(),
        is_signer: m.is_signer,
        is_writable: m.is_writable,
    }).collect();
    let allocator = ix.program_id.to_bytes().to_vec();
    CallRequest { allocator, balance, space, owner: owner.clone(), metas, data: ix.data }
}

/// Builds the delegated create request through the outside allocator
/// interface. It agrees, field for field, with the locally built request.
pub fn delegated_request(payer_key: &Vec<u8>, new_key: &Vec<u8>, balance: u64) -> (r: CallRequest)
    requires
        payer_key@.len() == 32,
        new_key@.len() == 32,
    ensures
        r@ == spec_request(payer_key@, new_key@, balance),
{
    let target_owner = well_known_allocator_id();
    let r = delegated_create_request(payer_key, new_key, balance, 0, &target_owner);
    proof {
        assert(r@ == spec_request(payer_key@, new_key@, balance));
    }
    r
}

/// What one full create execution does after decoding: the validator gates,
/// the builder computes the balance and the request, and the simulated
/// allocator either applies its effect or reports a failure that propagates
/// unchanged. On any failure the snapshot is untouched.
pub open spec fn spec_create_outcome(pre: Seq<AccountModel>, policy: BalancePolicy) -> (Result<
    (),
    ExecError,
>, Seq<AccountModel>) {
    match spec_validate(pre) {
        Err(e) => (Err(e), pre),
        Ok(u) => {
            let balance = spec_balance(policy);
            match spec_allocator_outcome(pre, spec_request(pre[0].key, pre[1].key, balance)) {
                Err(e) => (Err(ExecError::DelegatedCallFailure(e)), pre),
                Ok(post) => (Ok(()), post),
            }
        },
    }
}

/// Validates the slots, then builds the delegated request through the outside
/// allocator interface and performs the simulated call.
pub fn run_delegated_create(accounts: &mut Vec<Account>, policy: &BalancePolicy) -> (r: Result<
    (),
    ExecError,
>)
    requires
        wf_accounts(old(accounts).deep_view()),
    ensures
        r == spec_create_outcome(old(accounts).deep_view(), *policy).0,
        final(accounts).deep_view() == spec_create_outcome(old(accounts).deep_view(), *policy).1,
        r is Err ==> final(accounts)@ == old(accounts)@,
{
    if let Err(e) = validate_accounts(accounts) {
        return Err(e);
    }
    let balance = compute_balance(policy);
    proof {
        let pre = old(accounts).deep_view();
        assert(pre[0].wf() && pre[1].wf());
    }
    let req = delegated_request(&accounts[0].key, &accounts[1].key, balance);
    match invoke_allocator(&req, accounts) {
        Ok(u) => Ok(()),
        Err(e) => Err(ExecError::DelegatedCallFailure(e)),
    }
}

/// Validates the slots, then builds the delegated request locally, byte for
/// byte, and performs the simulated call.
pub fn run_local_create(accounts: &mut Vec<Account>, policy: &BalancePolicy) -> (r: Result<
    (),
    ExecError,
>)
    ensures
        r == spec_create_outcome(old(accounts).deep_view(), *policy).0,
        final(accounts).deep_view() == spec_create_outcome(old(accounts).deep_view(), *policy).1,
        r is Err ==> final(accounts)@ == old(accounts)@,
{
    if let Err(e) = validate_accounts(accounts) {
        return Err(e);
    }
    let balance = compute_balance(policy);
    let req = build_request(&accounts[0].key, &accounts[1].key, balance);
    match invoke_allocator(&req, accounts) {
        Ok(u) => Ok(()),
        Err(e) => Err(ExecError::DelegatedCallFailure(e)),
    }
}

} // verus!
