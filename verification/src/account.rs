//! The account model: a keyed record of balance, data, owning program,
//! executable flag, and the transaction-scoped signer / writable flags of the
//! slot it was supplied in.

use vstd::prelude::*;

verus! {

/// The mathematical model of an account: every field as a plain value.
pub struct AccountModel {
    pub key: Seq<u8>,
    pub balance: u64,
    pub data: Seq<u8>,
    pub owner: Seq<u8>,
    pub executable: bool,
    pub is_signer: bool,
    pub is_writable: bool,
}

/// An account as a test or an embedding supplies it: a snapshot entry plus the
/// per-slot metadata of the instruction that references it.
#[derive(Debug)]
pub struct Account {
    /// The fixed-width identifier of the account.
    pub key: Vec<u8>,
    /// The unsigned balance the account holds.
    pub balance: u64,
    /// The account's stored bytes.
    pub data: Vec<u8>,
    /// The identifier of the program that owns the account.
    pub owner: Vec<u8>,
    /// Whether the account is an executable program.
    pub executable: bool,
    /// Whether the corresponding private key authorized the current call.
    pub is_signer: bool,
    /// Whether the slot referencing this account is writable.
    pub is_writable: bool,
}

impl View for Account {
    type V = AccountModel;

    open spec fn view(&self) -> AccountModel {
        AccountModel {
            key: self.key@,
            balance: self.balance,
            data: self.data@,
            owner: self.owner@,
            executable: self.executable,
            is_signer: self.is_signer,
            is_writable: self.is_writable,
        }
    }
}

impl DeepView for Account {
    type V = AccountModel;

    open spec fn deep_view(&self) -> AccountModel {
        self.view()
    }
}

impl AccountModel {
    /// The account invariant: the identifier is fixed-width.
    pub open spec fn wf(self) -> bool {
        self.key.len() == crate::ids::ID_LEN
    }
}

/// Every account in the list satisfies the account invariant.
pub open spec fn wf_accounts(s: Seq<AccountModel>) -> bool {
    forall|i: int| 0 <= i < s.len() ==> (#[trigger] s[i]).wf()
}

/// Compares two byte strings for equality.
pub fn bytes_eq(a: &Vec<u8>, b: &Vec<u8>) -> (r: bool)
    ensures
        r == (a@ == b@),
{
    if a.len() != b.len() {
        return false;
    }
    let mut i: usize = 0;
    while i < a.len()
        invariant
            i <= a.len(),
            a@.len() == b@.len(),
            forall|k: int| 0 <= k < i ==> a@[k] == b@[k],
        decreases a.len() - i,
    {
        if a[i] != b[i] {
            return false;
        }
        i += 1;
    }
    proof {
        assert(a@ =~= b@);
    }
    true
}

} // verus!
