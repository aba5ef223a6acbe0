//! Raw account view.
//!
//! The host supplies each invocation an ordered list of accounts; every
//! account is a raw data buffer plus metadata, inspected and mutated in
//! place.  `data_borrowed` models the host's single-writer aliasing rule: it
//! records that a live view of the data buffer is already held when the
//! invocation starts, and any handler that needs the buffer fails with
//! [`ProgramError::AccountBorrowFailed`](crate::ProgramError) while it is set.

use vstd::prelude::*;

use crate::ProgramError;

verus! {

/// Length in bytes of an identity key.
pub const KEY_LEN: usize = 32;

/// One persistent storage slot, as the host hands it to an invocation.
pub struct Account {
    /// The account's identity key (32 bytes).
    pub key: Vec<u8>,
    /// Identity key of the program that owns the account (32 bytes).
    pub owner: Vec<u8>,
    /// The account's balance.
    pub lamports: u64,
    /// Whether the account signed the invocation.
    pub is_signer: bool,
    /// Whether the host granted write access to the account.
    pub is_writable: bool,
    /// The raw data buffer, mutable in place.
    pub data: Vec<u8>,
    /// Whether a live view of the data buffer is already held.
    pub data_borrowed: bool,
}

/// The mathematical value of an [`Account`].
#[verifier::ext_equal]
pub ghost struct AccountModel {
    pub key: Seq<u8>,
    pub owner: Seq<u8>,
    pub lamports: u64,
    pub is_signer: bool,
    pub is_writable: bool,
    pub data: Seq<u8>,
    pub data_borrowed: bool,
}

impl View for Account {
    type V = AccountModel;

    open spec fn view(&self) -> AccountModel {
        AccountModel {
            key: self.key@,
            owner: self.owner@,
            lamports: self.lamports,
            is_signer: self.is_signer,
            is_writable: self.is_writable,
            data: self.data@,
            data_borrowed: self.data_borrowed,
        }
    }
}

impl AccountModel {
    /// Both identity keys have the fixed key length.  The host guarantees
    /// this of every account it supplies.
    pub open spec fn wf(self) -> bool {
        &&& self.key.len() == KEY_LEN
        &&& self.owner.len() == KEY_LEN
    }
}

impl Account {
    /// Both identity keys have the fixed key length.  The host guarantees
    /// this of every account it supplies.
    pub open spec fn wf(self) -> bool {
        self@.wf()
    }
}

/// The mathematical values of a host-supplied account list.
pub open spec fn views(accounts: Seq<Account>) -> Seq<AccountModel> {
    accounts.map_values(|a: Account| a@)
}

/// Positional access to the host-supplied account list, with bounds
/// checking: reading an account beyond the supplied count fails.
pub fn account_at<'a>(accounts: &'a Vec<Account>, index: usize) -> (r: Result<
    &'a Account,
    ProgramError,
>)
    ensures
        index < accounts@.len() ==> (r matches Ok(a) && *a == accounts@[index as int]),
        index >= accounts@.len() ==> r == Err::<&'a Account, ProgramError>(
            ProgramError::NotEnoughAccountKeys,
        ),
{
    if index < accounts.len() {
        Ok(&accounts[index])
    } else {
        Err(ProgramError::NotEnoughAccountKeys)
    }
}

/// Whether two identity keys are the same key.
pub fn key_eq(a: &Vec<u8>, b: &Vec<u8>) -> (r: bool)
    ensures
        r == (a@ == b@),
{
    if a.len() != b.len() {
        return false;
    }
    let n = a.len();
    let mut i: usize = 0;
    while i < n
        invariant
            n == a@.len() == b@.len(),
            i <= n,
            forall|j: int| 0 <= j < i ==> a@[j] == b@[j],
        decreases n - i,
    {
        if a[i] != b[i] {
            return false;
        }
        i += 1;
    }
    proof {
        assert(a@ =~= b@);
    }
    true
}

/// Copy an identity key into a fresh buffer.
pub fn copy_bytes(src: &Vec<u8>) -> (r: Vec<u8>)
    ensures
        r@ == src@,
{
    let mut out: Vec<u8> = Vec::new();
    let n = src.len();
    let mut i: usize = 0;
    while i < n
        invariant
            n == src@.len(),
            i <= n,
            out@ == src@.subrange(0, i as int),
        decreases n - i,
    {
        out.push(src[i]);
        proof {
            assert(out@ =~= src@.subrange(0, (i + 1) as int));
        }
        i += 1;
    }
    proof {
        assert(src@.subrange(0, n as int) =~= src@);
    }
    out
}

/// A fresh all-zero buffer of `n` bytes.
pub fn zeroed_bytes(n: usize) -> (r: Vec<u8>)
    ensures
        r@ == Seq::new(n as nat, |i: int| 0u8),
{
    let mut out: Vec<u8> = Vec::new();
    let mut i: usize = 0;
    while i < n
        invariant
            i <= n,
            out@ == Seq::new(i as nat, |j: int| 0u8),
        decreases n - i,
    {
        out.push(0);
        proof {
            assert(out@ =~= Seq::new((i + 1) as nat, |j: int| 0u8));
        }
        i += 1;
    }
    out
}

} // verus!
