//! Model of the external account-creation service.
//!
//! The service is an external collaborator: the program only builds a
//! request in the service's documented calling convention and traps into
//! the host, which executes the service against the referenced accounts.
//! This module states that documented contract as a verified transition on
//! the payer and the account to be created, so that a whole initialize
//! invocation can be run and reasoned about end to end.  An embedding that
//! runs on a real ledger performs the trap itself and lets the host apply
//! the very same effect.

use vstd::bytes::spec_u64_from_le_bytes;
use vstd::bytes::u64_from_le_bytes;
use vstd::prelude::*;

use crate::account::zeroed_bytes;
use crate::account::Account;
use crate::account::AccountModel;
use crate::cpi::CpiDescriptor;
use crate::cpi::CpiDescriptorModel;
use crate::cpi::CREATE_ACCOUNT_PAYLOAD_LEN;
use crate::cpi::MAX_ACCOUNT_DATA_LEN;
use crate::ProgramError;

verus! {

/// Whether a request payload is a well-formed create-account request: the
/// documented length, opening with the create-account tag.
pub open spec fn spec_is_create_account(data: Seq<u8>) -> bool {
    &&& data.len() == CREATE_ACCOUNT_PAYLOAD_LEN
    &&& data[0] == 0u8
    &&& data[1] == 0u8
    &&& data[2] == 0u8
    &&& data[3] == 0u8
}

/// The funding amount a create-account payload carries.
pub open spec fn spec_request_funding(data: Seq<u8>) -> u64 {
    spec_u64_from_le_bytes(data.subrange(4, 12))
}

/// The data size a create-account payload asks for.
pub open spec fn spec_request_size(data: Seq<u8>) -> u64 {
    spec_u64_from_le_bytes(data.subrange(12, 20))
}

/// The owner identity a create-account payload assigns.
pub open spec fn spec_request_owner(data: Seq<u8>) -> Seq<u8> {
    data.subrange(20, 52)
}

/// What the service does with a create-account request against the payer
/// and the account to be created: it rejects an unrecognized or oversized
/// request and a target already in use, debits the payer by the funding
/// amount if the payer can afford it, and gives the target that balance, a
/// fresh all-zero data buffer of the requested size, and the requested
/// owner.  Everything else about both accounts is untouched.
pub open spec fn spec_apply_create_account(
    req: CpiDescriptorModel,
    payer: AccountModel,
    counter: AccountModel,
) -> Result<(AccountModel, AccountModel), ProgramError> {
    if !spec_is_create_account(req.data) {
        Err(ProgramError::InvalidAccountData)
    } else if spec_request_size(req.data) > MAX_ACCOUNT_DATA_LEN {
        Err(ProgramError::InvalidAccountData)
    } else if counter.lamports != 0 || counter.data.len() != 0 {
        Err(ProgramError::InvalidAccountData)
    } else if payer.lamports < spec_request_funding(req.data) {
        Err(ProgramError::InsufficientFunds)
    } else {
        Ok(
            (
                AccountModel {
                    lamports: (payer.lamports - spec_request_funding(req.data)) as u64,
                    ..payer
                },
                AccountModel {
                    lamports: spec_request_funding(req.data),
                    owner: spec_request_owner(req.data),
                    data: Seq::new(spec_request_size(req.data) as nat, |i: int| 0u8),
                    ..counter
                },
            ),
        )
    }
}

/// What the request builder lays out, the service reads back: a payload
/// built for a 32-byte owner is a well-formed create-account request, and
/// the funding amount, size and owner parsed from it are exactly the ones
/// it was built from.
pub proof fn lemma_create_account_payload_parses(funding: u64, size: u64, owner: Seq<u8>)
    requires
        owner.len() == crate::account::KEY_LEN,
    ensures
        spec_is_create_account(crate::cpi::spec_create_account_payload(funding, size, owner)),
        spec_request_funding(crate::cpi::spec_create_account_payload(funding, size, owner))
            == funding,
        spec_request_size(crate::cpi::spec_create_account_payload(funding, size, owner)) == size,
        spec_request_owner(crate::cpi::spec_create_account_payload(funding, size, owner)) == owner,
{
    vstd::bytes::lemma_auto_spec_u64_to_from_le_bytes();
    let d = crate::cpi::spec_create_account_payload(funding, size, owner);
    assert(d.subrange(4, 12) =~= vstd::bytes::spec_u64_to_le_bytes(funding));
    assert(d.subrange(12, 20) =~= vstd::bytes::spec_u64_to_le_bytes(size));
    assert(d.subrange(20, 52) =~= owner);
}

/// Run the account-creation service's documented effect on the two
/// referenced accounts.
pub fn apply_create_account(req: &CpiDescriptor, payer: &mut Account, counter: &mut Account) -> (r:
    Result<(), ProgramError>)
    ensures
        spec_apply_create_account(req@, old(payer)@, old(counter)@) matches Ok(pc) ==> r is Ok
            && final(payer)@ == pc.0 && final(counter)@ == pc.1,
        spec_apply_create_account(req@, old(payer)@, old(counter)@) matches Err(e) ==> r == Err::<
            (),
            ProgramError,
        >(e) && *final(payer) == *old(payer) && *final(counter) == *old(counter),
{
    if req.data.len() != CREATE_ACCOUNT_PAYLOAD_LEN {
        return Err(ProgramError::InvalidAccountData);
    }
    if req.data[0] != 0 || req.data[1] != 0 || req.data[2] != 0 || req.data[3] != 0 {
        return Err(ProgramError::InvalidAccountData);
    }
    let funding = u64_from_le_bytes(vstd::slice::slice_subrange(req.data.as_slice(), 4, 12));
    let size = u64_from_le_bytes(vstd::slice::slice_subrange(req.data.as_slice(), 12, 20));
    if size > MAX_ACCOUNT_DATA_LEN {
        return Err(ProgramError::InvalidAccountData);
    }
    if counter.lamports != 0 || counter.data.len() != 0 {
        return Err(ProgramError::InvalidAccountData);
    }
    if payer.lamports < funding {
        return Err(ProgramError::InsufficientFunds);
    }
    let owner = vstd::slice::slice_to_vec(
        vstd::slice::slice_subrange(req.data.as_slice(), 20, 52),
    );
    payer.lamports = payer.lamports - funding;
    counter.lamports = funding;
    counter.owner = owner;
    counter.data = zeroed_bytes(size as usize);
    proof {
        let pc = spec_apply_create_account(req@, old(payer)@, old(counter)@)->Ok_0;
        assert(payer@ =~= pc.0);
        assert(counter@ =~= pc.1);
    }
    Ok(())
}

} // verus!
