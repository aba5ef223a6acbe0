//! Operation handlers.
//!
//! One invocation decodes the instruction bytes, runs exactly one handler,
//! and returns a result code to the host.  `initialize` creates the
//! counter's backing account through the account-creation service when it
//! is not yet owned by this program and sets the fresh counter to zero; it
//! does not reset an account this program already owns.  `increment` adds
//! one to the stored value, wrapping on overflow — the non-fatal numeric
//! policy, chosen so that no input can abort the invocation.
//!
//! Each handler's contract relates the whole account list after the call to
//! a specification-level transition on the account models.  On any error
//! the account list is byte-for-byte unchanged, mirroring the host's
//! all-or-nothing rule.

use vstd::bytes::spec_u64_from_le_bytes;
use vstd::bytes::spec_u64_to_le_bytes;
use vstd::prelude::*;

use crate::account::account_at;
use crate::account::key_eq;
use crate::account::views;
use crate::account::Account;
use crate::account::AccountModel;
use crate::account::KEY_LEN;
use crate::codec::read_counter;
use crate::codec::write_counter;
use crate::codec::spec_write_counter;
use crate::codec::COUNTER_LEN;
use crate::cpi::build_create_account_request;
use crate::cpi::rent_exempt_minimum;
use crate::cpi::service_id;
use crate::cpi::service_identity;
use crate::cpi::spec_create_account_request;
use crate::cpi::spec_rent_exempt_minimum;
use crate::cpi::CpiDescriptor;
use crate::cpi::CpiDescriptorModel;
use crate::instruction::decode_instruction;
use crate::instruction::spec_decode;
use crate::instruction::Operation;
use crate::service::apply_create_account;
use crate::service::lemma_create_account_payload_parses;
use crate::service::spec_apply_create_account;
use crate::ProgramError;

verus! {

/// One more than `v`, wrapping to zero past the largest value.
pub open spec fn wrapping_inc(v: u64) -> u64 {
    if v == u64::MAX {
        0u64
    } else {
        (v + 1) as u64
    }
}

/// The increment transition.  The handler is given the counter account and
/// the payer, in that order.  The payer must have signed, the counter must
/// be owned by this program, its data buffer must be free of live borrows
/// and hold exactly one counter; then the stored value is replaced by its
/// wrapping successor, and nothing else changes.
pub open spec fn spec_increment(program_id: Seq<u8>, accounts: Seq<AccountModel>) -> Result<
    Seq<AccountModel>,
    ProgramError,
> {
    if accounts.len() < 2 {
        Err(ProgramError::NotEnoughAccountKeys)
    } else if !accounts[1].is_signer {
        Err(ProgramError::MissingRequiredSignature)
    } else if accounts[0].owner != program_id {
        Err(ProgramError::IllegalOwner)
    } else if accounts[0].data_borrowed {
        Err(ProgramError::AccountBorrowFailed)
    } else if accounts[0].data.len() != COUNTER_LEN {
        Err(ProgramError::UninitializedAccount)
    } else {
        let v = spec_u64_from_le_bytes(accounts[0].data);
        Ok(
            accounts.update(
                0,
                AccountModel { data: spec_u64_to_le_bytes(wrapping_inc(v)), ..accounts[0] },
            ),
        )
    }
}

/// Add one to the stored counter, wrapping on overflow.
///
/// `accounts` is the host-supplied list for this invocation: the counter
/// account first, the payer second.
pub fn increment(program_id: &Vec<u8>, accounts: &mut Vec<Account>) -> (r: Result<
    (),
    ProgramError,
>)
    ensures
        spec_increment(program_id@, views(old(accounts)@)) matches Ok(m) ==> r is Ok && views(
            final(accounts)@,
        ) == m,
        spec_increment(program_id@, views(old(accounts)@)) matches Err(e) ==> r == Err::<
            (),
            ProgramError,
        >(e) && final(accounts)@ == old(accounts)@,
{
    let payer = match account_at(accounts, 1) {
        Ok(a) => a,
        Err(e) => { return Err(e) },
    };
    if !payer.is_signer {
        return Err(ProgramError::MissingRequiredSignature);
    }
    let counter = match account_at(accounts, 0) {
        Ok(a) => a,
        Err(e) => { return Err(e) },
    };
    if !key_eq(&counter.owner, program_id) {
        return Err(ProgramError::IllegalOwner);
    }
    if counter.data_borrowed {
        return Err(ProgramError::AccountBorrowFailed);
    }
    if counter.data.len() != COUNTER_LEN {
        return Err(ProgramError::UninitializedAccount);
    }
    let v = match read_counter(&counter.data) {
        Ok(v) => v,
        Err(e) => { return Err(e) },
    };
    let next = if v == u64::MAX {
        0
    } else {
        v + 1
    };
    if let Err(e) = write_counter(&mut accounts[0].data, next) {
        return Err(e);
    }
    proof {
        vstd::bytes::lemma_auto_spec_u64_to_from_le_bytes();
        assert(old(accounts)@[0]@.data.skip(COUNTER_LEN as int) =~= Seq::<u8>::empty());
        assert(accounts@[0]@.data =~= spec_u64_to_le_bytes(next));
        assert(views(accounts@) =~= spec_increment(program_id@, views(old(accounts)@))->Ok_0);
    }
    Ok(())
}

/// The initialize plan: what validation yields before any outside effect.
/// The handler is given the payer, the counter account and the service, in
/// that order.  The payer must have signed; a counter whose key is the
/// service's own identity is rejected before any request is built; a live
/// borrow of the counter's data buffer fails the operation; an account this
/// program already owns needs no request at all.  Otherwise the plan is the
/// create-account request for a fresh eight-byte counter.
pub open spec fn spec_plan_initialize(program_id: Seq<u8>, accounts: Seq<AccountModel>) -> Result<
    Option<CpiDescriptorModel>,
    ProgramError,
> {
    if accounts.len() < 3 {
        Err(ProgramError::NotEnoughAccountKeys)
    } else if !accounts[0].is_signer {
        Err(ProgramError::MissingRequiredSignature)
    } else if accounts[1].key == service_id() {
        Err(ProgramError::InvalidAccountData)
    } else if accounts[1].data_borrowed {
        Err(ProgramError::AccountBorrowFailed)
    } else if accounts[1].owner == program_id {
        Ok(None)
    } else {
        Ok(
            Some(
                spec_create_account_request(
                    accounts[0].key,
                    accounts[1].key,
                    spec_rent_exempt_minimum(COUNTER_LEN as u64),
                    COUNTER_LEN as u64,
                    program_id,
                ),
            ),
        )
    }
}

/// Validate an initialize invocation and build the create-account request
/// it needs, without performing any effect.
///
/// An embedding that runs on a real ledger hands the returned request to
/// the host for one trap into the account-creation service, then finishes
/// with [`write_initial_value`].  `Ok(None)` means the counter account is
/// already owned by this program and nothing is to be done.
pub fn plan_initialize(program_id: &Vec<u8>, accounts: &Vec<Account>) -> (r: Result<
    Option<CpiDescriptor>,
    ProgramError,
>)
    ensures
        spec_plan_initialize(program_id@, views(accounts@)) matches Ok(Some(req)) ==> r matches Ok(
            Some(d),
        ) && d@ == req,
        spec_plan_initialize(program_id@, views(accounts@)) matches Ok(None) ==> r matches Ok(d)
            && d is None,
        spec_plan_initialize(program_id@, views(accounts@)) matches Err(e) ==> r matches Err(e2)
            && e == e2,
{
    let _service = match account_at(accounts, 2) {
        Ok(a) => a,
        Err(e) => { return Err(e) },
    };
    let payer = match account_at(accounts, 0) {
        Ok(a) => a,
        Err(e) => { return Err(e) },
    };
    if !payer.is_signer {
        return Err(ProgramError::MissingRequiredSignature);
    }
    let counter = match account_at(accounts, 1) {
        Ok(a) => a,
        Err(e) => { return Err(e) },
    };
    let sid = service_identity();
    if key_eq(&counter.key, &sid) {
        return Err(ProgramError::InvalidAccountData);
    }
    if counter.data_borrowed {
        return Err(ProgramError::AccountBorrowFailed);
    }
    if key_eq(&counter.owner, program_id) {
        return Ok(None);
    }
    let funding = rent_exempt_minimum(COUNTER_LEN as u64);
    let req = build_create_account_request(
        &payer.key,
        &counter.key,
        funding,
        COUNTER_LEN as u64,
        program_id,
    );
    Ok(Some(req))
}

/// Write the fresh counter's initial value of zero, claiming exclusive
/// access to the account's data buffer.
pub fn write_initial_value(counter: &mut Account) -> (r: Result<(), ProgramError>)
    ensures
        old(counter)@.data_borrowed ==> r == Err::<(), ProgramError>(
            ProgramError::AccountBorrowFailed,
        ) && *final(counter) == *old(counter),
        !old(counter)@.data_borrowed ==> match spec_write_counter(old(counter)@.data, 0) {
            Ok(d) => r is Ok && final(counter)@ == (AccountModel { data: d, ..old(counter)@ }),
            Err(e) => r == Err::<(), ProgramError>(e) && final(counter)@ == old(counter)@,
        },
{
    if counter.data_borrowed {
        return Err(ProgramError::AccountBorrowFailed);
    }
    if let Err(e) = write_counter(&mut counter.data, 0) {
        return Err(e);
    }
    Ok(())
}

/// The initialize transition: the plan's validation, then — when a request
/// was built — the service's documented effect, then the fresh counter set
/// to zero.  An account this program already owns is left exactly as it is.
pub open spec fn spec_initialize(program_id: Seq<u8>, accounts: Seq<AccountModel>) -> Result<
    Seq<AccountModel>,
    ProgramError,
> {
    match spec_plan_initialize(program_id, accounts) {
        Err(e) => Err(e),
        Ok(None) => Ok(accounts),
        Ok(Some(req)) => match spec_apply_create_account(req, accounts[0], accounts[1]) {
            Err(e) => Err(e),
            Ok(pc) => Ok(
                accounts.update(0, pc.0).update(
                    1,
                    AccountModel { data: spec_u64_to_le_bytes(0), ..pc.1 },
                ),
            ),
        },
    }
}

/// Create the counter's backing account if this program does not own it
/// yet, and set the fresh counter to zero.
///
/// `accounts` is the host-supplied list for this invocation: the payer
/// first, the counter account second, the account-creation service third.
/// The service's effect is the in-library model of its documented contract;
/// an embedding on a real ledger performs the trap itself from the plan.
pub fn initialize(program_id: &Vec<u8>, accounts: &mut Vec<Account>) -> (r: Result<
    (),
    ProgramError,
>)
    requires
        program_id@.len() == KEY_LEN,
    ensures
        spec_initialize(program_id@, views(old(accounts)@)) matches Ok(m) ==> r is Ok && views(
            final(accounts)@,
        ) == m,
        spec_initialize(program_id@, views(old(accounts)@)) matches Err(e) ==> r == Err::<
            (),
            ProgramError,
        >(e) && final(accounts)@ == old(accounts)@,
{
    let plan = match plan_initialize(program_id, accounts) {
        Err(e) => { return Err(e) },
        Ok(None) => { return Ok(()) },
        Ok(Some(req)) => req,
    };
    let mut counter = accounts.remove(1);
    let mut payer = accounts.remove(0);
    let applied = apply_create_account(&plan, &mut payer, &mut counter);
    if let Err(e) = applied {
        accounts.insert(0, payer);
        accounts.insert(1, counter);
        proof {
            assert(accounts@ =~= old(accounts)@);
        }
        return Err(e);
    }
    proof {
        lemma_create_account_payload_parses(
            spec_rent_exempt_minimum(COUNTER_LEN as u64),
            COUNTER_LEN as u64,
            program_id@,
        );
    }
    let wrote = write_initial_value(&mut counter);
    if let Err(e) = wrote {
        accounts.insert(0, payer);
        accounts.insert(1, counter);
        return Err(e);
    }
    accounts.insert(0, payer);
    accounts.insert(1, counter);
    proof {
        vstd::bytes::lemma_auto_spec_u64_to_from_le_bytes();
        let m = spec_initialize(program_id@, views(old(accounts)@))->Ok_0;
        assert(counter@.data =~= spec_u64_to_le_bytes(0));
        assert(views(accounts@) =~= m);
    }
    Ok(())
}

/// The whole invocation: decode the instruction bytes, run the one handler
/// they select, and fail with no account mutation otherwise.
pub open spec fn spec_process(
    program_id: Seq<u8>,
    accounts: Seq<AccountModel>,
    instruction_data: Seq<u8>,
) -> Result<Seq<AccountModel>, ProgramError> {
    match spec_decode(instruction_data) {
        Err(e) => Err(e),
        Ok(Operation::Initialize) => spec_initialize(program_id, accounts),
        Ok(Operation::Increment) => spec_increment(program_id, accounts),
    }
}

/// The program's entry: decode and dispatch one invocation.
pub fn process_instruction(
    program_id: &Vec<u8>,
    accounts: &mut Vec<Account>,
    instruction_data: &Vec<u8>,
) -> (r: Result<(), ProgramError>)
    requires
        program_id@.len() == KEY_LEN,
    ensures
        spec_process(program_id@, views(old(accounts)@), instruction_data@) matches Ok(m) ==> r
            is Ok && views(final(accounts)@) == m,
        spec_process(program_id@, views(old(accounts)@), instruction_data@) matches Err(e) ==> r
            == Err::<(), ProgramError>(e) && final(accounts)@ == old(accounts)@,
{
    match decode_instruction(instruction_data) {
        Err(e) => Err(e),
        Ok(Operation::Initialize) => initialize(program_id, accounts),
        Ok(Operation::Increment) => increment(program_id, accounts),
    }
}

} // verus!
