//! Laws of the two operations, proved once and for all over the
//! specification-level transitions.  The handlers' own contracts tie each
//! executable run to these transitions: in particular, on any error the
//! handlers leave the account list byte-for-byte unchanged.

use vstd::arithmetic::div_mod::lemma_add_mod_noop;
use vstd::bytes::spec_u64_from_le_bytes;
use vstd::prelude::*;

use crate::account::AccountModel;
use crate::account::KEY_LEN;
use crate::codec::spec_read_counter;
use crate::codec::COUNTER_LEN;
use crate::cpi::service_id;
use crate::cpi::spec_rent_exempt_minimum;
use crate::handlers::spec_increment;
use crate::handlers::spec_initialize;
use crate::handlers::spec_plan_initialize;
use crate::handlers::spec_process;
use crate::service::lemma_create_account_payload_parses;
use crate::ProgramError;

verus! {

/// Initializing a fresh account succeeds and leaves the counter at zero,
/// owned by this program.
///
/// A well-formed invocation on a fresh account supplies at least the three
/// accounts, a signing payer able to fund the request, and a counter
/// account that holds no balance and no data yet, is not the service
/// itself, and is not owned by this program.
pub proof fn lemma_initialize_fresh_account(program_id: Seq<u8>, accounts: Seq<AccountModel>)
    requires
        program_id.len() == KEY_LEN,
        accounts.len() >= 3,
        accounts[0].wf(),
        accounts[1].wf(),
        accounts[0].is_signer,
        accounts[0].lamports >= spec_rent_exempt_minimum(COUNTER_LEN as u64),
        accounts[1].key != service_id(),
        !accounts[1].data_borrowed,
        accounts[1].owner != program_id,
        accounts[1].lamports == 0,
        accounts[1].data.len() == 0,
    ensures
        spec_initialize(program_id, accounts) matches Ok(m) && m.len() == accounts.len()
            && m[1].owner == program_id && spec_read_counter(m[1].data) == Ok::<u64, ProgramError>(
            0,
        ),
{
    lemma_create_account_payload_parses(
        spec_rent_exempt_minimum(COUNTER_LEN as u64),
        COUNTER_LEN as u64,
        program_id,
    );
    vstd::bytes::lemma_auto_spec_u64_to_from_le_bytes();
}

/// Running `n` increments in a row from a ready counter succeeds, and the
/// final value is the starting value plus `n`, modulo `2^64`.
pub open spec fn spec_increment_n(
    program_id: Seq<u8>,
    accounts: Seq<AccountModel>,
    n: nat,
) -> Result<Seq<AccountModel>, ProgramError>
    decreases n,
{
    if n == 0 {
        Ok(accounts)
    } else {
        match spec_increment_n(program_id, accounts, (n - 1) as nat) {
            Err(e) => Err(e),
            Ok(m) => spec_increment(program_id, m),
        }
    }
}

/// A sequence of `n` increment invocations on a counter owned by this
/// program, with a signing payer, all succeed, and the stored value ends at
/// the starting value plus `n`, modulo `2^64`, under the wraparound policy.
/// Nothing but the counter's data buffer changes along the way.
pub proof fn lemma_increment_sequence(program_id: Seq<u8>, accounts: Seq<AccountModel>, n: nat)
    requires
        accounts.len() >= 2,
        accounts[1].is_signer,
        accounts[0].owner == program_id,
        !accounts[0].data_borrowed,
        accounts[0].data.len() == COUNTER_LEN,
    ensures
        spec_increment_n(program_id, accounts, n) matches Ok(m) && m.len() == accounts.len()
            && m[0].owner == program_id && !m[0].data_borrowed && m[0].data.len() == COUNTER_LEN
            && spec_u64_from_le_bytes(m[0].data) == (spec_u64_from_le_bytes(accounts[0].data) + n)
            % 0x10000000000000000 && (forall|i: int|
            1 <= i < accounts.len() ==> m[i] == accounts[i]),
    decreases n,
{
    vstd::bytes::lemma_auto_spec_u64_to_from_le_bytes();
    if n == 0 {
    } else {
        lemma_increment_sequence(program_id, accounts, (n - 1) as nat);
        let m = spec_increment_n(program_id, accounts, (n - 1) as nat)->Ok_0;
        let v0 = spec_u64_from_le_bytes(accounts[0].data) as int;
        let v = spec_u64_from_le_bytes(m[0].data) as int;
        lemma_add_mod_noop(v0 + n - 1, 1, 0x10000000000000000);
        assert((v + 1) % 0x10000000000000000 == (v0 + n) % 0x10000000000000000);
    }
}

/// Incrementing an account that this program does not own always fails
/// with `IllegalOwner`; by the handler's contract the account list, the
/// counter's data buffer included, is byte-for-byte unchanged.
pub proof fn lemma_increment_illegal_owner(program_id: Seq<u8>, accounts: Seq<AccountModel>)
    requires
        accounts.len() >= 2,
        accounts[1].is_signer,
        accounts[0].owner != program_id,
    ensures
        spec_increment(program_id, accounts) == Err::<Seq<AccountModel>, ProgramError>(
            ProgramError::IllegalOwner,
        ),
{
}

/// Incrementing a counter buffer whose length is not exactly eight bytes
/// fails with `UninitializedAccount` and performs no write.
pub proof fn lemma_increment_uninitialized(program_id: Seq<u8>, accounts: Seq<AccountModel>)
    requires
        accounts.len() >= 2,
        accounts[1].is_signer,
        accounts[0].owner == program_id,
        !accounts[0].data_borrowed,
        accounts[0].data.len() != COUNTER_LEN,
    ensures
        spec_increment(program_id, accounts) == Err::<Seq<AccountModel>, ProgramError>(
            ProgramError::UninitializedAccount,
        ),
{
}

/// An instruction byte sequence that is empty or carries an unrecognized
/// discriminant fails the whole invocation with `InvalidInstructionData`,
/// whatever the accounts are, and no account is mutated.
pub proof fn lemma_malformed_instruction_rejected(
    program_id: Seq<u8>,
    accounts: Seq<AccountModel>,
    instruction_data: Seq<u8>,
)
    requires
        instruction_data.len() == 0 || (instruction_data[0] != 0u8 && instruction_data[0] != 1u8),
    ensures
        spec_process(program_id, accounts, instruction_data) == Err::<
            Seq<AccountModel>,
            ProgramError,
        >(ProgramError::InvalidInstructionData),
{
}

/// Initializing a counter whose key is the account-creation service's own
/// identity fails with `InvalidAccountData` already at the planning step,
/// before any request is built.
pub proof fn lemma_initialize_service_key_rejected(
    program_id: Seq<u8>,
    accounts: Seq<AccountModel>,
)
    requires
        accounts.len() >= 3,
        accounts[0].is_signer,
        accounts[1].key == service_id(),
    ensures
        spec_plan_initialize(program_id, accounts) == Err::<
            Option<crate::cpi::CpiDescriptorModel>,
            ProgramError,
        >(ProgramError::InvalidAccountData),
        spec_initialize(program_id, accounts) == Err::<Seq<AccountModel>, ProgramError>(
            ProgramError::InvalidAccountData,
        ),
{
}

} // verus!
