//! Cross-program invocation request builder.
//!
//! To create the counter's backing account, the program asks an external,
//! well-known account-creation service for a new account of exactly eight
//! bytes, funded with the minimum balance the host requires to retain an
//! account of that size, and owned by this program.  The request is a plain
//! binary descriptor in the service's documented calling convention: a
//! 4-byte sub-operation tag (`0` is create-account), an 8-byte little-endian
//! funding amount, an 8-byte little-endian size, and the 32-byte owner
//! identity, followed by the two referenced accounts (payer, counter), each
//! writable and signing.  The descriptor is built, handed to the host for
//! one trap, and discarded; it is never persisted.

use vstd::bytes::spec_u64_to_le_bytes;
use vstd::bytes::u64_to_le_bytes;
use vstd::prelude::*;

use crate::account::copy_bytes;
use crate::account::zeroed_bytes;
use crate::account::KEY_LEN;

verus! {

/// Largest account data length the host permits (10 MiB).
pub const MAX_ACCOUNT_DATA_LEN: u64 = 10 * 1024 * 1024;

/// Length in bytes of a create-account request payload: a 4-byte tag, the
/// 8-byte funding amount, the 8-byte size, and the 32-byte owner identity.
pub const CREATE_ACCOUNT_PAYLOAD_LEN: usize = 52;

/// The account-creation service's well-known identity: the all-zero key.
pub open spec fn service_id() -> Seq<u8> {
    Seq::new(KEY_LEN as nat, |i: int| 0u8)
}

/// The account-creation service's well-known identity, as a buffer.
pub fn service_identity() -> (r: Vec<u8>)
    ensures
        r@ == service_id(),
{
    zeroed_bytes(KEY_LEN)
}

/// The minimum balance the host requires to retain an account with
/// `data_len` bytes of data indefinitely.
pub open spec fn spec_rent_exempt_minimum(data_len: u64) -> u64 {
    ((128 + data_len) * 6960) as u64
}

/// Relies on `solana_program::rent::Rent`: with the default rent
/// configuration, `minimum_balance(data_len)` takes the integer path and
/// returns `(128 + data_len) * 6960` lamports; it panics only when
/// `data_len` exceeds the maximum permitted account data length.
#[verifier::external_body]
pub(crate) fn rent_exempt_minimum(data_len: u64) -> (r: u64)
    requires
        data_len <= MAX_ACCOUNT_DATA_LEN,
    ensures
        r == spec_rent_exempt_minimum(data_len),
{
    solana_program::rent::Rent::default().minimum_balance(data_len as usize)
}

/// One account referenced by a request: its key and the access the callee
/// is granted.
pub struct CpiAccountMeta {
    pub key: Vec<u8>,
    pub is_writable: bool,
    pub is_signer: bool,
}

/// The mathematical value of a [`CpiAccountMeta`].
#[verifier::ext_equal]
pub ghost struct CpiAccountMetaModel {
    pub key: Seq<u8>,
    pub is_writable: bool,
    pub is_signer: bool,
}

impl View for CpiAccountMeta {
    type V = CpiAccountMetaModel;

    open spec fn view(&self) -> CpiAccountMetaModel {
        CpiAccountMetaModel { key: self.key@, is_writable: self.is_writable, is_signer: self.is_signer }
    }
}

/// A transient request to execute another on-ledger program: the target
/// program's identity, the ordered accounts handed to it, and the raw
/// instruction payload.
pub struct CpiDescriptor {
    pub program_id: Vec<u8>,
    pub accounts: Vec<CpiAccountMeta>,
    pub data: Vec<u8>,
}

/// The mathematical value of a [`CpiDescriptor`].
#[verifier::ext_equal]
pub ghost struct CpiDescriptorModel {
    pub program_id: Seq<u8>,
    pub accounts: Seq<CpiAccountMetaModel>,
    pub data: Seq<u8>,
}

impl View for CpiDescriptor {
    type V = CpiDescriptorModel;

    open spec fn view(&self) -> CpiDescriptorModel {
        CpiDescriptorModel {
            program_id: self.program_id@,
            accounts: self.accounts@.map_values(|m: CpiAccountMeta| m@),
            data: self.data@,
        }
    }
}

/// The create-account payload: tag `0`, funding, size, owner, in that
/// order, with the documented widths and byte order.
pub open spec fn spec_create_account_payload(funding: u64, size: u64, owner: Seq<u8>) -> Seq<
    u8,
> {
    seq![0u8, 0u8, 0u8, 0u8] + spec_u64_to_le_bytes(funding) + spec_u64_to_le_bytes(size) + owner
}

/// The full create-account request: addressed to the service, referencing
/// payer and counter, both writable and signing, with the payload above.
pub open spec fn spec_create_account_request(
    payer_key: Seq<u8>,
    counter_key: Seq<u8>,
    funding: u64,
    size: u64,
    owner: Seq<u8>,
) -> CpiDescriptorModel {
    CpiDescriptorModel {
        program_id: service_id(),
        accounts: seq![
            CpiAccountMetaModel { key: payer_key, is_writable: true, is_signer: true },
            CpiAccountMetaModel { key: counter_key, is_writable: true, is_signer: true },
        ],
        data: spec_create_account_payload(funding, size, owner),
    }
}

/// Assemble the create-account request for the service, bit-for-bit in its
/// documented calling convention.
pub fn build_create_account_request(
    payer_key: &Vec<u8>,
    counter_key: &Vec<u8>,
    funding: u64,
    size: u64,
    owner: &Vec<u8>,
) -> (r: CpiDescriptor)
    ensures
        r@ == spec_create_account_request(payer_key@, counter_key@, funding, size, owner@),
{
    let mut data: Vec<u8> = Vec::new();
    data.push(0);
    data.push(0);
    data.push(0);
    data.push(0);
    let mut funding_bytes = u64_to_le_bytes(funding);
    data.append(&mut funding_bytes);
    let mut size_bytes = u64_to_le_bytes(size);
    data.append(&mut size_bytes);
    let mut owner_bytes = copy_bytes(owner);
    data.append(&mut owner_bytes);
    let mut accounts: Vec<CpiAccountMeta> = Vec::new();
    accounts.push(
        CpiAccountMeta { key: copy_bytes(payer_key), is_writable: true, is_signer: true },
    );
    accounts.push(
        CpiAccountMeta { key: copy_bytes(counter_key), is_writable: true, is_signer: true },
    );
    let r = CpiDescriptor { program_id: service_identity(), accounts, data };
    proof {
        assert(r@.data =~= spec_create_account_payload(funding, size, owner@));
        assert(r@.accounts =~= spec_create_account_request(
            payer_key@,
            counter_key@,
            funding,
            size,
            owner@,
        ).accounts);
        assert(r@ =~= spec_create_account_request(payer_key@, counter_key@, funding, size, owner@));
    }
    r
}

} // verus!
