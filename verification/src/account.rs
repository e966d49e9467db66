//! The record type, its structural invariant, and the bounded operations on
//! it: creation and in-place content update.

use vstd::prelude::*;

use crate::rent::rent_exempt_minimum;
use crate::rent::rent_minimum;
use vstd::pervasive::VecAdditionalExecFns;

verus! {

/// Fixed per-record metadata overhead in bytes: an 8-byte account
/// discriminator, a 32-byte authority key, the 8-byte nonce, and the 4-byte
/// length prefix of the data vector.
pub const METADATA_OVERHEAD: u64 = 52;

/// The largest buffer the backing medium will allocate for one record,
/// 10 MiB. Every record's buffer length stays at or below this bound.
pub const MAX_RECORD_DATA: u64 = 10 * 1024 * 1024;

/// Why an operation on a record was refused. Every error is raised before
/// any mutation: a failed operation leaves the record and all balances
/// unchanged.
#[derive(Clone, Copy, Debug, PartialEq, Eq, Structural)]
pub enum ErrorCode {
    /// The new content does not fit in the buffer's current capacity.
    DataTooLarge,
    /// The authority cannot cover the funding deficit of a growth resize.
    InsufficientFunds,
    /// The caller is not the record's authority.
    Unauthorized,
}

/// A single owner-scoped storage record.
///
/// `data.len()` is the record's capacity: there is no separate capacity
/// field. `lamports` is the funding balance held against the record; the
/// invariant [`rent_funded`] ties it to the record's total size.
#[derive(Debug)]
pub struct PDAAccount {
    /// Identity of the only principal allowed to mutate the record.
    /// Fixed at creation.
    pub authority: u64,
    /// Opaque value chosen at creation; together with `authority` it derives
    /// the record's storage identity. Fixed at creation.
    pub nonce: u64,
    /// The record's content. Its length is the record's capacity.
    pub data: Vec<u8>,
    /// The funding balance backing the record's storage.
    pub lamports: u64,
}

/// The record's total on-chain size: metadata overhead plus buffer length.
pub open spec fn total_size(data_len: nat) -> nat {
    METADATA_OVERHEAD as nat + data_len
}

/// The record's buffer fits within the backing medium's allocation limit.
pub open spec fn within_size_limit(acc: PDAAccount) -> bool {
    acc.data@.len() <= MAX_RECORD_DATA
}

/// The funding invariant: the record's balance covers the minimum the
/// funding policy demands for its current total size. Every operation of
/// this library preserves it.
pub open spec fn rent_funded(acc: PDAAccount) -> bool {
    acc.lamports >= rent_minimum(total_size(acc.data@.len()))
}

/// The two records agree in every observable field.
pub open spec fn unchanged(a: PDAAccount, b: PDAAccount) -> bool {
    &&& a.authority == b.authority
    &&& a.nonce == b.nonce
    &&& a.data@ == b.data@
    &&& a.lamports == b.lamports
}

/// Allocates a new record owned by `authority`, with `message` as its
/// initial content, charging the payer exactly the policy minimum for the
/// record's initial size. Fails with `InsufficientFunds`, charging nothing,
/// when the payer cannot cover that minimum.
pub fn create_account(authority: u64, nonce: u64, message: Vec<u8>, payer_lamports: &mut u64) -> (result: Result<
    PDAAccount,
    ErrorCode,
>)
    requires
        message@.len() <= MAX_RECORD_DATA,
    ensures
        result matches Ok(_) <==> *old(payer_lamports) >= rent_minimum(
            total_size(message@.len()),
        ),
        result matches Ok(acc) ==> {
            &&& acc.authority == authority
            &&& acc.nonce == nonce
            &&& acc.data@ == message@
            &&& acc.lamports == rent_minimum(total_size(message@.len()))
            &&& *final(payer_lamports) + acc.lamports == *old(payer_lamports)
            &&& rent_funded(acc)
            &&& within_size_limit(acc)
        },
        result matches Err(e) ==> e == ErrorCode::InsufficientFunds && *final(payer_lamports)
            == *old(payer_lamports),
{
    let total: usize = METADATA_OVERHEAD as usize + message.len();
    let required = rent_exempt_minimum(total);
    if *payer_lamports < required {
        return Err(ErrorCode::InsufficientFunds);
    }
    *payer_lamports = *payer_lamports - required;
    Ok(PDAAccount { authority, nonce, data: message, lamports: required })
}

/// Overwrites the first `new_message.len()` bytes of the record's buffer
/// with `new_message`, leaving the remaining bytes and the capacity as they
/// were. Content never grows the buffer: content longer than the current
/// capacity is refused with `DataTooLarge`, and a caller other than the
/// record's authority is refused with `Unauthorized`; either failure leaves
/// the record untouched. No funds move: the record's total size, and with it
/// the policy minimum, is unchanged.
pub fn update_data(pda: &mut PDAAccount, caller: u64, new_message: Vec<u8>) -> (result: Result<
    (),
    ErrorCode,
>)
    ensures
        result == Err::<(), ErrorCode>(ErrorCode::Unauthorized) <==> caller != old(pda).authority,
        result == Err::<(), ErrorCode>(ErrorCode::DataTooLarge) <==> caller == old(pda).authority
            && new_message@.len() > old(pda).data@.len(),
        result matches Ok(_) <==> caller == old(pda).authority && new_message@.len() <= old(
            pda,
        ).data@.len(),
        result matches Err(_) ==> unchanged(*final(pda), *old(pda)),
        final(pda).authority == old(pda).authority,
        final(pda).nonce == old(pda).nonce,
        final(pda).lamports == old(pda).lamports,
        final(pda).data@.len() == old(pda).data@.len(),
        result matches Ok(_) ==> {
            &&& forall|i: int|
                0 <= i < new_message@.len() ==> final(pda).data@[i] == new_message@[i]
            &&& forall|i: int|
                new_message@.len() <= i < old(pda).data@.len() ==> final(pda).data@[i] == old(
                    pda,
                ).data@[i]
        },
        rent_funded(*old(pda)) ==> rent_funded(*final(pda)),
{
    if caller != pda.authority {
        return Err(ErrorCode::Unauthorized);
    }
    if new_message.len() > pda.data.len() {
        return Err(ErrorCode::DataTooLarge);
    }
    let mut i: usize = 0;
    while i < new_message.len()
        invariant
            new_message@.len() <= pda.data@.len(),
            i <= new_message@.len(),
            pda.data@.len() == old(pda).data@.len(),
            pda.authority == old(pda).authority,
            pda.nonce == old(pda).nonce,
            pda.lamports == old(pda).lamports,
            forall|j: int| 0 <= j < i ==> pda.data@[j] == new_message@[j],
            forall|j: int| i <= j < pda.data@.len() ==> pda.data@[j] == old(pda).data@[j],
        decreases new_message@.len() - i,
    {
        pda.data.set(i, new_message[i]);
        i = i + 1;
    }
    Ok(())
}

} // verus!
