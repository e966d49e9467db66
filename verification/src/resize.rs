//! The capacity resizer: changes a record's buffer length while moving
//! exactly the funds the policy minimum demands between the record and its
//! authority, never leaving the record under-funded and never over-charging
//! the authority.

use vstd::prelude::*;

use crate::account::rent_funded;
use crate::account::total_size;
use crate::account::unchanged;
use crate::account::within_size_limit;
use crate::account::ErrorCode;
use crate::account::PDAAccount;
use crate::account::MAX_RECORD_DATA;
use crate::account::METADATA_OVERHEAD;
use crate::rent::rent_exempt_minimum;
use crate::rent::rent_minimum;

verus! {

/// The funds a growth to capacity `new_len` must move from the authority to
/// a record holding `lamports`: the part of the new policy minimum the
/// record does not already hold, and nothing when it holds enough.
pub open spec fn grow_deficit(lamports: int, new_len: nat) -> int {
    if rent_minimum(total_size(new_len)) > lamports {
        rent_minimum(total_size(new_len)) - lamports
    } else {
        0
    }
}

/// The funds a shrink to capacity `new_len` returns from a record holding
/// `lamports` to its authority: everything above the new policy minimum, and
/// nothing when the record holds no more than that.
pub open spec fn shrink_refund(lamports: int, new_len: nat) -> int {
    if lamports > rent_minimum(total_size(new_len)) {
        lamports - rent_minimum(total_size(new_len))
    } else {
        0
    }
}

/// Changes the record's capacity to `new_size` bytes.
///
/// Growth zero-fills the added bytes and first moves the funding deficit
/// from the authority to the record, failing with `InsufficientFunds` and
/// changing nothing when the authority cannot cover it. Shrink truncates
/// the buffer, first returning every lamport above the new policy minimum
/// to the authority; the truncated bytes are lost by design. Resizing to
/// the current capacity moves no funds and changes nothing. A caller other
/// than the record's authority is refused with `Unauthorized` before any
/// mutation. A successful operation keeps the record rent-funded and moves
/// funds only between the record and the authority.
pub fn resize_account(
    pda: &mut PDAAccount,
    caller: u64,
    authority_lamports: &mut u64,
    new_size: u64,
) -> (result: Result<(), ErrorCode>)
    requires
        new_size <= MAX_RECORD_DATA,
        within_size_limit(*old(pda)),
        old(pda).lamports + *old(authority_lamports) <= u64::MAX,
    ensures
        final(pda).authority == old(pda).authority,
        final(pda).nonce == old(pda).nonce,
        result == Err::<(), ErrorCode>(ErrorCode::Unauthorized) <==> caller != old(pda).authority,
        result == Err::<(), ErrorCode>(ErrorCode::InsufficientFunds) <==> caller == old(
            pda,
        ).authority && new_size > old(pda).data@.len() && *old(authority_lamports) < grow_deficit(
            old(pda).lamports as int,
            new_size as nat,
        ),
        result matches Ok(_) <==> caller == old(pda).authority && (new_size > old(
            pda,
        ).data@.len() ==> *old(authority_lamports) >= grow_deficit(
            old(pda).lamports as int,
            new_size as nat,
        )),
        result matches Err(_) ==> unchanged(*final(pda), *old(pda)) && *final(authority_lamports)
            == *old(authority_lamports),
        result matches Ok(_) && new_size > old(pda).data@.len() ==> {
            &&& final(pda).lamports == old(pda).lamports + grow_deficit(
                old(pda).lamports as int,
                new_size as nat,
            )
            &&& *final(authority_lamports) == *old(authority_lamports) - grow_deficit(
                old(pda).lamports as int,
                new_size as nat,
            )
            &&& final(pda).data@.len() == new_size
            &&& forall|i: int|
                0 <= i < old(pda).data@.len() ==> final(pda).data@[i] == old(pda).data@[i]
            &&& forall|i: int|
                old(pda).data@.len() <= i < new_size ==> final(pda).data@[i] == 0u8
        },
        result matches Ok(_) && new_size < old(pda).data@.len() ==> {
            &&& final(pda).lamports == old(pda).lamports - shrink_refund(
                old(pda).lamports as int,
                new_size as nat,
            )
            &&& *final(authority_lamports) == *old(authority_lamports) + shrink_refund(
                old(pda).lamports as int,
                new_size as nat,
            )
            &&& final(pda).data@ == old(pda).data@.subrange(0, new_size as int)
        },
        result matches Ok(_) && new_size == old(pda).data@.len() ==> unchanged(
            *final(pda),
            *old(pda),
        ) && *final(authority_lamports) == *old(authority_lamports),
        result matches Ok(_) ==> final(pda).lamports + *final(authority_lamports) == old(
            pda,
        ).lamports + *old(authority_lamports),
        result matches Ok(_) && rent_funded(*old(pda)) ==> rent_funded(*final(pda)),
        result matches Ok(_) && new_size > old(pda).data@.len() ==> rent_funded(*final(pda)),
        within_size_limit(*final(pda)),
{
    if caller != pda.authority {
        return Err(ErrorCode::Unauthorized);
    }
    let new_len: usize = new_size as usize;
    let new_total: usize = METADATA_OVERHEAD as usize + new_len;
    let new_minimum_balance = rent_exempt_minimum(new_total);
    let old_len = pda.data.len();
    if new_len > old_len {
        let required_lamports = if new_minimum_balance > pda.lamports {
            new_minimum_balance - pda.lamports
        } else {
            0
        };
        if required_lamports > 0 {
            if *authority_lamports < required_lamports {
                return Err(ErrorCode::InsufficientFunds);
            }
            *authority_lamports = *authority_lamports - required_lamports;
            pda.lamports = pda.lamports + required_lamports;
        }
        grow_zeroed(&mut pda.data, new_len);
    } else if new_len < old_len {
        let refund = if pda.lamports > new_minimum_balance {
            pda.lamports - new_minimum_balance
        } else {
            0
        };
        *authority_lamports = *authority_lamports + refund;
        pda.lamports = pda.lamports - refund;
        pda.data.truncate(new_len);
    }
    Ok(())
}

/// Shrinking a record that holds exactly the policy minimum for its current
/// capacity refunds exactly the difference of the old and new policy minima
/// when that difference is positive, and nothing otherwise.
pub proof fn lemma_shrink_refund_from_minimum(old_len: nat, new_len: nat)
    requires
        new_len < old_len,
    ensures
        shrink_refund(rent_minimum(total_size(old_len)) as int, new_len) == if rent_minimum(
            total_size(old_len),
        ) > rent_minimum(total_size(new_len)) {
            rent_minimum(total_size(old_len)) - rent_minimum(total_size(new_len))
        } else {
            0
        },
{
}

/// Funds conservation: growing a record that holds exactly the policy
/// minimum for its capacity and then shrinking it back to that capacity
/// refunds exactly what the growth charged, leaving the record's balance and
/// the authority's balance where they began.
pub proof fn lemma_grow_shrink_round_trip(len0: nat, len1: nat, authority0: int)
    requires
        len0 < len1,
    ensures
        ({
            let lamports0 = rent_minimum(total_size(len0)) as int;
            let deficit = grow_deficit(lamports0, len1);
            let refund = shrink_refund(lamports0 + deficit, len0);
            &&& refund == deficit
            &&& lamports0 + deficit - refund == lamports0
            &&& authority0 - deficit + refund == authority0
        }),
{
}

/// Extends the buffer to `new_len` bytes, keeping every existing byte at its
/// offset and zero-filling the added tail.
fn grow_zeroed(data: &mut Vec<u8>, new_len: usize)
    requires
        old(data)@.len() <= new_len,
    ensures
        final(data)@.len() == new_len,
        forall|i: int| 0 <= i < old(data)@.len() ==> final(data)@[i] == old(data)@[i],
        forall|i: int| old(data)@.len() <= i < new_len ==> final(data)@[i] == 0u8,
{
    while data.len() < new_len
        invariant
            old(data)@.len() <= data@.len() <= new_len,
            forall|i: int| 0 <= i < old(data)@.len() ==> data@[i] == old(data)@[i],
            forall|i: int| old(data)@.len() <= i < data@.len() ==> data@[i] == 0u8,
        decreases new_len - data@.len(),
    {
        data.push(0u8);
    }
}

} // verus!
