//! The funding policy: the minimum balance a record of a given total size
//! must hold, supplied by the ledger's rent configuration.
//!
//! The policy amount is external: the library never computes it itself. It is
//! modelled by the uninterpreted function [`rent_minimum`], and obtained at
//! runtime from the ledger's rent parameters.

use vstd::prelude::*;

use crate::account::MAX_RECORD_DATA;
use crate::account::METADATA_OVERHEAD;

verus! {

/// The minimum funding balance, in lamports, that the ledger demands for a
/// record whose total on-chain size is `total_size` bytes. The amount is
/// policy-defined and external; the library only relies on it being a
/// function of the size that never decreases as the size grows (see
/// [`rent_exempt_minimum`]).
pub uninterp spec fn rent_minimum(total_size: nat) -> u64;

/// Relies on solana's `Rent::minimum_balance` (reached through
/// `anchor_lang`), with the default rent parameters: the amount is computed
/// from the size and the fixed rate constants alone, so it is the same on
/// every call, and it is non-decreasing in the size (the size enters the
/// formula only through the product `(storage_overhead + size) * rate`,
/// which for every size below the bound required here stays far below 2^53
/// and is therefore carried exactly through the floating-point step).
/// The bound on `total` keeps that product from overflowing `u64` inside the
/// callee.
#[verifier::external_body]
pub(crate) fn rent_exempt_minimum(total: usize) -> (amount: u64)
    requires
        total as nat <= METADATA_OVERHEAD as nat + MAX_RECORD_DATA as nat,
    ensures
        amount == rent_minimum(total as nat),
        forall|s: nat| s <= total as nat ==> #[trigger] rent_minimum(s) <= amount,
        forall|s: nat|
            total as nat <= s <= METADATA_OVERHEAD as nat + MAX_RECORD_DATA as nat ==> amount
                <= #[trigger] rent_minimum(s),
{
    anchor_lang::prelude::Rent::default().minimum_balance(total)
}

} // verus!
