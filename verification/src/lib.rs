//! A resizable, rent-funded storage record.
//!
//! Each record owns a variable-length byte buffer whose capacity is backed by
//! a funding balance in lamports. The balance must always cover the
//! rent-exempt minimum for the record's total on-chain size. The core
//! operation is resizing the buffer while moving exactly the right amount of
//! funds between the record and its authority, so that the record is never
//! left under-funded and the authority is never over-charged.

mod account;
mod rent;
mod resize;

pub use account::create_account;
pub use account::rent_funded;
pub use account::total_size;
pub use account::unchanged;
pub use account::update_data;
pub use account::within_size_limit;
pub use account::ErrorCode;
pub use account::PDAAccount;
pub use account::MAX_RECORD_DATA;
pub use account::METADATA_OVERHEAD;
pub use rent::rent_minimum;
pub use resize::grow_deficit;
pub use resize::lemma_grow_shrink_round_trip;
pub use resize::lemma_shrink_refund_from_minimum;
pub use resize::resize_account;
pub use resize::shrink_refund;
