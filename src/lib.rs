//! A two-party rental escrow: a renter locks rent in escrow and the landlord
//! releases it once the lease has run, or withdraws it before the lease starts.

mod contract;
mod ids;
mod laws;
mod store;

pub use contract::{
    cancel_check, end_check, ensure_caller_is_landlord, ensure_caller_is_renter,
    ensure_escrow_leased, ensure_escrow_not_leased, ensure_lease_duration_passed,
    ensure_rent_amount_paid, fresh_escrow, pay_step, released, rent_step, step_outcome,
    terminal_outcome, MyPSP34,
};
pub use ids::{bytes_eq, AccountId, EscrowId};
pub use laws::{
    law_absent_not_found, law_accumulation, law_authorization, law_payment_floor,
    law_single_activation, law_terminal_cleanup, law_time_gate, pay_all, total,
};
pub use store::{lookup, Escrow, EscrowError, EscrowStore};
