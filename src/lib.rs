//! Ledger-resident record contracts (bills, insurance policies, savings
//! goals, remittance splits) and the emergency killswitch that guards
//! mutating operations, each written as a state record whose operations
//! carry verified contracts. The hosting environment authenticates callers,
//! supplies the ledger time, persists the records and publishes the events
//! that operations report.

pub mod address;
pub mod bill_payments;
pub mod insurance;
pub mod killswitch;
pub mod killswitch_laws;
pub mod remittance_split;
pub mod savings_goals;
