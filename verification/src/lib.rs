//! A ledger-resident registry of need reports: aid requests that carry a
//! funding goal, a mutable lifecycle status, and an append-only audit trail
//! of every change made to them.
//!
//! The registry is a single state value. The hosting environment owns
//! persistence, identity proofs and the ledger clock; it hands each call the
//! acting identity, the outcome of that identity's proof, and the current
//! ledger time, and stores the registry between calls.

pub mod laws;
pub mod queries;
pub mod registry;
pub mod reports;
pub mod types;

pub use registry::NeedReportsContract;
pub use registry::RegistryView;
pub use types::ChangeLog;
pub use types::ChangeLogView;
pub use types::Identity;
pub use types::NeedReport;
pub use types::RegistryError;
pub use types::ReportStats;
pub use types::ReportView;
