//! Read-only queries on the pending claims that a Soroban contract keeps in
//! its persistent storage: one claim by its id, the claims listed for a
//! recipient or a creator page by page, and the settings of the claim window.

pub mod claim;
pub mod laws;
pub mod paging;
pub mod query;
pub mod storage;

pub use claim::{ClaimRecord, ClaimStatus, ClaimWindowConfig, GetClaimResult, PendingClaim};
pub use paging::{PageBuilder, MAX_PAGE_SIZE};
pub use query::{ClaimIndex, WhsperStellar};
