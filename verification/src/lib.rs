//! Batched secondary-index writer for token accounts.
//!
//! The library keeps two derived indexes (owner key -> account, mint key ->
//! account) for accounts that follow one of two supported token-program
//! layouts. It classifies raw account payloads, builds parameterized upsert
//! statements whose conflict rule never lets a persisted slot regress, and
//! buffers rows for bulk submission with an exact-size flush. Executing the
//! statements against a live database is the caller's part; everything that
//! decides, derives, formats and buffers lives here.

use vstd::prelude::*;

pub mod engine;
pub mod error;
pub mod recency;
pub mod statement;
pub mod token_account;

verus! {

/// Number of rows inserted by one bulk statement when the configuration
/// leaves `batch_size` unset.
pub const DEFAULT_ACCOUNTS_INSERT_BATCH_SIZE: usize = 10;

/// Configuration for the index writer: how many rows one bulk statement
/// carries, and which of the two secondary indexes are maintained.
pub struct AccountsDbPluginPostgresConfig {
    pub batch_size: Option<usize>,
    pub index_token_owner: bool,
    pub index_token_mint: bool,
}

impl AccountsDbPluginPostgresConfig {
    /// The batch size actually in force: the configured one, or the default.
    pub open spec fn spec_effective_batch_size(&self) -> usize {
        match self.batch_size {
            Some(n) => n,
            None => DEFAULT_ACCOUNTS_INSERT_BATCH_SIZE,
        }
    }

    pub fn effective_batch_size(&self) -> (n: usize)
        ensures
            n == self.spec_effective_batch_size(),
    {
        match self.batch_size {
            Some(n) => n,
            None => DEFAULT_ACCOUNTS_INSERT_BATCH_SIZE,
        }
    }
}

} // verus!
