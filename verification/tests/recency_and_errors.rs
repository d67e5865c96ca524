use token_index::engine::{DbAccountInfo, SimplePostgresClient, TokenSecondaryIndex};
use token_index::error::IndexError;
use token_index::recency::PersistedIndexTable;
use token_index::token_account::TokenProgramVariant;
use token_index::AccountsDbPluginPostgresConfig;

fn row(indexed_byte: u8, account_byte: u8, slot: i64) -> TokenSecondaryIndex {
    TokenSecondaryIndex {
        owner: vec![indexed_byte; 32],
        account_key: vec![account_byte; 32],
        slot,
    }
}

#[test]
fn later_slot_wins_over_earlier() {
    let mut table = PersistedIndexTable::new();
    table.upsert(row(10, 20, 5));
    table.upsert(row(10, 20, 3));
    let slot = table.slot_for(&vec![10u8; 32], &vec![20u8; 32]);
    assert_eq!(slot, Some(5));
}

#[test]
fn final_slot_is_max_whatever_the_order() {
    let slots = [5i64, 3, 9, 7];
    let orders = [
        [0usize, 1, 2, 3],
        [3, 2, 1, 0],
        [2, 0, 3, 1],
        [1, 3, 0, 2],
    ];
    for order in orders {
        let mut table = PersistedIndexTable::new();
        for i in order {
            table.upsert(row(10, 20, slots[i]));
        }
        assert_eq!(table.slot_for(&vec![10u8; 32], &vec![20u8; 32]), Some(9));
    }
}

#[test]
fn distinct_pairs_are_tracked_separately() {
    let mut table = PersistedIndexTable::new();
    table.upsert(row(10, 20, 5));
    table.upsert(row(10, 21, 2));
    table.upsert(row(11, 20, 8));
    assert_eq!(table.slot_for(&vec![10u8; 32], &vec![20u8; 32]), Some(5));
    assert_eq!(table.slot_for(&vec![10u8; 32], &vec![21u8; 32]), Some(2));
    assert_eq!(table.slot_for(&vec![11u8; 32], &vec![20u8; 32]), Some(8));
    assert_eq!(table.slot_for(&vec![12u8; 32], &vec![20u8; 32]), None);
}

#[test]
fn batch_upsert_applies_rows_in_buffer_order() {
    let mut table = PersistedIndexTable::new();
    let batch = vec![row(10, 20, 4), row(10, 20, 6), row(11, 20, 1)];
    table.upsert_batch(&batch);
    assert_eq!(table.slot_for(&vec![10u8; 32], &vec![20u8; 32]), Some(6));
    assert_eq!(table.slot_for(&vec![11u8; 32], &vec![20u8; 32]), Some(1));
}

fn token_account(pubkey_byte: u8, owner_key_byte: u8, slot: i64) -> DbAccountInfo {
    let mut data = vec![0u8; 165];
    let mut i: usize = 0;
    while i < 32 {
        data[32 + i] = owner_key_byte;
        i += 1;
    }
    DbAccountInfo {
        pubkey: vec![pubkey_byte; 32],
        owner: TokenProgramVariant::SplToken.program_id(),
        data,
        slot,
    }
}

#[test]
fn failed_flush_leaves_an_empty_buffer_and_reports_update_error() {
    let config = AccountsDbPluginPostgresConfig {
        batch_size: Some(2),
        index_token_owner: true,
        index_token_mint: false,
    };
    let mut client = SimplePostgresClient::new(&config);
    client.queue_secondary_indexes(&token_account(1, 11, 1));
    let batches = client.queue_secondary_indexes(&token_account(2, 12, 2));
    let batch = batches.token_owner.expect("batch handed out");
    assert_eq!(batch.len(), 2);

    // The submission of the batch fails with a connectivity error; the rows
    // were already handed out of the buffer and are discarded, and the
    // caller is given an update error.
    let error = IndexError::bulk_update_error("connection closed");
    assert!(matches!(error, IndexError::AccountsUpdateError { .. }));
    assert_eq!(
        error.message().as_str(),
        "Failed to persist the update of account to the PostgreSQL database. \
         Error: connection closed"
    );
    assert_eq!(client.pending_token_owner_index.len(), 0);

    // The next queued row starts an empty buffer: nothing is resurrected.
    let next = client.queue_secondary_indexes(&token_account(3, 13, 3));
    assert!(next.token_owner.is_none());
    assert_eq!(client.pending_token_owner_index.len(), 1);
    assert_eq!(client.pending_token_owner_index[0].owner, vec![13u8; 32]);
}

#[test]
fn schema_error_carries_the_table_name() {
    let error = IndexError::data_schema_error("spl_token_owner_index", "relation does not exist");
    assert!(matches!(error, IndexError::DataSchemaError { .. }));
    assert_eq!(
        error.message().as_str(),
        "Error in preparing for the spl_token_owner_index index update PostgreSQL database: \
         relation does not exist"
    );
}

#[test]
fn single_row_update_errors_name_their_index() {
    let owner = IndexError::owner_update_error("timeout");
    assert_eq!(
        owner.message().as_str(),
        "Failed to update the token owner index to the PostgreSQL database. Error: timeout"
    );
    let mint = IndexError::mint_update_error("timeout");
    assert_eq!(
        mint.message().as_str(),
        "Failed to update the token mint index to the PostgreSQL database. Error: timeout"
    );
}
