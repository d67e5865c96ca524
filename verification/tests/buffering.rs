use token_index::engine::{DbAccountInfo, SimplePostgresClient};
use token_index::token_account::TokenProgramVariant;
use token_index::AccountsDbPluginPostgresConfig;

fn config(batch_size: usize, owner: bool, mint: bool) -> AccountsDbPluginPostgresConfig {
    AccountsDbPluginPostgresConfig {
        batch_size: Some(batch_size),
        index_token_owner: owner,
        index_token_mint: mint,
    }
}

fn token_account(pubkey_byte: u8, owner_key_byte: u8, mint_key_byte: u8, slot: i64) -> DbAccountInfo {
    let mut data = vec![0u8; 165];
    let mut i: usize = 0;
    while i < 32 {
        data[i] = mint_key_byte;
        data[32 + i] = owner_key_byte;
        i += 1;
    }
    DbAccountInfo {
        pubkey: vec![pubkey_byte; 32],
        owner: TokenProgramVariant::SplToken.program_id(),
        data,
        slot,
    }
}

fn plain_account(slot: i64) -> DbAccountInfo {
    DbAccountInfo { pubkey: vec![1u8; 32], owner: vec![5u8; 32], data: vec![0u8; 165], slot }
}

#[test]
fn owner_buffer_flushes_exactly_at_batch_size() {
    // Batch size 2, owner index only: A, then B, then C.
    let mut client = SimplePostgresClient::new(&config(2, true, false));

    let first = client.queue_secondary_indexes(&token_account(1, 11, 21, 5));
    assert!(first.token_owner.is_none());
    assert!(first.token_mint.is_none());
    assert_eq!(client.pending_token_owner_index.len(), 1);

    let second = client.queue_secondary_indexes(&token_account(2, 12, 22, 6));
    let batch = second.token_owner.expect("second update fills the batch");
    assert_eq!(batch.len(), 2);
    assert_eq!(batch[0].owner, vec![11u8; 32]);
    assert_eq!(batch[0].account_key, vec![1u8; 32]);
    assert_eq!(batch[0].slot, 5);
    assert_eq!(batch[1].owner, vec![12u8; 32]);
    assert_eq!(client.pending_token_owner_index.len(), 0);

    let third = client.queue_secondary_indexes(&token_account(3, 13, 23, 7));
    assert!(third.token_owner.is_none());
    assert_eq!(client.pending_token_owner_index.len(), 1);
    assert_eq!(client.pending_token_owner_index[0].owner, vec![13u8; 32]);
}

#[test]
fn mint_buffer_is_untouched_when_disabled() {
    let mut client = SimplePostgresClient::new(&config(1, true, false));
    let batches = client.queue_secondary_indexes(&token_account(1, 11, 21, 5));
    assert!(batches.token_owner.is_some());
    assert!(batches.token_mint.is_none());
    assert_eq!(client.pending_token_mint_index.len(), 0);
}

#[test]
fn mint_rows_carry_the_mint_key() {
    let mut client = SimplePostgresClient::new(&config(1, false, true));
    let batches = client.queue_secondary_indexes(&token_account(9, 11, 21, 8));
    let batch = batches.token_mint.expect("mint batch");
    assert_eq!(batch.len(), 1);
    assert_eq!(batch[0].owner, vec![21u8; 32]);
    assert_eq!(batch[0].account_key, vec![9u8; 32]);
    assert_eq!(batch[0].slot, 8);
}

#[test]
fn unrecognized_account_queues_nothing() {
    let mut client = SimplePostgresClient::new(&config(1, true, true));
    let batches = client.queue_secondary_indexes(&plain_account(4));
    assert!(batches.token_owner.is_none());
    assert!(batches.token_mint.is_none());
    assert_eq!(client.pending_token_owner_index.len(), 0);
    assert_eq!(client.pending_token_mint_index.len(), 0);
}

#[test]
fn bulk_insert_fires_only_on_exact_length() {
    let mut client = SimplePostgresClient::new(&config(3, true, false));
    client.queue_secondary_indexes(&token_account(1, 11, 21, 1));
    client.queue_secondary_indexes(&token_account(2, 12, 22, 2));
    // Two rows buffered, batch size 3: no flush.
    assert!(client.bulk_insert_token_owner_index().is_none());
    assert_eq!(client.pending_token_owner_index.len(), 2);
    assert!(client.bulk_insert_token_mint_index().is_none());
}

#[test]
fn clear_empties_both_buffers_without_a_batch() {
    let mut client = SimplePostgresClient::new(&config(4, true, true));
    client.queue_secondary_indexes(&token_account(1, 11, 21, 1));
    client.queue_secondary_indexes(&token_account(2, 12, 22, 2));
    assert_eq!(client.pending_token_owner_index.len(), 2);
    assert_eq!(client.pending_token_mint_index.len(), 2);
    client.clear_buffered_indexes();
    assert_eq!(client.pending_token_owner_index.len(), 0);
    assert_eq!(client.pending_token_mint_index.len(), 0);
}

#[test]
fn immediate_path_derives_single_rows() {
    let account = token_account(7, 11, 21, 42);
    let owner_row = SimplePostgresClient::update_token_owner_index(&account).expect("owner row");
    assert_eq!(owner_row.owner, vec![11u8; 32]);
    assert_eq!(owner_row.account_key, vec![7u8; 32]);
    assert_eq!(owner_row.slot, 42);
    let mint_row = SimplePostgresClient::update_token_mint_index(&account).expect("mint row");
    assert_eq!(mint_row.owner, vec![21u8; 32]);
    assert!(SimplePostgresClient::update_token_owner_index(&plain_account(1)).is_none());
    assert!(SimplePostgresClient::update_token_mint_index(&plain_account(1)).is_none());
}
