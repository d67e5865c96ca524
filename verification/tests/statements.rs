use token_index::engine::SimplePostgresClient;
use token_index::AccountsDbPluginPostgresConfig;

fn config(batch_size: Option<usize>) -> AccountsDbPluginPostgresConfig {
    AccountsDbPluginPostgresConfig { batch_size, index_token_owner: true, index_token_mint: true }
}

#[test]
fn single_owner_statement_text() {
    assert_eq!(
        SimplePostgresClient::build_single_token_owner_index_upsert_statement(),
        "INSERT INTO spl_token_owner_index AS owner_index (owner_key, account_key, slot) \
         VALUES ($1, $2, $3) ON CONFLICT (owner_key, account_key) \
         DO UPDATE SET slot=excluded.slot WHERE owner_index.slot < excluded.slot"
    );
}

#[test]
fn single_mint_statement_text() {
    assert_eq!(
        SimplePostgresClient::build_single_token_mint_index_upsert_statement(),
        "INSERT INTO spl_token_mint_index AS mint_index (mint_key, account_key, slot) \
         VALUES ($1, $2, $3) ON CONFLICT (mint_key, account_key) \
         DO UPDATE SET slot=excluded.slot WHERE mint_index.slot < excluded.slot"
    );
}

#[test]
fn bulk_statement_has_row_major_positions_for_batch_of_4() {
    let sql = SimplePostgresClient::build_bulk_token_owner_index_insert_statement(&config(
        Some(4),
    ));
    assert_eq!(
        sql,
        "INSERT INTO spl_token_owner_index AS index (owner_key, account_key, slot) VALUES \
         ($1, $2, $3), ($4, $5, $6), ($7, $8, $9), ($10, $11, $12) \
         ON CONFLICT (owner_key, account_key) DO UPDATE SET slot=excluded.slot \
         where index.slot < excluded.slot"
    );
}

#[test]
fn bulk_statement_for_batch_of_1() {
    let sql = SimplePostgresClient::build_bulk_token_mint_index_insert_statement(&config(Some(1)));
    assert_eq!(
        sql,
        "INSERT INTO spl_token_mint_index AS index (mint_key, account_key, slot) VALUES \
         ($1, $2, $3) ON CONFLICT (mint_key, account_key) DO UPDATE SET slot=excluded.slot \
         where index.slot < excluded.slot"
    );
}

#[test]
fn bulk_statement_uses_default_batch_size_when_unset() {
    let sql = SimplePostgresClient::build_bulk_token_owner_index_insert_statement(&config(None));
    let tuples = sql.matches("($").count();
    assert_eq!(tuples, 10);
    assert!(sql.contains("($28, $29, $30)"));
    assert!(!sql.contains("($31"));
}

#[test]
fn bulk_statement_common_takes_table_and_column() {
    let sql = SimplePostgresClient::build_bulk_token_index_insert_statement_common(
        "spl_token_mint_index",
        "mint_key",
        &config(Some(2)),
    );
    assert_eq!(
        sql,
        "INSERT INTO spl_token_mint_index AS index (mint_key, account_key, slot) VALUES \
         ($1, $2, $3), ($4, $5, $6) ON CONFLICT (mint_key, account_key) \
         DO UPDATE SET slot=excluded.slot where index.slot < excluded.slot"
    );
}
