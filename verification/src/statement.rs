//! Builders for the upsert statement text.
//!
//! Two shapes are produced, both against a three-column index table
//! (indexed key, account key, slot): a single-row upsert, and a bulk upsert
//! that inserts exactly `batch_size` rows with parameters laid out row-major,
//! row `j` (0-indexed) taking positions `3j+1, 3j+2, 3j+3`. Both carry the
//! same conflict rule: on a conflicting (indexed key, account key) pair the
//! stored slot is replaced only when it is smaller than the incoming one,
//! which is what keeps persisted slots from regressing under out-of-order
//! delivery.

use crate::engine::SimplePostgresClient;
use crate::AccountsDbPluginPostgresConfig;
use vstd::prelude::*;
use vstd::string::StringExecFns;

verus! {

/// Decimal digit character for a value below ten.
pub open spec fn spec_digit(d: nat) -> char {
    if d == 0 {
        '0'
    } else if d == 1 {
        '1'
    } else if d == 2 {
        '2'
    } else if d == 3 {
        '3'
    } else if d == 4 {
        '4'
    } else if d == 5 {
        '5'
    } else if d == 6 {
        '6'
    } else if d == 7 {
        '7'
    } else if d == 8 {
        '8'
    } else {
        '9'
    }
}

/// Decimal rendering of `n`, most significant digit first, no leading zeros
/// (a single `'0'` for zero).
pub open spec fn spec_decimal(n: nat) -> Seq<char>
    decreases n,
{
    if n < 10 {
        seq![spec_digit(n)]
    } else {
        spec_decimal(n / 10).push(spec_digit(n % 10))
    }
}

fn digit_str(d: usize) -> (s: &'static str)
    requires
        d < 10,
    ensures
        s@ == seq![spec_digit(d as nat)],
{
    proof {
        reveal_strlit("0");
        reveal_strlit("1");
        reveal_strlit("2");
        reveal_strlit("3");
        reveal_strlit("4");
        reveal_strlit("5");
        reveal_strlit("6");
        reveal_strlit("7");
        reveal_strlit("8");
        reveal_strlit("9");
    }
    match d {
        0 => "0",
        1 => "1",
        2 => "2",
        3 => "3",
        4 => "4",
        5 => "5",
        6 => "6",
        7 => "7",
        8 => "8",
        _ => "9",
    }
}

/// Appends the decimal rendering of `n` to `out`.
fn append_decimal(out: &mut String, n: usize)
    ensures
        final(out)@ == old(out)@ + spec_decimal(n as nat),
    decreases n,
{
    if n >= 10 {
        append_decimal(out, n / 10);
    }
    let d = digit_str(n % 10);
    let ghost before_digit = out@;
    out.append(d);
    proof {
        if n >= 10 {
            assert(before_digit == old(out)@ + spec_decimal(n as nat / 10));
            assert(out@ =~= old(out)@ + spec_decimal(n as nat));
        } else {
            assert(out@ =~= old(out)@ + spec_decimal(n as nat));
        }
    }
}

/// One parenthesized value tuple of the bulk statement: row `j` takes the
/// parameter positions `3j+1`, `3j+2`, `3j+3`.
pub open spec fn spec_value_tuple(j: nat) -> Seq<char> {
    "($"@ + spec_decimal(3 * j + 1) + ", $"@ + spec_decimal(3 * j + 2) + ", $"@ + spec_decimal(
        3 * j + 3,
    ) + ")"@
}

/// The value tuples of a bulk statement over `count` rows, in row order,
/// each preceded by the separator the statement text uses.
pub open spec fn spec_value_tuples(count: nat) -> Seq<char>
    decreases count,
{
    if count == 0 {
        Seq::empty()
    } else if count == 1 {
        " "@ + spec_value_tuple(0)
    } else {
        spec_value_tuples((count - 1) as nat) + ", "@ + spec_value_tuple((count - 1) as nat)
    }
}

/// The full bulk upsert statement over `batch` rows against `table`, whose
/// indexed-key column is `col`.
pub open spec fn spec_bulk_upsert_sql(table: Seq<char>, col: Seq<char>, batch: nat) -> Seq<char> {
    "INSERT INTO "@ + table + " AS index ("@ + col + ", account_key, slot) VALUES"@
        + spec_value_tuples(batch) + " ON CONFLICT ("@ + col
        + ", account_key) DO UPDATE SET slot=excluded.slot where index.slot < excluded.slot"@
}

/// The single-row upsert statement for the owner index.
pub open spec fn spec_single_token_owner_index_upsert_sql() -> Seq<char> {
    "INSERT INTO spl_token_owner_index AS owner_index (owner_key, account_key, slot) VALUES ($1, $2, $3) ON CONFLICT (owner_key, account_key) DO UPDATE SET slot=excluded.slot WHERE owner_index.slot < excluded.slot"@
}

/// The single-row upsert statement for the mint index.
pub open spec fn spec_single_token_mint_index_upsert_sql() -> Seq<char> {
    "INSERT INTO spl_token_mint_index AS mint_index (mint_key, account_key, slot) VALUES ($1, $2, $3) ON CONFLICT (mint_key, account_key) DO UPDATE SET slot=excluded.slot WHERE mint_index.slot < excluded.slot"@
}

fn append_value_tuple(out: &mut String, j: usize)
    requires
        3 * j + 3 <= usize::MAX,
    ensures
        final(out)@ == old(out)@ + spec_value_tuple(j as nat),
{
    out.append("($");
    append_decimal(out, 3 * j + 1);
    out.append(", $");
    append_decimal(out, 3 * j + 2);
    out.append(", $");
    append_decimal(out, 3 * j + 3);
    out.append(")");
    proof {
        assert(out@ =~= old(out)@ + spec_value_tuple(j as nat));
    }
}

impl SimplePostgresClient {
    /// Text of the single-row upsert statement for the owner index. The
    /// conflict rule replaces the stored slot only when it is smaller than
    /// the incoming one.
    pub fn build_single_token_owner_index_upsert_statement() -> (s: &'static str)
        ensures
            s@ == spec_single_token_owner_index_upsert_sql(),
    {
        "INSERT INTO spl_token_owner_index AS owner_index (owner_key, account_key, slot) VALUES ($1, $2, $3) ON CONFLICT (owner_key, account_key) DO UPDATE SET slot=excluded.slot WHERE owner_index.slot < excluded.slot"
    }

    /// Text of the single-row upsert statement for the mint index.
    pub fn build_single_token_mint_index_upsert_statement() -> (s: &'static str)
        ensures
            s@ == spec_single_token_mint_index_upsert_sql(),
    {
        "INSERT INTO spl_token_mint_index AS mint_index (mint_key, account_key, slot) VALUES ($1, $2, $3) ON CONFLICT (mint_key, account_key) DO UPDATE SET slot=excluded.slot WHERE mint_index.slot < excluded.slot"
    }

    /// Text of the bulk upsert statement: exactly `batch_size` value tuples
    /// with row-major parameter positions, then the conflict rule that keeps
    /// persisted slots from regressing.
    pub fn build_bulk_token_index_insert_statement_common(
        table: &str,
        source_key_name: &str,
        config: &AccountsDbPluginPostgresConfig,
    ) -> (s: String)
        requires
            1 <= config.spec_effective_batch_size(),
            3 * config.spec_effective_batch_size() + 3 <= usize::MAX,
        ensures
            s@ == spec_bulk_upsert_sql(
                table@,
                source_key_name@,
                config.spec_effective_batch_size() as nat,
            ),
    {
        let batch_size = config.effective_batch_size();
        let mut stmt = String::new();
        stmt.append("INSERT INTO ");
        stmt.append(table);
        stmt.append(" AS index (");
        stmt.append(source_key_name);
        stmt.append(", account_key, slot) VALUES");
        let ghost head = stmt@;
        proof {
            assert(stmt@ =~= head + spec_value_tuples(0));
        }
        let mut j: usize = 0;
        while j < batch_size
            invariant
                j <= batch_size,
                1 <= batch_size,
                3 * batch_size + 3 <= usize::MAX,
                stmt@ == head + spec_value_tuples(j as nat),
            decreases batch_size - j,
        {
            if j == 0 {
                stmt.append(" ");
            } else {
                stmt.append(", ");
            }
            append_value_tuple(&mut stmt, j);
            proof {
                assert(stmt@ =~= head + spec_value_tuples((j + 1) as nat));
            }
            j += 1;
        }
        stmt.append(" ON CONFLICT (");
        stmt.append(source_key_name);
        stmt.append(", account_key) DO UPDATE SET slot=excluded.slot where index.slot < excluded.slot");
        proof {
            assert(stmt@ =~= spec_bulk_upsert_sql(
                table@,
                source_key_name@,
                config.spec_effective_batch_size() as nat,
            ));
        }
        stmt
    }

    /// Text of the bulk upsert statement for the owner index.
    pub fn build_bulk_token_owner_index_insert_statement(
        config: &AccountsDbPluginPostgresConfig,
    ) -> (s: String)
        requires
            1 <= config.spec_effective_batch_size(),
            3 * config.spec_effective_batch_size() + 3 <= usize::MAX,
        ensures
            s@ == spec_bulk_upsert_sql(
                "spl_token_owner_index"@,
                "owner_key"@,
                config.spec_effective_batch_size() as nat,
            ),
    {
        Self::build_bulk_token_index_insert_statement_common(
            "spl_token_owner_index",
            "owner_key",
            config,
        )
    }

    /// Text of the bulk upsert statement for the mint index.
    pub fn build_bulk_token_mint_index_insert_statement(
        config: &AccountsDbPluginPostgresConfig,
    ) -> (s: String)
        requires
            1 <= config.spec_effective_batch_size(),
            3 * config.spec_effective_batch_size() + 3 <= usize::MAX,
        ensures
            s@ == spec_bulk_upsert_sql(
                "spl_token_mint_index"@,
                "mint_key"@,
                config.spec_effective_batch_size() as nat,
            ),
    {
        Self::build_bulk_token_index_insert_statement_common(
            "spl_token_mint_index",
            "mint_key",
            config,
        )
    }
}

} // verus!
