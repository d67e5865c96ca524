//! Index engine: row derivation, pending buffers, and the exact-size flush.
//!
//! For each account update the engine asks the classifier, for both
//! supported layouts, whether the account yields an owner and/or mint index
//! row, and either buffers the row for bulk submission or hands it out for
//! an immediate single-row upsert. A buffered batch is handed out exactly
//! when a buffer's length reaches the configured batch size; executing the
//! statements is the caller's part, and a handed-out batch is never
//! retained, so a failed execution leaves an empty buffer behind.

use crate::token_account::clone_bytes;
use crate::token_account::lemma_program_ids_distinct;
use crate::token_account::TokenProgramVariant;
use crate::AccountsDbPluginPostgresConfig;
use vstd::prelude::*;

verus! {

/// One account update as delivered by the event source: the account's key,
/// its owning program id, its raw payload, and the slot the state belongs
/// to.
pub struct DbAccountInfo {
    pub pubkey: Vec<u8>,
    pub owner: Vec<u8>,
    pub data: Vec<u8>,
    pub slot: i64,
}

/// Mathematical content of one secondary index row.
pub ghost struct SecondaryIndexRowModel {
    pub indexed_key: Seq<u8>,
    pub account_key: Seq<u8>,
    pub slot: int,
}

/// One row of a secondary index: the indexed key (an owner or mint key,
/// kept in the `owner` field for either index kind), the account it points
/// at, and the slot of the state it was derived from.
pub struct TokenSecondaryIndex {
    pub owner: Vec<u8>,
    pub account_key: Vec<u8>,
    pub slot: i64,
}

impl TokenSecondaryIndex {
    /// A fresh row with the same content.
    pub fn clone_row(&self) -> (r: Self)
        ensures
            r@ == self@,
    {
        TokenSecondaryIndex {
            owner: clone_bytes(&self.owner),
            account_key: clone_bytes(&self.account_key),
            slot: self.slot,
        }
    }
}

impl View for TokenSecondaryIndex {
    type V = SecondaryIndexRowModel;

    open spec fn view(&self) -> SecondaryIndexRowModel {
        SecondaryIndexRowModel {
            indexed_key: self.owner@,
            account_key: self.account_key@,
            slot: self.slot as int,
        }
    }
}

/// The contents of a row buffer, as row models in buffer order.
pub open spec fn rows_view(rows: Seq<TokenSecondaryIndex>) -> Seq<SecondaryIndexRowModel> {
    rows.map_values(|r: TokenSecondaryIndex| r@)
}

/// The sequence a derived row contributes: one row when the classifier
/// applies, none otherwise.
pub open spec fn opt_row_seq(r: Option<SecondaryIndexRowModel>) -> Seq<SecondaryIndexRowModel> {
    match r {
        Some(row) => seq![row],
        None => Seq::empty(),
    }
}

/// The owner index row one variant derives from an update, if the update's
/// owning program is that variant's and the payload is recognized.
pub open spec fn spec_owner_row(v: TokenProgramVariant, account: DbAccountInfo) -> Option<
    SecondaryIndexRowModel,
> {
    if account.owner@ == crate::token_account::spec_program_id(v) {
        match v.spec_unpack_account_owner(account.data@) {
            Some(key) => Some(
                SecondaryIndexRowModel {
                    indexed_key: key,
                    account_key: account.pubkey@,
                    slot: account.slot as int,
                },
            ),
            None => None,
        }
    } else {
        None
    }
}

/// The mint index row one variant derives from an update.
pub open spec fn spec_mint_row(v: TokenProgramVariant, account: DbAccountInfo) -> Option<
    SecondaryIndexRowModel,
> {
    if account.owner@ == crate::token_account::spec_program_id(v) {
        match v.spec_unpack_account_mint(account.data@) {
            Some(key) => Some(
                SecondaryIndexRowModel {
                    indexed_key: key,
                    account_key: account.pubkey@,
                    slot: account.slot as int,
                },
            ),
            None => None,
        }
    } else {
        None
    }
}

/// All owner index rows an update contributes, checking the two variants in
/// their fixed order.
pub open spec fn spec_queued_owner_rows(account: DbAccountInfo) -> Seq<SecondaryIndexRowModel> {
    opt_row_seq(spec_owner_row(TokenProgramVariant::SplToken, account)) + opt_row_seq(
        spec_owner_row(TokenProgramVariant::SplToken2022, account),
    )
}

/// All mint index rows an update contributes.
pub open spec fn spec_queued_mint_rows(account: DbAccountInfo) -> Seq<SecondaryIndexRowModel> {
    opt_row_seq(spec_mint_row(TokenProgramVariant::SplToken, account)) + opt_row_seq(
        spec_mint_row(TokenProgramVariant::SplToken2022, account),
    )
}

/// An update matches at most one of the two program ids, so it contributes
/// at most one row to each index kind.
pub proof fn lemma_queued_rows_at_most_one(account: DbAccountInfo)
    ensures
        spec_queued_owner_rows(account).len() <= 1,
        spec_queued_mint_rows(account).len() <= 1,
{
    lemma_program_ids_distinct();
}

/// An update whose owning program id matches neither supported program
/// contributes no row to either index kind.
pub proof fn lemma_unmatched_program_not_indexed(account: DbAccountInfo)
    requires
        account.owner@ != crate::token_account::spec_program_id(TokenProgramVariant::SplToken),
        account.owner@ != crate::token_account::spec_program_id(
            TokenProgramVariant::SplToken2022,
        ),
    ensures
        spec_queued_owner_rows(account).len() == 0,
        spec_queued_mint_rows(account).len() == 0,
{
}

/// An update whose payload is shorter than the token account layout
/// contributes no row to either index kind, whatever its owning program.
pub proof fn lemma_short_payload_not_indexed(account: DbAccountInfo)
    requires
        account.data@.len() < crate::token_account::SPL_TOKEN_ACCOUNT_LENGTH,
    ensures
        spec_queued_owner_rows(account).len() == 0,
        spec_queued_mint_rows(account).len() == 0,
{
    crate::token_account::lemma_short_payload_not_applicable(
        TokenProgramVariant::SplToken,
        account.data@,
    );
    crate::token_account::lemma_short_payload_not_applicable(
        TokenProgramVariant::SplToken2022,
        account.data@,
    );
}

/// The batches handed out by one buffered-path call: for each index kind,
/// the rows to submit as one bulk statement, when that buffer reached the
/// batch size.
pub struct SecondaryIndexBatches {
    pub token_owner: Option<Vec<TokenSecondaryIndex>>,
    pub token_mint: Option<Vec<TokenSecondaryIndex>>,
}

/// The index engine: configuration and the two pending row buffers.
pub struct SimplePostgresClient {
    pub batch_size: usize,
    pub index_token_owner: bool,
    pub index_token_mint: bool,
    pub pending_token_owner_index: Vec<TokenSecondaryIndex>,
    pub pending_token_mint_index: Vec<TokenSecondaryIndex>,
}

impl SimplePostgresClient {
    /// Well-formedness: the batch size is positive and each buffer has room
    /// for the next row; a buffer reaching the batch size is drained within
    /// the call that filled it.
    pub open spec fn wf(&self) -> bool {
        &&& 1 <= self.batch_size
        &&& self.pending_token_owner_index@.len() < self.batch_size
        &&& self.pending_token_mint_index@.len() < self.batch_size
    }

    /// A fresh engine with empty buffers.
    pub fn new(config: &AccountsDbPluginPostgresConfig) -> (client: Self)
        requires
            1 <= config.spec_effective_batch_size(),
        ensures
            client.wf(),
            client.batch_size == config.spec_effective_batch_size(),
            client.index_token_owner == config.index_token_owner,
            client.index_token_mint == config.index_token_mint,
            client.pending_token_owner_index@.len() == 0,
            client.pending_token_mint_index@.len() == 0,
    {
        SimplePostgresClient {
            batch_size: config.effective_batch_size(),
            index_token_owner: config.index_token_owner,
            index_token_mint: config.index_token_mint,
            pending_token_owner_index: Vec::new(),
            pending_token_mint_index: Vec::new(),
        }
    }

    /// Appends the owner index row one variant derives from the update, if
    /// any.
    fn queue_token_owner_index_generic(
        &mut self,
        variant: TokenProgramVariant,
        account: &DbAccountInfo,
    )
        ensures
            rows_view(final(self).pending_token_owner_index@) == rows_view(
                old(self).pending_token_owner_index@,
            ) + opt_row_seq(spec_owner_row(variant, *account)),
            final(self).pending_token_owner_index@.len() <= old(
                self,
            ).pending_token_owner_index@.len() + 1,
            final(self).pending_token_mint_index == old(self).pending_token_mint_index,
            final(self).batch_size == old(self).batch_size,
            final(self).index_token_owner == old(self).index_token_owner,
            final(self).index_token_mint == old(self).index_token_mint,
    {
        let id = variant.program_id();
        if crate::token_account::bytes_equal(&account.owner, &id) {
            if let Some(owner_key) = variant.unpack_account_owner(&account.data) {
                let pubkey = clone_bytes(&account.pubkey);
                self.pending_token_owner_index.push(
                    TokenSecondaryIndex { owner: owner_key, account_key: pubkey, slot: account.slot },
                );
            }
        }
        proof {
            assert(rows_view(self.pending_token_owner_index@) =~= rows_view(
                old(self).pending_token_owner_index@,
            ) + opt_row_seq(spec_owner_row(variant, *account)));
        }
    }

    /// Appends the mint index row one variant derives from the update, if
    /// any.
    fn queue_token_mint_index_generic(
        &mut self,
        variant: TokenProgramVariant,
        account: &DbAccountInfo,
    )
        ensures
            rows_view(final(self).pending_token_mint_index@) == rows_view(
                old(self).pending_token_mint_index@,
            ) + opt_row_seq(spec_mint_row(variant, *account)),
            final(self).pending_token_mint_index@.len() <= old(self).pending_token_mint_index@.len()
                + 1,
            final(self).pending_token_owner_index == old(self).pending_token_owner_index,
            final(self).batch_size == old(self).batch_size,
            final(self).index_token_owner == old(self).index_token_owner,
            final(self).index_token_mint == old(self).index_token_mint,
    {
        let id = variant.program_id();
        if crate::token_account::bytes_equal(&account.owner, &id) {
            if let Some(mint_key) = variant.unpack_account_mint(&account.data) {
                let pubkey = clone_bytes(&account.pubkey);
                self.pending_token_mint_index.push(
                    TokenSecondaryIndex { owner: mint_key, account_key: pubkey, slot: account.slot },
                );
            }
        }
        proof {
            assert(rows_view(self.pending_token_mint_index@) =~= rows_view(
                old(self).pending_token_mint_index@,
            ) + opt_row_seq(spec_mint_row(variant, *account)));
        }
    }

    /// The exact-size flush: hands the whole buffer out as one batch
    /// precisely when its length equals `batch_size`, leaving the buffer
    /// empty; any other length leaves the buffer untouched and hands out
    /// nothing. A buffer below the batch size is only ever drained by an
    /// explicit clear.
    pub fn bulk_insert_token_index_common(
        batch_size: usize,
        indexes: &mut Vec<TokenSecondaryIndex>,
    ) -> (batch: Option<Vec<TokenSecondaryIndex>>)
        ensures
            old(indexes)@.len() == batch_size ==> {
                &&& batch matches Some(b) && b@ == old(indexes)@
                &&& final(indexes)@.len() == 0
            },
            old(indexes)@.len() != batch_size ==> {
                &&& batch is None
                &&& final(indexes)@ == old(indexes)@
            },
    {
        if indexes.len() == batch_size {
            let mut drained: Vec<TokenSecondaryIndex> = Vec::new();
            core::mem::swap(indexes, &mut drained);
            Some(drained)
        } else {
            None
        }
    }

    /// Flushes the owner buffer exactly when it holds `batch_size` rows;
    /// the returned batch is the caller's to submit, and is not retained.
    pub fn bulk_insert_token_owner_index(&mut self) -> (batch: Option<Vec<TokenSecondaryIndex>>)
        ensures
            final(self).batch_size == old(self).batch_size,
            final(self).index_token_owner == old(self).index_token_owner,
            final(self).index_token_mint == old(self).index_token_mint,
            final(self).pending_token_mint_index == old(self).pending_token_mint_index,
            old(self).pending_token_owner_index@.len() == old(self).batch_size ==> {
                &&& batch matches Some(b) && b@ == old(self).pending_token_owner_index@
                &&& final(self).pending_token_owner_index@.len() == 0
            },
            old(self).pending_token_owner_index@.len() != old(self).batch_size ==> {
                &&& batch is None
                &&& final(self).pending_token_owner_index@ == old(self).pending_token_owner_index@
            },
    {
        Self::bulk_insert_token_index_common(self.batch_size, &mut self.pending_token_owner_index)
    }

    /// Flushes the mint buffer exactly when it holds `batch_size` rows.
    pub fn bulk_insert_token_mint_index(&mut self) -> (batch: Option<Vec<TokenSecondaryIndex>>)
        ensures
            final(self).batch_size == old(self).batch_size,
            final(self).index_token_owner == old(self).index_token_owner,
            final(self).index_token_mint == old(self).index_token_mint,
            final(self).pending_token_owner_index == old(self).pending_token_owner_index,
            old(self).pending_token_mint_index@.len() == old(self).batch_size ==> {
                &&& batch matches Some(b) && b@ == old(self).pending_token_mint_index@
                &&& final(self).pending_token_mint_index@.len() == 0
            },
            old(self).pending_token_mint_index@.len() != old(self).batch_size ==> {
                &&& batch is None
                &&& final(self).pending_token_mint_index@ == old(self).pending_token_mint_index@
            },
    {
        Self::bulk_insert_token_index_common(self.batch_size, &mut self.pending_token_mint_index)
    }

    /// Buffered path: derives the owner and/or mint rows the update
    /// contributes under the enabled index kinds, appends them, and hands
    /// out each buffer as a batch exactly when appending made it reach the
    /// batch size.
    pub fn queue_secondary_indexes(&mut self, account: &DbAccountInfo) -> (batches:
        SecondaryIndexBatches)
        requires
            old(self).wf(),
        ensures
            final(self).wf(),
            final(self).batch_size == old(self).batch_size,
            final(self).index_token_owner == old(self).index_token_owner,
            final(self).index_token_mint == old(self).index_token_mint,
            ({
                let queued = if old(self).index_token_owner {
                    spec_queued_owner_rows(*account)
                } else {
                    Seq::empty()
                };
                let combined = rows_view(old(self).pending_token_owner_index@) + queued;
                if combined.len() == old(self).batch_size {
                    &&& batches.token_owner matches Some(b) && rows_view(b@) == combined
                    &&& final(self).pending_token_owner_index@.len() == 0
                } else {
                    &&& batches.token_owner is None
                    &&& rows_view(final(self).pending_token_owner_index@) == combined
                }
            }),
            ({
                let queued = if old(self).index_token_mint {
                    spec_queued_mint_rows(*account)
                } else {
                    Seq::empty()
                };
                let combined = rows_view(old(self).pending_token_mint_index@) + queued;
                if combined.len() == old(self).batch_size {
                    &&& batches.token_mint matches Some(b) && rows_view(b@) == combined
                    &&& final(self).pending_token_mint_index@.len() == 0
                } else {
                    &&& batches.token_mint is None
                    &&& rows_view(final(self).pending_token_mint_index@) == combined
                }
            }),
    {
        proof {
            lemma_queued_rows_at_most_one(*account);
        }
        let ghost owner_before = rows_view(old(self).pending_token_owner_index@);
        let ghost mint_before = rows_view(old(self).pending_token_mint_index@);
        let token_owner: Option<Vec<TokenSecondaryIndex>>;
        if self.index_token_owner {
            self.queue_token_owner_index_generic(TokenProgramVariant::SplToken, account);
            self.queue_token_owner_index_generic(TokenProgramVariant::SplToken2022, account);
            proof {
                assert(rows_view(self.pending_token_owner_index@) =~= owner_before
                    + spec_queued_owner_rows(*account));
            }
            token_owner = Self::bulk_insert_token_index_common(
                self.batch_size,
                &mut self.pending_token_owner_index,
            );
        } else {
            token_owner = None;
            proof {
                assert(owner_before + Seq::<SecondaryIndexRowModel>::empty() =~= owner_before);
            }
        }
        let token_mint: Option<Vec<TokenSecondaryIndex>>;
        if self.index_token_mint {
            self.queue_token_mint_index_generic(TokenProgramVariant::SplToken, account);
            self.queue_token_mint_index_generic(TokenProgramVariant::SplToken2022, account);
            proof {
                assert(rows_view(self.pending_token_mint_index@) =~= mint_before
                    + spec_queued_mint_rows(*account));
            }
            token_mint = Self::bulk_insert_token_index_common(
                self.batch_size,
                &mut self.pending_token_mint_index,
            );
        } else {
            token_mint = None;
            proof {
                assert(mint_before + Seq::<SecondaryIndexRowModel>::empty() =~= mint_before);
            }
        }
        SecondaryIndexBatches { token_owner, token_mint }
    }

    /// Immediate path, owner index: the parameter row for one single-row
    /// upsert, when one of the two variants recognizes the update.
    pub fn update_token_owner_index(account: &DbAccountInfo) -> (row: Option<TokenSecondaryIndex>)
        ensures
            spec_queued_owner_rows(*account).len() == 0 ==> row is None,
            spec_queued_owner_rows(*account).len() != 0 ==> (row matches Some(r) && r@
                == spec_queued_owner_rows(*account)[0]),
    {
        match Self::update_token_owner_index_generic(TokenProgramVariant::SplToken, account) {
            Some(row) => Some(row),
            None => Self::update_token_owner_index_generic(
                TokenProgramVariant::SplToken2022,
                account,
            ),
        }
    }

    /// Immediate path, mint index.
    pub fn update_token_mint_index(account: &DbAccountInfo) -> (row: Option<TokenSecondaryIndex>)
        ensures
            spec_queued_mint_rows(*account).len() == 0 ==> row is None,
            spec_queued_mint_rows(*account).len() != 0 ==> (row matches Some(r) && r@
                == spec_queued_mint_rows(*account)[0]),
    {
        match Self::update_token_mint_index_generic(TokenProgramVariant::SplToken, account) {
            Some(row) => Some(row),
            None => Self::update_token_mint_index_generic(
                TokenProgramVariant::SplToken2022,
                account,
            ),
        }
    }

    /// The owner index row one variant derives from the update, if any.
    fn update_token_owner_index_generic(
        variant: TokenProgramVariant,
        account: &DbAccountInfo,
    ) -> (row: Option<TokenSecondaryIndex>)
        ensures
            spec_owner_row(variant, *account) is None ==> row is None,
            spec_owner_row(variant, *account) matches Some(m) ==> (row matches Some(r) && r@
                == m),
    {
        let id = variant.program_id();
        if crate::token_account::bytes_equal(&account.owner, &id) {
            if let Some(owner_key) = variant.unpack_account_owner(&account.data) {
                let pubkey = clone_bytes(&account.pubkey);
                return Some(
                    TokenSecondaryIndex { owner: owner_key, account_key: pubkey, slot: account.slot },
                );
            }
        }
        None
    }

    /// The mint index row one variant derives from the update, if any.
    fn update_token_mint_index_generic(
        variant: TokenProgramVariant,
        account: &DbAccountInfo,
    ) -> (row: Option<TokenSecondaryIndex>)
        ensures
            spec_mint_row(variant, *account) is None ==> row is None,
            spec_mint_row(variant, *account) matches Some(m) ==> (row matches Some(r) && r@
                == m),
    {
        let id = variant.program_id();
        if crate::token_account::bytes_equal(&account.owner, &id) {
            if let Some(mint_key) = variant.unpack_account_mint(&account.data) {
                let pubkey = clone_bytes(&account.pubkey);
                return Some(
                    TokenSecondaryIndex { owner: mint_key, account_key: pubkey, slot: account.slot },
                );
            }
        }
        None
    }

    /// Empties both buffers without handing anything out: used when every
    /// buffered row was already persisted through the immediate path, so
    /// the buffered duplicates are redundant. No batch, and so no query,
    /// ever results from a clear.
    pub fn clear_buffered_indexes(&mut self)
        ensures
            final(self).batch_size == old(self).batch_size,
            final(self).index_token_owner == old(self).index_token_owner,
            final(self).index_token_mint == old(self).index_token_mint,
            final(self).pending_token_owner_index@.len() == 0,
            final(self).pending_token_mint_index@.len() == 0,
    {
        self.pending_token_owner_index.clear();
        self.pending_token_mint_index.clear();
    }
}

} // verus!
