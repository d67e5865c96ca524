//! Token account classifier.
//!
//! Two token-program layouts are recognized, a closed set. Each stores a
//! mint key at offset 0 and an owner key at offset 32 of the account
//! payload. A payload is only unpacked when the account's owning program id
//! matches the variant's program id and the payload passes that variant's
//! length check; everything else is "not applicable", never an error.

use vstd::prelude::*;

verus! {

/// Byte offset of the mint key inside a token account payload.
pub const SPL_TOKEN_ACCOUNT_MINT_OFFSET: usize = 0;

/// Byte offset of the owner key inside a token account payload.
pub const SPL_TOKEN_ACCOUNT_OWNER_OFFSET: usize = 32;

/// Length of a plain token account payload.
pub const SPL_TOKEN_ACCOUNT_LENGTH: usize = 165;

/// Length of a public key in bytes.
pub const PUBKEY_BYTES: usize = 32;

/// Account-type tag that marks an extended payload as a token account.
pub const ACCOUNTTYPE_ACCOUNT: u8 = 2;

/// The two supported token-program layouts.
#[derive(Clone, Copy, Debug)]
pub enum TokenProgramVariant {
    SplToken,
    SplToken2022,
}

/// Program id that owns accounts of the given variant.
pub open spec fn spec_program_id(v: TokenProgramVariant) -> Seq<u8> {
    match v {
        TokenProgramVariant::SplToken => seq![
            6u8, 221, 246, 225, 215, 101, 161, 147, 217, 203, 225, 70, 206, 235, 121, 172, 28,
            180, 133, 237, 95, 91, 55, 145, 58, 140, 245, 133, 126, 255, 0, 169,
        ],
        TokenProgramVariant::SplToken2022 => seq![
            6u8, 221, 246, 225, 238, 117, 143, 222, 24, 66, 93, 188, 228, 108, 205, 218, 182, 26,
            252, 77, 131, 185, 13, 39, 254, 189, 249, 40, 216, 161, 139, 252,
        ],
    }
}

/// The two program ids are distinct, so an account's owning program matches
/// at most one variant.
pub proof fn lemma_program_ids_distinct()
    ensures
        spec_program_id(TokenProgramVariant::SplToken) != spec_program_id(
            TokenProgramVariant::SplToken2022,
        ),
{
    assert(spec_program_id(TokenProgramVariant::SplToken)[4] == 215u8);
    assert(spec_program_id(TokenProgramVariant::SplToken2022)[4] == 238u8);
}

/// Byte-for-byte equality of two byte vectors.
pub fn bytes_equal(a: &Vec<u8>, b: &Vec<u8>) -> (r: bool)
    ensures
        r == (a@ == b@),
{
    if a.len() != b.len() {
        return false;
    }
    let mut i: usize = 0;
    while i < a.len()
        invariant
            i <= a.len(),
            a.len() == b.len(),
            forall|k: int| 0 <= k < i ==> a@[k] == b@[k],
        decreases a.len() - i,
    {
        if a[i] != b[i] {
            return false;
        }
        i += 1;
    }
    proof {
        assert(a@ =~= b@);
    }
    true
}

/// A fresh vector holding the same bytes.
pub fn clone_bytes(a: &Vec<u8>) -> (r: Vec<u8>)
    ensures
        r@ == a@,
{
    let mut r: Vec<u8> = Vec::new();
    let mut i: usize = 0;
    while i < a.len()
        invariant
            i <= a.len(),
            r@ =~= a@.subrange(0, i as int),
        decreases a.len() - i,
    {
        r.push(a[i]);
        i += 1;
    }
    proof {
        assert(r@ =~= a@);
    }
    r
}

impl TokenProgramVariant {
    /// Program id that owns accounts of this variant.
    pub fn program_id(&self) -> (id: Vec<u8>)
        ensures
            id@ == spec_program_id(*self),
    {
        let id: Vec<u8> = match self {
            TokenProgramVariant::SplToken => vec![
                6u8, 221, 246, 225, 215, 101, 161, 147, 217, 203, 225, 70, 206, 235, 121, 172, 28,
                180, 133, 237, 95, 91, 55, 145, 58, 140, 245, 133, 126, 255, 0, 169,
            ],
            TokenProgramVariant::SplToken2022 => vec![
                6u8, 221, 246, 225, 238, 117, 143, 222, 24, 66, 93, 188, 228, 108, 205, 218, 182,
                26, 252, 77, 131, 185, 13, 39, 254, 189, 249, 40, 216, 161, 139, 252,
            ],
        };
        proof {
            assert(id@ =~= spec_program_id(*self));
        }
        id
    }

    /// Whether the payload has this variant's token account shape.
    pub open spec fn spec_valid_account_data(self, data: Seq<u8>) -> bool {
        match self {
            TokenProgramVariant::SplToken => data.len() == SPL_TOKEN_ACCOUNT_LENGTH,
            TokenProgramVariant::SplToken2022 => data.len() == SPL_TOKEN_ACCOUNT_LENGTH || (
            data.len() > SPL_TOKEN_ACCOUNT_LENGTH && data[SPL_TOKEN_ACCOUNT_LENGTH as int]
                == ACCOUNTTYPE_ACCOUNT),
        }
    }

    pub fn valid_account_data(&self, data: &Vec<u8>) -> (r: bool)
        ensures
            r == self.spec_valid_account_data(data@),
    {
        match self {
            TokenProgramVariant::SplToken => data.len() == SPL_TOKEN_ACCOUNT_LENGTH,
            TokenProgramVariant::SplToken2022 => {
                if data.len() == SPL_TOKEN_ACCOUNT_LENGTH {
                    true
                } else if data.len() > SPL_TOKEN_ACCOUNT_LENGTH {
                    data[SPL_TOKEN_ACCOUNT_LENGTH] == ACCOUNTTYPE_ACCOUNT
                } else {
                    false
                }
            },
        }
    }

    /// Key extracted from a valid payload at the given offset, if any.
    pub open spec fn spec_unpack_pubkey(self, data: Seq<u8>, offset: nat) -> Option<Seq<u8>> {
        if self.spec_valid_account_data(data) && data.len() >= offset + PUBKEY_BYTES {
            Some(data.subrange(offset as int, offset + PUBKEY_BYTES))
        } else {
            None
        }
    }

    /// Owner key of a recognized payload.
    pub open spec fn spec_unpack_account_owner(self, data: Seq<u8>) -> Option<Seq<u8>> {
        self.spec_unpack_pubkey(data, SPL_TOKEN_ACCOUNT_OWNER_OFFSET as nat)
    }

    /// Mint key of a recognized payload.
    pub open spec fn spec_unpack_account_mint(self, data: Seq<u8>) -> Option<Seq<u8>> {
        self.spec_unpack_pubkey(data, SPL_TOKEN_ACCOUNT_MINT_OFFSET as nat)
    }

    fn unpack_pubkey(&self, data: &Vec<u8>, offset: usize) -> (r: Option<Vec<u8>>)
        requires
            offset <= usize::MAX - PUBKEY_BYTES,
        ensures
            r is Some <==> self.spec_unpack_pubkey(data@, offset as nat) is Some,
            r matches Some(key) ==> Some(key@) == self.spec_unpack_pubkey(data@, offset as nat),
    {
        if !self.valid_account_data(data) {
            return None;
        }
        if data.len() < offset + PUBKEY_BYTES {
            return None;
        }
        let mut key: Vec<u8> = Vec::new();
        let mut i: usize = 0;
        while i < PUBKEY_BYTES
            invariant
                i <= PUBKEY_BYTES,
                offset <= usize::MAX - PUBKEY_BYTES,
                offset + PUBKEY_BYTES <= data@.len(),
                key@ =~= data@.subrange(offset as int, offset + i),
            decreases PUBKEY_BYTES - i,
        {
            key.push(data[offset + i]);
            i += 1;
        }
        proof {
            assert(key@ =~= data@.subrange(offset as int, offset + PUBKEY_BYTES));
        }
        Some(key)
    }

    /// Owner key of the payload, when this variant recognizes it.
    pub fn unpack_account_owner(&self, data: &Vec<u8>) -> (r: Option<Vec<u8>>)
        ensures
            r is Some <==> self.spec_unpack_account_owner(data@) is Some,
            r matches Some(key) ==> Some(key@) == self.spec_unpack_account_owner(data@),
    {
        self.unpack_pubkey(data, SPL_TOKEN_ACCOUNT_OWNER_OFFSET)
    }

    /// Mint key of the payload, when this variant recognizes it.
    pub fn unpack_account_mint(&self, data: &Vec<u8>) -> (r: Option<Vec<u8>>)
        ensures
            r is Some <==> self.spec_unpack_account_mint(data@) is Some,
            r matches Some(key) ==> Some(key@) == self.spec_unpack_account_mint(data@),
    {
        self.unpack_pubkey(data, SPL_TOKEN_ACCOUNT_MINT_OFFSET)
    }
}

/// A payload shorter than the plain token account layout is never
/// recognized by either variant: both extractions are not applicable.
pub proof fn lemma_short_payload_not_applicable(v: TokenProgramVariant, data: Seq<u8>)
    requires
        data.len() < SPL_TOKEN_ACCOUNT_LENGTH,
    ensures
        v.spec_unpack_account_owner(data) is None,
        v.spec_unpack_account_mint(data) is None,
{
}

} // verus!
