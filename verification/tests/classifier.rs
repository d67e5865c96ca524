use token_index::token_account::TokenProgramVariant;

fn payload(len: usize, mint_byte: u8, owner_byte: u8) -> Vec<u8> {
    let mut data = vec![0u8; len];
    let mut i: usize = 0;
    while i < 32 && i < len {
        data[i] = mint_byte;
        i += 1;
    }
    let mut j: usize = 32;
    while j < 64 && j < len {
        data[j] = owner_byte;
        j += 1;
    }
    data
}

#[test]
fn spl_token_unpacks_owner_and_mint() {
    let v = TokenProgramVariant::SplToken;
    let data = payload(165, 7, 9);
    let owner = v.unpack_account_owner(&data).expect("owner");
    let mint = v.unpack_account_mint(&data).expect("mint");
    assert_eq!(owner, vec![9u8; 32]);
    assert_eq!(mint, vec![7u8; 32]);
}

#[test]
fn short_payload_is_not_applicable() {
    for len in [0usize, 1, 31, 64, 164] {
        let data = payload(len, 7, 9);
        for v in [TokenProgramVariant::SplToken, TokenProgramVariant::SplToken2022] {
            assert!(v.unpack_account_owner(&data).is_none());
            assert!(v.unpack_account_mint(&data).is_none());
        }
    }
}

#[test]
fn spl_token_rejects_lengths_other_than_exact() {
    let v = TokenProgramVariant::SplToken;
    let data = payload(166, 7, 9);
    assert!(v.unpack_account_owner(&data).is_none());
    assert!(v.unpack_account_mint(&data).is_none());
}

#[test]
fn token_2022_accepts_exact_length() {
    let v = TokenProgramVariant::SplToken2022;
    let data = payload(165, 3, 4);
    assert_eq!(v.unpack_account_owner(&data).expect("owner"), vec![4u8; 32]);
}

#[test]
fn token_2022_extension_needs_account_type_byte() {
    let v = TokenProgramVariant::SplToken2022;
    let mut data = payload(200, 3, 4);
    data[165] = 2;
    assert_eq!(v.unpack_account_owner(&data).expect("owner"), vec![4u8; 32]);
    assert_eq!(v.unpack_account_mint(&data).expect("mint"), vec![3u8; 32]);
    data[165] = 1;
    assert!(v.unpack_account_owner(&data).is_none());
    assert!(v.unpack_account_mint(&data).is_none());
}

#[test]
fn program_ids_are_distinct_32_byte_keys() {
    let a = TokenProgramVariant::SplToken.program_id();
    let b = TokenProgramVariant::SplToken2022.program_id();
    assert_eq!(a.len(), 32);
    assert_eq!(b.len(), 32);
    assert_ne!(a, b);
}
