use std::str::FromStr;

use mantis_raydium_client::address::pubkey_from_str;
use mantis_raydium_client::instructions::add_liquidity::{
    make_add_liquidity_instruction, FixedSide, IxUserKeys as AddUserKeys,
    LiquidityAddInstructionParams,
};
use mantis_raydium_client::instructions::remove_liquidity::{
    make_remove_liquidity_instruction, IxUserKeys as RemoveUserKeys,
    RemoveLiquidityInstructionParams,
};
use mantis_raydium_client::pool::{PoolKeys, TokenInfo, VaultInfo};
use solana_program::pubkey::Pubkey;

fn fixture_pool_keys() -> PoolKeys {
    PoolKeys {
        programId: Pubkey::new_unique().to_string(),
        id: Pubkey::new_unique().to_string(),
        mintA: TokenInfo {
            address: Pubkey::new_unique().to_string(),
            decimals: 9,
            symbol: "BASE".to_string(),
        },
        mintB: TokenInfo {
            address: Pubkey::new_unique().to_string(),
            decimals: 6,
            symbol: "QUOTE".to_string(),
        },
        vault: VaultInfo {
            A: Pubkey::new_unique().to_string(),
            B: Pubkey::new_unique().to_string(),
        },
        authority: Pubkey::new_unique().to_string(),
        openOrders: Pubkey::new_unique().to_string(),
        targetOrders: Pubkey::new_unique().to_string(),
        mintLp: TokenInfo {
            address: Pubkey::new_unique().to_string(),
            decimals: 9,
            symbol: "LP".to_string(),
        },
        marketProgramId: Pubkey::new_unique().to_string(),
        marketId: Pubkey::new_unique().to_string(),
        marketAuthority: Pubkey::new_unique().to_string(),
        marketBaseVault: Pubkey::new_unique().to_string(),
        marketQuoteVault: Pubkey::new_unique().to_string(),
        marketBids: Pubkey::new_unique().to_string(),
        marketAsks: Pubkey::new_unique().to_string(),
        marketEventQueue: Pubkey::new_unique().to_string(),
    }
}

fn fixture_remove_user_keys() -> RemoveUserKeys {
    RemoveUserKeys {
        base_token_account: pubkey_from_str(&Pubkey::new_unique().to_string()).unwrap(),
        quote_token_account: pubkey_from_str(&Pubkey::new_unique().to_string()).unwrap(),
        lp_token_account: pubkey_from_str(&Pubkey::new_unique().to_string()).unwrap(),
        owner: pubkey_from_str(&Pubkey::new_unique().to_string()).unwrap(),
    }
}

fn bytes_of(s: &str) -> Vec<u8> {
    Pubkey::from_str(s).unwrap().to_bytes().to_vec()
}

#[test]
fn remove_liquidity_account_list_and_payload() {
    let keys = fixture_pool_keys();
    let user = fixture_remove_user_keys();
    let ix = make_remove_liquidity_instruction(
        &keys,
        &user,
        RemoveLiquidityInstructionParams {
            lp_amount: 5_000_000,
            base_amount_min: 1_234,
            quote_amount_min: 5_678,
        },
    )
    .unwrap();

    // payload: 1 opcode byte + three 64-bit little-endian amounts = 25 bytes
    assert_eq!(ix.data.len(), 25);
    assert_eq!(ix.data[0], 4);
    assert_eq!(&ix.data[1..9], &5_000_000u64.to_le_bytes());
    assert_eq!(&ix.data[9..17], &1_234u64.to_le_bytes());
    assert_eq!(&ix.data[17..25], &5_678u64.to_le_bytes());

    assert_eq!(ix.program_id.bytes, bytes_of(&keys.programId));
    assert_eq!(ix.accounts.len(), 22);

    // documented ordering
    assert_eq!(ix.accounts[0].address.bytes, spl_token::id().to_bytes().to_vec());
    assert_eq!(ix.accounts[1].address.bytes, bytes_of(&keys.id));
    assert_eq!(ix.accounts[2].address.bytes, bytes_of(&keys.authority));
    assert_eq!(ix.accounts[3].address.bytes, bytes_of(&keys.openOrders));
    assert_eq!(ix.accounts[4].address.bytes, bytes_of(&keys.targetOrders));
    assert_eq!(ix.accounts[5].address.bytes, bytes_of(&keys.mintLp.address));
    assert_eq!(ix.accounts[6].address.bytes, bytes_of(&keys.vault.A));
    assert_eq!(ix.accounts[7].address.bytes, bytes_of(&keys.vault.B));
    assert_eq!(ix.accounts[8].address.bytes, bytes_of(&keys.id));
    assert_eq!(ix.accounts[9].address.bytes, bytes_of(&keys.id));
    assert_eq!(ix.accounts[10].address.bytes, bytes_of(&keys.marketProgramId));
    assert_eq!(ix.accounts[11].address.bytes, bytes_of(&keys.marketId));
    assert_eq!(ix.accounts[12].address.bytes, bytes_of(&keys.marketBaseVault));
    assert_eq!(ix.accounts[13].address.bytes, bytes_of(&keys.marketQuoteVault));
    assert_eq!(ix.accounts[14].address.bytes, bytes_of(&keys.marketAuthority));
    assert_eq!(ix.accounts[15].address.bytes, user.lp_token_account.bytes);
    assert_eq!(ix.accounts[16].address.bytes, user.base_token_account.bytes);
    assert_eq!(ix.accounts[17].address.bytes, user.quote_token_account.bytes);
    assert_eq!(ix.accounts[18].address.bytes, user.owner.bytes);
    assert_eq!(ix.accounts[19].address.bytes, bytes_of(&keys.marketEventQueue));
    assert_eq!(ix.accounts[20].address.bytes, bytes_of(&keys.marketBids));
    assert_eq!(ix.accounts[21].address.bytes, bytes_of(&keys.marketAsks));

    // the owner is the only signer
    for (i, a) in ix.accounts.iter().enumerate() {
        assert_eq!(a.is_signer, i == 18, "signer flag at position {}", i);
    }
    // read/write flags are fixed per position
    let writable = [
        false, true, false, true, true, true, true, true, false, false, false, true, true,
        true, false, true, true, true, false, true, true, true,
    ];
    for (i, a) in ix.accounts.iter().enumerate() {
        assert_eq!(a.is_writable, writable[i], "writable flag at position {}", i);
    }
}

#[test]
fn add_liquidity_account_list_and_payload() {
    let keys = fixture_pool_keys();
    let user = AddUserKeys {
        base_token_account: pubkey_from_str(&Pubkey::new_unique().to_string()).unwrap(),
        quote_token_account: pubkey_from_str(&Pubkey::new_unique().to_string()).unwrap(),
        lp_token_account: pubkey_from_str(&Pubkey::new_unique().to_string()).unwrap(),
        owner: pubkey_from_str(&Pubkey::new_unique().to_string()).unwrap(),
    };
    let ix = make_add_liquidity_instruction(
        &keys,
        &user,
        LiquidityAddInstructionParams {
            base_amount_in: 111,
            quote_amount_in: 222,
            fixed_side: FixedSide::Quote,
            other_amount_min: 99,
        },
    )
    .unwrap();

    // payload: opcode 3, three amounts, fixed-side tag = 33 bytes
    assert_eq!(ix.data.len(), 33);
    assert_eq!(ix.data[0], 3);
    assert_eq!(&ix.data[1..9], &111u64.to_le_bytes());
    assert_eq!(&ix.data[9..17], &222u64.to_le_bytes());
    assert_eq!(&ix.data[17..25], &99u64.to_le_bytes());
    assert_eq!(&ix.data[25..33], &1u64.to_le_bytes());

    assert_eq!(ix.accounts.len(), 14);
    assert_eq!(ix.accounts[0].address.bytes, spl_token::id().to_bytes().to_vec());
    assert_eq!(ix.accounts[1].address.bytes, bytes_of(&keys.id));
    assert_eq!(ix.accounts[5].address.bytes, bytes_of(&keys.mintLp.address));
    assert_eq!(ix.accounts[8].address.bytes, bytes_of(&keys.marketId));
    assert_eq!(ix.accounts[9].address.bytes, user.base_token_account.bytes);
    assert_eq!(ix.accounts[10].address.bytes, user.quote_token_account.bytes);
    assert_eq!(ix.accounts[11].address.bytes, user.lp_token_account.bytes);
    assert_eq!(ix.accounts[12].address.bytes, user.owner.bytes);
    assert_eq!(ix.accounts[13].address.bytes, bytes_of(&keys.marketEventQueue));
    for (i, a) in ix.accounts.iter().enumerate() {
        assert_eq!(a.is_signer, i == 12, "signer flag at position {}", i);
    }
    let writable = [
        false, true, false, false, true, true, true, true, false, true, true, true, false,
        false,
    ];
    for (i, a) in ix.accounts.iter().enumerate() {
        assert_eq!(a.is_writable, writable[i], "writable flag at position {}", i);
    }
}

#[test]
fn base_fixed_side_encodes_zero_tag() {
    let keys = fixture_pool_keys();
    let user = AddUserKeys {
        base_token_account: pubkey_from_str(&Pubkey::new_unique().to_string()).unwrap(),
        quote_token_account: pubkey_from_str(&Pubkey::new_unique().to_string()).unwrap(),
        lp_token_account: pubkey_from_str(&Pubkey::new_unique().to_string()).unwrap(),
        owner: pubkey_from_str(&Pubkey::new_unique().to_string()).unwrap(),
    };
    let ix = make_add_liquidity_instruction(
        &keys,
        &user,
        LiquidityAddInstructionParams {
            base_amount_in: 1,
            quote_amount_in: 2,
            fixed_side: FixedSide::Base,
            other_amount_min: 0,
        },
    )
    .unwrap();
    assert_eq!(&ix.data[25..33], &0u64.to_le_bytes());
}

#[test]
fn malformed_pool_address_fails_before_building() {
    let mut keys = fixture_pool_keys();
    keys.authority = "definitely not base58 0OIl".to_string();
    let user = fixture_remove_user_keys();
    let e = make_remove_liquidity_instruction(
        &keys,
        &user,
        RemoveLiquidityInstructionParams {
            lp_amount: 1,
            base_amount_min: 0,
            quote_amount_min: 0,
        },
    )
    .unwrap_err();
    assert!(matches!(e, mantis_raydium_client::error::Error::RpcClient(_)));
}
