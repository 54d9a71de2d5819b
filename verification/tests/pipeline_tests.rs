use mantis_raydium_client::address::pubkey_from_str;
use mantis_raydium_client::amount::DecimalAmount;
use mantis_raydium_client::commands::add_liquidity::plan_add_liquidity;
use mantis_raydium_client::commands::remove_liquidity::plan_remove_liquidity;
use mantis_raydium_client::config::Config;
use mantis_raydium_client::confirmation::is_affirmative;
use mantis_raydium_client::error::Error;
use mantis_raydium_client::pool::{LpMintInfo, PoolInfo, PoolKeys, TokenInfo, VaultInfo};
use mantis_raydium_client::submit::{
    assemble_transaction, decide_submission, diagnose_send_failure, SubmitAction,
};
use mantis_raydium_client::token_account::{AccountQuery, ChainAccountFacts};
use solana_program::pubkey::Pubkey;

fn dec2(negative: bool, mantissa: u64, scale: u32) -> DecimalAmount {
    DecimalAmount { negative, mantissa, scale }
}

fn pool_keys_fixture() -> PoolKeys {
    PoolKeys {
        programId: Pubkey::new_unique().to_string(),
        id: Pubkey::new_unique().to_string(),
        mintA: TokenInfo {
            address: Pubkey::new_unique().to_string(),
            decimals: 6,
            symbol: "BASE".to_string(),
        },
        mintB: TokenInfo {
            address: Pubkey::new_unique().to_string(),
            decimals: 6,
            symbol: "QUOTE".to_string(),
        },
        vault: VaultInfo {
            A: Pubkey::new_unique().to_string(),
            B: Pubkey::new_unique().to_string(),
        },
        authority: Pubkey::new_unique().to_string(),
        openOrders: Pubkey::new_unique().to_string(),
        targetOrders: Pubkey::new_unique().to_string(),
        mintLp: TokenInfo {
            address: Pubkey::new_unique().to_string(),
            decimals: 6,
            symbol: "LP".to_string(),
        },
        marketProgramId: Pubkey::new_unique().to_string(),
        marketId: Pubkey::new_unique().to_string(),
        marketAuthority: Pubkey::new_unique().to_string(),
        marketBaseVault: Pubkey::new_unique().to_string(),
        marketQuoteVault: Pubkey::new_unique().to_string(),
        marketBids: Pubkey::new_unique().to_string(),
        marketAsks: Pubkey::new_unique().to_string(),
        marketEventQueue: Pubkey::new_unique().to_string(),
    }
}

fn pool_info_for(keys: &PoolKeys) -> PoolInfo {
    PoolInfo {
        mintA: TokenInfo {
            address: keys.mintA.address.clone(),
            decimals: keys.mintA.decimals,
            symbol: keys.mintA.symbol.clone(),
        },
        mintB: TokenInfo {
            address: keys.mintB.address.clone(),
            decimals: keys.mintB.decimals,
            symbol: keys.mintB.symbol.clone(),
        },
        lpMint: LpMintInfo {
            address: keys.mintLp.address.clone(),
            decimals: keys.mintLp.decimals,
            symbol: keys.mintLp.symbol.clone(),
        },
    }
}

fn absent_facts() -> ChainAccountFacts {
    ChainAccountFacts {
        rent_exempt_min: 2_039_280,
        payer_lamports: 1_000_000_000,
        associated_account: AccountQuery::Absent,
    }
}

fn unique_addr() -> mantis_raydium_client::address::Address {
    pubkey_from_str(&Pubkey::new_unique().to_string()).unwrap()
}

#[test]
fn add_liquidity_plan_assembles_in_fixed_order() {
    let keys = pool_keys_fixture();
    let info = pool_info_for(&keys);
    let payer = unique_addr();
    let input_mint = pubkey_from_str(&keys.mintA.address).unwrap();

    let (plan, summary) = plan_add_liquidity(
        &info,
        &keys,
        &payer,
        &input_mint,
        &dec2(false, 1, 1),  // 0.1 of the base side
        &dec2(false, 1, 0),  // 1% slippage
        1_000_000,
        2_000_000,
        &absent_facts(),
        &absent_facts(),
        &absent_facts(),
        &unique_addr(),
        &unique_addr(),
        &unique_addr(),
    )
    .unwrap();

    // amounts: input raw = 0.1 * 10^6 = 100_000 on the base side, so the
    // quote side gets the worked-example values
    assert_eq!(summary.base_symbol, "BASE");
    assert_eq!(summary.base_amount, dec2(false, 100_000, 6));
    assert_eq!(summary.quote_amount, dec2(false, 181_819, 6));
    assert_eq!(summary.min_other_amount, dec2(false, 180_000, 6));

    // three associated accounts must be created, none torn down
    assert_eq!(plan.compute_budget_instructions.len(), 2);
    assert_eq!(plan.setup_instructions.len(), 3);
    assert_eq!(plan.teardown_instructions.len(), 0);
    assert!(plan.additional_signers.is_empty());
    assert_eq!(plan.main_instruction.data[0], 3);
    assert_eq!(&plan.main_instruction.data[1..9], &100_000u64.to_le_bytes());
    assert_eq!(&plan.main_instruction.data[9..17], &181_819u64.to_le_bytes());
    assert_eq!(&plan.main_instruction.data[17..25], &180_000u64.to_le_bytes());
    // input mint equals the base mint, so the base side is pinned
    assert_eq!(&plan.main_instruction.data[25..33], &0u64.to_le_bytes());

    let (instructions, signers) = assemble_transaction(plan);
    assert_eq!(instructions.len(), 6);
    assert!(signers.is_empty());
    // compute budget first, then the three setups, the main last here
    assert_eq!(instructions[0].data[0], 3u8);  // unit price tag
    assert_eq!(instructions[1].data[0], 2u8);  // unit limit tag
    for i in 2..5 {
        assert_eq!(instructions[i].data, vec![0u8]);  // create associated account
    }
    assert_eq!(instructions[5].data.len(), 33);
}

#[test]
fn add_liquidity_quote_side_input_pins_quote() {
    let keys = pool_keys_fixture();
    let info = pool_info_for(&keys);
    let payer = unique_addr();
    let input_mint = pubkey_from_str(&keys.mintB.address).unwrap();

    let (plan, _summary) = plan_add_liquidity(
        &info,
        &keys,
        &payer,
        &input_mint,
        &dec2(false, 1, 1),
        &dec2(false, 1, 0),
        2_000_000,  // vault A holds the other side now
        1_000_000,
        &absent_facts(),
        &absent_facts(),
        &absent_facts(),
        &unique_addr(),
        &unique_addr(),
        &unique_addr(),
    )
    .unwrap();
    // the fixed-side tag is 1: the quote side is pinned
    assert_eq!(&plan.main_instruction.data[25..33], &1u64.to_le_bytes());
    // base amount is the computed other amount now
    assert_eq!(&plan.main_instruction.data[1..9], &181_819u64.to_le_bytes());
    assert_eq!(&plan.main_instruction.data[9..17], &100_000u64.to_le_bytes());
}

#[test]
fn remove_liquidity_plan_matches_amounts() {
    let keys = pool_keys_fixture();
    let info = pool_info_for(&keys);
    let payer = unique_addr();

    let (plan, summary) = plan_remove_liquidity(
        &info,
        &keys,
        &payer,
        &dec2(false, 25, 1),   // 2.5 LP
        &dec2(false, 1, 0),    // at least 1 base
        &dec2(false, 2, 0),    // at least 2 quote
        &absent_facts(),
        &absent_facts(),
        &absent_facts(),
        &unique_addr(),
        &unique_addr(),
        &unique_addr(),
    )
    .unwrap();

    assert_eq!(summary.lp_amount, dec2(false, 2_500_000, 6));
    assert_eq!(summary.base_amount_min, dec2(false, 1_000_000, 6));
    assert_eq!(summary.quote_amount_min, dec2(false, 2_000_000, 6));
    assert_eq!(plan.main_instruction.data.len(), 25);
    assert_eq!(plan.main_instruction.data[0], 4);
    assert_eq!(&plan.main_instruction.data[1..9], &2_500_000u64.to_le_bytes());
    assert_eq!(plan.main_instruction.accounts.len(), 22);
    assert_eq!(plan.setup_instructions.len(), 3);
    assert_eq!(plan.teardown_instructions.len(), 0);
}

#[test]
fn bad_mint_address_fails_the_plan() {
    let mut keys = pool_keys_fixture();
    keys.mintA.address = "not base58 0OIl".to_string();
    let info = pool_info_for(&pool_keys_fixture());
    let payer = unique_addr();
    let e = plan_add_liquidity(
        &info,
        &keys,
        &payer,
        &unique_addr(),
        &dec2(false, 1, 0),
        &dec2(false, 1, 0),
        1,
        1,
        &absent_facts(),
        &absent_facts(),
        &absent_facts(),
        &unique_addr(),
        &unique_addr(),
        &unique_addr(),
    )
    .unwrap_err();
    assert!(matches!(e, Error::RpcClient(_)));
}

#[test]
fn empty_instruction_list_sends_nothing() {
    assert!(matches!(decide_submission(true, 0), SubmitAction::NothingToSend));
    assert!(matches!(decide_submission(true, 6), SubmitAction::Send));
}

#[test]
fn declined_confirmation_never_sends() {
    // a fake submitter records whether send was ever invoked
    let mut send_invoked = false;
    let answer: Vec<u8> = b"n\n".to_vec();
    let confirmed = is_affirmative(&answer);
    match decide_submission(confirmed, 6) {
        SubmitAction::Send => {
            send_invoked = true;
        },
        SubmitAction::Abort | SubmitAction::NothingToSend => {},
    }
    assert!(!confirmed);
    assert!(!send_invoked);
}

#[test]
fn only_the_exact_affirmative_proceeds() {
    assert!(is_affirmative(&b"Y".to_vec()));
    assert!(is_affirmative(&b"Y\n".to_vec()));
    assert!(is_affirmative(&b"  Y \r\n".to_vec()));
    assert!(!is_affirmative(&b"y".to_vec()));
    assert!(!is_affirmative(&b"YES".to_vec()));
    assert!(!is_affirmative(&b"".to_vec()));
    assert!(!is_affirmative(&b"   \n".to_vec()));
    assert!(!is_affirmative(&b"n".to_vec()));
}

#[test]
fn send_failure_keeps_original_error() {
    let e = diagnose_send_failure(
        "node rejected the transaction".to_string(),
        Some(vec!["program log: something".to_string()]),
    );
    match e {
        Error::RpcClient(m) => assert_eq!(m, "node rejected the transaction"),
        _ => panic!("wrong error variant"),
    }
    let e2 = diagnose_send_failure("timeout".to_string(), None);
    assert!(matches!(e2, Error::RpcClient(_)));
}

#[test]
fn default_config_values() {
    let c = Config::default();
    assert_eq!(c.rpc_endpoint, "https://api.mainnet-beta.solana.com");
    assert_eq!(c.api_key, "");
    assert_eq!(c.keypair_path, "./keypair.json");
}

#[test]
fn error_message_is_preserved() {
    let e = Error::InsufficientBalance("need 5, have 3".to_string());
    assert_eq!(e.message().as_str(), "need 5, have 3");
}

#[test]
fn native_wrap_input_flows_through_the_plan() {
    let mut keys = pool_keys_fixture();
    keys.mintA.address = "So11111111111111111111111111111111111111112".to_string();
    keys.mintA.symbol = "WSOL".to_string();
    let info = pool_info_for(&keys);
    let payer = unique_addr();
    let input_mint = pubkey_from_str(&keys.mintA.address).unwrap();
    let fresh_a = unique_addr();

    let (plan, _summary) = plan_add_liquidity(
        &info,
        &keys,
        &payer,
        &input_mint,
        &dec2(false, 1, 1),
        &dec2(false, 1, 0),
        1_000_000,
        2_000_000,
        &absent_facts(),
        &absent_facts(),
        &absent_facts(),
        &fresh_a,
        &unique_addr(),
        &unique_addr(),
    )
    .unwrap();

    // the wrap contributes two setup instructions, one teardown, and the
    // single-use key as the only additional signer
    assert_eq!(plan.setup_instructions.len(), 2 + 1 + 1);
    assert_eq!(plan.teardown_instructions.len(), 1);
    assert_eq!(plan.additional_signers.len(), 1);
    assert_eq!(plan.additional_signers[0].bytes, fresh_a.bytes);
    assert_eq!(plan.teardown_instructions[0].data, vec![9u8]);
    // the wrap account stands in the user base-account position
    assert_eq!(plan.main_instruction.accounts[9].address.bytes, fresh_a.bytes);
}

#[test]
fn existing_accounts_need_no_setup() {
    let keys = pool_keys_fixture();
    let info = pool_info_for(&keys);
    let payer = unique_addr();
    let input_mint = pubkey_from_str(&keys.mintA.address).unwrap();

    let existing = |mint: &str| ChainAccountFacts {
        rent_exempt_min: 2_039_280,
        payer_lamports: 1_000_000_000,
        associated_account: AccountQuery::Token {
            mint: pubkey_from_str(mint).unwrap(),
            owner: payer.dup(),
        },
    };

    let (plan, _summary) = plan_add_liquidity(
        &info,
        &keys,
        &payer,
        &input_mint,
        &dec2(false, 1, 1),
        &dec2(false, 1, 0),
        1_000_000,
        2_000_000,
        &existing(&keys.mintA.address),
        &existing(&keys.mintB.address),
        &existing(&keys.mintLp.address),
        &unique_addr(),
        &unique_addr(),
        &unique_addr(),
    )
    .unwrap();

    assert!(plan.setup_instructions.is_empty());
    assert!(plan.teardown_instructions.is_empty());
    assert!(plan.additional_signers.is_empty());
    let (instructions, _) = assemble_transaction(plan);
    // compute budget and the main instruction alone
    assert_eq!(instructions.len(), 3);
}
