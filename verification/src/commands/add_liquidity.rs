use vstd::prelude::*;
use vstd::string::StringExecFns;

use crate::address::{parseable, parsed, Address};
use crate::amount::{
    amount_display_to_raw, amount_raw_to_display, compute_add_liquidity, min_after_slippage,
    other_amount_out, raw_units, slippage_valid, DecimalAmount,
};
use crate::error::{Error, ErrorKind};
use crate::instruction::{
    set_compute_unit_limit_ix, set_compute_unit_limit_ix_model, set_compute_unit_price_ix,
    set_compute_unit_price_ix_model, InstructionSpec,
};
use crate::instructions::add_liquidity::{
    add_liquidity_ix_model, add_liquidity_keys_ok, make_add_liquidity_instruction, FixedSide,
    IxUserKeys, IxUserKeysModel, LiquidityAddInstructionParams,
};
use crate::pool::{PoolInfo, PoolKeys};
use crate::submit::{TransactionPlan, TransactionPlanModel};
use crate::token_account::{
    handle_token_account, handle_token_account_model, ChainAccountFacts, ChainAccountFactsModel,
    HandleTokenAccountParams, HandleTokenAccountParamsModel, TokenSide,
};

verus! {

/// The compute-unit price every liquidity transaction bids, in
/// micro-lamports per unit.
pub const COMPUTE_UNIT_PRICE: u64 = 1_000_000;

/// The compute-unit limit every liquidity transaction requests.
pub const COMPUTE_UNIT_LIMIT: u32 = 1_000_000;

/// What `calculate_values_from_input` returns: the raw input amount, the
/// other side's amount, and its slippage-bounded minimum, or which error.
pub open spec fn calculate_values_model(
    input_amount: DecimalAmount,
    input_decimals: u32,
    input_reserve: u64,
    other_reserve: u64,
    slippage: DecimalAmount,
) -> Result<(u64, u64, u64), ErrorKind> {
    if input_amount.is_negative_value() {
        Err(ErrorKind::InvalidInput)
    } else if raw_units(input_amount, input_decimals) > u64::MAX {
        Err(ErrorKind::Math)
    } else {
        let raw = raw_units(input_amount, input_decimals) as u64;
        if !slippage_valid(slippage) {
            Err(ErrorKind::InvalidInput)
        } else if input_reserve == 0 && raw == 0 {
            Err(ErrorKind::Math)
        } else {
            let other = other_amount_out(input_reserve as int, other_reserve as int, raw as int);
            Ok((raw, other as u64, min_after_slippage(other, slippage) as u64))
        }
    }
}

/// Converts the display input amount to raw units and runs the
/// constant-product math against the given reserves.
pub fn calculate_values_from_input(
    input_amount: &DecimalAmount,
    input_decimals: u32,
    input_reserve: u64,
    other_reserve: u64,
    slippage: &DecimalAmount,
) -> (r: Result<(u64, u64, u64), Error>)
    requires
        input_amount.wf(),
        input_decimals <= 18,
        slippage.scale <= 12,
    ensures
        r is Ok <==> calculate_values_model(
            *input_amount,
            input_decimals,
            input_reserve,
            other_reserve,
            *slippage,
        ) is Ok,
        r matches Ok(v) ==> Ok::<_, ErrorKind>(v) == calculate_values_model(
            *input_amount,
            input_decimals,
            input_reserve,
            other_reserve,
            *slippage,
        ),
        r matches Err(e) ==> Err::<(u64, u64, u64), _>(e.kind()) == calculate_values_model(
            *input_amount,
            input_decimals,
            input_reserve,
            other_reserve,
            *slippage,
        ),
{
    let input_amount_raw = amount_display_to_raw(input_amount, input_decimals)?;
    let (other_amount, min_other_amount) = compute_add_liquidity(
        input_reserve,
        other_reserve,
        input_amount_raw,
        slippage,
    )?;
    Ok((input_amount_raw, other_amount, min_other_amount))
}

/// The human-readable content of the confirmation summary for an add:
/// display amounts for both sides and the slippage-bounded minimum.
#[derive(Debug)]
pub struct AddLiquiditySummary {
    pub base_symbol: String,
    pub base_amount: DecimalAmount,
    pub quote_symbol: String,
    pub quote_amount: DecimalAmount,
    pub min_other_amount: DecimalAmount,
}

#[verifier::ext_equal]
pub struct AddLiquiditySummaryModel {
    pub base_symbol: Seq<char>,
    pub base_amount: DecimalAmount,
    pub quote_symbol: Seq<char>,
    pub quote_amount: DecimalAmount,
    pub min_other_amount: DecimalAmount,
}

impl View for AddLiquiditySummary {
    type V = AddLiquiditySummaryModel;

    open spec fn view(&self) -> AddLiquiditySummaryModel {
        AddLiquiditySummaryModel {
            base_symbol: self.base_symbol@,
            base_amount: self.base_amount,
            quote_symbol: self.quote_symbol@,
            quote_amount: self.quote_amount,
            min_other_amount: self.min_other_amount,
        }
    }
}

/// Resolution inputs for an input-role account holding `amount` of `mint`.
pub open spec fn input_account_params_model(
    amount: u64,
    mint: Seq<u8>,
) -> HandleTokenAccountParamsModel {
    HandleTokenAccountParamsModel {
        side: TokenSide::In,
        amount,
        mint,
        token_account: None,
        bypass_associated_check: false,
        skip_close_account: false,
        check_create_ata_owner: true,
    }
}

/// Resolution inputs for an output-role account of `mint`: a brand-new
/// balance always resolves with a requested amount of zero.
pub open spec fn output_account_params_model(mint: Seq<u8>) -> HandleTokenAccountParamsModel {
    HandleTokenAccountParamsModel {
        side: TokenSide::Out,
        amount: 0,
        mint,
        token_account: None,
        bypass_associated_check: false,
        skip_close_account: false,
        check_create_ata_owner: true,
    }
}

/// The whole add-liquidity plan as a function of the pool snapshots, the
/// operator's input, the vault reserves and the chain facts: which side is
/// pinned, every amount, every instruction and every signer, or which
/// error stops the operation first.
pub open spec fn plan_add_liquidity_model(
    pool_info: PoolInfo,
    pool_keys: PoolKeys,
    payer: Seq<u8>,
    input_mint: Seq<u8>,
    input_amount: DecimalAmount,
    slippage: DecimalAmount,
    vault_a_balance: u64,
    vault_b_balance: u64,
    facts_a: ChainAccountFactsModel,
    facts_b: ChainAccountFactsModel,
    facts_lp: ChainAccountFactsModel,
    fresh_a: Seq<u8>,
    fresh_b: Seq<u8>,
    fresh_lp: Seq<u8>,
) -> Result<(TransactionPlanModel, AddLiquiditySummaryModel), ErrorKind> {
    if !(parseable(pool_keys.mintA.address@) && parseable(pool_keys.mintB.address@) && parseable(
        pool_keys.mintLp.address@,
    )) {
        Err(ErrorKind::RpcClient)
    } else {
        let mint_a = parsed(pool_keys.mintA.address@);
        let mint_b = parsed(pool_keys.mintB.address@);
        let mint_lp = parsed(pool_keys.mintLp.address@);
        let input_is_a = input_mint == mint_a;
        let input_decimals = if input_is_a {
            pool_keys.mintA.decimals
        } else {
            pool_keys.mintB.decimals
        };
        let input_reserve = if input_is_a {
            vault_a_balance
        } else {
            vault_b_balance
        };
        let other_reserve = if input_is_a {
            vault_b_balance
        } else {
            vault_a_balance
        };
        match calculate_values_model(
            input_amount,
            input_decimals,
            input_reserve,
            other_reserve,
            slippage,
        ) {
            Err(k) => Err(k),
            Ok(v) => {
                let fixed_side = if input_is_a {
                    FixedSide::Base
                } else {
                    FixedSide::Quote
                };
                let base_amount = if input_is_a {
                    v.0
                } else {
                    v.1
                };
                let quote_amount = if input_is_a {
                    v.1
                } else {
                    v.0
                };
                match handle_token_account_model(
                    input_account_params_model(base_amount, mint_a),
                    payer,
                    facts_a,
                    fresh_a,
                ) {
                    Err(k) => Err(k),
                    Ok(ia) => match handle_token_account_model(
                        input_account_params_model(quote_amount, mint_b),
                        payer,
                        facts_b,
                        fresh_b,
                    ) {
                        Err(k) => Err(k),
                        Ok(ib) => match handle_token_account_model(
                            output_account_params_model(mint_lp),
                            payer,
                            facts_lp,
                            fresh_lp,
                        ) {
                            Err(k) => Err(k),
                            Ok(ilp) => if !add_liquidity_keys_ok(pool_keys) {
                                Err(ErrorKind::RpcClient)
                            } else {
                                Ok(
                                    (
                                        TransactionPlanModel {
                                            compute_budget: seq![
                                                set_compute_unit_price_ix_model(
                                                    COMPUTE_UNIT_PRICE,
                                                ),
                                                set_compute_unit_limit_ix_model(
                                                    COMPUTE_UNIT_LIMIT,
                                                ),
                                            ],
                                            setup: ia.start_instructions + ib.start_instructions
                                                + ilp.start_instructions,
                                            main: add_liquidity_ix_model(
                                                pool_keys,
                                                IxUserKeysModel {
                                                    base_token_account: ia.token_account,
                                                    quote_token_account: ib.token_account,
                                                    lp_token_account: ilp.token_account,
                                                    owner: payer,
                                                },
                                                LiquidityAddInstructionParams {
                                                    base_amount_in: base_amount,
                                                    quote_amount_in: quote_amount,
                                                    fixed_side,
                                                    other_amount_min: v.2,
                                                },
                                            ),
                                            teardown: ia.end_instructions + ib.end_instructions
                                                + ilp.end_instructions,
                                            signers: ia.additional_signers
                                                + ib.additional_signers + ilp.additional_signers,
                                        },
                                        AddLiquiditySummaryModel {
                                            base_symbol: pool_info.mintA.symbol@,
                                            base_amount: DecimalAmount {
                                                negative: false,
                                                mantissa: base_amount,
                                                scale: pool_info.mintA.decimals,
                                            },
                                            quote_symbol: pool_info.mintB.symbol@,
                                            quote_amount: DecimalAmount {
                                                negative: false,
                                                mantissa: quote_amount,
                                                scale: pool_info.mintB.decimals,
                                            },
                                            min_other_amount: DecimalAmount {
                                                negative: false,
                                                mantissa: v.2,
                                                scale: pool_info.mintB.decimals,
                                            },
                                        },
                                    ),
                                )
                            },
                        },
                    },
                }
            },
        }
    }
}

/// Plans an add-liquidity operation: computes both amounts under the
/// constant-product rule, resolves the three token accounts over the given
/// chain facts, and builds the main instruction, without touching the
/// network. The fixed side follows from mint equality with the pool's
/// recorded base mint.
#[verifier::rlimit(50)]
pub fn plan_add_liquidity(
    pool_info: &PoolInfo,
    pool_keys: &PoolKeys,
    payer: &Address,
    input_mint: &Address,
    input_amount: &DecimalAmount,
    slippage: &DecimalAmount,
    vault_a_balance: u64,
    vault_b_balance: u64,
    facts_a: &ChainAccountFacts,
    facts_b: &ChainAccountFacts,
    facts_lp: &ChainAccountFacts,
    fresh_a: &Address,
    fresh_b: &Address,
    fresh_lp: &Address,
) -> (r: Result<(TransactionPlan, AddLiquiditySummary), Error>)
    requires
        payer.wf(),
        fresh_a.wf(),
        fresh_b.wf(),
        fresh_lp.wf(),
        input_amount.wf(),
        slippage.scale <= 12,
        pool_keys.mintA.decimals <= 18,
        pool_keys.mintB.decimals <= 18,
        pool_info.mintA.decimals <= 18,
        pool_info.mintB.decimals <= 18,
    ensures
        r is Ok <==> plan_add_liquidity_model(
            *pool_info,
            *pool_keys,
            payer@,
            input_mint@,
            *input_amount,
            *slippage,
            vault_a_balance,
            vault_b_balance,
            facts_a@,
            facts_b@,
            facts_lp@,
            fresh_a@,
            fresh_b@,
            fresh_lp@,
        ) is Ok,
        r matches Ok(p) ==> Ok::<_, ErrorKind>((p.0@, p.1@)) == plan_add_liquidity_model(
            *pool_info,
            *pool_keys,
            payer@,
            input_mint@,
            *input_amount,
            *slippage,
            vault_a_balance,
            vault_b_balance,
            facts_a@,
            facts_b@,
            facts_lp@,
            fresh_a@,
            fresh_b@,
            fresh_lp@,
        ),
        r matches Err(e) ==> Err::<(TransactionPlanModel, AddLiquiditySummaryModel), _>(e.kind())
            == plan_add_liquidity_model(
            *pool_info,
            *pool_keys,
            payer@,
            input_mint@,
            *input_amount,
            *slippage,
            vault_a_balance,
            vault_b_balance,
            facts_a@,
            facts_b@,
            facts_lp@,
            fresh_a@,
            fresh_b@,
            fresh_lp@,
        ),
{
    let ghost model = plan_add_liquidity_model(
        *pool_info,
        *pool_keys,
        payer@,
        input_mint@,
        *input_amount,
        *slippage,
        vault_a_balance,
        vault_b_balance,
        facts_a@,
        facts_b@,
        facts_lp@,
        fresh_a@,
        fresh_b@,
        fresh_lp@,
    );

    let mint_a = crate::address::pubkey_from_str(pool_keys.mintA.address.as_str())?;
    let mint_b = crate::address::pubkey_from_str(pool_keys.mintB.address.as_str())?;
    let mint_lp = crate::address::pubkey_from_str(pool_keys.mintLp.address.as_str())?;

    let input_is_a = crate::address::address_eq(input_mint, &mint_a);
    let input_decimals = if input_is_a {
        pool_keys.mintA.decimals
    } else {
        pool_keys.mintB.decimals
    };
    let input_reserve = if input_is_a {
        vault_a_balance
    } else {
        vault_b_balance
    };
    let other_reserve = if input_is_a {
        vault_b_balance
    } else {
        vault_a_balance
    };

    let values = calculate_values_from_input(
        input_amount,
        input_decimals,
        input_reserve,
        other_reserve,
        slippage,
    )?;
    let input_amount_raw = values.0;
    let other_amount = values.1;
    let min_other_amount = values.2;

    let fixed_side = if input_is_a {
        FixedSide::Base
    } else {
        FixedSide::Quote
    };
    let base_amount = if input_is_a {
        input_amount_raw
    } else {
        other_amount
    };
    let quote_amount = if input_is_a {
        other_amount
    } else {
        input_amount_raw
    };

    let token_a_info = handle_token_account(
        HandleTokenAccountParams {
            side: TokenSide::In,
            amount: base_amount,
            mint: mint_a,
            token_account: None,
            bypass_associated_check: false,
            skip_close_account: false,
            check_create_ata_owner: true,
        },
        payer,
        facts_a,
        fresh_a,
    )?;
    let token_b_info = handle_token_account(
        HandleTokenAccountParams {
            side: TokenSide::In,
            amount: quote_amount,
            mint: mint_b,
            token_account: None,
            bypass_associated_check: false,
            skip_close_account: false,
            check_create_ata_owner: true,
        },
        payer,
        facts_b,
        fresh_b,
    )?;
    let token_lp_info = handle_token_account(
        HandleTokenAccountParams {
            side: TokenSide::Out,
            amount: 0,
            mint: mint_lp,
            token_account: None,
            bypass_associated_check: false,
            skip_close_account: false,
            check_create_ata_owner: true,
        },
        payer,
        facts_lp,
        fresh_lp,
    )?;

    let main_instruction = make_add_liquidity_instruction(
        pool_keys,
        &IxUserKeys {
            base_token_account: token_a_info.token_account.dup(),
            quote_token_account: token_b_info.token_account.dup(),
            lp_token_account: token_lp_info.token_account.dup(),
            owner: payer.dup(),
        },
        LiquidityAddInstructionParams {
            base_amount_in: base_amount,
            quote_amount_in: quote_amount,
            fixed_side,
            other_amount_min: min_other_amount,
        },
    )?;

    let mut compute_budget_instructions: Vec<InstructionSpec> = Vec::new();
    compute_budget_instructions.push(set_compute_unit_price_ix(COMPUTE_UNIT_PRICE));
    compute_budget_instructions.push(set_compute_unit_limit_ix(COMPUTE_UNIT_LIMIT));

    let mut setup_instructions = token_a_info.start_instructions;
    let mut setup_b = token_b_info.start_instructions;
    let mut setup_lp = token_lp_info.start_instructions;
    setup_instructions.append(&mut setup_b);
    setup_instructions.append(&mut setup_lp);

    let mut teardown_instructions = token_a_info.end_instructions;
    let mut teardown_b = token_b_info.end_instructions;
    let mut teardown_lp = token_lp_info.end_instructions;
    teardown_instructions.append(&mut teardown_b);
    teardown_instructions.append(&mut teardown_lp);

    let mut additional_signers = token_a_info.additional_signers;
    let mut signers_b = token_b_info.additional_signers;
    let mut signers_lp = token_lp_info.additional_signers;
    additional_signers.append(&mut signers_b);
    additional_signers.append(&mut signers_lp);

    let plan = TransactionPlan {
        compute_budget_instructions,
        setup_instructions,
        main_instruction,
        teardown_instructions,
        additional_signers,
    };
    let summary = AddLiquiditySummary {
        base_symbol: String::from_str(pool_info.mintA.symbol.as_str()),
        base_amount: amount_raw_to_display(base_amount, pool_info.mintA.decimals),
        quote_symbol: String::from_str(pool_info.mintB.symbol.as_str()),
        quote_amount: amount_raw_to_display(quote_amount, pool_info.mintB.decimals),
        min_other_amount: amount_raw_to_display(min_other_amount, pool_info.mintB.decimals),
    };
    proof {
        let m = model->Ok_0;
        assert(plan@.compute_budget =~= m.0.compute_budget);
        assert(plan@.setup =~= m.0.setup);
        assert(plan@.teardown =~= m.0.teardown);
        assert(plan@.signers =~= m.0.signers);
        assert(plan@ =~= m.0);
        assert(summary@ =~= m.1);
    }
    Ok((plan, summary))
}

} // verus!
