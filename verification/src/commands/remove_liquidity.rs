use vstd::prelude::*;
use vstd::string::StringExecFns;

use crate::address::{parseable, parsed, Address};
use crate::amount::{amount_display_to_raw, amount_raw_to_display, raw_units, DecimalAmount};
use crate::commands::add_liquidity::{
    input_account_params_model, output_account_params_model, COMPUTE_UNIT_LIMIT,
    COMPUTE_UNIT_PRICE,
};
use crate::error::{Error, ErrorKind};
use crate::instruction::{
    set_compute_unit_limit_ix, set_compute_unit_limit_ix_model, set_compute_unit_price_ix,
    set_compute_unit_price_ix_model, InstructionSpec,
};
use crate::instructions::remove_liquidity::{
    make_remove_liquidity_instruction, remove_liquidity_ix_model, remove_liquidity_keys_ok,
    IxUserKeys, IxUserKeysModel, RemoveLiquidityInstructionParams,
};
use crate::pool::{PoolInfo, PoolKeys};
use crate::submit::{TransactionPlan, TransactionPlanModel};
use crate::token_account::{
    handle_token_account, handle_token_account_model, ChainAccountFacts, ChainAccountFactsModel,
    HandleTokenAccountParams, TokenSide,
};

verus! {

/// The human-readable content of the confirmation summary for a removal:
/// the LP amount burned and the minimum acceptable amount out per side.
#[derive(Debug)]
pub struct RemoveLiquiditySummary {
    pub lp_amount: DecimalAmount,
    pub base_symbol: String,
    pub base_amount_min: DecimalAmount,
    pub quote_symbol: String,
    pub quote_amount_min: DecimalAmount,
}

#[verifier::ext_equal]
pub struct RemoveLiquiditySummaryModel {
    pub lp_amount: DecimalAmount,
    pub base_symbol: Seq<char>,
    pub base_amount_min: DecimalAmount,
    pub quote_symbol: Seq<char>,
    pub quote_amount_min: DecimalAmount,
}

impl View for RemoveLiquiditySummary {
    type V = RemoveLiquiditySummaryModel;

    open spec fn view(&self) -> RemoveLiquiditySummaryModel {
        RemoveLiquiditySummaryModel {
            lp_amount: self.lp_amount,
            base_symbol: self.base_symbol@,
            base_amount_min: self.base_amount_min,
            quote_symbol: self.quote_symbol@,
            quote_amount_min: self.quote_amount_min,
        }
    }
}

/// What converting one non-negative display amount to raw units yields,
/// or which error.
pub open spec fn raw_or_err(amount: DecimalAmount, decimals: u32) -> Result<u64, ErrorKind> {
    if amount.is_negative_value() {
        Err(ErrorKind::InvalidInput)
    } else if raw_units(amount, decimals) > u64::MAX {
        Err(ErrorKind::Math)
    } else {
        Ok(raw_units(amount, decimals) as u64)
    }
}

/// The whole remove-liquidity plan as a function of the pool snapshots,
/// the operator's amounts and the chain facts: the raw LP amount burned,
/// the two minimums, every instruction and every signer, or which error
/// stops the operation first.
pub open spec fn plan_remove_liquidity_model(
    pool_info: PoolInfo,
    pool_keys: PoolKeys,
    payer: Seq<u8>,
    lp_amount: DecimalAmount,
    base_amount_min: DecimalAmount,
    quote_amount_min: DecimalAmount,
    facts_lp: ChainAccountFactsModel,
    facts_a: ChainAccountFactsModel,
    facts_b: ChainAccountFactsModel,
    fresh_lp: Seq<u8>,
    fresh_a: Seq<u8>,
    fresh_b: Seq<u8>,
) -> Result<(TransactionPlanModel, RemoveLiquiditySummaryModel), ErrorKind> {
    if !(parseable(pool_keys.mintA.address@) && parseable(pool_keys.mintB.address@) && parseable(
        pool_keys.mintLp.address@,
    )) {
        Err(ErrorKind::RpcClient)
    } else {
        let mint_a = parsed(pool_keys.mintA.address@);
        let mint_b = parsed(pool_keys.mintB.address@);
        let mint_lp = parsed(pool_keys.mintLp.address@);
        match raw_or_err(lp_amount, pool_info.lpMint.decimals) {
            Err(k) => Err(k),
            Ok(lp_raw) => match raw_or_err(base_amount_min, pool_info.mintA.decimals) {
                Err(k) => Err(k),
                Ok(base_min_raw) => match raw_or_err(quote_amount_min, pool_info.mintB.decimals) {
                    Err(k) => Err(k),
                    Ok(quote_min_raw) => match handle_token_account_model(
                        input_account_params_model(lp_raw, mint_lp),
                        payer,
                        facts_lp,
                        fresh_lp,
                    ) {
                        Err(k) => Err(k),
                        Ok(ilp) => match handle_token_account_model(
                            output_account_params_model(mint_a),
                            payer,
                            facts_a,
                            fresh_a,
                        ) {
                            Err(k) => Err(k),
                            Ok(ia) => match handle_token_account_model(
                                output_account_params_model(mint_b),
                                payer,
                                facts_b,
                                fresh_b,
                            ) {
                                Err(k) => Err(k),
                                Ok(ib) => if !remove_liquidity_keys_ok(pool_keys) {
                                    Err(ErrorKind::RpcClient)
                                } else {
                                    Ok(
                                        (
                                            TransactionPlanModel {
                                                compute_budget: seq![
                                                    set_compute_unit_price_ix_model(
                                                        COMPUTE_UNIT_PRICE,
                                                    ),
                                                    set_compute_unit_limit_ix_model(
                                                        COMPUTE_UNIT_LIMIT,
                                                    ),
                                                ],
                                                setup: ilp.start_instructions
                                                    + ia.start_instructions
                                                    + ib.start_instructions,
                                                main: remove_liquidity_ix_model(
                                                    pool_keys,
                                                    IxUserKeysModel {
                                                        base_token_account: ia.token_account,
                                                        quote_token_account: ib.token_account,
                                                        lp_token_account: ilp.token_account,
                                                        owner: payer,
                                                    },
                                                    RemoveLiquidityInstructionParams {
                                                        lp_amount: lp_raw,
                                                        base_amount_min: base_min_raw,
                                                        quote_amount_min: quote_min_raw,
                                                    },
                                                ),
                                                teardown: ilp.end_instructions
                                                    + ia.end_instructions + ib.end_instructions,
                                                signers: ilp.additional_signers
                                                    + ia.additional_signers
                                                    + ib.additional_signers,
                                            },
                                            RemoveLiquiditySummaryModel {
                                                lp_amount: DecimalAmount {
                                                    negative: false,
                                                    mantissa: lp_raw,
                                                    scale: pool_info.lpMint.decimals,
                                                },
                                                base_symbol: pool_info.mintA.symbol@,
                                                base_amount_min: DecimalAmount {
                                                    negative: false,
                                                    mantissa: base_min_raw,
                                                    scale: pool_info.mintA.decimals,
                                                },
                                                quote_symbol: pool_info.mintB.symbol@,
                                                quote_amount_min: DecimalAmount {
                                                    negative: false,
                                                    mantissa: quote_min_raw,
                                                    scale: pool_info.mintB.decimals,
                                                },
                                            },
                                        ),
                                    )
                                },
                            },
                        },
                    },
                },
            },
        }
    }
}

/// Plans a remove-liquidity operation: converts the LP amount and the two
/// minimums to raw units, resolves the LP input account and the two output
/// accounts over the given chain facts, and builds the main instruction,
/// without touching the network.
#[verifier::rlimit(50)]
pub fn plan_remove_liquidity(
    pool_info: &PoolInfo,
    pool_keys: &PoolKeys,
    payer: &Address,
    lp_amount: &DecimalAmount,
    base_amount_min: &DecimalAmount,
    quote_amount_min: &DecimalAmount,
    facts_lp: &ChainAccountFacts,
    facts_a: &ChainAccountFacts,
    facts_b: &ChainAccountFacts,
    fresh_lp: &Address,
    fresh_a: &Address,
    fresh_b: &Address,
) -> (r: Result<(TransactionPlan, RemoveLiquiditySummary), Error>)
    requires
        payer.wf(),
        fresh_lp.wf(),
        fresh_a.wf(),
        fresh_b.wf(),
        lp_amount.wf(),
        base_amount_min.wf(),
        quote_amount_min.wf(),
        pool_info.lpMint.decimals <= 18,
        pool_info.mintA.decimals <= 18,
        pool_info.mintB.decimals <= 18,
    ensures
        r is Ok <==> plan_remove_liquidity_model(
            *pool_info,
            *pool_keys,
            payer@,
            *lp_amount,
            *base_amount_min,
            *quote_amount_min,
            facts_lp@,
            facts_a@,
            facts_b@,
            fresh_lp@,
            fresh_a@,
            fresh_b@,
        ) is Ok,
        r matches Ok(p) ==> Ok::<_, ErrorKind>((p.0@, p.1@)) == plan_remove_liquidity_model(
            *pool_info,
            *pool_keys,
            payer@,
            *lp_amount,
            *base_amount_min,
            *quote_amount_min,
            facts_lp@,
            facts_a@,
            facts_b@,
            fresh_lp@,
            fresh_a@,
            fresh_b@,
        ),
        r matches Err(e) ==> Err::<(TransactionPlanModel, RemoveLiquiditySummaryModel), _>(
            e.kind(),
        ) == plan_remove_liquidity_model(
            *pool_info,
            *pool_keys,
            payer@,
            *lp_amount,
            *base_amount_min,
            *quote_amount_min,
            facts_lp@,
            facts_a@,
            facts_b@,
            fresh_lp@,
            fresh_a@,
            fresh_b@,
        ),
{
    let ghost model = plan_remove_liquidity_model(
        *pool_info,
        *pool_keys,
        payer@,
        *lp_amount,
        *base_amount_min,
        *quote_amount_min,
        facts_lp@,
        facts_a@,
        facts_b@,
        fresh_lp@,
        fresh_a@,
        fresh_b@,
    );

    let mint_a = crate::address::pubkey_from_str(pool_keys.mintA.address.as_str())?;
    let mint_b = crate::address::pubkey_from_str(pool_keys.mintB.address.as_str())?;
    let mint_lp = crate::address::pubkey_from_str(pool_keys.mintLp.address.as_str())?;

    let lp_amount_raw = amount_display_to_raw(lp_amount, pool_info.lpMint.decimals)?;
    let base_amount_min_raw = amount_display_to_raw(base_amount_min, pool_info.mintA.decimals)?;
    let quote_amount_min_raw = amount_display_to_raw(quote_amount_min, pool_info.mintB.decimals)?;

    let token_lp_info = handle_token_account(
        HandleTokenAccountParams {
            side: TokenSide::In,
            amount: lp_amount_raw,
            mint: mint_lp,
            token_account: None,
            bypass_associated_check: false,
            skip_close_account: false,
            check_create_ata_owner: true,
        },
        payer,
        facts_lp,
        fresh_lp,
    )?;
    let token_a_info = handle_token_account(
        HandleTokenAccountParams {
            side: TokenSide::Out,
            amount: 0,
            mint: mint_a,
            token_account: None,
            bypass_associated_check: false,
            skip_close_account: false,
            check_create_ata_owner: true,
        },
        payer,
        facts_a,
        fresh_a,
    )?;
    let token_b_info = handle_token_account(
        HandleTokenAccountParams {
            side: TokenSide::Out,
            amount: 0,
            mint: mint_b,
            token_account: None,
            bypass_associated_check: false,
            skip_close_account: false,
            check_create_ata_owner: true,
        },
        payer,
        facts_b,
        fresh_b,
    )?;

    let main_instruction = make_remove_liquidity_instruction(
        pool_keys,
        &IxUserKeys {
            base_token_account: token_a_info.token_account.dup(),
            quote_token_account: token_b_info.token_account.dup(),
            lp_token_account: token_lp_info.token_account.dup(),
            owner: payer.dup(),
        },
        RemoveLiquidityInstructionParams {
            lp_amount: lp_amount_raw,
            base_amount_min: base_amount_min_raw,
            quote_amount_min: quote_amount_min_raw,
        },
    )?;

    let mut compute_budget_instructions: Vec<InstructionSpec> = Vec::new();
    compute_budget_instructions.push(set_compute_unit_price_ix(COMPUTE_UNIT_PRICE));
    compute_budget_instructions.push(set_compute_unit_limit_ix(COMPUTE_UNIT_LIMIT));

    let mut setup_instructions = token_lp_info.start_instructions;
    let mut setup_a = token_a_info.start_instructions;
    let mut setup_b = token_b_info.start_instructions;
    setup_instructions.append(&mut setup_a);
    setup_instructions.append(&mut setup_b);

    let mut teardown_instructions = token_lp_info.end_instructions;
    let mut teardown_a = token_a_info.end_instructions;
    let mut teardown_b = token_b_info.end_instructions;
    teardown_instructions.append(&mut teardown_a);
    teardown_instructions.append(&mut teardown_b);

    let mut additional_signers = token_lp_info.additional_signers;
    let mut signers_a = token_a_info.additional_signers;
    let mut signers_b = token_b_info.additional_signers;
    additional_signers.append(&mut signers_a);
    additional_signers.append(&mut signers_b);

    let plan = TransactionPlan {
        compute_budget_instructions,
        setup_instructions,
        main_instruction,
        teardown_instructions,
        additional_signers,
    };
    let summary = RemoveLiquiditySummary {
        lp_amount: amount_raw_to_display(lp_amount_raw, pool_info.lpMint.decimals),
        base_symbol: String::from_str(pool_info.mintA.symbol.as_str()),
        base_amount_min: amount_raw_to_display(base_amount_min_raw, pool_info.mintA.decimals),
        quote_symbol: String::from_str(pool_info.mintB.symbol.as_str()),
        quote_amount_min: amount_raw_to_display(quote_amount_min_raw, pool_info.mintB.decimals),
    };
    proof {
        let m = model->Ok_0;
        assert(plan@.compute_budget =~= m.0.compute_budget);
        assert(plan@.setup =~= m.0.setup);
        assert(plan@.teardown =~= m.0.teardown);
        assert(plan@.signers =~= m.0.signers);
        assert(plan@ =~= m.0);
        assert(summary@ =~= m.1);
    }
    Ok((plan, summary))
}

} // verus!
