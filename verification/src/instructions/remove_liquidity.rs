use vstd::prelude::*;

use crate::address::{parseable, parsed, token_program_id, Address};
use crate::error::Error;
use crate::instruction::{
    meta_model, u64_le_bytes, AccountRef, InstructionModel, InstructionSpec,
};
use crate::pool::PoolKeys;

verus! {

/// The user-owned accounts the operation touches.
pub struct IxUserKeys {
    pub base_token_account: Address,
    pub quote_token_account: Address,
    pub lp_token_account: Address,
    pub owner: Address,
}

#[verifier::ext_equal]
pub struct IxUserKeysModel {
    pub base_token_account: Seq<u8>,
    pub quote_token_account: Seq<u8>,
    pub lp_token_account: Seq<u8>,
    pub owner: Seq<u8>,
}

impl View for IxUserKeys {
    type V = IxUserKeysModel;

    open spec fn view(&self) -> IxUserKeysModel {
        IxUserKeysModel {
            base_token_account: self.base_token_account@,
            quote_token_account: self.quote_token_account@,
            lp_token_account: self.lp_token_account@,
            owner: self.owner@,
        }
    }
}

/// The amounts of a remove-liquidity operation: LP tokens burned and the
/// minimum acceptable amount out on each side.
pub struct RemoveLiquidityInstructionParams {
    pub lp_amount: u64,
    pub base_amount_min: u64,
    pub quote_amount_min: u64,
}

/// Whether every pool address the remove-liquidity instruction references
/// parses into a valid account identifier.
pub open spec fn remove_liquidity_keys_ok(keys: PoolKeys) -> bool {
    &&& parseable(keys.programId@)
    &&& parseable(keys.id@)
    &&& parseable(keys.authority@)
    &&& parseable(keys.openOrders@)
    &&& parseable(keys.targetOrders@)
    &&& parseable(keys.mintLp.address@)
    &&& parseable(keys.vault.A@)
    &&& parseable(keys.vault.B@)
    &&& parseable(keys.marketProgramId@)
    &&& parseable(keys.marketId@)
    &&& parseable(keys.marketBaseVault@)
    &&& parseable(keys.marketQuoteVault@)
    &&& parseable(keys.marketAuthority@)
    &&& parseable(keys.marketEventQueue@)
    &&& parseable(keys.marketBids@)
    &&& parseable(keys.marketAsks@)
}

/// The remove-liquidity instruction, byte for byte: opcode 4 and the three
/// 64-bit amounts little-endian, over the program's fixed twenty-two-account
/// ordering, the pool id standing in for the two version-specific positions.
pub open spec fn remove_liquidity_ix_model(
    keys: PoolKeys,
    user: IxUserKeysModel,
    params: RemoveLiquidityInstructionParams,
) -> InstructionModel {
    InstructionModel {
        program_id: parsed(keys.programId@),
        accounts: seq![
            meta_model(token_program_id(), false, false),
            meta_model(parsed(keys.id@), false, true),
            meta_model(parsed(keys.authority@), false, false),
            meta_model(parsed(keys.openOrders@), false, true),
            meta_model(parsed(keys.targetOrders@), false, true),
            meta_model(parsed(keys.mintLp.address@), false, true),
            meta_model(parsed(keys.vault.A@), false, true),
            meta_model(parsed(keys.vault.B@), false, true),
            meta_model(parsed(keys.id@), false, false),
            meta_model(parsed(keys.id@), false, false),
            meta_model(parsed(keys.marketProgramId@), false, false),
            meta_model(parsed(keys.marketId@), false, true),
            meta_model(parsed(keys.marketBaseVault@), false, true),
            meta_model(parsed(keys.marketQuoteVault@), false, true),
            meta_model(parsed(keys.marketAuthority@), false, false),
            meta_model(user.lp_token_account, false, true),
            meta_model(user.base_token_account, false, true),
            meta_model(user.quote_token_account, false, true),
            meta_model(user.owner, true, false),
            meta_model(parsed(keys.marketEventQueue@), false, true),
            meta_model(parsed(keys.marketBids@), false, true),
            meta_model(parsed(keys.marketAsks@), false, true),
        ],
        data: seq![4u8] + u64_le_bytes(params.lp_amount) + u64_le_bytes(params.base_amount_min)
            + u64_le_bytes(params.quote_amount_min),
    }
}

/// Builds the remove-liquidity instruction, or fails before any instruction
/// exists when an address field does not parse.
pub fn make_remove_liquidity_instruction(
    rpc_pool_keys: &PoolKeys,
    user_keys: &IxUserKeys,
    params: RemoveLiquidityInstructionParams,
) -> (r: Result<InstructionSpec, Error>)
    ensures
        r is Ok <==> remove_liquidity_keys_ok(*rpc_pool_keys),
        r matches Ok(ix) ==> ix@ == remove_liquidity_ix_model(*rpc_pool_keys, user_keys@, params),
        r matches Err(e) ==> e is RpcClient,
{
    let mut data: Vec<u8> = Vec::new();
    data.push(4u8);
    crate::instruction::push_u64_le(&mut data, params.lp_amount);
    crate::instruction::push_u64_le(&mut data, params.base_amount_min);
    crate::instruction::push_u64_le(&mut data, params.quote_amount_min);

    let program_id = crate::address::pubkey_from_str(rpc_pool_keys.programId.as_str())?;
    let id = crate::address::pubkey_from_str(rpc_pool_keys.id.as_str())?;
    let authority = crate::address::pubkey_from_str(rpc_pool_keys.authority.as_str())?;
    let open_orders = crate::address::pubkey_from_str(rpc_pool_keys.openOrders.as_str())?;
    let target_orders = crate::address::pubkey_from_str(rpc_pool_keys.targetOrders.as_str())?;
    let mint_lp = crate::address::pubkey_from_str(rpc_pool_keys.mintLp.address.as_str())?;
    let vault_a = crate::address::pubkey_from_str(rpc_pool_keys.vault.A.as_str())?;
    let vault_b = crate::address::pubkey_from_str(rpc_pool_keys.vault.B.as_str())?;
    let market_program_id = crate::address::pubkey_from_str(
        rpc_pool_keys.marketProgramId.as_str(),
    )?;
    let market_id = crate::address::pubkey_from_str(rpc_pool_keys.marketId.as_str())?;
    let market_base_vault = crate::address::pubkey_from_str(
        rpc_pool_keys.marketBaseVault.as_str(),
    )?;
    let market_quote_vault = crate::address::pubkey_from_str(
        rpc_pool_keys.marketQuoteVault.as_str(),
    )?;
    let market_authority = crate::address::pubkey_from_str(
        rpc_pool_keys.marketAuthority.as_str(),
    )?;
    let market_event_queue = crate::address::pubkey_from_str(
        rpc_pool_keys.marketEventQueue.as_str(),
    )?;
    let market_bids = crate::address::pubkey_from_str(rpc_pool_keys.marketBids.as_str())?;
    let market_asks = crate::address::pubkey_from_str(rpc_pool_keys.marketAsks.as_str())?;

    let mut keys: Vec<AccountRef> = Vec::new();
    keys.push(AccountRef {
        address: crate::address::token_program_address(),
        is_signer: false,
        is_writable: false,
    });
    keys.push(AccountRef { address: id.dup(), is_signer: false, is_writable: true });
    keys.push(AccountRef { address: authority, is_signer: false, is_writable: false });
    keys.push(AccountRef { address: open_orders, is_signer: false, is_writable: true });
    keys.push(AccountRef { address: target_orders, is_signer: false, is_writable: true });
    keys.push(AccountRef { address: mint_lp, is_signer: false, is_writable: true });
    keys.push(AccountRef { address: vault_a, is_signer: false, is_writable: true });
    keys.push(AccountRef { address: vault_b, is_signer: false, is_writable: true });
    keys.push(AccountRef { address: id.dup(), is_signer: false, is_writable: false });
    keys.push(AccountRef { address: id, is_signer: false, is_writable: false });
    keys.push(AccountRef { address: market_program_id, is_signer: false, is_writable: false });
    keys.push(AccountRef { address: market_id, is_signer: false, is_writable: true });
    keys.push(AccountRef { address: market_base_vault, is_signer: false, is_writable: true });
    keys.push(AccountRef { address: market_quote_vault, is_signer: false, is_writable: true });
    keys.push(AccountRef { address: market_authority, is_signer: false, is_writable: false });
    keys.push(AccountRef {
        address: user_keys.lp_token_account.dup(),
        is_signer: false,
        is_writable: true,
    });
    keys.push(AccountRef {
        address: user_keys.base_token_account.dup(),
        is_signer: false,
        is_writable: true,
    });
    keys.push(AccountRef {
        address: user_keys.quote_token_account.dup(),
        is_signer: false,
        is_writable: true,
    });
    keys.push(AccountRef { address: user_keys.owner.dup(), is_signer: true, is_writable: false });
    keys.push(AccountRef { address: market_event_queue, is_signer: false, is_writable: true });
    keys.push(AccountRef { address: market_bids, is_signer: false, is_writable: true });
    keys.push(AccountRef { address: market_asks, is_signer: false, is_writable: true });

    let r = InstructionSpec { program_id, accounts: keys, data };
    proof {
        let m = remove_liquidity_ix_model(*rpc_pool_keys, user_keys@, params);
        assert(r@.data =~= m.data);
        assert(r@.accounts =~= m.accounts);
        assert(r@ =~= m);
    }
    Ok(r)
}

} // verus!
