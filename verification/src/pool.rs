use vstd::prelude::*;

verus! {

/// A mint of the pool as the index service reports it: its address text,
/// its decimal precision, and its display symbol.
pub struct TokenInfo {
    pub address: String,
    pub decimals: u32,
    pub symbol: String,
}

/// The two vault addresses of the pool, one per side.
#[allow(non_snake_case)]
pub struct VaultInfo {
    pub A: String,
    pub B: String,
}

/// Immutable snapshot of a pool's on-chain addresses, as the index service
/// reports them. Read-only to the core; every address is text until parsed.
#[allow(non_snake_case)]
pub struct PoolKeys {
    pub programId: String,
    pub id: String,
    pub mintA: TokenInfo,
    pub mintB: TokenInfo,
    pub vault: VaultInfo,
    pub authority: String,
    pub openOrders: String,
    pub targetOrders: String,
    pub mintLp: TokenInfo,
    pub marketProgramId: String,
    pub marketId: String,
    pub marketAuthority: String,
    pub marketBaseVault: String,
    pub marketQuoteVault: String,
    pub marketBids: String,
    pub marketAsks: String,
    pub marketEventQueue: String,
}

/// The LP mint of the pool: address, precision and symbol.
pub struct LpMintInfo {
    pub address: String,
    pub decimals: u32,
    pub symbol: String,
}

/// Immutable snapshot of the pool economics the core consumes: the two
/// mints and the LP mint. Reserves are read live from the vaults instead.
#[allow(non_snake_case)]
pub struct PoolInfo {
    pub mintA: TokenInfo,
    pub mintB: TokenInfo,
    pub lpMint: LpMintInfo,
}

} // verus!
