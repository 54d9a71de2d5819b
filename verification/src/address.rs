use vstd::prelude::*;
use vstd::string::StringExecFns;

use crate::error::Error;

verus! {

/// A 32-byte on-chain account address, held decoded. The text form a pool
/// snapshot carries is turned into this via `parse_address`.
#[derive(Debug)]
pub struct Address {
    pub bytes: Vec<u8>,
}

impl Address {
    pub open spec fn wf(self) -> bool {
        self.bytes@.len() == 32
    }

    /// An owned copy of this address.
    pub fn dup(&self) -> (r: Address)
        ensures
            r@ == self@,
    {
        let mut out: Vec<u8> = Vec::new();
        let mut i: usize = 0;
        while i < self.bytes.len()
            invariant
                i <= self.bytes@.len(),
                out@ == self.bytes@.subrange(0, i as int),
            decreases self.bytes@.len() - i,
        {
            out.push(self.bytes[i]);
            proof {
                assert(out@ =~= self.bytes@.subrange(0, i + 1));
            }
            i = i + 1;
        }
        proof {
            assert(out@ =~= self.bytes@);
        }
        Address { bytes: out }
    }
}

impl View for Address {
    type V = Seq<u8>;

    open spec fn view(&self) -> Seq<u8> {
        self.bytes@
    }
}

/// Whether two addresses hold the same 32 bytes.
pub fn address_eq(a: &Address, b: &Address) -> (r: bool)
    ensures
        r == (a@ == b@),
{
    if a.bytes.len() != b.bytes.len() {
        proof {
            assert(a@ != b@);
        }
        return false;
    }
    let mut i: usize = 0;
    while i < a.bytes.len()
        invariant
            i <= a.bytes@.len(),
            a.bytes@.len() == b.bytes@.len(),
            forall|k: int| 0 <= k < i ==> a.bytes@[k] == b.bytes@[k],
        decreases a.bytes@.len() - i,
    {
        if a.bytes[i] != b.bytes[i] {
            proof {
                assert(a@ != b@);
            }
            return false;
        }
        i = i + 1;
    }
    proof {
        assert(a@ =~= b@);
    }
    true
}

/// What base58 text decodes to, when it decodes to exactly 32 bytes.
/// Stands for the result of `Pubkey::from_str`, a function of the text alone.
pub uninterp spec fn base58_decoded(s: Seq<char>) -> Option<Seq<u8>>;

/// Whether address text parses into 32 bytes.
pub open spec fn parseable(s: Seq<char>) -> bool {
    base58_decoded(s) is Some
}

/// The bytes address text parses into.
pub open spec fn parsed(s: Seq<char>) -> Seq<u8> {
    base58_decoded(s).unwrap()
}

/// Relies on solana_program::pubkey::Pubkey::from_str: base58 text either
/// decodes to exactly 32 bytes or is rejected, depending on the text alone.
#[verifier::external_body]
pub fn parse_address(s: &str) -> (r: Option<Address>)
    ensures
        r is Some <==> base58_decoded(s@) is Some,
        r matches Some(a) ==> a@ == base58_decoded(s@).unwrap() && a.wf(),
{
    match <solana_program::pubkey::Pubkey as std::str::FromStr>::from_str(s) {
        Ok(p) => Some(Address { bytes: p.to_bytes().to_vec() }),
        Err(_) => None,
    }
}

/// Parses an address string, reporting a malformed one as an RPC-format error.
pub fn pubkey_from_str(s: &str) -> (r: Result<Address, Error>)
    ensures
        r is Ok <==> base58_decoded(s@) is Some,
        r matches Ok(a) ==> a@ == base58_decoded(s@).unwrap() && a.wf(),
        r matches Err(e) ==> e is RpcClient,
{
    match parse_address(s) {
        Some(a) => Ok(a),
        None => Err(Error::RpcClient(String::from_str("invalid account address"))),
    }
}

/// The SPL token program, base58 `TokenkegQfeZyiNwAJbNbGKPFXCWuBvf9Ss623VQ5DA`.
pub open spec fn token_program_id() -> Seq<u8> {
    seq![
        6u8, 221u8, 246u8, 225u8, 215u8, 101u8, 161u8, 147u8, 217u8, 203u8, 225u8, 70u8, 206u8,
        235u8, 121u8, 172u8, 28u8, 180u8, 133u8, 237u8, 95u8, 91u8, 55u8, 145u8, 58u8, 140u8,
        245u8, 133u8, 126u8, 255u8, 0u8, 169u8,
    ]
}

/// The associated-token-account program, base58
/// `ATokenGPvbdGVxr1b2hvZbsiqW5xWH25efTNsLJA8knL`.
pub open spec fn associated_token_program_id() -> Seq<u8> {
    seq![
        140u8, 151u8, 37u8, 143u8, 78u8, 36u8, 137u8, 241u8, 187u8, 61u8, 16u8, 41u8, 20u8, 142u8,
        13u8, 131u8, 11u8, 90u8, 19u8, 153u8, 218u8, 255u8, 16u8, 132u8, 4u8, 142u8, 123u8, 216u8,
        219u8, 233u8, 248u8, 89u8,
    ]
}

/// The rent sysvar, base58 `SysvarRent111111111111111111111111111111111`.
pub open spec fn rent_sysvar_id() -> Seq<u8> {
    seq![
        6u8, 167u8, 213u8, 23u8, 25u8, 44u8, 92u8, 81u8, 33u8, 140u8, 201u8, 76u8, 61u8, 74u8,
        241u8, 127u8, 88u8, 218u8, 238u8, 8u8, 155u8, 161u8, 253u8, 68u8, 227u8, 219u8, 217u8,
        138u8, 0u8, 0u8, 0u8, 0u8,
    ]
}

/// The wrapped-native-asset mint, base58
/// `So11111111111111111111111111111111111111112`.
pub open spec fn wsol_mint_id() -> Seq<u8> {
    seq![
        6u8, 155u8, 136u8, 87u8, 254u8, 171u8, 129u8, 132u8, 251u8, 104u8, 127u8, 99u8, 70u8, 24u8,
        192u8, 53u8, 218u8, 196u8, 57u8, 220u8, 26u8, 235u8, 59u8, 85u8, 152u8, 160u8, 240u8, 0u8,
        0u8, 0u8, 0u8, 1u8,
    ]
}

/// The compute-budget program, base58
/// `ComputeBudget111111111111111111111111111111`.
pub open spec fn compute_budget_program_id() -> Seq<u8> {
    seq![
        3u8, 6u8, 70u8, 111u8, 229u8, 33u8, 23u8, 50u8, 255u8, 236u8, 173u8, 186u8, 114u8, 195u8,
        155u8, 231u8, 188u8, 140u8, 229u8, 187u8, 197u8, 247u8, 18u8, 107u8, 44u8, 67u8, 155u8,
        58u8, 64u8, 0u8, 0u8, 0u8,
    ]
}

/// The system program, base58 `11111111111111111111111111111111` (32 zero bytes).
pub open spec fn system_program_id() -> Seq<u8> {
    Seq::new(32, |i: int| 0u8)
}

/// The SPL token program as a run-time address.
pub fn token_program_address() -> (a: Address)
    ensures
        a@ == token_program_id(),
        a.wf(),
{
    let bytes: Vec<u8> = vec![
        6u8, 221u8, 246u8, 225u8, 215u8, 101u8, 161u8, 147u8, 217u8, 203u8, 225u8, 70u8, 206u8,
        235u8, 121u8, 172u8, 28u8, 180u8, 133u8, 237u8, 95u8, 91u8, 55u8, 145u8, 58u8, 140u8,
        245u8, 133u8, 126u8, 255u8, 0u8, 169u8,
    ];
    proof {
        assert(bytes@ =~= token_program_id());
    }
    Address { bytes }
}

/// The wrapped-native-asset mint as a run-time address.
pub fn wsol_mint_address() -> (a: Address)
    ensures
        a@ == wsol_mint_id(),
        a.wf(),
{
    let bytes: Vec<u8> = vec![
        6u8, 155u8, 136u8, 87u8, 254u8, 171u8, 129u8, 132u8, 251u8, 104u8, 127u8, 99u8, 70u8, 24u8,
        192u8, 53u8, 218u8, 196u8, 57u8, 220u8, 26u8, 235u8, 59u8, 85u8, 152u8, 160u8, 240u8, 0u8,
        0u8, 0u8, 0u8, 1u8,
    ];
    proof {
        assert(bytes@ =~= wsol_mint_id());
    }
    Address { bytes }
}

} // verus!
