use vstd::prelude::*;
use vstd::string::StringExecFns;
use solana_program::pubkey::Pubkey;

use crate::address::{
    associated_token_program_id, compute_budget_program_id, rent_sysvar_id, system_program_id,
    token_program_id, Address,
};

verus! {

/// One account reference of an instruction: the address plus the protocol's
/// read/write and signer flags for that position.
#[derive(Debug)]
pub struct AccountRef {
    pub address: Address,
    pub is_signer: bool,
    pub is_writable: bool,
}

/// A fully built instruction: program id, ordered account references and the
/// opaque byte payload. Ordering and flags are part of the wire contract.
#[derive(Debug)]
pub struct InstructionSpec {
    pub program_id: Address,
    pub accounts: Vec<AccountRef>,
    pub data: Vec<u8>,
}

/// The mathematical image of an account reference.
#[verifier::ext_equal]
pub struct AccountMetaModel {
    pub address: Seq<u8>,
    pub is_signer: bool,
    pub is_writable: bool,
}

/// The mathematical image of an instruction.
#[verifier::ext_equal]
pub struct InstructionModel {
    pub program_id: Seq<u8>,
    pub accounts: Seq<AccountMetaModel>,
    pub data: Seq<u8>,
}

impl View for AccountRef {
    type V = AccountMetaModel;

    open spec fn view(&self) -> AccountMetaModel {
        AccountMetaModel {
            address: self.address@,
            is_signer: self.is_signer,
            is_writable: self.is_writable,
        }
    }
}

impl View for InstructionSpec {
    type V = InstructionModel;

    open spec fn view(&self) -> InstructionModel {
        InstructionModel {
            program_id: self.program_id@,
            accounts: self.accounts@.map_values(|a: AccountRef| a@),
            data: self.data@,
        }
    }
}

pub open spec fn meta_model(address: Seq<u8>, is_signer: bool, is_writable: bool) -> AccountMetaModel {
    AccountMetaModel { address, is_signer, is_writable }
}

/// The little-endian bytes of a 64-bit integer.
pub open spec fn u64_le_bytes(v: u64) -> Seq<u8> {
    seq![
        (v & 0xff) as u8,
        ((v >> 8) & 0xff) as u8,
        ((v >> 16) & 0xff) as u8,
        ((v >> 24) & 0xff) as u8,
        ((v >> 32) & 0xff) as u8,
        ((v >> 40) & 0xff) as u8,
        ((v >> 48) & 0xff) as u8,
        ((v >> 56) & 0xff) as u8,
    ]
}

/// The little-endian bytes of a 32-bit integer.
pub open spec fn u32_le_bytes(v: u32) -> Seq<u8> {
    seq![(v & 0xff) as u8, ((v >> 8) & 0xff) as u8, ((v >> 16) & 0xff) as u8, ((v >> 24)
        & 0xff) as u8]
}

/// Appends the 8 little-endian bytes of `v`.
pub fn push_u64_le(out: &mut Vec<u8>, v: u64)
    ensures
        final(out)@ == old(out)@ + u64_le_bytes(v),
{
    out.push(#[verifier::truncate] ((v & 0xff) as u8));
    out.push(#[verifier::truncate] (((v >> 8) & 0xff) as u8));
    out.push(#[verifier::truncate] (((v >> 16) & 0xff) as u8));
    out.push(#[verifier::truncate] (((v >> 24) & 0xff) as u8));
    out.push(#[verifier::truncate] (((v >> 32) & 0xff) as u8));
    out.push(#[verifier::truncate] (((v >> 40) & 0xff) as u8));
    out.push(#[verifier::truncate] (((v >> 48) & 0xff) as u8));
    out.push(#[verifier::truncate] (((v >> 56) & 0xff) as u8));
    proof {
        assert(out@ =~= old(out)@ + u64_le_bytes(v));
    }
}

/// Appends the 4 little-endian bytes of `v`.
pub fn push_u32_le(out: &mut Vec<u8>, v: u32)
    ensures
        final(out)@ == old(out)@ + u32_le_bytes(v),
{
    out.push(#[verifier::truncate] ((v & 0xff) as u8));
    out.push(#[verifier::truncate] (((v >> 8) & 0xff) as u8));
    out.push(#[verifier::truncate] (((v >> 16) & 0xff) as u8));
    out.push(#[verifier::truncate] (((v >> 24) & 0xff) as u8));
    proof {
        assert(out@ =~= old(out)@ + u32_le_bytes(v));
    }
}

/// What the system program's create-account instruction looks like: both
/// accounts writable signers, payload = little-endian tag 0, the two 64-bit
/// fields, then the owning program's 32 bytes.
pub open spec fn create_account_ix_model(
    from: Seq<u8>,
    to: Seq<u8>,
    lamports: u64,
    space: u64,
    owner: Seq<u8>,
) -> InstructionModel {
    InstructionModel {
        program_id: system_program_id(),
        accounts: seq![meta_model(from, true, true), meta_model(to, true, true)],
        data: seq![0u8, 0u8, 0u8, 0u8] + u64_le_bytes(lamports) + u64_le_bytes(space) + owner,
    }
}

/// What the token program's initialize-account instruction looks like.
pub open spec fn initialize_account_ix_model(
    account: Seq<u8>,
    mint: Seq<u8>,
    owner: Seq<u8>,
) -> InstructionModel {
    InstructionModel {
        program_id: token_program_id(),
        accounts: seq![
            meta_model(account, false, true),
            meta_model(mint, false, false),
            meta_model(owner, false, false),
            meta_model(rent_sysvar_id(), false, false),
        ],
        data: seq![1u8],
    }
}

/// What the token program's close-account instruction looks like, with no
/// multisig signers: the owner position itself carries the signer flag.
pub open spec fn close_account_ix_model(
    account: Seq<u8>,
    destination: Seq<u8>,
    owner: Seq<u8>,
) -> InstructionModel {
    InstructionModel {
        program_id: token_program_id(),
        accounts: seq![
            meta_model(account, false, true),
            meta_model(destination, false, true),
            meta_model(owner, true, false),
        ],
        data: seq![9u8],
    }
}

/// The deterministic associated-token-account address for a wallet and a
/// mint under the SPL token program. Stands for the program-derived address
/// that `get_associated_token_address_with_program_id` computes, a function
/// of its arguments alone.
pub uninterp spec fn associated_token_addr(wallet: Seq<u8>, mint: Seq<u8>) -> Seq<u8>;

/// What the associated-token-account program's create instruction looks
/// like: the payload is the single-byte create tag.
pub open spec fn create_associated_token_account_ix_model(
    funding: Seq<u8>,
    wallet: Seq<u8>,
    mint: Seq<u8>,
) -> InstructionModel {
    InstructionModel {
        program_id: associated_token_program_id(),
        accounts: seq![
            meta_model(funding, true, true),
            meta_model(associated_token_addr(wallet, mint), false, true),
            meta_model(wallet, false, false),
            meta_model(mint, false, false),
            meta_model(system_program_id(), false, false),
            meta_model(token_program_id(), false, false),
        ],
        data: seq![0u8],
    }
}

/// What a compute-budget unit-price instruction looks like: no accounts,
/// payload = tag 3 then the price, little-endian.
pub open spec fn set_compute_unit_price_ix_model(micro_lamports: u64) -> InstructionModel {
    InstructionModel {
        program_id: compute_budget_program_id(),
        accounts: Seq::empty(),
        data: seq![3u8] + u64_le_bytes(micro_lamports),
    }
}

/// What a compute-budget unit-limit instruction looks like: no accounts,
/// payload = tag 2 then the limit, little-endian.
pub open spec fn set_compute_unit_limit_ix_model(units: u32) -> InstructionModel {
    InstructionModel {
        program_id: compute_budget_program_id(),
        accounts: Seq::empty(),
        data: seq![2u8] + u32_le_bytes(units),
    }
}

/// Relies on spl_associated_token_account::get_associated_token_address_with_program_id,
/// called with the SPL token program: the derived address depends on the
/// wallet and mint alone.
#[verifier::external_body]
pub fn get_associated_token_address(wallet: &Address, mint: &Address) -> (r: Address)
    requires
        wallet.wf(),
        mint.wf(),
    ensures
        r@ == associated_token_addr(wallet@, mint@),
        r.wf(),
{
    let a = spl_associated_token_account::get_associated_token_address_with_program_id(
        &Pubkey::try_from(wallet.bytes.as_slice()).unwrap(),
        &Pubkey::try_from(mint.bytes.as_slice()).unwrap(),
        &spl_token::id(),
    );
    Address { bytes: a.to_bytes().to_vec() }
}

/// Relies on solana_program::system_instruction::create_account: two
/// writable signer accounts and the bincode payload of the create variant
/// (little-endian u32 tag 0, lamports, space, owner bytes).
#[verifier::external_body]
pub fn create_account_ix(
    from: &Address,
    to: &Address,
    lamports: u64,
    space: u64,
    owner_program: &Address,
) -> (r: InstructionSpec)
    requires
        from.wf(),
        to.wf(),
        owner_program.wf(),
    ensures
        r@ == create_account_ix_model(from@, to@, lamports, space, owner_program@),
{
    let ix = solana_program::system_instruction::create_account(
        &Pubkey::try_from(from.bytes.as_slice()).unwrap(),
        &Pubkey::try_from(to.bytes.as_slice()).unwrap(),
        lamports,
        space,
        &Pubkey::try_from(owner_program.bytes.as_slice()).unwrap(),
    );
    InstructionSpec {
        program_id: Address { bytes: ix.program_id.to_bytes().to_vec() },
        accounts: ix.accounts.iter().map(|m| AccountRef {
            address: Address { bytes: m.pubkey.to_bytes().to_vec() },
            is_signer: m.is_signer, is_writable: m.is_writable,
        }).collect(),
        data: ix.data,
    }
}

/// Relies on spl_token::instruction::initialize_account, called with the
/// SPL token program id, which that builder accepts by its own check.
#[verifier::external_body]
pub fn initialize_account_ix(account: &Address, mint: &Address, owner: &Address) -> (r:
    InstructionSpec)
    requires
        account.wf(),
        mint.wf(),
        owner.wf(),
    ensures
        r@ == initialize_account_ix_model(account@, mint@, owner@),
{
    let ix = spl_token::instruction::initialize_account(
        &spl_token::id(),
        &Pubkey::try_from(account.bytes.as_slice()).unwrap(),
        &Pubkey::try_from(mint.bytes.as_slice()).unwrap(),
        &Pubkey::try_from(owner.bytes.as_slice()).unwrap(),
    ).unwrap();
    InstructionSpec {
        program_id: Address { bytes: ix.program_id.to_bytes().to_vec() },
        accounts: ix.accounts.iter().map(|m| AccountRef {
            address: Address { bytes: m.pubkey.to_bytes().to_vec() },
            is_signer: m.is_signer, is_writable: m.is_writable,
        }).collect(),
        data: ix.data,
    }
}

/// Relies on spl_token::instruction::close_account, called with the SPL
/// token program id and no multisig signers: the owner is the signer.
#[verifier::external_body]
pub fn close_account_ix(account: &Address, destination: &Address, owner: &Address) -> (r:
    InstructionSpec)
    requires
        account.wf(),
        destination.wf(),
        owner.wf(),
    ensures
        r@ == close_account_ix_model(account@, destination@, owner@),
{
    let ix = spl_token::instruction::close_account(
        &spl_token::id(),
        &Pubkey::try_from(account.bytes.as_slice()).unwrap(),
        &Pubkey::try_from(destination.bytes.as_slice()).unwrap(),
        &Pubkey::try_from(owner.bytes.as_slice()).unwrap(),
        &[],
    ).unwrap();
    InstructionSpec {
        program_id: Address { bytes: ix.program_id.to_bytes().to_vec() },
        accounts: ix.accounts.iter().map(|m| AccountRef {
            address: Address { bytes: m.pubkey.to_bytes().to_vec() },
            is_signer: m.is_signer, is_writable: m.is_writable,
        }).collect(),
        data: ix.data,
    }
}

/// Relies on spl_associated_token_account::instruction::create_associated_token_account,
/// called with the SPL token program.
#[verifier::external_body]
pub fn create_associated_token_account_ix(funding: &Address, wallet: &Address, mint: &Address)
    -> (r: InstructionSpec)
    requires
        funding.wf(),
        wallet.wf(),
        mint.wf(),
    ensures
        r@ == create_associated_token_account_ix_model(funding@, wallet@, mint@),
{
    let ix = spl_associated_token_account::instruction::create_associated_token_account(
        &Pubkey::try_from(funding.bytes.as_slice()).unwrap(),
        &Pubkey::try_from(wallet.bytes.as_slice()).unwrap(),
        &Pubkey::try_from(mint.bytes.as_slice()).unwrap(),
        &spl_token::id(),
    );
    InstructionSpec {
        program_id: Address { bytes: ix.program_id.to_bytes().to_vec() },
        accounts: ix.accounts.iter().map(|m| AccountRef {
            address: Address { bytes: m.pubkey.to_bytes().to_vec() },
            is_signer: m.is_signer, is_writable: m.is_writable,
        }).collect(),
        data: ix.data,
    }
}

/// Relies on solana_sdk::compute_budget::ComputeBudgetInstruction::set_compute_unit_price:
/// the borsh payload of variant 3 with no accounts.
#[verifier::external_body]
pub fn set_compute_unit_price_ix(micro_lamports: u64) -> (r: InstructionSpec)
    ensures
        r@ == set_compute_unit_price_ix_model(micro_lamports),
{
    let ix = solana_sdk::compute_budget::ComputeBudgetInstruction::set_compute_unit_price(
        micro_lamports,
    );
    InstructionSpec {
        program_id: Address { bytes: ix.program_id.to_bytes().to_vec() },
        accounts: ix.accounts.iter().map(|m| AccountRef {
            address: Address { bytes: m.pubkey.to_bytes().to_vec() },
            is_signer: m.is_signer, is_writable: m.is_writable,
        }).collect(),
        data: ix.data,
    }
}

/// Relies on solana_sdk::compute_budget::ComputeBudgetInstruction::set_compute_unit_limit:
/// the borsh payload of variant 2 with no accounts.
#[verifier::external_body]
pub fn set_compute_unit_limit_ix(units: u32) -> (r: InstructionSpec)
    ensures
        r@ == set_compute_unit_limit_ix_model(units),
{
    let ix = solana_sdk::compute_budget::ComputeBudgetInstruction::set_compute_unit_limit(units);
    InstructionSpec {
        program_id: Address { bytes: ix.program_id.to_bytes().to_vec() },
        accounts: ix.accounts.iter().map(|m| AccountRef {
            address: Address { bytes: m.pubkey.to_bytes().to_vec() },
            is_signer: m.is_signer, is_writable: m.is_writable,
        }).collect(),
        data: ix.data,
    }
}

/// Which optional compute-budget directives to prepend to a transaction.
pub struct ComputeBudgetConfig {
    pub micro_lamports: Option<u64>,
    pub units: Option<u32>,
}

/// An instruction paired with the name of what it does.
#[derive(Debug)]
pub struct InstructionWithType {
    pub instruction: InstructionSpec,
    pub instruction_type: String,
}

/// The compute-budget instructions a configuration calls for, in order:
/// unit price first, then unit limit, each only when requested.
pub open spec fn compute_budget_models(config: ComputeBudgetConfig) -> Seq<InstructionModel> {
    (match config.micro_lamports {
        Some(m) => seq![set_compute_unit_price_ix_model(m)],
        None => Seq::empty(),
    }) + (match config.units {
        Some(u) => seq![set_compute_unit_limit_ix_model(u)],
        None => Seq::empty(),
    })
}

/// Builds the compute-budget instructions for a configuration, appending
/// one per requested directive and none otherwise.
pub fn add_compute_budget(config: &ComputeBudgetConfig) -> (r: Vec<InstructionWithType>)
    ensures
        r@.map_values(|iwt: InstructionWithType| iwt.instruction@) == compute_budget_models(
            *config,
        ),
        config.micro_lamports is Some ==> r@[0].instruction_type@ == "SetComputeUnitPrice"@,
        config.units is Some ==> r@[r@.len() - 1].instruction_type@ == "SetComputeUnitLimit"@,
{
    let mut out: Vec<InstructionWithType> = Vec::new();
    if let Some(micro_lamports) = config.micro_lamports {
        out.push(InstructionWithType {
            instruction: set_compute_unit_price_ix(micro_lamports),
            instruction_type: String::from_str("SetComputeUnitPrice"),
        });
    }
    if let Some(units) = config.units {
        out.push(InstructionWithType {
            instruction: set_compute_unit_limit_ix(units),
            instruction_type: String::from_str("SetComputeUnitLimit"),
        });
    }
    proof {
        assert(out@.map_values(|iwt: InstructionWithType| iwt.instruction@) =~= compute_budget_models(
            *config,
        ));
    }
    out
}

} // verus!
