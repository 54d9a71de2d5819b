use vstd::prelude::*;
use vstd::string::StringExecFns;

use crate::address::{token_program_id, wsol_mint_id, Address};
use crate::error::{Error, ErrorKind};
use crate::instruction::{
    associated_token_addr, close_account_ix, close_account_ix_model, create_account_ix,
    create_account_ix_model, create_associated_token_account_ix,
    create_associated_token_account_ix_model, get_associated_token_address, initialize_account_ix,
    initialize_account_ix_model, InstructionModel, InstructionSpec,
};

verus! {

/// Whether the account holds an input balance the operation spends or
/// receives an output balance.
pub enum TokenSide {
    In,
    Out,
}

/// The inputs of one token-account resolution.
pub struct HandleTokenAccountParams {
    pub side: TokenSide,
    pub amount: u64,
    pub mint: Address,
    pub token_account: Option<Address>,
    pub bypass_associated_check: bool,
    pub skip_close_account: bool,
    pub check_create_ata_owner: bool,
}

#[verifier::ext_equal]
pub struct HandleTokenAccountParamsModel {
    pub side: TokenSide,
    pub amount: u64,
    pub mint: Seq<u8>,
    pub token_account: Option<Seq<u8>>,
    pub bypass_associated_check: bool,
    pub skip_close_account: bool,
    pub check_create_ata_owner: bool,
}

impl View for HandleTokenAccountParams {
    type V = HandleTokenAccountParamsModel;

    open spec fn view(&self) -> HandleTokenAccountParamsModel {
        HandleTokenAccountParamsModel {
            side: self.side,
            amount: self.amount,
            mint: self.mint@,
            token_account: match self.token_account {
                Some(t) => Some(t@),
                None => None,
            },
            bypass_associated_check: self.bypass_associated_check,
            skip_close_account: self.skip_close_account,
            check_create_ata_owner: self.check_create_ata_owner,
        }
    }
}

/// What the chain shows at the associated account address: nothing, an
/// account that is not a token account, or a token account's mint and owner.
pub enum AccountQuery {
    Absent,
    Opaque,
    Token { mint: Address, owner: Address },
}

/// The chain state a resolution decides over, read before deciding: the
/// rent-exemption minimum for a token account, the payer's native balance,
/// and what stands at the associated account address.
pub struct ChainAccountFacts {
    pub rent_exempt_min: u64,
    pub payer_lamports: u64,
    pub associated_account: AccountQuery,
}

#[verifier::ext_equal]
pub enum AccountQueryModel {
    Absent,
    Opaque,
    Token { mint: Seq<u8>, owner: Seq<u8> },
}

impl View for AccountQuery {
    type V = AccountQueryModel;

    open spec fn view(&self) -> AccountQueryModel {
        match self {
            AccountQuery::Absent => AccountQueryModel::Absent,
            AccountQuery::Opaque => AccountQueryModel::Opaque,
            AccountQuery::Token { mint, owner } => AccountQueryModel::Token {
                mint: mint@,
                owner: owner@,
            },
        }
    }
}

#[verifier::ext_equal]
pub struct ChainAccountFactsModel {
    pub rent_exempt_min: u64,
    pub payer_lamports: u64,
    pub associated_account: AccountQueryModel,
}

impl View for ChainAccountFacts {
    type V = ChainAccountFactsModel;

    open spec fn view(&self) -> ChainAccountFactsModel {
        ChainAccountFactsModel {
            rent_exempt_min: self.rent_exempt_min,
            payer_lamports: self.payer_lamports,
            associated_account: self.associated_account@,
        }
    }
}

/// The resolved account, the setup and teardown instructions it needs, and
/// the ephemeral signers those instructions require.
#[derive(Debug)]
pub struct TokenAccountInfo {
    pub token_account: Address,
    pub start_instructions: Vec<InstructionSpec>,
    pub end_instructions: Vec<InstructionSpec>,
    pub instruction_types: Vec<String>,
    pub additional_signers: Vec<Address>,
}

#[verifier::ext_equal]
pub struct TokenAccountInfoModel {
    pub token_account: Seq<u8>,
    pub start_instructions: Seq<InstructionModel>,
    pub end_instructions: Seq<InstructionModel>,
    pub instruction_types: Seq<Seq<char>>,
    pub additional_signers: Seq<Seq<u8>>,
}

impl View for TokenAccountInfo {
    type V = TokenAccountInfoModel;

    open spec fn view(&self) -> TokenAccountInfoModel {
        TokenAccountInfoModel {
            token_account: self.token_account@,
            start_instructions: self.start_instructions@.map_values(|i: InstructionSpec| i@),
            end_instructions: self.end_instructions@.map_values(|i: InstructionSpec| i@),
            instruction_types: self.instruction_types@.map_values(|s: String| s@),
            additional_signers: self.additional_signers@.map_values(|a: Address| a@),
        }
    }
}

/// The packed byte size of an SPL token account, the space a fresh
/// wrap account is created with.
pub const TOKEN_ACCOUNT_LEN: u64 = 165;

/// The flat fee estimate reserved on top of rent when wrapping the native
/// asset.
pub const WRAP_FEE_ESTIMATE: u64 = 5000;

/// A resolution that reuses an existing account: no instructions, no signers.
pub open spec fn reuse_model(account: Seq<u8>) -> TokenAccountInfoModel {
    TokenAccountInfoModel {
        token_account: account,
        start_instructions: Seq::empty(),
        end_instructions: Seq::empty(),
        instruction_types: Seq::empty(),
        additional_signers: Seq::empty(),
    }
}

/// Whether the resolution must target the associated account: no explicit
/// account was given, or an output-role account differs from the associated
/// one and the check is not bypassed.
pub open spec fn needs_associated_account(
    params: HandleTokenAccountParamsModel,
    payer: Seq<u8>,
) -> bool {
    ||| params.token_account is None
    ||| (params.side is Out && !(params.token_account matches Some(t) && t
        == associated_token_addr(payer, params.mint)) && !params.bypass_associated_check)
}

/// What resolution returns, as a function of its inputs and the chain facts.
pub open spec fn handle_token_account_model(
    params: HandleTokenAccountParamsModel,
    payer: Seq<u8>,
    facts: ChainAccountFactsModel,
    fresh: Seq<u8>,
) -> Result<TokenAccountInfoModel, ErrorKind> {
    let ata = associated_token_addr(payer, params.mint);
    if params.mint == wsol_mint_id() {
        if (facts.payer_lamports as int) < params.amount + facts.rent_exempt_min
            + WRAP_FEE_ESTIMATE {
            Err(ErrorKind::InsufficientBalance)
        } else {
            Ok(TokenAccountInfoModel {
                token_account: fresh,
                start_instructions: seq![
                    create_account_ix_model(
                        payer,
                        fresh,
                        (facts.rent_exempt_min + params.amount) as u64,
                        TOKEN_ACCOUNT_LEN,
                        token_program_id(),
                    ),
                    initialize_account_ix_model(fresh, params.mint, payer),
                ],
                end_instructions: if params.skip_close_account {
                    Seq::empty()
                } else {
                    seq![close_account_ix_model(fresh, payer, payer)]
                },
                instruction_types: seq!["CreateWSolAccount"@, "CloseWSolAccount"@],
                additional_signers: seq![fresh],
            })
        }
    } else if needs_associated_account(params, payer) {
        if params.check_create_ata_owner && !(facts.associated_account is Absent) {
            if facts.associated_account matches AccountQueryModel::Token { mint, owner } && mint
                == params.mint && owner == payer {
                Ok(reuse_model(ata))
            } else {
                Err(ErrorKind::InvalidTokenAccount)
            }
        } else {
            Ok(TokenAccountInfoModel {
                token_account: ata,
                start_instructions: seq![
                    create_associated_token_account_ix_model(payer, payer, params.mint),
                ],
                end_instructions: Seq::empty(),
                instruction_types: seq!["CreateATA"@],
                additional_signers: Seq::empty(),
            })
        }
    } else {
        Ok(reuse_model(
            match params.token_account {
                Some(t) => t,
                None => ata,
            },
        ))
    }
}

/// Resolves the account that will hold the balance of `params.mint` for
/// this operation, together with the setup and teardown instructions that
/// make it usable, deciding over the chain facts handed in. For the
/// native-wrap mint the fresh single-use address becomes the account and
/// its one-time key the only additional signer.
pub fn handle_token_account(
    params: HandleTokenAccountParams,
    payer: &Address,
    facts: &ChainAccountFacts,
    fresh_account: &Address,
) -> (r: Result<TokenAccountInfo, Error>)
    requires
        params.mint.wf(),
        payer.wf(),
        fresh_account.wf(),
    ensures
        r is Ok <==> handle_token_account_model(params@, payer@, facts@, fresh_account@) is Ok,
        r matches Ok(info) ==> Ok::<TokenAccountInfoModel, ErrorKind>(info@)
            == handle_token_account_model(params@, payer@, facts@, fresh_account@),
        r matches Err(e) ==> Err::<TokenAccountInfoModel, ErrorKind>(e.kind())
            == handle_token_account_model(params@, payer@, facts@, fresh_account@),
{
    let ghost model = handle_token_account_model(params@, payer@, facts@, fresh_account@);
    let ata = get_associated_token_address(payer, &params.mint);

    if crate::address::address_eq(&params.mint, &crate::address::wsol_mint_address()) {
        let amount128 = params.amount as u128;
        let needed: u128 = amount128 + (facts.rent_exempt_min as u128) + (
        WRAP_FEE_ESTIMATE as u128);
        if (facts.payer_lamports as u128) < needed {
            return Err(Error::InsufficientBalance(String::from_str(
                "insufficient native balance to wrap: amount plus rent plus fee exceeds the payer's balance",
            )));
        }
        let lamports = facts.rent_exempt_min + params.amount;
        let mut start_instructions: Vec<InstructionSpec> = Vec::new();
        start_instructions.push(create_account_ix(
            payer,
            fresh_account,
            lamports,
            TOKEN_ACCOUNT_LEN,
            &crate::address::token_program_address(),
        ));
        start_instructions.push(initialize_account_ix(fresh_account, &params.mint, payer));
        let mut end_instructions: Vec<InstructionSpec> = Vec::new();
        if !params.skip_close_account {
            end_instructions.push(close_account_ix(fresh_account, payer, payer));
        }
        let mut instruction_types: Vec<String> = Vec::new();
        instruction_types.push(String::from_str("CreateWSolAccount"));
        instruction_types.push(String::from_str("CloseWSolAccount"));
        let mut additional_signers: Vec<Address> = Vec::new();
        additional_signers.push(fresh_account.dup());
        let info = TokenAccountInfo {
            token_account: fresh_account.dup(),
            start_instructions,
            end_instructions,
            instruction_types,
            additional_signers,
        };
        proof {
            let m = model->Ok_0;
            assert(info@.start_instructions =~= m.start_instructions);
            assert(info@.end_instructions =~= m.end_instructions);
            assert(info@.instruction_types =~= m.instruction_types);
            assert(info@.additional_signers =~= m.additional_signers);
            assert(info@ =~= m);
        }
        return Ok(info);
    }

    let side_is_out = match params.side {
        TokenSide::Out => true,
        TokenSide::In => false,
    };
    let ata_given = match &params.token_account {
        Some(t) => crate::address::address_eq(t, &ata),
        None => false,
    };
    if params.token_account.is_none() || (side_is_out && !ata_given
        && !params.bypass_associated_check) {
        if params.check_create_ata_owner {
            match &facts.associated_account {
                AccountQuery::Absent => {},
                AccountQuery::Token { mint, owner } => {
                    if crate::address::address_eq(mint, &params.mint) && crate::address::address_eq(
                        owner,
                        payer,
                    ) {
                        let info = TokenAccountInfo {
                            token_account: ata,
                            start_instructions: Vec::new(),
                            end_instructions: Vec::new(),
                            instruction_types: Vec::new(),
                            additional_signers: Vec::new(),
                        };
                        proof {
                            assert(info@ =~= model->Ok_0);
                        }
                        return Ok(info);
                    }
                    return Err(Error::InvalidTokenAccount(String::from_str(
                        "existing associated account fails the mint and owner check",
                    )));
                },
                AccountQuery::Opaque => {
                    return Err(Error::InvalidTokenAccount(String::from_str(
                        "existing associated account is not a token account",
                    )));
                },
            }
        }
        let mut start_instructions: Vec<InstructionSpec> = Vec::new();
        start_instructions.push(create_associated_token_account_ix(payer, payer, &params.mint));
        let mut instruction_types: Vec<String> = Vec::new();
        instruction_types.push(String::from_str("CreateATA"));
        let info = TokenAccountInfo {
            token_account: ata,
            start_instructions,
            end_instructions: Vec::new(),
            instruction_types,
            additional_signers: Vec::new(),
        };
        proof {
            let m = model->Ok_0;
            assert(info@.start_instructions =~= m.start_instructions);
            assert(info@.instruction_types =~= m.instruction_types);
            assert(info@ =~= m);
        }
        return Ok(info);
    }

    let account = match params.token_account {
        Some(t) => t,
        None => ata,
    };
    let info = TokenAccountInfo {
        token_account: account,
        start_instructions: Vec::new(),
        end_instructions: Vec::new(),
        instruction_types: Vec::new(),
        additional_signers: Vec::new(),
    };
    proof {
        assert(info@ =~= model->Ok_0);
    }
    Ok(info)
}

/// Resolving an output-role, non-native mint with no given account and no
/// existing associated account yields exactly one setup instruction and no
/// teardown instruction.
pub proof fn lemma_output_role_fresh_account(
    params: HandleTokenAccountParamsModel,
    payer: Seq<u8>,
    facts: ChainAccountFactsModel,
    fresh: Seq<u8>,
)
    requires
        params.mint != wsol_mint_id(),
        params.token_account is None,
        params.side is Out,
        facts.associated_account is Absent,
    ensures
        handle_token_account_model(params, payer, facts, fresh) matches Ok(m)
            && m.start_instructions.len() == 1 && m.end_instructions.len() == 0
            && m.additional_signers.len() == 0,
{
}

/// Resolving the native-wrap mint, when it succeeds, always yields exactly
/// one ephemeral signer, and exactly one teardown instruction unless
/// teardown is explicitly skipped.
pub proof fn lemma_native_wrap_signer_and_teardown(
    params: HandleTokenAccountParamsModel,
    payer: Seq<u8>,
    facts: ChainAccountFactsModel,
    fresh: Seq<u8>,
)
    requires
        params.mint == wsol_mint_id(),
        handle_token_account_model(params, payer, facts, fresh) is Ok,
    ensures
        handle_token_account_model(params, payer, facts, fresh) matches Ok(m)
            && m.additional_signers.len() == 1 && m.additional_signers[0] == fresh
            && m.end_instructions.len() == (if params.skip_close_account {
            0int
        } else {
            1int
        }),
{
}

} // verus!
