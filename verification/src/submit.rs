use vstd::prelude::*;

use crate::address::Address;
use crate::error::Error;
use crate::instruction::{InstructionModel, InstructionSpec};

verus! {

/// Everything a liquidity operation assembles before signing: the
/// compute-budget directives, the account-setup instructions in resolution
/// order, the single main instruction, the teardown instructions in the
/// same order, and the ephemeral signers the setup requires.
#[derive(Debug)]
pub struct TransactionPlan {
    pub compute_budget_instructions: Vec<InstructionSpec>,
    pub setup_instructions: Vec<InstructionSpec>,
    pub main_instruction: InstructionSpec,
    pub teardown_instructions: Vec<InstructionSpec>,
    pub additional_signers: Vec<Address>,
}

#[verifier::ext_equal]
pub struct TransactionPlanModel {
    pub compute_budget: Seq<InstructionModel>,
    pub setup: Seq<InstructionModel>,
    pub main: InstructionModel,
    pub teardown: Seq<InstructionModel>,
    pub signers: Seq<Seq<u8>>,
}

impl View for TransactionPlan {
    type V = TransactionPlanModel;

    open spec fn view(&self) -> TransactionPlanModel {
        TransactionPlanModel {
            compute_budget: self.compute_budget_instructions@.map_values(
                |i: InstructionSpec| i@,
            ),
            setup: self.setup_instructions@.map_values(|i: InstructionSpec| i@),
            main: self.main_instruction@,
            teardown: self.teardown_instructions@.map_values(|i: InstructionSpec| i@),
            signers: self.additional_signers@.map_values(|a: Address| a@),
        }
    }
}

/// The fixed assembly order of a transaction: compute-budget directives,
/// then every setup instruction, then the main instruction, then every
/// teardown instruction.
pub open spec fn assembled_order(plan: TransactionPlanModel) -> Seq<InstructionModel> {
    plan.compute_budget + plan.setup + seq![plan.main] + plan.teardown
}

/// Flattens a plan into the final instruction list, preserving the fixed
/// assembly order, and hands back the signers unchanged.
pub fn assemble_transaction(plan: TransactionPlan) -> (r: (Vec<InstructionSpec>, Vec<Address>))
    ensures
        r.0@.map_values(|i: InstructionSpec| i@) == assembled_order(plan@),
        r.1@.map_values(|a: Address| a@) == plan@.signers,
{
    let TransactionPlan {
        compute_budget_instructions,
        setup_instructions,
        main_instruction,
        teardown_instructions,
        additional_signers,
    } = plan;
    let mut instructions = compute_budget_instructions;
    let mut setup = setup_instructions;
    let mut teardown = teardown_instructions;
    instructions.append(&mut setup);
    instructions.push(main_instruction);
    instructions.append(&mut teardown);
    proof {
        assert(instructions@.map_values(|i: InstructionSpec| i@) =~= assembled_order(plan@));
    }
    (instructions, additional_signers)
}

/// What the submission step does once the operator has answered and the
/// instruction list stands.
pub enum SubmitAction {
    /// The operator declined: nothing is signed, nothing is sent.
    Abort,
    /// Nothing to do: no transaction is signed or sent, and the caller
    /// reports that no transaction was sent.
    NothingToSend,
    /// Sign with the primary key plus the ephemeral signers, then send.
    Send,
}

/// Decides whether to sign and send: a declined confirmation aborts before
/// anything is signed, an empty instruction list sends nothing, and only a
/// confirmed, non-empty list is ever signed and sent.
pub fn decide_submission(confirmed: bool, instruction_count: usize) -> (r: SubmitAction)
    ensures
        !confirmed ==> r is Abort,
        confirmed && instruction_count == 0 ==> r is NothingToSend,
        confirmed && instruction_count > 0 ==> r is Send,
{
    if !confirmed {
        SubmitAction::Abort
    } else if instruction_count == 0 {
        SubmitAction::NothingToSend
    } else {
        SubmitAction::Send
    }
}

/// Bounded send-level retries for transient network failure; reads are
/// never retried.
pub const SEND_MAX_RETRIES: usize = 3;

/// Turns a failed send into the error the operation surfaces. The
/// diagnostic simulation output is only logged: whatever it holds, the
/// original send error's message is what comes back.
#[allow(unused_variables)]
pub fn diagnose_send_failure(send_error: String, simulation_logs: Option<Vec<String>>) -> (r:
    Error)
    ensures
        r matches Error::RpcClient(m) && m@ == send_error@,
{
    Error::RpcClient(send_error)
}

} // verus!
