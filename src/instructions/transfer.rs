//! Sending SOL: the system program's transfer between two wallets, and a
//! scripted session that funds a fresh sender and sends a hundredth of a SOL
//! on.
use crate::model::instruction::{
    instruction_payload, reports, Address, Instruction, InstructionPayload, InstructionView,
};
use crate::model::session::{Action, ActionView, Event, MAX_CONFIRM_POLLS};
use crate::model::response::ApiResponse;
use crate::program::{
    lamports_per_sol, parse_address, parsed_address, system_transfer_ix, system_transfer_view,
};
use vstd::prelude::*;

verus! {

/// A request that `from` send `lamports` to `to`.
pub struct SendSolRequest {
    pub from: String,
    pub to: String,
    pub lamports: u64,
}

/// The system transfer from `from` to `to`, or the message of the first
/// check that fails.
pub open spec fn transfer_outcome(from: Seq<char>, to: Seq<char>, lamports: u64) -> Result<
    InstructionView,
    Seq<char>,
> {
    if lamports == 0 {
        Err("Amount must be greater than 0"@)
    } else {
        match (parsed_address(from), parsed_address(to)) {
            (None, _) => Err("Invalid sender public key"@),
            (Some(_), None) => Err("Invalid recipient public key"@),
            (Some(f), Some(t)) => Ok(system_transfer_view(f, t, lamports)),
        }
    }
}

pub fn transfer(req: SendSolRequest) -> (r: ApiResponse<InstructionPayload>)
    ensures
        reports(r, transfer_outcome(req.from@, req.to@, req.lamports)),
{
    if req.lamports == 0 {
        return ApiResponse::error("Amount must be greater than 0");
    }
    let from = match parse_address(req.from.as_str()) {
        Some(a) => a,
        None => return ApiResponse::error("Invalid sender public key"),
    };
    let to = match parse_address(req.to.as_str()) {
        Some(a) => a,
        None => return ApiResponse::error("Invalid recipient public key"),
    };
    let ix = system_transfer_ix(&from, &to, req.lamports);
    ApiResponse::success(instruction_payload(&ix))
}

/// A request with a positive amount and a field that is no address is
/// refused with a message that names such a field.
pub proof fn lemma_transfer_names_invalid_field(from: Seq<char>, to: Seq<char>, lamports: u64)
    requires
        lamports > 0,
        parsed_address(from) is None || parsed_address(to) is None,
    ensures
        ({
            let o = transfer_outcome(from, to, lamports);
            ||| o == Err::<InstructionView, Seq<char>>("Invalid sender public key"@) && parsed_address(from) is None
            ||| o == Err::<InstructionView, Seq<char>>("Invalid recipient public key"@) && parsed_address(to) is None
        }),
{
}

/// A transfer of zero lamports is refused with that reason, whatever the
/// addresses.
pub proof fn lemma_transfer_zero_lamports(from: Seq<char>, to: Seq<char>)
    ensures
        transfer_outcome(from, to, 0) == Err::<InstructionView, Seq<char>>("Amount must be greater than 0"@),
{
}

/// Where a SOL session stands.
#[derive(Clone, Copy, PartialEq, Eq, Structural)]
pub enum SendSolStep {
    RequestingAirdrop,
    /// Waiting for the airdrop; `polls` confirmations asked for so far.
    ConfirmingAirdrop { polls: u32 },
    FetchingSenderBalance,
    FetchingRecipientBalance,
    SendingTransfer,
    Finished,
    Failed,
}

/// The session's first step: airdrop one SOL to the sender.
pub open spec fn send_sol_first(sender: Seq<u8>) -> (SendSolStep, ActionView) {
    (SendSolStep::RequestingAirdrop, ActionView::RequestAirdrop { to: sender, lamports: 1_000_000_000 })
}

/// Where the session goes on `event`, and what it asks for next: once the
/// airdrop is confirmed, look up both balances, then send a hundredth of a
/// SOL. Any failed call, or an airdrop still unconfirmed after
/// `MAX_CONFIRM_POLLS` polls, ends it unsuccessfully.
pub open spec fn send_sol_next(sender: Seq<u8>, recipient: Seq<u8>, step: SendSolStep, event: Event) -> (
    SendSolStep,
    ActionView,
) {
    let fail = (SendSolStep::Failed, ActionView::Stop { success: false });
    match (step, event) {
        (SendSolStep::RequestingAirdrop, Event::Done) => (
            SendSolStep::ConfirmingAirdrop { polls: 1 },
            ActionView::ConfirmAirdrop,
        ),
        (SendSolStep::ConfirmingAirdrop { polls }, Event::Confirmed(false)) => if polls < MAX_CONFIRM_POLLS {
            (SendSolStep::ConfirmingAirdrop { polls: (polls + 1) as u32 }, ActionView::ConfirmAirdrop)
        } else {
            fail
        },
        (SendSolStep::ConfirmingAirdrop { .. }, Event::Confirmed(true)) => (
            SendSolStep::FetchingSenderBalance,
            ActionView::FetchBalance { account: sender },
        ),
        (SendSolStep::FetchingSenderBalance, Event::Amount(_)) => (
            SendSolStep::FetchingRecipientBalance,
            ActionView::FetchBalance { account: recipient },
        ),
        (SendSolStep::FetchingRecipientBalance, Event::Amount(_)) => (
            SendSolStep::SendingTransfer,
            ActionView::Send {
                instructions: seq![system_transfer_view(sender, recipient, 10_000_000)],
                signers: seq![sender],
            },
        ),
        (SendSolStep::SendingTransfer, Event::Done) => (SendSolStep::Finished, ActionView::Stop { success: true }),
        (SendSolStep::Finished, _) => (SendSolStep::Finished, ActionView::Stop { success: true }),
        _ => fail,
    }
}

/// How many more actions a SOL session asks for at most, from `step` on.
pub open spec fn send_sol_remaining(step: SendSolStep) -> nat {
    match step {
        SendSolStep::RequestingAirdrop => (MAX_CONFIRM_POLLS + 4) as nat,
        SendSolStep::ConfirmingAirdrop { polls } => if polls < MAX_CONFIRM_POLLS {
            (MAX_CONFIRM_POLLS - polls + 3) as nat
        } else {
            3
        },
        SendSolStep::FetchingSenderBalance => 2,
        SendSolStep::FetchingRecipientBalance => 1,
        SendSolStep::SendingTransfer => 0,
        SendSolStep::Finished => 0,
        SendSolStep::Failed => 0,
    }
}

/// A SOL session ends within a bounded number of actions: every step from a
/// session still running strictly lowers `send_sol_remaining`, or stops it,
/// and a stopped session only asks to stop.
pub proof fn lemma_send_sol_terminates(sender: Seq<u8>, recipient: Seq<u8>, step: SendSolStep, event: Event)
    ensures
        ({
            let (next, action) = send_sol_next(sender, recipient, step, event);
            &&& (action is Stop || send_sol_remaining(next) < send_sol_remaining(step))
            &&& (step is Finished || step is Failed) ==> action is Stop
            &&& (action is Stop <==> (next is Finished || next is Failed))
        }),
{
}

/// The session's first step.
pub fn send_sol_start(sender: &Address) -> (r: (SendSolStep, Action))
    ensures
        (r.0, r.1@) == send_sol_first(sender@),
{
    (SendSolStep::RequestingAirdrop, Action::RequestAirdrop { to: *sender, lamports: lamports_per_sol() })
}

/// The step function: where the session goes on `event`, and what it asks
/// for next.
pub fn send_sol_step(sender: &Address, recipient: &Address, step: SendSolStep, event: Event) -> (r: (
    SendSolStep,
    Action,
))
    ensures
        (r.0, r.1@) == send_sol_next(sender@, recipient@, step, event),
{
    match (step, event) {
        (SendSolStep::RequestingAirdrop, Event::Done) => {
            (SendSolStep::ConfirmingAirdrop { polls: 1 }, Action::ConfirmAirdrop)
        },
        (SendSolStep::ConfirmingAirdrop { polls }, Event::Confirmed(confirmed)) => {
            if confirmed {
                (SendSolStep::FetchingSenderBalance, Action::FetchBalance { account: *sender })
            } else if polls < MAX_CONFIRM_POLLS {
                (SendSolStep::ConfirmingAirdrop { polls: polls + 1 }, Action::ConfirmAirdrop)
            } else {
                (SendSolStep::Failed, Action::Stop { success: false })
            }
        },
        (SendSolStep::FetchingSenderBalance, Event::Amount(_)) => {
            (SendSolStep::FetchingRecipientBalance, Action::FetchBalance { account: *recipient })
        },
        (SendSolStep::FetchingRecipientBalance, Event::Amount(_)) => {
            let ix = system_transfer_ix(sender, recipient, lamports_per_sol() / 100);
            let instructions = vec![ix];
            let signers = vec![*sender];
            assert(signers@.map_values(|a: Address| a@) =~= seq![sender@]);
            assert(instructions@.map_values(|i: Instruction| i@) =~= seq![ix@]);
            (SendSolStep::SendingTransfer, Action::Send { instructions, signers })
        },
        (SendSolStep::SendingTransfer, Event::Done) => (SendSolStep::Finished, Action::Stop { success: true }),
        (SendSolStep::Finished, _) => (SendSolStep::Finished, Action::Stop { success: true }),
        _ => (SendSolStep::Failed, Action::Stop { success: false }),
    }
}

} // verus!
