//! A scripted token session: fund a sender, create a mint and both associated
//! token accounts, mint one token to the sender, then send it on. The
//! decisions stand here as a step function; a runner carries out each action
//! against a cluster and reports an event.
use crate::model::instruction::{Address, Instruction, InstructionView};
use crate::model::session::{Action, ActionView, Event, MAX_CONFIRM_POLLS};
use crate::program::{
    associated_address, associated_token_address, create_account_ix, create_account_view,
    create_associated_account_ix, create_associated_account_view, initialize_mint2_ix,
    initialize_mint2_view, lamports_per_sol, mint_account_len, mint_to_checked_ix,
    mint_to_checked_view, token_program_address, token_program_id, transfer_checked_ix, transfer_checked_view,
};
use vstd::prelude::*;

verus! {

/// The decimals of the mint that the session creates.
pub const SETUP_DECIMALS: u8 = 9;

/// The airdrop that funds the sender, in SOL.
pub const AIRDROP_SOL: u64 = 5;

/// The three fresh keypairs of a session, by their public keys.
#[derive(Clone, Copy)]
pub struct Participants {
    pub sender: Address,
    pub recipient: Address,
    pub mint: Address,
}

/// Where a token session stands.
#[derive(Clone, Copy, PartialEq, Eq, Structural)]
pub enum SendTokensStep {
    RequestingAirdrop,
    /// Waiting for the airdrop; `polls` confirmations asked for so far.
    ConfirmingAirdrop { polls: u32 },
    FetchingRent,
    SendingSetup,
    FetchingDecimals,
    SendingTransfer,
    Finished,
    Failed,
}

/// `10` to the power `n`.
pub open spec fn pow10(n: nat) -> nat
    decreases n,
{
    if n == 0 {
        1
    } else {
        10 * pow10((n - 1) as nat)
    }
}

proof fn lemma_pow10_monotonic(a: nat, b: nat)
    requires
        a <= b,
    ensures
        pow10(a) <= pow10(b),
    decreases b - a,
{
    if a < b {
        lemma_pow10_monotonic(a, (b - 1) as nat);
    }
}

/// `10` to the power `d`, where it fits in 64 bits.
pub fn checked_pow10(d: u8) -> (r: Option<u64>)
    ensures
        r is Some <==> pow10(d as nat) <= u64::MAX,
        r is Some ==> r->0 == pow10(d as nat),
{
    let mut p: u64 = 1;
    let mut i: u8 = 0;
    while i < d
        invariant
            i <= d,
            p == pow10(i as nat),
        decreases d - i,
    {
        match p.checked_mul(10) {
            Some(q) => {
                p = q;
                i = i + 1;
            },
            None => {
                proof {
                    lemma_pow10_monotonic((i + 1) as nat, d as nat);
                }
                return None;
            },
        }
    }
    Some(p)
}

/// The setup transaction: create the mint account with its rent exemption,
/// initialise it with the sender as authority, create both associated token
/// accounts, and mint one whole token to the sender's.
pub open spec fn setup_instructions(sender: Seq<u8>, recipient: Seq<u8>, mint: Seq<u8>, rent: u64) -> Seq<
    InstructionView,
> {
    seq![
        create_account_view(sender, mint, rent, 82, token_program_id()),
        initialize_mint2_view(mint, sender, Some(sender), SETUP_DECIMALS),
        create_associated_account_view(sender, sender, mint),
        create_associated_account_view(sender, recipient, mint),
        mint_to_checked_view(
            mint,
            associated_token_address(sender, mint),
            sender,
            pow10(SETUP_DECIMALS as nat) as u64,
            SETUP_DECIMALS,
        ),
    ]
}

/// The session's first step: fund the sender.
pub open spec fn send_tokens_first(sender: Seq<u8>) -> (SendTokensStep, ActionView) {
    (
        SendTokensStep::RequestingAirdrop,
        ActionView::RequestAirdrop { to: sender, lamports: (AIRDROP_SOL * 1_000_000_000) as u64 },
    )
}

/// Where the session goes on `event`, and what it asks for next. Any failed
/// call, the final transfer's included, or an airdrop still unconfirmed after
/// `MAX_CONFIRM_POLLS` polls, ends it unsuccessfully.
pub open spec fn send_tokens_next(
    sender: Seq<u8>,
    recipient: Seq<u8>,
    mint: Seq<u8>,
    step: SendTokensStep,
    event: Event,
) -> (SendTokensStep, ActionView) {
    let fail = (SendTokensStep::Failed, ActionView::Stop { success: false });
    match (step, event) {
        (SendTokensStep::RequestingAirdrop, Event::Done) => (
            SendTokensStep::ConfirmingAirdrop { polls: 1 },
            ActionView::ConfirmAirdrop,
        ),
        (SendTokensStep::ConfirmingAirdrop { polls }, Event::Confirmed(false)) => if polls < MAX_CONFIRM_POLLS {
            (SendTokensStep::ConfirmingAirdrop { polls: (polls + 1) as u32 }, ActionView::ConfirmAirdrop)
        } else {
            fail
        },
        (SendTokensStep::ConfirmingAirdrop { .. }, Event::Confirmed(true)) => (
            SendTokensStep::FetchingRent,
            ActionView::FetchRentExemption { space: 82 },
        ),
        (SendTokensStep::FetchingRent, Event::Amount(rent)) => (
            SendTokensStep::SendingSetup,
            ActionView::Send {
                instructions: setup_instructions(sender, recipient, mint, rent),
                signers: seq![sender, mint],
            },
        ),
        (SendTokensStep::SendingSetup, Event::Done) => (
            SendTokensStep::FetchingDecimals,
            ActionView::FetchDecimals { account: associated_token_address(sender, mint) },
        ),
        (SendTokensStep::FetchingDecimals, Event::Decimals(d)) => if pow10(d as nat) <= u64::MAX {
            (
                SendTokensStep::SendingTransfer,
                ActionView::Send {
                    instructions: seq![
                        transfer_checked_view(
                            associated_token_address(sender, mint),
                            mint,
                            associated_token_address(recipient, mint),
                            sender,
                            pow10(d as nat) as u64,
                            d,
                        ),
                    ],
                    signers: seq![sender],
                },
            )
        } else {
            fail
        },
        (SendTokensStep::SendingTransfer, Event::Done) => (SendTokensStep::Finished, ActionView::Stop { success: true }),
        (SendTokensStep::Finished, _) => (SendTokensStep::Finished, ActionView::Stop { success: true }),
        _ => fail,
    }
}

fn stop(success: bool) -> (r: Action)
    ensures
        r@ == (ActionView::Stop { success }),
{
    Action::Stop { success }
}

/// How many more actions a token session asks for at most, from `step` on.
pub open spec fn send_tokens_remaining(step: SendTokensStep) -> nat {
    match step {
        SendTokensStep::RequestingAirdrop => (MAX_CONFIRM_POLLS + 5) as nat,
        SendTokensStep::ConfirmingAirdrop { polls } => if polls < MAX_CONFIRM_POLLS {
            (MAX_CONFIRM_POLLS - polls + 4) as nat
        } else {
            4
        },
        SendTokensStep::FetchingRent => 3,
        SendTokensStep::SendingSetup => 2,
        SendTokensStep::FetchingDecimals => 1,
        SendTokensStep::SendingTransfer => 0,
        SendTokensStep::Finished => 0,
        SendTokensStep::Failed => 0,
    }
}

/// A token session ends within a bounded number of actions: every step from
/// a session still running strictly lowers `send_tokens_remaining`, or stops
/// it, and a stopped session only asks to stop.
pub proof fn lemma_send_tokens_terminates(
    sender: Seq<u8>,
    recipient: Seq<u8>,
    mint: Seq<u8>,
    step: SendTokensStep,
    event: Event,
)
    ensures
        ({
            let (next, action) = send_tokens_next(sender, recipient, mint, step, event);
            &&& (action is Stop || send_tokens_remaining(next) < send_tokens_remaining(step))
            &&& (step is Finished || step is Failed) ==> action is Stop
            &&& (action is Stop <==> (next is Finished || next is Failed))
        }),
{
}

/// The session's first step.
pub fn send_tokens_start(p: &Participants) -> (r: (SendTokensStep, Action))
    ensures
        (r.0, r.1@) == send_tokens_first(p.sender@),
{
    let lamports = AIRDROP_SOL * lamports_per_sol();
    (SendTokensStep::RequestingAirdrop, Action::RequestAirdrop { to: p.sender, lamports })
}

/// The setup transaction of `send_tokens_next`.
fn setup_transaction(p: &Participants, rent: u64) -> (r: Vec<Instruction>)
    ensures
        r@.map_values(|i: Instruction| i@) == setup_instructions(p.sender@, p.recipient@, p.mint@, rent),
{
    let sender_ata = associated_address(&p.sender, &p.mint);
    let amount: u64 = 1_000_000_000;
    assert(pow10(SETUP_DECIMALS as nat) == 1_000_000_000) by {
        reveal_with_fuel(pow10, 10);
    }
    let space = mint_account_len();
    let create = create_account_ix(&p.sender, &p.mint, rent, space, &token_program_address());
    let init = initialize_mint2_ix(&p.mint, &p.sender, Some(p.sender), SETUP_DECIMALS).unwrap();
    let mint_to = mint_to_checked_ix(&p.mint, &sender_ata, &p.sender, amount, SETUP_DECIMALS).unwrap();
    let r = vec![
        create,
        init,
        create_associated_account_ix(&p.sender, &p.sender, &p.mint),
        create_associated_account_ix(&p.sender, &p.recipient, &p.mint),
        mint_to,
    ];
    assert(r@.map_values(|i: Instruction| i@) =~= setup_instructions(p.sender@, p.recipient@, p.mint@, rent));
    r
}

/// The step function: where the session goes on `event`, and what it asks
/// for next.
pub fn send_tokens_step(p: &Participants, step: SendTokensStep, event: Event) -> (r: (SendTokensStep, Action))
    ensures
        (r.0, r.1@) == send_tokens_next(p.sender@, p.recipient@, p.mint@, step, event),
{
    match (step, event) {
        (SendTokensStep::RequestingAirdrop, Event::Done) => {
            (SendTokensStep::ConfirmingAirdrop { polls: 1 }, Action::ConfirmAirdrop)
        },
        (SendTokensStep::ConfirmingAirdrop { polls }, Event::Confirmed(confirmed)) => {
            if confirmed {
                (SendTokensStep::FetchingRent, Action::FetchRentExemption { space: mint_account_len() })
            } else if polls < MAX_CONFIRM_POLLS {
                (SendTokensStep::ConfirmingAirdrop { polls: polls + 1 }, Action::ConfirmAirdrop)
            } else {
                (SendTokensStep::Failed, Action::Stop { success: false })
            }
        },
        (SendTokensStep::FetchingRent, Event::Amount(rent)) => {
            let instructions = setup_transaction(p, rent);
            let signers = vec![p.sender, p.mint];
            assert(signers@.map_values(|a: Address| a@) =~= seq![p.sender@, p.mint@]);
            let r = (SendTokensStep::SendingSetup, Action::Send { instructions, signers });
            assert(r.1@ == send_tokens_next(p.sender@, p.recipient@, p.mint@, step, event).1);
            r
        },
        (SendTokensStep::SendingSetup, Event::Done) => {
            (SendTokensStep::FetchingDecimals, Action::FetchDecimals { account: associated_address(&p.sender, &p.mint) })
        },
        (SendTokensStep::FetchingDecimals, Event::Decimals(d)) => {
            match checked_pow10(d) {
                Some(amount) => {
                    let source = associated_address(&p.sender, &p.mint);
                    let destination = associated_address(&p.recipient, &p.mint);
                    let ix = transfer_checked_ix(&source, &p.mint, &destination, &p.sender, amount, d).unwrap();
                    let instructions = vec![ix];
                    let signers = vec![p.sender];
                    assert(signers@.map_values(|a: Address| a@) =~= seq![p.sender@]);
                    assert(instructions@.map_values(|i: Instruction| i@) =~= seq![ix@]);
                    let r = (SendTokensStep::SendingTransfer, Action::Send { instructions, signers });
                    assert(r.1@ == send_tokens_next(p.sender@, p.recipient@, p.mint@, step, event).1);
                    r
                },
                None => (SendTokensStep::Failed, stop(false)),
            }
        },
        (SendTokensStep::SendingTransfer, Event::Done) => (SendTokensStep::Finished, stop(true)),
        (SendTokensStep::Finished, _) => (SendTokensStep::Finished, stop(true)),
        _ => (SendTokensStep::Failed, stop(false)),
    }
}

} // verus!
