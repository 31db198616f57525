//! The steps of a scripted session against a cluster: what the runner is
//! asked to do next, and what it reports back.
use crate::model::instruction::{Address, Instruction, InstructionView};
use vstd::prelude::*;

verus! {

/// How many times a session asks whether its airdrop has been confirmed
/// before it gives up.
pub const MAX_CONFIRM_POLLS: u32 = 30;

/// What the runner reports after carrying out an action.
#[derive(Clone, Copy)]
pub enum Event {
    /// The action went through and brought back nothing the session reads.
    Done,
    /// Whether the airdrop's transaction has been confirmed yet.
    Confirmed(bool),
    /// An amount of lamports: a balance or a rent exemption.
    Amount(u64),
    /// The decimals of a token account's mint.
    Decimals(u8),
    /// The call to the cluster failed.
    Failed,
}

/// What the runner is asked to do next.
pub enum Action {
    /// Ask for `lamports` to be airdropped to `to`.
    RequestAirdrop { to: Address, lamports: u64 },
    /// Ask whether the airdrop's transaction has been confirmed.
    ConfirmAirdrop,
    /// Ask for the rent exemption of an account of `space` bytes.
    FetchRentExemption { space: u64 },
    /// Ask for the balance of `account`.
    FetchBalance { account: Address },
    /// Ask for the decimals of the token account `account`.
    FetchDecimals { account: Address },
    /// Send the instructions as one transaction, signed by the keypairs of
    /// `signers`; the first pays the fee.
    Send { instructions: Vec<Instruction>, signers: Vec<Address> },
    /// The session is over.
    Stop { success: bool },
}

/// What an action stands for.
pub enum ActionView {
    RequestAirdrop { to: Seq<u8>, lamports: u64 },
    ConfirmAirdrop,
    FetchRentExemption { space: u64 },
    FetchBalance { account: Seq<u8> },
    FetchDecimals { account: Seq<u8> },
    Send { instructions: Seq<InstructionView>, signers: Seq<Seq<u8>> },
    Stop { success: bool },
}

impl View for Action {
    type V = ActionView;

    open spec fn view(&self) -> ActionView {
        match self {
            Action::RequestAirdrop { to, lamports } => ActionView::RequestAirdrop { to: to@, lamports: *lamports },
            Action::ConfirmAirdrop => ActionView::ConfirmAirdrop,
            Action::FetchRentExemption { space } => ActionView::FetchRentExemption { space: *space },
            Action::FetchBalance { account } => ActionView::FetchBalance { account: account@ },
            Action::FetchDecimals { account } => ActionView::FetchDecimals { account: account@ },
            Action::Send { instructions, signers } => ActionView::Send {
                instructions: instructions@.map_values(|i: Instruction| i@),
                signers: signers@.map_values(|a: Address| a@),
            },
            Action::Stop { success } => ActionView::Stop { success: *success },
        }
    }
}

} // verus!
