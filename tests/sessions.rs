use solana_api::instructions::sendtokens::{
    checked_pow10, send_tokens_start, send_tokens_step, Participants, SendTokensStep,
};
use solana_api::instructions::transfer::{send_sol_start, send_sol_step, SendSolStep};
use solana_api::model::instruction::{Address, Instruction};
use solana_api::model::session::{Action, Event, MAX_CONFIRM_POLLS};
use solana_program::pubkey::Pubkey;

fn addr(b: u8) -> Address {
    Address { bytes: [b; 32] }
}

fn key(a: &Address) -> Pubkey {
    Pubkey::new_from_array(a.bytes)
}

fn same(ours: &Instruction, theirs: &solana_program::instruction::Instruction) {
    assert_eq!(ours.program_id.bytes, theirs.program_id.to_bytes());
    assert_eq!(ours.data, theirs.data);
    assert_eq!(ours.accounts.len(), theirs.accounts.len());
    for (a, m) in ours.accounts.iter().zip(theirs.accounts.iter()) {
        assert_eq!(a.address.bytes, m.pubkey.to_bytes());
        assert_eq!(a.is_signer, m.is_signer);
        assert_eq!(a.is_writable, m.is_writable);
    }
}

fn participants() -> Participants {
    Participants { sender: addr(1), recipient: addr(2), mint: addr(3) }
}

#[test]
fn token_session_happy_path() {
    let p = participants();
    let (s, a) = send_tokens_start(&p);
    assert!(s == SendTokensStep::RequestingAirdrop);
    assert!(matches!(a, Action::RequestAirdrop { to, lamports: 5_000_000_000 } if to.bytes == [1; 32]));
    let (s, a) = send_tokens_step(&p, s, Event::Done);
    assert!(s == SendTokensStep::ConfirmingAirdrop { polls: 1 } && matches!(a, Action::ConfirmAirdrop));
    let (s, a) = send_tokens_step(&p, s, Event::Confirmed(false));
    assert!(s == SendTokensStep::ConfirmingAirdrop { polls: 2 } && matches!(a, Action::ConfirmAirdrop));
    let (s, a) = send_tokens_step(&p, s, Event::Confirmed(true));
    assert!(s == SendTokensStep::FetchingRent && matches!(a, Action::FetchRentExemption { space: 82 }));
    let (s, a) = send_tokens_step(&p, s, Event::Amount(1_461_600));
    assert!(s == SendTokensStep::SendingSetup);
    let (sender, recipient, mint) = (key(&p.sender), key(&p.recipient), key(&p.mint));
    let sender_ata = spl_associated_token_account::get_associated_token_address(&sender, &mint);
    match a {
        Action::Send { instructions, signers } => {
            assert_eq!(signers.len(), 2);
            assert_eq!(signers[0].bytes, [1; 32]);
            assert_eq!(signers[1].bytes, [3; 32]);
            assert_eq!(instructions.len(), 5);
            let token = spl_token::id();
            same(
                &instructions[0],
                &solana_program::system_instruction::create_account(&sender, &mint, 1_461_600, 82, &token),
            );
            same(
                &instructions[1],
                &spl_token::instruction::initialize_mint2(&token, &mint, &sender, Some(&sender), 9).unwrap(),
            );
            same(
                &instructions[2],
                &spl_associated_token_account::instruction::create_associated_token_account_idempotent(
                    &sender, &sender, &mint, &token,
                ),
            );
            same(
                &instructions[3],
                &spl_associated_token_account::instruction::create_associated_token_account_idempotent(
                    &sender, &recipient, &mint, &token,
                ),
            );
            same(
                &instructions[4],
                &spl_token::instruction::mint_to_checked(&token, &mint, &sender_ata, &sender, &[&sender], 1_000_000_000, 9)
                    .unwrap(),
            );
        }
        _ => panic!("expected the setup transaction"),
    }
    let (s, a) = send_tokens_step(&p, s, Event::Done);
    assert!(s == SendTokensStep::FetchingDecimals);
    assert!(matches!(a, Action::FetchDecimals { account } if account.bytes == sender_ata.to_bytes()));
    let (s, a) = send_tokens_step(&p, s, Event::Decimals(6));
    assert!(s == SendTokensStep::SendingTransfer);
    let recipient_ata = spl_associated_token_account::get_associated_token_address(&recipient, &mint);
    match a {
        Action::Send { instructions, signers } => {
            assert_eq!(signers.len(), 1);
            assert_eq!(signers[0].bytes, [1; 32]);
            assert_eq!(instructions.len(), 1);
            same(
                &instructions[0],
                &spl_token::instruction::transfer_checked(
                    &spl_token::id(), &sender_ata, &mint, &recipient_ata, &sender, &[&sender], 1_000_000, 6,
                )
                .unwrap(),
            );
        }
        _ => panic!("expected the transfer transaction"),
    }
    let (s, a) = send_tokens_step(&p, s, Event::Done);
    assert!(s == SendTokensStep::Finished && matches!(a, Action::Stop { success: true }));
}

#[test]
fn token_session_reports_failed_transfer() {
    let p = participants();
    let (s, a) = send_tokens_step(&p, SendTokensStep::SendingTransfer, Event::Failed);
    assert!(s == SendTokensStep::Failed && matches!(a, Action::Stop { success: false }));
}

#[test]
fn token_session_gives_up_on_unconfirmed_airdrop() {
    let p = participants();
    let (mut s, _) = send_tokens_step(&p, SendTokensStep::RequestingAirdrop, Event::Done);
    for polls in 1..MAX_CONFIRM_POLLS {
        assert!(s == SendTokensStep::ConfirmingAirdrop { polls });
        let (next, a) = send_tokens_step(&p, s, Event::Confirmed(false));
        assert!(matches!(a, Action::ConfirmAirdrop));
        s = next;
    }
    let (s, a) = send_tokens_step(&p, s, Event::Confirmed(false));
    assert!(s == SendTokensStep::Failed && matches!(a, Action::Stop { success: false }));
}

#[test]
fn token_session_fails_on_rpc_error() {
    let p = participants();
    let (s, _) = send_tokens_start(&p);
    let (s, a) = send_tokens_step(&p, s, Event::Failed);
    assert!(s == SendTokensStep::Failed && matches!(a, Action::Stop { success: false }));
    let (s, a) = send_tokens_step(&p, s, Event::Done);
    assert!(s == SendTokensStep::Failed && matches!(a, Action::Stop { success: false }));
}

#[test]
fn token_session_refuses_oversized_decimals() {
    let p = participants();
    let (s, a) = send_tokens_step(&p, SendTokensStep::FetchingDecimals, Event::Decimals(20));
    assert!(s == SendTokensStep::Failed && matches!(a, Action::Stop { success: false }));
    let (s, _) = send_tokens_step(&p, SendTokensStep::FetchingDecimals, Event::Decimals(19));
    assert!(s == SendTokensStep::SendingTransfer);
}

#[test]
fn powers_of_ten() {
    assert_eq!(checked_pow10(0), Some(1));
    assert_eq!(checked_pow10(9), Some(1_000_000_000));
    assert_eq!(checked_pow10(19), Some(10_000_000_000_000_000_000));
    assert_eq!(checked_pow10(20), None);
    assert_eq!(checked_pow10(255), None);
}

#[test]
fn sol_session_happy_path() {
    let (sender, recipient) = (addr(7), addr(8));
    let (s, a) = send_sol_start(&sender);
    assert!(s == SendSolStep::RequestingAirdrop);
    assert!(matches!(a, Action::RequestAirdrop { to, lamports: 1_000_000_000 } if to.bytes == [7; 32]));
    let (s, _) = send_sol_step(&sender, &recipient, s, Event::Done);
    let (s, a) = send_sol_step(&sender, &recipient, s, Event::Confirmed(true));
    assert!(s == SendSolStep::FetchingSenderBalance);
    assert!(matches!(a, Action::FetchBalance { account } if account.bytes == [7; 32]));
    let (s, a) = send_sol_step(&sender, &recipient, s, Event::Amount(1_000_000_000));
    assert!(matches!(a, Action::FetchBalance { account } if account.bytes == [8; 32]));
    let (s, a) = send_sol_step(&sender, &recipient, s, Event::Amount(0));
    assert!(s == SendSolStep::SendingTransfer);
    match a {
        Action::Send { instructions, signers } => {
            assert_eq!(signers.len(), 1);
            assert_eq!(signers[0].bytes, [7; 32]);
            assert_eq!(instructions.len(), 1);
            same(
                &instructions[0],
                &solana_program::system_instruction::transfer(&key(&sender), &key(&recipient), 10_000_000),
            );
        }
        _ => panic!("expected the transfer transaction"),
    }
    let (s, a) = send_sol_step(&sender, &recipient, s, Event::Done);
    assert!(s == SendSolStep::Finished && matches!(a, Action::Stop { success: true }));
}

#[test]
fn sol_session_gives_up_on_unconfirmed_airdrop() {
    let (sender, recipient) = (addr(7), addr(8));
    let mut s = SendSolStep::ConfirmingAirdrop { polls: 1 };
    let mut asked = 1;
    loop {
        let (next, a) = send_sol_step(&sender, &recipient, s, Event::Confirmed(false));
        s = next;
        if let Action::Stop { success } = a {
            assert!(!success);
            break;
        }
        asked += 1;
    }
    assert!(s == SendSolStep::Failed);
    assert_eq!(asked, MAX_CONFIRM_POLLS);
}

#[test]
fn sol_session_fails_when_transfer_fails() {
    let (sender, recipient) = (addr(7), addr(8));
    let (s, a) = send_sol_step(&sender, &recipient, SendSolStep::SendingTransfer, Event::Failed);
    assert!(s == SendSolStep::Failed && matches!(a, Action::Stop { success: false }));
}
