use base64::engine::general_purpose::STANDARD;
use base64::Engine;
use solana_api::instructions::createtoken::{create_token, CreateTokenRequest};
use solana_api::instructions::mint::{mint_token, MintTokenRequest};
use solana_api::instructions::token::{send_token, SendTokenRequest};
use solana_api::instructions::transfer::{transfer, SendSolRequest};
use solana_api::model::instruction::InstructionPayload;
use solana_api::model::response::ApiResponse;
use solana_program::pubkey::Pubkey;
use std::str::FromStr;

const MINT: &str = "So11111111111111111111111111111111111111112";
const WALLET: &str = "DG3B4NsaQVRg9AXwXEXrsXhkvt1t3ay9id7dtGEyeEv7";
const OTHER: &str = "4wBqpZM9xaSheZzJSMawUKKwhdpChKbZ5eu5ky4Vigw";
const TOKEN_PROGRAM: &str = "TokenkegQfeZyiNwAJbNbGKPFXCWuBvf9Ss623VQ5DA";
const RENT: &str = "SysvarRent111111111111111111111111111111111";
const SYSTEM: &str = "11111111111111111111111111111111";

fn error_of<T>(r: &ApiResponse<T>) -> &str {
    assert!(!r.success);
    assert!(r.data.is_none());
    r.error.as_deref().unwrap()
}

fn payload_of(r: &ApiResponse<InstructionPayload>) -> &InstructionPayload {
    assert!(r.success);
    assert!(r.error.is_none());
    r.data.as_ref().unwrap()
}

fn accounts_of(p: &InstructionPayload) -> Vec<(String, bool, bool)> {
    p.accounts.iter().map(|a| (a.pubkey.clone(), a.is_signer, a.is_writable)).collect()
}

fn ata(wallet: &str, mint: &str) -> String {
    spl_associated_token_account::get_associated_token_address(
        &Pubkey::from_str(wallet).unwrap(),
        &Pubkey::from_str(mint).unwrap(),
    )
    .to_string()
}

fn create(mint: &str, authority: &str, decimals: u8) -> ApiResponse<InstructionPayload> {
    create_token(CreateTokenRequest { mint_authority: authority.to_string(), mint: mint.to_string(), decimals })
}

fn mint_req(mint: &str, destination: &str, authority: &str, amount: u64) -> ApiResponse<InstructionPayload> {
    mint_token(MintTokenRequest {
        mint: mint.to_string(),
        destination: destination.to_string(),
        authority: authority.to_string(),
        amount,
    })
}

fn send_req(destination: &str, mint: &str, owner: &str, amount: u64) -> ApiResponse<InstructionPayload> {
    send_token(SendTokenRequest {
        destination: destination.to_string(),
        mint: mint.to_string(),
        owner: owner.to_string(),
        amount,
    })
}

fn sol_req(from: &str, to: &str, lamports: u64) -> ApiResponse<InstructionPayload> {
    transfer(SendSolRequest { from: from.to_string(), to: to.to_string(), lamports })
}

#[test]
fn create_token_layout() {
    let r = create(MINT, WALLET, 9);
    let p = payload_of(&r);
    assert_eq!(p.program_id, TOKEN_PROGRAM);
    assert_eq!(
        accounts_of(p),
        vec![(MINT.to_string(), false, true), (RENT.to_string(), false, false)]
    );
    let data = STANDARD.decode(&p.instruction_data).unwrap();
    let authority = Pubkey::from_str(WALLET).unwrap().to_bytes();
    let mut expected = vec![0u8, 9];
    expected.extend_from_slice(&authority);
    expected.push(1);
    expected.extend_from_slice(&authority);
    assert_eq!(data, expected);
    assert_eq!(data.len(), 67);
}

#[test]
fn create_token_invalid_mint() {
    assert_eq!(error_of(&create("not-an-address", WALLET, 6)), "Invalid mint public key");
    assert_eq!(error_of(&create("bad", "bad", 6)), "Invalid mint public key");
}

#[test]
fn create_token_invalid_authority() {
    assert_eq!(error_of(&create(MINT, "0OIl", 6)), "Invalid mint authority public key");
    assert_eq!(error_of(&create(MINT, "", 6)), "Invalid mint authority public key");
}

#[test]
fn create_token_rejects_short_address() {
    // 31 bytes in base58: decodes, but is no address.
    let short = "5SV2hdVK1ZezefdyJMyk8fvkE9qZvZshnqmvg28eJp";
    assert_eq!(error_of(&create(short, WALLET, 0)), "Invalid mint public key");
}

#[test]
fn mint_token_layout() {
    let r = mint_req(MINT, WALLET, OTHER, 1);
    let p = payload_of(&r);
    assert_eq!(p.program_id, TOKEN_PROGRAM);
    assert_eq!(
        accounts_of(p),
        vec![
            (MINT.to_string(), false, true),
            (ata(WALLET, MINT), false, true),
            (OTHER.to_string(), false, false),
            (OTHER.to_string(), true, false),
        ]
    );
    assert_eq!(p.instruction_data, "BwEAAAAAAAAA");
}

#[test]
fn mint_token_amount_bytes() {
    let r = mint_req(MINT, WALLET, OTHER, 0x0102030405060708);
    let data = STANDARD.decode(&payload_of(&r).instruction_data).unwrap();
    assert_eq!(data, vec![7u8, 8, 7, 6, 5, 4, 3, 2, 1]);
}

#[test]
fn mint_token_zero_amount() {
    assert_eq!(error_of(&mint_req(MINT, WALLET, OTHER, 0)), "Amount must be greater than 0");
    assert_eq!(error_of(&mint_req("bad", "bad", "bad", 0)), "Amount must be greater than 0");
}

#[test]
fn mint_token_invalid_fields() {
    assert_eq!(error_of(&mint_req("bad", WALLET, OTHER, 5)), "Invalid mint public key");
    assert_eq!(error_of(&mint_req(MINT, "bad", OTHER, 5)), "Invalid destination public key");
    assert_eq!(error_of(&mint_req(MINT, WALLET, "bad", 5)), "Invalid authority public key");
}

#[test]
fn send_token_layout() {
    let r = send_req(WALLET, MINT, OTHER, 1);
    let p = payload_of(&r);
    assert_eq!(p.program_id, TOKEN_PROGRAM);
    assert_eq!(
        accounts_of(p),
        vec![
            (ata(OTHER, MINT), false, true),
            (ata(WALLET, MINT), false, true),
            (OTHER.to_string(), false, false),
            (OTHER.to_string(), true, false),
        ]
    );
    assert_eq!(p.instruction_data, "AwEAAAAAAAAA");
}

#[test]
fn send_token_zero_amount() {
    assert_eq!(error_of(&send_req(WALLET, MINT, OTHER, 0)), "Amount must be greater than 0");
    assert_eq!(error_of(&send_req("x", "y", "z", 0)), "Amount must be greater than 0");
}

#[test]
fn send_token_invalid_fields() {
    assert_eq!(error_of(&send_req("bad", MINT, OTHER, 5)), "Invalid destination public key");
    assert_eq!(error_of(&send_req(WALLET, "bad", OTHER, 5)), "Invalid mint public key");
    assert_eq!(error_of(&send_req(WALLET, MINT, "bad", 5)), "Invalid owner public key");
}

#[test]
fn send_token_largest_amount() {
    let r = send_req(WALLET, MINT, OTHER, u64::MAX);
    let data = STANDARD.decode(&payload_of(&r).instruction_data).unwrap();
    assert_eq!(data, vec![3u8, 255, 255, 255, 255, 255, 255, 255, 255]);
}

#[test]
fn transfer_sol_layout() {
    let r = sol_req(WALLET, OTHER, 1000);
    let p = payload_of(&r);
    assert_eq!(p.program_id, SYSTEM);
    assert_eq!(
        accounts_of(p),
        vec![(WALLET.to_string(), true, true), (OTHER.to_string(), false, true)]
    );
    assert_eq!(p.instruction_data, "AgAAAOgDAAAAAAAA");
}

#[test]
fn transfer_sol_zero_lamports() {
    assert_eq!(error_of(&sol_req(WALLET, OTHER, 0)), "Amount must be greater than 0");
}

#[test]
fn transfer_sol_invalid_fields() {
    assert_eq!(error_of(&sol_req("bad", OTHER, 3)), "Invalid sender public key");
    assert_eq!(error_of(&sol_req(WALLET, "bad", 3)), "Invalid recipient public key");
}

#[test]
fn success_and_error_envelopes() {
    let ok = ApiResponse::success(5u32);
    assert!(ok.success);
    assert_eq!(ok.data, Some(5));
    assert!(ok.error.is_none());
    let err: ApiResponse<u32> = ApiResponse::error("boom");
    assert!(!err.success);
    assert!(err.data.is_none());
    assert_eq!(err.error.as_deref(), Some("boom"));
}
