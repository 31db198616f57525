//! Minting tokens to the associated token account of a wallet.
use crate::model::instruction::{account, instruction_payload, reports, InstructionPayload, InstructionView};
use crate::model::response::ApiResponse;
use crate::program::{
    associated_address, associated_token_address, le_bytes, mint_to_ix, parse_address,
    parsed_address, token_program_id,
};
pub use crate::model::instruction::AccountInfo;
use vstd::prelude::*;

verus! {

/// A request that `authority` mint `amount` of `mint` to the wallet
/// `destination`.
pub struct MintTokenRequest {
    pub mint: String,
    pub destination: String,
    pub authority: String,
    pub amount: u64,
}

pub type MintTokenData = InstructionPayload;

pub type MintTokenResponse = ApiResponse<MintTokenData>;

/// The mint-to instruction towards the destination's associated token
/// account, or the message of the first check that fails.
pub open spec fn mint_token_outcome(
    mint: Seq<char>,
    destination: Seq<char>,
    authority: Seq<char>,
    amount: u64,
) -> Result<InstructionView, Seq<char>> {
    if amount == 0 {
        Err("Amount must be greater than 0"@)
    } else {
        match (parsed_address(mint), parsed_address(destination), parsed_address(authority)) {
            (None, _, _) => Err("Invalid mint public key"@),
            (Some(_), None, _) => Err("Invalid destination public key"@),
            (Some(_), Some(_), None) => Err("Invalid authority public key"@),
            (Some(m), Some(d), Some(a)) => Ok(
                InstructionView {
                    program_id: token_program_id(),
                    accounts: seq![
                        account(m, false, true),
                        account(associated_token_address(d, m), false, true),
                        account(a, false, false),
                        account(a, true, false),
                    ],
                    data: seq![7u8] + le_bytes(amount as nat, 8),
                },
            ),
        }
    }
}

pub fn mint_token(payload: MintTokenRequest) -> (r: MintTokenResponse)
    ensures
        reports(
            r,
            mint_token_outcome(payload.mint@, payload.destination@, payload.authority@, payload.amount),
        ),
{
    if payload.amount == 0 {
        return ApiResponse::error("Amount must be greater than 0");
    }
    let mint = match parse_address(payload.mint.as_str()) {
        Some(a) => a,
        None => return ApiResponse::error("Invalid mint public key"),
    };
    let destination = match parse_address(payload.destination.as_str()) {
        Some(a) => a,
        None => return ApiResponse::error("Invalid destination public key"),
    };
    let authority = match parse_address(payload.authority.as_str()) {
        Some(a) => a,
        None => return ApiResponse::error("Invalid authority public key"),
    };
    let destination_ata = associated_address(&destination, &mint);
    let ix = match mint_to_ix(&mint, &destination_ata, &authority, payload.amount) {
        Some(ix) => ix,
        None => return ApiResponse::error("Failed to create mint instruction"),
    };
    ApiResponse::success(instruction_payload(&ix))
}

/// A request with a positive amount and a field that is no address is
/// refused with a message that names such a field.
pub proof fn lemma_mint_token_names_invalid_field(
    mint: Seq<char>,
    destination: Seq<char>,
    authority: Seq<char>,
    amount: u64,
)
    requires
        amount > 0,
        parsed_address(mint) is None || parsed_address(destination) is None || parsed_address(
            authority,
        ) is None,
    ensures
        ({
            let o = mint_token_outcome(mint, destination, authority, amount);
            ||| o == Err::<InstructionView, Seq<char>>("Invalid mint public key"@) && parsed_address(mint) is None
            ||| o == Err::<InstructionView, Seq<char>>("Invalid destination public key"@)
                && parsed_address(destination) is None
            ||| o == Err::<InstructionView, Seq<char>>("Invalid authority public key"@)
                && parsed_address(authority) is None
        }),
{
}

} // verus!
