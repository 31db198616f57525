//! Sending tokens between the associated token accounts of two wallets.
use crate::model::instruction::{account, instruction_payload, reports, InstructionPayload, InstructionView};
use crate::model::response::ApiResponse;
use crate::program::{
    associated_address, associated_token_address, le_bytes, parse_address, parsed_address,
    token_program_id, token_transfer_ix,
};
pub use crate::model::instruction::AccountInfo;
use vstd::prelude::*;

verus! {

/// A request that `owner` send `amount` of `mint` to the wallet
/// `destination`.
pub struct SendTokenRequest {
    pub destination: String,
    pub mint: String,
    pub owner: String,
    pub amount: u64,
}

pub type SendTokenData = InstructionPayload;

pub type SendTokenResponse = ApiResponse<SendTokenData>;

/// The token transfer between the owner's and the destination's associated
/// token accounts, or the message of the first check that fails.
pub open spec fn send_token_outcome(
    destination: Seq<char>,
    mint: Seq<char>,
    owner: Seq<char>,
    amount: u64,
) -> Result<InstructionView, Seq<char>> {
    if amount == 0 {
        Err("Amount must be greater than 0"@)
    } else {
        match (parsed_address(destination), parsed_address(mint), parsed_address(owner)) {
            (None, _, _) => Err("Invalid destination public key"@),
            (Some(_), None, _) => Err("Invalid mint public key"@),
            (Some(_), Some(_), None) => Err("Invalid owner public key"@),
            (Some(d), Some(m), Some(o)) => Ok(
                InstructionView {
                    program_id: token_program_id(),
                    accounts: seq![
                        account(associated_token_address(o, m), false, true),
                        account(associated_token_address(d, m), false, true),
                        account(o, false, false),
                        account(o, true, false),
                    ],
                    data: seq![3u8] + le_bytes(amount as nat, 8),
                },
            ),
        }
    }
}

pub fn send_token(req: SendTokenRequest) -> (r: SendTokenResponse)
    ensures
        reports(r, send_token_outcome(req.destination@, req.mint@, req.owner@, req.amount)),
{
    if req.amount == 0 {
        return ApiResponse::error("Amount must be greater than 0");
    }
    let destination = match parse_address(req.destination.as_str()) {
        Some(a) => a,
        None => return ApiResponse::error("Invalid destination public key"),
    };
    let mint = match parse_address(req.mint.as_str()) {
        Some(a) => a,
        None => return ApiResponse::error("Invalid mint public key"),
    };
    let owner = match parse_address(req.owner.as_str()) {
        Some(a) => a,
        None => return ApiResponse::error("Invalid owner public key"),
    };
    let source_ata = associated_address(&owner, &mint);
    let destination_ata = associated_address(&destination, &mint);
    let ix = match token_transfer_ix(&source_ata, &destination_ata, &owner, req.amount) {
        Some(ix) => ix,
        None => return ApiResponse::error("Failed to create transfer instruction"),
    };
    ApiResponse::success(instruction_payload(&ix))
}

/// A request with a positive amount and a field that is no address is
/// refused with a message that names such a field.
pub proof fn lemma_send_token_names_invalid_field(
    destination: Seq<char>,
    mint: Seq<char>,
    owner: Seq<char>,
    amount: u64,
)
    requires
        amount > 0,
        parsed_address(destination) is None || parsed_address(mint) is None || parsed_address(
            owner,
        ) is None,
    ensures
        ({
            let o = send_token_outcome(destination, mint, owner, amount);
            ||| o == Err::<InstructionView, Seq<char>>("Invalid destination public key"@)
                && parsed_address(destination) is None
            ||| o == Err::<InstructionView, Seq<char>>("Invalid mint public key"@) && parsed_address(mint) is None
            ||| o == Err::<InstructionView, Seq<char>>("Invalid owner public key"@) && parsed_address(owner) is None
        }),
{
}

/// A token transfer of amount zero is refused with that reason, whatever the
/// addresses.
pub proof fn lemma_send_token_zero_amount(destination: Seq<char>, mint: Seq<char>, owner: Seq<char>)
    ensures
        send_token_outcome(destination, mint, owner, 0) == Err::<InstructionView, Seq<char>>(
            "Amount must be greater than 0"@,
        ),
{
}

} // verus!
