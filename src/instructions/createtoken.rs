//! Creating a token: the instruction that initialises a mint.
use crate::model::instruction::{
    account, instruction_payload, reports, InstructionPayload, InstructionView,
};
use crate::model::response::ApiResponse;
use crate::program::{
    initialize_mint_data, initialize_mint_ix, parse_address, parsed_address, rent_sysvar_id,
    token_program_id,
};
pub use crate::model::instruction::AccountInfo;
use vstd::prelude::*;

verus! {

/// A request to initialise `mint` with `mint_authority` as its mint and
/// freeze authority.
pub struct CreateTokenRequest {
    pub mint_authority: String,
    pub mint: String,
    pub decimals: u8,
}

pub type CreateTokenData = InstructionPayload;

pub type CreateTokenResponse = ApiResponse<CreateTokenData>;

/// The instruction that initialises a mint, or the message that names the
/// first field that is no address.
pub open spec fn create_token_outcome(mint: Seq<char>, mint_authority: Seq<char>, decimals: u8) -> Result<
    InstructionView,
    Seq<char>,
> {
    match (parsed_address(mint), parsed_address(mint_authority)) {
        (None, _) => Err("Invalid mint public key"@),
        (Some(_), None) => Err("Invalid mint authority public key"@),
        (Some(m), Some(a)) => Ok(
            InstructionView {
                program_id: token_program_id(),
                accounts: seq![account(m, false, true), account(rent_sysvar_id(), false, false)],
                data: initialize_mint_data(0, a, Some(a), decimals),
            },
        ),
    }
}

pub fn create_token(payload: CreateTokenRequest) -> (r: CreateTokenResponse)
    ensures
        reports(r, create_token_outcome(payload.mint@, payload.mint_authority@, payload.decimals)),
{
    let mint = match parse_address(payload.mint.as_str()) {
        Some(a) => a,
        None => return ApiResponse::error("Invalid mint public key"),
    };
    let authority = match parse_address(payload.mint_authority.as_str()) {
        Some(a) => a,
        None => return ApiResponse::error("Invalid mint authority public key"),
    };
    let ix = match initialize_mint_ix(&mint, &authority, Some(authority), payload.decimals) {
        Some(ix) => ix,
        None => return ApiResponse::error("Failed to create initialize mint instruction"),
    };
    ApiResponse::success(instruction_payload(&ix))
}

/// A request whose mint or authority is no address is refused with a message
/// that names such a field.
pub proof fn lemma_create_token_names_invalid_field(mint: Seq<char>, mint_authority: Seq<char>, decimals: u8)
    requires
        parsed_address(mint) is None || parsed_address(mint_authority) is None,
    ensures
        ({
            let o = create_token_outcome(mint, mint_authority, decimals);
            ||| o == Err::<InstructionView, Seq<char>>("Invalid mint public key"@) && parsed_address(mint) is None
            ||| o == Err::<InstructionView, Seq<char>>("Invalid mint authority public key"@)
                && parsed_address(mint_authority) is None
        }),
{
}

/// A request whose fields are addresses gives the mint initialisation: the
/// mint, writable, then the rent sysvar, read only, addressed to the token
/// program, with a payload of 67 bytes: tag, decimals, the authority, and the
/// authority again as freeze authority.
pub proof fn lemma_create_token_layout(mint: Seq<char>, mint_authority: Seq<char>, decimals: u8)
    requires
        parsed_address(mint) is Some,
        parsed_address(mint_authority) is Some,
    ensures
        ({
            let o = create_token_outcome(mint, mint_authority, decimals);
            &&& o is Ok
            &&& o->Ok_0.program_id == token_program_id()
            &&& o->Ok_0.accounts == seq![
                account(parsed_address(mint)->0, false, true),
                account(rent_sysvar_id(), false, false),
            ]
            &&& o->Ok_0.data.len() == 67
        }),
{
}

} // verus!
