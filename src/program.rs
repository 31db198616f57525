//! The token program, the system program and address derivation, reached
//! through the `solana-program`, `spl-token` and
//! `spl-associated-token-account` crates.
use crate::codec::base58_bytes;
use crate::model::instruction::{account, AccountRef, Address, Instruction, InstructionView};
use solana_program::program_pack::Pack;
use solana_program::pubkey::Pubkey;
use std::str::FromStr;
use vstd::prelude::*;
use vstd::utf8::encode_utf8;

verus! {

/// The bytes of the token program's id (`TokenkegQfeZyiNwAJbNbGKPFXCWuBvf9Ss623VQ5DA`).
pub open spec fn token_program_id() -> Seq<u8> {
    seq![
        6u8, 221, 246, 225, 215, 101, 161, 147, 217, 203, 225, 70, 206, 235, 121, 172,
        28, 180, 133, 237, 95, 91, 55, 145, 58, 140, 245, 133, 126, 255, 0, 169,
    ]
}

/// The bytes of the rent sysvar's address (`SysvarRent111111111111111111111111111111111`).
pub open spec fn rent_sysvar_id() -> Seq<u8> {
    seq![
        6u8, 167, 213, 23, 25, 44, 92, 81, 33, 140, 201, 76, 61, 74, 241, 127,
        88, 218, 238, 8, 155, 161, 253, 68, 227, 219, 217, 138, 0, 0, 0, 0,
    ]
}

/// The bytes of the system program's id: 32 zero bytes.
pub open spec fn system_program_id() -> Seq<u8> {
    Seq::new(32, |i: int| 0u8)
}

/// The `k` lowest bytes of `n`, least significant first.
pub open spec fn le_bytes(n: nat, k: nat) -> Seq<u8>
    decreases k,
{
    if k == 0 {
        seq![]
    } else {
        seq![(n % 256) as u8] + le_bytes(n / 256, (k - 1) as nat)
    }
}

/// The address that a text names, or `None` where it names none: a text of
/// at most 44 bytes whose base58 decoding has exactly 32 bytes.
pub open spec fn parsed_address(s: Seq<char>) -> Option<Seq<u8>> {
    match base58_bytes(s) {
        Some(b) => if encode_utf8(s).len() <= 44 && b.len() == 32 {
            Some(b)
        } else {
            None
        },
        None => None,
    }
}

/// The associated token account of a wallet for a mint.
pub uninterp spec fn associated_token_address(wallet: Seq<u8>, mint: Seq<u8>) -> Seq<u8>;

/// The payload of the token program's mint initialisations: the tag of the
/// variant, the decimals, the authority and the optional freeze authority.
pub open spec fn initialize_mint_data(
    tag: u8,
    authority: Seq<u8>,
    freeze: Option<Seq<u8>>,
    decimals: u8,
) -> Seq<u8> {
    seq![tag, decimals] + authority + match freeze {
        Some(f) => seq![1u8] + f,
        None => seq![0u8],
    }
}

/// The system transfer of `lamports` from `from` to `to`.
pub open spec fn system_transfer_view(from: Seq<u8>, to: Seq<u8>, lamports: u64) -> InstructionView {
    InstructionView {
        program_id: system_program_id(),
        accounts: seq![account(from, true, true), account(to, false, true)],
        data: le_bytes(2, 4) + le_bytes(lamports as nat, 8),
    }
}

/// The system program's creation of an account.
pub open spec fn create_account_view(
    from: Seq<u8>,
    to: Seq<u8>,
    lamports: u64,
    space: u64,
    owner: Seq<u8>,
) -> InstructionView {
    InstructionView {
        program_id: system_program_id(),
        accounts: seq![account(from, true, true), account(to, true, true)],
        data: le_bytes(0, 4) + le_bytes(lamports as nat, 8) + le_bytes(space as nat, 8) + owner,
    }
}

/// The token program's second mint initialisation.
pub open spec fn initialize_mint2_view(
    mint: Seq<u8>,
    authority: Seq<u8>,
    freeze: Option<Seq<u8>>,
    decimals: u8,
) -> InstructionView {
    InstructionView {
        program_id: token_program_id(),
        accounts: seq![account(mint, false, true)],
        data: initialize_mint_data(20, authority, freeze, decimals),
    }
}

/// The idempotent creation of a wallet's associated token account.
pub open spec fn create_associated_account_view(
    payer: Seq<u8>,
    wallet: Seq<u8>,
    mint: Seq<u8>,
) -> InstructionView {
    InstructionView {
        program_id: associated_token_program_id(),
        accounts: seq![
            account(payer, true, true),
            account(associated_token_address(wallet, mint), false, true),
            account(wallet, false, false),
            account(mint, false, false),
            account(system_program_id(), false, false),
            account(token_program_id(), false, false),
        ],
        data: seq![1u8],
    }
}

/// The token program's checked minting, with the owner as its one signer.
pub open spec fn mint_to_checked_view(
    mint: Seq<u8>,
    account_: Seq<u8>,
    owner: Seq<u8>,
    amount: u64,
    decimals: u8,
) -> InstructionView {
    InstructionView {
        program_id: token_program_id(),
        accounts: seq![
            account(mint, false, true),
            account(account_, false, true),
            account(owner, false, false),
            account(owner, true, false),
        ],
        data: seq![14u8] + le_bytes(amount as nat, 8) + seq![decimals],
    }
}

/// The token program's checked transfer, with the owner as its one signer.
pub open spec fn transfer_checked_view(
    source: Seq<u8>,
    mint: Seq<u8>,
    destination: Seq<u8>,
    owner: Seq<u8>,
    amount: u64,
    decimals: u8,
) -> InstructionView {
    InstructionView {
        program_id: token_program_id(),
        accounts: seq![
            account(source, false, true),
            account(mint, false, false),
            account(destination, false, true),
            account(owner, false, false),
            account(owner, true, false),
        ],
        data: seq![12u8] + le_bytes(amount as nat, 8) + seq![decimals],
    }
}

/// Relies on `Pubkey::from_str`: it refuses a text of more than 44 bytes,
/// decodes the rest as base58 (bs58's decoding, as in `decode_base58`) and
/// accepts exactly the decodings of 32 bytes.
#[verifier::external_body]
pub(crate) fn parse_address(s: &str) -> (r: Option<Address>)
    ensures
        r is Some <==> parsed_address(s@) is Some,
        r is Some ==> r->0@ == parsed_address(s@)->0,
{
    match Pubkey::from_str(s) {
        Ok(p) => Some(Address { bytes: p.to_bytes() }),
        Err(_) => None,
    }
}

/// Relies on `spl_associated_token_account::get_associated_token_address`,
/// a derivation from the two addresses alone. It panics only where no bump
/// seed yields an address off the curve, which no known input reaches.
#[verifier::external_body]
pub(crate) fn associated_address(wallet: &Address, mint: &Address) -> (r: Address)
    ensures
        r@ == associated_token_address(wallet@, mint@),
{
    let w = Pubkey::new_from_array(wallet.bytes);
    let m = Pubkey::new_from_array(mint.bytes);
    Address { bytes: spl_associated_token_account::get_associated_token_address(&w, &m).to_bytes() }
}

/// Relies on `spl_token::instruction::initialize_mint` with the token
/// program's own id, which it accepts: the mint, writable, then the rent
/// sysvar, read only; the payload is tag 0, the decimals, the authority and
/// the optional freeze authority.
#[verifier::external_body]
pub(crate) fn initialize_mint_ix(
    mint: &Address,
    authority: &Address,
    freeze: Option<Address>,
    decimals: u8,
) -> (r: Option<Instruction>)
    ensures
        r is Some,
        r->0@ == (InstructionView {
            program_id: token_program_id(),
            accounts: seq![account(mint@, false, true), account(rent_sysvar_id(), false, false)],
            data: initialize_mint_data(
                0,
                authority@,
                if freeze is Some { Some(freeze->0@) } else { None },
                decimals,
            ),
        }),
{
    let f = freeze.map(|a| Pubkey::new_from_array(a.bytes));
    let (m, a) = (Pubkey::new_from_array(mint.bytes), Pubkey::new_from_array(authority.bytes));
    match spl_token::instruction::initialize_mint(&spl_token::id(), &m, &a, f.as_ref(), decimals) {
        Ok(ix) => Some(Instruction {
                program_id: Address { bytes: ix.program_id.to_bytes() },
                accounts: ix.accounts.iter().map(|m| AccountRef {
                    address: Address { bytes: m.pubkey.to_bytes() },
                    is_signer: m.is_signer,
                    is_writable: m.is_writable,
                }).collect(),
                data: ix.data,
            }),
        Err(_) => None,
    }
}

/// Relies on `spl_token::instruction::mint_to` with the token program's own
/// id and the owner as its one signer: the mint and the destination,
/// writable, then the owner twice, read only, the second time as signer;
/// the payload is tag 7 and the amount in eight little-endian bytes.
#[verifier::external_body]
pub(crate) fn mint_to_ix(mint: &Address, account_: &Address, owner: &Address, amount: u64) -> (r:
    Option<Instruction>)
    ensures
        r is Some,
        r->0@ == (InstructionView {
            program_id: token_program_id(),
            accounts: seq![
                account(mint@, false, true),
                account(account_@, false, true),
                account(owner@, false, false),
                account(owner@, true, false),
            ],
            data: seq![7u8] + le_bytes(amount as nat, 8),
        }),
{
    let (m, d) = (Pubkey::new_from_array(mint.bytes), Pubkey::new_from_array(account_.bytes));
    let o = Pubkey::new_from_array(owner.bytes);
    match spl_token::instruction::mint_to(&spl_token::id(), &m, &d, &o, &[&o], amount) {
        Ok(ix) => Some(Instruction {
                program_id: Address { bytes: ix.program_id.to_bytes() },
                accounts: ix.accounts.iter().map(|m| AccountRef {
                    address: Address { bytes: m.pubkey.to_bytes() },
                    is_signer: m.is_signer,
                    is_writable: m.is_writable,
                }).collect(),
                data: ix.data,
            }),
        Err(_) => None,
    }
}

/// Relies on `spl_token::instruction::transfer` with the token program's own
/// id and the owner as its one signer: the source and the destination,
/// writable, then the owner twice, read only, the second time as signer;
/// the payload is tag 3 and the amount in eight little-endian bytes.
#[verifier::external_body]
pub(crate) fn token_transfer_ix(source: &Address, destination: &Address, owner: &Address, amount: u64)
    -> (r: Option<Instruction>)
    ensures
        r is Some,
        r->0@ == (InstructionView {
            program_id: token_program_id(),
            accounts: seq![
                account(source@, false, true),
                account(destination@, false, true),
                account(owner@, false, false),
                account(owner@, true, false),
            ],
            data: seq![3u8] + le_bytes(amount as nat, 8),
        }),
{
    let (s, d) = (Pubkey::new_from_array(source.bytes), Pubkey::new_from_array(destination.bytes));
    let o = Pubkey::new_from_array(owner.bytes);
    match spl_token::instruction::transfer(&spl_token::id(), &s, &d, &o, &[&o], amount) {
        Ok(ix) => Some(Instruction {
                program_id: Address { bytes: ix.program_id.to_bytes() },
                accounts: ix.accounts.iter().map(|m| AccountRef {
                    address: Address { bytes: m.pubkey.to_bytes() },
                    is_signer: m.is_signer,
                    is_writable: m.is_writable,
                }).collect(),
                data: ix.data,
            }),
        Err(_) => None,
    }
}

/// Relies on `solana_program::system_instruction::transfer`: the sender,
/// writable and signer, then the recipient, writable; the payload is the
/// bincode form of the transfer variant (index 2, four bytes) and the
/// lamports in eight little-endian bytes.
#[verifier::external_body]
pub(crate) fn system_transfer_ix(from: &Address, to: &Address, lamports: u64) -> (r: Instruction)
    ensures
        r@ == system_transfer_view(from@, to@, lamports),
{
    let (f, t) = (Pubkey::new_from_array(from.bytes), Pubkey::new_from_array(to.bytes));
    let ix = solana_program::system_instruction::transfer(&f, &t, lamports);
    Instruction {
            program_id: Address { bytes: ix.program_id.to_bytes() },
            accounts: ix.accounts.iter().map(|m| AccountRef {
                address: Address { bytes: m.pubkey.to_bytes() },
                is_signer: m.is_signer,
                is_writable: m.is_writable,
            }).collect(),
            data: ix.data,
        }
}

/// The bytes of the associated token account program's id
/// (`ATokenGPvbdGVxr1b2hvZbsiqW5xWH25efTNsLJA8knL`).
pub open spec fn associated_token_program_id() -> Seq<u8> {
    seq![
        140u8, 151, 37, 143, 78, 36, 137, 241, 187, 61, 16, 41, 20, 142, 13, 131,
        11, 90, 19, 153, 218, 255, 16, 132, 4, 142, 123, 216, 219, 233, 248, 89,
    ]
}

/// Relies on `spl_token::state::Mint::LEN`: a mint account takes 82 bytes.
#[verifier::external_body]
pub(crate) fn mint_account_len() -> (r: u64)
    ensures
        r == 82,
{
    spl_token::state::Mint::LEN as u64
}

/// Relies on `spl_token::id`: the token program's id.
#[verifier::external_body]
pub(crate) fn token_program_address() -> (r: Address)
    ensures
        r@ == token_program_id(),
{
    Address { bytes: spl_token::id().to_bytes() }
}

/// Relies on `solana_program::native_token::LAMPORTS_PER_SOL`: a SOL is
/// 10^9 lamports.
#[verifier::external_body]
pub(crate) fn lamports_per_sol() -> (r: u64)
    ensures
        r == 1_000_000_000,
{
    solana_program::native_token::LAMPORTS_PER_SOL
}

/// Relies on `solana_program::system_instruction::create_account`: the payer
/// and the new account, both writable signers; the payload is the bincode
/// form of the create variant (index 0, four bytes), the lamports and the
/// space in eight little-endian bytes each, and the owner.
#[verifier::external_body]
pub(crate) fn create_account_ix(from: &Address, to: &Address, lamports: u64, space: u64, owner: &Address)
    -> (r: Instruction)
    ensures
        r@ == create_account_view(from@, to@, lamports, space, owner@),
{
    let (f, t) = (Pubkey::new_from_array(from.bytes), Pubkey::new_from_array(to.bytes));
    let o = Pubkey::new_from_array(owner.bytes);
    let ix = solana_program::system_instruction::create_account(&f, &t, lamports, space, &o);
    Instruction {
        program_id: Address { bytes: ix.program_id.to_bytes() },
        accounts: ix.accounts.iter().map(|m| AccountRef {
            address: Address { bytes: m.pubkey.to_bytes() },
            is_signer: m.is_signer,
            is_writable: m.is_writable,
        }).collect(),
        data: ix.data,
    }
}

/// Relies on `spl_token::instruction::initialize_mint2` with the token
/// program's own id, which it accepts: the mint, writable; the payload is
/// tag 20, the decimals, the authority and the optional freeze authority.
#[verifier::external_body]
pub(crate) fn initialize_mint2_ix(
    mint: &Address,
    authority: &Address,
    freeze: Option<Address>,
    decimals: u8,
) -> (r: Option<Instruction>)
    ensures
        r is Some,
        r->0@ == initialize_mint2_view(mint@, authority@, if freeze is Some { Some(freeze->0@) } else { None }, decimals),
{
    let f = freeze.map(|a| Pubkey::new_from_array(a.bytes));
    let (m, a) = (Pubkey::new_from_array(mint.bytes), Pubkey::new_from_array(authority.bytes));
    match spl_token::instruction::initialize_mint2(&spl_token::id(), &m, &a, f.as_ref(), decimals) {
        Ok(ix) => Some(Instruction {
                program_id: Address { bytes: ix.program_id.to_bytes() },
                accounts: ix.accounts.iter().map(|m| AccountRef {
                    address: Address { bytes: m.pubkey.to_bytes() },
                    is_signer: m.is_signer,
                    is_writable: m.is_writable,
                }).collect(),
                data: ix.data,
            }),
        Err(_) => None,
    }
}

/// Relies on
/// `spl_associated_token_account::instruction::create_associated_token_account_idempotent`
/// with the token program: the payer, writable signer, the associated
/// account, writable, then the wallet, the mint, the system program and the
/// token program, read only; the payload is the one-byte borsh form of the
/// idempotent variant (index 1).
#[verifier::external_body]
pub(crate) fn create_associated_account_ix(payer: &Address, wallet: &Address, mint: &Address) -> (r:
    Instruction)
    ensures
        r@ == create_associated_account_view(payer@, wallet@, mint@),
{
    let (p, w) = (Pubkey::new_from_array(payer.bytes), Pubkey::new_from_array(wallet.bytes));
    let m = Pubkey::new_from_array(mint.bytes);
    let ix = spl_associated_token_account::instruction::create_associated_token_account_idempotent(
        &p, &w, &m, &spl_token::id(),
    );
    Instruction {
        program_id: Address { bytes: ix.program_id.to_bytes() },
        accounts: ix.accounts.iter().map(|m| AccountRef {
            address: Address { bytes: m.pubkey.to_bytes() },
            is_signer: m.is_signer,
            is_writable: m.is_writable,
        }).collect(),
        data: ix.data,
    }
}

/// Relies on `spl_token::instruction::mint_to_checked` with the token
/// program's own id and the owner as its one signer: the mint and the
/// destination, writable, then the owner twice, read only, the second time as
/// signer; the payload is tag 14, the amount in eight little-endian bytes and
/// the decimals.
#[verifier::external_body]
pub(crate) fn mint_to_checked_ix(
    mint: &Address,
    account_: &Address,
    owner: &Address,
    amount: u64,
    decimals: u8,
) -> (r: Option<Instruction>)
    ensures
        r is Some,
        r->0@ == mint_to_checked_view(mint@, account_@, owner@, amount, decimals),
{
    let (m, d) = (Pubkey::new_from_array(mint.bytes), Pubkey::new_from_array(account_.bytes));
    let o = Pubkey::new_from_array(owner.bytes);
    match spl_token::instruction::mint_to_checked(&spl_token::id(), &m, &d, &o, &[&o], amount, decimals) {
        Ok(ix) => Some(Instruction {
                program_id: Address { bytes: ix.program_id.to_bytes() },
                accounts: ix.accounts.iter().map(|m| AccountRef {
                    address: Address { bytes: m.pubkey.to_bytes() },
                    is_signer: m.is_signer,
                    is_writable: m.is_writable,
                }).collect(),
                data: ix.data,
            }),
        Err(_) => None,
    }
}

/// Relies on `spl_token::instruction::transfer_checked` with the token
/// program's own id and the owner as its one signer: the source, writable,
/// the mint, read only, the destination, writable, then the owner twice, read
/// only, the second time as signer; the payload is tag 12, the amount in
/// eight little-endian bytes and the decimals.
#[verifier::external_body]
pub(crate) fn transfer_checked_ix(
    source: &Address,
    mint: &Address,
    destination: &Address,
    owner: &Address,
    amount: u64,
    decimals: u8,
) -> (r: Option<Instruction>)
    ensures
        r is Some,
        r->0@ == transfer_checked_view(source@, mint@, destination@, owner@, amount, decimals),
{
    let (s, m) = (Pubkey::new_from_array(source.bytes), Pubkey::new_from_array(mint.bytes));
    let (d, o) = (Pubkey::new_from_array(destination.bytes), Pubkey::new_from_array(owner.bytes));
    match spl_token::instruction::transfer_checked(&spl_token::id(), &s, &m, &d, &o, &[&o], amount, decimals) {
        Ok(ix) => Some(Instruction {
                program_id: Address { bytes: ix.program_id.to_bytes() },
                accounts: ix.accounts.iter().map(|m| AccountRef {
                    address: Address { bytes: m.pubkey.to_bytes() },
                    is_signer: m.is_signer,
                    is_writable: m.is_writable,
                }).collect(),
                data: ix.data,
            }),
        Err(_) => None,
    }
}

} // verus!
