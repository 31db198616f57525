//! Instructions as the token and system programs read them, and the textual
//! form in which they are handed to callers.
use crate::model::response::ApiResponse;
use crate::codec::{base58_bytes, base58_text, base64_bytes, base64_text, encode_base58, encode_base64};
use vstd::prelude::*;

verus! {

/// A 32-byte account address.
#[derive(Clone, Copy)]
pub struct Address {
    pub bytes: [u8; 32],
}

impl View for Address {
    type V = Seq<u8>;

    open spec fn view(&self) -> Seq<u8> {
        self.bytes@
    }
}

/// One account that an instruction names, with its signer and writable flags.
#[derive(Clone, Copy)]
pub struct AccountRef {
    pub address: Address,
    pub is_signer: bool,
    pub is_writable: bool,
}

/// What an account reference stands for.
pub struct AccountView {
    pub address: Seq<u8>,
    pub is_signer: bool,
    pub is_writable: bool,
}

pub open spec fn account(address: Seq<u8>, is_signer: bool, is_writable: bool) -> AccountView {
    AccountView { address, is_signer, is_writable }
}

impl View for AccountRef {
    type V = AccountView;

    open spec fn view(&self) -> AccountView {
        account(self.address@, self.is_signer, self.is_writable)
    }
}

/// A target program, the accounts it reads in positional order, and an
/// opaque payload.
pub struct Instruction {
    pub program_id: Address,
    pub accounts: Vec<AccountRef>,
    pub data: Vec<u8>,
}

/// What an instruction stands for.
pub struct InstructionView {
    pub program_id: Seq<u8>,
    pub accounts: Seq<AccountView>,
    pub data: Seq<u8>,
}

impl View for Instruction {
    type V = InstructionView;

    open spec fn view(&self) -> InstructionView {
        InstructionView {
            program_id: self.program_id@,
            accounts: self.accounts@.map_values(|a: AccountRef| a@),
            data: self.data@,
        }
    }
}

/// An account of an instruction as callers see it: the address in base58.
pub struct AccountInfo {
    pub pubkey: String,
    pub is_signer: bool,
    pub is_writable: bool,
}

/// An instruction as callers see it: addresses in base58, the payload in
/// standard base64.
pub struct InstructionPayload {
    pub program_id: String,
    pub accounts: Vec<AccountInfo>,
    pub instruction_data: String,
}

/// `info` is the textual form of the account `a`, and its address decodes
/// back.
pub open spec fn shows_account(info: AccountInfo, a: AccountView) -> bool {
    &&& info.pubkey@ == base58_text(a.address)
    &&& base58_bytes(info.pubkey@) == Some(a.address)
    &&& info.is_signer == a.is_signer
    &&& info.is_writable == a.is_writable
}

/// `p` is the textual form of the instruction `ix`, and each text decodes
/// back to its bytes.
pub open spec fn shows_instruction(p: InstructionPayload, ix: InstructionView) -> bool {
    &&& p.program_id@ == base58_text(ix.program_id)
    &&& base58_bytes(p.program_id@) == Some(ix.program_id)
    &&& base64_bytes(p.instruction_data@) == Some(ix.data)
    &&& p.accounts@.len() == ix.accounts.len()
    &&& forall|i: int| 0 <= i < ix.accounts.len() ==> shows_account(#[trigger] p.accounts@[i], ix.accounts[i])
    &&& p.instruction_data@ == base64_text(ix.data)
}

/// `r` answers with the instruction of `o`, or with its error message.
pub open spec fn reports(r: ApiResponse<InstructionPayload>, o: Result<InstructionView, Seq<char>>) -> bool {
    match o {
        Ok(ix) => r.wf() && r.success && shows_instruction(r.data->0, ix),
        Err(msg) => r.failed_with(msg),
    }
}

/// The textual form of an instruction.
pub fn instruction_payload(ix: &Instruction) -> (p: InstructionPayload)
    ensures
        shows_instruction(p, ix@),
{
    let mut accounts: Vec<AccountInfo> = Vec::new();
    let mut i: usize = 0;
    while i < ix.accounts.len()
        invariant
            i <= ix.accounts@.len(),
            accounts@.len() == i,
            forall|j: int| 0 <= j < i ==> shows_account(#[trigger] accounts@[j], ix.accounts@[j]@),
        decreases ix.accounts@.len() - i,
    {
        let a = &ix.accounts[i];
        accounts.push(AccountInfo {
            pubkey: encode_base58(a.address.bytes.as_slice()),
            is_signer: a.is_signer,
            is_writable: a.is_writable,
        });
        i = i + 1;
    }
    InstructionPayload {
        program_id: encode_base58(ix.program_id.bytes.as_slice()),
        accounts,
        instruction_data: encode_base64(ix.data.as_slice()),
    }
}

} // verus!
