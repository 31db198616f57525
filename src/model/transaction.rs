use vstd::prelude::*;

verus! {

/// A request to send an amount of SOL, written as text, to an address.
pub struct TransactionPayload {
    pub sol_to_send: String,
    pub to_pubkey: String,
}

} // verus!
