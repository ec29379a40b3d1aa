use vstd::prelude::*;

verus! {

/// A 32-byte account address (the bytes of a Solana public key).
#[derive(Clone, Copy)]
pub struct Address {
    pub bytes: [u8; 32],
}

impl View for Address {
    type V = Seq<u8>;

    open spec fn view(&self) -> Seq<u8> {
        self.bytes@
    }
}

/// Whether two addresses hold the same bytes.
pub fn same_address(a: &Address, b: &Address) -> (r: bool)
    ensures
        r == (a@ == b@),
{
    let mut i: usize = 0;
    while i < 32
        invariant
            0 <= i <= 32,
            a@.len() == 32,
            b@.len() == 32,
            forall|j: int| 0 <= j < i ==> a@[j] == b@[j],
        decreases 32 - i,
    {
        if a.bytes[i] != b.bytes[i] {
            return false;
        }
        i = i + 1;
    }
    assert(a@ =~= b@);
    true
}

/// The associated token account address of a wallet for a mint, as derived
/// by the associated-token-account program.
pub uninterp spec fn associated_token_address_of(wallet: Seq<u8>, mint: Seq<u8>) -> Seq<u8>;

/// Relies on `anchor_spl::associated_token::get_associated_token_address`
/// (from spl-associated-token-account): the program-derived address of the
/// seeds (wallet, token program id, mint), which depends on these alone.
/// That function panics only when no bump seed yields an off-curve address,
/// an event of negligible probability that no input is known to reach.
#[verifier::external_body]
pub(crate) fn associated_token_address(wallet: &Address, mint: &Address) -> (r: Address)
    ensures
        r@ == associated_token_address_of(wallet@, mint@),
{
    let wallet_key = anchor_lang::prelude::Pubkey::new_from_array(wallet.bytes);
    let mint_key = anchor_lang::prelude::Pubkey::new_from_array(mint.bytes);
    let derived = anchor_spl::associated_token::get_associated_token_address(&wallet_key, &mint_key);
    Address { bytes: derived.to_bytes() }
}

} // verus!
