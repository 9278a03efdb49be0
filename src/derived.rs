use vstd::prelude::*;

use crate::address::Address;

verus! {

/// The metadata record address that the metadata program derives from a mint.
pub uninterp spec fn metadata_address_of(mint: Seq<u8>) -> Seq<u8>;

/// The master edition record address that the metadata program derives from a mint.
pub uninterp spec fn master_edition_address_of(mint: Seq<u8>) -> Seq<u8>;

/// The associated token account address for an owner and a mint.
pub uninterp spec fn token_account_address_of(owner: Seq<u8>, mint: Seq<u8>) -> Seq<u8>;

/// Relies on `mpl_token_metadata::accounts::Metadata::find_pda`: the program-derived
/// address of the mint's metadata record, a function of the mint alone. (It panics only
/// where no bump seed yields an off-curve address, which does not occur in practice.)
#[verifier::external_body]
pub(crate) fn find_metadata_address(mint: &Address) -> (r: Address)
    ensures
        r@ == metadata_address_of(mint@),
{
    let key = anchor_lang::prelude::Pubkey::new_from_array(mint.bytes);
    Address { bytes: mpl_token_metadata::accounts::Metadata::find_pda(&key).0.to_bytes() }
}

/// Relies on `mpl_token_metadata::accounts::MasterEdition::find_pda`: the program-derived
/// address of the mint's master edition record, a function of the mint alone. (It panics
/// only where no bump seed yields an off-curve address, which does not occur in practice.)
#[verifier::external_body]
pub(crate) fn find_master_edition_address(mint: &Address) -> (r: Address)
    ensures
        r@ == master_edition_address_of(mint@),
{
    let key = anchor_lang::prelude::Pubkey::new_from_array(mint.bytes);
    Address { bytes: mpl_token_metadata::accounts::MasterEdition::find_pda(&key).0.to_bytes() }
}

/// Relies on `anchor_spl::associated_token::get_associated_token_address`: the associated
/// token account of `owner` for `mint` under the token program, a function of the two
/// addresses alone.
#[verifier::external_body]
pub(crate) fn find_token_account_address(owner: &Address, mint: &Address) -> (r: Address)
    ensures
        r@ == token_account_address_of(owner@, mint@),
{
    let owner_key = anchor_lang::prelude::Pubkey::new_from_array(owner.bytes);
    let mint_key = anchor_lang::prelude::Pubkey::new_from_array(mint.bytes);
    let found = anchor_spl::associated_token::get_associated_token_address(&owner_key, &mint_key);
    Address { bytes: found.to_bytes() }
}

} // verus!
