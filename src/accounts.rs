use vstd::prelude::*;

use crate::address::Address;
use crate::derived::{
    find_master_edition_address, find_metadata_address, find_token_account_address,
    master_edition_address_of, metadata_address_of, token_account_address_of,
};

verus! {

/// The accounts handed to an issuance, as the checks before it see them.
#[derive(Clone, Copy, Debug)]
pub struct InitNFT {
    /// The initiating party: pays for every record and holds every authority.
    pub signer: Address,
    /// Whether the initiating party signed the transaction.
    pub signer_signed: bool,
    /// The asset record to create.
    pub mint: Address,
    /// Whether an asset record already lives at `mint`.
    pub mint_initialized: bool,
    /// The balance record of the initiating party for `mint`.
    pub associated_token_account: Address,
    /// Where the metadata record is to be written.
    pub metadata_account: Address,
    /// Where the master edition record is to be written.
    pub master_edition_account: Address,
}

/// Why the accounts of an issuance were refused before anything was written.
#[derive(Clone, Copy, Debug, PartialEq, Eq, Structural)]
pub enum IssueError {
    MissingSignature,
    MintAlreadyInitialized,
    TokenAccountMismatch,
    MetadataAddressMismatch,
    MasterEditionAddressMismatch,
}

/// The addresses that the outside programs derive for one issuance.
#[derive(Clone, Copy, Debug)]
pub struct DerivedAddresses {
    pub token_account: Address,
    pub metadata: Address,
    pub master_edition: Address,
}

impl DerivedAddresses {
    /// Whether these are the addresses derived for `ctx`'s initiating party and mint.
    pub open spec fn derived_for(&self, ctx: InitNFT) -> bool {
        &&& self.token_account@ == token_account_address_of(ctx.signer@, ctx.mint@)
        &&& self.metadata@ == metadata_address_of(ctx.mint@)
        &&& self.master_edition@ == master_edition_address_of(ctx.mint@)
    }
}

impl InitNFT {
    /// The first check, in order, that the accounts fail where the derived balance
    /// record, metadata record and master edition record addresses are `token_account`,
    /// `metadata` and `master_edition`; `None` where they pass all of them.
    pub open spec fn accounts_error_at(
        self,
        token_account: Seq<u8>,
        metadata: Seq<u8>,
        master_edition: Seq<u8>,
    ) -> Option<IssueError> {
        if !self.signer_signed {
            Some(IssueError::MissingSignature)
        } else if self.mint_initialized {
            Some(IssueError::MintAlreadyInitialized)
        } else if self.associated_token_account@ != token_account {
            Some(IssueError::TokenAccountMismatch)
        } else if self.metadata_account@ != metadata {
            Some(IssueError::MetadataAddressMismatch)
        } else if self.master_edition_account@ != master_edition {
            Some(IssueError::MasterEditionAddressMismatch)
        } else {
            None
        }
    }

    /// The first check that the accounts fail against the addresses `d`.
    pub open spec fn accounts_error(self, d: DerivedAddresses) -> Option<IssueError> {
        self.accounts_error_at(d.token_account@, d.metadata@, d.master_edition@)
    }

    /// The first check that the accounts fail against the addresses that the
    /// outside programs derive for them.
    pub open spec fn issue_error(self) -> Option<IssueError> {
        self.accounts_error_at(
            token_account_address_of(self.signer@, self.mint@),
            metadata_address_of(self.mint@),
            master_edition_address_of(self.mint@),
        )
    }
}

/// Runs the account checks in order against the derived addresses `d`; the first
/// failing one decides the error.
pub fn check_accounts(ctx: &InitNFT, d: &DerivedAddresses) -> (r: Result<(), IssueError>)
    ensures
        r is Ok <==> ctx.accounts_error(*d) is None,
        r is Err ==> ctx.accounts_error(*d) == Some(r->Err_0),
{
    if !ctx.signer_signed {
        return Err(IssueError::MissingSignature);
    }
    if ctx.mint_initialized {
        return Err(IssueError::MintAlreadyInitialized);
    }
    if !ctx.associated_token_account.same_as(&d.token_account) {
        return Err(IssueError::TokenAccountMismatch);
    }
    if !ctx.metadata_account.same_as(&d.metadata) {
        return Err(IssueError::MetadataAddressMismatch);
    }
    if !ctx.master_edition_account.same_as(&d.master_edition) {
        return Err(IssueError::MasterEditionAddressMismatch);
    }
    Ok(())
}

/// Asks the outside programs for the addresses derived from `ctx`'s initiating
/// party and mint.
pub fn derive_addresses(ctx: &InitNFT) -> (r: DerivedAddresses)
    ensures
        r.derived_for(*ctx),
{
    DerivedAddresses {
        token_account: find_token_account_address(&ctx.signer, &ctx.mint),
        metadata: find_metadata_address(&ctx.mint),
        master_edition: find_master_edition_address(&ctx.mint),
    }
}

} // verus!
