use vstd::prelude::*;

use crate::accounts::{check_accounts, derive_addresses, DerivedAddresses, InitNFT, IssueError};
use crate::address::Address;

verus! {

/// How a usage record may be spent.
#[derive(Clone, Copy, Debug, PartialEq, Eq, Structural)]
pub enum UseMethod {
    Burn,
    Multiple,
    Single,
}

/// A usage record of a metadata record.
#[derive(Clone, Copy, Debug)]
pub struct Uses {
    pub use_method: UseMethod,
    pub remaining: u64,
    pub total: u64,
}

/// One entry of a metadata record's creator list.
#[derive(Clone, Copy, Debug)]
pub struct Creator {
    pub address: Address,
    pub verified: bool,
    pub share: u8,
}

/// The collection a metadata record belongs to.
#[derive(Clone, Copy, Debug)]
pub struct Collection {
    pub verified: bool,
    pub key: Address,
}

/// The descriptive fields of a metadata record.
#[derive(Debug)]
pub struct TokenData {
    pub name: String,
    pub symbol: String,
    pub uri: String,
    pub seller_fee_basis_points: u16,
    pub creators: Option<Vec<Creator>>,
    pub collection: Option<Collection>,
    pub uses: Option<Uses>,
}

/// The next thing the host is to do for an issuance.
#[derive(Debug)]
pub enum Action {
    /// Mint `amount` units of `mint` into the balance record `to`, signed by `authority`.
    MintTo { mint: Address, to: Address, authority: Address, amount: u64 },
    /// Create the metadata record `metadata` of `mint` holding `data`.
    CreateMetadata {
        metadata: Address,
        mint: Address,
        mint_authority: Address,
        update_authority: Address,
        payer: Address,
        data: TokenData,
        is_mutable: bool,
        update_authority_is_signer: bool,
    },
    /// Create the master edition record `edition` of `mint`, capping its supply.
    CreateMasterEdition {
        edition: Address,
        mint: Address,
        update_authority: Address,
        mint_authority: Address,
        payer: Address,
        metadata: Address,
        max_supply: Option<u64>,
    },
    /// Every step succeeded: the issuance is complete.
    Finish,
    /// A step failed: end the transaction with that step's error.
    Abort,
}

/// Where an issuance stands.
#[derive(Clone, Copy, Debug, PartialEq, Eq, Structural)]
pub enum Phase {
    Minting,
    AttachingMetadata,
    FinalizingEdition,
    Completed,
    Aborted,
}

/// What the host reports of the step it last performed.
#[derive(Clone, Copy, Debug, PartialEq, Eq, Structural)]
pub enum StepOutcome {
    Succeeded,
    Failed,
}

/// The phase that follows `p` once its step has had `outcome`.
pub open spec fn next_phase(p: Phase, outcome: StepOutcome) -> Phase {
    match p {
        Phase::Minting => if outcome == StepOutcome::Succeeded {
            Phase::AttachingMetadata
        } else {
            Phase::Aborted
        },
        Phase::AttachingMetadata => if outcome == StepOutcome::Succeeded {
            Phase::FinalizingEdition
        } else {
            Phase::Aborted
        },
        Phase::FinalizingEdition => if outcome == StepOutcome::Succeeded {
            Phase::Completed
        } else {
            Phase::Aborted
        },
        Phase::Completed => Phase::Completed,
        Phase::Aborted => Phase::Aborted,
    }
}

/// The metadata fields of an issuance: the caller's name, symbol and URI, no
/// royalty, no creators, no collection and no usage record.
pub open spec fn token_data_of(name: String, symbol: String, uri: String) -> TokenData {
    TokenData {
        name,
        symbol,
        uri,
        seller_fee_basis_points: 0,
        creators: None,
        collection: None,
        uses: None,
    }
}

/// The unit mint of an issuance: one unit into the initiating party's balance record.
pub open spec fn mint_action(ctx: InitNFT) -> Action {
    Action::MintTo {
        mint: ctx.mint,
        to: ctx.associated_token_account,
        authority: ctx.signer,
        amount: 1,
    }
}

/// The metadata record of an issuance, created immutable with the initiating party
/// as the signing update authority.
pub open spec fn metadata_action(ctx: InitNFT, name: String, symbol: String, uri: String) -> Action {
    Action::CreateMetadata {
        metadata: ctx.metadata_account,
        mint: ctx.mint,
        mint_authority: ctx.signer,
        update_authority: ctx.signer,
        payer: ctx.signer,
        data: token_data_of(name, symbol, uri),
        is_mutable: false,
        update_authority_is_signer: true,
    }
}

/// The master edition record of an issuance, with no maximum supply given.
pub open spec fn edition_action(ctx: InitNFT) -> Action {
    Action::CreateMasterEdition {
        edition: ctx.master_edition_account,
        mint: ctx.mint,
        update_authority: ctx.signer,
        mint_authority: ctx.signer,
        payer: ctx.signer,
        metadata: ctx.metadata_account,
        max_supply: None,
    }
}

/// The action that goes with phase `p` of an issuance.
pub open spec fn action_for(
    ctx: InitNFT,
    name: String,
    symbol: String,
    uri: String,
    p: Phase,
) -> Action {
    match p {
        Phase::Minting => mint_action(ctx),
        Phase::AttachingMetadata => metadata_action(ctx, name, symbol, uri),
        Phase::FinalizingEdition => edition_action(ctx),
        Phase::Completed => Action::Finish,
        Phase::Aborted => Action::Abort,
    }
}

/// An issuance under way: the checked accounts, the caller's strings, and the
/// step reached. Steps run strictly in order and the first failure ends it.
#[derive(Debug)]
pub struct Issuance {
    pub accounts: InitNFT,
    pub name: String,
    pub symbol: String,
    pub uri: String,
    pub phase: Phase,
}

impl Issuance {
    /// The action that the current phase calls for.
    pub open spec fn action_spec(&self) -> Action {
        action_for(self.accounts, self.name, self.symbol, self.uri, self.phase)
    }

    /// The action that the current phase calls for.
    pub fn current_action(&self) -> (r: Action)
        ensures
            r == self.action_spec(),
    {
        let ctx = &self.accounts;
        match self.phase {
            Phase::Minting => Action::MintTo {
                mint: ctx.mint,
                to: ctx.associated_token_account,
                authority: ctx.signer,
                amount: 1,
            },
            Phase::AttachingMetadata => Action::CreateMetadata {
                metadata: ctx.metadata_account,
                mint: ctx.mint,
                mint_authority: ctx.signer,
                update_authority: ctx.signer,
                payer: ctx.signer,
                data: TokenData {
                    name: self.name.clone(),
                    symbol: self.symbol.clone(),
                    uri: self.uri.clone(),
                    seller_fee_basis_points: 0,
                    creators: None,
                    collection: None,
                    uses: None,
                },
                is_mutable: false,
                update_authority_is_signer: true,
            },
            Phase::FinalizingEdition => Action::CreateMasterEdition {
                edition: ctx.master_edition_account,
                mint: ctx.mint,
                update_authority: ctx.signer,
                mint_authority: ctx.signer,
                payer: ctx.signer,
                metadata: ctx.metadata_account,
                max_supply: None,
            },
            Phase::Completed => Action::Finish,
            Phase::Aborted => Action::Abort,
        }
    }

    /// Records the outcome of the step just performed and returns the next action.
    pub fn advance(&mut self, outcome: StepOutcome) -> (r: Action)
        ensures
            final(self).accounts == old(self).accounts,
            final(self).name == old(self).name,
            final(self).symbol == old(self).symbol,
            final(self).uri == old(self).uri,
            final(self).phase == next_phase(old(self).phase, outcome),
            r == final(self).action_spec(),
    {
        let succeeded = match outcome {
            StepOutcome::Succeeded => true,
            StepOutcome::Failed => false,
        };
        self.phase = match self.phase {
            Phase::Minting => if succeeded {
                Phase::AttachingMetadata
            } else {
                Phase::Aborted
            },
            Phase::AttachingMetadata => if succeeded {
                Phase::FinalizingEdition
            } else {
                Phase::Aborted
            },
            Phase::FinalizingEdition => if succeeded {
                Phase::Completed
            } else {
                Phase::Aborted
            },
            Phase::Completed => Phase::Completed,
            Phase::Aborted => Phase::Aborted,
        };
        self.current_action()
    }
}

/// Starts an issuance for `ctx` against the derived addresses `d`: refused with the
/// first failing account check, else at the mint step.
pub fn begin_issue(
    ctx: &InitNFT,
    d: &DerivedAddresses,
    name: String,
    symbol: String,
    uri: String,
) -> (r: Result<Issuance, IssueError>)
    ensures
        r is Ok <==> ctx.accounts_error(*d) is None,
        r is Err ==> ctx.accounts_error(*d) == Some(r->Err_0),
        r is Ok ==> ({
            let s = r->Ok_0;
            &&& s.accounts == *ctx
            &&& s.name == name
            &&& s.symbol == symbol
            &&& s.uri == uri
            &&& s.phase == Phase::Minting
        }),
{
    match check_accounts(ctx, d) {
        Ok(()) => Ok(Issuance { accounts: *ctx, name, symbol, uri, phase: Phase::Minting }),
        Err(e) => Err(e),
    }
}

/// Issues a one-of-a-kind token for `ctx`: checks the accounts against the
/// addresses the outside programs derive, then starts at the mint step. Nothing is
/// to be written where a check fails.
pub fn init_nft(ctx: &InitNFT, name: String, symbol: String, uri: String) -> (r: Result<
    Issuance,
    IssueError,
>)
    ensures
        r is Ok <==> ctx.issue_error() is None,
        r is Err ==> ctx.issue_error() == Some(r->Err_0),
        r is Ok ==> ({
            let s = r->Ok_0;
            &&& s.accounts == *ctx
            &&& s.name == name
            &&& s.symbol == symbol
            &&& s.uri == uri
            &&& s.phase == Phase::Minting
        }),
{
    let d = derive_addresses(ctx);
    begin_issue(ctx, &d, name, symbol, uri)
}

} // verus!
