use vstd::prelude::*;

use crate::accounts::{InitNFT, IssueError};
use crate::address::Address;
use crate::derived::{master_edition_address_of, metadata_address_of};
use crate::issue::{
    action_for, edition_action, metadata_action, mint_action, next_phase, Action, Phase,
    StepOutcome,
};
use crate::ledger::{agrees_with, committed, transaction, Ledger};

verus! {

/// A session whose steps all succeed asks the host for the unit mint, then the
/// metadata record, then the master edition record, and then finishes.
pub proof fn lemma_steps_in_order(ctx: InitNFT, name: String, symbol: String, uri: String)
    ensures
        action_for(ctx, name, symbol, uri, Phase::Minting) == mint_action(ctx),
        next_phase(Phase::Minting, StepOutcome::Succeeded) == Phase::AttachingMetadata,
        action_for(ctx, name, symbol, uri, Phase::AttachingMetadata) == metadata_action(
            ctx,
            name,
            symbol,
            uri,
        ),
        next_phase(Phase::AttachingMetadata, StepOutcome::Succeeded) == Phase::FinalizingEdition,
        action_for(ctx, name, symbol, uri, Phase::FinalizingEdition) == edition_action(ctx),
        next_phase(Phase::FinalizingEdition, StepOutcome::Succeeded) == Phase::Completed,
        action_for(ctx, name, symbol, uri, Phase::Completed) is Finish,
{
}

/// After a successful issuance the initiating party's balance record holds exactly
/// one unit, the asset's supply is one, the master edition record stands and holds
/// the asset's mint and freeze authority, and no later mint of the asset succeeds,
/// whatever authority signs it.
pub proof fn lemma_issue_leaves_single_unit(
    l: Ledger,
    ctx: InitNFT,
    name: String,
    symbol: String,
    uri: String,
)
    requires
        l.wf(),
        agrees_with(ctx, l),
        transaction(l, ctx, name, symbol, uri) is Some,
    ensures
        ({
            let l2 = transaction(l, ctx, name, symbol, uri)->Some_0;
            let ata = ctx.associated_token_account@;
            &&& l2.balances.contains_key(ata)
            &&& l2.balances[ata].owner == ctx.signer@
            &&& l2.balances[ata].mint == ctx.mint@
            &&& l2.balances[ata].amount == 1
            &&& l2.assets[ctx.mint@].supply == 1
            &&& l2.has_master_edition(ctx.mint@)
            &&& l2.assets[ctx.mint@].mint_authority == master_edition_address_of(ctx.mint@)
            &&& l2.assets[ctx.mint@].freeze_authority == master_edition_address_of(ctx.mint@)
            &&& forall|mint: Address, to: Address, authority: Address, amount: u64|
                mint@ == ctx.mint@ ==> (#[trigger] l2.apply(
                    Action::MintTo { mint, to, authority, amount },
                )) is None
        }),
{
    let ata = ctx.associated_token_account@;
    let l0 = l.open_records(ctx);
    if l.balances.contains_key(ata) {
        assert(l.assets.contains_key(l.balances[ata].mint));
        assert(l0.apply(mint_action(ctx)) is None);
    }
    let l1 = l0.apply(mint_action(ctx))->Some_0;
    let l2 = l1.apply(metadata_action(ctx, name, symbol, uri))->Some_0;
    let l3 = l2.apply(edition_action(ctx))->Some_0;
    assert(l3.has_master_edition(ctx.mint@));
}

/// After a successful issuance the metadata record holds exactly the caller's name,
/// symbol and URI, no royalty, no creators, no collection and no usage record; it is
/// immutable and its update authority is the initiating party.
pub proof fn lemma_issue_records_metadata(
    l: Ledger,
    ctx: InitNFT,
    name: String,
    symbol: String,
    uri: String,
)
    requires
        transaction(l, ctx, name, symbol, uri) is Some,
    ensures
        ({
            let l2 = transaction(l, ctx, name, symbol, uri)->Some_0;
            let md = ctx.metadata_account@;
            &&& md == metadata_address_of(ctx.mint@)
            &&& l2.metadata.contains_key(md)
            &&& l2.metadata[md].mint == ctx.mint@
            &&& l2.metadata[md].name == name@
            &&& l2.metadata[md].symbol == symbol@
            &&& l2.metadata[md].uri == uri@
            &&& l2.metadata[md].seller_fee_basis_points == 0
            &&& !l2.metadata[md].has_creators
            &&& !l2.metadata[md].has_collection
            &&& !l2.metadata[md].has_uses
            &&& !l2.metadata[md].is_mutable
            &&& l2.metadata[md].update_authority == ctx.signer@
            &&& l2.has_master_edition(ctx.mint@)
        }),
{
}

/// Where the metadata or master edition address handed in is not the one derived
/// from the mint, the issuance is refused before anything is written.
pub proof fn lemma_wrong_address_changes_nothing(
    l: Ledger,
    ctx: InitNFT,
    name: String,
    symbol: String,
    uri: String,
)
    requires
        ctx.metadata_account@ != metadata_address_of(ctx.mint@)
            || ctx.master_edition_account@ != master_edition_address_of(ctx.mint@),
    ensures
        ctx.issue_error() is Some,
        transaction(l, ctx, name, symbol, uri) is None,
        committed(l, ctx, name, symbol, uri) == l,
{
}

/// Where the mint step fails, the session aborts and asks for nothing more, and
/// the transaction changes nothing: no metadata or master edition record stands at
/// the addresses derived from the mint.
pub proof fn lemma_failed_mint_writes_nothing(
    l: Ledger,
    ctx: InitNFT,
    name: String,
    symbol: String,
    uri: String,
)
    requires
        l.wf(),
        agrees_with(ctx, l),
        ctx.issue_error() is None,
        l.open_records(ctx).apply(mint_action(ctx)) is None,
    ensures
        next_phase(Phase::Minting, StepOutcome::Failed) == Phase::Aborted,
        forall|o: StepOutcome| #[trigger] next_phase(Phase::Aborted, o) == Phase::Aborted,
        action_for(ctx, name, symbol, uri, Phase::Aborted) is Abort,
        transaction(l, ctx, name, symbol, uri) is None,
        committed(l, ctx, name, symbol, uri) == l,
        !committed(l, ctx, name, symbol, uri).metadata.contains_key(
            metadata_address_of(ctx.mint@),
        ),
        !committed(l, ctx, name, symbol, uri).editions.contains_key(
            master_edition_address_of(ctx.mint@),
        ),
{
    assert(!l.assets.contains_key(ctx.mint@));
}

/// Issuing twice for the same asset record fails the second time: the asset
/// record is already there.
pub proof fn lemma_second_issue_fails(
    l: Ledger,
    ctx: InitNFT,
    name: String,
    symbol: String,
    uri: String,
    again: InitNFT,
    name2: String,
    symbol2: String,
    uri2: String,
)
    requires
        transaction(l, ctx, name, symbol, uri) is Some,
        again.mint@ == ctx.mint@,
        again.signer_signed,
        agrees_with(again, transaction(l, ctx, name, symbol, uri)->Some_0),
    ensures
        again.issue_error() == Some(IssueError::MintAlreadyInitialized),
        transaction(transaction(l, ctx, name, symbol, uri)->Some_0, again, name2, symbol2, uri2)
            is None,
{
}

} // verus!
