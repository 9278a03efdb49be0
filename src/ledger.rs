use vstd::prelude::*;

use crate::accounts::InitNFT;
use crate::derived::{master_edition_address_of, metadata_address_of};
use crate::issue::{edition_action, metadata_action, mint_action, Action};

verus! {

/// An asset record: the identity of a token and who may mint or freeze it.
pub struct AssetRecord {
    pub decimals: nat,
    pub mint_authority: Seq<u8>,
    pub freeze_authority: Seq<u8>,
    pub supply: nat,
}

/// A balance record: how much of `mint` the party `owner` holds.
pub struct BalanceRecord {
    pub owner: Seq<u8>,
    pub mint: Seq<u8>,
    pub amount: nat,
}

/// A metadata record: the descriptive fields bound to `mint`.
pub struct MetadataRecord {
    pub mint: Seq<u8>,
    pub name: Seq<char>,
    pub symbol: Seq<char>,
    pub uri: Seq<char>,
    pub seller_fee_basis_points: nat,
    pub has_creators: bool,
    pub has_collection: bool,
    pub has_uses: bool,
    pub is_mutable: bool,
    pub update_authority: Seq<u8>,
}

/// A master edition record of `mint`: while it stands, no unit of the asset can be
/// minted. Creating it hands the asset's mint and freeze authority to the record's
/// address.
pub struct EditionRecord {
    pub mint: Seq<u8>,
    pub max_supply: Option<nat>,
}

/// The records on the host, each keyed by the address it lives at.
pub struct Ledger {
    pub assets: Map<Seq<u8>, AssetRecord>,
    pub balances: Map<Seq<u8>, BalanceRecord>,
    pub metadata: Map<Seq<u8>, MetadataRecord>,
    pub editions: Map<Seq<u8>, EditionRecord>,
}

impl Ledger {
    /// Every balance, metadata and master edition record is of an asset record that
    /// exists, and no record stands at the derived addresses of a mint that has no
    /// asset record.
    pub open spec fn wf(self) -> bool {
        &&& forall|a: Seq<u8>| #[trigger]
            self.balances.contains_key(a) ==> self.assets.contains_key(self.balances[a].mint)
        &&& forall|a: Seq<u8>| #[trigger]
            self.metadata.contains_key(a) ==> self.assets.contains_key(self.metadata[a].mint)
        &&& forall|a: Seq<u8>| #[trigger]
            self.editions.contains_key(a) ==> self.assets.contains_key(self.editions[a].mint)
        &&& forall|m: Seq<u8>|
            !self.assets.contains_key(m) ==> !self.metadata.contains_key(
                #[trigger] metadata_address_of(m),
            )
        &&& forall|m: Seq<u8>|
            !self.assets.contains_key(m) ==> !self.editions.contains_key(
                #[trigger] master_edition_address_of(m),
            )
    }

    /// Whether a master edition record stands at the address derived from `mint`.
    pub open spec fn has_master_edition(self, mint: Seq<u8>) -> bool {
        self.editions.contains_key(master_edition_address_of(mint))
    }

    /// What the account checks of an issuance leave behind: the asset record,
    /// indivisible and held by the initiating party, and its balance record, created
    /// empty where none is there yet.
    pub open spec fn open_records(self, ctx: InitNFT) -> Ledger {
        let asset = AssetRecord {
            decimals: 0,
            mint_authority: ctx.signer@,
            freeze_authority: ctx.signer@,
            supply: 0,
        };
        let balance = BalanceRecord { owner: ctx.signer@, mint: ctx.mint@, amount: 0 };
        Ledger {
            assets: self.assets.insert(ctx.mint@, asset),
            balances: if self.balances.contains_key(ctx.associated_token_account@) {
                self.balances
            } else {
                self.balances.insert(ctx.associated_token_account@, balance)
            },
            ..self
        }
    }

    /// The records after the host performs `a`, or `None` where the call fails.
    pub open spec fn apply(self, a: Action) -> Option<Ledger> {
        match a {
            Action::MintTo { mint, to, authority, amount } => {
                if self.assets.contains_key(mint@) && self.assets[mint@].mint_authority
                    == authority@ && !self.has_master_edition(mint@) && self.balances.contains_key(
                    to@,
                ) && self.balances[to@].mint == mint@ {
                    let asset = self.assets[mint@];
                    let balance = self.balances[to@];
                    Some(
                        Ledger {
                            assets: self.assets.insert(
                                mint@,
                                AssetRecord { supply: asset.supply + amount as nat, ..asset },
                            ),
                            balances: self.balances.insert(
                                to@,
                                BalanceRecord { amount: balance.amount + amount as nat, ..balance },
                            ),
                            ..self
                        },
                    )
                } else {
                    None
                }
            },
            Action::CreateMetadata {
                metadata,
                mint,
                mint_authority,
                update_authority,
                data,
                is_mutable,
                ..
            } => {
                if metadata@ == metadata_address_of(mint@) && !self.metadata.contains_key(
                    metadata@,
                ) && self.assets.contains_key(mint@) && self.assets[mint@].mint_authority
                    == mint_authority@ {
                    let record = MetadataRecord {
                        mint: mint@,
                        name: data.name@,
                        symbol: data.symbol@,
                        uri: data.uri@,
                        seller_fee_basis_points: data.seller_fee_basis_points as nat,
                        has_creators: data.creators is Some,
                        has_collection: data.collection is Some,
                        has_uses: data.uses is Some,
                        is_mutable,
                        update_authority: update_authority@,
                    };
                    Some(Ledger { metadata: self.metadata.insert(metadata@, record), ..self })
                } else {
                    None
                }
            },
            Action::CreateMasterEdition { edition, mint, mint_authority, metadata, max_supply, .. } => {
                if edition@ == master_edition_address_of(mint@) && !self.editions.contains_key(
                    edition@,
                ) && metadata@ == metadata_address_of(mint@) && self.metadata.contains_key(
                    metadata@,
                ) && self.assets.contains_key(mint@) && self.assets[mint@].mint_authority
                    == mint_authority@ && self.assets[mint@].decimals == 0
                    && self.assets[mint@].supply == 1 {
                    let asset = self.assets[mint@];
                    let record = EditionRecord {
                        mint: mint@,
                        max_supply: match max_supply {
                            Some(m) => Some(m as nat),
                            None => None,
                        },
                    };
                    Some(
                        Ledger {
                            assets: self.assets.insert(
                                mint@,
                                AssetRecord {
                                    mint_authority: edition@,
                                    freeze_authority: edition@,
                                    ..asset
                                },
                            ),
                            editions: self.editions.insert(edition@, record),
                            ..self
                        },
                    )
                } else {
                    None
                }
            },
            Action::Finish => Some(self),
            Action::Abort => Some(self),
        }
    }
}

/// The records after a whole issuance transaction on `l`: the account checks, then
/// the mint, metadata and master edition steps in order. `None` where anything
/// fails; the host then keeps `l` as it was.
pub open spec fn transaction(
    l: Ledger,
    ctx: InitNFT,
    name: String,
    symbol: String,
    uri: String,
) -> Option<Ledger> {
    if ctx.issue_error() is Some {
        None
    } else {
        match l.open_records(ctx).apply(mint_action(ctx)) {
            None => None,
            Some(l1) => match l1.apply(metadata_action(ctx, name, symbol, uri)) {
                None => None,
                Some(l2) => l2.apply(edition_action(ctx)),
            },
        }
    }
}

/// The records that stand once the transaction ends, whether it succeeded or not.
pub open spec fn committed(
    l: Ledger,
    ctx: InitNFT,
    name: String,
    symbol: String,
    uri: String,
) -> Ledger {
    match transaction(l, ctx, name, symbol, uri) {
        Some(l2) => l2,
        None => l,
    }
}

/// Whether `ctx` describes `l` truthfully: its mint flag says whether an asset
/// record is there.
pub open spec fn agrees_with(ctx: InitNFT, l: Ledger) -> bool {
    ctx.mint_initialized == l.assets.contains_key(ctx.mint@)
}

} // verus!
