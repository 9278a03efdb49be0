use solana_nft_anchor::accounts::{
    check_accounts, derive_addresses, DerivedAddresses, InitNFT, IssueError,
};
use solana_nft_anchor::address::Address;
use solana_nft_anchor::issue::{begin_issue, init_nft, Action, Issuance, Phase, StepOutcome};

fn addr(b: u8) -> Address {
    Address::new([b; 32])
}

fn valid_accounts() -> InitNFT {
    let mut ctx = InitNFT {
        signer: addr(7),
        signer_signed: true,
        mint: addr(9),
        mint_initialized: false,
        associated_token_account: addr(0),
        metadata_account: addr(0),
        master_edition_account: addr(0),
    };
    let d = derive_addresses(&ctx);
    ctx.associated_token_account = d.token_account;
    ctx.metadata_account = d.metadata;
    ctx.master_edition_account = d.master_edition;
    ctx
}

fn start(ctx: &InitNFT, name: &str) -> Issuance {
    init_nft(ctx, name.to_string(), "ROCK".to_string(), "https://example.test/1.json".to_string())
        .expect("accounts pass the checks")
}

#[test]
fn rock_scenario_runs_three_steps() {
    let ctx = valid_accounts();
    let mut s = init_nft(
        &ctx,
        "Rock #1".to_string(),
        "ROCK".to_string(),
        "https://example.test/1.json".to_string(),
    )
    .unwrap();
    assert_eq!(s.phase, Phase::Minting);
    match s.current_action() {
        Action::MintTo { mint, to, authority, amount } => {
            assert_eq!(amount, 1);
            assert_eq!(mint.bytes, ctx.mint.bytes);
            assert_eq!(to.bytes, ctx.associated_token_account.bytes);
            assert_eq!(authority.bytes, ctx.signer.bytes);
        }
        other => panic!("expected a mint, got {:?}", other),
    }
    match s.advance(StepOutcome::Succeeded) {
        Action::CreateMetadata { metadata, data, is_mutable, update_authority_is_signer, update_authority, .. } => {
            assert_eq!(metadata.bytes, ctx.metadata_account.bytes);
            assert_eq!(data.name, "Rock #1");
            assert_eq!(data.symbol, "ROCK");
            assert_eq!(data.uri, "https://example.test/1.json");
            assert_eq!(data.seller_fee_basis_points, 0);
            assert!(data.creators.is_none());
            assert!(data.collection.is_none());
            assert!(data.uses.is_none());
            assert!(!is_mutable);
            assert!(update_authority_is_signer);
            assert_eq!(update_authority.bytes, ctx.signer.bytes);
        }
        other => panic!("expected metadata, got {:?}", other),
    }
    match s.advance(StepOutcome::Succeeded) {
        Action::CreateMasterEdition { edition, metadata, max_supply, .. } => {
            assert_eq!(edition.bytes, ctx.master_edition_account.bytes);
            assert_eq!(metadata.bytes, ctx.metadata_account.bytes);
            assert_eq!(max_supply, None);
        }
        other => panic!("expected a master edition, got {:?}", other),
    }
    assert!(matches!(s.advance(StepOutcome::Succeeded), Action::Finish));
    assert_eq!(s.phase, Phase::Completed);
    assert!(matches!(s.advance(StepOutcome::Succeeded), Action::Finish));
}

#[test]
fn failed_mint_aborts_before_metadata() {
    let ctx = valid_accounts();
    let mut s = start(&ctx, "Rock #1");
    assert!(matches!(s.advance(StepOutcome::Failed), Action::Abort));
    assert_eq!(s.phase, Phase::Aborted);
    assert!(matches!(s.advance(StepOutcome::Succeeded), Action::Abort));
    assert!(matches!(s.current_action(), Action::Abort));
}

#[test]
fn failed_metadata_aborts_before_edition() {
    let ctx = valid_accounts();
    let mut s = start(&ctx, "Rock #2");
    assert!(matches!(s.advance(StepOutcome::Succeeded), Action::CreateMetadata { .. }));
    assert!(matches!(s.advance(StepOutcome::Failed), Action::Abort));
    assert_eq!(s.phase, Phase::Aborted);
}

#[test]
fn failed_edition_aborts() {
    let ctx = valid_accounts();
    let mut s = start(&ctx, "Rock #3");
    s.advance(StepOutcome::Succeeded);
    assert!(matches!(s.advance(StepOutcome::Succeeded), Action::CreateMasterEdition { .. }));
    assert!(matches!(s.advance(StepOutcome::Failed), Action::Abort));
    assert_eq!(s.phase, Phase::Aborted);
}

#[test]
fn missing_signature_is_refused() {
    let mut ctx = valid_accounts();
    ctx.signer_signed = false;
    ctx.mint_initialized = true;
    assert_eq!(check_accounts(&ctx, &derive_addresses(&ctx)), Err(IssueError::MissingSignature));
}

#[test]
fn second_issue_for_same_mint_is_refused() {
    let mut ctx = valid_accounts();
    ctx.mint_initialized = true;
    let r = init_nft(&ctx, "Rock #1".to_string(), "ROCK".to_string(), "u".to_string());
    assert_eq!(r.err(), Some(IssueError::MintAlreadyInitialized));
}

#[test]
fn wrong_token_account_is_refused() {
    let mut ctx = valid_accounts();
    ctx.associated_token_account = addr(3);
    let r = init_nft(&ctx, "n".to_string(), "s".to_string(), "u".to_string());
    assert_eq!(r.err(), Some(IssueError::TokenAccountMismatch));
}

#[test]
fn wrong_metadata_address_is_refused() {
    let mut ctx = valid_accounts();
    ctx.metadata_account = ctx.master_edition_account;
    let r = init_nft(&ctx, "n".to_string(), "s".to_string(), "u".to_string());
    assert_eq!(r.err(), Some(IssueError::MetadataAddressMismatch));
}

#[test]
fn wrong_master_edition_address_is_refused() {
    let mut ctx = valid_accounts();
    ctx.master_edition_account = ctx.mint;
    let r = init_nft(&ctx, "n".to_string(), "s".to_string(), "u".to_string());
    assert_eq!(r.err(), Some(IssueError::MasterEditionAddressMismatch));
}

#[test]
fn begin_issue_follows_given_addresses() {
    let ctx = InitNFT {
        signer: addr(1),
        signer_signed: true,
        mint: addr(2),
        mint_initialized: false,
        associated_token_account: addr(3),
        metadata_account: addr(4),
        master_edition_account: addr(5),
    };
    let d = DerivedAddresses { token_account: addr(3), metadata: addr(4), master_edition: addr(5) };
    let s = begin_issue(&ctx, &d, "a".to_string(), "b".to_string(), "c".to_string()).unwrap();
    assert_eq!(s.phase, Phase::Minting);
    assert_eq!(s.name, "a");
    let d2 = DerivedAddresses { token_account: addr(3), metadata: addr(6), master_edition: addr(5) };
    let r = begin_issue(&ctx, &d2, "a".to_string(), "b".to_string(), "c".to_string());
    assert_eq!(r.err(), Some(IssueError::MetadataAddressMismatch));
    assert_eq!(check_accounts(&ctx, &d), Ok(()));
}

#[test]
fn derived_addresses_are_distinct_and_stable() {
    let ctx = valid_accounts();
    let d = derive_addresses(&ctx);
    let again = derive_addresses(&ctx);
    assert_eq!(d.metadata.bytes, again.metadata.bytes);
    assert_ne!(d.metadata.bytes, ctx.mint.bytes);
    assert_ne!(d.master_edition.bytes, ctx.mint.bytes);
    assert_ne!(d.metadata.bytes, d.master_edition.bytes);
    assert_ne!(d.token_account.bytes, ctx.signer.bytes);
    assert_ne!(d.token_account.bytes, ctx.mint.bytes);
    let other = InitNFT { mint: addr(10), ..ctx };
    assert_ne!(derive_addresses(&other).metadata.bytes, d.metadata.bytes);
}

#[test]
fn same_as_compares_bytes() {
    let mut b = [5u8; 32];
    assert!(addr(5).same_as(&Address::new(b)));
    b[31] = 6;
    assert!(!addr(5).same_as(&Address::new(b)));
}
