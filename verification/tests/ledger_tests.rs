use nft_mint::ids::AccountId;
use nft_mint::ledger::Ledger;

fn id(n: u128) -> AccountId {
    AccountId { hi: n, lo: n + 1 }
}

#[test]
fn absent_account_reports_zero_balance() {
    let l = Ledger::new();
    assert_eq!(l.balance_of(id(1)), 0);
}

#[test]
fn credit_accumulates() {
    let l = Ledger::new();
    let l = l.credit(id(1), 10);
    assert_eq!(l.balance_of(id(1)), 10);
    let l = l.credit(id(1), 5);
    assert_eq!(l.balance_of(id(1)), 15);
    assert_eq!(l.balance_of(id(2)), 0);
}

#[test]
fn mint_info_after_create_reports_precision_and_authority() {
    let wallet = id(1);
    let mint = id(2);
    let (l, ok) = Ledger::new().create_mint(mint, wallet, 0);
    assert!(ok);
    let info = l.mint_info(mint).unwrap();
    assert_eq!(info.decimals, 0);
    assert_eq!(info.authority, wallet);
    assert_eq!(info.supply, 0);
}

#[test]
fn create_mint_on_occupied_address_fails() {
    let wallet = id(1);
    let l = Ledger::new().credit(wallet, 10);
    let (l, ok) = l.create_mint(wallet, wallet, 0);
    assert!(!ok);
    assert_eq!(l.mint_info(wallet), None);
    assert_eq!(l.balance_of(wallet), 10);
}

#[test]
fn token_account_records_owner_mint_and_zero_balance() {
    let wallet = id(1);
    let mint = id(2);
    let account = id(3);
    let (l, ok) = Ledger::new().create_mint(mint, wallet, 0);
    assert!(ok);
    let (l, ok) = l.create_token_account(account, mint, wallet);
    assert!(ok);
    let info = l.token_account_info(account).unwrap();
    assert_eq!(info.owner, wallet);
    assert_eq!(info.mint, mint);
    assert_eq!(info.amount, 0);
}

#[test]
fn token_account_requires_existing_mint() {
    let (l, ok) = Ledger::new().create_token_account(id(3), id(2), id(1));
    assert!(!ok);
    assert_eq!(l.token_account_info(id(3)), None);
}

#[test]
fn mint_to_grows_supply_and_holding() {
    let wallet = id(1);
    let mint = id(2);
    let account = id(3);
    let (l, ok) = Ledger::new().create_mint(mint, wallet, 0);
    assert!(ok);
    let (l, ok) = l.create_token_account(account, mint, wallet);
    assert!(ok);
    let (l, ok) = l.mint_to(mint, account, wallet, 1);
    assert!(ok);
    assert_eq!(l.mint_info(mint).unwrap().supply, 1);
    assert_eq!(l.token_account_info(account).unwrap().amount, 1);
}

#[test]
fn mint_to_rejects_wrong_authority() {
    let wallet = id(1);
    let intruder = id(9);
    let mint = id(2);
    let account = id(3);
    let (l, _) = Ledger::new().create_mint(mint, wallet, 0);
    let (l, _) = l.create_token_account(account, mint, wallet);
    let (l, ok) = l.mint_to(mint, account, intruder, 1);
    assert!(!ok);
    assert_eq!(l.mint_info(mint).unwrap().supply, 0);
    assert_eq!(l.token_account_info(account).unwrap().amount, 0);
}

#[test]
fn metadata_requires_existing_mint() {
    let (l, ok) = Ledger::new().create_metadata(
        id(2),
        id(1),
        String::from("n"),
        String::from("s"),
        String::from("u"),
        true,
    );
    assert!(!ok);
    assert!(l.metadata_info(id(2)).is_none());
}

#[test]
fn master_edition_requires_existing_metadata() {
    let wallet = id(1);
    let mint = id(2);
    let (l, ok) = Ledger::new().create_mint(mint, wallet, 0);
    assert!(ok);
    let (l, ok) = l.create_master_edition(mint, 0);
    assert!(!ok);
    assert_eq!(l.edition_info(mint), None);
}

#[test]
fn metadata_and_edition_record_their_attributes() {
    let wallet = id(1);
    let mint = id(2);
    let (l, ok) = Ledger::new().create_mint(mint, wallet, 0);
    assert!(ok);
    let (l, ok) = l.create_metadata(
        mint,
        wallet,
        String::from("Example"),
        String::from("EXM"),
        String::from("https://example.invalid/nft.json"),
        true,
    );
    assert!(ok);
    let info = l.metadata_info(mint).unwrap();
    assert_eq!(info.mint, mint);
    assert_eq!(info.update_authority, wallet);
    assert_eq!(info.name, "Example");
    assert_eq!(info.symbol, "EXM");
    assert_eq!(info.uri, "https://example.invalid/nft.json");
    assert!(info.mutable);

    let (l, ok) = l.create_master_edition(mint, 0);
    assert!(ok);
    let edition = l.edition_info(mint).unwrap();
    assert_eq!(edition.mint, mint);
    assert_eq!(edition.max_supply, 0);
}
