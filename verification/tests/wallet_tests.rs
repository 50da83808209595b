use nft_mint::ids::AccountId;
use nft_mint::wallet::{load_wallet, WalletFile, WalletSource};

fn id(n: u128) -> AccountId {
    AccountId { hi: n, lo: n.wrapping_mul(7) }
}

#[test]
fn existing_file_loads_unchanged() {
    let existing = id(1);
    let fresh = id(2);
    let r = load_wallet(Some(WalletFile::Valid { id: existing }), fresh);
    assert_eq!(r.id, existing);
    assert_eq!(r.source, WalletSource::Loaded);
    assert_eq!(r.file, Some(WalletFile::Valid { id: existing }));
}

#[test]
fn loading_twice_yields_identical_identity() {
    let first = load_wallet(None, id(3));
    assert_eq!(first.source, WalletSource::CreatedFresh);
    assert_eq!(first.id, id(3));
    assert_eq!(first.file, Some(WalletFile::Valid { id: id(3) }));

    let second = load_wallet(first.file, id(4));
    assert_eq!(second.id, first.id);
    assert_eq!(second.source, WalletSource::Loaded);
    assert_eq!(second.file, first.file);
}

#[test]
fn corrupt_file_is_surfaced_and_replaced() {
    let fresh = id(5);
    let r = load_wallet(Some(WalletFile::Corrupt), fresh);
    assert_eq!(r.id, fresh);
    assert_eq!(r.source, WalletSource::ReplacedCorrupt);
    assert_eq!(r.file, Some(WalletFile::Valid { id: fresh }));

    let again = load_wallet(r.file, id(6));
    assert_eq!(again.id, fresh);
    assert_eq!(again.source, WalletSource::Loaded);
}
