use nft_mint::config::MintConfig;
use nft_mint::ids::AccountId;
use nft_mint::machine::{Action, Event, Failure, Minter, Stage};

fn config() -> MintConfig {
    MintConfig {
        airdrop_amount: 10_000_000_000,
        decimals: 0,
        name: String::from("Example"),
        symbol: String::from("EXM"),
        uri: String::from("https://example.invalid/nft.json"),
        mutable: true,
    }
}

fn wallet() -> AccountId {
    AccountId { hi: 11, lo: 22 }
}

fn started() -> Minter {
    let m = Minter::new(config());
    assert_eq!(m.pending(), Some(Action::ObtainWallet));
    m.step(Event::WalletReady { id: wallet() })
}

fn is_query(a: &Option<Action>) -> bool {
    matches!(a, Some(Action::QueryBalance) | Some(Action::PollBalance))
}

fn is_request(a: &Option<Action>) -> bool {
    matches!(a, Some(Action::RequestAirdrop { .. }))
}

#[test]
fn positive_balance_skips_funding() {
    let m = started();
    assert_eq!(m.stage, Stage::CheckBalance);

    let mut queries = 0;
    let mut requests = 0;
    let pending = m.pending();
    if is_query(&pending) {
        queries += 1;
    }
    if is_request(&pending) {
        requests += 1;
    }
    let m = m.step(Event::Balance { lamports: 5 });
    assert_eq!(m.stage, Stage::CreateMint);
    assert_eq!(
        m.pending(),
        Some(Action::SubmitCreateMint { authority: wallet(), decimals: 0 })
    );
    assert_eq!(queries, 1);
    assert_eq!(requests, 0);
}

#[test]
fn zero_then_poll_until_positive() {
    // Balance sequence [0, 0, 0, positive]: one funding request, four
    // queries in all, and the waiter ends after the fourth query.
    let mut m = started();
    let mut queries = 0;
    let mut requests = 0;
    let events = [
        Event::Balance { lamports: 0 },
        Event::AirdropAccepted,
        Event::Balance { lamports: 0 },
        Event::Balance { lamports: 0 },
        Event::Balance { lamports: 7 },
    ];
    for e in events {
        let pending = m.pending();
        if is_query(&pending) {
            queries += 1;
        }
        if is_request(&pending) {
            requests += 1;
        }
        m = m.step(e);
    }
    assert_eq!(queries, 4);
    assert_eq!(requests, 1);
    assert_eq!(m.stage, Stage::CreateMint);
    assert!(!is_query(&m.pending()));
    assert!(!is_request(&m.pending()));
}

#[test]
fn airdrop_request_carries_configured_amount() {
    let m = started();
    let m = m.step(Event::Balance { lamports: 0 });
    assert_eq!(m.stage, Stage::RequestAirdrop);
    assert_eq!(m.pending(), Some(Action::RequestAirdrop { amount: 10_000_000_000 }));
}

#[test]
fn airdrop_rejected_halts_before_any_creation() {
    let m = started();
    let m = m.step(Event::Balance { lamports: 0 });
    let m = m.step(Event::AirdropRejected);
    assert_eq!(m.stage, Stage::Failed { reason: Failure::AirdropDenied });
    assert_eq!(m.pending(), None);
    assert_eq!(m.mint, None);
    assert_eq!(m.token_account, None);
}

#[test]
fn wallet_failure_halts() {
    let m = Minter::new(config());
    let m = m.step(Event::WalletFailed);
    assert_eq!(m.stage, Stage::Failed { reason: Failure::WalletIo });
    assert_eq!(m.pending(), None);
}

#[test]
fn rpc_failure_halts() {
    let m = started();
    let m = m.step(Event::RpcFailed);
    assert_eq!(m.stage, Stage::Failed { reason: Failure::Rpc });
    assert_eq!(m.pending(), None);
}

#[test]
fn rejected_transaction_halts() {
    let m = started();
    let m = m.step(Event::Balance { lamports: 5 });
    assert_eq!(m.stage, Stage::CreateMint);
    let m = m.step(Event::TxFailed);
    assert_eq!(m.stage, Stage::Failed { reason: Failure::TxRejected });
    assert_eq!(m.pending(), None);
    assert_eq!(m.mint, None);
}

#[test]
fn identifiers_are_write_once() {
    let mint = AccountId { hi: 100, lo: 200 };
    let token = AccountId { hi: 300, lo: 400 };
    let m = started();
    let m = m.step(Event::Balance { lamports: 5 });
    let m = m.step(Event::MintCreated { mint });
    assert_eq!(m.stage, Stage::CreateTokenAccount);
    assert_eq!(m.mint, Some(mint));
    assert_eq!(
        m.pending(),
        Some(Action::SubmitCreateTokenAccount { mint, owner: wallet() })
    );
    let m = m.step(Event::TokenAccountCreated { account: token });
    assert_eq!(m.stage, Stage::MintToken);
    assert_eq!(m.wallet, Some(wallet()));
    assert_eq!(m.mint, Some(mint));
    assert_eq!(m.token_account, Some(token));
    assert_eq!(
        m.pending(),
        Some(Action::SubmitMintTo {
            mint,
            token_account: token,
            authority: wallet(),
            amount: 1
        })
    );
}
