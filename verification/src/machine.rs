use vstd::prelude::*;
use crate::ids::AccountId;
use crate::config::MintConfig;

verus! {

/// The units minted into the token holding account: a non-fungible
/// token mints exactly one.
pub const SINGLE_UNIT: u64 = 1;

/// The edition cap recorded on the master edition: zero further
/// prints, marking a non-reproducible single edition.
pub const SINGLE_EDITION_CAP: u64 = 0;

/// Why a run halted without completing, one kind per failure class:
/// local key-file trouble, a connection-level fault, a transaction the
/// ledger rejected, and a refused funding request.
#[derive(Clone, Copy, PartialEq, Eq, Structural, Debug)]
pub enum Failure {
    /// The local key file could not be read or written.
    WalletIo,
    /// A connection-level fault while talking to the ledger.
    Rpc,
    /// The ledger rejected a submitted transaction.
    TxRejected,
    /// The funding faucet refused the request.
    AirdropDenied,
}

/// Where the run stands. Control flows strictly forward through these
/// stages; no stage is ever re-entered.
#[derive(Clone, Copy, PartialEq, Eq, Structural, Debug)]
pub enum Stage {
    /// Obtaining the signing identity.
    LoadWallet,
    /// Querying the wallet balance once.
    CheckBalance,
    /// The balance was zero; a funding request is being issued.
    RequestAirdrop,
    /// The request was accepted; polling the balance until positive.
    AwaitFunding,
    /// Reserving and initializing the mint account.
    CreateMint,
    /// Reserving and initializing the token holding account.
    CreateTokenAccount,
    /// Minting units into the token holding account.
    MintToken,
    /// Creating the metadata record at the derived address.
    CreateMetadata,
    /// Upgrading to a non-reproducible single edition.
    CreateMasterEdition,
    /// Every stage succeeded.
    Complete,
    /// The run halted; `reason` says why.
    Failed { reason: Failure },
}

/// What the surrounding process is asked to do next. It performs the
/// action against the outside world and reports back one `Event`.
#[derive(Clone, PartialEq, Eq, Debug)]
pub enum Action {
    /// Load the key file, or create and persist a fresh identity.
    ObtainWallet,
    /// Query the wallet's ledger balance.
    QueryBalance,
    /// Ask the faucet to credit the wallet with `amount` lamports.
    RequestAirdrop { amount: u64 },
    /// Wait the fixed delay, then query the balance again.
    PollBalance,
    /// Submit one signed transaction that reserves a mint account and
    /// initializes it with the wallet as authority.
    SubmitCreateMint { authority: AccountId, decimals: u8 },
    /// Submit one signed transaction that reserves a token holding
    /// account for `mint` owned by `owner`.
    SubmitCreateTokenAccount { mint: AccountId, owner: AccountId },
    /// Submit a transaction minting `amount` units of `mint` into
    /// `token_account`, authorized by `authority`; the amount is
    /// always exactly one unit.
    SubmitMintTo { mint: AccountId, token_account: AccountId, authority: AccountId, amount: u64 },
    /// Submit a transaction creating the metadata record at the
    /// address derived from `mint`, carrying the configured
    /// attributes.
    SubmitCreateMetadata {
        mint: AccountId,
        update_authority: AccountId,
        name: String,
        symbol: String,
        uri: String,
        mutable: bool,
    },
    /// Submit a transaction creating the master edition record at the
    /// address derived from `mint`, capped at `max_supply`; the cap
    /// is always zero.
    SubmitCreateMasterEdition { mint: AccountId, max_supply: u64 },
}

/// What the surrounding process reports after performing the pending
/// action.
#[derive(Clone, Copy, PartialEq, Eq, Structural, Debug)]
pub enum Event {
    /// The signing identity is ready.
    WalletReady { id: AccountId },
    /// The key file could not be read or written.
    WalletFailed,
    /// A balance query answered with this many lamports.
    Balance { lamports: u64 },
    /// The faucet accepted the funding request.
    AirdropAccepted,
    /// The faucet rejected the funding request.
    AirdropRejected,
    /// The mint-creating transaction confirmed; `mint` is the new
    /// account's identifier.
    MintCreated { mint: AccountId },
    /// The account-creating transaction confirmed; `account` is the
    /// new holding account's identifier.
    TokenAccountCreated { account: AccountId },
    /// The submitted transaction confirmed.
    TxConfirmed,
    /// The ledger rejected the submitted transaction.
    TxFailed,
    /// The connection failed.
    RpcFailed,
}

/// The whole orchestration state: the configuration, the stage, and
/// the identifiers collected so far. Identifiers are write-once: each
/// is set by the stage that creates it and never changes afterwards.
#[derive(Clone, Debug)]
pub struct Minter {
    /// The run configuration.
    pub config: MintConfig,
    /// Where the run stands.
    pub stage: Stage,
    /// The wallet's public identity, once obtained.
    pub wallet: Option<AccountId>,
    /// The mint's public identifier, once created.
    pub mint: Option<AccountId>,
    /// The token holding account's identifier, once created.
    pub token_account: Option<AccountId>,
}

impl Minter {
    /// Each stage knows exactly which identifiers exist yet.
    pub open spec fn wf(self) -> bool {
        &&& self.config.wf()
        &&& match self.stage {
            Stage::LoadWallet => {
                self.wallet is None && self.mint is None && self.token_account is None
            },
            Stage::CheckBalance | Stage::RequestAirdrop | Stage::AwaitFunding
                | Stage::CreateMint => {
                self.wallet is Some && self.mint is None && self.token_account is None
            },
            Stage::CreateTokenAccount => {
                self.wallet is Some && self.mint is Some && self.token_account is None
            },
            Stage::MintToken | Stage::CreateMetadata | Stage::CreateMasterEdition
                | Stage::Complete => {
                self.wallet is Some && self.mint is Some && self.token_account is Some
            },
            Stage::Failed { .. } => true,
        }
    }

    /// A fresh run: nothing obtained, nothing created.
    pub fn new(config: MintConfig) -> (r: Minter)
        requires
            config.wf(),
        ensures
            r.wf(),
            r.stage is LoadWallet,
            r.config == config,
            r.wallet is None,
            r.mint is None,
            r.token_account is None,
    {
        Minter { config, stage: Stage::LoadWallet, wallet: None, mint: None, token_account: None }
    }

    /// The action the surrounding process must perform next; `None`
    /// once the run has completed or halted.
    pub open spec fn spec_pending(self) -> Option<Action> {
        match self.stage {
            Stage::LoadWallet => Some(Action::ObtainWallet),
            Stage::CheckBalance => Some(Action::QueryBalance),
            Stage::RequestAirdrop => Some(
                Action::RequestAirdrop { amount: self.config.airdrop_amount },
            ),
            Stage::AwaitFunding => Some(Action::PollBalance),
            Stage::CreateMint => match self.wallet {
                Some(w) => Some(
                    Action::SubmitCreateMint { authority: w, decimals: self.config.decimals },
                ),
                None => None,
            },
            Stage::CreateTokenAccount => match (self.wallet, self.mint) {
                (Some(w), Some(m)) => Some(Action::SubmitCreateTokenAccount { mint: m, owner: w }),
                _ => None,
            },
            Stage::MintToken => match (self.wallet, self.mint, self.token_account) {
                (Some(w), Some(m), Some(t)) => Some(
                    Action::SubmitMintTo {
                        mint: m,
                        token_account: t,
                        authority: w,
                        amount: SINGLE_UNIT,
                    },
                ),
                _ => None,
            },
            Stage::CreateMetadata => match (self.wallet, self.mint) {
                (Some(w), Some(m)) => Some(
                    Action::SubmitCreateMetadata {
                        mint: m,
                        update_authority: w,
                        name: self.config.name,
                        symbol: self.config.symbol,
                        uri: self.config.uri,
                        mutable: self.config.mutable,
                    },
                ),
                _ => None,
            },
            Stage::CreateMasterEdition => match self.mint {
                Some(m) => Some(
                    Action::SubmitCreateMasterEdition { mint: m, max_supply: SINGLE_EDITION_CAP },
                ),
                _ => None,
            },
            Stage::Complete | Stage::Failed { .. } => None,
        }
    }

    /// The action the surrounding process must perform next.
    pub fn pending(&self) -> (r: Option<Action>)
        ensures
            r == self.spec_pending(),
    {
        match self.stage {
            Stage::LoadWallet => Some(Action::ObtainWallet),
            Stage::CheckBalance => Some(Action::QueryBalance),
            Stage::RequestAirdrop => Some(
                Action::RequestAirdrop { amount: self.config.airdrop_amount },
            ),
            Stage::AwaitFunding => Some(Action::PollBalance),
            Stage::CreateMint => match self.wallet {
                Some(w) => Some(
                    Action::SubmitCreateMint { authority: w, decimals: self.config.decimals },
                ),
                None => None,
            },
            Stage::CreateTokenAccount => match (self.wallet, self.mint) {
                (Some(w), Some(m)) => Some(Action::SubmitCreateTokenAccount { mint: m, owner: w }),
                _ => None,
            },
            Stage::MintToken => match (self.wallet, self.mint, self.token_account) {
                (Some(w), Some(m), Some(t)) => Some(
                    Action::SubmitMintTo {
                        mint: m,
                        token_account: t,
                        authority: w,
                        amount: SINGLE_UNIT,
                    },
                ),
                _ => None,
            },
            Stage::CreateMetadata => match (self.wallet, self.mint) {
                (Some(w), Some(m)) => Some(
                    Action::SubmitCreateMetadata {
                        mint: m,
                        update_authority: w,
                        name: self.config.name.clone(),
                        symbol: self.config.symbol.clone(),
                        uri: self.config.uri.clone(),
                        mutable: self.config.mutable,
                    },
                ),
                _ => None,
            },
            Stage::CreateMasterEdition => match self.mint {
                Some(m) => Some(
                    Action::SubmitCreateMasterEdition { mint: m, max_supply: SINGLE_EDITION_CAP },
                ),
                _ => None,
            },
            Stage::Complete | Stage::Failed { .. } => None,
        }
    }

    /// Which reports are valid answers to the pending action.
    pub open spec fn accepts(self, e: Event) -> bool {
        match self.stage {
            Stage::LoadWallet => e is WalletReady || e is WalletFailed,
            Stage::CheckBalance => e is Balance || e is RpcFailed,
            Stage::RequestAirdrop => e is AirdropAccepted || e is AirdropRejected || e is RpcFailed,
            Stage::AwaitFunding => e is Balance || e is RpcFailed,
            Stage::CreateMint => e is MintCreated || e is TxFailed || e is RpcFailed,
            Stage::CreateTokenAccount => {
                e is TokenAccountCreated || e is TxFailed || e is RpcFailed
            },
            Stage::MintToken | Stage::CreateMetadata | Stage::CreateMasterEdition => {
                e is TxConfirmed || e is TxFailed || e is RpcFailed
            },
            Stage::Complete | Stage::Failed { .. } => false,
        }
    }

    /// The transition relation: one consumed report moves the run one
    /// step forward, or halts it with the failure kind the report
    /// implies. A positive balance skips the funding request entirely;
    /// a zero balance after an accepted request keeps polling.
    pub open spec fn spec_step(self, e: Event) -> Minter {
        match (self.stage, e) {
            (Stage::LoadWallet, Event::WalletReady { id }) => Minter {
                stage: Stage::CheckBalance,
                wallet: Some(id),
                ..self
            },
            (Stage::LoadWallet, Event::WalletFailed) => Minter {
                stage: Stage::Failed { reason: Failure::WalletIo },
                ..self
            },
            (Stage::CheckBalance, Event::Balance { lamports }) => Minter {
                stage: if lamports > 0 {
                    Stage::CreateMint
                } else {
                    Stage::RequestAirdrop
                },
                ..self
            },
            (Stage::RequestAirdrop, Event::AirdropAccepted) => Minter {
                stage: Stage::AwaitFunding,
                ..self
            },
            (Stage::RequestAirdrop, Event::AirdropRejected) => Minter {
                stage: Stage::Failed { reason: Failure::AirdropDenied },
                ..self
            },
            (Stage::AwaitFunding, Event::Balance { lamports }) => Minter {
                stage: if lamports > 0 {
                    Stage::CreateMint
                } else {
                    Stage::AwaitFunding
                },
                ..self
            },
            (Stage::CreateMint, Event::MintCreated { mint }) => Minter {
                stage: Stage::CreateTokenAccount,
                mint: Some(mint),
                ..self
            },
            (Stage::CreateTokenAccount, Event::TokenAccountCreated { account }) => Minter {
                stage: Stage::MintToken,
                token_account: Some(account),
                ..self
            },
            (Stage::MintToken, Event::TxConfirmed) => Minter {
                stage: Stage::CreateMetadata,
                ..self
            },
            (Stage::CreateMetadata, Event::TxConfirmed) => Minter {
                stage: Stage::CreateMasterEdition,
                ..self
            },
            (Stage::CreateMasterEdition, Event::TxConfirmed) => Minter {
                stage: Stage::Complete,
                ..self
            },
            (_, Event::TxFailed) => Minter {
                stage: Stage::Failed { reason: Failure::TxRejected },
                ..self
            },
            (_, Event::RpcFailed) => Minter {
                stage: Stage::Failed { reason: Failure::Rpc },
                ..self
            },
            _ => self,
        }
    }

    /// Consumes one report and moves the run forward as `spec_step`
    /// says; well-formedness is preserved.
    pub fn step(self, e: Event) -> (r: Minter)
        requires
            self.wf(),
            self.accepts(e),
        ensures
            r == self.spec_step(e),
            r.wf(),
    {
        match (self.stage, e) {
            (Stage::LoadWallet, Event::WalletReady { id }) => Minter {
                stage: Stage::CheckBalance,
                wallet: Some(id),
                ..self
            },
            (Stage::LoadWallet, Event::WalletFailed) => Minter {
                stage: Stage::Failed { reason: Failure::WalletIo },
                ..self
            },
            (Stage::CheckBalance, Event::Balance { lamports }) => Minter {
                stage: if lamports > 0 {
                    Stage::CreateMint
                } else {
                    Stage::RequestAirdrop
                },
                ..self
            },
            (Stage::RequestAirdrop, Event::AirdropAccepted) => Minter {
                stage: Stage::AwaitFunding,
                ..self
            },
            (Stage::RequestAirdrop, Event::AirdropRejected) => Minter {
                stage: Stage::Failed { reason: Failure::AirdropDenied },
                ..self
            },
            (Stage::AwaitFunding, Event::Balance { lamports }) => Minter {
                stage: if lamports > 0 {
                    Stage::CreateMint
                } else {
                    Stage::AwaitFunding
                },
                ..self
            },
            (Stage::CreateMint, Event::MintCreated { mint }) => Minter {
                stage: Stage::CreateTokenAccount,
                mint: Some(mint),
                ..self
            },
            (Stage::CreateTokenAccount, Event::TokenAccountCreated { account }) => Minter {
                stage: Stage::MintToken,
                token_account: Some(account),
                ..self
            },
            (Stage::MintToken, Event::TxConfirmed) => Minter {
                stage: Stage::CreateMetadata,
                ..self
            },
            (Stage::CreateMetadata, Event::TxConfirmed) => Minter {
                stage: Stage::CreateMasterEdition,
                ..self
            },
            (Stage::CreateMasterEdition, Event::TxConfirmed) => Minter {
                stage: Stage::Complete,
                ..self
            },
            (_, Event::TxFailed) => Minter {
                stage: Stage::Failed { reason: Failure::TxRejected },
                ..self
            },
            (_, Event::RpcFailed) => Minter {
                stage: Stage::Failed { reason: Failure::Rpc },
                ..self
            },
            _ => self,
        }
    }
}

/// The state after consuming a whole sequence of reports in order.
pub open spec fn spec_run(m: Minter, events: Seq<Event>) -> Minter
    decreases events.len(),
{
    if events.len() == 0 {
        m
    } else {
        spec_run(m.spec_step(events[0]), events.skip(1))
    }
}

/// A report sequence is a valid run when each report in turn is a
/// valid answer to the then-pending action.
pub open spec fn valid_run(m: Minter, events: Seq<Event>) -> bool
    decreases events.len(),
{
    events.len() == 0 || (m.accepts(events[0]) && valid_run(m.spec_step(events[0]), events.skip(1)))
}

/// Whether the pending action queries the balance.
pub open spec fn is_balance_query(a: Option<Action>) -> bool {
    a == Some(Action::QueryBalance) || a == Some(Action::PollBalance)
}

/// Whether the pending action requests funds from the faucet.
pub open spec fn is_airdrop_request(a: Option<Action>) -> bool {
    a matches Some(Action::RequestAirdrop { .. })
}

/// How many balance queries the process performs while consuming
/// `events`: one for every report answered from a querying stage.
pub open spec fn balance_queries(m: Minter, events: Seq<Event>) -> nat
    decreases events.len(),
{
    if events.len() == 0 {
        0
    } else {
        (if is_balance_query(m.spec_pending()) {
            1nat
        } else {
            0nat
        }) + balance_queries(m.spec_step(events[0]), events.skip(1))
    }
}

/// How many funding requests the process issues while consuming
/// `events`.
pub open spec fn airdrop_requests(m: Minter, events: Seq<Event>) -> nat
    decreases events.len(),
{
    if events.len() == 0 {
        0
    } else {
        (if is_airdrop_request(m.spec_pending()) {
            1nat
        } else {
            0nat
        }) + airdrop_requests(m.spec_step(events[0]), events.skip(1))
    }
}

} // verus!
