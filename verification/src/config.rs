use vstd::prelude::*;

verus! {

/// Run configuration for the minting orchestration: how much to
/// request from the faucet, the token precision, and the descriptive
/// attributes to attach. How many units are minted (one) and the
/// edition cap (zero) are fixed by the orchestration itself: the
/// token is a non-fungible single edition.
#[derive(Clone, Debug)]
pub struct MintConfig {
    /// Lamports requested from the faucet when the wallet is empty.
    pub airdrop_amount: u64,
    /// Decimal precision of the mint; a non-fungible token uses 0.
    pub decimals: u8,
    /// Display name recorded in the metadata.
    pub name: String,
    /// Ticker symbol recorded in the metadata.
    pub symbol: String,
    /// Off-chain resource locator recorded in the metadata.
    pub uri: String,
    /// Whether the metadata record is created as updatable.
    pub mutable: bool,
}

impl MintConfig {
    /// A configuration is usable when the funding request is for a
    /// positive amount.
    pub open spec fn wf(self) -> bool {
        self.airdrop_amount > 0
    }
}

} // verus!
