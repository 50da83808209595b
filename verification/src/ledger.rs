use vstd::prelude::*;
use vstd::assert_seqs_equal;
use crate::ids::AccountId;

verus! {

/// An address on the model ledger: either a base account keyed by its
/// public identifier, or an address derived deterministically from a
/// mint for its metadata or its edition record. The derivation takes
/// the place of the external seed-and-program-address scheme: it is a
/// pure function of the mint, and distinct mints derive distinct
/// addresses.
#[derive(Clone, Copy, PartialEq, Eq, Structural, Debug)]
pub enum Address {
    /// An ordinary account keyed by its public identifier.
    Base(AccountId),
    /// The metadata address derived from a mint.
    Metadata(AccountId),
    /// The master edition address derived from a mint.
    Edition(AccountId),
}

/// A mint account: precision, minting authority, and units in
/// existence.
#[derive(Clone, Copy, PartialEq, Eq, Structural, Debug)]
pub struct MintInfo {
    /// Decimal precision.
    pub decimals: u8,
    /// Who may mint further units.
    pub authority: AccountId,
    /// Units minted so far.
    pub supply: u64,
}

/// A token holding account: which mint it holds, who owns it, and how
/// many units it holds.
#[derive(Clone, Copy, PartialEq, Eq, Structural, Debug)]
pub struct TokenAccountInfo {
    /// The mint whose units this account holds.
    pub mint: AccountId,
    /// The account's owner.
    pub owner: AccountId,
    /// Units held.
    pub amount: u64,
}

/// A metadata record: the descriptive attributes attached to a mint.
#[derive(Clone, PartialEq, Eq, Debug)]
pub struct MetadataInfo {
    /// The mint this record describes.
    pub mint: AccountId,
    /// Who may update the record.
    pub update_authority: AccountId,
    /// Display name.
    pub name: String,
    /// Ticker symbol.
    pub symbol: String,
    /// Off-chain resource locator.
    pub uri: String,
    /// Whether the record may be updated.
    pub mutable: bool,
}

/// A master edition record: marks a mint as a capped-supply edition.
#[derive(Clone, Copy, PartialEq, Eq, Structural, Debug)]
pub struct EditionInfo {
    /// The mint this record marks.
    pub mint: AccountId,
    /// The edition cap; 0 marks a non-reproducible single edition.
    pub max_supply: u64,
}

/// What an address holds.
#[derive(Clone, PartialEq, Eq, Debug)]
pub enum Record {
    /// Plain funds.
    Lamports { amount: u64 },
    /// A mint account.
    Mint { info: MintInfo },
    /// A token holding account.
    TokenAccount { info: TokenAccountInfo },
    /// A metadata record.
    Metadata { info: MetadataInfo },
    /// A master edition record.
    Edition { info: EditionInfo },
}

/// What `s` binds `a` to: the most recent binding wins, absent
/// addresses hold nothing.
pub open spec fn lookup(s: Seq<(Address, Record)>, a: Address) -> Option<Record>
    decreases s.len(),
{
    if s.len() == 0 {
        None
    } else if s.last().0 == a {
        Some(s.last().1)
    } else {
        lookup(s.drop_last(), a)
    }
}

/// A model of the ledger as the orchestration observes it: a history
/// of bindings from addresses to records, queried through `lookup`.
/// It stands in for the remote ledger in proofs and tests; each
/// operation states the acceptance rule the external account
/// contracts document.
#[derive(Clone, Debug)]
pub struct Ledger {
    /// Binding history; later entries shadow earlier ones.
    pub entries: Vec<(Address, Record)>,
}

impl Ledger {
    /// What `a` holds.
    pub open spec fn at(self, a: Address) -> Option<Record> {
        lookup(self.entries@, a)
    }

    /// The funds a base account holds; absent accounts report zero.
    pub open spec fn spec_balance_of(self, id: AccountId) -> u64 {
        match self.at(Address::Base(id)) {
            Some(Record::Lamports { amount }) => amount,
            _ => 0,
        }
    }

    /// The mint account at `mint`, if one exists.
    pub open spec fn spec_mint(self, mint: AccountId) -> Option<MintInfo> {
        match self.at(Address::Base(mint)) {
            Some(Record::Mint { info }) => Some(info),
            _ => None,
        }
    }

    /// The token holding account at `account`, if one exists.
    pub open spec fn spec_token_account(self, account: AccountId) -> Option<TokenAccountInfo> {
        match self.at(Address::Base(account)) {
            Some(Record::TokenAccount { info }) => Some(info),
            _ => None,
        }
    }

    /// The metadata record derived from `mint`, if one exists.
    pub open spec fn spec_metadata(self, mint: AccountId) -> Option<MetadataInfo> {
        match self.at(Address::Metadata(mint)) {
            Some(Record::Metadata { info }) => Some(info),
            _ => None,
        }
    }

    /// The master edition record derived from `mint`, if one exists.
    pub open spec fn spec_edition(self, mint: AccountId) -> Option<EditionInfo> {
        match self.at(Address::Edition(mint)) {
            Some(Record::Edition { info }) => Some(info),
            _ => None,
        }
    }

    /// An empty ledger: every address holds nothing.
    pub fn new() -> (r: Ledger)
        ensures
            forall|a: Address| r.at(a) is None,
    {
        Ledger { entries: Vec::new() }
    }

    /// Binds `a` to `rec`, leaving every other address as it was.
    fn put(self, a: Address, rec: Record) -> (r: Ledger)
        ensures
            r.at(a) == Some(rec),
            forall|x: Address| x != a ==> r.at(x) == self.at(x),
    {
        let ghost s = self.entries@;
        let mut v = self.entries;
        v.push((a, rec));
        let r = Ledger { entries: v };
        proof {
            let s2 = r.entries@;
            assert(s2 == s.push((a, rec)));
            assert(s2.last() == (a, rec));
            assert_seqs_equal!(s2.drop_last() == s);
            assert(r.at(a) == Some(rec));
            assert forall|x: Address| x != a implies lookup(s2, x) == lookup(s, x) by {
                assert(s2.last().0 == a);
            }
        }
        r
    }

    /// Finds the record an address holds, if any.
    fn find(&self, a: Address) -> (r: Option<&Record>)
        ensures
            r matches Some(rec) ==> self.at(a) == Some(*rec),
            r is None ==> self.at(a) is None,
    {
        let ghost s = self.entries@;
        let mut i: usize = self.entries.len();
        proof {
            assert_seqs_equal!(s.take(i as int) == s);
        }
        while i > 0
            invariant
                i <= self.entries.len(),
                s == self.entries@,
                lookup(s, a) == lookup(s.take(i as int), a),
            decreases i,
        {
            i = i - 1;
            proof {
                assert(s.take(i + 1).last() == s[i as int]);
                assert_seqs_equal!(s.take(i + 1).drop_last() == s.take(i as int));
            }
            if self.entries[i].0 == a {
                proof {
                    assert(lookup(s.take(i + 1), a) == Some(s[i as int].1));
                }
                return Some(&self.entries[i].1);
            }
            proof {
                assert(lookup(s.take(i + 1), a) == lookup(s.take(i as int), a));
            }
        }
        proof {
            assert(s.take(0).len() == 0);
        }
        None
    }

    /// Balance query: what the base account at `id` holds in funds.
    pub fn balance_of(&self, id: AccountId) -> (r: u64)
        ensures
            r == self.spec_balance_of(id),
    {
        match self.find(Address::Base(id)) {
            Some(Record::Lamports { amount }) => *amount,
            _ => 0,
        }
    }

    /// Mint-info query against `mint`.
    pub fn mint_info(&self, mint: AccountId) -> (r: Option<MintInfo>)
        ensures
            r == self.spec_mint(mint),
    {
        match self.find(Address::Base(mint)) {
            Some(Record::Mint { info }) => Some(*info),
            _ => None,
        }
    }

    /// Token-account query against `account`.
    pub fn token_account_info(&self, account: AccountId) -> (r: Option<TokenAccountInfo>)
        ensures
            r == self.spec_token_account(account),
    {
        match self.find(Address::Base(account)) {
            Some(Record::TokenAccount { info }) => Some(*info),
            _ => None,
        }
    }

    /// Metadata query against the address derived from `mint`.
    pub fn metadata_info(&self, mint: AccountId) -> (r: Option<&MetadataInfo>)
        ensures
            r matches Some(info) ==> self.spec_metadata(mint) == Some(*info),
            r is None ==> self.spec_metadata(mint) is None,
    {
        match self.find(Address::Metadata(mint)) {
            Some(Record::Metadata { info }) => Some(info),
            _ => None,
        }
    }

    /// Master-edition query against the address derived from `mint`.
    pub fn edition_info(&self, mint: AccountId) -> (r: Option<EditionInfo>)
        ensures
            r == self.spec_edition(mint),
    {
        match self.find(Address::Edition(mint)) {
            Some(Record::Edition { info }) => Some(*info),
            _ => None,
        }
    }

    /// Faucet credit: adds `amount` to the funds at `id`. Asked only
    /// of plain fund accounts, and of sums that fit in a word.
    pub fn credit(self, id: AccountId, amount: u64) -> (r: Ledger)
        requires
            self.spec_balance_of(id) + amount <= u64::MAX,
            self.at(Address::Base(id)) is None || self.at(Address::Base(id)) matches Some(
                Record::Lamports { .. },
            ),
        ensures
            r.spec_balance_of(id) == self.spec_balance_of(id) + amount,
            forall|x: Address| x != Address::Base(id) ==> r.at(x) == self.at(x),
    {
        let bal = self.balance_of(id);
        self.put(Address::Base(id), Record::Lamports { amount: bal + amount })
    }

    /// Reserves and initializes a mint account: succeeds exactly when
    /// the address is free, and then records the given precision and
    /// authority with no units in existence. On failure the ledger is
    /// unchanged.
    pub fn create_mint(self, mint: AccountId, authority: AccountId, decimals: u8) -> (r: (
        Ledger,
        bool,
    ))
        ensures
            r.1 <==> self.at(Address::Base(mint)) is None,
            r.1 ==> (r.0.spec_mint(mint) == Some(
                MintInfo { decimals, authority, supply: 0u64 },
            )),
            r.1 ==> forall|x: Address| x != Address::Base(mint) ==> r.0.at(x) == self.at(x),
            !r.1 ==> r.0 == self,
    {
        let occupied = self.find(Address::Base(mint)).is_some();
        if occupied {
            (self, false)
        } else {
            let r = self.put(
                Address::Base(mint),
                Record::Mint { info: MintInfo { decimals, authority, supply: 0 } },
            );
            (r, true)
        }
    }

    /// Reserves and initializes a token holding account bound to
    /// `mint` and owned by `owner`: succeeds exactly when the address
    /// is free and the mint exists, and then records an empty
    /// balance. On failure the ledger is unchanged.
    pub fn create_token_account(self, account: AccountId, mint: AccountId, owner: AccountId) -> (r:
        (Ledger, bool))
        ensures
            r.1 <==> (self.at(Address::Base(account)) is None && self.spec_mint(mint) is Some),
            r.1 ==> (r.0.spec_token_account(account) == Some(
                TokenAccountInfo { mint, owner, amount: 0u64 },
            )),
            r.1 ==> forall|x: Address| x != Address::Base(account) ==> r.0.at(x) == self.at(x),
            !r.1 ==> r.0 == self,
    {
        let free = self.find(Address::Base(account)).is_none();
        let mint_exists = self.mint_info(mint).is_some();
        if free && mint_exists {
            let r = self.put(
                Address::Base(account),
                Record::TokenAccount { info: TokenAccountInfo { mint, owner, amount: 0 } },
            );
            (r, true)
        } else {
            (self, false)
        }
    }

    /// Whether a mint-to of `amount` units, authorized by
    /// `authority`, would be accepted: the mint exists and names
    /// `authority`, the holding account exists and is bound to the
    /// mint, and neither the supply nor the held amount overflows.
    pub open spec fn spec_mint_to_ok(
        self,
        mint: AccountId,
        account: AccountId,
        authority: AccountId,
        amount: u64,
    ) -> bool {
        &&& self.spec_mint(mint) matches Some(mi) && mi.authority == authority && mi.supply
            + amount <= u64::MAX
        &&& self.spec_token_account(account) matches Some(ti) && ti.mint == mint && ti.amount
            + amount <= u64::MAX
    }

    /// Mints `amount` units of `mint` into `account`: exactly when
    /// accepted, the supply and the held amount both grow by
    /// `amount`; everything else, and the failing case entirely, is
    /// unchanged.
    pub fn mint_to(
        self,
        mint: AccountId,
        account: AccountId,
        authority: AccountId,
        amount: u64,
    ) -> (r: (Ledger, bool))
        ensures
            r.1 <==> self.spec_mint_to_ok(mint, account, authority, amount),
            r.1 ==> (self.spec_mint(mint) matches Some(mi) && r.0.spec_mint(mint) == Some(
                MintInfo {
                    decimals: mi.decimals,
                    authority: mi.authority,
                    supply: (mi.supply + amount) as u64,
                },
            )),
            r.1 ==> (self.spec_token_account(account) matches Some(ti) && r.0.spec_token_account(
                account,
            ) == Some(
                TokenAccountInfo {
                    mint: ti.mint,
                    owner: ti.owner,
                    amount: (ti.amount + amount) as u64,
                },
            )),
            r.1 ==> forall|x: Address|
                x != Address::Base(mint) && x != Address::Base(account) ==> r.0.at(x) == self.at(
                    x,
                ),
            !r.1 ==> r.0 == self,
    {
        let mint_rec = self.mint_info(mint);
        let token_rec = self.token_account_info(account);
        match (mint_rec, token_rec) {
            (Some(mi), Some(ti)) => {
                if mi.authority == authority && ti.mint == mint && amount <= u64::MAX - mi.supply
                    && amount <= u64::MAX - ti.amount {
                    proof {
                        assert(mint != account);
                    }
                    let r = self.put(
                        Address::Base(account),
                        Record::TokenAccount {
                            info: TokenAccountInfo {
                                mint: ti.mint,
                                owner: ti.owner,
                                amount: ti.amount + amount,
                            },
                        },
                    );
                    let r2 = r.put(
                        Address::Base(mint),
                        Record::Mint {
                            info: MintInfo {
                                decimals: mi.decimals,
                                authority: mi.authority,
                                supply: mi.supply + amount,
                            },
                        },
                    );
                    (r2, true)
                } else {
                    (self, false)
                }
            },
            _ => (self, false),
        }
    }

    /// Creates the metadata record at the address derived from
    /// `mint`: succeeds exactly when the mint exists and no metadata
    /// record does yet, and then binds the given attributes there. On
    /// failure the ledger is unchanged.
    pub fn create_metadata(
        self,
        mint: AccountId,
        update_authority: AccountId,
        name: String,
        symbol: String,
        uri: String,
        mutable: bool,
    ) -> (r: (Ledger, bool))
        ensures
            r.1 <==> (self.spec_mint(mint) is Some && self.at(Address::Metadata(mint)) is None),
            r.1 ==> (r.0.spec_metadata(mint) == Some(
                MetadataInfo { mint, update_authority, name, symbol, uri, mutable },
            )),
            r.1 ==> forall|x: Address| x != Address::Metadata(mint) ==> r.0.at(x) == self.at(x),
            !r.1 ==> r.0 == self,
    {
        let mint_exists = self.mint_info(mint).is_some();
        let free = self.find(Address::Metadata(mint)).is_none();
        if mint_exists && free {
            let r = self.put(
                Address::Metadata(mint),
                Record::Metadata {
                    info: MetadataInfo { mint, update_authority, name, symbol, uri, mutable },
                },
            );
            (r, true)
        } else {
            (self, false)
        }
    }

    /// Creates the master edition record at the address derived from
    /// `mint`: succeeds exactly when the metadata record exists and
    /// no edition record does yet, and then records the edition cap.
    /// On failure the ledger is unchanged.
    pub fn create_master_edition(self, mint: AccountId, max_supply: u64) -> (r: (Ledger, bool))
        ensures
            r.1 <==> (self.spec_metadata(mint) is Some && self.at(Address::Edition(mint)) is None),
            r.1 ==> (r.0.spec_edition(mint) == Some(EditionInfo { mint, max_supply })),
            r.1 ==> forall|x: Address| x != Address::Edition(mint) ==> r.0.at(x) == self.at(x),
            !r.1 ==> r.0 == self,
    {
        let has_metadata = self.metadata_info(mint).is_some();
        let free = self.find(Address::Edition(mint)).is_none();
        if has_metadata && free {
            let r = self.put(
                Address::Edition(mint),
                Record::Edition { info: EditionInfo { mint, max_supply } },
            );
            (r, true)
        } else {
            (self, false)
        }
    }
}

} // verus!
