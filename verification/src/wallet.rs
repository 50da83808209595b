use vstd::prelude::*;
use crate::ids::AccountId;

verus! {

/// What the key file on disk holds, as far as the loader can tell:
/// either it parses to a signing identity, or it exists but does not
/// parse.
#[derive(Clone, Copy, PartialEq, Eq, Structural, Debug)]
pub enum WalletFile {
    /// The file parses to this identity.
    Valid { id: AccountId },
    /// The file exists but cannot be parsed.
    Corrupt,
}

/// How the loader obtained the identity it returned. An unparsable
/// file is surfaced as its own kind, distinct from an absent one.
#[derive(Clone, Copy, PartialEq, Eq, Structural, Debug)]
pub enum WalletSource {
    /// The existing file parsed; its identity is used unchanged.
    Loaded,
    /// No file was present; a fresh identity was persisted.
    CreatedFresh,
    /// The file was present but unparsable; a fresh identity was
    /// persisted over it.
    ReplacedCorrupt,
}

/// The outcome of one loader run: the identity every later stage will
/// sign with, how it was obtained, and what the file holds afterwards.
#[derive(Clone, Copy, PartialEq, Eq, Structural, Debug)]
pub struct WalletLoad {
    /// The signing identity for the rest of the run.
    pub id: AccountId,
    /// How the identity was obtained.
    pub source: WalletSource,
    /// The file contents after the loader ran.
    pub file: Option<WalletFile>,
}

/// The loader's decision, as a function of the file contents and of
/// the fresh identity that would be persisted if the file yields none.
pub open spec fn spec_load_wallet(file: Option<WalletFile>, fresh: AccountId) -> WalletLoad {
    match file {
        Some(WalletFile::Valid { id }) => WalletLoad {
            id,
            source: WalletSource::Loaded,
            file: Some(WalletFile::Valid { id }),
        },
        Some(WalletFile::Corrupt) => WalletLoad {
            id: fresh,
            source: WalletSource::ReplacedCorrupt,
            file: Some(WalletFile::Valid { id: fresh }),
        },
        None => WalletLoad {
            id: fresh,
            source: WalletSource::CreatedFresh,
            file: Some(WalletFile::Valid { id: fresh }),
        },
    }
}

/// Obtains the signing identity: an existing, parsable file is used
/// unchanged; otherwise the fresh identity is adopted and persisted.
/// After any run the file holds exactly the identity that was
/// returned.
pub fn load_wallet(file: Option<WalletFile>, fresh: AccountId) -> (r: WalletLoad)
    ensures
        r == spec_load_wallet(file, fresh),
        r.file == Some(WalletFile::Valid { id: r.id }),
{
    match file {
        Some(WalletFile::Valid { id }) => WalletLoad {
            id,
            source: WalletSource::Loaded,
            file: Some(WalletFile::Valid { id }),
        },
        Some(WalletFile::Corrupt) => WalletLoad {
            id: fresh,
            source: WalletSource::ReplacedCorrupt,
            file: Some(WalletFile::Valid { id: fresh }),
        },
        None => WalletLoad {
            id: fresh,
            source: WalletSource::CreatedFresh,
            file: Some(WalletFile::Valid { id: fresh }),
        },
    }
}

/// Loading is idempotent: whatever the file held at first, a second
/// run against the file the first run left behind returns the same
/// identity, leaves the file unchanged, and loads rather than
/// creates. In particular, a run against a missing file persists the
/// fresh identity, and every later load reproduces it.
pub proof fn lemma_wallet_loader_idempotent(
    file: Option<WalletFile>,
    fresh1: AccountId,
    fresh2: AccountId,
)
    ensures
        ({
            let first = spec_load_wallet(file, fresh1);
            let second = spec_load_wallet(first.file, fresh2);
            &&& second.id == first.id
            &&& second.file == first.file
            &&& second.source is Loaded
        }),
{
}

} // verus!
