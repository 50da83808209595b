use vstd::prelude::*;
use vstd::assert_seqs_equal;
use solana_sdk::message::Message;
use solana_sdk::program_pack::Pack;
use solana_sdk::signer::Signer;
use solana_sdk::transaction::Transaction;

verus! {

#[verifier::external_type_specification]
#[verifier::external_body]
pub struct ExKeypair(solana_sdk::signer::keypair::Keypair);

#[verifier::external_type_specification]
#[verifier::external_body]
pub struct ExPubkey(solana_sdk::pubkey::Pubkey);

#[verifier::external_type_specification]
#[verifier::external_body]
pub struct ExHash(solana_sdk::hash::Hash);

#[verifier::external_type_specification]
#[verifier::external_body]
pub struct ExTransaction(solana_sdk::transaction::Transaction);

/// The address that the ledger's program-address scheme derives from
/// these seeds for this program: a pure function of both, named here
/// and computed only by the external derivation.
pub uninterp spec fn program_address_of(seeds: Seq<Seq<u8>>, program: Seq<u8>) -> Seq<u8>;

/// Relies on solana_sdk::pubkey::Pubkey::find_program_address: the
/// derived address is a pure function of the seeds and the program
/// id, here named `program_address_of`. Within the documented limits
/// (at most 15 seeds of at most 32 bytes each) the search fails only
/// with negligible probability, which the derivation's own contract
/// accepts by aborting.
#[verifier::external_body]
fn derive_program_address(seeds: &Vec<Vec<u8>>, program_id: &Vec<u8>) -> (r: Vec<u8>)
    requires
        seeds@.len() <= 15,
        forall|i: int| 0 <= i < seeds@.len() ==> seeds@[i]@.len() <= 32,
        program_id@.len() == 32,
    ensures
        r@ == program_address_of(seeds@.map_values(|s: Vec<u8>| s@), program_id@),
        r@.len() == 32,
{
    let program = solana_sdk::pubkey::Pubkey::try_from(program_id.as_slice()).unwrap();
    let refs: Vec<&[u8]> = seeds.iter().map(|s| s.as_slice()).collect();
    let (address, _bump) = solana_sdk::pubkey::Pubkey::find_program_address(&refs, &program);
    address.to_bytes().to_vec()
}

/// The metadata program's seed prefix: the bytes of "metadata".
pub open spec fn metadata_seed() -> Seq<u8> {
    seq![109u8, 101u8, 116u8, 97u8, 100u8, 97u8, 116u8, 97u8]
}

/// The extra seed of an edition address: the bytes of "edition".
pub open spec fn edition_seed() -> Seq<u8> {
    seq![101u8, 100u8, 105u8, 116u8, 105u8, 111u8, 110u8]
}

fn metadata_seed_bytes() -> (r: Vec<u8>)
    ensures
        r@ == metadata_seed(),
{
    let mut v: Vec<u8> = Vec::new();
    v.push(109);
    v.push(101);
    v.push(116);
    v.push(97);
    v.push(100);
    v.push(97);
    v.push(116);
    v.push(97);
    proof {
        assert_seqs_equal!(v@ == metadata_seed());
    }
    v
}

fn edition_seed_bytes() -> (r: Vec<u8>)
    ensures
        r@ == edition_seed(),
{
    let mut v: Vec<u8> = Vec::new();
    v.push(101);
    v.push(100);
    v.push(105);
    v.push(116);
    v.push(105);
    v.push(111);
    v.push(110);
    proof {
        assert_seqs_equal!(v@ == edition_seed());
    }
    v
}

fn copy_bytes(s: &Vec<u8>) -> (r: Vec<u8>)
    ensures
        r@ == s@,
{
    let mut r: Vec<u8> = Vec::new();
    let mut i: usize = 0;
    while i < s.len()
        invariant
            i <= s@.len(),
            r@ == s@.take(i as int),
        decreases s@.len() - i,
    {
        r.push(s[i]);
        proof {
            assert_seqs_equal!(r@ == s@.take(i as int + 1));
        }
        i = i + 1;
    }
    proof {
        assert_seqs_equal!(s@.take(s@.len() as int) == s@);
    }
    r
}

/// The metadata account's address under the documented scheme: the
/// address the metadata program derives from the seed prefix, its own
/// id and the mint's id.
pub fn metadata_account_address(mint: &Vec<u8>, metadata_program: &Vec<u8>) -> (r: Vec<u8>)
    requires
        mint@.len() == 32,
        metadata_program@.len() == 32,
    ensures
        r@ == program_address_of(
            seq![metadata_seed(), metadata_program@, mint@],
            metadata_program@,
        ),
        r@.len() == 32,
{
    let mut seeds: Vec<Vec<u8>> = Vec::new();
    seeds.push(metadata_seed_bytes());
    seeds.push(copy_bytes(metadata_program));
    seeds.push(copy_bytes(mint));
    let r = derive_program_address(&seeds, metadata_program);
    proof {
        assert_seqs_equal!(
            seeds@.map_values(|s: Vec<u8>| s@) == seq![metadata_seed(), metadata_program@, mint@]
        );
    }
    r
}

/// The master edition account's address under the documented scheme:
/// as the metadata address, with the edition suffix appended to the
/// seeds.
pub fn edition_account_address(mint: &Vec<u8>, metadata_program: &Vec<u8>) -> (r: Vec<u8>)
    requires
        mint@.len() == 32,
        metadata_program@.len() == 32,
    ensures
        r@ == program_address_of(
            seq![metadata_seed(), metadata_program@, mint@, edition_seed()],
            metadata_program@,
        ),
        r@.len() == 32,
{
    let mut seeds: Vec<Vec<u8>> = Vec::new();
    seeds.push(metadata_seed_bytes());
    seeds.push(copy_bytes(metadata_program));
    seeds.push(copy_bytes(mint));
    seeds.push(edition_seed_bytes());
    let r = derive_program_address(&seeds, metadata_program);
    proof {
        assert_seqs_equal!(
            seeds@.map_values(|s: Vec<u8>| s@) == seq![
                metadata_seed(),
                metadata_program@,
                mint@,
                edition_seed(),
            ]
        );
    }
    r
}

/// The mint initializer's one signed transaction: reserve a
/// mint-sized (82-byte) account at the mint keypair's address,
/// rent-funded with `rent_lamports` and owned by the token program,
/// then initialize it with the payer as mint authority at `decimals`
/// precision; signed by the payer (fee payer) and the new mint
/// account's key.
///
/// Relies on system_instruction::create_account,
/// spl_token::instruction::initialize_mint (infallible with the token
/// program's own id), Message::new and Transaction::try_sign. The
/// result is always present: the reservation's required signers are
/// exactly the two supplied keypairs and the initialization adds
/// none, so signing succeeds; the two instructions name six keys,
/// far below message compilation's 256-key cap.
#[verifier::external_body]
pub fn build_mint_setup_transaction(
    payer: &solana_sdk::signer::keypair::Keypair,
    mint: &solana_sdk::signer::keypair::Keypair,
    rent_lamports: u64,
    decimals: u8,
    recent_blockhash: &solana_sdk::hash::Hash,
) -> (r: Option<solana_sdk::transaction::Transaction>)
    ensures
        r is Some,
{
    let payer_pk = payer.pubkey();
    let mint_pk = mint.pubkey();
    let space = <spl_token::state::Mint as Pack>::LEN as u64;
    let reserve = solana_sdk::system_instruction::create_account(
        &payer_pk, &mint_pk, rent_lamports, space, &spl_token::id());
    let init = spl_token::instruction::initialize_mint(
        &spl_token::id(), &mint_pk, &payer_pk, None, decimals).unwrap();
    let message = Message::new(&[reserve, init], Some(&payer_pk));
    let mut tx = Transaction::new_unsigned(message);
    tx.try_sign(&[payer, mint], *recent_blockhash).ok()?;
    Some(tx)
}

/// The token account initializer's one signed transaction: reserve an
/// account-sized (165-byte) account at the new keypair's address,
/// rent-funded and owned by the token program, then bind it to
/// `mint_key` with the payer as owner; signed by the payer (fee
/// payer) and the new account's key.
///
/// Relies on system_instruction::create_account,
/// spl_token::instruction::initialize_account (infallible with the
/// token program's own id), Message::new and Transaction::try_sign.
/// The result is always present, by the same signer argument as the
/// mint setup.
#[verifier::external_body]
pub fn build_token_account_setup_transaction(
    payer: &solana_sdk::signer::keypair::Keypair,
    account: &solana_sdk::signer::keypair::Keypair,
    mint_key: &solana_sdk::pubkey::Pubkey,
    rent_lamports: u64,
    recent_blockhash: &solana_sdk::hash::Hash,
) -> (r: Option<solana_sdk::transaction::Transaction>)
    ensures
        r is Some,
{
    let payer_pk = payer.pubkey();
    let account_pk = account.pubkey();
    let space = <spl_token::state::Account as Pack>::LEN as u64;
    let reserve = solana_sdk::system_instruction::create_account(
        &payer_pk, &account_pk, rent_lamports, space, &spl_token::id());
    let init = spl_token::instruction::initialize_account(
        &spl_token::id(), &account_pk, mint_key, &payer_pk).unwrap();
    let message = Message::new(&[reserve, init], Some(&payer_pk));
    let mut tx = Transaction::new_unsigned(message);
    tx.try_sign(&[payer, account], *recent_blockhash).ok()?;
    Some(tx)
}

/// The minting transaction: mint `amount` units of `mint_key` into
/// `token_account_key`, authorized by the payer as mint authority,
/// who is also the fee payer and the sole signer.
///
/// Relies on spl_token::instruction::mint_to (infallible with the
/// token program's own id), Message::new and Transaction::try_sign.
/// The result is always present: the instruction's one required
/// signer is the supplied payer, and its four keys stay far below
/// message compilation's 256-key cap.
#[verifier::external_body]
pub fn build_mint_to_transaction(
    payer: &solana_sdk::signer::keypair::Keypair,
    mint_key: &solana_sdk::pubkey::Pubkey,
    token_account_key: &solana_sdk::pubkey::Pubkey,
    amount: u64,
    recent_blockhash: &solana_sdk::hash::Hash,
) -> (r: Option<solana_sdk::transaction::Transaction>)
    ensures
        r is Some,
{
    let payer_pk = payer.pubkey();
    let mint_ix = spl_token::instruction::mint_to(
        &spl_token::id(), mint_key, token_account_key, &payer_pk, &[&payer_pk], amount).unwrap();
    let message = Message::new(&[mint_ix], Some(&payer_pk));
    let mut tx = Transaction::new_unsigned(message);
    tx.try_sign(&[payer], *recent_blockhash).ok()?;
    Some(tx)
}

} // verus!
