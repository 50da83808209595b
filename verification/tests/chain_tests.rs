use solana_sdk::pubkey::Pubkey;
use solana_sdk::signer::keypair::Keypair;
use solana_sdk::signer::Signer;

#[test]
fn metadata_address_matches_external_derivation() {
    let mint = Pubkey::new_unique();
    let program = Pubkey::new_unique();
    let expected = Pubkey::find_program_address(
        &[b"metadata", program.as_ref(), mint.as_ref()],
        &program,
    )
    .0;
    let got = nft_mint::chain::metadata_account_address(
        &mint.to_bytes().to_vec(),
        &program.to_bytes().to_vec(),
    );
    assert_eq!(got, expected.to_bytes().to_vec());
}

#[test]
fn edition_address_matches_external_derivation() {
    let mint = Pubkey::new_unique();
    let program = Pubkey::new_unique();
    let expected = Pubkey::find_program_address(
        &[b"metadata", program.as_ref(), mint.as_ref(), b"edition"],
        &program,
    )
    .0;
    let got = nft_mint::chain::edition_account_address(
        &mint.to_bytes().to_vec(),
        &program.to_bytes().to_vec(),
    );
    assert_eq!(got, expected.to_bytes().to_vec());
}

#[test]
fn distinct_mints_derive_distinct_metadata_addresses() {
    let program = Pubkey::new_unique();
    let a = nft_mint::chain::metadata_account_address(
        &Pubkey::new_unique().to_bytes().to_vec(),
        &program.to_bytes().to_vec(),
    );
    let b = nft_mint::chain::metadata_account_address(
        &Pubkey::new_unique().to_bytes().to_vec(),
        &program.to_bytes().to_vec(),
    );
    assert_ne!(a, b);
}

#[test]
fn mint_setup_transaction_reserves_and_initializes() {
    let payer = Keypair::new();
    let mint = Keypair::new();
    let tx = nft_mint::chain::build_mint_setup_transaction(
        &payer,
        &mint,
        1_000_000,
        0,
        &solana_sdk::hash::Hash::default(),
    )
    .unwrap();
    // Two instructions: the reservation and the initialization.
    assert_eq!(tx.message.instructions.len(), 2);
    // Signed by the payer and by the new mint account's key.
    assert_eq!(tx.signatures.len(), 2);
    assert_eq!(tx.message.account_keys[0], payer.pubkey());
    assert!(tx.message.account_keys.contains(&mint.pubkey()));
    assert!(tx.message.account_keys.contains(&spl_token::id()));
    // The reservation asks for the 82 bytes of a mint account, owned
    // by the token program; the initialization names the payer as
    // authority at precision 0.
    let expected_reserve = solana_sdk::system_instruction::create_account(
        &payer.pubkey(),
        &mint.pubkey(),
        1_000_000,
        82,
        &spl_token::id(),
    );
    assert_eq!(tx.message.instructions[0].data, expected_reserve.data);
    let expected_init = spl_token::instruction::initialize_mint(
        &spl_token::id(),
        &mint.pubkey(),
        &payer.pubkey(),
        None,
        0,
    )
    .unwrap();
    assert_eq!(tx.message.instructions[1].data, expected_init.data);
}

#[test]
fn token_account_setup_transaction_binds_mint_and_owner() {
    let payer = Keypair::new();
    let account = Keypair::new();
    let mint = Pubkey::new_unique();
    let tx = nft_mint::chain::build_token_account_setup_transaction(
        &payer,
        &account,
        &mint,
        2_000_000,
        &solana_sdk::hash::Hash::default(),
    )
    .unwrap();
    assert_eq!(tx.message.instructions.len(), 2);
    assert_eq!(tx.signatures.len(), 2);
    assert!(tx.message.account_keys.contains(&mint));
    assert!(tx.message.account_keys.contains(&account.pubkey()));
    // The reservation asks for the 165 bytes of a token holding
    // account; the initialization binds it to the mint and the owner.
    let expected_reserve = solana_sdk::system_instruction::create_account(
        &payer.pubkey(),
        &account.pubkey(),
        2_000_000,
        165,
        &spl_token::id(),
    );
    assert_eq!(tx.message.instructions[0].data, expected_reserve.data);
    let expected_init = spl_token::instruction::initialize_account(
        &spl_token::id(),
        &account.pubkey(),
        &mint,
        &payer.pubkey(),
    )
    .unwrap();
    assert_eq!(tx.message.instructions[1].data, expected_init.data);
}

#[test]
fn mint_to_transaction_is_signed_by_the_authority_alone() {
    let payer = Keypair::new();
    let mint = Pubkey::new_unique();
    let token_account = Pubkey::new_unique();
    let tx = nft_mint::chain::build_mint_to_transaction(
        &payer,
        &mint,
        &token_account,
        1,
        &solana_sdk::hash::Hash::default(),
    )
    .unwrap();
    assert_eq!(tx.message.instructions.len(), 1);
    assert_eq!(tx.signatures.len(), 1);
    assert_eq!(tx.message.account_keys[0], payer.pubkey());
    // The one instruction is the token program's mint-to for 1 unit.
    let ix = &tx.message.instructions[0];
    assert_eq!(
        tx.message.account_keys[ix.program_id_index as usize],
        spl_token::id()
    );
    let expected = spl_token::instruction::mint_to(
        &spl_token::id(),
        &mint,
        &token_account,
        &payer.pubkey(),
        &[&payer.pubkey()],
        1,
    )
    .unwrap();
    assert_eq!(ix.data, expected.data);
}
