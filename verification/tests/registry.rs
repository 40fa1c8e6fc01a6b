use nft_registry::address::derive_record_address;
use nft_registry::error::CustomError;
use nft_registry::instruction::{
    CreateNFTDataAccountArgs, NftInstruction, PurchaseNFTArgs, UpdateNFTPriceArgs,
};
use nft_registry::processor::{
    assert_initialized, process_create_nft_data_accounts, process_purchase_nft,
    process_update_nft_price, HostAccounts, Processor,
};
use nft_registry::state::{AccountData, NFTData, Pubkey, TokenCustody, MAX_DATA_SIZE};

fn pk(b: u8) -> Pubkey {
    Pubkey { bytes: vec![b; 32] }
}

fn program_id() -> Pubkey {
    pk(9)
}

fn sample_record(owner: Pubkey) -> NFTData {
    NFTData {
        id: 7,
        name: b"Alpha".to_vec(),
        symbol: b"AL".to_vec(),
        uri: b"ipfs://alpha".to_vec(),
        last_price: 5,
        listed_price: 7,
        owner_address: owner,
    }
}

fn padded(bytes: &[u8], width: usize) -> Vec<u8> {
    let mut v = bytes.to_vec();
    v.resize(width, 0);
    v
}

fn derived_key(id: u8) -> Pubkey {
    derive_record_address(&program_id(), id).expect("no viable capability seed").0
}

fn fresh_nft_account(id: u8) -> AccountData {
    AccountData { key: derived_key(id), lamports: 0, data: vec![], owner: pk(0), is_signer: false }
}

fn payer_account(lamports: u64) -> AccountData {
    AccountData { key: pk(4), lamports, data: vec![], owner: pk(0), is_signer: true }
}

/// An account already holding the persisted record, owned by the program.
fn persisted_nft_account(id: u8, rec: &NFTData) -> AccountData {
    AccountData {
        key: derived_key(id),
        lamports: 2000,
        data: rec.encode(),
        owner: program_id(),
        is_signer: false,
    }
}

#[test]
fn derivation_is_deterministic() {
    let a = derive_record_address(&program_id(), 7).unwrap();
    let b = derive_record_address(&program_id(), 7).unwrap();
    assert_eq!(a.0, b.0);
    assert_eq!(a.1, b.1);
}

#[test]
fn derivation_depends_on_id_and_program() {
    let a = derive_record_address(&program_id(), 7).unwrap();
    let b = derive_record_address(&program_id(), 8).unwrap();
    let c = derive_record_address(&pk(10), 7).unwrap();
    assert_ne!(a.0, b.0);
    assert_ne!(a.0, c.0);
}

#[test]
fn derivation_matches_host_scheme() {
    let our = derive_record_address(&program_id(), 7).unwrap();
    let pid = solana_program::pubkey::Pubkey::new_from_array([9u8; 32]);
    let seeds: &[&[u8]] = &[b"alloy", pid.as_ref(), &[7u8]];
    let (key, bump) = solana_program::pubkey::Pubkey::find_program_address(seeds, &pid);
    assert_eq!(our.0.bytes, key.to_bytes().to_vec());
    assert_eq!(our.1, bump);
    assert_ne!(our.0.bytes, program_id().bytes);
}

#[test]
fn encode_has_exact_layout() {
    let rec = sample_record(pk(3));
    let out = rec.encode();
    assert_eq!(out.len(), MAX_DATA_SIZE);
    assert_eq!(out.len(), 303);
    assert_eq!(out[0], 7);
    assert_eq!(&out[1..5], &[32, 0, 0, 0]);
    assert_eq!(&out[5..37], padded(b"Alpha", 32).as_slice());
    assert_eq!(&out[37..41], &[10, 0, 0, 0]);
    assert_eq!(&out[41..51], padded(b"AL", 10).as_slice());
    assert_eq!(&out[51..55], &[200, 0, 0, 0]);
    assert_eq!(&out[55..255], padded(b"ipfs://alpha", 200).as_slice());
    assert_eq!(&out[255..263], &5u64.to_le_bytes());
    assert_eq!(&out[263..271], &7u64.to_le_bytes());
    assert_eq!(&out[271..303], &[3u8; 32]);
}

#[test]
fn encode_decode_round_trip() {
    let rec = sample_record(pk(3));
    let out = rec.encode();
    let back = NFTData::decode(out.as_slice()).unwrap();
    assert_eq!(back.id, 7);
    assert_eq!(back.name, padded(b"Alpha", 32));
    assert_eq!(back.symbol, padded(b"AL", 10));
    assert_eq!(back.uri, padded(b"ipfs://alpha", 200));
    assert_eq!(back.last_price, 5);
    assert_eq!(back.listed_price, 7);
    assert_eq!(back.owner_address, pk(3));
    // re-encoding the decoded record and decoding again is the identity
    let again = NFTData::decode(back.encode().as_slice()).unwrap();
    assert_eq!(again, back);
}

#[test]
fn decode_accepts_zeroed_buffer() {
    let rec = NFTData::decode(vec![0u8; MAX_DATA_SIZE].as_slice()).unwrap();
    assert_eq!(rec.id, 0);
    assert_eq!(rec.name, Vec::<u8>::new());
    assert_eq!(rec.symbol, Vec::<u8>::new());
    assert_eq!(rec.uri, Vec::<u8>::new());
    assert_eq!(rec.last_price, 0);
    assert_eq!(rec.listed_price, 0);
    assert_eq!(rec.owner_address, Pubkey { bytes: vec![0; 32] });
}

#[test]
fn decode_rejects_wrong_length() {
    assert_eq!(NFTData::decode(vec![0u8; 10].as_slice()), Err(CustomError::DataTypeMismatch));
    assert_eq!(NFTData::decode(vec![0u8; 302].as_slice()), Err(CustomError::DataTypeMismatch));
    assert_eq!(NFTData::decode(vec![0u8; 304].as_slice()), Err(CustomError::DataTypeMismatch));
}

#[test]
fn decode_rejects_oversized_length_prefix() {
    let mut buf = vec![0u8; MAX_DATA_SIZE];
    buf[1] = 33; // name length prefix beyond its maximum
    assert_eq!(NFTData::decode(buf.as_slice()), Err(CustomError::DataTypeMismatch));
}

#[test]
fn from_acc_info_rejects_foreign_buffer() {
    let acc = AccountData { key: pk(1), lamports: 0, data: vec![1, 2, 3], owner: pk(0), is_signer: false };
    assert_eq!(NFTData::from_acc_info(&acc), Err(CustomError::DataTypeMismatch));
}

#[test]
fn create_persists_padded_record() {
    let mut nft = fresh_nft_account(7);
    let mut payer = payer_account(10_000);
    let rec = sample_record(pk(3));
    let r = process_create_nft_data_accounts(&program_id(), &mut nft, &mut payer, 2000, rec, 7);
    assert_eq!(r, Ok(()));
    assert_eq!(nft.lamports, 2000);
    assert_eq!(payer.lamports, 8000);
    assert_eq!(nft.owner, program_id());
    assert_eq!(nft.data.len(), MAX_DATA_SIZE);
    let stored = NFTData::from_acc_info(&nft).unwrap();
    assert_eq!(stored.id, 7);
    assert_eq!(stored.name, padded(b"Alpha", 32));
    assert_eq!(stored.symbol, padded(b"AL", 10));
    assert_eq!(stored.uri, padded(b"ipfs://alpha", 200));
    assert_eq!(stored.last_price, 5);
    assert_eq!(stored.listed_price, 7);
    assert_eq!(stored.owner_address, pk(3));
}

#[test]
fn create_persists_the_derivation_id() {
    // the persisted id is the id the address was derived from, even when the
    // record payload carries a different one
    let mut nft = fresh_nft_account(42);
    let mut payer = payer_account(10_000);
    let mut rec = sample_record(pk(3));
    rec.id = 7;
    let r = process_create_nft_data_accounts(&program_id(), &mut nft, &mut payer, 2000, rec, 42);
    assert_eq!(r, Ok(()));
    assert_eq!(NFTData::from_acc_info(&nft).unwrap().id, 42);
}

#[test]
fn create_wrong_address_fails_without_mutation() {
    let mut nft = fresh_nft_account(7);
    nft.key = pk(1);
    let before = nft.clone();
    let mut payer = payer_account(10_000);
    let payer_before = payer.clone();
    let r = process_create_nft_data_accounts(
        &program_id(),
        &mut nft,
        &mut payer,
        2000,
        sample_record(pk(3)),
        7,
    );
    assert_eq!(r, Err(CustomError::InvalidNFTDataKey));
    assert_eq!(nft, before);
    assert_eq!(payer, payer_before);
}

#[test]
fn create_name_too_long_fails_without_mutation() {
    let mut nft = fresh_nft_account(7);
    let mut payer = payer_account(10_000);
    let mut rec = sample_record(pk(3));
    rec.name = vec![b'x'; 33];
    let r = process_create_nft_data_accounts(&program_id(), &mut nft, &mut payer, 2000, rec, 7);
    assert_eq!(r, Err(CustomError::NameTooLong));
    assert_eq!(nft.data.len(), 0);
    assert_eq!(payer.lamports, 10_000);
}

#[test]
fn create_symbol_too_long_fails_without_mutation() {
    let mut nft = fresh_nft_account(7);
    let mut payer = payer_account(10_000);
    let mut rec = sample_record(pk(3));
    rec.symbol = vec![b'x'; 11];
    let r = process_create_nft_data_accounts(&program_id(), &mut nft, &mut payer, 2000, rec, 7);
    assert_eq!(r, Err(CustomError::SymbolTooLong));
    assert_eq!(nft.data.len(), 0);
}

#[test]
fn create_uri_too_long_fails_without_mutation() {
    let mut nft = fresh_nft_account(7);
    let mut payer = payer_account(10_000);
    let mut rec = sample_record(pk(3));
    rec.uri = vec![b'x'; 201];
    let r = process_create_nft_data_accounts(&program_id(), &mut nft, &mut payer, 2000, rec, 7);
    assert_eq!(r, Err(CustomError::UriTooLong));
    assert_eq!(nft.data.len(), 0);
}

#[test]
fn create_boundary_lengths_succeed() {
    let mut nft = fresh_nft_account(7);
    let mut payer = payer_account(10_000);
    let rec = NFTData {
        id: 7,
        name: vec![b'n'; 32],
        symbol: vec![b's'; 10],
        uri: vec![b'u'; 200],
        last_price: 0,
        listed_price: 0,
        owner_address: pk(3),
    };
    let r = process_create_nft_data_accounts(&program_id(), &mut nft, &mut payer, 2000, rec, 7);
    assert_eq!(r, Ok(()));
    let stored = NFTData::from_acc_info(&nft).unwrap();
    assert_eq!(stored.name, vec![b'n'; 32]);
    assert_eq!(stored.symbol, vec![b's'; 10]);
    assert_eq!(stored.uri, vec![b'u'; 200]);
}

#[test]
fn create_unsigned_payer_fails() {
    let mut nft = fresh_nft_account(7);
    let mut payer = payer_account(10_000);
    payer.is_signer = false;
    let r = process_create_nft_data_accounts(
        &program_id(),
        &mut nft,
        &mut payer,
        2000,
        sample_record(pk(3)),
        7,
    );
    assert_eq!(r, Err(CustomError::UpdateAuthorityIsNotSigner));
}

#[test]
fn create_underfunded_payer_fails() {
    let mut nft = fresh_nft_account(7);
    let mut payer = payer_account(100);
    let r = process_create_nft_data_accounts(
        &program_id(),
        &mut nft,
        &mut payer,
        2000,
        sample_record(pk(3)),
        7,
    );
    assert_eq!(r, Err(CustomError::NumericalOverflowError));
    assert_eq!(payer.lamports, 100);
}

#[test]
fn create_funded_account_needs_no_signer() {
    // the record account already holds the rent-exemption minimum: nothing
    // is transferred and the payer's signature is not needed
    let mut nft = fresh_nft_account(7);
    nft.lamports = 5000;
    let mut payer = payer_account(0);
    payer.is_signer = false;
    let r = process_create_nft_data_accounts(
        &program_id(),
        &mut nft,
        &mut payer,
        2000,
        sample_record(pk(3)),
        7,
    );
    assert_eq!(r, Ok(()));
    assert_eq!(nft.lamports, 5000);
    assert_eq!(payer.lamports, 0);
}

#[test]
fn create_already_allocated_fails() {
    let mut nft = fresh_nft_account(7);
    nft.lamports = 5000;
    nft.data = vec![0u8; MAX_DATA_SIZE];
    let mut payer = payer_account(10_000);
    let r = process_create_nft_data_accounts(
        &program_id(),
        &mut nft,
        &mut payer,
        2000,
        sample_record(pk(3)),
        7,
    );
    assert_eq!(r, Err(CustomError::AlreadyInitialized));
}

fn custody_for(rec_owner: Pubkey, holder: Pubkey) -> TokenCustody {
    TokenCustody { mint: rec_owner, owner: holder, initialized: true }
}

fn token_program() -> Pubkey {
    pk(11)
}

fn custody_account() -> AccountData {
    AccountData { key: pk(12), lamports: 1, data: vec![], owner: token_program(), is_signer: false }
}

fn signer(key: Pubkey) -> AccountData {
    AccountData { key, lamports: 0, data: vec![], owner: pk(0), is_signer: true }
}

#[test]
fn update_price_success() {
    let rec = sample_record(pk(3));
    let mut nft = persisted_nft_account(7, &rec);
    let holder = pk(5);
    let custody = custody_for(pk(3), holder.clone());
    let r = process_update_nft_price(
        &program_id(),
        &mut nft,
        &signer(holder),
        &custody_account(),
        &custody,
        &token_program(),
        7,
        999,
    );
    assert_eq!(r, Ok(()));
    let stored = NFTData::from_acc_info(&nft).unwrap();
    assert_eq!(stored.listed_price, 999);
    assert_eq!(stored.last_price, 5);
    assert_eq!(stored.name, padded(b"Alpha", 32));
    assert_eq!(stored.owner_address, pk(3));
}

#[test]
fn update_price_wrong_address_fails() {
    let rec = sample_record(pk(3));
    let mut nft = persisted_nft_account(7, &rec);
    nft.key = pk(1);
    let before = nft.clone();
    let holder = pk(5);
    let r = process_update_nft_price(
        &program_id(),
        &mut nft,
        &signer(holder.clone()),
        &custody_account(),
        &custody_for(pk(3), holder),
        &token_program(),
        7,
        999,
    );
    assert_eq!(r, Err(CustomError::InvalidNFTDataKey));
    assert_eq!(nft, before);
}

#[test]
fn update_price_wrong_program_owner_fails() {
    let rec = sample_record(pk(3));
    let mut nft = persisted_nft_account(7, &rec);
    nft.owner = pk(13);
    let holder = pk(5);
    let r = process_update_nft_price(
        &program_id(),
        &mut nft,
        &signer(holder.clone()),
        &custody_account(),
        &custody_for(pk(3), holder),
        &token_program(),
        7,
        999,
    );
    assert_eq!(r, Err(CustomError::IncorrectOwner));
}

#[test]
fn update_price_uninitialized_custody_fails() {
    let rec = sample_record(pk(3));
    let mut nft = persisted_nft_account(7, &rec);
    let holder = pk(5);
    let mut custody = custody_for(pk(3), holder.clone());
    custody.initialized = false;
    let r = process_update_nft_price(
        &program_id(),
        &mut nft,
        &signer(holder),
        &custody_account(),
        &custody,
        &token_program(),
        7,
        999,
    );
    assert_eq!(r, Err(CustomError::Uninitialized));
    assert_eq!(NFTData::from_acc_info(&nft).unwrap().listed_price, 7);
}

#[test]
fn update_price_custody_outside_token_program_fails() {
    let rec = sample_record(pk(3));
    let mut nft = persisted_nft_account(7, &rec);
    let holder = pk(5);
    let mut custody_acc = custody_account();
    custody_acc.owner = pk(14);
    let r = process_update_nft_price(
        &program_id(),
        &mut nft,
        &signer(holder.clone()),
        &custody_acc,
        &custody_for(pk(3), holder),
        &token_program(),
        7,
        999,
    );
    assert_eq!(r, Err(CustomError::IncorrectOwner));
}

#[test]
fn update_price_mint_mismatch_fails() {
    // the stored owner identity is compared against the custody mint
    let rec = sample_record(pk(3));
    let mut nft = persisted_nft_account(7, &rec);
    let holder = pk(5);
    let r = process_update_nft_price(
        &program_id(),
        &mut nft,
        &signer(holder.clone()),
        &custody_account(),
        &custody_for(pk(6), holder),
        &token_program(),
        7,
        999,
    );
    assert_eq!(r, Err(CustomError::OwnerMismatch));
    assert_eq!(NFTData::from_acc_info(&nft).unwrap().listed_price, 7);
}

#[test]
fn update_price_unsigned_owner_fails() {
    let rec = sample_record(pk(3));
    let mut nft = persisted_nft_account(7, &rec);
    let holder = pk(5);
    let mut owner = signer(holder.clone());
    owner.is_signer = false;
    let r = process_update_nft_price(
        &program_id(),
        &mut nft,
        &owner,
        &custody_account(),
        &custody_for(pk(3), holder),
        &token_program(),
        7,
        999,
    );
    assert_eq!(r, Err(CustomError::UpdateAuthorityIsNotSigner));
    assert_eq!(NFTData::from_acc_info(&nft).unwrap().listed_price, 7);
}

#[test]
fn update_price_signer_not_holder_fails() {
    let rec = sample_record(pk(3));
    let mut nft = persisted_nft_account(7, &rec);
    let r = process_update_nft_price(
        &program_id(),
        &mut nft,
        &signer(pk(8)),
        &custody_account(),
        &custody_for(pk(3), pk(5)),
        &token_program(),
        7,
        999,
    );
    assert_eq!(r, Err(CustomError::InvalidOwner));
    assert_eq!(NFTData::from_acc_info(&nft).unwrap().listed_price, 7);
}

#[test]
fn purchase_default_relists_at_same_price() {
    let mut rec = sample_record(pk(5));
    rec.listed_price = 500;
    let mut nft = persisted_nft_account(7, &rec);
    let mut payer = payer_account(1000);
    let mut owner = signer(pk(5));
    owner.lamports = 100;
    let custody = custody_for(pk(5), pk(5));
    let r = process_purchase_nft(
        &program_id(),
        &mut nft,
        &mut payer,
        &mut owner,
        &custody,
        7,
        None,
        None,
        None,
    );
    assert_eq!(r, Ok(()));
    assert_eq!(payer.lamports, 500);
    assert_eq!(owner.lamports, 600);
    let stored = NFTData::from_acc_info(&nft).unwrap();
    assert_eq!(stored.last_price, 500);
    assert_eq!(stored.listed_price, 500);
    assert_eq!(stored.name, padded(b"Alpha", 32));
    assert_eq!(stored.uri, padded(b"ipfs://alpha", 200));
}

#[test]
fn purchase_with_overrides() {
    let mut rec = sample_record(pk(5));
    rec.listed_price = 500;
    let mut nft = persisted_nft_account(7, &rec);
    let mut payer = payer_account(1000);
    let mut owner = signer(pk(5));
    owner.lamports = 0;
    let custody = custody_for(pk(5), pk(5));
    let r = process_purchase_nft(
        &program_id(),
        &mut nft,
        &mut payer,
        &mut owner,
        &custody,
        7,
        Some(b"Beta".to_vec()),
        Some(b"ipfs://beta".to_vec()),
        Some(900),
    );
    assert_eq!(r, Ok(()));
    assert_eq!(payer.lamports, 500);
    assert_eq!(owner.lamports, 500);
    let stored = NFTData::from_acc_info(&nft).unwrap();
    assert_eq!(stored.last_price, 500);
    assert_eq!(stored.listed_price, 900);
    assert_eq!(stored.name, padded(b"Beta", 32));
    assert_eq!(stored.uri, padded(b"ipfs://beta", 200));
    assert_eq!(stored.symbol, padded(b"AL", 10));
}

#[test]
fn purchase_wrong_address_fails_without_mutation() {
    let rec = sample_record(pk(5));
    let mut nft = persisted_nft_account(7, &rec);
    nft.key = pk(1);
    let before = nft.clone();
    let mut payer = payer_account(1000);
    let mut owner = signer(pk(5));
    let r = process_purchase_nft(
        &program_id(),
        &mut nft,
        &mut payer,
        &mut owner,
        &custody_for(pk(5), pk(5)),
        7,
        None,
        None,
        None,
    );
    assert_eq!(r, Err(CustomError::InvalidNFTDataKey));
    assert_eq!(nft, before);
    assert_eq!(payer.lamports, 1000);
}

#[test]
fn purchase_claimed_owner_mismatch_fails() {
    let rec = sample_record(pk(5));
    let mut nft = persisted_nft_account(7, &rec);
    let mut payer = payer_account(1000);
    let mut owner = signer(pk(8));
    let r = process_purchase_nft(
        &program_id(),
        &mut nft,
        &mut payer,
        &mut owner,
        &custody_for(pk(5), pk(5)),
        7,
        None,
        None,
        None,
    );
    assert_eq!(r, Err(CustomError::OwnerMismatch));
}

#[test]
fn purchase_stored_owner_mismatch_fails() {
    let rec = sample_record(pk(6));
    let mut nft = persisted_nft_account(7, &rec);
    let mut payer = payer_account(1000);
    let mut owner = signer(pk(5));
    let r = process_purchase_nft(
        &program_id(),
        &mut nft,
        &mut payer,
        &mut owner,
        &custody_for(pk(6), pk(5)),
        7,
        None,
        None,
        None,
    );
    assert_eq!(r, Err(CustomError::InvalidOwner));
}

#[test]
fn purchase_uninitialized_custody_fails() {
    let rec = sample_record(pk(5));
    let mut nft = persisted_nft_account(7, &rec);
    let mut payer = payer_account(1000);
    let mut owner = signer(pk(5));
    let mut custody = custody_for(pk(5), pk(5));
    custody.initialized = false;
    let r = process_purchase_nft(
        &program_id(),
        &mut nft,
        &mut payer,
        &mut owner,
        &custody,
        7,
        None,
        None,
        None,
    );
    assert_eq!(r, Err(CustomError::Uninitialized));
}

#[test]
fn purchase_insufficient_funds_fails_without_mutation() {
    let mut rec = sample_record(pk(5));
    rec.listed_price = 500;
    let mut nft = persisted_nft_account(7, &rec);
    let before = nft.clone();
    let mut payer = payer_account(499);
    let mut owner = signer(pk(5));
    owner.lamports = 100;
    let r = process_purchase_nft(
        &program_id(),
        &mut nft,
        &mut payer,
        &mut owner,
        &custody_for(pk(5), pk(5)),
        7,
        None,
        None,
        Some(1),
    );
    assert_eq!(r, Err(CustomError::NumericalOverflowError));
    assert_eq!(nft, before);
    assert_eq!(payer.lamports, 499);
    assert_eq!(owner.lamports, 100);
}

#[test]
fn purchase_unsigned_payer_fails() {
    let rec = sample_record(pk(5));
    let mut nft = persisted_nft_account(7, &rec);
    let mut payer = payer_account(1000);
    payer.is_signer = false;
    let mut owner = signer(pk(5));
    let r = process_purchase_nft(
        &program_id(),
        &mut nft,
        &mut payer,
        &mut owner,
        &custody_for(pk(5), pk(5)),
        7,
        None,
        None,
        None,
    );
    assert_eq!(r, Err(CustomError::UpdateAuthorityIsNotSigner));
}

#[test]
fn purchase_oversized_name_override_fails_without_payment() {
    let mut rec = sample_record(pk(5));
    rec.listed_price = 500;
    let mut nft = persisted_nft_account(7, &rec);
    let before = nft.clone();
    let mut payer = payer_account(1000);
    let mut owner = signer(pk(5));
    let r = process_purchase_nft(
        &program_id(),
        &mut nft,
        &mut payer,
        &mut owner,
        &custody_for(pk(5), pk(5)),
        7,
        Some(vec![b'x'; 33]),
        None,
        None,
    );
    assert_eq!(r, Err(CustomError::NameTooLong));
    assert_eq!(nft, before);
    assert_eq!(payer.lamports, 1000);
}

#[test]
fn purchase_oversized_uri_override_fails_without_payment() {
    let rec = sample_record(pk(5));
    let mut nft = persisted_nft_account(7, &rec);
    let mut payer = payer_account(1000);
    let mut owner = signer(pk(5));
    let r = process_purchase_nft(
        &program_id(),
        &mut nft,
        &mut payer,
        &mut owner,
        &custody_for(pk(5), pk(5)),
        7,
        None,
        Some(vec![b'x'; 201]),
        None,
    );
    assert_eq!(r, Err(CustomError::UriTooLong));
    assert_eq!(payer.lamports, 1000);
}

#[test]
fn assert_initialized_checks_flag() {
    let ok = TokenCustody { mint: pk(1), owner: pk(2), initialized: true };
    let bad = TokenCustody { mint: pk(1), owner: pk(2), initialized: false };
    assert_eq!(assert_initialized(&ok), Ok(()));
    assert_eq!(assert_initialized(&bad), Err(CustomError::Uninitialized));
}

#[test]
fn dispatch_routes_create() {
    let accounts = HostAccounts::Create {
        nft_data_account: fresh_nft_account(7),
        payer: payer_account(10_000),
        rent_exempt_minimum: 2000,
    };
    let instruction = NftInstruction::CreateNFTDataAccount(CreateNFTDataAccountArgs {
        data: sample_record(pk(3)),
        id: 7,
    });
    let out = Processor::process_instruction(&program_id(), accounts, instruction).unwrap();
    match out {
        HostAccounts::Create { nft_data_account, payer, rent_exempt_minimum } => {
            assert_eq!(rent_exempt_minimum, 2000);
            assert_eq!(nft_data_account.lamports, 2000);
            assert_eq!(payer.lamports, 8000);
            assert_eq!(NFTData::from_acc_info(&nft_data_account).unwrap().listed_price, 7);
        }
        _ => panic!("create must hand back create accounts"),
    }
}

#[test]
fn dispatch_routes_update() {
    let rec = sample_record(pk(3));
    let holder = pk(5);
    let accounts = HostAccounts::Update {
        nft_data_account: persisted_nft_account(7, &rec),
        owner_account: signer(holder.clone()),
        custody_account: custody_account(),
        custody: custody_for(pk(3), holder),
        token_program_id: token_program(),
    };
    let instruction = NftInstruction::UpdateNFTPrice(UpdateNFTPriceArgs { id: 7, price: 999 });
    let out = Processor::process_instruction(&program_id(), accounts, instruction).unwrap();
    match out {
        HostAccounts::Update { nft_data_account, .. } => {
            assert_eq!(NFTData::from_acc_info(&nft_data_account).unwrap().listed_price, 999);
        }
        _ => panic!("update must hand back update accounts"),
    }
}

#[test]
fn dispatch_routes_purchase() {
    let mut rec = sample_record(pk(5));
    rec.listed_price = 500;
    let mut owner = signer(pk(5));
    owner.lamports = 100;
    let accounts = HostAccounts::Purchase {
        nft_data_account: persisted_nft_account(7, &rec),
        payer: payer_account(1000),
        owner_account: owner,
        custody: custody_for(pk(5), pk(5)),
    };
    let instruction = NftInstruction::PurchaseNFT(PurchaseNFTArgs {
        id: 7,
        new_name: None,
        new_uri: None,
        new_price: Some(900),
    });
    let out = Processor::process_instruction(&program_id(), accounts, instruction).unwrap();
    match out {
        HostAccounts::Purchase { nft_data_account, payer, owner_account, .. } => {
            assert_eq!(payer.lamports, 500);
            assert_eq!(owner_account.lamports, 600);
            let stored = NFTData::from_acc_info(&nft_data_account).unwrap();
            assert_eq!(stored.last_price, 500);
            assert_eq!(stored.listed_price, 900);
        }
        _ => panic!("purchase must hand back purchase accounts"),
    }
}

#[test]
fn dispatch_rejects_mismatched_accounts() {
    let accounts = HostAccounts::Purchase {
        nft_data_account: fresh_nft_account(7),
        payer: payer_account(1000),
        owner_account: signer(pk(5)),
        custody: custody_for(pk(5), pk(5)),
    };
    let instruction = NftInstruction::CreateNFTDataAccount(CreateNFTDataAccountArgs {
        data: sample_record(pk(3)),
        id: 7,
    });
    let r = Processor::process_instruction(&program_id(), accounts, instruction);
    assert_eq!(r, Err(CustomError::InvalidOperation));
}
