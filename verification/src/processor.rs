use vstd::prelude::*;

use crate::address::{derived_record_address, try_find_record_address};
use crate::codec::{lemma_codec_round_trip, pad_record, spec_decode, spec_encode};
use crate::error::CustomError;
use crate::instruction::{opt_bytes, NftInstruction};
use crate::state::{
    AccountData, AccountView, CustodyView, NFTData, Pubkey, RecordModel, TokenCustody,
    MAX_DATA_SIZE, MAX_NAME_LENGTH, MAX_SYMBOL_LENGTH, MAX_URI_LENGTH, PUBKEY_LENGTH,
};

verus! {

/// The single dispatch point of the program.
pub struct Processor;

/// The accounts (and host-supplied parameters) that each operation binds
/// positionally, in the fixed order its handler expects. The host entry
/// point builds the variant matching the decoded instruction; handing a
/// mismatched variant to the dispatcher is a caller contract violation and
/// is rejected whole.
#[derive(Debug, Clone, PartialEq)]
pub enum HostAccounts {
    Create { nft_data_account: AccountData, payer: AccountData, rent_exempt_minimum: u64 },
    Update {
        nft_data_account: AccountData,
        owner_account: AccountData,
        custody_account: AccountData,
        custody: TokenCustody,
        token_program_id: Pubkey,
    },
    Purchase {
        nft_data_account: AccountData,
        payer: AccountData,
        owner_account: AccountData,
        custody: TokenCustody,
    },
}

/// Outcome of the create operation on the model state: the new record
/// account (funded to the rent-exemption minimum, assigned to the program,
/// holding the encoded record) and the payer with the shortfall deducted.
/// The persisted record's `id` is the id the address was derived from, so
/// the stored id and the derivation input can never disagree. Each
/// validation failure yields its error and implies that no state changes at
/// all.
pub open spec fn spec_create(
    program_id: Seq<u8>,
    nft: AccountView,
    payer: AccountView,
    rent_exempt_minimum: u64,
    data: RecordModel,
    id: u8,
) -> Result<(AccountView, AccountView), CustomError> {
    match derived_record_address(program_id, id) {
        None => Err(CustomError::DerivedKeyInvalid),
        Some(d) => if nft.key != d.0 {
            Err(CustomError::InvalidNFTDataKey)
        } else {
            let required: u64 = if rent_exempt_minimum > 1 {
                rent_exempt_minimum
            } else {
                1u64
            };
            let shortfall: int = if required > nft.lamports {
                required - nft.lamports
            } else {
                0
            };
            if shortfall > 0 && !payer.is_signer {
                Err(CustomError::UpdateAuthorityIsNotSigner)
            } else if shortfall > 0 && payer.lamports < shortfall {
                Err(CustomError::NumericalOverflowError)
            } else if nft.data.len() != 0 {
                Err(CustomError::AlreadyInitialized)
            } else if data.name.len() > MAX_NAME_LENGTH {
                Err(CustomError::NameTooLong)
            } else if data.symbol.len() > MAX_SYMBOL_LENGTH {
                Err(CustomError::SymbolTooLong)
            } else if data.uri.len() > MAX_URI_LENGTH {
                Err(CustomError::UriTooLong)
            } else {
                Ok(
                    (
                        AccountView {
                            lamports: (nft.lamports + shortfall) as u64,
                            data: spec_encode(RecordModel { id, ..data }),
                            owner: program_id,
                            ..nft
                        },
                        AccountView { lamports: (payer.lamports - shortfall) as u64, ..payer },
                    ),
                )
            }
        },
    }
}

/// Outcome of the price update on the model state: the re-encoded record
/// bytes with only `listed_price` replaced, or the first failing check's
/// error. The stored owner identity is compared against the custody record's
/// mint identity here (the purchase handler compares against the holder);
/// the distinction is preserved deliberately.
pub open spec fn spec_update(
    program_id: Seq<u8>,
    nft: AccountView,
    owner: AccountView,
    custody_account_owner: Seq<u8>,
    custody: CustodyView,
    token_program_id: Seq<u8>,
    nft_id: u8,
    new_price: u64,
) -> Result<Seq<u8>, CustomError> {
    match derived_record_address(program_id, nft_id) {
        None => Err(CustomError::DerivedKeyInvalid),
        Some(d) => if nft.key != d.0 {
            Err(CustomError::InvalidNFTDataKey)
        } else if nft.owner != program_id {
            Err(CustomError::IncorrectOwner)
        } else {
            match spec_decode(nft.data) {
                None => Err(CustomError::DataTypeMismatch),
                Some(rec) => if !custody.initialized {
                    Err(CustomError::Uninitialized)
                } else if custody_account_owner != token_program_id {
                    Err(CustomError::IncorrectOwner)
                } else if rec.owner_address != custody.mint {
                    Err(CustomError::OwnerMismatch)
                } else if !owner.is_signer {
                    Err(CustomError::UpdateAuthorityIsNotSigner)
                } else if custody.owner != owner.key {
                    Err(CustomError::InvalidOwner)
                } else {
                    Ok(spec_encode(RecordModel { listed_price: new_price, ..rec }))
                },
            }
        },
    }
}

/// Outcome of a purchase on the model state: the re-encoded record bytes
/// (overrides applied, `last_price` set to the pre-purchase listed price),
/// the payer's balance less that price, and the previous owner's balance
/// plus it. Settlement and mutation stand or fall together: every check,
/// including the override lengths the encoder needs, precedes the transfer,
/// and any failure yields its error with no state change at all.
pub open spec fn spec_purchase(
    program_id: Seq<u8>,
    nft: AccountView,
    payer: AccountView,
    owner: AccountView,
    custody: CustodyView,
    id: u8,
    new_name: Option<Seq<u8>>,
    new_uri: Option<Seq<u8>>,
    new_price: Option<u64>,
) -> Result<(Seq<u8>, u64, u64), CustomError> {
    match derived_record_address(program_id, id) {
        None => Err(CustomError::DerivedKeyInvalid),
        Some(d) => if nft.key != d.0 {
            Err(CustomError::InvalidNFTDataKey)
        } else {
            match spec_decode(nft.data) {
                None => Err(CustomError::DataTypeMismatch),
                Some(rec) => if !custody.initialized {
                    Err(CustomError::Uninitialized)
                } else if owner.key != custody.owner {
                    Err(CustomError::OwnerMismatch)
                } else if rec.owner_address != custody.owner {
                    Err(CustomError::InvalidOwner)
                } else if (match new_name {
                    Some(n) => n.len() > MAX_NAME_LENGTH,
                    None => false,
                }) {
                    Err(CustomError::NameTooLong)
                } else if (match new_uri {
                    Some(u) => u.len() > MAX_URI_LENGTH,
                    None => false,
                }) {
                    Err(CustomError::UriTooLong)
                } else if !payer.is_signer {
                    Err(CustomError::UpdateAuthorityIsNotSigner)
                } else if payer.lamports < rec.listed_price {
                    Err(CustomError::NumericalOverflowError)
                } else if owner.lamports + rec.listed_price > u64::MAX {
                    Err(CustomError::NumericalOverflowError)
                } else {
                    let updated = RecordModel {
                        name: match new_name {
                            Some(n) => n,
                            None => rec.name,
                        },
                        uri: match new_uri {
                            Some(u) => u,
                            None => rec.uri,
                        },
                        last_price: rec.listed_price,
                        listed_price: match new_price {
                            Some(p) => p,
                            None => rec.listed_price,
                        },
                        ..rec
                    };
                    Ok(
                        (
                            spec_encode(updated),
                            (payer.lamports - rec.listed_price) as u64,
                            (owner.lamports + rec.listed_price) as u64,
                        ),
                    )
                },
            }
        },
    }
}

/// Reject a token-custody record that is not initialized.
pub fn assert_initialized(custody: &TokenCustody) -> (r: Result<(), CustomError>)
    ensures
        match r {
            Ok(_) => custody.initialized,
            Err(e) => !custody.initialized && e == CustomError::Uninitialized,
        },
{
    if custody.initialized {
        Ok(())
    } else {
        Err(CustomError::Uninitialized)
    }
}

/// Materialize the record at its derived address: re-derive and check the
/// address, fund the account up to the rent-exemption minimum from the
/// payer, allocate and assign its storage, validate the field lengths, and
/// persist the padded record under the id the address was derived from. The balance move and the allocation are the
/// host's; here they act directly on the model accounts, and any failure
/// (the host discards all writes of a failed invocation atomically) leaves
/// both accounts unchanged.
pub fn process_create_nft_data_accounts(
    program_id: &Pubkey,
    nft_data_account: &mut AccountData,
    payer: &mut AccountData,
    rent_exempt_minimum: u64,
    data: NFTData,
    id: u8,
) -> (r: Result<(), CustomError>)
    requires
        program_id.wf(),
        data.owner_address.wf(),
    ensures
        match spec_create(
            program_id@,
            old(nft_data_account)@,
            old(payer)@,
            rent_exempt_minimum,
            data@,
            id,
        ) {
            Ok(o) => r is Ok && final(nft_data_account)@ == o.0 && final(payer)@ == o.1,
            Err(e) => r == Err::<(), CustomError>(e) && final(nft_data_account)@ == old(nft_data_account)@ && final(payer)@ == old(payer)@,
        },
{
    let derived = try_find_record_address(program_id, id);
    let key = match derived {
        None => { return Err(CustomError::DerivedKeyInvalid) },
        Some(p) => p.0,
    };
    if !crate::state::pubkey_eq(&nft_data_account.key, &key) {
        return Err(CustomError::InvalidNFTDataKey);
    }
    let required: u64 = if rent_exempt_minimum > 1 {
        rent_exempt_minimum
    } else {
        1
    };
    let shortfall: u64 = if required > nft_data_account.lamports {
        required - nft_data_account.lamports
    } else {
        0
    };
    if shortfall > 0 {
        if !payer.is_signer {
            return Err(CustomError::UpdateAuthorityIsNotSigner);
        }
        if payer.lamports < shortfall {
            return Err(CustomError::NumericalOverflowError);
        }
    }
    if nft_data_account.data.len() != 0 {
        return Err(CustomError::AlreadyInitialized);
    }
    if data.name.len() > MAX_NAME_LENGTH {
        return Err(CustomError::NameTooLong);
    }
    if data.symbol.len() > MAX_SYMBOL_LENGTH {
        return Err(CustomError::SymbolTooLong);
    }
    if data.uri.len() > MAX_URI_LENGTH {
        return Err(CustomError::UriTooLong);
    }
    let record = NFTData { id, ..data };
    let bytes = record.encode();
    payer.lamports = payer.lamports - shortfall;
    nft_data_account.lamports = nft_data_account.lamports + shortfall;
    nft_data_account.owner = program_id.dup();
    nft_data_account.data = bytes;
    proof {
        match spec_create(
            program_id@,
            old(nft_data_account)@,
            old(payer)@,
            rent_exempt_minimum,
            data@,
            id,
        ) {
            Ok(o) => {
                assert(nft_data_account@ =~= o.0);
                assert(payer@ =~= o.1);
            },
            Err(e) => {
                assert(false);
            },
        }
    }
    Ok(())
}

/// Replace the record's listed price. The caller-supplied owner must have
/// signed and must be the custody record's recorded holder, the custody
/// account must belong to the expected token program, and the record's
/// stored owner identity must equal the custody record's mint identity; any
/// failure leaves the record unchanged.
pub fn process_update_nft_price(
    program_id: &Pubkey,
    nft_data_account: &mut AccountData,
    owner_account: &AccountData,
    custody_account: &AccountData,
    custody: &TokenCustody,
    token_program_id: &Pubkey,
    nft_id: u8,
    new_price: u64,
) -> (r: Result<(), CustomError>)
    requires
        program_id.wf(),
    ensures
        match spec_update(
            program_id@,
            old(nft_data_account)@,
            owner_account@,
            custody_account@.owner,
            custody@,
            token_program_id@,
            nft_id,
            new_price,
        ) {
            Ok(bytes) => r is Ok && final(nft_data_account)@ == (AccountView {
                data: bytes,
                ..old(nft_data_account)@
            }),
            Err(e) => r == Err::<(), CustomError>(e) && final(nft_data_account)@ == old(nft_data_account)@,
        },
{
    let derived = try_find_record_address(program_id, nft_id);
    let key = match derived {
        None => { return Err(CustomError::DerivedKeyInvalid) },
        Some(p) => p.0,
    };
    if !crate::state::pubkey_eq(&nft_data_account.key, &key) {
        return Err(CustomError::InvalidNFTDataKey);
    }
    if !crate::state::pubkey_eq(&nft_data_account.owner, program_id) {
        return Err(CustomError::IncorrectOwner);
    }
    let rec = match NFTData::from_acc_info(nft_data_account) {
        Ok(rec) => rec,
        Err(e) => { return Err(e) },
    };
    match assert_initialized(custody) {
        Ok(_) => {},
        Err(e) => { return Err(e) },
    }
    if !crate::state::pubkey_eq(&custody_account.owner, token_program_id) {
        return Err(CustomError::IncorrectOwner);
    }
    if !crate::state::pubkey_eq(&rec.owner_address, &custody.mint) {
        return Err(CustomError::OwnerMismatch);
    }
    if !owner_account.is_signer {
        return Err(CustomError::UpdateAuthorityIsNotSigner);
    }
    if !crate::state::pubkey_eq(&custody.owner, &owner_account.key) {
        return Err(CustomError::InvalidOwner);
    }
    let updated = NFTData { listed_price: new_price, ..rec };
    proof {
        assert(updated@ =~= RecordModel { listed_price: new_price, ..rec@ });
    }
    let bytes = updated.encode();
    nft_data_account.data = bytes;
    proof {
        match spec_update(
            program_id@,
            old(nft_data_account)@,
            owner_account@,
            custody_account@.owner,
            custody@,
            token_program_id@,
            nft_id,
            new_price,
        ) {
            Ok(b) => {
                assert(nft_data_account@ =~= (AccountView { data: b, ..old(nft_data_account)@ }));
            },
            Err(e) => {
                assert(false);
            },
        }
    }
    Ok(())
}

/// Execute a purchase: after the address, custody and ownership cross-checks
/// pass and the optional overrides are known to fit, move the listed price
/// from the payer to the previous owner, then apply the overrides, roll the
/// listed price into `last_price`, and persist the re-padded record. The
/// balance move is the host transfer acting directly on the model accounts;
/// any failure (the host discards all writes of a failed invocation
/// atomically) leaves all three accounts unchanged.
pub fn process_purchase_nft(
    program_id: &Pubkey,
    nft_data_account: &mut AccountData,
    payer: &mut AccountData,
    nft_owner_account: &mut AccountData,
    custody: &TokenCustody,
    id: u8,
    new_name: Option<Vec<u8>>,
    new_uri: Option<Vec<u8>>,
    new_price: Option<u64>,
) -> (r: Result<(), CustomError>)
    requires
        program_id.wf(),
    ensures
        match spec_purchase(
            program_id@,
            old(nft_data_account)@,
            old(payer)@,
            old(nft_owner_account)@,
            custody@,
            id,
            opt_bytes(new_name),
            opt_bytes(new_uri),
            new_price,
        ) {
            Ok(o) => r is Ok && final(nft_data_account)@ == (AccountView {
                data: o.0,
                ..old(nft_data_account)@
            }) && final(payer)@ == (AccountView { lamports: o.1, ..old(payer)@ }) && final(nft_owner_account)@ == (AccountView { lamports: o.2, ..old(nft_owner_account)@ }),
            Err(e) => r == Err::<(), CustomError>(e) && final(nft_data_account)@ == old(nft_data_account)@ && final(payer)@ == old(payer)@ && final(nft_owner_account)@ == old(nft_owner_account)@,
        },
{
    let derived = try_find_record_address(program_id, id);
    let key = match derived {
        None => { return Err(CustomError::DerivedKeyInvalid) },
        Some(p) => p.0,
    };
    if !crate::state::pubkey_eq(&nft_data_account.key, &key) {
        return Err(CustomError::InvalidNFTDataKey);
    }
    let rec = match NFTData::from_acc_info(nft_data_account) {
        Ok(rec) => rec,
        Err(e) => { return Err(e) },
    };
    match assert_initialized(custody) {
        Ok(_) => {},
        Err(e) => { return Err(e) },
    }
    if !crate::state::pubkey_eq(&nft_owner_account.key, &custody.owner) {
        return Err(CustomError::OwnerMismatch);
    }
    if !crate::state::pubkey_eq(&rec.owner_address, &custody.owner) {
        return Err(CustomError::InvalidOwner);
    }
    match &new_name {
        Some(n) => if n.len() > MAX_NAME_LENGTH {
            return Err(CustomError::NameTooLong);
        },
        None => {},
    }
    match &new_uri {
        Some(u) => if u.len() > MAX_URI_LENGTH {
            return Err(CustomError::UriTooLong);
        },
        None => {},
    }
    let price = rec.listed_price;
    if !payer.is_signer {
        return Err(CustomError::UpdateAuthorityIsNotSigner);
    }
    if payer.lamports < price {
        return Err(CustomError::NumericalOverflowError);
    }
    if nft_owner_account.lamports > u64::MAX - price {
        return Err(CustomError::NumericalOverflowError);
    }
    let name = match new_name {
        Some(n) => n,
        None => rec.name,
    };
    let uri = match new_uri {
        Some(u) => u,
        None => rec.uri,
    };
    let listed_price = match new_price {
        Some(p) => p,
        None => price,
    };
    let updated = NFTData {
        id: rec.id,
        name,
        symbol: rec.symbol,
        uri,
        last_price: price,
        listed_price,
        owner_address: rec.owner_address,
    };
    let bytes = updated.encode();
    payer.lamports = payer.lamports - price;
    nft_owner_account.lamports = nft_owner_account.lamports + price;
    nft_data_account.data = bytes;
    proof {
        match spec_purchase(
            program_id@,
            old(nft_data_account)@,
            old(payer)@,
            old(nft_owner_account)@,
            custody@,
            id,
            opt_bytes(new_name),
            opt_bytes(new_uri),
            new_price,
        ) {
            Ok(o) => {
                assert(updated@ =~= (match spec_decode(old(nft_data_account)@.data) {
                    Some(m) => RecordModel {
                        name: match opt_bytes(new_name) {
                            Some(n) => n,
                            None => m.name,
                        },
                        uri: match opt_bytes(new_uri) {
                            Some(u) => u,
                            None => m.uri,
                        },
                        last_price: m.listed_price,
                        listed_price: match new_price {
                            Some(p) => p,
                            None => m.listed_price,
                        },
                        ..m
                    },
                    None => updated@,
                }));
                assert(nft_data_account@ =~= (AccountView {
                    data: o.0,
                    ..old(nft_data_account)@
                }));
                assert(payer@ =~= (AccountView { lamports: o.1, ..old(payer)@ }));
                assert(nft_owner_account@ =~= (AccountView {
                    lamports: o.2,
                    ..old(nft_owner_account)@
                }));
            },
            Err(e) => {
                assert(false);
            },
        }
    }
    Ok(())
}

impl Processor {
    /// The single dispatch point: route the decoded instruction's arguments
    /// and the positionally bound accounts to the matching handler, and hand
    /// back the accounts as the handler left them. A variant mismatch
    /// between instruction and accounts is a caller contract violation,
    /// rejected whole as an invalid operation.
    pub fn process_instruction(
        program_id: &Pubkey,
        accounts: HostAccounts,
        instruction: NftInstruction,
    ) -> (r: Result<HostAccounts, CustomError>)
        requires
            program_id.wf(),
            instruction matches NftInstruction::CreateNFTDataAccount(args)
                ==> args.data.owner_address.wf(),
        ensures
            match (instruction, accounts) {
                (
                    NftInstruction::CreateNFTDataAccount(args),
                    HostAccounts::Create { nft_data_account: nft, payer, rent_exempt_minimum },
                ) => match spec_create(
                    program_id@,
                    nft@,
                    payer@,
                    rent_exempt_minimum,
                    args.data@,
                    args.id,
                ) {
                    Ok(o) => match r {
                        Ok(
                            HostAccounts::Create {
                                nft_data_account: n2,
                                payer: p2,
                                rent_exempt_minimum: m2,
                            },
                        ) => n2@ == o.0 && p2@ == o.1 && m2 == rent_exempt_minimum,
                        _ => false,
                    },
                    Err(e) => r == Err::<HostAccounts, CustomError>(e),
                },
                (
                    NftInstruction::UpdateNFTPrice(args),
                    HostAccounts::Update {
                        nft_data_account: nft,
                        owner_account,
                        custody_account,
                        custody,
                        token_program_id,
                    },
                ) => match spec_update(
                    program_id@,
                    nft@,
                    owner_account@,
                    custody_account@.owner,
                    custody@,
                    token_program_id@,
                    args.id,
                    args.price,
                ) {
                    Ok(bytes) => match r {
                        Ok(
                            HostAccounts::Update {
                                nft_data_account: n2,
                                owner_account: oa2,
                                custody_account: ca2,
                                custody: c2,
                                token_program_id: t2,
                            },
                        ) => n2@ == (AccountView { data: bytes, ..nft@ }) && oa2@ == owner_account@
                            && ca2@ == custody_account@ && c2@ == custody@ && t2@
                            == token_program_id@,
                        _ => false,
                    },
                    Err(e) => r == Err::<HostAccounts, CustomError>(e),
                },
                (
                    NftInstruction::PurchaseNFT(args),
                    HostAccounts::Purchase { nft_data_account: nft, payer, owner_account, custody },
                ) => match spec_purchase(
                    program_id@,
                    nft@,
                    payer@,
                    owner_account@,
                    custody@,
                    args.id,
                    opt_bytes(args.new_name),
                    opt_bytes(args.new_uri),
                    args.new_price,
                ) {
                    Ok(o) => match r {
                        Ok(
                            HostAccounts::Purchase {
                                nft_data_account: n2,
                                payer: p2,
                                owner_account: oa2,
                                custody: c2,
                            },
                        ) => n2@ == (AccountView { data: o.0, ..nft@ }) && p2@ == (AccountView {
                            lamports: o.1,
                            ..payer@
                        }) && oa2@ == (AccountView { lamports: o.2, ..owner_account@ }) && c2@
                            == custody@,
                        _ => false,
                    },
                    Err(e) => r == Err::<HostAccounts, CustomError>(e),
                },
                _ => r == Err::<HostAccounts, CustomError>(CustomError::InvalidOperation),
            },
    {
        match (instruction, accounts) {
            (
                NftInstruction::CreateNFTDataAccount(args),
                HostAccounts::Create { nft_data_account: mut nft, payer: mut payer_acc, rent_exempt_minimum },
            ) => {
                match process_create_nft_data_accounts(
                    program_id,
                    &mut nft,
                    &mut payer_acc,
                    rent_exempt_minimum,
                    args.data,
                    args.id,
                ) {
                    Ok(_) => Ok(
                        HostAccounts::Create {
                            nft_data_account: nft,
                            payer: payer_acc,
                            rent_exempt_minimum,
                        },
                    ),
                    Err(e) => Err(e),
                }
            },
            (
                NftInstruction::UpdateNFTPrice(args),
                HostAccounts::Update {
                    nft_data_account: mut nft,
                    owner_account,
                    custody_account,
                    custody,
                    token_program_id,
                },
            ) => {
                match process_update_nft_price(
                    program_id,
                    &mut nft,
                    &owner_account,
                    &custody_account,
                    &custody,
                    &token_program_id,
                    args.id,
                    args.price,
                ) {
                    Ok(_) => Ok(
                        HostAccounts::Update {
                            nft_data_account: nft,
                            owner_account,
                            custody_account,
                            custody,
                            token_program_id,
                        },
                    ),
                    Err(e) => Err(e),
                }
            },
            (
                NftInstruction::PurchaseNFT(args),
                HostAccounts::Purchase {
                    nft_data_account: mut nft,
                    payer: mut payer_acc,
                    owner_account: mut owner_acc,
                    custody,
                },
            ) => {
                match process_purchase_nft(
                    program_id,
                    &mut nft,
                    &mut payer_acc,
                    &mut owner_acc,
                    &custody,
                    args.id,
                    args.new_name,
                    args.new_uri,
                    args.new_price,
                ) {
                    Ok(_) => Ok(
                        HostAccounts::Purchase {
                            nft_data_account: nft,
                            payer: payer_acc,
                            owner_account: owner_acc,
                            custody,
                        },
                    ),
                    Err(e) => Err(e),
                }
            },
            _ => Err(CustomError::InvalidOperation),
        }
    }
}

/// The rent-funding step of a create can be carried out: either the record
/// account already holds the required minimum, or the payer signed and can
/// cover the shortfall.
pub open spec fn create_funding_ok(
    nft: AccountView,
    payer: AccountView,
    rent_exempt_minimum: u64,
) -> bool {
    let required: int = if rent_exempt_minimum > 1 {
        rent_exempt_minimum as int
    } else {
        1
    };
    let shortfall: int = if required > nft.lamports {
        required - nft.lamports
    } else {
        0
    };
    shortfall > 0 ==> (payer.is_signer && payer.lamports >= shortfall)
}

/// A create whose name, symbol or uri exceeds its maximum never succeeds,
/// and once the address, funding and allocation checks pass it fails with
/// exactly the matching length-exceeded error. The handler's contract adds
/// that every failure leaves both accounts unchanged, so no record is
/// persisted in that case.
pub proof fn lemma_create_rejects_oversized_fields(
    program_id: Seq<u8>,
    nft: AccountView,
    payer: AccountView,
    rent_exempt_minimum: u64,
    data: RecordModel,
    id: u8,
)
    ensures
        data.name.len() > MAX_NAME_LENGTH ==> !(spec_create(
            program_id,
            nft,
            payer,
            rent_exempt_minimum,
            data,
            id,
        ) is Ok),
        data.symbol.len() > MAX_SYMBOL_LENGTH ==> !(spec_create(
            program_id,
            nft,
            payer,
            rent_exempt_minimum,
            data,
            id,
        ) is Ok),
        data.uri.len() > MAX_URI_LENGTH ==> !(spec_create(
            program_id,
            nft,
            payer,
            rent_exempt_minimum,
            data,
            id,
        ) is Ok),
        (derived_record_address(program_id, id) matches Some(d) && nft.key == d.0
            && create_funding_ok(nft, payer, rent_exempt_minimum) && nft.data.len() == 0) ==> {
            let r = spec_create(program_id, nft, payer, rent_exempt_minimum, data, id);
            &&& data.name.len() > MAX_NAME_LENGTH ==> r == Err::<
                (AccountView, AccountView),
                CustomError,
            >(CustomError::NameTooLong)
            &&& (data.name.len() <= MAX_NAME_LENGTH && data.symbol.len() > MAX_SYMBOL_LENGTH)
                ==> r == Err::<(AccountView, AccountView), CustomError>(CustomError::SymbolTooLong)
            &&& (data.name.len() <= MAX_NAME_LENGTH && data.symbol.len() <= MAX_SYMBOL_LENGTH
                && data.uri.len() > MAX_URI_LENGTH) ==> r == Err::<
                (AccountView, AccountView),
                CustomError,
            >(CustomError::UriTooLong)
        },
{
}

/// After a successful create, parsing the persisted buffer yields exactly
/// the input fields with the string fields padded and the id the address
/// was derived from, and the buffer has exactly the declared size.
pub proof fn lemma_create_persists_inputs(
    program_id: Seq<u8>,
    nft: AccountView,
    payer: AccountView,
    rent_exempt_minimum: u64,
    data: RecordModel,
    id: u8,
)
    requires
        data.owner_address.len() == PUBKEY_LENGTH,
    ensures
        match spec_create(program_id, nft, payer, rent_exempt_minimum, data, id) {
            Ok(o) => o.0.data.len() == MAX_DATA_SIZE && spec_decode(o.0.data) == Some(
                pad_record(RecordModel { id, ..data }),
            ),
            Err(_) => true,
        },
{
    if spec_create(program_id, nft, payer, rent_exempt_minimum, data, id) is Ok {
        assert(RecordModel { id, ..data }.wf());
        lemma_codec_round_trip(RecordModel { id, ..data });
    }
}

/// A price update succeeds only when the supplied owner signed and is the
/// custody record's recorded holder, and the record's stored owner identity
/// equals the custody record's mint identity. On any failure the handler's
/// contract keeps the record, and with it the listed price, unchanged.
pub proof fn lemma_update_requires_authority(
    program_id: Seq<u8>,
    nft: AccountView,
    owner: AccountView,
    custody_account_owner: Seq<u8>,
    custody: CustodyView,
    token_program_id: Seq<u8>,
    nft_id: u8,
    new_price: u64,
)
    ensures
        spec_update(
            program_id,
            nft,
            owner,
            custody_account_owner,
            custody,
            token_program_id,
            nft_id,
            new_price,
        ) is Ok ==> {
            &&& owner.is_signer
            &&& custody.owner == owner.key
            &&& spec_decode(nft.data) matches Some(rec) && rec.owner_address == custody.mint
        },
{
}

/// Settlement law of a successful purchase whose pre-purchase listed price
/// is P: the persisted record's last price equals P; its listed price equals
/// the override when one was given and P otherwise; the payer pays exactly P
/// and the previous owner receives exactly P.
pub proof fn lemma_purchase_settlement(
    program_id: Seq<u8>,
    nft: AccountView,
    payer: AccountView,
    owner: AccountView,
    custody: CustodyView,
    id: u8,
    new_name: Option<Seq<u8>>,
    new_uri: Option<Seq<u8>>,
    new_price: Option<u64>,
)
    ensures
        match spec_purchase(
            program_id,
            nft,
            payer,
            owner,
            custody,
            id,
            new_name,
            new_uri,
            new_price,
        ) {
            Ok(o) => match spec_decode(nft.data) {
                Some(rec) => {
                    let p = rec.listed_price;
                    &&& match spec_decode(o.0) {
                        Some(newrec) => newrec.last_price == p && newrec.listed_price == (
                        match new_price {
                            Some(q) => q,
                            None => p,
                        }),
                        None => false,
                    }
                    &&& o.1 == payer.lamports - p
                    &&& o.2 == owner.lamports + p
                },
                None => false,
            },
            Err(_) => true,
        },
{
    if spec_purchase(program_id, nft, payer, owner, custody, id, new_name, new_uri, new_price)
        is Ok {
        let rec = spec_decode(nft.data)->Some_0;
        let updated = RecordModel {
            name: match new_name {
                Some(n) => n,
                None => rec.name,
            },
            uri: match new_uri {
                Some(u) => u,
                None => rec.uri,
            },
            last_price: rec.listed_price,
            listed_price: match new_price {
                Some(q) => q,
                None => rec.listed_price,
            },
            ..rec
        };
        assert(updated.wf());
        lemma_codec_round_trip(updated);
    }
}

/// Any operation whose supplied record account differs from the address
/// derived for its id fails with the invalid-key error; the handlers'
/// contracts then leave every account unchanged.
pub proof fn lemma_wrong_address_rejected(
    program_id: Seq<u8>,
    nft: AccountView,
    payer: AccountView,
    owner: AccountView,
    custody_account_owner: Seq<u8>,
    custody: CustodyView,
    token_program_id: Seq<u8>,
    rent_exempt_minimum: u64,
    data: RecordModel,
    id: u8,
    new_price: u64,
    new_name: Option<Seq<u8>>,
    new_uri: Option<Seq<u8>>,
    new_price_override: Option<u64>,
)
    requires
        derived_record_address(program_id, id) matches Some(d) && nft.key != d.0,
    ensures
        spec_create(program_id, nft, payer, rent_exempt_minimum, data, id) == Err::<
            (AccountView, AccountView),
            CustomError,
        >(CustomError::InvalidNFTDataKey),
        spec_update(
            program_id,
            nft,
            owner,
            custody_account_owner,
            custody,
            token_program_id,
            id,
            new_price,
        ) == Err::<Seq<u8>, CustomError>(CustomError::InvalidNFTDataKey),
        spec_purchase(
            program_id,
            nft,
            payer,
            owner,
            custody,
            id,
            new_name,
            new_uri,
            new_price_override,
        ) == Err::<(Seq<u8>, u64, u64), CustomError>(CustomError::InvalidNFTDataKey),
{
}

} // verus!
