use vstd::prelude::*;

use crate::state::NFTData;

verus! {

/// Payload of the create operation: the full record to persist and the id
/// that the record address is derived from.
#[derive(Debug, Clone, PartialEq)]
pub struct CreateNFTDataAccountArgs {
    pub data: NFTData,
    pub id: u8,
}

/// Payload of the price update: the record id and the new listed price.
#[derive(Debug, Clone, PartialEq)]
pub struct UpdateNFTPriceArgs {
    pub id: u8,
    pub price: u64,
}

/// Payload of a purchase: the record id and the optional descriptive and
/// price overrides applied after settlement.
#[derive(Debug, Clone, PartialEq)]
pub struct PurchaseNFTArgs {
    pub id: u8,
    pub new_name: Option<Vec<u8>>,
    pub new_uri: Option<Vec<u8>>,
    pub new_price: Option<u64>,
}

/// The opcode catalog: each operation carries its fixed-schema argument
/// payload. The wire decoding of this enum is the caller's concern; the
/// handlers consume it already decoded.
#[derive(Debug, Clone, PartialEq)]
pub enum NftInstruction {
    CreateNFTDataAccount(CreateNFTDataAccountArgs),
    UpdateNFTPrice(UpdateNFTPriceArgs),
    PurchaseNFT(PurchaseNFTArgs),
}

/// The byte sequence under an optional byte-string argument.
pub open spec fn opt_bytes(o: Option<Vec<u8>>) -> Option<Seq<u8>> {
    match o {
        Some(v) => Some(v@),
        None => None,
    }
}

} // verus!
