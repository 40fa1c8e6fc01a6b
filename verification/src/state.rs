use vstd::prelude::*;

verus! {

/// Maximum byte length of a record's `name` field.
pub const MAX_NAME_LENGTH: usize = 32;

/// Maximum byte length of a record's `symbol` field.
pub const MAX_SYMBOL_LENGTH: usize = 10;

/// Maximum byte length of a record's `uri` field.
pub const MAX_URI_LENGTH: usize = 200;

/// Byte length of an identity on the host ledger.
pub const PUBKEY_LENGTH: usize = 32;

/// Exact size of a serialized record: the id byte, three length-prefixed
/// string fields padded to their maxima, the two prices, and the owner
/// identity.
pub const MAX_DATA_SIZE: usize =
    1 + 4 + MAX_NAME_LENGTH + 4 + MAX_SYMBOL_LENGTH + 4 + MAX_URI_LENGTH + 8 + 8 + PUBKEY_LENGTH;

/// A 32-byte identity on the host ledger: an account address or a program
/// identity.
#[derive(Debug, Clone, PartialEq, Eq)]
pub struct Pubkey {
    pub bytes: Vec<u8>,
}

impl View for Pubkey {
    type V = Seq<u8>;

    open spec fn view(&self) -> Seq<u8> {
        self.bytes@
    }
}

impl Pubkey {
    /// An identity is well formed when it holds exactly 32 bytes.
    pub open spec fn wf(&self) -> bool {
        self@.len() == PUBKEY_LENGTH
    }

    /// A fresh identity holding the same 32 bytes.
    pub fn dup(&self) -> (r: Pubkey)
        ensures
            r@ == self@,
    {
        Pubkey { bytes: vstd::slice::slice_to_vec(self.bytes.as_slice()) }
    }
}

/// Byte-for-byte equality of two identities.
pub fn pubkey_eq(a: &Pubkey, b: &Pubkey) -> (r: bool)
    ensures
        r == (a@ == b@),
{
    if a.bytes.len() != b.bytes.len() {
        return false;
    }
    let n = a.bytes.len();
    let mut i: usize = 0;
    while i < n
        invariant
            n == a@.len() == b@.len(),
            0 <= i <= n,
            forall|j: int| 0 <= j < i ==> a@[j] == b@[j],
        decreases n - i,
    {
        if a.bytes[i] != b.bytes[i] {
            return false;
        }
        i += 1;
    }
    proof {
        assert(a@ =~= b@);
    }
    true
}

/// Mathematical model of a metadata record.
#[verifier::ext_equal]
pub struct RecordModel {
    pub id: u8,
    pub name: Seq<u8>,
    pub symbol: Seq<u8>,
    pub uri: Seq<u8>,
    pub last_price: u64,
    pub listed_price: u64,
    pub owner_address: Seq<u8>,
}

impl RecordModel {
    /// A record is well formed when each string field fits its maximum and
    /// the owner identity holds exactly 32 bytes.
    pub open spec fn wf(self) -> bool {
        &&& self.name.len() <= MAX_NAME_LENGTH
        &&& self.symbol.len() <= MAX_SYMBOL_LENGTH
        &&& self.uri.len() <= MAX_URI_LENGTH
        &&& self.owner_address.len() == PUBKEY_LENGTH
    }
}

/// The central entity: the metadata record stored at a derived address.
/// String fields are held as their raw bytes; the codec pads each with null
/// bytes out to its maximum on every write.
#[derive(Debug, Clone, PartialEq)]
pub struct NFTData {
    pub id: u8,
    pub name: Vec<u8>,
    pub symbol: Vec<u8>,
    pub uri: Vec<u8>,
    pub last_price: u64,
    pub listed_price: u64,
    pub owner_address: Pubkey,
}

impl View for NFTData {
    type V = RecordModel;

    open spec fn view(&self) -> RecordModel {
        RecordModel {
            id: self.id,
            name: self.name@,
            symbol: self.symbol@,
            uri: self.uri@,
            last_price: self.last_price,
            listed_price: self.listed_price,
            owner_address: self.owner_address@,
        }
    }
}

/// Mathematical model of a ledger account as the handlers see it.
#[verifier::ext_equal]
pub struct AccountView {
    pub key: Seq<u8>,
    pub lamports: u64,
    pub data: Seq<u8>,
    pub owner: Seq<u8>,
    pub is_signer: bool,
}

/// The slice of a ledger account that the handlers read and write: its
/// address, balance, raw storage, owning program, and whether its holder
/// signed the transaction. The host hands these in and applies the changes
/// back atomically.
#[derive(Debug, Clone, PartialEq)]
pub struct AccountData {
    pub key: Pubkey,
    pub lamports: u64,
    pub data: Vec<u8>,
    pub owner: Pubkey,
    pub is_signer: bool,
}

impl View for AccountData {
    type V = AccountView;

    open spec fn view(&self) -> AccountView {
        AccountView {
            key: self.key@,
            lamports: self.lamports,
            data: self.data@,
            owner: self.owner@,
            is_signer: self.is_signer,
        }
    }
}

/// Mathematical model of a token-custody record.
#[verifier::ext_equal]
pub struct CustodyView {
    pub mint: Seq<u8>,
    pub owner: Seq<u8>,
    pub initialized: bool,
}

/// The external token-custody record, read-only and already deserialized:
/// it binds a token holding to a mint identity and a holder identity.
#[derive(Debug, Clone, PartialEq)]
pub struct TokenCustody {
    pub mint: Pubkey,
    pub owner: Pubkey,
    pub initialized: bool,
}

impl View for TokenCustody {
    type V = CustodyView;

    open spec fn view(&self) -> CustodyView {
        CustodyView { mint: self.mint@, owner: self.owner@, initialized: self.initialized }
    }
}

} // verus!
