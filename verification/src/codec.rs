use vstd::prelude::*;

use crate::error::CustomError;
use crate::state::{
    AccountData, NFTData, Pubkey, RecordModel, MAX_DATA_SIZE, MAX_NAME_LENGTH, MAX_SYMBOL_LENGTH,
    MAX_URI_LENGTH,
};
use vstd::bytes::{
    lemma_auto_spec_u32_to_from_le_bytes, lemma_auto_spec_u64_to_from_le_bytes,
    spec_u32_from_le_bytes, spec_u32_to_le_bytes, spec_u64_from_le_bytes, spec_u64_to_le_bytes,
    u32_from_le_bytes, u32_to_le_bytes, u64_from_le_bytes, u64_to_le_bytes,
};
use vstd::slice::{slice_index_get, slice_subrange, slice_to_vec};

verus! {

/// A run of `n` null bytes.
pub open spec fn zero_bytes(n: nat) -> Seq<u8> {
    Seq::new(n, |i: int| 0u8)
}

/// `s` right-padded with null bytes out to width `w` (unchanged if already
/// that long or longer).
pub open spec fn pad_field(s: Seq<u8>, w: int) -> Seq<u8> {
    s + zero_bytes((w - s.len()) as nat)
}

/// The record with each string field padded out to its maximum, as every
/// persisted record stores them.
pub open spec fn pad_record(r: RecordModel) -> RecordModel {
    RecordModel {
        name: pad_field(r.name, MAX_NAME_LENGTH as int),
        symbol: pad_field(r.symbol, MAX_SYMBOL_LENGTH as int),
        uri: pad_field(r.uri, MAX_URI_LENGTH as int),
        ..r
    }
}

/// The exact byte image of a record: the id byte, then each string field as a
/// little-endian length prefix (the padded length, i.e. the field's maximum)
/// followed by the padded bytes, then the two prices little-endian, then the
/// owner identity.
pub open spec fn spec_encode(r: RecordModel) -> Seq<u8> {
    seq![r.id] + spec_u32_to_le_bytes(MAX_NAME_LENGTH as u32)
        + pad_field(r.name, MAX_NAME_LENGTH as int) + spec_u32_to_le_bytes(
        MAX_SYMBOL_LENGTH as u32,
    ) + pad_field(r.symbol, MAX_SYMBOL_LENGTH as int) + spec_u32_to_le_bytes(MAX_URI_LENGTH as u32)
        + pad_field(r.uri, MAX_URI_LENGTH as int) + spec_u64_to_le_bytes(r.last_price)
        + spec_u64_to_le_bytes(r.listed_price) + r.owner_address
}

/// Structural parse of a record buffer. The buffer must have exactly the
/// declared size and each length prefix must fit the field's maximum (a
/// zero-initialized buffer parses with empty fields); anything else is
/// malformed. Bytes between a short field's end and the next field begin
/// right after the field, and bytes past the owner identity are ignored, so a
/// freshly zeroed buffer and a persisted record both parse.
pub open spec fn spec_decode(b: Seq<u8>) -> Option<RecordModel> {
    if b.len() != MAX_DATA_SIZE {
        None
    } else {
        let n1 = spec_u32_from_le_bytes(b.subrange(1, 5)) as int;
        if n1 > MAX_NAME_LENGTH {
            None
        } else {
            let o2 = 5 + n1;
            let n2 = spec_u32_from_le_bytes(b.subrange(o2, o2 + 4)) as int;
            if n2 > MAX_SYMBOL_LENGTH {
                None
            } else {
                let o3 = o2 + 4 + n2;
                let n3 = spec_u32_from_le_bytes(b.subrange(o3, o3 + 4)) as int;
                if n3 > MAX_URI_LENGTH {
                    None
                } else {
                    let o4 = o3 + 4 + n3;
                    Some(
                        RecordModel {
                            id: b[0],
                            name: b.subrange(5, 5 + n1),
                            symbol: b.subrange(o2 + 4, o2 + 4 + n2),
                            uri: b.subrange(o3 + 4, o3 + 4 + n3),
                            last_price: spec_u64_from_le_bytes(b.subrange(o4, o4 + 8)),
                            listed_price: spec_u64_from_le_bytes(b.subrange(o4 + 8, o4 + 16)),
                            owner_address: b.subrange(o4 + 16, o4 + 48),
                        },
                    )
                }
            }
        }
    }
}

/// Any buffer that parses yields a well-formed record: each field fits its
/// maximum and the owner identity holds exactly 32 bytes.
pub proof fn lemma_decode_wf(b: Seq<u8>)
    ensures
        spec_decode(b) matches Some(rec) ==> rec.wf(),
{
}

fn push_bytes(out: &mut Vec<u8>, src: &Vec<u8>)
    ensures
        final(out)@ == old(out)@ + src@,
{
    let n = src.len();
    let mut i: usize = 0;
    while i < n
        invariant
            i <= n,
            n == src@.len(),
            out@ == old(out)@ + src@.subrange(0, i as int),
        decreases n - i,
    {
        out.push(src[i]);
        i += 1;
        proof {
            assert(src@.subrange(0, i as int) =~= src@.subrange(0, i - 1) + seq![src@[i - 1]]);
            assert(out@ =~= old(out)@ + src@.subrange(0, i as int));
        }
    }
    proof {
        assert(src@.subrange(0, n as int) =~= src@);
    }
}

fn push_zeros(out: &mut Vec<u8>, n: usize)
    ensures
        final(out)@ == old(out)@ + zero_bytes(n as nat),
{
    let mut i: usize = 0;
    while i < n
        invariant
            i <= n,
            out@ == old(out)@ + zero_bytes(i as nat),
        decreases n - i,
    {
        out.push(0u8);
        i += 1;
        proof {
            assert(zero_bytes(i as nat) =~= zero_bytes((i - 1) as nat) + seq![0u8]);
            assert(out@ =~= old(out)@ + zero_bytes(i as nat));
        }
    }
}

fn push_padded(out: &mut Vec<u8>, src: &Vec<u8>, width: usize)
    requires
        src@.len() <= width,
    ensures
        final(out)@ == old(out)@ + pad_field(src@, width as int),
{
    push_bytes(out, src);
    push_zeros(out, width - src.len());
    proof {
        assert(out@ =~= old(out)@ + pad_field(src@, width as int));
    }
}

impl NFTData {
    /// Serialize the record into a fresh buffer of exactly the declared
    /// size, right-padding each string field with null bytes out to its
    /// maximum. Validation of the field lengths must already have happened.
    pub fn encode(&self) -> (out: Vec<u8>)
        requires
            self@.wf(),
        ensures
            out@ == spec_encode(self@),
            out@.len() == MAX_DATA_SIZE,
    {
        let mut out: Vec<u8> = Vec::new();
        out.push(self.id);
        let l1 = u32_to_le_bytes(MAX_NAME_LENGTH as u32);
        push_bytes(&mut out, &l1);
        push_padded(&mut out, &self.name, MAX_NAME_LENGTH);
        let l2 = u32_to_le_bytes(MAX_SYMBOL_LENGTH as u32);
        push_bytes(&mut out, &l2);
        push_padded(&mut out, &self.symbol, MAX_SYMBOL_LENGTH);
        let l3 = u32_to_le_bytes(MAX_URI_LENGTH as u32);
        push_bytes(&mut out, &l3);
        push_padded(&mut out, &self.uri, MAX_URI_LENGTH);
        let p1 = u64_to_le_bytes(self.last_price);
        push_bytes(&mut out, &p1);
        let p2 = u64_to_le_bytes(self.listed_price);
        push_bytes(&mut out, &p2);
        push_bytes(&mut out, &self.owner_address.bytes);
        proof {
            assert(out@ =~= spec_encode(self@));
        }
        out
    }

    /// Parse a record from a raw buffer. Returns the data-type-mismatch
    /// error, and nothing else, on any malformed buffer.
    pub fn decode(bytes: &[u8]) -> (r: Result<NFTData, CustomError>)
        ensures
            match r {
                Ok(rec) => spec_decode(bytes@) == Some(rec@) && rec@.wf(),
                Err(e) => spec_decode(bytes@) is None && e == CustomError::DataTypeMismatch,
            },
    {
        if bytes.len() != MAX_DATA_SIZE {
            return Err(CustomError::DataTypeMismatch);
        }
        let id = *slice_index_get(bytes, 0);
        let n1 = u32_from_le_bytes(slice_subrange(bytes, 1, 5));
        if n1 > MAX_NAME_LENGTH as u32 {
            return Err(CustomError::DataTypeMismatch);
        }
        let n1u = n1 as usize;
        let name = slice_to_vec(slice_subrange(bytes, 5, 5 + n1u));
        let o2 = 5 + n1u;
        let n2 = u32_from_le_bytes(slice_subrange(bytes, o2, o2 + 4));
        if n2 > MAX_SYMBOL_LENGTH as u32 {
            return Err(CustomError::DataTypeMismatch);
        }
        let n2u = n2 as usize;
        let symbol = slice_to_vec(slice_subrange(bytes, o2 + 4, o2 + 4 + n2u));
        let o3 = o2 + 4 + n2u;
        let n3 = u32_from_le_bytes(slice_subrange(bytes, o3, o3 + 4));
        if n3 > MAX_URI_LENGTH as u32 {
            return Err(CustomError::DataTypeMismatch);
        }
        let n3u = n3 as usize;
        let uri = slice_to_vec(slice_subrange(bytes, o3 + 4, o3 + 4 + n3u));
        let o4 = o3 + 4 + n3u;
        let last_price = u64_from_le_bytes(slice_subrange(bytes, o4, o4 + 8));
        let listed_price = u64_from_le_bytes(slice_subrange(bytes, o4 + 8, o4 + 16));
        let owner_address = Pubkey { bytes: slice_to_vec(slice_subrange(bytes, o4 + 16, o4 + 48)) };
        let rec = NFTData { id, name, symbol, uri, last_price, listed_price, owner_address };
        proof {
            assert(spec_decode(bytes@) matches Some(m) && m =~= rec@);
        }
        Ok(rec)
    }

    /// Load the record stored in an account, rejecting any buffer that does
    /// not hold exactly one well-formed record image.
    pub fn from_acc_info(acc_info: &AccountData) -> (r: Result<NFTData, CustomError>)
        ensures
            match r {
                Ok(rec) => spec_decode(acc_info.data@) == Some(rec@) && rec@.wf(),
                Err(e) => spec_decode(acc_info.data@) is None && e == CustomError::DataTypeMismatch,
            },
    {
        if acc_info.data.len() != MAX_DATA_SIZE {
            return Err(CustomError::DataTypeMismatch);
        }
        Self::decode(acc_info.data.as_slice())
    }
}

/// Encoding a well-formed record and parsing the image back yields the same
/// record with its string fields padded, and the image has exactly the
/// declared size.
pub proof fn lemma_codec_round_trip(r: RecordModel)
    requires
        r.wf(),
    ensures
        spec_encode(r).len() == MAX_DATA_SIZE,
        spec_decode(spec_encode(r)) == Some(pad_record(r)),
{
    lemma_auto_spec_u32_to_from_le_bytes();
    lemma_auto_spec_u64_to_from_le_bytes();
    let b = spec_encode(r);
    let name = pad_field(r.name, MAX_NAME_LENGTH as int);
    let symbol = pad_field(r.symbol, MAX_SYMBOL_LENGTH as int);
    let uri = pad_field(r.uri, MAX_URI_LENGTH as int);
    assert(name.len() == 32);
    assert(symbol.len() == 10);
    assert(uri.len() == 200);
    assert(b.len() == MAX_DATA_SIZE);
    assert(b.subrange(1, 5) =~= spec_u32_to_le_bytes(MAX_NAME_LENGTH as u32));
    assert(b.subrange(5, 37) =~= name);
    assert(b.subrange(37, 41) =~= spec_u32_to_le_bytes(MAX_SYMBOL_LENGTH as u32));
    assert(b.subrange(41, 51) =~= symbol);
    assert(b.subrange(51, 55) =~= spec_u32_to_le_bytes(MAX_URI_LENGTH as u32));
    assert(b.subrange(55, 255) =~= uri);
    assert(b.subrange(255, 263) =~= spec_u64_to_le_bytes(r.last_price));
    assert(b.subrange(263, 271) =~= spec_u64_to_le_bytes(r.listed_price));
    assert(b.subrange(271, 303) =~= r.owner_address);
    assert(b[0] == r.id);
    assert(spec_decode(b) matches Some(m) && m =~= pad_record(r));
}

/// Round-trip idempotence: the record parsed back from an encoded image
/// re-encodes and parses to the identical record, for any record whose
/// fields are within the declared maxima.
pub proof fn lemma_round_trip_idempotent(r: RecordModel)
    requires
        r.wf(),
    ensures
        ({
            let d = pad_record(r);
            &&& spec_decode(spec_encode(r)) == Some(d)
            &&& spec_decode(spec_encode(d)) == Some(d)
        }),
{
    lemma_codec_round_trip(r);
    let d = pad_record(r);
    assert(d.wf());
    lemma_codec_round_trip(d);
    assert(pad_record(d) =~= d);
}

} // verus!
