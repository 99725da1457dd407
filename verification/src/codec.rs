//! The record codec: a fixed, self-describing binary layout for the campaign
//! record and the withdraw-request payload. Field order is fixed; text fields
//! are prefixed with their length as a little-endian 32-bit count; counters
//! are little-endian 64-bit. A decoder consumes a prefix of the buffer and
//! reports `MalformedRecord` when the buffer ends before the record does.

use vstd::prelude::*;
use vstd::bytes::*;
use vstd::slice::*;

use crate::account::ErrorKind;

verus! {

/// A campaign record, as persisted inside a program-owned storage account.
pub struct CampaignRecord {
    /// Identity authorized to withdraw; set once, at creation (32 bytes).
    pub admin: Vec<u8>,
    /// Caller-supplied text metadata, kept as its encoded bytes.
    pub name: Vec<u8>,
    pub description: Vec<u8>,
    pub image_link: Vec<u8>,
    /// Cumulative funds routed through `donate`; only `donate` increases it.
    pub amount_donated: u64,
}

/// The mathematical image of a campaign record.
#[verifier::ext_equal]
pub ghost struct CampaignRecordView {
    pub admin: Seq<u8>,
    pub name: Seq<u8>,
    pub description: Seq<u8>,
    pub image_link: Seq<u8>,
    pub amount_donated: u64,
}

impl View for CampaignRecord {
    type V = CampaignRecordView;

    open spec fn view(&self) -> CampaignRecordView {
        CampaignRecordView {
            admin: self.admin@,
            name: self.name@,
            description: self.description@,
            image_link: self.image_link@,
            amount_donated: self.amount_donated,
        }
    }
}

impl CampaignRecordView {
    /// A record the codec can represent: a 32-byte admin identity and text
    /// fields whose lengths fit their 32-bit prefixes.
    pub open spec fn wf(self) -> bool {
        &&& self.admin.len() == 32
        &&& self.name.len() <= u32::MAX
        &&& self.description.len() <= u32::MAX
        &&& self.image_link.len() <= u32::MAX
    }
}

/// An ephemeral withdraw request, decoded from an instruction payload.
pub struct WithdrawRequest {
    /// Balance units to move from storage to the admin.
    pub amount: u64,
}

/// A length-prefixed byte field as it stands in the wire format.
pub open spec fn spec_encode_bytes(s: Seq<u8>) -> Seq<u8> {
    spec_u32_to_le_bytes(s.len() as u32) + s
}

/// The full encoding of a campaign record.
pub open spec fn spec_encode_campaign(r: CampaignRecordView) -> Seq<u8> {
    r.admin + spec_encode_bytes(r.name) + spec_encode_bytes(r.description)
        + spec_encode_bytes(r.image_link) + spec_u64_to_le_bytes(r.amount_donated)
}

/// The encoding of a withdraw request: its amount alone.
pub open spec fn spec_encode_withdraw(amount: u64) -> Seq<u8> {
    spec_u64_to_le_bytes(amount)
}

/// Reads one length-prefixed byte field at offset `i`; yields the field and
/// the offset just past it, or nothing if the buffer ends too early.
pub open spec fn spec_decode_bytes_at(b: Seq<u8>, i: int) -> Option<(Seq<u8>, int)> {
    if i + 4 <= b.len() {
        let n = spec_u32_from_le_bytes(b.subrange(i, i + 4)) as int;
        if i + 4 + n <= b.len() {
            Some((b.subrange(i + 4, i + 4 + n), i + 4 + n))
        } else {
            None
        }
    } else {
        None
    }
}

/// Decodes a campaign record from a prefix of `b`; yields the record and the
/// number of bytes consumed, or nothing if `b` is truncated anywhere.
pub open spec fn spec_decode_campaign(b: Seq<u8>) -> Option<(CampaignRecordView, int)> {
    if b.len() < 32 {
        None
    } else {
        match spec_decode_bytes_at(b, 32) {
            None => None,
            Some((name, i1)) => match spec_decode_bytes_at(b, i1) {
                None => None,
                Some((description, i2)) => match spec_decode_bytes_at(b, i2) {
                    None => None,
                    Some((image_link, i3)) => if i3 + 8 <= b.len() {
                        Some(
                            (
                                CampaignRecordView {
                                    admin: b.subrange(0, 32),
                                    name,
                                    description,
                                    image_link,
                                    amount_donated: spec_u64_from_le_bytes(b.subrange(i3, i3 + 8)),
                                },
                                i3 + 8,
                            ),
                        )
                    } else {
                        None
                    },
                },
            },
        }
    }
}

/// Decodes a withdraw request from a prefix of `b`: the amount and the eight
/// bytes consumed, or nothing if fewer than eight bytes remain.
pub open spec fn spec_decode_withdraw(b: Seq<u8>) -> Option<(u64, int)> {
    if 8 <= b.len() {
        Some((spec_u64_from_le_bytes(b.subrange(0, 8)), 8))
    } else {
        None
    }
}

/// Appends every byte of `src` to `out`.
fn push_all(out: &mut Vec<u8>, src: &[u8])
    ensures
        final(out)@ == old(out)@ + src@,
{
    let ghost out0 = out@;
    let mut i: usize = 0;
    while i < src.len()
        invariant
            i <= src@.len(),
            out@ == out0 + src@.subrange(0, i as int),
        decreases src@.len() - i,
    {
        out.push(*slice_index_get(src, i));
        proof {
            assert(out@ =~= out0 + src@.subrange(0, i + 1));
        }
        i = i + 1;
    }
    proof {
        assert(out@ =~= out0 + src@);
    }
}

/// Appends the four little-endian bytes of `v` to `out`.
fn push_u32(out: &mut Vec<u8>, v: u32)
    ensures
        final(out)@ == old(out)@ + spec_u32_to_le_bytes(v),
{
    let bytes = u32_to_le_bytes(v);
    push_all(out, bytes.as_slice());
}

/// Appends the eight little-endian bytes of `v` to `out`.
fn push_u64(out: &mut Vec<u8>, v: u64)
    ensures
        final(out)@ == old(out)@ + spec_u64_to_le_bytes(v),
{
    let bytes = u64_to_le_bytes(v);
    push_all(out, bytes.as_slice());
}

/// Appends a length-prefixed byte field to `out`.
fn push_len_prefixed(out: &mut Vec<u8>, src: &Vec<u8>)
    requires
        src@.len() <= u32::MAX,
    ensures
        final(out)@ == old(out)@ + spec_encode_bytes(src@),
{
    let ghost out0 = out@;
    push_u32(out, src.len() as u32);
    push_all(out, src.as_slice());
    proof {
        assert(out@ =~= out0 + spec_encode_bytes(src@));
    }
}

/// Encodes a campaign record into its wire format.
pub fn encode_campaign(r: &CampaignRecord) -> (out: Vec<u8>)
    requires
        r@.wf(),
    ensures
        out@ == spec_encode_campaign(r@),
{
    let mut out: Vec<u8> = Vec::new();
    push_all(&mut out, r.admin.as_slice());
    push_len_prefixed(&mut out, &r.name);
    push_len_prefixed(&mut out, &r.description);
    push_len_prefixed(&mut out, &r.image_link);
    push_u64(&mut out, r.amount_donated);
    proof {
        assert(out@ =~= spec_encode_campaign(r@));
    }
    out
}

/// Encodes a withdraw request into its wire format.
pub fn encode_withdraw(w: &WithdrawRequest) -> (out: Vec<u8>)
    ensures
        out@ == spec_encode_withdraw(w.amount),
{
    u64_to_le_bytes(w.amount)
}

/// Reads one length-prefixed byte field at offset `i`.
fn read_len_prefixed(b: &[u8], i: usize) -> (out: Result<(Vec<u8>, usize), ErrorKind>)
    requires
        i <= b@.len(),
    ensures
        spec_decode_bytes_at(b@, i as int) matches Some(p) ==> (out matches Ok(q) && q.0@ == p.0
            && q.1 == p.1),
        spec_decode_bytes_at(b@, i as int) is None ==> out == Err::<
            (Vec<u8>, usize),
            ErrorKind,
        >(ErrorKind::MalformedRecord),
        out matches Ok(q) ==> i < q.1 <= b@.len(),
{
    if b.len() - i < 4 {
        return Err(ErrorKind::MalformedRecord);
    }
    let n32 = u32_from_le_bytes(slice_subrange(b, i, i + 4));
    let n = n32 as usize;
    if b.len() - (i + 4) < n {
        return Err(ErrorKind::MalformedRecord);
    }
    let payload = slice_to_vec(slice_subrange(b, i + 4, i + 4 + n));
    Ok((payload, i + 4 + n))
}

/// Decodes a campaign record from a prefix of `b`.
pub fn decode_campaign(b: &[u8]) -> (out: Result<CampaignRecord, ErrorKind>)
    ensures
        spec_decode_campaign(b@) matches Some(p) ==> (out matches Ok(rec) && rec@ == p.0
            && rec@.wf()),
        spec_decode_campaign(b@) is None ==> out == Err::<
            CampaignRecord,
            ErrorKind,
        >(ErrorKind::MalformedRecord),
{
    if b.len() < 32 {
        return Err(ErrorKind::MalformedRecord);
    }
    let admin = slice_to_vec(slice_subrange(b, 0, 32));
    let (name, i1) = match read_len_prefixed(b, 32) {
        Ok(p) => p,
        Err(e) => {
            return Err(e);
        },
    };
    let (description, i2) = match read_len_prefixed(b, i1) {
        Ok(p) => p,
        Err(e) => {
            return Err(e);
        },
    };
    let (image_link, i3) = match read_len_prefixed(b, i2) {
        Ok(p) => p,
        Err(e) => {
            return Err(e);
        },
    };
    if b.len() - i3 < 8 {
        return Err(ErrorKind::MalformedRecord);
    }
    let amount_donated = u64_from_le_bytes(slice_subrange(b, i3, i3 + 8));
    let rec = CampaignRecord { admin, name, description, image_link, amount_donated };
    proof {
        lemma_decode_campaign_len(b@);
    }
    Ok(rec)
}

/// Decodes a withdraw request from a prefix of `b`.
pub fn decode_withdraw(b: &[u8]) -> (out: Result<WithdrawRequest, ErrorKind>)
    ensures
        spec_decode_withdraw(b@) matches Some(p) ==> (out matches Ok(w) && w.amount == p.0),
        spec_decode_withdraw(b@) is None ==> out == Err::<
            WithdrawRequest,
            ErrorKind,
        >(ErrorKind::MalformedRecord),
{
    if b.len() < 8 {
        return Err(ErrorKind::MalformedRecord);
    }
    let amount = u64_from_le_bytes(slice_subrange(b, 0, 8));
    Ok(WithdrawRequest { amount })
}

/// Overwrites the front of `buf` with `src`, leaving the bytes past it as
/// they were; the buffer keeps its length (its fixed capacity).
pub fn overwrite_prefix(buf: &mut Vec<u8>, src: &Vec<u8>)
    requires
        src@.len() <= old(buf)@.len(),
    ensures
        final(buf)@ == src@ + old(buf)@.skip(src@.len() as int),
        final(buf)@.len() == old(buf)@.len(),
{
    let ghost buf0 = buf@;
    let mut out: Vec<u8> = Vec::new();
    push_all(&mut out, src.as_slice());
    let mut i: usize = src.len();
    while i < buf.len()
        invariant
            src@.len() <= i <= buf@.len(),
            buf@ == buf0,
            out@ == src@ + buf@.subrange(src@.len() as int, i as int),
        decreases buf@.len() - i,
    {
        let x = buf[i];
        out.push(x);
        proof {
            assert(out@ =~= src@ + buf@.subrange(src@.len() as int, i + 1));
        }
        i = i + 1;
    }
    proof {
        assert(out@ =~= src@ + buf0.skip(src@.len() as int));
    }
    *buf = out;
}

/// One length-prefixed field decodes back to exactly the bytes it encodes,
/// wherever it stands in a larger buffer.
pub proof fn lemma_decode_bytes_at(b: Seq<u8>, i: int, s: Seq<u8>)
    requires
        0 <= i,
        s.len() <= u32::MAX,
        i + 4 + s.len() <= b.len(),
        b.subrange(i, i + 4) == spec_u32_to_le_bytes(s.len() as u32),
        b.subrange(i + 4, i + 4 + s.len()) == s,
    ensures
        spec_decode_bytes_at(b, i) == Some((s, i + 4 + s.len())),
{
    lemma_auto_spec_u32_to_from_le_bytes();
    let n = spec_u32_from_le_bytes(b.subrange(i, i + 4)) as int;
    assert(spec_u32_to_le_bytes(s.len() as u32).len() == 4);
    assert(spec_u32_from_le_bytes(spec_u32_to_le_bytes(s.len() as u32)) == s.len() as u32);
    assert(n == s.len());
    assert(spec_decode_bytes_at(b, i) == Some((b.subrange(i + 4, i + 4 + n), i + 4 + n)));
}

/// Round-trip law for campaign records: decoding an encoded record — with any
/// bytes at all standing after it — yields the record back, and consumes
/// exactly its encoding.
pub proof fn lemma_campaign_round_trip(r: CampaignRecordView, rest: Seq<u8>)
    requires
        r.wf(),
    ensures
        spec_decode_campaign(spec_encode_campaign(r) + rest) == Some(
            (r, spec_encode_campaign(r).len() as int),
        ),
{
    lemma_auto_spec_u32_to_from_le_bytes();
    lemma_auto_spec_u64_to_from_le_bytes();
    let e = spec_encode_campaign(r);
    let b = e + rest;
    let n1 = r.name.len() as int;
    let n2 = r.description.len() as int;
    let n3 = r.image_link.len() as int;
    let i1 = 36 + n1;
    let i2 = i1 + 4 + n2;
    let i3 = i2 + 4 + n3;
    assert(e.len() == i3 + 8);
    assert(b.subrange(0, 32) =~= r.admin);
    assert(b.subrange(32, 36) =~= spec_u32_to_le_bytes(r.name.len() as u32));
    assert(b.subrange(36, 36 + n1) =~= r.name);
    lemma_decode_bytes_at(b, 32, r.name);
    assert(b.subrange(i1, i1 + 4) =~= spec_u32_to_le_bytes(r.description.len() as u32));
    assert(b.subrange(i1 + 4, i1 + 4 + n2) =~= r.description);
    lemma_decode_bytes_at(b, i1, r.description);
    assert(b.subrange(i2, i2 + 4) =~= spec_u32_to_le_bytes(r.image_link.len() as u32));
    assert(b.subrange(i2 + 4, i2 + 4 + n3) =~= r.image_link);
    lemma_decode_bytes_at(b, i2, r.image_link);
    assert(b.subrange(i3, i3 + 8) =~= spec_u64_to_le_bytes(r.amount_donated));
    assert(spec_decode_campaign(b) matches Some(p) && p.0 =~= r && p.1 == e.len());
}

/// Round-trip law for withdraw requests.
pub proof fn lemma_withdraw_round_trip(amount: u64, rest: Seq<u8>)
    ensures
        spec_decode_withdraw(spec_encode_withdraw(amount) + rest) == Some((amount, 8int)),
{
    lemma_auto_spec_u64_to_from_le_bytes();
    let b = spec_encode_withdraw(amount) + rest;
    assert(b.subrange(0, 8) =~= spec_u64_to_le_bytes(amount));
}

/// A successful decode consumes exactly the encoding of the record it yields,
/// never more than the buffer holds, and yields a well-formed record.
pub proof fn lemma_decode_campaign_len(b: Seq<u8>)
    requires
        spec_decode_campaign(b) is Some,
    ensures
        ({
            let (r, n) = spec_decode_campaign(b)->Some_0;
            &&& r.wf()
            &&& n == spec_encode_campaign(r).len()
            &&& 32 <= n <= b.len()
        }),
{
    lemma_auto_spec_u32_to_from_le_bytes();
    lemma_auto_spec_u64_to_from_le_bytes();
}

/// Two records that differ at most in `amount_donated` have encodings of the
/// same length.
pub proof fn lemma_encode_len_amount_independent(r1: CampaignRecordView, r2: CampaignRecordView)
    requires
        r1.admin == r2.admin,
        r1.name == r2.name,
        r1.description == r2.description,
        r1.image_link == r2.image_link,
    ensures
        spec_encode_campaign(r1).len() == spec_encode_campaign(r2).len(),
{
    lemma_auto_spec_u64_to_from_le_bytes();
}

} // verus!
