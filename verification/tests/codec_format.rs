//! The record codec: round trips, exact wire bytes, malformed buffers, and
//! agreement with the borsh encoding the stored records are compatible with.

use crowdfund::account::ErrorKind;
use crowdfund::codec::{
    decode_campaign, decode_withdraw, encode_campaign, encode_withdraw, CampaignRecord,
    WithdrawRequest,
};

fn key(b: u8) -> Vec<u8> {
    vec![b; 32]
}

fn sample_record() -> CampaignRecord {
    CampaignRecord {
        admin: key(7),
        name: b"my campaign".to_vec(),
        description: b"a description of it".to_vec(),
        image_link: b"https://example.org/x.png".to_vec(),
        amount_donated: 12345,
    }
}

#[test]
fn campaign_round_trip() {
    let rec = sample_record();
    let bytes = encode_campaign(&rec);
    let back = decode_campaign(&bytes).unwrap();
    assert_eq!(back.admin, rec.admin);
    assert_eq!(back.name, rec.name);
    assert_eq!(back.description, rec.description);
    assert_eq!(back.image_link, rec.image_link);
    assert_eq!(back.amount_donated, rec.amount_donated);
}

#[test]
fn campaign_round_trip_empty_fields() {
    let rec = CampaignRecord {
        admin: key(0),
        name: Vec::new(),
        description: Vec::new(),
        image_link: Vec::new(),
        amount_donated: 0,
    };
    let bytes = encode_campaign(&rec);
    assert_eq!(bytes.len(), 32 + 4 + 4 + 4 + 8);
    let back = decode_campaign(&bytes).unwrap();
    assert_eq!(back.admin, rec.admin);
    assert_eq!(back.name, rec.name);
    assert_eq!(back.amount_donated, 0);
}

#[test]
fn campaign_round_trip_large_field() {
    let rec = CampaignRecord {
        admin: key(3),
        name: vec![b'x'; 100_000],
        description: b"large".to_vec(),
        image_link: Vec::new(),
        amount_donated: 1,
    };
    let bytes = encode_campaign(&rec);
    assert_eq!(bytes.len(), 32 + 4 + 100_000 + 4 + 5 + 4 + 8);
    let back = decode_campaign(&bytes).unwrap();
    assert_eq!(back.name.len(), 100_000);
    assert_eq!(back.description, rec.description);
}

#[test]
fn withdraw_round_trip() {
    let w = WithdrawRequest { amount: u64::MAX };
    let bytes = encode_withdraw(&w);
    let back = decode_withdraw(&bytes).unwrap();
    assert_eq!(back.amount, u64::MAX);
}

#[test]
fn withdraw_exact_bytes() {
    let w = WithdrawRequest { amount: 1000 };
    let bytes = encode_withdraw(&w);
    assert_eq!(bytes, vec![232, 3, 0, 0, 0, 0, 0, 0]);
}

#[test]
fn campaign_exact_bytes() {
    let rec = CampaignRecord {
        admin: key(9),
        name: b"ab".to_vec(),
        description: b"c".to_vec(),
        image_link: Vec::new(),
        amount_donated: 258,
    };
    let mut expected = vec![9u8; 32];
    expected.extend_from_slice(&[2, 0, 0, 0]);
    expected.extend_from_slice(b"ab");
    expected.extend_from_slice(&[1, 0, 0, 0]);
    expected.extend_from_slice(b"c");
    expected.extend_from_slice(&[0, 0, 0, 0]);
    expected.extend_from_slice(&[2, 1, 0, 0, 0, 0, 0, 0]);
    assert_eq!(encode_campaign(&rec), expected);
}

#[test]
fn decode_rejects_short_buffer() {
    let r = decode_campaign(&vec![0u8; 31]);
    assert_eq!(r.err(), Some(ErrorKind::MalformedRecord));
}

#[test]
fn decode_rejects_truncated_string() {
    let rec = sample_record();
    let bytes = encode_campaign(&rec);
    // cut inside the description field
    let cut = bytes[..32 + 4 + rec.name.len() + 4 + 3].to_vec();
    let r = decode_campaign(&cut);
    assert_eq!(r.err(), Some(ErrorKind::MalformedRecord));
}

#[test]
fn decode_rejects_overlong_length_prefix() {
    let mut bytes = vec![1u8; 32];
    // a name length far past the end of the buffer
    bytes.extend_from_slice(&[255, 255, 255, 255]);
    bytes.extend_from_slice(b"xy");
    let r = decode_campaign(&bytes);
    assert_eq!(r.err(), Some(ErrorKind::MalformedRecord));
}

#[test]
fn decode_rejects_missing_counter() {
    let rec = sample_record();
    let bytes = encode_campaign(&rec);
    let cut = bytes[..bytes.len() - 1].to_vec();
    let r = decode_campaign(&cut);
    assert_eq!(r.err(), Some(ErrorKind::MalformedRecord));
}

#[test]
fn decode_ignores_trailing_bytes() {
    let rec = sample_record();
    let mut bytes = encode_campaign(&rec);
    bytes.extend_from_slice(&[0xde, 0xad, 0xbe, 0xef]);
    let back = decode_campaign(&bytes).unwrap();
    assert_eq!(back.amount_donated, rec.amount_donated);
    assert_eq!(back.image_link, rec.image_link);
}

#[test]
fn borsh_u64_agrees() {
    let w = WithdrawRequest { amount: 987654321 };
    let ours = encode_withdraw(&w);
    let theirs = borsh::to_vec(&987654321u64).unwrap();
    assert_eq!(ours, theirs);
}

#[test]
fn borsh_record_agrees() {
    let admin: [u8; 32] = [5; 32];
    let name = String::from("festival");
    let description = String::from("a week of music");
    let image_link = String::from("https://example.org/f.jpg");
    let amount: u64 = 4242;

    let mut theirs = Vec::new();
    theirs.extend_from_slice(&borsh::to_vec(&admin).unwrap());
    theirs.extend_from_slice(&borsh::to_vec(&name).unwrap());
    theirs.extend_from_slice(&borsh::to_vec(&description).unwrap());
    theirs.extend_from_slice(&borsh::to_vec(&image_link).unwrap());
    theirs.extend_from_slice(&borsh::to_vec(&amount).unwrap());

    let rec = CampaignRecord {
        admin: admin.to_vec(),
        name: name.clone().into_bytes(),
        description: description.clone().into_bytes(),
        image_link: image_link.clone().into_bytes(),
        amount_donated: amount,
    };
    assert_eq!(encode_campaign(&rec), theirs);

    let back = decode_campaign(&theirs).unwrap();
    assert_eq!(back.admin, admin.to_vec());
    assert_eq!(back.name, name.into_bytes());
    assert_eq!(back.amount_donated, amount);
}
