use wire_codec::error::Error;
use wire_codec::hash::{H256, H256_LENGTH};
use wire_codec::stream::{DeserializerStream, SerializerStream};
use wire_codec::tx_out_target::{TxOutTarget, TxOutToKey, TxOutToScript, TxOutToScriptHash};

fn sample_bytes(seed: u8) -> Vec<u8> {
    let mut v = Vec::new();
    for i in 0..H256_LENGTH {
        v.push(seed.wrapping_add(i as u8));
    }
    v
}

fn encode_target(t: &TxOutTarget) -> Vec<u8> {
    let mut s = SerializerStream::new();
    t.serialize(&mut s);
    s.into_bytes()
}

fn decode_target(bytes: Vec<u8>) -> Result<TxOutTarget, Error> {
    let mut d = DeserializerStream::new(bytes);
    TxOutTarget::deserialize(&mut d)
}

#[test]
fn round_trip_to_key() {
    let key = H256::from_bytes(&sample_bytes(7)).unwrap();
    let original = TxOutTarget::ToKey(TxOutToKey { key });
    let decoded = decode_target(encode_target(&original)).unwrap();
    assert_eq!(decoded, original);
}

#[test]
fn round_trip_to_script() {
    let original = TxOutTarget::ToScript(TxOutToScript {
        script: vec![0xde, 0xad, 0xbe, 0xef],
    });
    let decoded = decode_target(encode_target(&original)).unwrap();
    assert_eq!(decoded, original);
}

#[test]
fn round_trip_to_script_empty() {
    let original = TxOutTarget::ToScript(TxOutToScript { script: Vec::new() });
    let decoded = decode_target(encode_target(&original)).unwrap();
    assert_eq!(decoded, original);
}

#[test]
fn round_trip_to_script_hash() {
    let hash = H256::from_bytes(&sample_bytes(42)).unwrap();
    let original = TxOutTarget::ToScriptHash(TxOutToScriptHash { hash });
    let decoded = decode_target(encode_target(&original)).unwrap();
    assert_eq!(decoded, original);
}

#[test]
fn tag_of_to_key_is_two() {
    let key = H256::from_bytes(&sample_bytes(0)).unwrap();
    let bytes = encode_target(&TxOutTarget::ToKey(TxOutToKey { key }));
    assert_eq!(bytes[0], 0x02);
    assert_eq!(bytes.len(), 1 + H256_LENGTH);
}

#[test]
fn tag_of_to_script_is_zero() {
    let bytes = encode_target(&TxOutTarget::ToScript(TxOutToScript {
        script: vec![0xde, 0xad, 0xbe, 0xef],
    }));
    assert_eq!(bytes, vec![0x00, 0x04, 0x00, 0x00, 0x00, 0xde, 0xad, 0xbe, 0xef]);
}

#[test]
fn tag_of_to_script_hash_is_one() {
    let hash = H256::from_bytes(&sample_bytes(0)).unwrap();
    let bytes = encode_target(&TxOutTarget::ToScriptHash(TxOutToScriptHash { hash }));
    assert_eq!(bytes[0], 0x01);
    assert_eq!(bytes.len(), 1 + H256_LENGTH);
}

#[test]
fn script_length_prefix_is_little_endian() {
    let bytes = encode_target(&TxOutTarget::ToScript(TxOutToScript {
        script: vec![0xaa; 258],
    }));
    assert_eq!(&bytes[0..5], &[0x00, 0x02, 0x01, 0x00, 0x00]);
    assert_eq!(bytes.len(), 5 + 258);
}

#[test]
fn unknown_tag_is_rejected_with_the_byte() {
    let r = decode_target(vec![0x03]);
    assert_eq!(r, Err(Error::UnknownDiscriminant(0x03)));
    let r = decode_target(vec![0xff, 0x01, 0x02]);
    assert_eq!(r, Err(Error::UnknownDiscriminant(0xff)));
}

#[test]
fn unknown_tag_consumes_no_further_bytes() {
    let mut d = DeserializerStream::new(vec![0x03, 0xaa, 0xbb]);
    let r = TxOutTarget::deserialize(&mut d);
    assert_eq!(r, Err(Error::UnknownDiscriminant(0x03)));
    assert_eq!(d.remaining(), 2);
}

#[test]
fn decode_target_from_empty_stream_is_truncated() {
    assert_eq!(decode_target(Vec::new()), Err(Error::TruncatedInput));
}

#[test]
fn decode_to_key_with_short_payload_is_truncated() {
    assert_eq!(decode_target(vec![0x02, 0x01, 0x02]), Err(Error::TruncatedInput));
}

#[test]
fn decode_script_with_short_body_is_truncated() {
    // header promises 10 bytes, only 2 follow
    let r = decode_target(vec![0x00, 0x0a, 0x00, 0x00, 0x00, 0x01, 0x02]);
    assert_eq!(r, Err(Error::TruncatedInput));
}

#[test]
fn truncated_script_body_consumes_tag_and_length() {
    let mut d = DeserializerStream::new(vec![0x00, 0x0a, 0x00, 0x00, 0x00, 0x01, 0x02]);
    let r = TxOutTarget::deserialize(&mut d);
    assert_eq!(r, Err(Error::TruncatedInput));
    assert_eq!(d.remaining(), 2);
}

#[test]
fn cloned_target_equals_original() {
    let key = H256::from_bytes(&sample_bytes(3)).unwrap();
    let original = TxOutTarget::ToKey(TxOutToKey { key });
    let copy = original.clone();
    assert_eq!(copy, original);
}

#[test]
fn decode_script_with_short_header_is_truncated() {
    let r = decode_target(vec![0x00, 0x0a, 0x00]);
    assert_eq!(r, Err(Error::TruncatedInput));
}
