use wire_codec::error::Error;
use wire_codec::hash::{H256, H256_LENGTH};
use wire_codec::storage::StorageEntry;
use wire_codec::stream::{DeserializerStream, SerializerStream};

fn pattern(seed: u8) -> Vec<u8> {
    let mut v = Vec::new();
    for i in 0..H256_LENGTH {
        v.push(seed.wrapping_mul(3).wrapping_add(i as u8));
    }
    v
}

#[test]
fn from_bytes_accepts_exactly_32() {
    let b = pattern(1);
    let h = H256::from_bytes(&b).unwrap();
    assert_eq!(h.as_bytes(), &b[..]);
}

#[test]
fn from_bytes_rejects_31() {
    assert_eq!(H256::from_bytes(&vec![0u8; 31]), Err(Error::InvalidLength));
}

#[test]
fn from_bytes_rejects_33() {
    assert_eq!(H256::from_bytes(&vec![0u8; 33]), Err(Error::InvalidLength));
}

#[test]
fn from_bytes_rejects_empty() {
    assert_eq!(H256::from_bytes(&Vec::new()), Err(Error::InvalidLength));
}

#[test]
fn blob_round_trip() {
    let b = pattern(9);
    let h = H256::from_bytes(&b).unwrap();
    let mut s = SerializerStream::new();
    h.encode_blob(&mut s);
    let wire = s.into_bytes();
    assert_eq!(wire, b);
    let mut d = DeserializerStream::new(wire);
    let back = H256::decode_blob(&mut d).unwrap();
    assert_eq!(back, h);
    assert_eq!(d.remaining(), 0);
}

#[test]
fn blob_decode_ignores_trailing_bytes() {
    let mut wire = pattern(5);
    wire.push(0x99);
    wire.push(0x98);
    let mut d = DeserializerStream::new(wire);
    let back = H256::decode_blob(&mut d).unwrap();
    assert_eq!(back.as_bytes(), &pattern(5)[..]);
    assert_eq!(d.remaining(), 2);
}

#[test]
fn blob_decode_of_short_stream_is_truncated() {
    let mut d = DeserializerStream::new(vec![0u8; 31]);
    assert_eq!(H256::decode_blob(&mut d), Err(Error::TruncatedInput));
    assert_eq!(d.remaining(), 31);
}

#[test]
fn storage_round_trip() {
    let h = H256::from_bytes(&pattern(13)).unwrap();
    let entry = h.to_storage_entry();
    assert_eq!(entry, StorageEntry::Buf(pattern(13)));
    let back = H256::from_storage_entry(&entry).unwrap();
    assert_eq!(back, h);
}

#[test]
fn storage_entry_of_wrong_kind_is_rejected() {
    assert_eq!(
        H256::from_storage_entry(&StorageEntry::U64(7)),
        Err(Error::WrongEntryKind)
    );
    assert_eq!(
        H256::from_storage_entry(&StorageEntry::Bool(true)),
        Err(Error::WrongEntryKind)
    );
}

#[test]
fn storage_buffer_of_wrong_width_is_rejected() {
    assert_eq!(
        H256::from_storage_entry(&StorageEntry::Buf(vec![0u8; 31])),
        Err(Error::InvalidLength)
    );
    assert_eq!(
        H256::from_storage_entry(&StorageEntry::Buf(vec![0u8; 33])),
        Err(Error::InvalidLength)
    );
}

#[test]
fn cloned_hash_equals_original() {
    let h = H256::from_bytes(&pattern(21)).unwrap();
    assert_eq!(h.clone(), h);
}

#[test]
fn default_is_all_zero() {
    let h = H256::default();
    assert_eq!(h.as_bytes(), &[0u8; 32][..]);
    assert_eq!(h, H256::new());
}

#[test]
fn default_round_trips_through_blob() {
    let h = H256::default();
    let mut s = SerializerStream::new();
    h.encode_blob(&mut s);
    let mut d = DeserializerStream::new(s.into_bytes());
    assert_eq!(H256::decode_blob(&mut d).unwrap(), H256::default());
}

#[test]
fn default_round_trips_through_storage() {
    let h = H256::default();
    let back = H256::from_storage_entry(&h.to_storage_entry()).unwrap();
    assert_eq!(back, H256::default());
}
