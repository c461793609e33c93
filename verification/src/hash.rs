use vstd::prelude::*;

use crate::error::Error;
use crate::storage::{EntryView, StorageEntry};
use crate::stream::{DeserializerStream, SerializerStream};

verus! {

/// Width of a 256-bit hash in bytes.
pub const H256_LENGTH: usize = 32;

/// A 256-bit hash: an opaque value of exactly 32 bytes.
///
/// Any bit pattern is a legal hash, including the all-zero default. Equality
/// is byte-wise. The value crosses two codec boundaries: the raw blob codec
/// (fixed width, no framing) and the storage-entry format (self-describing
/// buffer entry).
#[derive(Debug, PartialEq, Eq)]
pub struct H256 {
    bytes: Vec<u8>,
}

impl View for H256 {
    type V = Seq<u8>;

    closed spec fn view(&self) -> Seq<u8> {
        self.bytes@
    }
}

impl H256 {
    /// A hash always holds exactly 32 bytes.
    #[verifier::type_invariant]
    pub open spec fn wf(self) -> bool {
        self@.len() == H256_LENGTH
    }
}

/// What decoding a fixed 32-byte blob from the head of `s` yields: the 32
/// bytes and the count consumed, or a truncation error.
pub open spec fn dec_blob(s: Seq<u8>) -> Result<(Seq<u8>, int), Error> {
    if s.len() >= H256_LENGTH {
        Ok((s.take(H256_LENGTH as int), H256_LENGTH as int))
    } else {
        Err(Error::TruncatedInput)
    }
}

/// What wrapping a hash's bytes as a storage entry yields.
pub open spec fn spec_to_storage(h: Seq<u8>) -> EntryView {
    EntryView::Buf(h)
}

/// What decoding a hash out of a storage entry yields: the bytes of a
/// 32-byte buffer entry, `InvalidLength` for a buffer of any other width,
/// and `WrongEntryKind` for every non-buffer entry.
pub open spec fn spec_from_storage(e: EntryView) -> Result<Seq<u8>, Error> {
    match e {
        EntryView::Buf(b) => if b.len() == H256_LENGTH {
            Ok(b)
        } else {
            Err(Error::InvalidLength)
        },
        _ => Err(Error::WrongEntryKind),
    }
}

impl H256 {
    /// The all-zero hash.
    pub fn new() -> (h: H256)
        ensures
            h@.len() == H256_LENGTH,
            forall|i: int| 0 <= i < H256_LENGTH ==> h@[i] == 0,
    {
        let mut v: Vec<u8> = Vec::new();
        let mut i: usize = 0;
        while i < H256_LENGTH
            invariant
                i <= H256_LENGTH,
                v@.len() == i,
                forall|j: int| 0 <= j < i ==> v@[j] == 0,
            decreases H256_LENGTH - i,
        {
            v.push(0u8);
            i = i + 1;
        }
        H256 { bytes: v }
    }

    /// Copies a hash out of a byte buffer; the buffer must be exactly 32
    /// bytes, and any other width is a typed `InvalidLength` error.
    pub fn from_bytes(bytes: &[u8]) -> (r: Result<H256, Error>)
        ensures
            bytes@.len() == H256_LENGTH ==> (r matches Ok(h) && h@ == bytes@),
            bytes@.len() != H256_LENGTH ==> r == Err::<H256, Error>(Error::InvalidLength),
    {
        if bytes.len() == H256_LENGTH {
            let v = vstd::slice::slice_to_vec(bytes);
            Ok(H256 { bytes: v })
        } else {
            Err(Error::InvalidLength)
        }
    }

    /// The 32 bytes of the hash.
    pub fn as_bytes(&self) -> (r: &[u8])
        ensures
            r@ == self@,
            r@.len() == H256_LENGTH,
    {
        proof {
            use_type_invariant(self);
        }
        self.bytes.as_slice()
    }

    /// Reads exactly 32 raw bytes forward from the cursor, with no prefix
    /// and no tag; fails without moving the cursor if fewer remain.
    pub fn decode_blob(d: &mut DeserializerStream) -> (r: Result<H256, Error>)
        ensures
            match dec_blob(old(d).rem()) {
                Ok(p) => r matches Ok(h) && h@ == p.0
                    && final(d).rem() == old(d).rem().skip(p.1),
                Err(e) => r matches Err(e2) && e2 == e && final(d).rem() == old(d).rem(),
            },
    {
        match d.get_bytes(H256_LENGTH) {
            Ok(v) => Ok(H256 { bytes: v }),
            Err(e) => Err(e),
        }
    }

    /// Appends the 32 raw bytes verbatim to the sink; no framing.
    pub fn encode_blob(&self, s: &mut SerializerStream)
        ensures
            final(s).out() == old(s).out() + self@,
            self@.len() == H256_LENGTH,
    {
        proof {
            use_type_invariant(self);
        }
        s.put_bytes(self.bytes.as_slice());
    }

    /// Wraps the 32 bytes as a variable-length buffer entry of the storage
    /// format.
    pub fn to_storage_entry(&self) -> (r: StorageEntry)
        ensures
            r@ == spec_to_storage(self@),
            self@.len() == H256_LENGTH,
    {
        proof {
            use_type_invariant(self);
        }
        let v = vstd::slice::slice_to_vec(self.bytes.as_slice());
        StorageEntry::Buf(v)
    }

    /// Reads a hash back out of a storage entry: only a buffer entry of
    /// exactly 32 bytes is accepted; any other buffer width is
    /// `InvalidLength` and any other entry kind is `WrongEntryKind`.
    pub fn from_storage_entry(entry: &StorageEntry) -> (r: Result<H256, Error>)
        ensures
            match spec_from_storage(entry@) {
                Ok(b) => r matches Ok(h) && h@ == b,
                Err(e) => r matches Err(e2) && e2 == e,
            },
    {
        match entry {
            StorageEntry::Buf(v) => {
                if v.len() == H256_LENGTH {
                    let copy = vstd::slice::slice_to_vec(v.as_slice());
                    Ok(H256 { bytes: copy })
                } else {
                    Err(Error::InvalidLength)
                }
            },
            _ => Err(Error::WrongEntryKind),
        }
    }
}

impl Clone for H256 {
    /// A cloned hash holds the same 32 bytes.
    fn clone(&self) -> (res: Self)
        ensures
            res@ == self@,
    {
        proof {
            use_type_invariant(self);
        }
        H256 { bytes: vstd::slice::slice_to_vec(self.bytes.as_slice()) }
    }
}

impl Default for H256 {
    /// The default hash is the all-zero value.
    fn default() -> (h: Self)
        ensures
            h@.len() == H256_LENGTH,
            forall|i: int| 0 <= i < H256_LENGTH ==> h@[i] == 0,
    {
        H256::new()
    }
}

/// Blob round trip: a stream that starts with the 32 bytes of a hash decodes
/// back to exactly those bytes and consumes exactly 32, whatever follows.
pub proof fn lemma_blob_round_trip(b: Seq<u8>, suffix: Seq<u8>)
    requires
        b.len() == H256_LENGTH,
    ensures
        dec_blob(b + suffix) == Ok::<(Seq<u8>, int), Error>((b, H256_LENGTH as int)),
{
    assert((b + suffix).take(H256_LENGTH as int) =~= b);
}

/// Storage round trip: wrapping a valid hash as a storage entry and decoding
/// it back yields the same bytes.
pub proof fn lemma_storage_round_trip(h: Seq<u8>)
    requires
        h.len() == H256_LENGTH,
    ensures
        spec_from_storage(spec_to_storage(h)) == Ok::<Seq<u8>, Error>(h),
{
}

} // verus!
