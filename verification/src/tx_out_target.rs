use vstd::prelude::*;

use crate::error::Error;
use crate::hash::{dec_blob, H256, H256_LENGTH};
use crate::stream::{u32_from_le_bytes, u32_le_bytes, DeserializerStream, SerializerStream};

verus! {

/// Wire tag of `TxOutTarget::ToKey`. Fixed by the protocol, not by variant
/// order.
pub const TO_KEY: u8 = 0x02;

/// Wire tag of `TxOutTarget::ToScript`.
pub const TO_SCRIPT: u8 = 0x00;

/// Wire tag of `TxOutTarget::ToScriptHash`.
pub const TO_SCRIPT_HASH: u8 = 0x01;

/// Output payload addressed to a one-time key: 32 raw key bytes on the wire.
#[derive(Debug, Clone, PartialEq, Eq)]
pub struct TxOutToKey {
    pub key: H256,
}

/// Output payload carrying an explicit script: a 32-bit little-endian length
/// prefix followed by the script bytes.
#[derive(Debug, Clone, PartialEq, Eq)]
pub struct TxOutToScript {
    pub script: Vec<u8>,
}

/// Output payload addressed to the hash of a script: 32 raw bytes on the
/// wire.
#[derive(Debug, Clone, PartialEq, Eq)]
pub struct TxOutToScriptHash {
    pub hash: H256,
}

/// Transaction output target: a closed, tagged choice over the three payload
/// kinds, encoded as one discriminant byte followed by the payload's own
/// encoding.
#[derive(Debug, Clone, PartialEq, Eq)]
pub enum TxOutTarget {
    ToKey(TxOutToKey),
    ToScript(TxOutToScript),
    ToScriptHash(TxOutToScriptHash),
}

/// Spec-level shape of a target: which variant it is, and its payload bytes.
pub enum TargetView {
    ToKey(Seq<u8>),
    ToScript(Seq<u8>),
    ToScriptHash(Seq<u8>),
}

impl View for TxOutToKey {
    type V = Seq<u8>;

    open spec fn view(&self) -> Seq<u8> {
        self.key@
    }
}

impl View for TxOutToScript {
    type V = Seq<u8>;

    open spec fn view(&self) -> Seq<u8> {
        self.script@
    }
}

impl View for TxOutToScriptHash {
    type V = Seq<u8>;

    open spec fn view(&self) -> Seq<u8> {
        self.hash@
    }
}

impl View for TxOutTarget {
    type V = TargetView;

    open spec fn view(&self) -> TargetView {
        match self {
            TxOutTarget::ToKey(p) => TargetView::ToKey(p@),
            TxOutTarget::ToScript(p) => TargetView::ToScript(p@),
            TxOutTarget::ToScriptHash(p) => TargetView::ToScriptHash(p@),
        }
    }
}

/// Whether a target view is well formed: fixed-width payloads are exactly 32
/// bytes, and a script fits its 32-bit length prefix.
pub open spec fn wf_target(v: TargetView) -> bool {
    match v {
        TargetView::ToKey(k) => k.len() == H256_LENGTH,
        TargetView::ToScript(s) => s.len() <= u32::MAX,
        TargetView::ToScriptHash(h) => h.len() == H256_LENGTH,
    }
}

/// The fixed wire tag of a target view.
pub open spec fn tag_of(v: TargetView) -> u8 {
    match v {
        TargetView::ToKey(_) => TO_KEY,
        TargetView::ToScript(_) => TO_SCRIPT,
        TargetView::ToScriptHash(_) => TO_SCRIPT_HASH,
    }
}

/// The payload bytes of a target view, without the tag.
pub open spec fn enc_payload(v: TargetView) -> Seq<u8> {
    match v {
        TargetView::ToKey(k) => k,
        TargetView::ToScript(s) => u32_le_bytes(s.len() as u32) + s,
        TargetView::ToScriptHash(h) => h,
    }
}

/// The full wire encoding of a target: the tag byte, then the payload bytes.
pub open spec fn enc_target(v: TargetView) -> Seq<u8> {
    seq![tag_of(v)] + enc_payload(v)
}

/// What decoding a script payload from the head of `s` yields: the script
/// bytes and the count consumed, or a truncation error.
pub open spec fn dec_script(s: Seq<u8>) -> Result<(Seq<u8>, int), Error> {
    if s.len() < 4 {
        Err(Error::TruncatedInput)
    } else {
        let n = u32_from_le_bytes(s.take(4)) as int;
        if s.len() >= 4 + n {
            Ok((s.subrange(4, 4 + n), 4 + n))
        } else {
            Err(Error::TruncatedInput)
        }
    }
}

/// What decoding a full target from the head of `s` yields: the target view
/// and the count consumed, or the error. A byte outside the known tag set is
/// `UnknownDiscriminant` carrying that byte.
pub open spec fn dec_target(s: Seq<u8>) -> Result<(TargetView, int), Error> {
    if s.len() == 0 {
        Err(Error::TruncatedInput)
    } else {
        let tag = s[0];
        let rest = s.skip(1);
        if tag == TO_KEY {
            match dec_blob(rest) {
                Ok(p) => Ok((TargetView::ToKey(p.0), 1 + p.1)),
                Err(e) => Err(e),
            }
        } else if tag == TO_SCRIPT {
            match dec_script(rest) {
                Ok(p) => Ok((TargetView::ToScript(p.0), 1 + p.1)),
                Err(e) => Err(e),
            }
        } else if tag == TO_SCRIPT_HASH {
            match dec_blob(rest) {
                Ok(p) => Ok((TargetView::ToScriptHash(p.0), 1 + p.1)),
                Err(e) => Err(e),
            }
        } else {
            Err(Error::UnknownDiscriminant(tag))
        }
    }
}

impl TxOutToKey {
    /// Decodes the payload: 32 raw bytes from the cursor.
    pub fn deserialize(d: &mut DeserializerStream) -> (r: Result<TxOutToKey, Error>)
        ensures
            match dec_blob(old(d).rem()) {
                Ok(p) => r matches Ok(t) && t@ == p.0 && final(d).rem() == old(d).rem().skip(p.1),
                Err(e) => r matches Err(e2) && e2 == e && final(d).rem() == old(d).rem(),
            },
    {
        match H256::decode_blob(d) {
            Ok(h) => Ok(TxOutToKey { key: h }),
            Err(e) => Err(e),
        }
    }

    /// Encodes the payload: the 32 raw key bytes.
    pub fn serialize(&self, s: &mut SerializerStream)
        ensures
            final(s).out() == old(s).out() + self@,
    {
        self.key.encode_blob(s);
    }
}

impl TxOutToScriptHash {
    /// Decodes the payload: 32 raw bytes from the cursor.
    pub fn deserialize(d: &mut DeserializerStream) -> (r: Result<TxOutToScriptHash, Error>)
        ensures
            match dec_blob(old(d).rem()) {
                Ok(p) => r matches Ok(t) && t@ == p.0 && final(d).rem() == old(d).rem().skip(p.1),
                Err(e) => r matches Err(e2) && e2 == e && final(d).rem() == old(d).rem(),
            },
    {
        match H256::decode_blob(d) {
            Ok(h) => Ok(TxOutToScriptHash { hash: h }),
            Err(e) => Err(e),
        }
    }

    /// Encodes the payload: the 32 raw hash bytes.
    pub fn serialize(&self, s: &mut SerializerStream)
        ensures
            final(s).out() == old(s).out() + self@,
    {
        self.hash.encode_blob(s);
    }
}

impl TxOutToScript {
    /// Decodes the payload: a 32-bit little-endian length, then that many
    /// script bytes.
    pub fn deserialize(d: &mut DeserializerStream) -> (r: Result<TxOutToScript, Error>)
        ensures
            dec_script(old(d).rem()) matches Ok(p) ==> r matches Ok(t) && t@ == p.0
                && final(d).rem() == old(d).rem().skip(p.1),
            dec_script(old(d).rem()) matches Err(e) ==> r == Err::<TxOutToScript, Error>(e),
            old(d).rem().len() < 4 ==> final(d).rem() == old(d).rem(),
            old(d).rem().len() >= 4 && (dec_script(old(d).rem()) matches Err(_)) ==> final(d).rem()
                == old(d).rem().skip(4),
    {
        let n = match d.get_u32_le() {
            Ok(n) => n,
            Err(e) => {
                return Err(e);
            },
        };
        let bytes = match d.get_bytes(n as usize) {
            Ok(b) => b,
            Err(e) => {
                return Err(e);
            },
        };
        proof {
            let s0 = old(d).rem();
            assert(s0.skip(4).take(n as int) =~= s0.subrange(4, 4 + n as int));
            assert(s0.skip(4).skip(n as int) =~= s0.skip(4 + n as int));
        }
        Ok(TxOutToScript { script: bytes })
    }

    /// Encodes the payload: the script length as a 32-bit little-endian
    /// prefix, then the script bytes verbatim.
    pub fn serialize(&self, s: &mut SerializerStream)
        requires
            self@.len() <= u32::MAX,
        ensures
            final(s).out() == old(s).out() + u32_le_bytes(self@.len() as u32) + self@,
    {
        s.put_u32_le(self.script.len() as u32);
        s.put_bytes(self.script.as_slice());
    }
}

impl TxOutTarget {
    /// Decodes a target: one discriminant byte, then the payload the tag
    /// selects. A tag outside the known set is a hard error carrying the
    /// offending byte, and consumes nothing past that byte.
    pub fn deserialize(d: &mut DeserializerStream) -> (r: Result<TxOutTarget, Error>)
        ensures
            dec_target(old(d).rem()) matches Ok(p) ==> r matches Ok(t) && t@ == p.0
                && final(d).rem() == old(d).rem().skip(p.1),
            dec_target(old(d).rem()) matches Err(e) ==> r == Err::<TxOutTarget, Error>(e),
            old(d).rem().len() == 0 ==> final(d).rem() == old(d).rem(),
            dec_target(old(d).rem()) matches Err(Error::UnknownDiscriminant(_)) ==> final(d).rem()
                == old(d).rem().skip(1),
            old(d).rem().len() > 0 && (old(d).rem()[0] == TO_KEY || old(d).rem()[0]
                == TO_SCRIPT_HASH) && (dec_target(old(d).rem()) matches Err(_)) ==> final(d).rem()
                == old(d).rem().skip(1),
            old(d).rem().len() > 0 && old(d).rem()[0] == TO_SCRIPT && old(d).rem().len() < 5
                ==> final(d).rem() == old(d).rem().skip(1),
            old(d).rem().len() >= 5 && old(d).rem()[0] == TO_SCRIPT && (dec_target(old(d).rem())
                matches Err(_)) ==> final(d).rem() == old(d).rem().skip(5),
    {
        let tag = match d.get_u8() {
            Ok(t) => t,
            Err(e) => {
                return Err(e);
            },
        };
        proof {
            skip_of_skip(old(d).rem(), 1);
        }
        if tag == TO_KEY {
            match TxOutToKey::deserialize(d) {
                Ok(p) => Ok(TxOutTarget::ToKey(p)),
                Err(e) => Err(e),
            }
        } else if tag == TO_SCRIPT {
            match TxOutToScript::deserialize(d) {
                Ok(p) => Ok(TxOutTarget::ToScript(p)),
                Err(e) => Err(e),
            }
        } else if tag == TO_SCRIPT_HASH {
            match TxOutToScriptHash::deserialize(d) {
                Ok(p) => Ok(TxOutTarget::ToScriptHash(p)),
                Err(e) => Err(e),
            }
        } else {
            Err(Error::UnknownDiscriminant(tag))
        }
    }

    /// Encodes a target: the variant's fixed tag byte, then the payload's
    /// own encoding. Total for every well-typed value whose script fits the
    /// length prefix.
    pub fn serialize(&self, s: &mut SerializerStream)
        requires
            self@ matches TargetView::ToScript(sc) ==> sc.len() <= u32::MAX,
        ensures
            final(s).out() == old(s).out() + enc_target(self@),
    {
        match self {
            TxOutTarget::ToKey(p) => {
                s.put_u8(TO_KEY);
                p.serialize(s);
            },
            TxOutTarget::ToScript(p) => {
                s.put_u8(TO_SCRIPT);
                p.serialize(s);
            },
            TxOutTarget::ToScriptHash(p) => {
                s.put_u8(TO_SCRIPT_HASH);
                p.serialize(s);
            },
        }
        proof {
            assert(s.out() =~= old(s).out() + enc_target(self@));
        }
    }
}

/// Tag fidelity: the encoding of a target always starts with the fixed wire
/// tag of its variant — `ToScript` with 0x00, `ToScriptHash` with 0x01,
/// `ToKey` with 0x02 — independent of variant declaration order.
pub proof fn lemma_tag_fidelity(v: TargetView)
    ensures
        enc_target(v).len() >= 1,
        enc_target(v)[0] == tag_of(v),
{
}

/// Unknown tag: a stream whose first byte is outside the known tag set
/// decodes to `UnknownDiscriminant` carrying exactly that byte.
pub proof fn lemma_unknown_tag(s: Seq<u8>)
    requires
        s.len() > 0,
        s[0] != TO_KEY,
        s[0] != TO_SCRIPT,
        s[0] != TO_SCRIPT_HASH,
    ensures
        dec_target(s) == Err::<(TargetView, int), Error>(Error::UnknownDiscriminant(s[0])),
{
}

/// Round trip: decoding a stream that starts with the encoding of a
/// well-formed target yields that target back and consumes exactly its
/// bytes, whatever follows them.
pub proof fn lemma_target_round_trip(v: TargetView, suffix: Seq<u8>)
    requires
        wf_target(v),
    ensures
        dec_target(enc_target(v) + suffix) == Ok::<(TargetView, int), Error>(
            (v, enc_target(v).len() as int),
        ),
{
    let s = enc_target(v) + suffix;
    let rest = s.skip(1);
    assert(rest =~= enc_payload(v) + suffix);
    match v {
        TargetView::ToKey(k) => {
            assert(rest.take(H256_LENGTH as int) =~= k);
        },
        TargetView::ToScript(sc) => {
            let prefix = u32_le_bytes(sc.len() as u32);
            assert(rest.take(4) =~= prefix);
            crate::stream::lemma_u32_le_round_trip(sc.len() as u32);
            let n = u32_from_le_bytes(rest.take(4)) as int;
            assert(n == sc.len());
            assert(rest.subrange(4, 4 + n) =~= sc);
        },
        TargetView::ToScriptHash(h) => {
            assert(rest.take(H256_LENGTH as int) =~= h);
        },
    }
}

/// After `skip(a)`, skipping further is skipping once from the start.
proof fn skip_of_skip(s: Seq<u8>, a: int)
    requires
        0 <= a <= s.len(),
    ensures
        forall|b: int|
            0 <= b <= s.len() - a ==> #[trigger] s.skip(a).skip(b) == s.skip(a + b),
{
    assert forall|b: int| 0 <= b <= s.len() - a implies #[trigger] s.skip(a).skip(b) == s.skip(
        a + b,
    ) by {
        assert(s.skip(a).skip(b) =~= s.skip(a + b));
    }
}

} // verus!
