use vstd::prelude::*;

use crate::error::Error;

verus! {

/// Forward-only read cursor over a byte buffer.
///
/// Decoders consume bytes from the front; a failed read of a fixed width
/// leaves the cursor where it was.
pub struct DeserializerStream {
    data: Vec<u8>,
    pos: usize,
}

impl DeserializerStream {
    #[verifier::type_invariant]
    spec fn inv(self) -> bool {
        self.pos <= self.data@.len()
    }

    /// The bytes not yet consumed, in stream order.
    pub closed spec fn rem(self) -> Seq<u8> {
        self.data@.skip(self.pos as int)
    }

    /// Starts a cursor over the whole of `data`.
    pub fn new(data: Vec<u8>) -> (s: Self)
        ensures
            s.rem() == data@,
    {
        let s = DeserializerStream { data, pos: 0 };
        proof {
            assert(s.rem() =~= s.data@);
        }
        s
    }

    /// How many bytes remain to be read.
    pub fn remaining(&self) -> (n: usize)
        ensures
            n == self.rem().len(),
    {
        proof {
            use_type_invariant(self);
        }
        self.data.len() - self.pos
    }

    /// Reads one byte and advances past it.
    pub fn get_u8(&mut self) -> (r: Result<u8, Error>)
        ensures
            old(self).rem().len() > 0 ==> r == Ok::<u8, Error>(old(self).rem()[0])
                && final(self).rem() == old(self).rem().skip(1),
            old(self).rem().len() == 0 ==> r == Err::<u8, Error>(Error::TruncatedInput)
                && final(self).rem() == old(self).rem(),
    {
        proof {
            use_type_invariant(&*self);
        }
        if self.pos < self.data.len() {
            let b = self.data[self.pos];
            self.pos = self.pos + 1;
            proof {
                assert(self.rem() =~= old(self).rem().skip(1));
            }
            Ok(b)
        } else {
            Err(Error::TruncatedInput)
        }
    }

    /// Reads exactly `n` bytes and advances past them; on truncation the
    /// cursor does not move.
    pub fn get_bytes(&mut self, n: usize) -> (r: Result<Vec<u8>, Error>)
        ensures
            old(self).rem().len() >= n ==> (r matches Ok(v) && v@ == old(self).rem().take(n as int)
                && final(self).rem() == old(self).rem().skip(n as int)),
            old(self).rem().len() < n ==> r == Err::<Vec<u8>, Error>(Error::TruncatedInput)
                && final(self).rem() == old(self).rem(),
    {
        proof {
            use_type_invariant(&*self);
        }
        let len = self.data.len();
        if len - self.pos < n {
            return Err(Error::TruncatedInput);
        }
        let mut out: Vec<u8> = Vec::new();
        let mut i: usize = 0;
        proof {
            assert(out@ =~= self.data@.subrange(self.pos as int, self.pos as int));
        }
        while i < n
            invariant
                i <= n,
                self.data@.len() <= usize::MAX,
                self.pos as int + n as int <= self.data@.len(),
                self.data@ == old(self).data@,
                self.pos == old(self).pos,
                out@ == self.data@.subrange(self.pos as int, self.pos as int + i as int),
            decreases n - i,
        {
            let b = self.data[self.pos + i];
            out.push(b);
            i = i + 1;
            proof {
                assert(out@ =~= self.data@.subrange(self.pos as int, self.pos as int + i as int));
            }
        }
        self.pos = self.pos + n;
        proof {
            assert(out@ =~= old(self).rem().take(n as int));
            assert(self.rem() =~= old(self).rem().skip(n as int));
        }
        Ok(out)
    }
}

/// Little-endian byte image of a 32-bit value.
pub open spec fn u32_le_bytes(v: u32) -> Seq<u8> {
    seq![
        (v & 0xff) as u8,
        ((v >> 8) & 0xff) as u8,
        ((v >> 16) & 0xff) as u8,
        ((v >> 24) & 0xff) as u8,
    ]
}

/// The 32-bit value read from four little-endian bytes.
pub open spec fn u32_from_le_bytes(s: Seq<u8>) -> u32
    recommends
        s.len() >= 4,
{
    (s[0] as u32) | ((s[1] as u32) << 8) | ((s[2] as u32) << 16) | ((s[3] as u32) << 24)
}

/// Reading back the four little-endian bytes of a value yields the value.
pub proof fn lemma_u32_le_round_trip(v: u32)
    ensures
        u32_from_le_bytes(u32_le_bytes(v)) == v,
{
    assert((((v & 0xff) as u8) as u32) | (((((v >> 8) & 0xff) as u8) as u32) << 8)
        | (((((v >> 16) & 0xff) as u8) as u32) << 16)
        | (((((v >> 24) & 0xff) as u8) as u32) << 24) == v) by (bit_vector);
}

impl DeserializerStream {
    /// Reads a 32-bit little-endian value and advances past its four bytes;
    /// on truncation the cursor does not move.
    pub fn get_u32_le(&mut self) -> (r: Result<u32, Error>)
        ensures
            old(self).rem().len() >= 4 ==> r == Ok::<u32, Error>(
                u32_from_le_bytes(old(self).rem().take(4)),
            ) && final(self).rem() == old(self).rem().skip(4),
            old(self).rem().len() < 4 ==> r == Err::<u32, Error>(Error::TruncatedInput)
                && final(self).rem() == old(self).rem(),
    {
        match self.get_bytes(4) {
            Ok(v) => {
                let x = (v[0] as u32) | ((v[1] as u32) << 8) | ((v[2] as u32) << 16) | ((v[3]
                    as u32) << 24);
                Ok(x)
            },
            Err(e) => Err(e),
        }
    }
}

/// Append-only byte sink.
///
/// Encoders only ever push bytes onto the end; what was already written is
/// never revisited.
pub struct SerializerStream {
    buf: Vec<u8>,
}

impl SerializerStream {
    /// The bytes written so far, in order.
    pub closed spec fn out(self) -> Seq<u8> {
        self.buf@
    }

    /// Starts an empty sink.
    pub fn new() -> (s: Self)
        ensures
            s.out() == Seq::<u8>::empty(),
    {
        let s = SerializerStream { buf: Vec::new() };
        proof {
            assert(s.out() =~= Seq::<u8>::empty());
        }
        s
    }

    /// Appends one byte.
    pub fn put_u8(&mut self, v: u8)
        ensures
            final(self).out() == old(self).out().push(v),
    {
        self.buf.push(v);
    }

    /// Appends a run of bytes verbatim.
    pub fn put_bytes(&mut self, b: &[u8])
        ensures
            final(self).out() == old(self).out() + b@,
    {
        let mut i: usize = 0;
        while i < b.len()
            invariant
                i <= b@.len(),
                self.buf@ == old(self).buf@ + b@.take(i as int),
            decreases b@.len() - i,
        {
            let v = b[i];
            self.buf.push(v);
            i = i + 1;
            proof {
                assert(self.buf@ =~= old(self).buf@ + b@.take(i as int));
            }
        }
        proof {
            assert(self.buf@ =~= old(self).buf@ + b@);
        }
    }

    /// Appends a 32-bit value as four little-endian bytes.
    pub fn put_u32_le(&mut self, v: u32)
        ensures
            final(self).out() == old(self).out() + u32_le_bytes(v),
    {
        self.put_u8((v & 0xff) as u8);
        self.put_u8(((v >> 8) & 0xff) as u8);
        self.put_u8(((v >> 16) & 0xff) as u8);
        self.put_u8(((v >> 24) & 0xff) as u8);
        proof {
            assert(self.out() =~= old(self).out() + u32_le_bytes(v));
        }
    }

    /// Hands the written bytes over.
    pub fn into_bytes(self) -> (r: Vec<u8>)
        ensures
            r@ == self.out(),
    {
        self.buf
    }
}

} // verus!
