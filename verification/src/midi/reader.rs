use vstd::prelude::*;

verus! {

/// A forward-only cursor over a byte slice.
#[derive(Debug, Clone, Copy)]
pub struct ByteReader<'a> {
    pub bytes: &'a [u8],
    pub cursor: usize,
}

/// Big-endian value of two bytes.
pub open spec fn be16(b0: u8, b1: u8) -> int {
    b0 as int * 256 + b1 as int
}

/// Big-endian value of four bytes.
pub open spec fn be32(b0: u8, b1: u8, b2: u8, b3: u8) -> int {
    ((b0 as int * 256 + b1 as int) * 256 + b2 as int) * 256 + b3 as int
}

/// Decoding of a MIDI variable-length quantity from `rem`, having already consumed
/// `used` bytes worth `acc`: at most four bytes, seven bits each, the high bit marking
/// continuation. Yields the value and the number of bytes it spans.
pub open spec fn vlq_from(rem: Seq<u8>, used: nat, acc: int) -> Option<(int, nat)>
    decreases 4 - used,
{
    if used >= 4 || used >= rem.len() {
        None
    } else {
        let byte = rem[used as int];
        let next = acc * 128 + (byte % 128) as int;
        if byte < 128 {
            Some((next, used + 1))
        } else {
            vlq_from(rem, used + 1, next)
        }
    }
}

/// The variable-length quantity at the start of `rem`.
pub open spec fn spec_vlq(rem: Seq<u8>) -> Option<(int, nat)> {
    vlq_from(rem, 0, 0)
}

/// A decoded quantity fits in 28 bits and spans one to four of the available bytes.
pub proof fn lemma_spec_vlq_bounds(rem: Seq<u8>)
    ensures
        spec_vlq(rem) matches Some((v, n)) ==> 0 <= v < 268435456 && 1 <= n <= 4 && n
            <= rem.len(),
{
    reveal_with_fuel(pow128, 5);
    lemma_vlq_bounds(rem, 0, 0);
    lemma_vlq_len(rem, 0, 0);
    if let Some((v, n)) = spec_vlq(rem) {
        lemma_pow128_monotone(n, 4);
    }
}

proof fn lemma_vlq_len(rem: Seq<u8>, used: nat, acc: int)
    ensures
        vlq_from(rem, used, acc) matches Some((v, n)) ==> n <= rem.len(),
    decreases 4 - used,
{
    if used < 4 && used < rem.len() {
        let byte = rem[used as int];
        if byte >= 128 {
            lemma_vlq_len(rem, used + 1, acc * 128 + (byte % 128) as int);
        }
    }
}

proof fn lemma_vlq_bounds(rem: Seq<u8>, used: nat, acc: int)
    requires
        used <= 4,
        0 <= acc,
        acc < pow128(used),
    ensures
        vlq_from(rem, used, acc) matches Some((v, n)) ==> 0 <= v < pow128(n) && used < n <= 4,
    decreases 4 - used,
{
    if used < 4 && used < rem.len() {
        let byte = rem[used as int];
        let next = acc * 128 + (byte % 128) as int;
        assert(next < pow128(used + 1)) by {
            assert(pow128(used + 1) == pow128(used) * 128);
            assert(acc + 1 <= pow128(used));
            assert((acc + 1) * 128 <= pow128(used) * 128) by (nonlinear_arith)
                requires
                    acc + 1 <= pow128(used),
            ;
        }
        if byte >= 128 {
            lemma_vlq_bounds(rem, used + 1, next);
        }
    }
}

/// 128 raised to `n`.
pub open spec fn pow128(n: nat) -> int
    decreases n,
{
    if n == 0 {
        1
    } else {
        128 * pow128((n - 1) as nat)
    }
}

impl<'a> ByteReader<'a> {
    /// The bytes not yet consumed.
    pub open spec fn remaining(&self) -> Seq<u8> {
        self.bytes@.subrange(self.cursor as int, self.bytes@.len() as int)
    }

    pub open spec fn wf(&self) -> bool {
        self.cursor <= self.bytes@.len()
    }

    /// A reader positioned at the first byte of `bytes`.
    pub fn new(bytes: &'a [u8]) -> (r: Self)
        ensures
            r.wf(),
            r.bytes == bytes,
            r.cursor == 0,
            r.remaining() == bytes@,
    {
        proof {
            assert(bytes@.subrange(0, bytes@.len() as int) =~= bytes@);
        }
        ByteReader { bytes, cursor: 0 }
    }

    /// Whether every byte has been consumed.
    pub fn is_eof(&self) -> (eof: bool)
        requires
            self.wf(),
        ensures
            eof == (self.remaining().len() == 0),
    {
        self.cursor >= self.bytes.len()
    }

    /// Consumes one byte.
    pub fn read_u8(&mut self) -> (r: Option<u8>)
        requires
            old(self).wf(),
        ensures
            final(self).wf(),
            final(self).bytes == old(self).bytes,
            old(self).remaining().len() == 0 ==> r is None && *final(self) == *old(self),
            old(self).remaining().len() > 0 ==> r == Some(old(self).remaining()[0])
                && final(self).cursor == old(self).cursor + 1,
            final(self).remaining() == (if r is Some {
                old(self).remaining().drop_first()
            } else {
                old(self).remaining()
            }),
    {
        if self.cursor >= self.bytes.len() {
            return None;
        }
        let value = self.bytes[self.cursor];
        self.cursor = self.cursor + 1;
        proof {
            assert(self.remaining() =~= old(self).remaining().drop_first());
        }
        Some(value)
    }

    /// Consumes `len` bytes and hands them out, when that many remain.
    pub fn read_exact(&mut self, len: usize) -> (r: Option<&'a [u8]>)
        requires
            old(self).wf(),
        ensures
            final(self).wf(),
            final(self).bytes == old(self).bytes,
            len > old(self).remaining().len() ==> r is None && *final(self) == *old(self),
            len <= old(self).remaining().len() ==> r is Some && r.unwrap()@ == old(
                self,
            ).remaining().subrange(0, len as int) && final(self).cursor == old(self).cursor
                + len,
            final(self).remaining() == (if r is Some {
                old(self).remaining().subrange(len as int, old(self).remaining().len() as int)
            } else {
                old(self).remaining()
            }),
    {
        if len > self.bytes.len() - self.cursor {
            return None;
        }
        let end = self.cursor + len;
        let bytes: &'a [u8] = self.bytes;
        let out: &'a [u8] = &bytes[self.cursor..end];
        self.cursor = end;
        proof {
            assert(out@ =~= old(self).remaining().subrange(0, len as int));
            assert(self.remaining() =~= old(self).remaining().subrange(
                len as int,
                old(self).remaining().len() as int,
            ));
        }
        Some(out)
    }

    /// Consumes a big-endian `u16`.
    pub fn read_u16_be(&mut self) -> (r: Option<u16>)
        requires
            old(self).wf(),
        ensures
            final(self).wf(),
            final(self).bytes == old(self).bytes,
            old(self).remaining().len() < 2 ==> r is None && *final(self) == *old(self),
            old(self).remaining().len() >= 2 ==> r is Some && r.unwrap() == be16(
                old(self).remaining()[0],
                old(self).remaining()[1],
            ) && final(self).cursor == old(self).cursor + 2,
            final(self).remaining() == (if r is Some {
                old(self).remaining().subrange(2, old(self).remaining().len() as int)
            } else {
                old(self).remaining()
            }),
    {
        let bytes = match self.read_exact(2) {
            Some(bytes) => bytes,
            None => return None,
        };
        let value = (bytes[0] as u16) * 256 + (bytes[1] as u16);
        Some(value)
    }

    /// Consumes a big-endian `u32`.
    pub fn read_u32_be(&mut self) -> (r: Option<u32>)
        requires
            old(self).wf(),
        ensures
            final(self).wf(),
            final(self).bytes == old(self).bytes,
            old(self).remaining().len() < 4 ==> r is None && *final(self) == *old(self),
            old(self).remaining().len() >= 4 ==> r is Some && r.unwrap() == be32(
                old(self).remaining()[0],
                old(self).remaining()[1],
                old(self).remaining()[2],
                old(self).remaining()[3],
            ) && final(self).cursor == old(self).cursor + 4,
            final(self).remaining() == (if r is Some {
                old(self).remaining().subrange(4, old(self).remaining().len() as int)
            } else {
                old(self).remaining()
            }),
    {
        let bytes = match self.read_exact(4) {
            Some(bytes) => bytes,
            None => return None,
        };
        let b0 = bytes[0] as u32;
        let b1 = bytes[1] as u32;
        let b2 = bytes[2] as u32;
        let b3 = bytes[3] as u32;
        let value = ((b0 * 256 + b1) * 256 + b2) * 256 + b3;
        Some(value)
    }

    /// Consumes a MIDI variable-length quantity of at most four bytes.
    pub fn read_vlq(&mut self) -> (r: Option<u32>)
        requires
            old(self).wf(),
        ensures
            final(self).wf(),
            final(self).bytes == old(self).bytes,
            match spec_vlq(old(self).remaining()) {
                Some((v, n)) => r == Some(v as u32) && final(self).cursor == old(self).cursor
                    + n && final(self).remaining() == old(self).remaining().subrange(
                    n as int,
                    old(self).remaining().len() as int,
                ),
                None => r is None,
            },
    {
        let ghost rem = self.remaining();
        let ghost start = self.cursor;
        proof {
            lemma_vlq_bounds(rem, 0, 0);
            reveal_with_fuel(pow128, 5);
        }
        let mut value: u32 = 0;
        let mut count: usize = 0;
        while count < 4
            invariant
                self.wf(),
                self.bytes == old(self).bytes,
                rem == old(self).remaining(),
                start == old(self).cursor,
                count <= 4,
                count <= rem.len(),
                self.cursor == start + count,
                self.remaining() == rem.subrange(count as int, rem.len() as int),
                0 <= value < pow128(count as nat),
                spec_vlq(rem) == vlq_from(rem, count as nat, value as int),
                pow128(4) == 268435456,
            decreases 4 - count,
        {
            let byte = match self.read_u8() {
                Some(byte) => byte,
                None => {
                    return None;
                },
            };
            proof {
                assert(byte == rem[count as int]);
                assert(pow128((count + 1) as nat) == 128 * pow128(count as nat));
                assert(pow128(count as nat) <= pow128(4)) by {
                    lemma_pow128_monotone(count as nat, 4);
                }
            }
            let low = byte & 0x7F;
            proof {
                assert(byte & 0x7F == byte % 128) by (bit_vector);
                assert(value * 128 + (low as int) < pow128((count + 1) as nat)) by (nonlinear_arith)
                    requires
                        value + 1 <= pow128(count as nat),
                        low < 128,
                        pow128((count + 1) as nat) == 128 * pow128(count as nat),
                ;
                assert(pow128((count + 1) as nat) <= pow128(4)) by {
                    lemma_pow128_monotone((count + 1) as nat, 4);
                }
                assert(self.remaining() =~= rem.subrange(count + 1, rem.len() as int));
            }
            let next: u32 = value * 128 + (low as u32);
            value = next;
            count = count + 1;
            if byte < 0x80 {
                return Some(value);
            }
        }
        None
    }
}

proof fn lemma_pow128_monotone(a: nat, b: nat)
    requires
        a <= b,
    ensures
        pow128(a) <= pow128(b),
        pow128(a) >= 1,
    decreases b,
{
    lemma_pow128_pos(a);
    if a < b {
        lemma_pow128_monotone(a, (b - 1) as nat);
        lemma_pow128_pos((b - 1) as nat);
    }
}

proof fn lemma_pow128_pos(a: nat)
    ensures
        pow128(a) >= 1,
    decreases a,
{
    if a > 0 {
        lemma_pow128_pos((a - 1) as nat);
    }
}

} // verus!
