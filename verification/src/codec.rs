//! Byte strings in buffers of fixed size: the string in front, its length
//! kept beside the buffer, zeros behind.

use vstd::prelude::*;

verus! {

/// `src`, cut to `n` bytes if it is longer, then filled up with zeros to `n` bytes:
/// what a buffer of `n` bytes holds after `src` was written to it.
pub open spec fn zero_padded(src: Seq<u8>, n: nat) -> Seq<u8> {
    Seq::new(
        n,
        |i: int|
            if i < src.len() {
                src[i]
            } else {
                0u8
            },
    )
}

/// Whether `buf` with the length prefix `len` is the encoding of some byte
/// string: the first `len` bytes are the string, every byte after them is zero.
pub open spec fn is_encoding(buf: Seq<u8>, len: nat) -> bool {
    len <= buf.len() && buf == zero_padded(buf.take(len as int), buf.len())
}

/// Writes `src` to the start of `dst` and zeros the rest of `dst`. A `src`
/// longer than `dst` is cut to the length of `dst`.
pub fn write_fixed<const N: usize>(dst: &mut [u8; N], src: &[u8])
    ensures
        final(dst)@ == zero_padded(src@, N as nat),
{
    let len = if N <= src.len() {
        N
    } else {
        src.len()
    };
    let mut i: usize = 0;
    while i < len
        invariant
            i <= len <= N,
            len <= src@.len(),
            forall|j: int| 0 <= j < i ==> dst@[j] == src@[j],
        decreases len - i,
    {
        dst[i] = src[i];
        i += 1;
    }
    while i < N
        invariant
            len <= i <= N,
            len <= src@.len(),
            len == N || len == src@.len(),
            forall|j: int| 0 <= j < len ==> dst@[j] == src@[j],
            forall|j: int| len <= j < i ==> dst@[j] == 0,
        decreases N - i,
    {
        dst[i] = 0;
        i += 1;
    }
    assert(dst@ =~= zero_padded(src@, N as nat));
}

/// Reads the byte string that `buf` holds under the length prefix `len`.
/// `None` where `buf` is no encoding: `len` is past the end of the buffer or
/// a byte after the string is not zero.
pub fn read_fixed<const N: usize>(buf: &[u8; N], len: u8) -> (res: Option<Vec<u8>>)
    ensures
        res is Some <==> is_encoding(buf@, len as nat),
        res matches Some(bytes) ==> bytes@ == buf@.take(len as int),
{
    let n = len as usize;
    if n > N {
        return None;
    }
    let mut out: Vec<u8> = Vec::new();
    let mut i: usize = 0;
    while i < n
        invariant
            i <= n <= N,
            out@ == buf@.take(i as int),
        decreases n - i,
    {
        out.push(buf[i]);
        assert(buf@.take(i as int).push(buf@[i as int]) =~= buf@.take(i + 1));
        i += 1;
    }
    while i < N
        invariant
            n == len,
            n <= i <= N,
            out@ == buf@.take(n as int),
            forall|j: int| n <= j < i ==> buf@[j] == 0,
        decreases N - i,
    {
        if buf[i] != 0 {
            proof {
                let padded = zero_padded(buf@.take(n as int), buf@.len());
                assert(padded[i as int] == 0);
            }
            return None;
        }
        i += 1;
    }
    assert(buf@ =~= zero_padded(buf@.take(n as int), buf@.len()));
    Some(out)
}

/// What was written is what is read: a buffer that `write_fixed` filled from
/// `src` decodes to `src` under the length of `src`, when `src` fits.
pub proof fn lemma_write_then_read(src: Seq<u8>, n: nat)
    requires
        src.len() <= n,
    ensures
        is_encoding(zero_padded(src, n), src.len()),
        zero_padded(src, n).take(src.len() as int) == src,
{
    assert(zero_padded(src, n).take(src.len() as int) =~= src);
    assert(zero_padded(src, n) =~= zero_padded(zero_padded(src, n).take(src.len() as int), n));
}

/// Whether `bytes` starts with `prefix`.
pub fn starts_with(bytes: &[u8], prefix: &[u8]) -> (found: bool)
    ensures
        found == prefix@.is_prefix_of(bytes@),
{
    if prefix.len() > bytes.len() {
        return false;
    }
    let mut i: usize = 0;
    while i < prefix.len()
        invariant
            i <= prefix@.len() <= bytes@.len(),
            forall|j: int| 0 <= j < i ==> bytes@[j] == prefix@[j],
        decreases prefix@.len() - i,
    {
        if bytes[i] != prefix[i] {
            assert(bytes@.subrange(0, prefix@.len() as int)[i as int] != prefix@[i as int]);
            return false;
        }
        i += 1;
    }
    assert(prefix@ =~= bytes@.subrange(0, prefix@.len() as int));
    true
}

} // verus!
