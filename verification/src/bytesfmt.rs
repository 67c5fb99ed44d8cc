//! Byte-level building blocks shared by the protocol encoders: big-endian
//! integer encodings and ASCII decimal renderings of small integers.
use vstd::prelude::*;

verus! {

/// The `n`-byte big-endian encoding of `x` (the low `8 * n` bits of `x`).
pub open spec fn be_bytes(x: nat, n: nat) -> Seq<u8>
    decreases n,
{
    if n == 0 {
        Seq::<u8>::empty()
    } else {
        be_bytes(x / 256, (n - 1) as nat) + seq![(x % 256) as u8]
    }
}

/// The two-byte big-endian encoding of a port or length field.
pub open spec fn be16(x: u16) -> Seq<u8> {
    be_bytes(x as nat, 2)
}

/// The four-byte big-endian encoding of a timestamp.
pub open spec fn be32(x: u32) -> Seq<u8> {
    be_bytes(x as nat, 4)
}

/// The eight-byte big-endian encoding of a minute counter.
pub open spec fn be64(x: u64) -> Seq<u8> {
    be_bytes(x as nat, 8)
}

/// A big-endian encoding is as long as was asked for.
pub proof fn lemma_be_bytes_len(x: nat, n: nat)
    ensures
        be_bytes(x, n).len() == n,
    decreases n,
{
    if n > 0 {
        lemma_be_bytes_len(x / 256, (n - 1) as nat);
    }
}

/// Appends the `n`-byte big-endian encoding of `x` (its low bits) to `out`.
pub fn push_be(out: &mut Vec<u8>, x: u64, n: usize)
    ensures
        final(out)@ == old(out)@ + be_bytes(x as nat, n as nat),
    decreases n,
{
    if n == 0 {
        assert(old(out)@ + be_bytes(x as nat, 0) =~= old(out)@);
    } else {
        push_be(out, x / 256, n - 1);
        out.push((x % 256) as u8);
        assert(final(out)@ =~= old(out)@ + be_bytes(x as nat, n as nat));
    }
}

/// Appends every byte of `src` to `out`, in order.
pub fn push_bytes(out: &mut Vec<u8>, src: &[u8])
    ensures
        final(out)@ == old(out)@ + src@,
{
    let n = src.len();
    let mut i: usize = 0;
    while i < n
        invariant
            i <= n,
            n == src@.len(),
            out@ == old(out)@ + src@.take(i as int),
        decreases n - i,
    {
        out.push(src[i]);
        i = i + 1;
        assert(out@ =~= old(out)@ + src@.take(i as int));
    }
    assert(out@ =~= old(out)@ + src@);
}

/// The ASCII decimal rendering of `x`, without leading zeros
/// (`0` renders as a single `0x30` byte).
pub open spec fn dec_bytes(x: nat) -> Seq<u8>
    decreases x,
{
    if x < 10 {
        seq![(0x30 + x) as u8]
    } else {
        dec_bytes(x / 10) + seq![(0x30 + x % 10) as u8]
    }
}

/// Appends the ASCII decimal rendering of `x` to `out`.
pub fn push_dec(out: &mut Vec<u8>, x: u16)
    ensures
        final(out)@ == old(out)@ + dec_bytes(x as nat),
    decreases x,
{
    if x < 10 {
        out.push(0x30 + x as u8);
        assert(final(out)@ =~= old(out)@ + dec_bytes(x as nat));
    } else {
        push_dec(out, x / 10);
        out.push(0x30 + (x % 10) as u8);
        assert(final(out)@ =~= old(out)@ + dec_bytes(x as nat));
    }
}

} // verus!
