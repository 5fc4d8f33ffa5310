//! Fixed-width byte layout helpers shared by the instruction and state codecs.

use vstd::prelude::*;

verus! {

/// `n` zero bytes.
pub open spec fn zeros(n: nat) -> Seq<u8> {
    Seq::new(n, |i: int| 0u8)
}

/// Appends `src` to `buf`.
pub fn push_bytes(buf: &mut Vec<u8>, src: &[u8])
    ensures
        final(buf)@ == old(buf)@ + src@,
{
    let mut i: usize = 0;
    while i < src.len()
        invariant
            0 <= i <= src@.len(),
            buf@ == old(buf)@ + src@.subrange(0, i as int),
        decreases src@.len() - i,
    {
        buf.push(src[i]);
        assert(src@.subrange(0, i + 1) == src@.subrange(0, i as int).push(src@[i as int]));
        i = i + 1;
    }
    assert(src@.subrange(0, src@.len() as int) == src@);
}

/// Appends `n` zero bytes to `buf`.
pub fn push_zeros(buf: &mut Vec<u8>, n: usize)
    ensures
        final(buf)@ == old(buf)@ + zeros(n as nat),
{
    let mut i: usize = 0;
    while i < n
        invariant
            0 <= i <= n,
            buf@ == old(buf)@ + zeros(i as nat),
        decreases n - i,
    {
        buf.push(0u8);
        assert(zeros((i + 1) as nat) == zeros(i as nat).push(0u8));
        i = i + 1;
    }
}

/// The 32 bytes of `input` that start at `at`.
pub fn read_32(input: &[u8], at: usize) -> (r: [u8; 32])
    requires
        at + 32 <= input@.len(),
    ensures
        r@ == input@.subrange(at as int, at + 32),
{
    let mut r = [0u8; 32];
    let len = input.len();
    let mut i: usize = 0;
    while i < 32
        invariant
            at + 32 <= input@.len(),
            len == input@.len(),
            0 <= i <= 32,
            forall|j: int| 0 <= j < i ==> r@[j] == input@[at + j],
        decreases 32 - i,
    {
        r[i] = input[at + i];
        i = i + 1;
    }
    assert(r@ =~= input@.subrange(at as int, at + 32));
    r
}

/// The 20 bytes of `input` that start at `at`.
pub fn read_20(input: &[u8], at: usize) -> (r: [u8; 20])
    requires
        at + 20 <= input@.len(),
    ensures
        r@ == input@.subrange(at as int, at + 20),
{
    let mut r = [0u8; 20];
    let len = input.len();
    let mut i: usize = 0;
    while i < 20
        invariant
            at + 20 <= input@.len(),
            len == input@.len(),
            0 <= i <= 20,
            forall|j: int| 0 <= j < i ==> r@[j] == input@[at + j],
        decreases 20 - i,
    {
        r[i] = input[at + i];
        i = i + 1;
    }
    assert(r@ =~= input@.subrange(at as int, at + 20));
    r
}

/// The bytes of `input` from `start` to `end`, copied.
pub fn read_range(input: &[u8], start: usize, end: usize) -> (r: Vec<u8>)
    requires
        start <= end <= input@.len(),
    ensures
        r@ == input@.subrange(start as int, end as int),
{
    let mut r: Vec<u8> = Vec::new();
    let mut i: usize = start;
    while i < end
        invariant
            start <= i <= end <= input@.len(),
            r@ == input@.subrange(start as int, i as int),
        decreases end - i,
    {
        r.push(input[i]);
        assert(input@.subrange(start as int, i + 1) == input@.subrange(start as int, i as int).push(
            input@[i as int],
        ));
        i = i + 1;
    }
    r
}

/// The stored form of a flag: `1` for set, `0` for clear.
pub open spec fn flag_byte(b: bool) -> u8 {
    if b {
        1u8
    } else {
        0u8
    }
}

/// Overwrites the first `src.len()` bytes of `dst` with `src`.
pub fn write_prefix(dst: &mut [u8], src: &[u8])
    requires
        src@.len() <= old(dst)@.len(),
    ensures
        final(dst)@ == src@ + old(dst)@.subrange(src@.len() as int, old(dst)@.len() as int),
{
    let mut i: usize = 0;
    while i < src.len()
        invariant
            src@.len() <= old(dst)@.len(),
            dst@.len() == old(dst)@.len(),
            0 <= i <= src@.len(),
            forall|j: int| 0 <= j < i ==> dst@[j] == src@[j],
            forall|j: int| i <= j < dst@.len() ==> dst@[j] == old(dst)@[j],
        decreases src@.len() - i,
    {
        dst[i] = src[i];
        i = i + 1;
    }
    assert(dst@ =~= src@ + old(dst)@.subrange(src@.len() as int, old(dst)@.len() as int));
}

} // verus!
