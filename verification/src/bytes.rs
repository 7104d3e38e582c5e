use vstd::prelude::*;

verus! {

/// `n` zero bytes.
pub open spec fn zeros(n: nat) -> Seq<u8> {
    Seq::new(n, |i: int| 0u8)
}

/// The number that four bytes spell, least significant byte first.
pub open spec fn le_u32(b: Seq<u8>) -> int
    recommends
        b.len() == 4,
{
    b[0] + b[1] * 0x100 + b[2] * 0x1_0000 + b[3] * 0x100_0000
}

/// The number that eight bytes spell, most significant byte first.
pub open spec fn be_u64(b: Seq<u8>) -> int
    recommends
        b.len() == 8,
{
    b[0] * 0x100_0000_0000_0000 + b[1] * 0x1_0000_0000_0000 + b[2] * 0x100_0000_0000 + b[3]
        * 0x1_0000_0000 + b[4] * 0x100_0000 + b[5] * 0x1_0000 + b[6] * 0x100 + b[7]
}

/// The eight bytes of `x`, most significant byte first.
pub open spec fn be_bytes(x: u64) -> Seq<u8> {
    seq![
        (x / 0x100_0000_0000_0000) as u8,
        (x / 0x1_0000_0000_0000 % 0x100) as u8,
        (x / 0x100_0000_0000 % 0x100) as u8,
        (x / 0x1_0000_0000 % 0x100) as u8,
        (x / 0x100_0000 % 0x100) as u8,
        (x / 0x1_0000 % 0x100) as u8,
        (x / 0x100 % 0x100) as u8,
        (x % 0x100) as u8,
    ]
}

/// `s` with the bytes from `from` up to `to` taken out.
pub open spec fn without_range(s: Seq<u8>, from: int, to: int) -> Seq<u8>
    recommends
        0 <= from <= to <= s.len(),
{
    s.subrange(0, from) + s.subrange(to, s.len() as int)
}

/// `s` with its bytes from `from` on rotated to the right by `k`: the last
/// `k` bytes come to stand at `from`, the others move up behind them.
pub open spec fn rotated_right(s: Seq<u8>, from: int, k: int) -> Seq<u8>
    recommends
        0 <= from,
        0 <= k,
        from + k <= s.len(),
{
    s.subrange(0, from) + s.subrange(s.len() - k, s.len() as int) + s.subrange(from, s.len() - k)
}

/// The eight bytes of a number spell that number.
pub proof fn lemma_be_bytes_spell(x: u64)
    ensures
        be_bytes(x).len() == 8,
        be_u64(be_bytes(x)) == x,
{
    let a1: int = x as int / 0x100;
    let a2: int = x as int / 0x1_0000;
    let a3: int = x as int / 0x100_0000;
    let a4: int = x as int / 0x1_0000_0000;
    let a5: int = x as int / 0x100_0000_0000;
    let a6: int = x as int / 0x1_0000_0000_0000;
    let a7: int = x as int / 0x100_0000_0000_0000;
    assert(a2 == a1 / 0x100);
    assert(a3 == a2 / 0x100);
    assert(a4 == a3 / 0x100);
    assert(a5 == a4 / 0x100);
    assert(a6 == a5 / 0x100);
    assert(a7 == a6 / 0x100);
    assert(x == a1 * 0x100 + x % 0x100);
    assert(a1 == a2 * 0x100 + a1 % 0x100);
    assert(a2 == a3 * 0x100 + a2 % 0x100);
    assert(a3 == a4 * 0x100 + a3 % 0x100);
    assert(a4 == a5 * 0x100 + a4 % 0x100);
    assert(a5 == a6 * 0x100 + a5 % 0x100);
    assert(a6 == a7 * 0x100 + a6 % 0x100);
    assert(0 <= a7 < 0x100);
}

/// Reads the four bytes at `at` as a number, least significant byte first.
pub fn read_le_u32(buf: &[u8], at: usize) -> (r: u32)
    requires
        at + 4 <= buf.len(),
    ensures
        r == le_u32(buf@.subrange(at as int, at + 4)),
{
    let b0: u32 = buf[at] as u32;
    let b1: u32 = buf[at + 1] as u32;
    let b2: u32 = buf[at + 2] as u32;
    let b3: u32 = buf[at + 3] as u32;
    b0 + b1 * 0x100 + b2 * 0x1_0000 + b3 * 0x100_0000
}

/// Appends the eight bytes of `x`, most significant byte first.
pub fn push_be_u64(out: &mut Vec<u8>, x: u64)
    ensures
        final(out)@ == old(out)@ + be_bytes(x),
{
    out.push((x / 0x100_0000_0000_0000) as u8);
    out.push((x / 0x1_0000_0000_0000 % 0x100) as u8);
    out.push((x / 0x100_0000_0000 % 0x100) as u8);
    out.push((x / 0x1_0000_0000 % 0x100) as u8);
    out.push((x / 0x100_0000 % 0x100) as u8);
    out.push((x / 0x1_0000 % 0x100) as u8);
    out.push((x / 0x100 % 0x100) as u8);
    out.push((x % 0x100) as u8);
    assert(out@ =~= old(out)@ + be_bytes(x));
}

/// Appends `n` zero bytes.
pub fn push_zeros(out: &mut Vec<u8>, n: usize)
    ensures
        final(out)@ == old(out)@ + zeros(n as nat),
{
    let mut i: usize = 0;
    while i < n
        invariant
            i <= n,
            out@ == old(out)@ + zeros(i as nat),
        decreases n - i,
    {
        out.push(0u8);
        i += 1;
        assert(out@ =~= old(out)@ + zeros(i as nat));
    }
}

/// Appends a copy of `src`.
pub fn push_all(out: &mut Vec<u8>, src: &[u8])
    ensures
        final(out)@ == old(out)@ + src@,
{
    let mut i: usize = 0;
    while i < src.len()
        invariant
            i <= src.len(),
            out@ == old(out)@ + src@.subrange(0, i as int),
        decreases src.len() - i,
    {
        out.push(src[i]);
        i += 1;
        assert(out@ =~= old(out)@ + src@.subrange(0, i as int));
    }
    assert(src@.subrange(0, src.len() as int) =~= src@);
}

/// Takes the bytes from `from` up to `to` out of `buf`; what stood behind them
/// moves down.
pub fn remove_range(buf: &mut Vec<u8>, from: usize, to: usize)
    requires
        from <= to <= old(buf).len(),
    ensures
        final(buf)@ == without_range(old(buf)@, from as int, to as int),
{
    let len: usize = buf.len();
    let gap: usize = to - from;
    let mut i: usize = to;
    while i < len
        invariant
            to <= i <= len,
            gap == to - from,
            buf.len() == len,
            len == old(buf).len(),
            forall|j: int| 0 <= j < from ==> buf@[j] == old(buf)@[j],
            forall|j: int| from <= j < i - gap ==> buf@[j] == old(buf)@[j + gap],
            forall|j: int| i <= j < len ==> buf@[j] == old(buf)@[j],
        decreases len - i,
    {
        let b: u8 = buf[i];
        buf.set(i - gap, b);
        i += 1;
    }
    buf.truncate(len - gap);
    assert(buf@ =~= without_range(old(buf)@, from as int, to as int));
}

/// Rotates the bytes of `buf` from `from` on to the right by `k`.
pub fn rotate_right(buf: &mut Vec<u8>, from: usize, k: usize)
    requires
        from + k <= old(buf).len(),
    ensures
        final(buf)@ == rotated_right(old(buf)@, from as int, k as int),
{
    let len: usize = buf.len();
    let mut tail: Vec<u8> = Vec::new();
    let mut i: usize = len - k;
    while i < len
        invariant
            from <= len - k <= i <= len,
            buf@ == old(buf)@,
            len == buf.len(),
            tail@ == old(buf)@.subrange(len - k, i as int),
        decreases len - i,
    {
        tail.push(buf[i]);
        i += 1;
        assert(tail@ =~= old(buf)@.subrange(len - k, i as int));
    }
    let mut j: usize = len - k;
    while j > from
        invariant
            from <= j <= len - k,
            len == buf.len(),
            len == old(buf).len(),
            tail@ == old(buf)@.subrange(len - k, len as int),
            forall|m: int| 0 <= m < j ==> buf@[m] == old(buf)@[m],
            forall|m: int| j + k <= m < len ==> buf@[m] == old(buf)@[m - k],
        decreases j,
    {
        j -= 1;
        let b: u8 = buf[j];
        buf.set(j + k, b);
    }
    let mut t: usize = 0;
    while t < k
        invariant
            t <= k,
            from + k <= len,
            len == buf.len(),
            len == old(buf).len(),
            tail@ == old(buf)@.subrange(len - k, len as int),
            forall|m: int| 0 <= m < from ==> buf@[m] == old(buf)@[m],
            forall|m: int| from <= m < from + t ==> buf@[m] == old(buf)@[len - k + (m - from)],
            forall|m: int| from + k <= m < len ==> buf@[m] == old(buf)@[m - k],
        decreases k - t,
    {
        let b: u8 = tail[t];
        buf.set(from + t, b);
        t += 1;
    }
    assert(buf@ =~= rotated_right(old(buf)@, from as int, k as int));
}

} // verus!
