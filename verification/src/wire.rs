use vstd::prelude::*;

verus! {

/// The `width` low base-256 digits of `value`, most significant first.
pub open spec fn be_bytes(value: nat, width: nat) -> Seq<u8>
    decreases width,
{
    if width == 0 {
        Seq::empty()
    } else {
        be_bytes(value / 256, (width - 1) as nat).push((value % 256) as u8)
    }
}

/// The number that `bytes` spell in base 256, most significant first.
pub open spec fn be_value(bytes: Seq<u8>) -> nat
    decreases bytes.len(),
{
    if bytes.len() == 0 {
        0
    } else {
        be_value(bytes.drop_last()) * 256 + bytes.last() as nat
    }
}

/// 256 to the power `n`.
pub open spec fn pow256(n: nat) -> nat
    decreases n,
{
    if n == 0 {
        1
    } else {
        256 * pow256((n - 1) as nat)
    }
}

/// An encoding of `width` digits has `width` bytes.
pub proof fn lemma_be_bytes_len(value: nat, width: nat)
    ensures
        be_bytes(value, width).len() == width,
    decreases width,
{
    if width > 0 {
        lemma_be_bytes_len(value / 256, (width - 1) as nat);
    }
}

/// Reading back the digits of a number that fits in `width` digits gives the
/// number.
pub proof fn lemma_be_value_of_bytes(value: nat, width: nat)
    requires
        value < pow256(width),
    ensures
        be_value(be_bytes(value, width)) == value,
    decreases width,
{
    if width > 0 {
        let rest = value / 256;
        let shorter = (width - 1) as nat;
        lemma_be_bytes_len(rest, shorter);
        lemma_be_value_of_bytes(rest, shorter);
        let digits = be_bytes(value, width);
        assert(digits.drop_last() =~= be_bytes(rest, shorter));
        assert(digits.last() == (value % 256) as u8);
    }
}

/// Two numbers that fit in `width` digits and have the same digits are equal.
pub proof fn lemma_be_bytes_injective(a: nat, b: nat, width: nat)
    requires
        a < pow256(width),
        b < pow256(width),
        be_bytes(a, width) == be_bytes(b, width),
    ensures
        a == b,
{
    lemma_be_value_of_bytes(a, width);
    lemma_be_value_of_bytes(b, width);
}

/// The powers of 256 that bound the integer types of the wire format.
pub proof fn lemma_pow256_widths()
    ensures
        pow256(2) == 0x1_0000,
        pow256(4) == 0x1_0000_0000,
        pow256(16) == 0x1_0000_0000_0000_0000_0000_0000_0000_0000,
{
    reveal_with_fuel(pow256, 5);
    assert(pow256(4) == 0x1_0000_0000);
    assert(pow256(8) == 0x1_0000_0000 * pow256(4));
    assert(pow256(12) == 0x1_0000_0000 * pow256(8));
    assert(pow256(16) == 0x1_0000_0000 * pow256(12));
}

/// Big-endian encoding of `value` in exactly `width` bytes.
pub fn be_encode(value: u128, width: usize) -> (out: Vec<u8>)
    ensures
        out@ == be_bytes(value as nat, width as nat),
{
    let mut out: Vec<u8> = Vec::new();
    let mut filled: usize = 0;
    while filled < width
        invariant
            filled <= width,
            out.len() == filled,
        decreases width - filled,
    {
        out.push(0u8);
        filled = filled + 1;
    }
    let mut rest: u128 = value;
    let mut at: usize = width;
    while at > 0
        invariant
            at <= width,
            out.len() == width,
            be_bytes(value as nat, width as nat) == be_bytes(rest as nat, at as nat)
                + out@.subrange(at as int, width as int),
        decreases at,
    {
        let ghost before = out@;
        at = at - 1;
        out.set(at, (rest % 256) as u8);
        proof {
            assert(be_bytes(rest as nat, (at + 1) as nat) == be_bytes(
                (rest / 256) as nat,
                at as nat,
            ).push((rest % 256) as u8));
            assert(out@.subrange(at as int, width as int) =~= seq![(rest % 256) as u8]
                + before.subrange(at + 1, width as int));
            lemma_be_bytes_len((rest / 256) as nat, at as nat);
            assert(be_bytes(rest as nat, (at + 1) as nat) + before.subrange(at + 1, width as int)
                =~= be_bytes((rest / 256) as nat, at as nat) + out@.subrange(
                at as int,
                width as int,
            ));
        }
        rest = rest / 256;
    }
    proof {
        assert(be_bytes(rest as nat, 0) =~= Seq::<u8>::empty());
        assert(out@.subrange(0, width as int) =~= out@);
    }
    out
}

/// Appends `tail` to `out`.
pub fn append_bytes(out: &mut Vec<u8>, tail: &[u8])
    ensures
        final(out)@ == old(out)@ + tail@,
{
    let ghost start = out@;
    let mut i: usize = 0;
    while i < tail.len()
        invariant
            i <= tail.len(),
            out@ == start + tail@.subrange(0, i as int),
        decreases tail.len() - i,
    {
        out.push(tail[i]);
        i = i + 1;
        assert(out@ =~= start + tail@.subrange(0, i as int));
    }
    assert(tail@.subrange(0, tail.len() as int) =~= tail@);
}

/// Whether two byte strings are the same.
pub fn same_bytes(a: &[u8], b: &[u8]) -> (same: bool)
    ensures
        same == (a@ == b@),
{
    if a.len() != b.len() {
        return false;
    }
    let mut i: usize = 0;
    while i < a.len()
        invariant
            a.len() == b.len(),
            i <= a.len(),
            a@.subrange(0, i as int) == b@.subrange(0, i as int),
        decreases a.len() - i,
    {
        if a[i] != b[i] {
            return false;
        }
        i = i + 1;
        assert(a@.subrange(0, i as int) =~= a@.subrange(0, i - 1).push(a@[i - 1]));
        assert(b@.subrange(0, i as int) =~= b@.subrange(0, i - 1).push(b@[i - 1]));
    }
    assert(a@ =~= a@.subrange(0, a.len() as int));
    assert(b@ =~= b@.subrange(0, b.len() as int));
    true
}

/// Copies a slice into an array of its length.
pub(crate) fn to_array<const N: usize>(bytes: &[u8]) -> (out: [u8; N])
    requires
        bytes@.len() == N,
    ensures
        out@ == bytes@,
{
    let mut out: [u8; N] = [0u8; N];
    let mut i: usize = 0;
    while i < N
        invariant
            i <= N,
            bytes@.len() == N,
            forall|k: int| 0 <= k < i ==> out@[k] == bytes@[k],
        decreases N - i,
    {
        out[i] = bytes[i];
        i = i + 1;
    }
    assert(out@ =~= bytes@);
    out
}

} // verus!
