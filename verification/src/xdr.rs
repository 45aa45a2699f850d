//! The part of XDR that envelopes and their payloads are written in.
//!
//! Numbers are big-endian. A value of the ledger starts with four bytes that
//! name its kind; bytes and symbols follow with their length, their content and
//! zeros up to a multiple of four.
use vstd::prelude::*;
use vstd::string::*;

verus! {

/// Kind of a byte string.
pub const KIND_BYTES: u32 = 13;

/// Kind of a symbol.
pub const KIND_SYMBOL: u32 = 15;

/// Kind of a vector.
pub const KIND_VEC: u32 = 16;

/// Kind of a map.
pub const KIND_MAP: u32 = 17;

/// The last `k` base-256 digits of `n`, most significant first.
pub open spec fn be_bytes(n: nat, k: nat) -> Seq<u8>
    decreases k,
{
    if k == 0 {
        seq![]
    } else {
        be_bytes(n / 256, (k - 1) as nat).push((n % 256) as u8)
    }
}

/// The number whose base-256 digits are `s`.
pub open spec fn be_value(s: Seq<u8>) -> nat
    decreases s.len(),
{
    if s.len() == 0 {
        0
    } else {
        be_value(s.drop_last()) * 256 + s.last() as nat
    }
}

pub open spec fn be32(n: nat) -> Seq<u8> {
    be_bytes(n, 4)
}

/// Zeros that bring `len` bytes up to a multiple of four.
pub open spec fn padding(len: nat) -> Seq<u8> {
    Seq::new(((4 - len % 4) % 4) as nat, |i: int| 0u8)
}

/// A byte string or a symbol.
pub open spec fn opaque_xdr(kind: u32, body: Seq<u8>) -> Seq<u8> {
    be32(kind as nat) + be32(body.len()) + body + padding(body.len())
}

/// The bytes of an ASCII text.
pub open spec fn ascii(text: Seq<char>) -> Seq<u8> {
    Seq::new(text.len(), |i: int| text[i] as u8)
}

pub open spec fn symbol_xdr(name: Seq<char>) -> Seq<u8> {
    opaque_xdr(KIND_SYMBOL, ascii(name))
}

pub open spec fn bytes_xdr(body: Seq<u8>) -> Seq<u8> {
    opaque_xdr(KIND_BYTES, body)
}

/// An enum value without fields: a vector, present, with one element, the
/// variant's name as a symbol.
pub open spec fn unit_variant_xdr(tag: Seq<char>) -> Seq<u8> {
    be32(KIND_VEC as nat) + be32(1) + be32(1) + symbol_xdr(tag)
}

pub proof fn lemma_be_bytes_len(n: nat, k: nat)
    ensures
        be_bytes(n, k).len() == k,
    decreases k,
{
    if k > 0 {
        lemma_be_bytes_len(n / 256, (k - 1) as nat);
    }
}

/// How long an enum value without fields is.
pub proof fn lemma_unit_variant_len(tag: Seq<char>)
    ensures
        unit_variant_xdr(tag).len() == 20 + tag.len() + padding(tag.len()).len(),
{
    lemma_be_bytes_len(KIND_VEC as nat, 4);
    lemma_be_bytes_len(1, 4);
    lemma_be_bytes_len(KIND_SYMBOL as nat, 4);
    lemma_be_bytes_len(tag.len(), 4);
}

/// Base 256 to the power of `k`.
pub open spec fn pow256(k: nat) -> nat
    decreases k,
{
    if k == 0 {
        1
    } else {
        256 * pow256((k - 1) as nat)
    }
}

/// A number below `256^k` is read back from its `k` digits.
pub proof fn lemma_be_value_of_bytes(n: nat, k: nat)
    requires
        n < pow256(k),
    ensures
        be_value(be_bytes(n, k)) == n,
    decreases k,
{
    if k > 0 {
        lemma_be_value_of_bytes(n / 256, (k - 1) as nat);
        assert(be_bytes(n, k).drop_last() =~= be_bytes(n / 256, (k - 1) as nat));
    }
}

pub proof fn lemma_be_value_bound(s: Seq<u8>)
    ensures
        be_value(s) < pow256(s.len()),
    decreases s.len(),
{
    if s.len() > 0 {
        lemma_be_value_bound(s.drop_last());
    }
}

pub proof fn lemma_pow256_values()
    ensures
        pow256(4) == 0x1_0000_0000,
        pow256(8) == 0x1_0000_0000_0000_0000,
        pow256(16) == 0x1_0000_0000_0000_0000_0000_0000_0000_0000,
{
    reveal_with_fuel(pow256, 17);
}

pub proof fn lemma_pow256_monotonic(j: nat, k: nat)
    requires
        j <= k,
    ensures
        pow256(j) <= pow256(k),
    decreases k,
{
    if j < k {
        lemma_pow256_monotonic(j, (k - 1) as nat);
    }
}

/// Write the last `k` digits of `n`.
pub fn push_be(out: &mut Vec<u8>, n: u128, k: usize)
    ensures
        final(out)@ == old(out)@ + be_bytes(n as nat, k as nat),
    decreases k,
{
    if k > 0 {
        push_be(out, n / 256, k - 1);
        out.push((n % 256) as u8);
    }
}

/// Read the `k` digits that start at `start`.
pub fn read_be(bytes: &[u8], start: usize, k: usize) -> (r: u128)
    requires
        k <= 16,
        start + k <= bytes.len(),
    ensures
        r == be_value(bytes@.subrange(start as int, start + k)),
    decreases k,
{
    if k == 0 {
        return 0;
    }
    let ghost digits = bytes@.subrange(start as int, start + k);
    let high: u128 = read_be(bytes, start, k - 1);
    proof {
        assert(digits.drop_last() =~= bytes@.subrange(start as int, start + k - 1));
        lemma_be_value_bound(digits.drop_last());
        lemma_pow256_monotonic((k - 1) as nat, 15);
        lemma_pow256_values();
    }
    high * 256 + bytes[start + (k - 1)] as u128
}

/// Write `body`.
pub fn push_bytes(out: &mut Vec<u8>, body: &[u8])
    ensures
        final(out)@ == old(out)@ + body@,
{
    let ghost before = out@;
    let mut i: usize = 0;
    while i < body.len()
        invariant
            i <= body.len(),
            out@ == before + body@.take(i as int),
        decreases body.len() - i,
    {
        out.push(body[i]);
        i = i + 1;
        assert(body@.take(i as int) =~= body@.take(i - 1).push(body@[i - 1]));
    }
    assert(body@.take(i as int) =~= body@);
}

/// Write a byte string or a symbol.
pub fn push_opaque(out: &mut Vec<u8>, kind: u32, body: &[u8])
    ensures
        final(out)@ == old(out)@ + opaque_xdr(kind, body@),
{
    let ghost before = out@;
    push_be(out, kind as u128, 4);
    push_be(out, body.len() as u128, 4);
    push_bytes(out, body);
    let pad: usize = (4 - body.len() % 4) % 4;
    let mut i: usize = 0;
    while i < pad
        invariant
            i <= pad,
            pad == (4 - body@.len() % 4) % 4,
            out@ == before + be32(kind as nat) + be32(body@.len()) + body@ + Seq::new(
                i as nat,
                |j: int| 0u8,
            ),
        decreases pad - i,
    {
        out.push(0);
        i = i + 1;
        assert(Seq::new(i as nat, |j: int| 0u8) =~= Seq::new((i - 1) as nat, |j: int| 0u8).push(
            0u8,
        ));
    }
}

/// Write a symbol.
pub fn push_symbol(out: &mut Vec<u8>, name: &str)
    requires
        name.is_ascii(),
    ensures
        final(out)@ == old(out)@ + symbol_xdr(name@),
{
    proof {
        is_ascii_spec_bytes(name);
        assert(name.spec_bytes() =~= ascii(name@));
    }
    push_opaque(out, KIND_SYMBOL, name.as_bytes());
}

/// Write an enum value without fields.
pub fn push_unit_variant(out: &mut Vec<u8>, tag: &str)
    requires
        tag.is_ascii(),
    ensures
        final(out)@ == old(out)@ + unit_variant_xdr(tag@),
{
    push_be(out, KIND_VEC as u128, 4);
    push_be(out, 1, 4);
    push_be(out, 1, 4);
    push_symbol(out, tag);
}

/// Whether two byte strings are the same.
pub fn same_bytes(a: &[u8], b: &[u8]) -> (r: bool)
    ensures
        r == (a@ == b@),
{
    if a.len() != b.len() {
        return false;
    }
    let mut i: usize = 0;
    while i < a.len()
        invariant
            a@.len() == b@.len(),
            i <= a.len(),
            forall|j: int| 0 <= j < i ==> a@[j] == b@[j],
        decreases a.len() - i,
    {
        if a[i] != b[i] {
            return false;
        }
        i = i + 1;
    }
    assert(a@ =~= b@);
    true
}

/// Big-endian digits: none of no number, and one more digit is the remainder by
/// 256 behind the digits of the quotient. A number is the digits before the last
/// times 256, plus the last. The two undo each other.
pub proof fn law_digits(n: nat, k: nat, s: Seq<u8>, digit: u8)
    ensures
        be_bytes(n, 0) == Seq::<u8>::empty(),
        be_bytes(n, k + 1) == be_bytes(n / 256, k).push((n % 256) as u8),
        be_bytes(n, k).len() == k,
        be_value(Seq::<u8>::empty()) == 0,
        be_value(s.push(digit)) == be_value(s) * 256 + digit,
        be_bytes(be_value(s), s.len()) == s,
        pow256(0) == 1,
        pow256(k + 1) == 256 * pow256(k),
        n < pow256(k) ==> be_value(be_bytes(n, k)) == n,
    decreases s.len(),
{
    lemma_be_bytes_len(n, k);
    assert(s.push(digit).drop_last() =~= s);
    if n < pow256(k) {
        lemma_be_value_of_bytes(n, k);
    }
    if s.len() > 0 {
        law_digits(n, k, s.drop_last(), digit);
        let low = s.last() as nat;
        let high = be_value(s.drop_last());
        assert((high * 256 + low) / 256 == high && (high * 256 + low) % 256 == low);
        assert(be_bytes(be_value(s), s.len()) =~= s);
    } else {
        assert(be_bytes(be_value(s), 0) =~= s);
    }
}

/// Four digits of a small number: three zeros and the number.
pub proof fn law_small_numbers(n: nat)
    requires
        n < 256,
    ensures
        be32(n) == seq![0u8, 0u8, 0u8, n as u8],
{
    reveal_with_fuel(be_bytes, 5);
    assert(be32(n) =~= seq![0u8, 0u8, 0u8, n as u8]);
}

proof fn lemma_four_parts(a: Seq<u8>, b: Seq<u8>, c: Seq<u8>, d: Seq<u8>)
    requires
        a.len() == 4,
        b.len() == 4,
    ensures
        (a + b + c + d).subrange(0, 4) == a,
        (a + b + c + d).subrange(4, 8) == b,
        (a + b + c + d).subrange(8, 8 + c.len() as int) == c,
        (a + b + c + d).len() == 8 + c.len() + d.len(),
{
    let all = a + b + c + d;
    assert(all.subrange(0, 4) =~= a);
    assert(all.subrange(4, 8) =~= b);
    assert(all.subrange(8, 8 + c.len() as int) =~= c);
}

/// A byte string or a symbol on the wire: four digits of its kind, four of its
/// length, its bytes, and zeros up to the next multiple of four.
pub proof fn law_opaque_layout(kind: u32, body: Seq<u8>)
    ensures
        ({
            let bytes = opaque_xdr(kind, body);
            let len = body.len();
            &&& bytes.len() % 4 == 0
            &&& 8 + len <= bytes.len() < 8 + len + 4
            &&& bytes.subrange(0, 4) == be_bytes(kind as nat, 4)
            &&& bytes.subrange(4, 8) == be_bytes(len, 4)
            &&& bytes.subrange(8, 8 + len as int) == body
            &&& forall|j: int| 8 + len <= j < bytes.len() ==> #[trigger] bytes[j] == 0
        }),
{
    lemma_be_bytes_len(kind as nat, 4);
    lemma_be_bytes_len(body.len(), 4);
    let bytes = opaque_xdr(kind, body);
    let (first, second, zeros) = (be32(kind as nat), be32(body.len()), padding(body.len()));
    lemma_four_parts(first, second, body, zeros);
    assert(bytes.len() == 8 + body.len() + zeros.len());
    assert forall|j: int| 8 + body.len() <= j < bytes.len() implies #[trigger] bytes[j] == 0 by {
        assert(bytes[j] == zeros[j - 8 - body.len()]);
    }
}

/// What tells the values apart: the first four digits of a byte string, and those
/// of a symbol, whose bytes are its characters. An enum value without fields is a
/// vector, present, with one element, its name as a symbol.
pub proof fn law_kinds(body: Seq<u8>, name: Seq<char>)
    ensures
        bytes_xdr(body) == opaque_xdr(13, body),
        symbol_xdr(name) == opaque_xdr(15, Seq::new(name.len(), |i: int| name[i] as u8)),
        unit_variant_xdr(name) == seq![0u8, 0, 0, 16, 0, 0, 0, 1, 0, 0, 0, 1] + symbol_xdr(name),
{
    law_small_numbers(16);
    law_small_numbers(1);
    assert(symbol_xdr(name) =~= opaque_xdr(15, Seq::new(name.len(), |i: int| name[i] as u8)));
    assert(unit_variant_xdr(name) =~= seq![0u8, 0, 0, 16, 0, 0, 0, 1, 0, 0, 0, 1] + symbol_xdr(
        name,
    ));
}

} // verus!
