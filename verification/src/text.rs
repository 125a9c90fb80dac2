//! Text helpers: decimal rendering of port numbers and facts about the
//! UTF-8 encoding of character sequences.
use vstd::prelude::*;
use vstd::utf8::*;

verus! {

broadcast use vstd::utf8::group_utf8_lib;

/// The decimal digits of `n`, most significant first, with no leading zero
/// (zero itself is rendered as a single `0`).
pub open spec fn decimal(n: nat) -> Seq<char>
    decreases n,
{
    if n < 10 {
        seq![digit_char(n)]
    } else {
        decimal(n / 10).push(digit_char(n % 10))
    }
}

/// The character of a single decimal digit.
pub open spec fn digit_char(d: nat) -> char {
    if d == 0 { '0' }
    else if d == 1 { '1' }
    else if d == 2 { '2' }
    else if d == 3 { '3' }
    else if d == 4 { '4' }
    else if d == 5 { '5' }
    else if d == 6 { '6' }
    else if d == 7 { '7' }
    else if d == 8 { '8' }
    else { '9' }
}

fn digit_str(d: u16) -> (s: &'static str)
    requires
        d < 10,
    ensures
        s@ == seq![digit_char(d as nat)],
{
    proof {
        reveal_strlit("0");
        reveal_strlit("1");
        reveal_strlit("2");
        reveal_strlit("3");
        reveal_strlit("4");
        reveal_strlit("5");
        reveal_strlit("6");
        reveal_strlit("7");
        reveal_strlit("8");
        reveal_strlit("9");
    }
    match d {
        0 => "0",
        1 => "1",
        2 => "2",
        3 => "3",
        4 => "4",
        5 => "5",
        6 => "6",
        7 => "7",
        8 => "8",
        _ => "9",
    }
}

/// Appends the decimal rendering of `n` to `out`.
pub fn push_decimal(out: &mut String, n: u16)
    ensures
        final(out)@ == old(out)@ + decimal(n as nat),
    decreases n,
{
    if n < 10 {
        out.append(digit_str(n));
    } else {
        push_decimal(out, n / 10);
        out.append(digit_str(n % 10));
    }
}

/// `k` is encoded by a UTF-8 byte string that starts the encoding of `q`.
pub open spec fn byte_prefix(k: Seq<char>, q: Seq<char>) -> bool {
    encode_utf8(k).is_prefix_of(encode_utf8(q))
}

/// The encoding of a concatenation is the concatenation of the encodings.
pub proof fn lemma_encode_concat(a: Seq<char>, b: Seq<char>)
    ensures
        encode_utf8(a + b) == encode_utf8(a) + encode_utf8(b),
    decreases a.len(),
{
    if a.len() == 0 {
        assert(a + b =~= b);
    } else {
        assert((a + b).drop_first() =~= a.drop_first() + b);
        lemma_encode_concat(a.drop_first(), b);
        assert((a + b)[0] == a[0]);
        assert(encode_utf8(a + b) =~= encode_scalar(a[0] as u32) + encode_utf8(a.drop_first() + b));
    }
}

/// UTF-8 is prefix free: a byte-level prefix of encodings is a prefix of
/// the characters themselves, and conversely.
pub proof fn lemma_byte_prefix_iff_prefix(k: Seq<char>, q: Seq<char>)
    ensures
        byte_prefix(k, q) <==> k.is_prefix_of(q),
    decreases k.len(),
{
    if k.is_prefix_of(q) {
        assert(q =~= k + q.skip(k.len() as int));
        lemma_encode_concat(k, q.skip(k.len() as int));
    }
    if byte_prefix(k, q) && k.len() > 0 {
        let bk = encode_utf8(k);
        let bq = encode_utf8(q);
        encode_utf8_first_scalar(k);
        assert(bk.len() > 0);
        assert(q.len() > 0);
        encode_utf8_first_scalar(q);
        let l = length_of_first_scalar(bk);
        assert(bk[0] == bq[0]);
        assert(length_of_first_scalar(bq) == l);
        assert forall|i: int| 0 <= i < l implies bk[i] == bq[i] by {}
        assert(decode_first_scalar(bk) == decode_first_scalar(bq));
        assert(k[0] as u32 == q[0] as u32);
        char_u32_cast(k[0], k[0] as u32);
        char_u32_cast(q[0], q[0] as u32);
        assert(k[0] == q[0]);
        assert(encode_utf8(k.drop_first()) =~= bk.subrange(l, bk.len() as int));
        assert(encode_utf8(q.drop_first()) =~= bq.subrange(l, bq.len() as int));
        assert(byte_prefix(k.drop_first(), q.drop_first()));
        lemma_byte_prefix_iff_prefix(k.drop_first(), q.drop_first());
        assert forall|i: int| 0 <= i < k.len() implies k[i] == q[i] by {
            if i > 0 {
                assert(k[i] == k.drop_first()[i - 1]);
                assert(q[i] == q.drop_first()[i - 1]);
            }
        }
        assert(k =~= q.subrange(0, k.len() as int));
    }
}

/// A strictly longer sequence that extends `a` has a strictly longer encoding.
pub proof fn lemma_longer_prefix_longer_encoding(a: Seq<char>, b: Seq<char>)
    requires
        a.is_prefix_of(b),
        a.len() < b.len(),
    ensures
        encode_utf8(a).len() < encode_utf8(b).len(),
{
    let rest = b.skip(a.len() as int);
    assert(b =~= a + rest);
    lemma_encode_concat(a, rest);
    assert(rest.len() > 0);
    encode_utf8_first_scalar(rest);
}

/// Among prefixes of one sequence, a longer encoding means a longer prefix.
pub proof fn lemma_prefix_lengths(k: Seq<char>, k2: Seq<char>, q: Seq<char>)
    requires
        k.is_prefix_of(q),
        k2.is_prefix_of(q),
        encode_utf8(k2).len() <= encode_utf8(k).len(),
    ensures
        k2.len() <= k.len(),
{
    if k2.len() > k.len() {
        assert(k.is_prefix_of(k2));
        lemma_longer_prefix_longer_encoding(k, k2);
    }
}

} // verus!
