//! Numbers and identifier bytes as they appear in a rendered failure.
//!
//! A number is written in positional notation without sign, prefix or padding:
//! base ten for counts and type tags, base sixteen with lower-case letters for
//! format identifiers. A byte string is written as a bracketed list of its
//! bytes in base sixteen.

use vstd::prelude::*;
use vstd::arithmetic::div_mod::lemma_div_decreases;
use vstd::arithmetic::div_mod::lemma_fundamental_div_mod;
use vstd::arithmetic::div_mod::lemma_mod_bound;
use vstd::arithmetic::div_mod::lemma_div_non_zero;
use vstd::arithmetic::div_mod::lemma_small_mod;

verus! {

/// The character that writes the digit `d`.
pub open spec fn digit_char(d: nat) -> char
    recommends
        d < 16,
{
    "0123456789abcdef"@[d as int]
}

/// The digit that the character `c` writes; sixteen if it writes none.
pub open spec fn digit_value(c: char) -> nat {
    if exists|d: nat| d < 16 && digit_char(d) == c {
        choose|d: nat| d < 16 && digit_char(d) == c
    } else {
        16
    }
}

/// `n` in base `base`, most significant digit first, no leading zero.
pub open spec fn positional(n: nat, base: nat) -> Seq<char>
    recommends
        2 <= base <= 16,
    decreases n,
{
    if base < 2 || n < base {
        seq![digit_char(n)]
    } else {
        proof {
            lemma_div_decreases(n as int, base as int);
        }
        positional(n / base, base).push(digit_char(n % base))
    }
}

/// The number that the digits `s` write in base `base`.
pub open spec fn positional_value(s: Seq<char>, base: nat) -> nat
    decreases s.len(),
{
    if s.len() == 0 {
        0
    } else {
        positional_value(s.drop_last(), base) * base + digit_value(s.last())
    }
}

/// `n` in base ten.
pub open spec fn decimal(n: nat) -> Seq<char> {
    positional(n, 10)
}

/// `n` in base sixteen, lower case.
pub open spec fn lower_hex(n: nat) -> Seq<char> {
    positional(n, 16)
}

/// The bytes in base sixteen, separated by a comma and a space.
pub open spec fn hex_items(bytes: Seq<u8>) -> Seq<char>
    decreases bytes.len(),
{
    if bytes.len() == 0 {
        Seq::empty()
    } else if bytes.len() == 1 {
        lower_hex(bytes[0] as nat)
    } else {
        hex_items(bytes.drop_last()) + ", "@ + lower_hex(bytes.last() as nat)
    }
}

/// The bytes as a bracketed list in base sixteen.
pub open spec fn hex_list(bytes: Seq<u8>) -> Seq<char> {
    "["@ + hex_items(bytes) + "]"@
}

/// `needle` stands in `hay` as one unbroken run.
pub open spec fn occurs_in(needle: Seq<char>, hay: Seq<char>) -> bool {
    exists|i: int|
        0 <= i && i + needle.len() <= hay.len() && #[trigger] hay.subrange(
            i,
            i + needle.len(),
        ) == needle
}

/// A text occurs in every text built around it.
pub proof fn lemma_occurs_between(before: Seq<char>, needle: Seq<char>, after: Seq<char>)
    ensures
        occurs_in(needle, before + needle + after),
        occurs_in(needle, before + needle),
        occurs_in(needle, needle + after),
        occurs_in(needle, needle),
{
    let n = needle.len() as int;
    let b = before.len() as int;
    assert((before + needle + after).subrange(b, b + n) =~= needle);
    assert((before + needle).subrange(b, b + n) =~= needle);
    assert((needle + after).subrange(0, 0 + n) =~= needle);
    assert(needle.subrange(0, 0 + n) =~= needle);
}

/// What occurs in a text occurs in every text built around that text.
pub proof fn lemma_occurs_widen(
    needle: Seq<char>,
    inner: Seq<char>,
    before: Seq<char>,
    after: Seq<char>,
)
    requires
        occurs_in(needle, inner),
    ensures
        occurs_in(needle, before + inner + after),
        occurs_in(needle, before + inner),
        occurs_in(needle, inner + after),
{
    let n = needle.len() as int;
    let b = before.len() as int;
    let i = choose|i: int|
        0 <= i && i + needle.len() <= inner.len() && #[trigger] inner.subrange(i, i + needle.len())
            == needle;
    assert((before + inner + after).subrange(b + i, b + i + n) =~= inner.subrange(i, i + n));
    assert((before + inner).subrange(b + i, b + i + n) =~= inner.subrange(i, i + n));
    assert((inner + after).subrange(i, i + n) =~= inner.subrange(i, i + n));
}

/// Each of the sixteen digit characters writes its own digit and no other.
pub proof fn lemma_digit_value(d: nat)
    requires
        d < 16,
    ensures
        digit_value(digit_char(d)) == d,
{
    reveal_strlit("0123456789abcdef");
    let c = digit_char(d);
    assert(d < 16 && digit_char(d) == c);
    let e = choose|e: nat| e < 16 && digit_char(e) == c;
    assert(e < 16 && digit_char(e) == c);
    assert(e == d);
}

/// Positional notation denotes: the digits of `n` write `n` and nothing else,
/// there is at least one, and the first is zero only for zero itself.
pub proof fn lemma_positional_denotes(n: nat, base: nat)
    requires
        2 <= base <= 16,
    ensures
        positional_value(positional(n, base), base) == n,
        positional(n, base).len() >= 1,
        n > 0 ==> positional(n, base)[0] != '0',
        forall|i: int|
            0 <= i < positional(n, base).len() ==> digit_value(
                #[trigger] positional(n, base)[i],
            ) < base,
    decreases n,
{
    let s = positional(n, base);
    if n < base {
        lemma_digit_value(n);
        assert(s.drop_last() =~= Seq::<char>::empty());
        assert(positional_value(s.drop_last(), base) == 0);
        assert(s.last() == digit_char(n));
        assert(positional_value(s, base) == 0 * base + n);
        if n > 0 {
            reveal_strlit("0123456789abcdef");
        }
    } else {
        let q = n / base;
        let r = n % base;
        lemma_div_decreases(n as int, base as int);
        lemma_div_non_zero(n as int, base as int);
        lemma_fundamental_div_mod(n as int, base as int);
        lemma_mod_bound(n as int, base as int);
        lemma_positional_denotes(q, base);
        lemma_digit_value(r);
        let head = positional(q, base);
        assert(s == head.push(digit_char(r)));
        assert(s.drop_last() =~= head);
        assert(s.last() == digit_char(r));
        assert(positional_value(s, base) == q * base + r);
        assert(q * base == base * q) by (nonlinear_arith);
        assert(s[0] == head[0]);
        assert forall|i: int| 0 <= i < s.len() implies digit_value(#[trigger] s[i]) < base by {
            if i < head.len() {
                assert(s[i] == head[i]);
            }
        }
    }
}

/// Two numbers with the same digits are the same number.
pub proof fn law_positional_is_injective(m: nat, n: nat, base: nat)
    requires
        2 <= base <= 16,
        positional(m, base) == positional(n, base),
    ensures
        m == n,
{
    lemma_positional_denotes(m, base);
    lemma_positional_denotes(n, base);
}

/// The text `head` followed by the text `tail`.
pub fn join(head: &str, tail: &str) -> (r: String)
    ensures
        r@ == head@ + tail@,
{
    let mut r = String::from_str(head);
    r.append(tail);
    r
}

/// The one-character text of the digit `d`.
fn digit_str(d: u8) -> (r: &'static str)
    requires
        d < 16,
    ensures
        r@ == seq![digit_char(d as nat)],
{
    proof {
        reveal_strlit("0123456789abcdef");
    }
    let digits: &'static str = "0123456789abcdef";
    let at: usize = d as usize;
    let r = digits.substring_ascii(at, at + 1);
    assert(r@ =~= seq![digit_char(d as nat)]);
    r
}

/// Appends `n` in base `base` to `out`.
pub fn push_positional(out: &mut String, n: u64, base: u64)
    requires
        2 <= base <= 16,
    ensures
        final(out)@ == old(out)@ + positional(n as nat, base as nat),
    decreases n,
{
    let ghost before = out@;
    if n >= base {
        proof {
            lemma_div_decreases(n as int, base as int);
        }
        push_positional(out, n / base, base);
    }
    let ghost head = out@;
    let d: u64 = n % base;
    out.append(digit_str(d as u8));
    proof {
        let whole = positional(n as nat, base as nat);
        if n >= base {
            assert(head == before + positional((n / base) as nat, base as nat));
            assert(whole == positional((n / base) as nat, base as nat).push(
                digit_char((n % base) as nat),
            ));
        } else {
            lemma_small_mod(n as nat, base as nat);
            assert(whole == seq![digit_char(n as nat)]);
        }
        assert(out@ =~= before + whole);
    }
}

/// `n` in base ten.
pub fn decimal_text(n: u64) -> (r: String)
    ensures
        r@ == decimal(n as nat),
{
    let mut r = String::new();
    push_positional(&mut r, n, 10);
    assert(r@ =~= decimal(n as nat));
    r
}

/// `n` in base sixteen, lower case.
pub fn lower_hex_text(n: u64) -> (r: String)
    ensures
        r@ == lower_hex(n as nat),
{
    let mut r = String::new();
    push_positional(&mut r, n, 16);
    assert(r@ =~= lower_hex(n as nat));
    r
}

/// The bytes as a bracketed list in base sixteen.
pub fn hex_list_text(bytes: &Vec<u8>) -> (r: String)
    ensures
        r@ == hex_list(bytes@),
{
    let mut r = String::from_str("[");
    let mut i: usize = 0;
    while i < bytes.len()
        invariant
            i <= bytes.len(),
            r@ == "["@ + hex_items(bytes@.take(i as int)),
        decreases bytes.len() - i,
    {
        if i > 0 {
            r.append(", ");
        }
        push_positional(&mut r, bytes[i] as u64, 16);
        proof {
            let done = bytes@.take(i as int);
            let next = bytes@.take(i as int + 1);
            assert(next.drop_last() =~= done);
            assert(next.last() == bytes@[i as int]);
            if i == 0 {
                assert(hex_items(done) =~= Seq::<char>::empty());
                assert(next[0] == bytes@[0]);
            }
            assert(r@ =~= "["@ + hex_items(next));
        }
        i += 1;
    }
    assert(bytes@.take(i as int) =~= bytes@);
    r.append("]");
    r
}

} // verus!
