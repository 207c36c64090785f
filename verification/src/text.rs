//! Character-sequence utilities shared by the whole crate.
//!
//! All text manipulation happens on `Vec<char>` so that it can be verified
//! against `Seq<char>` specifications; two small trusted bridges move
//! between `&str`/`String` and character vectors.

use vstd::prelude::*;

verus! {

/// Relies on `str::chars`: yields exactly the characters of the string, in order.
#[verifier::external_body]
pub fn chars_of(s: &str) -> (r: Vec<char>)
    ensures
        r@ == s@,
{
    s.chars().collect()
}

/// Relies on `String`'s `FromIterator<char>`: concatenates the characters, in order.
#[verifier::external_body]
pub fn string_from_chars(v: &Vec<char>) -> (r: String)
    ensures
        r@ == v@,
{
    v.iter().collect()
}

/// Appends all of `src` to `dst`, preserving order.
pub fn push_all(dst: &mut Vec<char>, src: &Vec<char>)
    ensures
        final(dst)@ == old(dst)@ + src@,
{
    let mut i: usize = 0;
    while i < src.len()
        invariant
            i <= src.len(),
            dst@ == old(dst)@ + src@.subrange(0, i as int),
        decreases src.len() - i,
    {
        dst.push(src[i]);
        i = i + 1;
    }
    assert(src@.subrange(0, src@.len() as int) == src@);
}

/// Appends the characters of a string slice to `dst`.
pub fn push_str_chars(dst: &mut Vec<char>, s: &str)
    ensures
        final(dst)@ == old(dst)@ + s@,
{
    let cs = chars_of(s);
    push_all(dst, &cs);
}

/// The decimal digit character for a value below ten.
pub open spec fn digit_char(d: nat) -> char
    recommends
        d < 10,
{
    (48 + d) as char
}

/// The decimal expansion of a natural number, most significant digit first.
pub open spec fn dec_digits(n: nat) -> Seq<char>
    decreases n,
{
    if n < 10 {
        seq![digit_char(n)]
    } else {
        dec_digits(n / 10) + seq![digit_char(n % 10)]
    }
}

/// A decimal expansion is never empty, and has at least two digits from
/// ten upward.
pub proof fn lemma_dec_digits_len(n: nat)
    ensures
        dec_digits(n).len() >= 1,
        n >= 10 ==> dec_digits(n).len() >= 2,
    decreases n,
{
    if n >= 10 {
        lemma_dec_digits_len(n / 10);
    }
}

/// Distinct numbers have distinct decimal expansions: the ground of the
/// guarantee that no two requests are ever assigned the same id text.
pub proof fn lemma_dec_digits_injective(a: nat, b: nat)
    requires
        a != b,
    ensures
        dec_digits(a) != dec_digits(b),
    decreases a + b,
{
    lemma_dec_digits_len(a);
    lemma_dec_digits_len(b);
    assert(48 + a % 10 < 58 && 48 + b % 10 < 58);
    if a < 10 && b < 10 {
        assert((digit_char(a) as nat) == 48 + a);
        assert((digit_char(b) as nat) == 48 + b);
        assert(dec_digits(a)[0] != dec_digits(b)[0]);
    } else if a < 10 {
        assert(dec_digits(a).len() == 1 && dec_digits(b).len() >= 2);
    } else if b < 10 {
        assert(dec_digits(b).len() == 1 && dec_digits(a).len() >= 2);
    } else if a % 10 != b % 10 {
        if dec_digits(a) == dec_digits(b) {
            assert(dec_digits(a).last() == dec_digits(b).last());
            assert((digit_char(a % 10) as nat) == 48 + a % 10);
            assert((digit_char(b % 10) as nat) == 48 + b % 10);
            assert(false);
        }
    } else {
        lemma_dec_digits_injective(a / 10, b / 10);
        if dec_digits(a) == dec_digits(b) {
            assert(dec_digits(a).drop_last() =~= dec_digits(a / 10));
            assert(dec_digits(b).drop_last() =~= dec_digits(b / 10));
            assert(false);
        }
    }
}

/// Decimal digits of `n`, written onto the end of `dst`.
pub fn push_u64(dst: &mut Vec<char>, n: u64)
    ensures
        final(dst)@ == old(dst)@ + dec_digits(n as nat),
    decreases n,
{
    if n < 10 {
        let c: char = (48 + (n as u8)) as char;
        assert(c == digit_char(n as nat));
        dst.push(c);
    } else {
        push_u64(dst, n / 10);
        let d: u8 = (n % 10) as u8;
        let c: char = (48 + d) as char;
        assert(c == digit_char((n % 10) as nat));
        dst.push(c);
        assert(final(dst)@ == old(dst)@ + dec_digits((n / 10) as nat) + seq![
            digit_char((n % 10) as nat),
        ]);
    }
}

/// The decimal text of a natural number as a `String`.
pub fn u64_to_string(n: u64) -> (r: String)
    ensures
        r@ == dec_digits(n as nat),
{
    let mut v: Vec<char> = Vec::new();
    push_u64(&mut v, n);
    string_from_chars(&v)
}

/// The Unicode lowercase of a text, a function of the characters alone.
pub uninterp spec fn lower_of(s: Seq<char>) -> Seq<char>;

/// Relies on `str::to_lowercase`: the Unicode lowercase equivalent of the
/// string, depending on its characters alone; named [`lower_of`].  An
/// empty string stays empty.
#[verifier::external_body]
pub fn to_lower(s: &str) -> (r: String)
    ensures
        r@ == lower_of(s@),
        s@.len() == 0 ==> r@.len() == 0,
{
    s.to_lowercase()
}

/// A text without its leading and trailing whitespace, a function of the
/// characters alone.
pub uninterp spec fn trim_of(s: Seq<char>) -> Seq<char>;

/// Relies on `str::trim`: the string with leading and trailing whitespace
/// removed, depending on its characters alone; named [`trim_of`].
#[verifier::external_body]
pub fn trimmed(s: &str) -> (r: String)
    ensures
        r@ == trim_of(s@),
{
    s.trim().to_owned()
}

/// True when the two strings hold the same characters.
pub fn str_eq(a: &str, b: &str) -> (r: bool)
    ensures
        r == (a@ == b@),
{
    let av = chars_of(a);
    let bv = chars_of(b);
    chars_eq(&av, &bv)
}

/// A run of one repeated character.
pub open spec fn char_repeat(c: char, n: nat) -> Seq<char>
    decreases n,
{
    if n == 0 {
        Seq::empty()
    } else {
        char_repeat(c, (n - 1) as nat).push(c)
    }
}

/// Appends `n` copies of one character.
pub fn push_repeat(dst: &mut Vec<char>, c: char, n: usize)
    ensures
        final(dst)@ == old(dst)@ + char_repeat(c, n as nat),
{
    let mut i: usize = 0;
    proof {
        assert(old(dst)@ + char_repeat(c, 0) =~= old(dst)@);
    }
    while i < n
        invariant
            i <= n,
            dst@ == old(dst)@ + char_repeat(c, i as nat),
        decreases n - i,
    {
        dst.push(c);
        i = i + 1;
    }
}

/// Left-to-right, non-overlapping replacement of every occurrence of
/// `pat` by `rep`; an empty pattern replaces nothing.
pub open spec fn replaced(s: Seq<char>, pat: Seq<char>, rep: Seq<char>) -> Seq<char>
    decreases s.len(),
{
    if pat.len() == 0 || s.len() < pat.len() {
        s
    } else if s.subrange(0, pat.len() as int) == pat {
        rep + replaced(s.skip(pat.len() as int), pat, rep)
    } else {
        seq![s[0]] + replaced(s.drop_first(), pat, rep)
    }
}

/// Whether `pat` occurs in `s` at position `i`.
spec fn match_at(s: Seq<char>, pat: Seq<char>, i: int) -> bool {
    0 <= i && i + pat.len() <= s.len() && s.subrange(i, i + pat.len()) == pat
}

/// Replaces every occurrence of `pat` by `rep`, left to right without
/// overlap, exactly as [`replaced`] states.
#[verifier::loop_isolation(false)]
pub fn replace_all(s: &str, pat: &str, rep: &str) -> (r: String)
    ensures
        r@ == replaced(s@, pat@, rep@),
{
    let cs = chars_of(s);
    let ps = chars_of(pat);
    let rs = chars_of(rep);
    if ps.len() == 0 {
        return s.to_owned();
    }
    let mut out: Vec<char> = Vec::new();
    let mut i: usize = 0;
    proof {
        assert(cs@.skip(0) =~= cs@);
    }
    while i < cs.len()
        invariant
            0 <= i <= cs.len(),
            replaced(s@, pat@, rep@) == out@ + replaced(cs@.skip(i as int), pat@, rep@),
        decreases cs.len() - i,
    {
        let mut hit = false;
        if cs.len() - i >= ps.len() {
            let mut j: usize = 0;
            hit = true;
            while j < ps.len()
                invariant
                    j <= ps.len(),
                    i + ps.len() <= cs.len(),
                    hit == (forall|k: int| 0 <= k < j ==> cs@[i + k] == ps@[k]),
                decreases ps.len() - j,
            {
                if cs[i + j] != ps[j] {
                    hit = false;
                    proof {
                        assert(cs@[i + j] != ps@[j as int]);
                    }
                    break ;
                }
                j = j + 1;
            }
            proof {
                if hit {
                    assert(cs@.skip(i as int).subrange(0, ps@.len() as int) =~= ps@);
                } else {
                    let k = choose|k: int| 0 <= k < ps@.len() && cs@[i + k] != ps@[k];
                    assert(cs@.skip(i as int).subrange(0, ps@.len() as int)[k] == cs@[i + k]);
                    assert(cs@.skip(i as int).subrange(0, ps@.len() as int) != ps@);
                }
            }
        } else {
            proof {
                assert(cs@.skip(i as int).len() < ps@.len());
            }
        }
        if hit {
            push_all(&mut out, &rs);
            proof {
                assert(cs@.skip(i as int).skip(ps@.len() as int) =~= cs@.skip(
                    i as int + ps@.len(),
                ));
            }
            i = i + ps.len();
        } else {
            out.push(cs[i]);
            proof {
                if cs@.skip(i as int).len() >= ps@.len() {
                    assert(replaced(cs@.skip(i as int), pat@, rep@) == seq![cs@[i as int]]
                        + replaced(cs@.skip(i as int).drop_first(), pat@, rep@));
                }
                assert(cs@.skip(i as int).drop_first() =~= cs@.skip(i as int + 1));
                assert(cs@.skip(i as int)[0] == cs@[i as int]);
            }
            i = i + 1;
        }
    }
    proof {
        assert(cs@.skip(cs@.len() as int) =~= Seq::<char>::empty());
    }
    string_from_chars(&out)
}

/// True when the two character vectors hold the same characters.
pub fn chars_eq(a: &Vec<char>, b: &Vec<char>) -> (r: bool)
    ensures
        r == (a@ == b@),
{
    if a.len() != b.len() {
        assert(a@.len() != b@.len());
        return false;
    }
    let mut i: usize = 0;
    while i < a.len()
        invariant
            i <= a.len(),
            a@.len() == b@.len(),
            forall|j: int| 0 <= j < i ==> a@[j] == b@[j],
        decreases a.len() - i,
    {
        if a[i] != b[i] {
            return false;
        }
        i = i + 1;
    }
    assert(a@ =~= b@);
    true
}

} // verus!
