use vstd::prelude::*;
use vstd::std_specs::iter::IteratorSpec;

verus! {

broadcast use vstd::string::group_string_axioms;

/// Relies on `String::push`: the character is appended at the end.
pub assume_specification[ String::push ](s: &mut String, ch: char)
    ensures
        final(s)@ == old(s)@.push(ch),
;

/// `c` is one of the ASCII digits `0` to `9`.
pub open spec fn is_digit(c: char) -> bool {
    '0' as u32 <= c as u32 <= '9' as u32
}

/// The value of the digit `c`.
pub open spec fn digit_value(c: char) -> nat {
    (c as u32 - '0' as u32) as nat
}

/// The digit whose value is `d`, for `d` below ten.
pub open spec fn digit_char(d: nat) -> char {
    ('0' as u32 + d) as char
}

/// The characters of `n` in decimal notation, without leading zeros.
pub open spec fn decimal(n: nat) -> Seq<char>
    decreases n,
{
    if n < 10 {
        seq![digit_char(n)]
    } else {
        decimal(n / 10).push(digit_char(n % 10))
    }
}

/// The characters of `s`, in order.
pub fn chars_of(s: &str) -> (r: Vec<char>)
    ensures
        r@ == s@,
{
    let mut out: Vec<char> = Vec::new();
    for c in iter: s.chars()
        invariant
            iter.seq() == s@,
            out@ == s@.take(iter.index() as int),
    {
        out.push(c);
    }
    assert(out@ == s@.take(s@.len() as int));
    out
}

/// The digit whose value is `d`.
pub fn digit_to_char(d: u8) -> (c: char)
    requires
        d < 10,
    ensures
        c == digit_char(d as nat),
        is_digit(c),
        digit_value(c) == d,
{
    (d + 48) as char
}

/// The value of a string of decimal digits (zero for the empty string).
pub open spec fn decimal_value(s: Seq<char>) -> nat
    decreases s.len(),
{
    if s.len() == 0 {
        0
    } else {
        decimal_value(s.drop_last()) * 10 + digit_value(s.last())
    }
}

/// Every character of `s` is a digit.
pub open spec fn all_digits(s: Seq<char>) -> bool {
    forall|i: int| 0 <= i < s.len() ==> is_digit(#[trigger] s[i])
}

/// `pat` stands in `s` at position `i`.
pub open spec fn occurs_at(s: Seq<char>, pat: Seq<char>, i: int) -> bool {
    0 <= i && i + pat.len() <= s.len() && s.subrange(i, i + pat.len()) == pat
}

/// A position found by an executable search, as the spec functions give it.
pub open spec fn as_int_option(r: Option<usize>) -> Option<int> {
    match r {
        Some(i) => Some(i as int),
        None => None,
    }
}

/// Whether the characters of `v` from `lo` to `hi` are those of `pat`.
pub fn range_equals(v: &Vec<char>, lo: usize, hi: usize, pat: &Vec<char>) -> (r: bool)
    requires
        lo <= hi <= v.len(),
    ensures
        r == (v@.subrange(lo as int, hi as int) == pat@),
{
    if hi - lo != pat.len() {
        return false;
    }
    let mut k: usize = 0;
    while k < pat.len()
        invariant
            lo <= hi <= v.len(),
            hi - lo == pat.len(),
            k <= pat.len(),
            forall|j: int| 0 <= j < k ==> v@[lo + j] == pat@[j],
        decreases pat.len() - k,
    {
        if v[lo + k] != pat[k] {
            assert(v@.subrange(lo as int, hi as int)[k as int] != pat@[k as int]);
            return false;
        }
        k += 1;
    }
    assert(v@.subrange(lo as int, hi as int) =~= pat@);
    true
}

/// `digit_char` and `digit_value` are inverse on values below ten.
pub proof fn lemma_digit_char(d: nat)
    requires
        d < 10,
    ensures
        is_digit(digit_char(d)),
        digit_value(digit_char(d)) == d,
{
    assert((48 + d) as char as u32 == 48 + d);
}

/// The decimal notation of `n` is a non-empty run of digits worth `n`.
pub proof fn lemma_decimal(n: nat)
    ensures
        decimal(n).len() > 0,
        all_digits(decimal(n)),
        decimal_value(decimal(n)) == n,
    decreases n,
{
    lemma_digit_char(n % 10);
    let d = decimal(n);
    if n < 10 {
        assert(d.drop_last() =~= Seq::<char>::empty());
        assert(decimal_value(d.drop_last()) == 0);
        assert(d.last() == digit_char(n));
    } else {
        lemma_decimal(n / 10);
        assert(d.drop_last() =~= decimal(n / 10));
        assert(d.last() == digit_char(n % 10));
        assert(n == (n / 10) * 10 + n % 10);
        assert(decimal_value(d) == decimal_value(decimal(n / 10)) * 10 + digit_value(digit_char(n % 10)));
        assert forall|i: int| 0 <= i < d.len() implies is_digit(#[trigger] d[i]) by {
            if i < d.len() - 1 {
                assert(d[i] == decimal(n / 10)[i]);
            }
        }
    }
}

/// Neither a line break nor `%` is a digit.
pub proof fn lemma_digits_no_line_break(s: Seq<char>, i: int)
    requires
        all_digits(s),
        0 <= i < s.len(),
    ensures
        s[i] != '\n',
        s[i] != '%',
{
    assert(is_digit(s[i]));
}

/// Appends the decimal notation of `n` to `s`.
pub fn push_decimal(s: &mut String, n: u8)
    ensures
        final(s)@ == old(s)@ + decimal(n as nat),
{
    let ghost start = s@;
    proof {
        lemma_digit_char((n % 10) as nat);
    }
    if n >= 100 {
        s.push(digit_to_char(n / 100));
        s.push(digit_to_char((n / 10) % 10));
        s.push(digit_to_char(n % 10));
        assert(decimal((n / 100) as nat) == seq![digit_char((n / 100) as nat)]);
        assert(decimal((n / 10) as nat) == decimal((n / 100) as nat).push(
            digit_char(((n / 10) % 10) as nat),
        ));
    } else if n >= 10 {
        s.push(digit_to_char(n / 10));
        s.push(digit_to_char(n % 10));
        assert(decimal((n / 10) as nat) == seq![digit_char((n / 10) as nat)]);
    } else {
        s.push(digit_to_char(n));
    }
    assert(s@ =~= start + decimal(n as nat));
}

/// The last position from `lo` to `i` where `pat` stands in `s`.
pub open spec fn rfind(s: Seq<char>, pat: Seq<char>, lo: int, i: int) -> Option<int>
    decreases i + 1 - lo,
{
    if i < lo {
        None
    } else if occurs_at(s, pat, i) {
        Some(i)
    } else {
        rfind(s, pat, lo, i - 1)
    }
}

/// Executable form of `rfind`.
pub fn rfind_exec(v: &Vec<char>, pat: &Vec<char>, lo: usize, hi: usize) -> (r: Option<usize>)
    requires
        hi < v.len(),
    ensures
        as_int_option(r) == rfind(v@, pat@, lo as int, hi as int),
        r is Some ==> lo <= r->0 <= hi && r->0 + pat.len() <= v.len(),
{
    let mut k: usize = hi + 1;
    while k > lo
        invariant
            k <= hi + 1,
            hi < v.len(),
            rfind(v@, pat@, lo as int, hi as int) == rfind(v@, pat@, lo as int, k - 1),
        decreases k,
    {
        let j = k - 1;
        if pat.len() <= v.len() - j && range_equals(v, j, j + pat.len(), pat) {
            return Some(j);
        }
        k = j;
    }
    None
}

/// `pat` stands at `c`, and nowhere after it up to `i`.
pub proof fn lemma_rfind_at(s: Seq<char>, pat: Seq<char>, lo: int, i: int, c: int)
    requires
        lo <= c <= i,
        occurs_at(s, pat, c),
        forall|j: int|
            #![trigger s.subrange(j, j + pat.len())]
            c < j <= i ==> !occurs_at(s, pat, j),
    ensures
        rfind(s, pat, lo, i) == Some(c),
    decreases i - c,
{
    if c < i {
        lemma_rfind_at(s, pat, lo, i - 1, c);
    }
}

} // verus!
