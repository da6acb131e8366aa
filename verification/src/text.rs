use vstd::prelude::*;
use vstd::string::*;

verus! {

/// Relies on `String::push`: appends exactly one character to the string.
#[verifier::external_body]
pub fn push_char(s: &mut String, c: char)
    ensures
        final(s)@ == old(s)@.push(c),
{
    s.push(c);
}

/// The characters of `s`, in order, as a vector.
pub fn chars_of(s: &str) -> (r: Vec<char>)
    ensures
        r@ == s@,
{
    let n = s.unicode_len();
    let mut r: Vec<char> = Vec::new();
    let mut i: usize = 0;
    while i < n
        invariant
            i <= n,
            n == s@.len(),
            r@ =~= s@.subrange(0, i as int),
        decreases n - i,
    {
        let c = s.get_char(i);
        r.push(c);
        assert(r@ =~= s@.subrange(0, i + 1 as int));
        i = i + 1;
    }
    assert(r@ =~= s@);
    r
}

/// A string holding exactly the characters of `v`, in order.
pub fn string_of_chars(v: &Vec<char>) -> (r: String)
    ensures
        r@ == v@,
{
    let mut r = String::new();
    let mut i: usize = 0;
    while i < v.len()
        invariant
            i <= v@.len(),
            r@ =~= v@.subrange(0, i as int),
        decreases v@.len() - i,
    {
        push_char(&mut r, v[i]);
        assert(r@ =~= v@.subrange(0, i + 1 as int));
        i = i + 1;
    }
    assert(r@ =~= v@);
    r
}

/// `needle` occurs in `hay` starting at position `i`.
pub open spec fn contains_at(hay: Seq<char>, needle: Seq<char>, i: int) -> bool {
    0 <= i && i + needle.len() <= hay.len() && hay.subrange(i, i + needle.len()) == needle
}

/// `needle` occurs somewhere in `hay` as a contiguous substring.
pub open spec fn contains_seq(hay: Seq<char>, needle: Seq<char>) -> bool {
    exists|i: int| contains_at(hay, needle, i)
}

/// `s` begins with the prefix `p`.
pub open spec fn starts_with_spec(s: Seq<char>, p: Seq<char>) -> bool {
    p.len() <= s.len() && s.subrange(0, p.len() as int) == p
}

fn match_at(h: &Vec<char>, n: &Vec<char>, i: usize) -> (r: bool)
    requires
        i + n@.len() <= h@.len(),
    ensures
        r == (h@.subrange(i as int, i + n@.len()) == n@),
{
    let hl = h.len();
    let mut j: usize = 0;
    while j < n.len()
        invariant
            i + n@.len() <= h@.len(),
            h@.len() == hl,
            j <= n@.len(),
            forall|t: int| 0 <= t < j ==> h@[i + t] == n@[t],
        decreases n@.len() - j,
    {
        if h[i + j] != n[j] {
            assert(h@.subrange(i as int, i + n@.len())[j as int] == h@[i + j]);
            return false;
        }
        j = j + 1;
    }
    assert(h@.subrange(i as int, i + n@.len()) =~= n@);
    true
}

/// Whether `needle` occurs in `hay` as a contiguous substring.
pub fn contains_substring(hay: &str, needle: &str) -> (r: bool)
    ensures
        r == contains_seq(hay@, needle@),
{
    let h = chars_of(hay);
    let n = chars_of(needle);
    if n.len() == 0 {
        assert(contains_at(hay@, needle@, 0)) by {
            assert(hay@.subrange(0, 0) =~= needle@);
        }
        return true;
    }
    if n.len() > h.len() {
        assert(!contains_seq(hay@, needle@)) by {
            assert(forall|i: int| !contains_at(hay@, needle@, i));
        }
        return false;
    }
    let hl = h.len();
    let last = h.len() - n.len();
    let mut i: usize = 0;
    while i <= last
        invariant
            1 <= n@.len() <= h@.len(),
            h@.len() == hl,
            last == h@.len() - n@.len(),
            h@ == hay@,
            n@ == needle@,
            i <= last + 1,
            forall|k: int| 0 <= k < i ==> !contains_at(hay@, needle@, k),
        decreases last + 1 - i,
    {
        if match_at(&h, &n, i) {
            assert(contains_at(hay@, needle@, i as int));
            return true;
        }
        i = i + 1;
    }
    assert(!contains_seq(hay@, needle@)) by {
        assert(forall|k: int| 0 <= k < i ==> !contains_at(hay@, needle@, k));
        assert(forall|k: int| !contains_at(hay@, needle@, k)) by {
            assert(forall|k: int| contains_at(hay@, needle@, k) ==> 0 <= k < i);
        }
    }
    false
}

/// Whether `s` begins with the prefix `p`.
pub fn starts_with(s: &str, p: &str) -> (r: bool)
    ensures
        r == starts_with_spec(s@, p@),
{
    let h = chars_of(s);
    let n = chars_of(p);
    if n.len() > h.len() {
        return false;
    }
    match_at(&h, &n, 0)
}

/// Whether two strings hold the same characters.
pub fn str_eq(a: &str, b: &str) -> (r: bool)
    ensures
        r == (a@ == b@),
{
    let x = chars_of(a);
    let y = chars_of(b);
    if x.len() != y.len() {
        return false;
    }
    let r = match_at(&x, &y, 0);
    proof {
        assert(x@.subrange(0, y@.len() as int) =~= x@);
    }
    r
}

/// A string that is the concatenation of two parts contains its second part
/// as a substring.
pub proof fn lemma_concat_contains_suffix(a: Seq<char>, b: Seq<char>)
    ensures
        contains_seq(a + b, b),
{
    let s = a + b;
    assert(contains_at(s, b, a.len() as int)) by {
        assert(s.subrange(a.len() as int, (a.len() + b.len()) as int) =~= b);
    }
}

/// A string that is the concatenation of three parts contains its middle
/// part as a substring.
pub proof fn lemma_concat_contains_mid(a: Seq<char>, b: Seq<char>, c: Seq<char>)
    ensures
        contains_seq(a + b + c, b),
{
    let s = a + b + c;
    assert(contains_at(s, b, a.len() as int)) by {
        assert(s.subrange(a.len() as int, (a.len() + b.len()) as int) =~= b);
    }
}

/// Every single quote of `s` preceded by a backslash; all other characters
/// unchanged.  Keeps task-authored text from closing a single-quoted literal
/// inside generated script source.
pub open spec fn escape_quotes_spec(s: Seq<char>) -> Seq<char>
    decreases s.len(),
{
    if s.len() == 0 {
        Seq::empty()
    } else if s.last() == '\'' {
        escape_quotes_spec(s.drop_last()) + seq!['\\', '\'']
    } else {
        escape_quotes_spec(s.drop_last()).push(s.last())
    }
}

/// In an escaped string every single quote is preceded by a backslash, so a
/// task-authored value placed inside a single-quoted literal of generated
/// script source can never close that literal.
pub proof fn lemma_escaped_quotes_stay_in_literal(s: Seq<char>)
    ensures
        forall|i: int|
            0 <= i < escape_quotes_spec(s).len() && #[trigger] escape_quotes_spec(s)[i] == '\''
                ==> 0 < i && escape_quotes_spec(s)[i - 1] == '\\',
    decreases s.len(),
{
    if s.len() > 0 {
        lemma_escaped_quotes_stay_in_literal(s.drop_last());
        let prev = escape_quotes_spec(s.drop_last());
        let out = escape_quotes_spec(s);
        assert forall|i: int| 0 <= i < out.len() && #[trigger] out[i] == '\'' implies 0 < i && out[i
            - 1] == '\\' by {
            if i < prev.len() {
                assert(out[i] == prev[i]);
                if 0 < i {
                    assert(out[i - 1] == prev[i - 1]);
                }
            }
        }
    }
}

/// `s` with each single quote replaced by a backslash-quote pair.
pub fn escape_single_quotes(s: &str) -> (r: String)
    ensures
        r@ == escape_quotes_spec(s@),
{
    let chars = chars_of(s);
    let mut out: Vec<char> = Vec::new();
    let mut i: usize = 0;
    while i < chars.len()
        invariant
            chars@ == s@,
            i <= chars@.len(),
            out@ == escape_quotes_spec(s@.subrange(0, i as int)),
        decreases chars@.len() - i,
    {
        let c = chars[i];
        if c == '\'' {
            out.push('\\');
            out.push('\'');
        } else {
            out.push(c);
        }
        proof {
            let pre = s@.subrange(0, i as int);
            let cur = s@.subrange(0, i + 1 as int);
            assert(cur.drop_last() =~= pre);
            assert(cur.last() == s@[i as int]);
            if c == '\'' {
                assert(out@ =~= escape_quotes_spec(pre) + seq!['\\', '\'']);
            } else {
                assert(out@ =~= escape_quotes_spec(pre).push(c));
            }
        }
        i = i + 1;
    }
    assert(s@.subrange(0, i as int) =~= s@);
    string_of_chars(&out)
}

pub open spec fn digit_char(d: int) -> char {
    if d == 0 {
        '0'
    } else if d == 1 {
        '1'
    } else if d == 2 {
        '2'
    } else if d == 3 {
        '3'
    } else if d == 4 {
        '4'
    } else if d == 5 {
        '5'
    } else if d == 6 {
        '6'
    } else if d == 7 {
        '7'
    } else if d == 8 {
        '8'
    } else {
        '9'
    }
}

/// The usual decimal notation of a non-negative integer, without leading
/// zeros (except for zero itself).
pub open spec fn dec_rep(n: int) -> Seq<char>
    decreases n,
{
    if n < 0 {
        Seq::empty()
    } else if n < 10 {
        seq![digit_char(n)]
    } else {
        dec_rep(n / 10).push(digit_char(n % 10))
    }
}

/// Decimal notation of an integer: a minus sign before the digits when the
/// value is negative.
pub open spec fn int_rep(n: int) -> Seq<char> {
    if n < 0 {
        seq!['-'] + dec_rep(-n)
    } else {
        dec_rep(n)
    }
}

fn digit_of(d: u64) -> (r: char)
    requires
        d < 10,
    ensures
        r == digit_char(d as int),
{
    match d {
        0 => '0',
        1 => '1',
        2 => '2',
        3 => '3',
        4 => '4',
        5 => '5',
        6 => '6',
        7 => '7',
        8 => '8',
        _ => '9',
    }
}

fn u64_dec_digits(n: u64) -> (r: Vec<char>)
    ensures
        r@ == dec_rep(n as int),
    decreases n,
{
    if n < 10 {
        let mut v: Vec<char> = Vec::new();
        v.push(digit_of(n));
        assert(v@ =~= seq![digit_char(n as int)]);
        v
    } else {
        let mut v = u64_dec_digits(n / 10);
        v.push(digit_of(n % 10));
        v
    }
}

/// The decimal notation of `n`.
pub fn u64_to_string(n: u64) -> (r: String)
    ensures
        r@ == dec_rep(n as int),
{
    let digits = u64_dec_digits(n);
    string_of_chars(&digits)
}

/// The decimal notation of `n`, with a minus sign when negative.
pub fn i32_to_string(n: i32) -> (r: String)
    ensures
        r@ == int_rep(n as int),
{
    if n >= 0 {
        u64_to_string(n as u64)
    } else {
        let mag = (-(n as i64)) as u64;
        let digits = u64_dec_digits(mag);
        let tail = string_of_chars(&digits);
        let mut r = String::from_str("-");
        r.append(tail.as_str());
        proof {
            reveal_strlit("-");
            assert(r@ =~= seq!['-'] + dec_rep(mag as int));
        }
        r
    }
}

/// Decimal notation padded on the left with one zero when the value has a
/// single digit.
pub open spec fn pad2_spec(n: int) -> Seq<char> {
    if 0 <= n < 10 {
        seq!['0'] + dec_rep(n)
    } else {
        dec_rep(n)
    }
}

/// The decimal notation of `n`, left-padded to at least two digits.
pub fn pad2(n: usize) -> (r: String)
    ensures
        r@ == pad2_spec(n as int),
{
    let digits = u64_dec_digits(n as u64);
    let tail = string_of_chars(&digits);
    if n < 10 {
        let mut r = String::from_str("0");
        r.append(tail.as_str());
        proof {
            reveal_strlit("0");
            assert(r@ =~= seq!['0'] + dec_rep(n as int));
        }
        r
    } else {
        tail
    }
}

} // verus!
