//! Small verified string utilities: equality, suffix tests, slash
//! trimming and decimal formatting, each proved against a direct
//! mathematical statement.

use vstd::prelude::*;

verus! {

/// `s` ends in `suffix`.
pub open spec fn ends_with(s: Seq<char>, suffix: Seq<char>) -> bool {
    s.len() >= suffix.len() && s.skip(s.len() - suffix.len()) == suffix
}

/// String equality on the character sequences.
pub fn str_eq(a: &str, b: &str) -> (r: bool)
    ensures
        r == (a@ == b@),
{
    let sa = String::from_str(a);
    let sb = String::from_str(b);
    sa == sb
}

/// Whether `s` ends in `suffix`, by comparing the characters.
pub fn str_ends_with(s: &str, suffix: &str) -> (r: bool)
    ensures
        r == ends_with(s@, suffix@),
{
    let n = s.unicode_len();
    let m = suffix.unicode_len();
    if n < m {
        assert(!ends_with(s@, suffix@));
        return false;
    }
    let offset = n - m;
    let mut i: usize = 0;
    while i < m
        invariant
            0 <= i <= m,
            m <= n,
            offset == n - m,
            n == s@.len(),
            m == suffix@.len(),
            forall|j: int| 0 <= j < i ==> s@[offset + j] == suffix@[j],
        decreases m - i,
    {
        if s.get_char(offset + i) != suffix.get_char(i) {
            assert(s@.skip(n - m as int)[i as int] != suffix@[i as int]);
            return false;
        }
        i += 1;
    }
    assert(s@.skip(n - m as int) =~= suffix@);
    true
}

/// The index of the first name in `names` that ends in `suffix`.
pub fn find_with_suffix(names: &Vec<String>, suffix: &str) -> (r: Option<usize>)
    ensures
        r matches Some(i) ==> i < names@.len() && ends_with(names@[i as int]@, suffix@) && (forall|
            j: int,
        |
            0 <= j < i ==> !ends_with(names@[j]@, suffix@)),
        r is None ==> forall|j: int| 0 <= j < names@.len() ==> !ends_with(names@[j]@, suffix@),
{
    let mut i: usize = 0;
    while i < names.len()
        invariant
            0 <= i <= names@.len(),
            forall|j: int| 0 <= j < i ==> !ends_with(names@[j]@, suffix@),
        decreases names@.len() - i,
    {
        if str_ends_with(names[i].as_str(), suffix) {
            return Some(i);
        }
        i += 1;
    }
    None
}

/// `s` with every leading '/' removed.
pub open spec fn trim_leading_slashes(s: Seq<char>) -> Seq<char>
    decreases s.len(),
{
    if s.len() > 0 && s[0] == '/' {
        trim_leading_slashes(s.skip(1))
    } else {
        s
    }
}

/// `s` with every trailing '/' removed.
pub open spec fn trim_trailing_slashes(s: Seq<char>) -> Seq<char>
    decreases s.len(),
{
    if s.len() > 0 && s[s.len() - 1] == '/' {
        trim_trailing_slashes(s.take(s.len() - 1))
    } else {
        s
    }
}

/// `s` with every leading and trailing '/' removed.
pub open spec fn trim_slashes(s: Seq<char>) -> Seq<char> {
    trim_trailing_slashes(trim_leading_slashes(s))
}

proof fn lemma_trim_leading_prefix(s: Seq<char>, k: int)
    requires
        0 <= k <= s.len(),
        forall|j: int| 0 <= j < k ==> s[j] == '/',
    ensures
        trim_leading_slashes(s) == trim_leading_slashes(s.skip(k)),
    decreases k,
{
    if k > 0 {
        assert(s.len() > 0 && s[0] == '/');
        assert(trim_leading_slashes(s) == trim_leading_slashes(s.skip(1)));
        lemma_trim_leading_prefix(s.skip(1), k - 1);
        assert(s.skip(1).skip(k - 1) =~= s.skip(k));
    } else {
        assert(s.skip(0) =~= s);
    }
}

proof fn lemma_trim_trailing_suffix(s: Seq<char>, k: int)
    requires
        0 <= k <= s.len(),
        forall|j: int| s.len() - k <= j < s.len() ==> s[j] == '/',
    ensures
        trim_trailing_slashes(s) == trim_trailing_slashes(s.take(s.len() - k)),
    decreases k,
{
    if k > 0 {
        assert(s.len() > 0 && s[s.len() - 1] == '/');
        assert(trim_trailing_slashes(s) == trim_trailing_slashes(s.take(s.len() - 1)));
        lemma_trim_trailing_suffix(s.take(s.len() - 1), k - 1);
        assert(s.take(s.len() - 1).take(s.len() - k) =~= s.take(s.len() - k));
    } else {
        assert(s.take(s.len() as int) =~= s);
    }
}

/// `s` with the '/' characters stripped from both ends, as the uploader's
/// remote path syntax wants its segments.
pub fn str_trim_slashes(s: &str) -> (r: String)
    ensures
        r@ == trim_slashes(s@),
{
    let n = s.unicode_len();
    let mut start: usize = 0;
    while start < n && s.get_char(start) == '/'
        invariant
            0 <= start <= n,
            n == s@.len(),
            forall|j: int| 0 <= j < start ==> s@[j] == '/',
        decreases n - start,
    {
        start += 1;
    }
    proof {
        lemma_trim_leading_prefix(s@, start as int);
        if start < n {
            assert(s@.skip(start as int)[0] == s@[start as int]);
        }
        assert(trim_leading_slashes(s@) == s@.skip(start as int));
    }
    let mut end: usize = n;
    while end > start && s.get_char(end - 1) == '/'
        invariant
            start <= end <= n,
            n == s@.len(),
            trim_leading_slashes(s@) == s@.skip(start as int),
            forall|j: int| end <= j < n ==> s@[j] == '/',
        decreases end,
    {
        end -= 1;
    }
    proof {
        let t = s@.skip(start as int);
        assert(forall|j: int| end - start <= j < t.len() ==> t[j] == '/');
        lemma_trim_trailing_suffix(t, t.len() - (end - start));
        assert(t.take(end - start) =~= s@.subrange(start as int, end as int));
        if end > start {
            assert(t.take(end - start)[end - start - 1] == s@[end - 1]);
            assert(trim_trailing_slashes(t.take(end - start)) == t.take(end - start));
        } else {
            assert(t.take(0).len() == 0);
        }
    }
    let r = s.substring_char(start, end);
    String::from_str(r)
}

/// The decimal digit character for `d`.
pub open spec fn digit_char(d: int) -> char {
    if d == 0 {
        '0'
    } else if d == 1 {
        '1'
    } else if d == 2 {
        '2'
    } else if d == 3 {
        '3'
    } else if d == 4 {
        '4'
    } else if d == 5 {
        '5'
    } else if d == 6 {
        '6'
    } else if d == 7 {
        '7'
    } else if d == 8 {
        '8'
    } else {
        '9'
    }
}

/// The decimal digit sequence of `n`, most significant digit first, with
/// no leading zeros (a single '0' for zero).
pub open spec fn dec_digits(n: int) -> Seq<char>
    decreases n,
{
    if n < 10 {
        seq![digit_char(n)]
    } else {
        dec_digits(n / 10).push(digit_char(n % 10))
    }
}

fn digit_str(d: u64) -> (r: &'static str)
    requires
        d < 10,
    ensures
        r@ == seq![digit_char(d as int)],
{
    proof {
        reveal_strlit("0");
        reveal_strlit("1");
        reveal_strlit("2");
        reveal_strlit("3");
        reveal_strlit("4");
        reveal_strlit("5");
        reveal_strlit("6");
        reveal_strlit("7");
        reveal_strlit("8");
        reveal_strlit("9");
    }
    if d == 0 {
        "0"
    } else if d == 1 {
        "1"
    } else if d == 2 {
        "2"
    } else if d == 3 {
        "3"
    } else if d == 4 {
        "4"
    } else if d == 5 {
        "5"
    } else if d == 6 {
        "6"
    } else if d == 7 {
        "7"
    } else if d == 8 {
        "8"
    } else {
        "9"
    }
}

/// `n` written in decimal.
pub fn u64_to_dec(n: u64) -> (r: String)
    ensures
        r@ == dec_digits(n as int),
    decreases n,
{
    if n < 10 {
        String::from_str(digit_str(n))
    } else {
        let prefix = u64_to_dec(n / 10);
        let r = prefix.concat(digit_str(n % 10));
        proof {
            assert(r@ =~= dec_digits(n as int));
        }
        r
    }
}

} // verus!
