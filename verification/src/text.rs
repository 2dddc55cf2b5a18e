//! Verified helpers on characters and strings: whitespace, trimming,
//! searching and decimal numerals.

use vstd::prelude::*;

verus! {

/// The characters of `s`, in order.
pub fn chars_of(s: &str) -> (v: Vec<char>)
    ensures
        v@ == s@,
{
    let mut v: Vec<char> = Vec::new();
    for c in it: s.chars()
        invariant
            v@ == it.seq().take(it.index() as int),
    {
        v.push(c);
    }
    v
}

/// Unicode's `White_Space` property, the set that `char::is_whitespace`
/// and `str::trim` use.
pub open spec fn is_white_space(c: char) -> bool {
    let n: u32 = c as u32;
    ||| 0x9 <= n <= 0xd
    ||| n == 0x20
    ||| n == 0x85
    ||| n == 0xa0
    ||| n == 0x1680
    ||| 0x2000 <= n <= 0x200a
    ||| n == 0x2028
    ||| n == 0x2029
    ||| n == 0x202f
    ||| n == 0x205f
    ||| n == 0x3000
}

/// Whether `c` is a Unicode white-space character.
pub fn is_white_space_char(c: char) -> (b: bool)
    ensures
        b == is_white_space(c),
{
    let n: u32 = c as u32;
    (0x9 <= n && n <= 0xd) || n == 0x20 || n == 0x85 || n == 0xa0 || n == 0x1680 || (0x2000
        <= n && n <= 0x200a) || n == 0x2028 || n == 0x2029 || n == 0x202f || n == 0x205f || n
        == 0x3000
}

/// `s` without its leading white space.
pub open spec fn trim_start(s: Seq<char>) -> Seq<char>
    decreases s.len(),
{
    if s.len() > 0 && is_white_space(s[0]) {
        trim_start(s.drop_first())
    } else {
        s
    }
}

/// `s` without its trailing white space.
pub open spec fn trim_end(s: Seq<char>) -> Seq<char>
    decreases s.len(),
{
    if s.len() > 0 && is_white_space(s.last()) {
        trim_end(s.drop_last())
    } else {
        s
    }
}

/// `s` without leading and trailing white space, as `str::trim` gives it.
pub open spec fn trim(s: Seq<char>) -> Seq<char> {
    trim_end(trim_start(s))
}

/// `s` without all the copies of `c` at its end, as
/// `str::trim_end_matches(c)` gives it.
pub open spec fn trim_end_char(s: Seq<char>, c: char) -> Seq<char>
    decreases s.len(),
{
    if s.len() > 0 && s.last() == c {
        trim_end_char(s.drop_last(), c)
    } else {
        s
    }
}

/// Whether `s` begins with `prefix`.
pub open spec fn starts_with(s: Seq<char>, prefix: Seq<char>) -> bool {
    prefix.len() <= s.len() && s.take(prefix.len() as int) == prefix
}

/// `prefix + rest` begins with `prefix`.
pub proof fn starts_with_concat(prefix: Seq<char>, rest: Seq<char>)
    ensures
        starts_with(prefix + rest, prefix),
{
    assert((prefix + rest).take(prefix.len() as int) =~= prefix);
}

/// Whether every character of `s` is white space.
pub open spec fn is_blank(s: Seq<char>) -> bool {
    forall|i: int| 0 <= i < s.len() ==> is_white_space(#[trigger] s[i])
}

proof fn lemma_trim_start_of_blank(s: Seq<char>)
    ensures
        is_blank(s) ==> trim_start(s).len() == 0,
        !is_blank(s) ==> trim_start(s).len() > 0 && !is_white_space(trim_start(s)[0]),
    decreases s.len(),
{
    if s.len() > 0 {
        lemma_trim_start_of_blank(s.drop_first());
        if is_white_space(s[0]) {
            if !is_blank(s) {
                let k = choose|k: int| 0 <= k < s.len() && !is_white_space(#[trigger] s[k]);
                assert(!is_white_space(s.drop_first()[k - 1]));
            } else {
                assert forall|k: int| 0 <= k < s.drop_first().len() implies is_white_space(
                    #[trigger] s.drop_first()[k],
                ) by {
                    assert(s.drop_first()[k] == s[k + 1]);
                }
            }
        }
    }
}

proof fn lemma_trim_end_keeps_first(s: Seq<char>)
    requires
        s.len() > 0,
        !is_white_space(s[0]),
    ensures
        trim_end(s).len() > 0,
    decreases s.len(),
{
    if s.len() > 1 && is_white_space(s.last()) {
        lemma_trim_end_keeps_first(s.drop_last());
    }
}

/// Text is blank (all white space) exactly when trimming leaves nothing of
/// it, which is how standard input is judged empty.
pub proof fn blank_iff_trimmed_empty(s: Seq<char>)
    ensures
        is_blank(s) <==> trim(s).len() == 0,
{
    lemma_trim_start_of_blank(s);
    if !is_blank(s) {
        lemma_trim_end_keeps_first(trim_start(s));
    }
}

proof fn lemma_trim_start_skip(s: Seq<char>, i: int)
    requires
        0 <= i < s.len(),
        is_white_space(s[i]),
    ensures
        trim_start(s.subrange(i, s.len() as int)) == trim_start(s.subrange(i + 1, s.len() as int)),
{
    assert(s.subrange(i, s.len() as int).drop_first() =~= s.subrange(i + 1, s.len() as int));
}

proof fn lemma_drop_last_subrange(s: Seq<char>, lo: int, j: int)
    requires
        0 <= lo < j <= s.len(),
    ensures
        s.subrange(lo, j).drop_last() == s.subrange(lo, j - 1),
        s.subrange(lo, j).last() == s[j - 1],
{
    assert(s.subrange(lo, j).drop_last() =~= s.subrange(lo, j - 1));
}

/// The bounds of `chars[lo..hi]` once its leading and trailing white space
/// is removed.
pub fn trim_span(chars: &Vec<char>, lo: usize, hi: usize) -> (r: (usize, usize))
    requires
        lo <= hi <= chars.len(),
    ensures
        lo <= r.0 <= r.1 <= hi,
        chars@.subrange(r.0 as int, r.1 as int) == trim(chars@.subrange(lo as int, hi as int)),
{
    let ghost s = chars@.subrange(0, hi as int);
    let mut i: usize = lo;
    while i < hi && is_white_space_char(chars[i])
        invariant
            lo <= i <= hi <= chars.len(),
            s == chars@.subrange(0, hi as int),
            trim_start(s.subrange(lo as int, hi as int)) == trim_start(
                s.subrange(i as int, hi as int),
            ),
        decreases hi - i,
    {
        proof {
            lemma_trim_start_skip(s, i as int);
        }
        i = i + 1;
    }
    proof {
        let t = s.subrange(i as int, hi as int);
        assert(t.len() > 0 ==> t[0] == chars@[i as int]);
        assert(trim_start(t) == t);
        assert(s.subrange(lo as int, hi as int) =~= chars@.subrange(lo as int, hi as int));
        assert(t =~= chars@.subrange(i as int, hi as int));
    }
    let j: (usize, usize) = trim_end_span(chars, i, hi);
    j
}

/// The bounds of `chars[lo..hi]` once its trailing white space is removed.
fn trim_end_span(chars: &Vec<char>, lo: usize, hi: usize) -> (r: (usize, usize))
    requires
        lo <= hi <= chars.len(),
    ensures
        r.0 == lo,
        lo <= r.1 <= hi,
        chars@.subrange(lo as int, r.1 as int) == trim_end(chars@.subrange(lo as int, hi as int)),
{
    let mut j: usize = hi;
    while j > lo && is_white_space_char(chars[j - 1])
        invariant
            lo <= j <= hi <= chars.len(),
            trim_end(chars@.subrange(lo as int, hi as int)) == trim_end(
                chars@.subrange(lo as int, j as int),
            ),
        decreases j - lo,
    {
        proof {
            lemma_drop_last_subrange(chars@, lo as int, j as int);
        }
        j = j - 1;
    }
    proof {
        if j > lo {
            lemma_drop_last_subrange(chars@, lo as int, j as int);
        }
    }
    (lo, j)
}

/// The end of `chars[lo..hi]` once all the copies of `c` at its end are
/// removed.
pub fn trim_end_char_span(chars: &Vec<char>, lo: usize, hi: usize, c: char) -> (end: usize)
    requires
        lo <= hi <= chars.len(),
    ensures
        lo <= end <= hi,
        chars@.subrange(lo as int, end as int) == trim_end_char(
            chars@.subrange(lo as int, hi as int),
            c,
        ),
{
    let mut j: usize = hi;
    while j > lo && chars[j - 1] == c
        invariant
            lo <= j <= hi <= chars.len(),
            trim_end_char(chars@.subrange(lo as int, hi as int), c) == trim_end_char(
                chars@.subrange(lo as int, j as int),
                c,
            ),
        decreases j - lo,
    {
        proof {
            lemma_drop_last_subrange(chars@, lo as int, j as int);
        }
        j = j - 1;
    }
    proof {
        if j > lo {
            lemma_drop_last_subrange(chars@, lo as int, j as int);
        }
    }
    j
}

/// Whether every character of `s` is white space (so `s.trim()` is empty).
pub fn is_blank_str(s: &str) -> (b: bool)
    ensures
        b == is_blank(s@),
{
    for c in it: s.chars()
        invariant
            it.seq() == s@,
            forall|k: int| 0 <= k < it.index() ==> is_white_space(#[trigger] s@[k]),
    {
        if !is_white_space_char(c) {
            assert(!is_white_space(s@[it.index() as int]));
            return false;
        }
    }
    true
}

/// Whether `needle` occurs in `s` starting at index `i`.
pub open spec fn occurs_at(s: Seq<char>, needle: Seq<char>, i: int) -> bool {
    &&& 0 <= i
    &&& i + needle.len() <= s.len()
    &&& s.subrange(i, i + needle.len()) == needle
}

/// Whether `i` is the first index at which `needle` occurs in `s`.
pub open spec fn first_occurrence_at(s: Seq<char>, needle: Seq<char>, i: int) -> bool {
    &&& occurs_at(s, needle, i)
    &&& forall|j: int| 0 <= j < i ==> !occurs_at(s, needle, j)
}

/// Whether `needle` occurs in `chars` at index `i`.
fn matches_at(chars: &Vec<char>, needle: &Vec<char>, i: usize) -> (b: bool)
    requires
        i <= chars.len(),
    ensures
        b == occurs_at(chars@, needle@, i as int),
{
    if needle.len() > chars.len() - i {
        return false;
    }
    let mut k: usize = 0;
    while k < needle.len()
        invariant
            i + needle.len() <= chars.len(),
            k <= needle.len(),
            forall|t: int| 0 <= t < k ==> chars@[i + t] == needle@[t],
        decreases needle.len() - k,
    {
        if chars[i + k] != needle[k] {
            assert(chars@.subrange(i as int, i + needle.len())[k as int] != needle@[k as int]);
            return false;
        }
        k = k + 1;
    }
    assert(chars@.subrange(i as int, i + needle.len()) =~= needle@);
    true
}

/// The first index at which `needle` occurs in `chars`, as `str::find`
/// gives it (counted in characters).
pub fn find_chars(chars: &Vec<char>, needle: &Vec<char>) -> (r: Option<usize>)
    ensures
        match r {
            Some(i) => first_occurrence_at(chars@, needle@, i as int),
            None => forall|j: int| !occurs_at(chars@, needle@, j),
        },
{
    let mut i: usize = 0;
    while i < chars.len()
        invariant
            i <= chars.len(),
            forall|j: int| 0 <= j < i ==> !occurs_at(chars@, needle@, j),
        decreases chars.len() - i,
    {
        if matches_at(chars, needle, i) {
            return Some(i);
        }
        i = i + 1;
    }
    if matches_at(chars, needle, i) {
        return Some(i);
    }
    None
}

/// Whether `a` and `b` hold the same characters.
pub fn str_equals(a: &str, b: &str) -> (r: bool)
    ensures
        r == (a@ == b@),
{
    let x = chars_of(a);
    let y = chars_of(b);
    if x.len() != y.len() {
        return false;
    }
    let mut k: usize = 0;
    while k < x.len()
        invariant
            x@ == a@,
            y@ == b@,
            x.len() == y.len(),
            k <= x.len(),
            forall|t: int| 0 <= t < k ==> x@[t] == y@[t],
        decreases x.len() - k,
    {
        if x[k] != y[k] {
            assert(a@[k as int] != b@[k as int]);
            return false;
        }
        k = k + 1;
    }
    assert(x@ =~= y@);
    true
}

/// The character of a decimal digit.
pub open spec fn digit_char(d: nat) -> char {
    (48 + d) as char
}

/// The decimal numeral of `n`, as `u64`'s `Display` writes it.
pub open spec fn decimal(n: nat) -> Seq<char>
    decreases n,
{
    if n < 10 {
        seq![digit_char(n)]
    } else {
        decimal(n / 10).push(digit_char(n % 10))
    }
}

/// The one-character string of a decimal digit.
fn digit_str(d: u64) -> (s: &'static str)
    requires
        d < 10,
    ensures
        s@ == seq![digit_char(d as nat)],
{
    proof {
        reveal_strlit("0");
        reveal_strlit("1");
        reveal_strlit("2");
        reveal_strlit("3");
        reveal_strlit("4");
        reveal_strlit("5");
        reveal_strlit("6");
        reveal_strlit("7");
        reveal_strlit("8");
        reveal_strlit("9");
    }
    if d == 0 {
        "0"
    } else if d == 1 {
        "1"
    } else if d == 2 {
        "2"
    } else if d == 3 {
        "3"
    } else if d == 4 {
        "4"
    } else if d == 5 {
        "5"
    } else if d == 6 {
        "6"
    } else if d == 7 {
        "7"
    } else if d == 8 {
        "8"
    } else {
        "9"
    }
}

/// Appends the decimal numeral of `n` to `out`.
pub fn push_decimal(out: &mut String, n: u64)
    ensures
        final(out)@ == old(out)@ + decimal(n as nat),
    decreases n,
{
    if n >= 10 {
        push_decimal(out, n / 10);
    }
    out.append(digit_str(n % 10));
    assert(decimal(n as nat) == if n < 10 {
        seq![digit_char(n as nat)]
    } else {
        decimal((n / 10) as nat).push(digit_char((n % 10) as nat))
    });
}

} // verus!
