//! Character-level string operations used throughout the library, each
//! stated over the `Seq<char>` view of the strings involved.

use vstd::prelude::*;

verus! {

/// The Unicode `White_Space` property: the characters that
/// `char::is_whitespace` accepts.
pub open spec fn is_space(c: char) -> bool {
    let u = c as u32;
    ||| 0x09 <= u <= 0x0d
    ||| u == 0x20
    ||| u == 0x85
    ||| u == 0xa0
    ||| u == 0x1680
    ||| 0x2000 <= u <= 0x200a
    ||| u == 0x2028
    ||| u == 0x2029
    ||| u == 0x202f
    ||| u == 0x205f
    ||| u == 0x3000
}

/// Tests `is_space`.
pub fn char_is_space(c: char) -> (b: bool)
    ensures
        b == is_space(c),
{
    let u = c as u32;
    (0x09 <= u && u <= 0x0d) || u == 0x20 || u == 0x85 || u == 0xa0 || u == 0x1680 || (0x2000
        <= u && u <= 0x200a) || u == 0x2028 || u == 0x2029 || u == 0x202f || u == 0x205f || u
        == 0x3000
}

/// `s` with every leading character that satisfies `p` removed.
pub open spec fn drop_leading(s: Seq<char>, p: spec_fn(char) -> bool) -> Seq<char>
    decreases s.len(),
{
    if s.len() > 0 && p(s[0]) {
        drop_leading(s.drop_first(), p)
    } else {
        s
    }
}

/// `s` with every trailing character that satisfies `p` removed.
pub open spec fn drop_trailing(s: Seq<char>, p: spec_fn(char) -> bool) -> Seq<char>
    decreases s.len(),
{
    if s.len() > 0 && p(s.last()) {
        drop_trailing(s.drop_last(), p)
    } else {
        s
    }
}

pub open spec fn space_pred() -> spec_fn(char) -> bool {
    |c: char| is_space(c)
}

pub open spec fn char_pred(c: char) -> spec_fn(char) -> bool {
    |x: char| x == c
}

/// What `str::trim` returns: `s` without leading and trailing white space.
pub open spec fn trim(s: Seq<char>) -> Seq<char> {
    drop_trailing(drop_leading(s, space_pred()), space_pred())
}

/// What `str::trim_end_matches(c)` returns for a single character `c`.
pub open spec fn trim_end_char(s: Seq<char>, c: char) -> Seq<char> {
    drop_trailing(s, char_pred(c))
}

/// A string is blank when it holds nothing but white space.
pub open spec fn is_blank(s: Seq<char>) -> bool {
    forall|i: int| 0 <= i < s.len() ==> is_space(#[trigger] s[i])
}

pub proof fn lemma_drop_leading_skip(s: Seq<char>, p: spec_fn(char) -> bool, i: int)
    requires
        0 <= i <= s.len(),
        forall|j: int| 0 <= j < i ==> p(#[trigger] s[j]),
    ensures
        drop_leading(s, p) == drop_leading(s.skip(i), p),
    decreases i,
{
    if i > 0 {
        assert(p(s[0]));
        let t = s.drop_first();
        assert forall|j: int| 0 <= j < i - 1 implies p(#[trigger] t[j]) by {
            assert(t[j] == s[j + 1]);
        }
        lemma_drop_leading_skip(t, p, i - 1);
        assert(t.skip(i - 1) =~= s.skip(i));
    } else {
        assert(s.skip(0) =~= s);
    }
}

pub proof fn lemma_drop_trailing_take(s: Seq<char>, p: spec_fn(char) -> bool, j: int)
    requires
        0 <= j <= s.len(),
        forall|k: int| j <= k < s.len() ==> p(#[trigger] s[k]),
    ensures
        drop_trailing(s, p) == drop_trailing(s.take(j), p),
    decreases s.len() - j,
{
    if j < s.len() {
        assert(p(s.last()));
        let t = s.drop_last();
        assert forall|k: int| j <= k < t.len() implies p(#[trigger] t[k]) by {
            assert(t[k] == s[k]);
        }
        lemma_drop_trailing_take(t, p, j);
        assert(t.take(j) =~= s.take(j));
    } else {
        assert(s.take(j) =~= s);
    }
}

/// The first index from which no leading character satisfies `p`, as a
/// prefix of `s` that `drop_leading` removes.
pub proof fn lemma_drop_leading_stop(s: Seq<char>, p: spec_fn(char) -> bool, i: int)
    requires
        0 <= i <= s.len(),
        forall|j: int| 0 <= j < i ==> p(#[trigger] s[j]),
        i == s.len() || !p(s[i]),
    ensures
        drop_leading(s, p) == s.skip(i),
{
    lemma_drop_leading_skip(s, p, i);
    let t = s.skip(i);
    if t.len() > 0 {
        assert(t[0] == s[i]);
    }
}

pub proof fn lemma_drop_trailing_stop(s: Seq<char>, p: spec_fn(char) -> bool, j: int)
    requires
        0 <= j <= s.len(),
        forall|k: int| j <= k < s.len() ==> p(#[trigger] s[k]),
        j == 0 || !p(s[j - 1]),
    ensures
        drop_trailing(s, p) == s.take(j),
{
    lemma_drop_trailing_take(s, p, j);
    let t = s.take(j);
    if t.len() > 0 {
        assert(t.last() == s[j - 1]);
    }
}

pub proof fn lemma_drop_leading_shape(s: Seq<char>, p: spec_fn(char) -> bool)
    ensures
        exists|k: int|
            0 <= k <= s.len() && (forall|j: int| 0 <= j < k ==> p(#[trigger] s[j])) && (k
                == s.len() || !p(s[k])) && drop_leading(s, p) == s.skip(k),
    decreases s.len(),
{
    if s.len() > 0 && p(s[0]) {
        let t = s.drop_first();
        lemma_drop_leading_shape(t, p);
        let k = choose|k: int|
            0 <= k <= t.len() && (forall|j: int| 0 <= j < k ==> p(#[trigger] t[j])) && (k
                == t.len() || !p(t[k])) && drop_leading(t, p) == t.skip(k);
        assert(t.skip(k) =~= s.skip(k + 1));
        assert forall|j: int| 0 <= j < k + 1 implies p(#[trigger] s[j]) by {
            if j > 0 {
                assert(s[j] == t[j - 1]);
            }
        }
        if k < t.len() {
            assert(s[k + 1] == t[k]);
        }
    } else {
        assert(s.skip(0) =~= s);
    }
}

pub proof fn lemma_drop_trailing_shape(s: Seq<char>, p: spec_fn(char) -> bool)
    ensures
        exists|k: int|
            0 <= k <= s.len() && (forall|j: int| k <= j < s.len() ==> p(#[trigger] s[j])) && (k
                == 0 || !p(s[k - 1])) && drop_trailing(s, p) == s.take(k),
    decreases s.len(),
{
    if s.len() > 0 && p(s.last()) {
        let t = s.drop_last();
        lemma_drop_trailing_shape(t, p);
        let k = choose|k: int|
            0 <= k <= t.len() && (forall|j: int| k <= j < t.len() ==> p(#[trigger] t[j])) && (k
                == 0 || !p(t[k - 1])) && drop_trailing(t, p) == t.take(k);
        assert(t.take(k) =~= s.take(k));
        assert forall|j: int| k <= j < s.len() implies p(#[trigger] s[j]) by {
            if j < t.len() {
                assert(s[j] == t[j]);
            }
        }
        if k > 0 {
            assert(s[k - 1] == t[k - 1]);
        }
    } else {
        assert(s.take(s.len() as int) =~= s);
    }
}

/// The result of `drop_trailing` never ends with a character it drops.
pub proof fn lemma_drop_trailing_last(s: Seq<char>, p: spec_fn(char) -> bool)
    ensures
        drop_trailing(s, p).len() > 0 ==> !p(drop_trailing(s, p).last()),
        drop_trailing(s, p).len() <= s.len(),
        drop_trailing(s, p) == s.take(drop_trailing(s, p).len() as int),
    decreases s.len(),
{
    lemma_drop_trailing_shape(s, p);
    let k = choose|k: int|
        0 <= k <= s.len() && (forall|j: int| k <= j < s.len() ==> p(#[trigger] s[j])) && (k == 0
            || !p(s[k - 1])) && drop_trailing(s, p) == s.take(k);
    if k > 0 {
        assert(s.take(k).last() == s[k - 1]);
    }
}

/// Removing a trailing run twice is removing it once.
pub proof fn lemma_drop_trailing_idem(s: Seq<char>, p: spec_fn(char) -> bool)
    ensures
        drop_trailing(drop_trailing(s, p), p) == drop_trailing(s, p),
{
    lemma_drop_trailing_last(s, p);
    let t = drop_trailing(s, p);
    lemma_drop_trailing_stop(t, p, t.len() as int);
    assert(t.take(t.len() as int) =~= t);
}

/// Nothing is dropped from the end of a string that does not end with a
/// character `p` accepts.
pub proof fn lemma_drop_trailing_noop(s: Seq<char>, p: spec_fn(char) -> bool)
    requires
        s.len() == 0 || !p(s.last()),
    ensures
        drop_trailing(s, p) == s,
{
}

/// Nothing is dropped from the start of a string that does not start with a
/// character `p` accepts.
pub proof fn lemma_drop_leading_noop(s: Seq<char>, p: spec_fn(char) -> bool)
    requires
        s.len() == 0 || !p(s[0]),
    ensures
        drop_leading(s, p) == s,
{
}

/// Dropping from the start of `a + b` stops inside `a` when `a` holds a
/// character that `p` refuses.
pub proof fn lemma_drop_leading_concat(a: Seq<char>, b: Seq<char>, p: spec_fn(char) -> bool, j: int)
    requires
        0 <= j < a.len(),
        !p(a[j]),
    ensures
        drop_leading(a + b, p) == drop_leading(a, p) + b,
    decreases a.len(),
{
    let ab = a + b;
    if p(a[0]) {
        assert(ab[0] == a[0]);
        assert(ab.drop_first() =~= a.drop_first() + b);
        assert(a.drop_first()[j - 1] == a[j]);
        lemma_drop_leading_concat(a.drop_first(), b, p, j - 1);
    } else {
        assert(ab[0] == a[0]);
    }
}

/// `trim` leaves nothing exactly when the string is blank.
pub proof fn lemma_trim_empty_iff_blank(s: Seq<char>)
    ensures
        (trim(s).len() == 0) == is_blank(s),
{
    let sp = space_pred();
    lemma_drop_leading_shape(s, sp);
    let k = choose|k: int|
        0 <= k <= s.len() && (forall|j: int| 0 <= j < k ==> sp(#[trigger] s[j])) && (k == s.len()
            || !sp(s[k])) && drop_leading(s, sp) == s.skip(k);
    let t = s.skip(k);
    if k < s.len() {
        assert(t[0] == s[k]);
        lemma_drop_trailing_shape(t, sp);
        let m = choose|m: int|
            0 <= m <= t.len() && (forall|j: int| m <= j < t.len() ==> sp(#[trigger] t[j])) && (m
                == 0 || !sp(t[m - 1])) && drop_trailing(t, sp) == t.take(m);
        if m == 0 {
            assert(!sp(t[0]));
            assert(!is_space(s[k]));
        }
        assert(trim(s).len() == m);
        assert(!is_blank(s));
    } else {
        assert(t.len() == 0);
        assert forall|i: int| 0 <= i < s.len() implies is_space(#[trigger] s[i]) by {
            assert(sp(s[i]));
        }
    }
}

/// A non-empty `trim` result starts and ends with characters that are not
/// white space.
pub proof fn lemma_trim_ends(s: Seq<char>)
    ensures
        trim(s).len() > 0 ==> !is_space(trim(s)[0]) && !is_space(trim(s).last()),
{
    let sp = space_pred();
    lemma_drop_leading_shape(s, sp);
    let k = choose|k: int|
        0 <= k <= s.len() && (forall|j: int| 0 <= j < k ==> sp(#[trigger] s[j])) && (k == s.len()
            || !sp(s[k])) && drop_leading(s, sp) == s.skip(k);
    let t = s.skip(k);
    lemma_drop_trailing_last(t, sp);
    if trim(s).len() > 0 {
        assert(trim(s)[0] == t[0]);
        assert(t[0] == s[k]);
    }
}

/// `str::trim`.
pub fn trim_str(s: &str) -> (r: &str)
    ensures
        r@ == trim(s@),
{
    let n = s.unicode_len();
    let mut i: usize = 0;
    while i < n && char_is_space(s.get_char(i))
        invariant
            n == s@.len(),
            i <= n,
            forall|j: int| 0 <= j < i ==> is_space(#[trigger] s@[j]),
        decreases n - i,
    {
        i = i + 1;
    }
    let mut j: usize = n;
    while j > i && char_is_space(s.get_char(j - 1))
        invariant
            n == s@.len(),
            i <= j <= n,
            forall|k: int| j <= k < n ==> is_space(#[trigger] s@[k]),
        decreases j,
    {
        j = j - 1;
    }
    proof {
        let sp = space_pred();
        lemma_drop_leading_stop(s@, sp, i as int);
        let t = s@.skip(i as int);
        assert forall|k: int| j - i <= k < t.len() implies sp(#[trigger] t[k]) by {
            assert(t[k] == s@[k + i]);
        }
        if j > i {
            assert(t[j - i - 1] == s@[j - 1]);
        }
        lemma_drop_trailing_stop(t, sp, (j - i) as int);
        assert(t.take(j - i) =~= s@.subrange(i as int, j as int));
    }
    s.substring_char(i, j)
}

/// `str::trim_end_matches(c)` for a single character `c`.
pub fn trim_end_char_str(s: &str, c: char) -> (r: &str)
    ensures
        r@ == trim_end_char(s@, c),
{
    let n = s.unicode_len();
    let mut j: usize = n;
    while j > 0 && s.get_char(j - 1) == c
        invariant
            n == s@.len(),
            j <= n,
            forall|k: int| j <= k < n ==> #[trigger] s@[k] == c,
        decreases j,
    {
        j = j - 1;
    }
    proof {
        let p = char_pred(c);
        lemma_drop_trailing_stop(s@, p, j as int);
        assert(s@.take(j as int) =~= s@.subrange(0, j as int));
    }
    s.substring_char(0, j)
}


/// Whether `s` ends with `suffix`.
pub open spec fn has_suffix(s: Seq<char>, suffix: Seq<char>) -> bool {
    suffix.len() <= s.len() && s.subrange(s.len() - suffix.len(), s.len() as int) == suffix
}

/// What `str::strip_suffix` returns.
pub open spec fn strip_suffix(s: Seq<char>, suffix: Seq<char>) -> Option<Seq<char>> {
    if has_suffix(s, suffix) {
        Some(s.take(s.len() - suffix.len()))
    } else {
        None
    }
}

/// Whether `needle` occurs in `hay` at position `i`.
pub open spec fn occurs_at(hay: Seq<char>, needle: Seq<char>, i: int) -> bool {
    0 <= i && i + needle.len() <= hay.len() && hay.subrange(i, i + needle.len()) == needle
}

/// What `str::contains` returns for a string pattern.
pub open spec fn contains(hay: Seq<char>, needle: Seq<char>) -> bool {
    exists|i: int| occurs_at(hay, needle, i)
}

/// A string occurs in any text that has it between two parts.
pub proof fn lemma_contains_middle(a: Seq<char>, b: Seq<char>, c: Seq<char>)
    ensures
        contains(a + b + c, b),
{
    let t = a + b + c;
    assert(t.subrange(a.len() as int, (a.len() + b.len()) as int) =~= b);
    assert(occurs_at(t, b, a.len() as int));
}

/// The index of the first `c` in `s`, as `str::find` gives it.
pub open spec fn find_char(s: Seq<char>, c: char) -> Option<int>
    decreases s.len(),
{
    if s.len() == 0 {
        None
    } else if s[0] == c {
        Some(0)
    } else {
        match find_char(s.drop_first(), c) {
            Some(i) => Some(i + 1),
            None => None,
        }
    }
}

pub proof fn lemma_find_char_found(s: Seq<char>, c: char, k: int)
    requires
        0 <= k < s.len(),
        s[k] == c,
        forall|j: int| 0 <= j < k ==> s[j] != c,
    ensures
        find_char(s, c) == Some(k),
    decreases k,
{
    if k > 0 {
        let t = s.drop_first();
        assert(t[k - 1] == s[k]);
        assert forall|j: int| 0 <= j < k - 1 implies t[j] != c by {
            assert(t[j] == s[j + 1]);
        }
        lemma_find_char_found(t, c, k - 1);
    }
}

pub proof fn lemma_find_char_absent(s: Seq<char>, c: char)
    requires
        forall|j: int| 0 <= j < s.len() ==> s[j] != c,
    ensures
        find_char(s, c) is None,
    decreases s.len(),
{
    if s.len() > 0 {
        let t = s.drop_first();
        assert forall|j: int| 0 <= j < t.len() implies t[j] != c by {
            assert(t[j] == s[j + 1]);
        }
        lemma_find_char_absent(t, c);
    }
}

/// The decimal digit character for `d < 10`.
pub open spec fn digit_char(d: nat) -> char {
    if d == 0 {
        '0'
    } else if d == 1 {
        '1'
    } else if d == 2 {
        '2'
    } else if d == 3 {
        '3'
    } else if d == 4 {
        '4'
    } else if d == 5 {
        '5'
    } else if d == 6 {
        '6'
    } else if d == 7 {
        '7'
    } else if d == 8 {
        '8'
    } else {
        '9'
    }
}

/// The decimal notation of `n`, without sign or leading zeros, as
/// `Display` writes an unsigned integer.
pub open spec fn decimal(n: nat) -> Seq<char>
    decreases n,
{
    if n < 10 {
        seq![digit_char(n)]
    } else {
        decimal(n / 10).push(digit_char(n % 10))
    }
}

/// `String::push`: the string's characters gain `c` at the end.
#[verifier::external_body]
pub(crate) fn push_char(s: &mut String, c: char)
    ensures
        final(s)@ == old(s)@.push(c),
{
    s.push(c);
}

fn digit(d: u64) -> (c: char)
    requires
        d < 10,
    ensures
        c == digit_char(d as nat),
{
    if d == 0 {
        '0'
    } else if d == 1 {
        '1'
    } else if d == 2 {
        '2'
    } else if d == 3 {
        '3'
    } else if d == 4 {
        '4'
    } else if d == 5 {
        '5'
    } else if d == 6 {
        '6'
    } else if d == 7 {
        '7'
    } else if d == 8 {
        '8'
    } else {
        '9'
    }
}

/// Appends the decimal notation of `n` to `out`.
pub fn push_decimal(out: &mut String, n: u64)
    ensures
        final(out)@ == old(out)@ + decimal(n as nat),
    decreases n,
{
    if n >= 10 {
        push_decimal(out, n / 10);
    }
    push_char(out, digit(n % 10));
    proof {
        if n >= 10 {
            assert(old(out)@ + decimal(n as nat) =~= old(out)@ + decimal((n / 10) as nat) + seq![
                digit_char((n % 10) as nat),
            ]);
        } else {
            assert(old(out)@ + decimal(n as nat) =~= old(out)@.push(digit_char(n as nat)));
        }
    }
}

/// The concatenation of two strings as a new `String`.
pub fn concat2(a: &str, b: &str) -> (r: String)
    ensures
        r@ == a@ + b@,
{
    let mut r = String::from_str(a);
    r.append(b);
    r
}

/// Whether two strings hold the same characters.
pub fn str_eq(a: &str, b: &str) -> (r: bool)
    ensures
        r == (a@ == b@),
{
    let n = a.unicode_len();
    let m = b.unicode_len();
    if n != m {
        return false;
    }
    let mut i: usize = 0;
    while i < n
        invariant
            n == a@.len(),
            m == b@.len(),
            n == m,
            i <= n,
            forall|j: int| 0 <= j < i ==> a@[j] == b@[j],
        decreases n - i,
    {
        if a.get_char(i) != b.get_char(i) {
            return false;
        }
        i = i + 1;
    }
    assert(a@ =~= b@);
    true
}

/// Whether `needle` occurs in `hay` at character position `i`.
fn occurs_at_exec(hay: &str, needle: &str, i: usize) -> (r: bool)
    requires
        i <= hay@.len(),
    ensures
        r == occurs_at(hay@, needle@, i as int),
{
    let n = hay.unicode_len();
    let m = needle.unicode_len();
    if m > n - i {
        return false;
    }
    let mut k: usize = 0;
    while k < m
        invariant
            n == hay@.len(),
            m == needle@.len(),
            i + m <= n,
            k <= m,
            forall|j: int| 0 <= j < k ==> hay@[i + j] == needle@[j],
        decreases m - k,
    {
        if hay.get_char(i + k) != needle.get_char(k) {
            assert(hay@.subrange(i as int, i + m)[k as int] == hay@[i + k]);
            return false;
        }
        k = k + 1;
    }
    assert(hay@.subrange(i as int, i + m) =~= needle@);
    true
}

/// `str::contains` for a string pattern.
pub fn contains_str(hay: &str, needle: &str) -> (r: bool)
    ensures
        r == contains(hay@, needle@),
{
    let n = hay.unicode_len();
    let mut i: usize = 0;
    loop
        invariant
            n == hay@.len(),
            i <= n,
            forall|j: int| 0 <= j < i ==> !occurs_at(hay@, needle@, j),
        decreases n - i,
    {
        if occurs_at_exec(hay, needle, i) {
            return true;
        }
        if i == n {
            assert forall|j: int| !occurs_at(hay@, needle@, j) by {
                if 0 <= j && j + needle@.len() <= hay@.len() {
                    assert(j <= n);
                }
            }
            return false;
        }
        i = i + 1;
    }
}

/// `str::strip_suffix` for a string pattern.
pub fn strip_suffix_str<'a>(s: &'a str, suffix: &str) -> (r: Option<&'a str>)
    ensures
        match r {
            Some(t) => strip_suffix(s@, suffix@) == Some(t@),
            None => strip_suffix(s@, suffix@) is None,
        },
{
    let n = s.unicode_len();
    let m = suffix.unicode_len();
    if m > n {
        return None;
    }
    if occurs_at_exec(s, suffix, n - m) {
        Some(s.substring_char(0, n - m))
    } else {
        None
    }
}

/// `str::find` for a single character.
pub fn find_char_str(s: &str, c: char) -> (r: Option<usize>)
    ensures
        match r {
            Some(i) => find_char(s@, c) == Some(i as int),
            None => find_char(s@, c) is None,
        },
{
    let n = s.unicode_len();
    let mut i: usize = 0;
    while i < n
        invariant
            n == s@.len(),
            i <= n,
            forall|j: int| 0 <= j < i ==> s@[j] != c,
        decreases n - i,
    {
        if s.get_char(i) == c {
            proof {
                lemma_find_char_found(s@, c, i as int);
            }
            return Some(i);
        }
        i = i + 1;
    }
    proof {
        lemma_find_char_absent(s@, c);
    }
    None
}


pub proof fn lemma_find_char_some(s: Seq<char>, c: char)
    ensures
        find_char(s, c) matches Some(i) ==> 0 <= i < s.len() && s[i] == c,
    decreases s.len(),
{
    if s.len() > 0 && s[0] != c {
        lemma_find_char_some(s.drop_first(), c);
    }
}

/// The characters of each string in `v`.
pub open spec fn views(v: Seq<String>) -> Seq<Seq<char>> {
    v.map_values(|x: String| x@)
}

/// What `str::split(sep)` yields for a single-character separator: the
/// pieces between separators, empty ones included, at least one.
pub open spec fn split_on(s: Seq<char>, sep: char) -> Seq<Seq<char>>
    decreases s.len(),
{
    if s.len() == 0 {
        seq![Seq::empty()]
    } else {
        let prev = split_on(s.drop_last(), sep);
        if s.last() == sep {
            prev.push(Seq::empty())
        } else {
            prev.update(prev.len() - 1, prev.last().push(s.last()))
        }
    }
}

pub proof fn lemma_split_on_len(s: Seq<char>, sep: char)
    ensures
        split_on(s, sep).len() >= 1,
    decreases s.len(),
{
    if s.len() > 0 {
        lemma_split_on_len(s.drop_last(), sep);
    }
}

/// What `str::split_whitespace` yields: the maximal runs of characters
/// that are not white space, in order.
pub open spec fn words(s: Seq<char>) -> Seq<Seq<char>>
    decreases s.len(),
{
    if s.len() == 0 {
        Seq::empty()
    } else {
        let prev = words(s.drop_last());
        let c = s.last();
        if is_space(c) {
            prev
        } else if s.len() >= 2 && !is_space(s[s.len() - 2]) {
            prev.update(prev.len() - 1, prev.last().push(c))
        } else {
            prev.push(seq![c])
        }
    }
}

pub proof fn lemma_words_len(s: Seq<char>)
    ensures
        s.len() > 0 && !is_space(s.last()) ==> words(s).len() >= 1,
    decreases s.len(),
{
    if s.len() > 0 {
        lemma_words_len(s.drop_last());
    }
}

/// Splitting at white space distributes over a concatenation whose first
/// part is empty or ends with white space.
pub proof fn lemma_words_concat(a: Seq<char>, b: Seq<char>)
    requires
        a.len() == 0 || is_space(a.last()),
    ensures
        words(a + b) == words(a) + words(b),
    decreases b.len(),
{
    if b.len() == 0 {
        assert(a + b =~= a);
        assert(words(b) =~= Seq::<Seq<char>>::empty());
        assert(words(a) + words(b) =~= words(a));
    } else {
        let ab = a + b;
        let bl = b.drop_last();
        assert(ab.drop_last() =~= a + bl);
        assert(ab.last() == b.last());
        lemma_words_concat(a, bl);
        let c = b.last();
        if is_space(c) {
        } else {
            if b.len() >= 2 {
                assert(ab[ab.len() - 2] == b[b.len() - 2]);
            } else if a.len() > 0 {
                assert(ab[ab.len() - 2] == a.last());
            }
            if b.len() >= 2 && !is_space(b[b.len() - 2]) {
                assert(bl.last() == b[b.len() - 2]);
                lemma_words_len(bl);
                let x = words(a);
                let y = words(bl);
                assert((x + y).update(x.len() + y.len() - 1, (x + y).last().push(c)) =~= x
                    + y.update(y.len() - 1, y.last().push(c)));
            } else {
                assert((words(a) + words(bl)).push(seq![c]) =~= words(a) + words(bl).push(
                    seq![c],
                ));
            }
        }
    }
}

/// A non-empty run without white space is one word.
pub proof fn lemma_words_single(w: Seq<char>)
    requires
        w.len() > 0,
        forall|i: int| 0 <= i < w.len() ==> !is_space(#[trigger] w[i]),
    ensures
        words(w) == seq![w],
    decreases w.len(),
{
    if w.len() == 1 {
        assert(w.drop_last() =~= Seq::<char>::empty());
        assert(words(w.drop_last()) =~= Seq::<Seq<char>>::empty());
        assert(seq![w.last()] =~= w);
        assert(words(w) =~= seq![w]);
    } else {
        let v = w.drop_last();
        assert forall|i: int| 0 <= i < v.len() implies !is_space(#[trigger] v[i]) by {
            assert(v[i] == w[i]);
        }
        lemma_words_single(v);
        assert(w[w.len() - 2] == v[v.len() - 1]);
        assert(v.push(w.last()) =~= w);
        assert(words(w) == seq![v].update(0, v.push(w.last())));
        assert(seq![v].update(0, v.push(w.last())) =~= seq![w]);
    }
}

/// A string without the separator is a single piece.
pub proof fn lemma_split_on_absent(s: Seq<char>, sep: char)
    requires
        forall|i: int| 0 <= i < s.len() ==> #[trigger] s[i] != sep,
    ensures
        split_on(s, sep) == seq![s],
    decreases s.len(),
{
    if s.len() > 0 {
        let t = s.drop_last();
        assert forall|i: int| 0 <= i < t.len() implies #[trigger] t[i] != sep by {
            assert(t[i] == s[i]);
        }
        lemma_split_on_absent(t, sep);
        assert(s.last() == s[s.len() - 1]);
        assert(t.push(s.last()) =~= s);
        assert(seq![t].update(0, t.push(s.last())) =~= seq![s]);
    } else {
        assert(s =~= Seq::<char>::empty());
    }
}

/// What `splitn(2, c)` yields, with a missing second part read as empty:
/// the text before the first `c` and the text after it.
pub open spec fn split_pair(s: Seq<char>, c: char) -> (Seq<char>, Seq<char>) {
    match find_char(s, c) {
        Some(i) => (s.take(i), s.skip(i + 1)),
        None => (s, Seq::empty()),
    }
}

/// `str::split_whitespace`, collected.
pub fn split_whitespace_str(s: &str) -> (r: Vec<String>)
    ensures
        views(r@) == words(s@),
{
    let n = s.unicode_len();
    let mut done: Vec<String> = Vec::new();
    let mut cur = String::new();
    let mut in_word = false;
    let mut k: usize = 0;
    while k < n
        invariant
            n == s@.len(),
            k <= n,
            in_word == (k > 0 && !is_space(s@[k - 1])),
            words(s@.take(k as int)).len() == done@.len() + (if in_word { 1int } else { 0int }),
            forall|i: int| 0 <= i < done@.len() ==> #[trigger] done@[i]@ == words(s@.take(k as int))[i],
            in_word ==> cur@ == words(s@.take(k as int)).last(),
        decreases n - k,
    {
        let c = s.get_char(k);
        let ghost before = s@.take(k as int);
        let ghost after = s@.take(k + 1);
        proof {
            assert(after.drop_last() =~= before);
            assert(after.last() == c);
            lemma_words_len(before);
            if k > 0 {
                assert(before.last() == s@[k - 1]);
                assert(after[after.len() - 2] == s@[k - 1]);
            }
        }
        if char_is_space(c) {
            if in_word {
                done.push(cur);
                cur = String::new();
            }
            in_word = false;
        } else {
            if in_word {
                push_char(&mut cur, c);
            } else {
                cur = String::new();
                push_char(&mut cur, c);
                in_word = true;
            }
        }
        k = k + 1;
    }
    if in_word {
        done.push(cur);
    }
    assert(s@.take(n as int) =~= s@);
    assert(views(done@) =~= words(s@));
    done
}

/// `str::split(sep)` for a single-character separator, collected.
pub fn split_char_str(s: &str, sep: char) -> (r: Vec<String>)
    ensures
        views(r@) == split_on(s@, sep),
{
    let n = s.unicode_len();
    let mut done: Vec<String> = Vec::new();
    let mut cur = String::new();
    let mut k: usize = 0;
    proof {
        assert(s@.take(0) =~= Seq::<char>::empty());
    }
    while k < n
        invariant
            n == s@.len(),
            k <= n,
            split_on(s@.take(k as int), sep).len() == done@.len() + 1,
            forall|i: int|
                0 <= i < done@.len() ==> #[trigger] done@[i]@ == split_on(s@.take(k as int), sep)[i],
            cur@ == split_on(s@.take(k as int), sep).last(),
        decreases n - k,
    {
        let c = s.get_char(k);
        let ghost before = s@.take(k as int);
        let ghost after = s@.take(k + 1);
        proof {
            assert(after.drop_last() =~= before);
            assert(after.last() == c);
            lemma_split_on_len(before, sep);
        }
        if c == sep {
            done.push(cur);
            cur = String::new();
        } else {
            push_char(&mut cur, c);
        }
        k = k + 1;
    }
    done.push(cur);
    assert(s@.take(n as int) =~= s@);
    assert(views(done@) =~= split_on(s@, sep));
    done
}

/// `splitn(2, c)` with a missing second part read as empty.
pub fn split_pair_str(s: &str, c: char) -> (r: (String, String))
    ensures
        (r.0@, r.1@) == split_pair(s@, c),
{
    proof {
        lemma_find_char_some(s@, c);
    }
    match find_char_str(s, c) {
        Some(i) => {
            let n = s.unicode_len();
            let key = String::from_str(s.substring_char(0, i));
            let val = String::from_str(s.substring_char(i + 1, n));
            assert(s@.subrange(0, i as int) =~= s@.take(i as int));
            assert(s@.subrange(i + 1, n as int) =~= s@.skip(i + 1));
            (key, val)
        },
        None => (String::from_str(s), String::new()),
    }
}

} // verus!
