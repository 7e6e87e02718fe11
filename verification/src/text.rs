//! Text helpers: the operations on character sequences that the rest of the
//! crate needs, each with its meaning stated on `Seq<char>`.

use vstd::prelude::*;

verus! {

/// Characters with the Unicode property `White_Space`.
pub open spec fn is_space(c: char) -> bool {
    let n = c as u32;
    ||| 0x09 <= n <= 0x0D
    ||| n == 0x20
    ||| n == 0x85
    ||| n == 0xA0
    ||| n == 0x1680
    ||| 0x2000 <= n <= 0x200A
    ||| n == 0x2028
    ||| n == 0x2029
    ||| n == 0x202F
    ||| n == 0x205F
    ||| n == 0x3000
}

/// ASCII whitespace: space, tab, line feed, form feed, carriage return.
pub open spec fn is_ascii_space(c: char) -> bool {
    c == ' ' || c == '\t' || c == '\n' || c == '\x0C' || c == '\r'
}

/// Whether `c` counts as blank: by the ASCII rule or by the Unicode one.
pub open spec fn is_blank(c: char, ascii: bool) -> bool {
    if ascii {
        is_ascii_space(c)
    } else {
        is_space(c)
    }
}

/// `s` without its leading blanks.
pub open spec fn skip_blanks(s: Seq<char>, ascii: bool) -> Seq<char>
    decreases s.len(),
{
    if s.len() > 0 && is_blank(s[0], ascii) {
        skip_blanks(s.drop_first(), ascii)
    } else {
        s
    }
}

/// `s` without its trailing blanks.
pub open spec fn drop_trailing_blanks(s: Seq<char>, ascii: bool) -> Seq<char>
    decreases s.len(),
{
    if s.len() > 0 && is_blank(s.last(), ascii) {
        drop_trailing_blanks(s.drop_last(), ascii)
    } else {
        s
    }
}

/// `s` without leading and trailing Unicode whitespace.
pub open spec fn trimmed(s: Seq<char>) -> Seq<char> {
    drop_trailing_blanks(skip_blanks(s, false), false)
}

/// `s` without leading and trailing ASCII whitespace.
pub open spec fn trimmed_ascii(s: Seq<char>) -> Seq<char> {
    drop_trailing_blanks(skip_blanks(s, true), true)
}

/// `s` after removing `p` from its front as often as it stands there.
pub open spec fn without_prefixes(s: Seq<char>, p: Seq<char>) -> Seq<char>
    decreases s.len(),
{
    if p.len() > 0 && p.is_prefix_of(s) {
        without_prefixes(s.skip(p.len() as int), p)
    } else {
        s
    }
}

/// `s` after removing `p` from its end as often as it stands there.
pub open spec fn without_suffixes(s: Seq<char>, p: Seq<char>) -> Seq<char>
    decreases s.len(),
{
    if p.len() > 0 && p.is_suffix_of(s) {
        without_suffixes(s.take(s.len() - p.len()), p)
    } else {
        s
    }
}

/// The lower-case form of an ASCII letter; any other character unchanged.
pub open spec fn ascii_lower(c: char) -> char {
    if 'A' <= c <= 'Z' {
        ((c as u8) + 32) as char
    } else {
        c
    }
}

/// `s` with every ASCII capital replaced by its lower-case letter.
pub open spec fn ascii_lowered(s: Seq<char>) -> Seq<char> {
    Seq::new(s.len(), |i: int| ascii_lower(s[i]))
}

/// The position of the first `c` in `s`, or the length of `s` where it
/// holds none.
pub open spec fn first_index(s: Seq<char>, c: char) -> int
    decreases s.len(),
{
    if s.len() == 0 || s[0] == c {
        0
    } else {
        1 + first_index(s.drop_first(), c)
    }
}

/// `first_index` is within the sequence, stands on a `c` unless it is the
/// length, and has no `c` before it.
pub proof fn lemma_first_index(s: Seq<char>, c: char)
    ensures
        0 <= first_index(s, c) <= s.len(),
        first_index(s, c) < s.len() ==> s[first_index(s, c)] == c,
        forall|i: int| 0 <= i < first_index(s, c) ==> s[i] != c,
    decreases s.len(),
{
    if s.len() == 0 || s[0] == c {
    } else {
        let tail = s.drop_first();
        lemma_first_index(tail, c);
        assert forall|i: int| 0 <= i < first_index(s, c) implies s[i] != c by {
            if i > 0 {
                assert(tail[i - 1] == s[i]);
            }
        }
    }
}

/// A position with a `c` or the end on it and no `c` before it is the
/// `first_index`.
pub proof fn lemma_first_index_is(s: Seq<char>, c: char, at: int)
    requires
        0 <= at <= s.len(),
        forall|i: int| 0 <= i < at ==> s[i] != c,
        at < s.len() ==> s[at] == c,
    ensures
        first_index(s, c) == at,
    decreases s.len(),
{
    if s.len() == 0 || s[0] == c {
        if at > 0 {
            assert(s[0] != c);
        }
    } else {
        let tail = s.drop_first();
        assert forall|i: int| 0 <= i < at - 1 implies tail[i] != c by {
            assert(tail[i] == s[i + 1]);
        }
        lemma_first_index_is(tail, c, at - 1);
    }
}

/// The characters of `s`, one by one.
pub fn chars_of(s: &str) -> (v: Vec<char>)
    ensures
        v@ == s@,
{
    let mut v: Vec<char> = Vec::new();
    for c in it: s.chars()
        invariant
            v@ == it.history(),
            it.seq() == s@,
    {
        v.push(c);
    }
    v
}

pub fn is_whitespace(c: char) -> (b: bool)
    ensures
        b == is_space(c),
{
    let n: u32 = c as u32;
    (0x09 <= n && n <= 0x0D) || n == 0x20 || n == 0x85 || n == 0xA0 || n == 0x1680 || (0x2000 <= n
        && n <= 0x200A) || n == 0x2028 || n == 0x2029 || n == 0x202F || n == 0x205F || n == 0x3000
}

pub fn is_ascii_whitespace(c: char) -> (b: bool)
    ensures
        b == is_ascii_space(c),
{
    c == ' ' || c == '\t' || c == '\n' || c == '\x0C' || c == '\r'
}

fn blank(c: char, ascii: bool) -> (b: bool)
    ensures
        b == is_blank(c, ascii),
{
    if ascii {
        is_ascii_whitespace(c)
    } else {
        is_whitespace(c)
    }
}

fn trim_with(s: &str, ascii: bool) -> (r: &str)
    ensures
        r@ == drop_trailing_blanks(skip_blanks(s@, ascii), ascii),
{
    let cs = chars_of(s);
    let n = cs.len();
    let mut i: usize = 0;
    assert(s@.subrange(0, n as int) =~= s@);
    while i < n && blank(cs[i], ascii)
        invariant
            i <= n,
            n == cs@.len(),
            cs@ == s@,
            skip_blanks(s@, ascii) == skip_blanks(s@.subrange(i as int, n as int), ascii),
        decreases n - i,
    {
        assert(s@.subrange(i as int, n as int).drop_first() =~= s@.subrange(i + 1, n as int));
        i += 1;
    }
    assert(skip_blanks(s@, ascii) == s@.subrange(i as int, n as int));
    let mut j: usize = n;
    while j > i && blank(cs[j - 1], ascii)
        invariant
            i <= j <= n,
            n == cs@.len(),
            cs@ == s@,
            drop_trailing_blanks(s@.subrange(i as int, n as int), ascii) == drop_trailing_blanks(
                s@.subrange(i as int, j as int),
                ascii,
            ),
        decreases j,
    {
        assert(s@.subrange(i as int, j as int).drop_last() =~= s@.subrange(i as int, j - 1));
        j -= 1;
    }
    s.substring_char(i, j)
}

/// Removes leading and trailing Unicode whitespace.
pub fn trim(s: &str) -> (r: &str)
    ensures
        r@ == trimmed(s@),
{
    trim_with(s, false)
}

/// Removes leading and trailing ASCII whitespace.
pub fn trim_ascii(s: &str) -> (r: &str)
    ensures
        r@ == trimmed_ascii(s@),
{
    trim_with(s, true)
}

/// Whether `p` stands in `cs` at position `at`.
fn stands_at(cs: &Vec<char>, at: usize, p: &Vec<char>) -> (b: bool)
    requires
        at <= cs@.len(),
    ensures
        b == (at + p@.len() <= cs@.len() && cs@.subrange(at as int, at + p@.len()) == p@),
{
    let m = p.len();
    if m > cs.len() - at {
        return false;
    }
    let mut k: usize = 0;
    while k < m
        invariant
            k <= m,
            m == p@.len(),
            at + m <= cs@.len() <= usize::MAX,
            forall|x: int| 0 <= x < k ==> cs@[at + x] == p@[x],
        decreases m - k,
    {
        if cs[at + k] != p[k] {
            assert(cs@.subrange(at as int, at + m)[k as int] != p@[k as int]);
            return false;
        }
        k += 1;
    }
    assert(cs@.subrange(at as int, at + m) =~= p@);
    true
}

/// Removes `pattern` from the front of `s` as often as it stands there.
pub fn trim_start_matches<'a>(s: &'a str, pattern: &str) -> (r: &'a str)
    ensures
        r@ == without_prefixes(s@, pattern@),
{
    let cs = chars_of(s);
    let p = chars_of(pattern);
    let n = cs.len();
    let m = p.len();
    let mut i: usize = 0;
    assert(s@.subrange(0, n as int) =~= s@);
    while m > 0 && stands_at(&cs, i, &p)
        invariant
            i <= n,
            n == cs@.len(),
            m == p@.len(),
            cs@ == s@,
            p@ == pattern@,
            without_prefixes(s@, pattern@) == without_prefixes(
                s@.subrange(i as int, n as int),
                pattern@,
            ),
        decreases n - i,
    {
        assert(s@.subrange(i as int, n as int).subrange(0, m as int) =~= s@.subrange(
            i as int,
            i + m,
        ));
        assert(s@.subrange(i as int, n as int).skip(m as int) =~= s@.subrange(i + m, n as int));
        i += m;
    }
    proof {
        let rest = s@.subrange(i as int, n as int);
        if m > 0 && m <= rest.len() {
            assert(rest.subrange(0, m as int) =~= s@.subrange(i as int, i + m));
        }
    }
    s.substring_char(i, n)
}

/// Removes `pattern` from the end of `s` as often as it stands there.
pub fn trim_end_matches<'a>(s: &'a str, pattern: &str) -> (r: &'a str)
    ensures
        r@ == without_suffixes(s@, pattern@),
{
    let cs = chars_of(s);
    let p = chars_of(pattern);
    let n = cs.len();
    let m = p.len();
    let mut j: usize = n;
    assert(s@.subrange(0, n as int) =~= s@);
    while m > 0 && j >= m && stands_at(&cs, j - m, &p)
        invariant
            j <= n,
            n == cs@.len(),
            m == p@.len(),
            cs@ == s@,
            p@ == pattern@,
            without_suffixes(s@, pattern@) == without_suffixes(s@.subrange(0, j as int), pattern@),
        decreases j,
    {
        assert(s@.subrange(0, j as int).subrange(j - m, j as int) =~= s@.subrange(
            j - m,
            j as int,
        ));
        assert(s@.subrange(0, j as int).take(j - m) =~= s@.subrange(0, j - m));
        j -= m;
    }
    proof {
        let head = s@.subrange(0, j as int);
        if m > 0 && m <= head.len() {
            assert(head.subrange(j - m, j as int) =~= s@.subrange(j - m, j as int));
        }
    }
    s.substring_char(0, j)
}

/// Splits `s` at the first `delimiter`, which is left out of both parts.
pub fn split_once<'a>(s: &'a str, delimiter: char) -> (r: Option<(&'a str, &'a str)>)
    ensures
        match r {
            Some((head, tail)) => first_index(s@, delimiter) < s@.len() && head@ == s@.take(
                first_index(s@, delimiter),
            ) && tail@ == s@.skip(first_index(s@, delimiter) + 1),
            None => first_index(s@, delimiter) == s@.len(),
        },
{
    let cs = chars_of(s);
    let n = cs.len();
    let mut i: usize = 0;
    while i < n
        invariant
            i <= n,
            n == cs@.len(),
            cs@ == s@,
            forall|x: int| 0 <= x < i ==> s@[x] != delimiter,
        decreases n - i,
    {
        if cs[i] == delimiter {
            let head = s.substring_char(0, i);
            let tail = s.substring_char(i + 1, n);
            proof {
                lemma_first_index_is(s@, delimiter, i as int);
            }
            return Some((head, tail));
        }
        i += 1;
    }
    proof {
        lemma_first_index_is(s@, delimiter, n as int);
    }
    None
}

/// Whether `s` begins with `c`.
pub fn starts_with_char(s: &str, c: char) -> (b: bool)
    ensures
        b == (s@.len() > 0 && s@[0] == c),
{
    let mut it = s.chars();
    match it.next() {
        Some(first) => first == c,
        None => false,
    }
}

/// Whether two texts hold the same characters.
pub fn same_text(a: &str, b: &str) -> (r: bool)
    ensures
        r == (a@ == b@),
{
    let x = chars_of(a);
    let y = chars_of(b);
    if x.len() != y.len() {
        return false;
    }
    let ok = stands_at(&x, 0, &y);
    assert(x@.subrange(0, y@.len() as int) =~= x@);
    ok
}

pub fn to_ascii_lower(c: char) -> (r: char)
    ensures
        r == ascii_lower(c),
{
    if 'A' <= c && c <= 'Z' {
        ((c as u8) + 32) as char
    } else {
        c
    }
}

/// Whether two texts are the same but for the case of their ASCII letters.
pub fn eq_ignore_ascii_case(a: &str, b: &str) -> (r: bool)
    ensures
        r == (ascii_lowered(a@) == ascii_lowered(b@)),
{
    let x = chars_of(a);
    let y = chars_of(b);
    let n = x.len();
    if n != y.len() {
        assert(ascii_lowered(a@).len() != ascii_lowered(b@).len());
        return false;
    }
    let mut i: usize = 0;
    while i < n
        invariant
            i <= n,
            n == x@.len(),
            n == y@.len(),
            x@ == a@,
            y@ == b@,
            forall|k: int| 0 <= k < i ==> ascii_lower(a@[k]) == ascii_lower(b@[k]),
        decreases n - i,
    {
        if to_ascii_lower(x[i]) != to_ascii_lower(y[i]) {
            assert(ascii_lowered(a@)[i as int] != ascii_lowered(b@)[i as int]);
            return false;
        }
        i += 1;
    }
    assert(ascii_lowered(a@) =~= ascii_lowered(b@));
    true
}

/// The length of the word at the start of `s`: the characters before its
/// first whitespace.
pub open spec fn word_len(s: Seq<char>) -> int
    decreases s.len(),
{
    if s.len() == 0 || is_space(s[0]) {
        0
    } else {
        1 + word_len(s.drop_first())
    }
}

/// The words of `s`: its longest runs of characters that are no whitespace,
/// in order.
pub open spec fn words(s: Seq<char>) -> Seq<Seq<char>>
    decreases s.len(),
{
    if s.len() == 0 {
        Seq::empty()
    } else if is_space(s[0]) {
        words(s.drop_first())
    } else {
        let n = word_len(s);
        if 1 <= n <= s.len() {
            seq![s.take(n)] + words(s.skip(n))
        } else {
            Seq::empty()
        }
    }
}

proof fn lemma_word_len_is(s: Seq<char>, n: int)
    requires
        0 <= n <= s.len(),
        forall|i: int| 0 <= i < n ==> !is_space(#[trigger] s[i]),
        n < s.len() ==> is_space(s[n]),
    ensures
        word_len(s) == n,
    decreases s.len(),
{
    if s.len() == 0 || is_space(s[0]) {
        if n > 0 {
            assert(!is_space(s[0]));
        }
    } else {
        let tail = s.drop_first();
        assert forall|i: int| 0 <= i < n - 1 implies !is_space(#[trigger] tail[i]) by {
            assert(tail[i] == s[i + 1]);
        }
        lemma_word_len_is(tail, n - 1);
    }
}

/// The texts of a list of slices, in order.
pub open spec fn slice_views(list: Seq<&str>) -> Seq<Seq<char>> {
    Seq::new(list.len(), |i: int| list[i]@)
}

/// Splits `s` into its words.
pub fn split_whitespace(s: &str) -> (list: Vec<&str>)
    ensures
        slice_views(list@) == words(s@),
{
    let cs = chars_of(s);
    let n = cs.len();
    let mut list: Vec<&str> = Vec::new();
    let mut i: usize = 0;
    assert(s@.skip(0) =~= s@);
    assert(slice_views(list@) + words(s@) =~= words(s@));
    while i < n
        invariant
            i <= n,
            n == cs@.len(),
            cs@ == s@,
            slice_views(list@) + words(s@.skip(i as int)) == words(s@),
        decreases n - i,
    {
        let ghost rest = s@.skip(i as int);
        assert(rest[0] == s@[i as int]);
        if is_whitespace(cs[i]) {
            assert(rest.drop_first() =~= s@.skip(i + 1));
            i += 1;
        } else {
            let mut j: usize = i + 1;
            while j < n && !is_whitespace(cs[j])
                invariant
                    i < j <= n,
                    n == cs@.len(),
                    cs@ == s@,
                    forall|k: int| i <= k < j ==> !is_space(#[trigger] s@[k]),
                decreases n - j,
            {
                j += 1;
            }
            let word = s.substring_char(i, j);
            proof {
                assert forall|k: int| 0 <= k < j - i implies !is_space(#[trigger] rest[k]) by {
                    assert(rest[k] == s@[i + k]);
                }
                lemma_word_len_is(rest, j - i);
                assert(rest.take(j - i) =~= word@);
                assert(rest.skip(j - i) =~= s@.skip(j as int));
                let before = slice_views(list@);
                assert(slice_views(list@.push(word)) =~= before + seq![word@]);
                assert(before + (seq![word@] + words(s@.skip(j as int))) =~= (before + seq![
                    word@,
                ]) + words(s@.skip(j as int)));
            }
            list.push(word);
            i = j;
        }
    }
    assert(s@.skip(n as int) =~= Seq::<char>::empty());
    assert(slice_views(list@) + Seq::<Seq<char>>::empty() =~= slice_views(list@));
    list
}

} // verus!
