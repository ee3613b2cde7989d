//! Character-level text helpers shared by the parsers and renderers.
//!
//! Every function works on the `Seq<char>` view of `str` and `String`, so the
//! contracts of the rest of the crate can speak of text mathematically.
use vstd::prelude::*;
use vstd::string::*;

verus! {

/// `needle` occurs in `hay` starting at index `i`.
pub open spec fn occurs_at(hay: Seq<char>, needle: Seq<char>, i: int) -> bool {
    0 <= i && i + needle.len() <= hay.len() && hay.subrange(i, i + needle.len()) == needle
}

/// `hay` contains `needle` as a contiguous piece.
pub open spec fn seq_contains(hay: Seq<char>, needle: Seq<char>) -> bool {
    exists|i: int| occurs_at(hay, needle, i)
}

/// `s` starts with `prefix`.
pub open spec fn seq_starts_with(s: Seq<char>, prefix: Seq<char>) -> bool {
    prefix.len() <= s.len() && s.subrange(0, prefix.len() as int) == prefix
}

/// `s` ends with `suffix`.
pub open spec fn seq_ends_with(s: Seq<char>, suffix: Seq<char>) -> bool {
    suffix.len() <= s.len() && s.subrange(s.len() - suffix.len(), s.len() as int) == suffix
}

/// The Unicode `White_Space` characters, the set that `char::is_whitespace` accepts.
pub open spec fn is_ws(c: char) -> bool {
    ||| c == ' '
    ||| ('\t' <= c && c <= '\r')
    ||| c == '\u{85}'
    ||| c == '\u{A0}'
    ||| c == '\u{1680}'
    ||| ('\u{2000}' <= c && c <= '\u{200A}')
    ||| c == '\u{2028}'
    ||| c == '\u{2029}'
    ||| c == '\u{202F}'
    ||| c == '\u{205F}'
    ||| c == '\u{3000}'
}

/// Number of leading whitespace characters.
pub open spec fn lead_ws(s: Seq<char>) -> nat
    decreases s.len(),
{
    if s.len() > 0 && is_ws(s[0]) {
        1 + lead_ws(s.subrange(1, s.len() as int))
    } else {
        0
    }
}

/// Number of trailing whitespace characters.
pub open spec fn trail_ws(s: Seq<char>) -> nat
    decreases s.len(),
{
    if s.len() > 0 && is_ws(s[s.len() - 1]) {
        1 + trail_ws(s.subrange(0, s.len() - 1))
    } else {
        0
    }
}

/// `s` without leading whitespace (`str::trim_start`).
pub open spec fn trim_start(s: Seq<char>) -> Seq<char> {
    s.subrange(lead_ws(s) as int, s.len() as int)
}

/// `s` without trailing whitespace (`str::trim_end`).
pub open spec fn trim_end(s: Seq<char>) -> Seq<char> {
    s.subrange(0, s.len() - trail_ws(s))
}

/// `s` without surrounding whitespace (`str::trim`).
pub open spec fn trim(s: Seq<char>) -> Seq<char> {
    trim_end(trim_start(s))
}

/// Index of the first `c` in `s`, if any.
pub open spec fn first_index_of(s: Seq<char>, c: char) -> Option<int>
    decreases s.len(),
{
    if s.len() == 0 {
        None
    } else if s[0] == c {
        Some(0)
    } else {
        match first_index_of(s.subrange(1, s.len() as int), c) {
            Some(i) => Some(i + 1),
            None => None,
        }
    }
}

/// Index of the last `c` in `s`, if any.
pub open spec fn last_index_of(s: Seq<char>, c: char) -> Option<int>
    decreases s.len(),
{
    if s.len() == 0 {
        None
    } else if s[s.len() - 1] == c {
        Some(s.len() - 1)
    } else {
        last_index_of(s.subrange(0, s.len() - 1), c)
    }
}

/// `str::split_once(c)`: the text before and after the first `c`.
pub open spec fn split_once(s: Seq<char>, c: char) -> Option<(Seq<char>, Seq<char>)> {
    match first_index_of(s, c) {
        Some(i) => Some((s.subrange(0, i), s.subrange(i + 1, s.len() as int))),
        None => None,
    }
}

/// `str::rsplit_once(c)`: the text before and after the last `c`.
pub open spec fn rsplit_once(s: Seq<char>, c: char) -> Option<(Seq<char>, Seq<char>)> {
    match last_index_of(s, c) {
        Some(i) => Some((s.subrange(0, i), s.subrange(i + 1, s.len() as int))),
        None => None,
    }
}

/// `str::split(c)`: the pieces between occurrences of `c` (always at least one piece).
pub open spec fn split_all(s: Seq<char>, c: char) -> Seq<Seq<char>>
    decreases s.len(),
{
    proof {
        lemma_first_index_props(s, c);
    }
    match first_index_of(s, c) {
        Some(i) => seq![s.subrange(0, i)] + split_all(s.subrange(i + 1, s.len() as int), c),
        None => seq![s],
    }
}

/// `s` with every leading occurrence of `c` removed (`str::trim_start_matches(c)`).
pub open spec fn strip_leading(s: Seq<char>, c: char) -> Seq<char>
    decreases s.len(),
{
    if s.len() > 0 && s[0] == c {
        strip_leading(s.subrange(1, s.len() as int), c)
    } else {
        s
    }
}

/// ASCII lower-casing of one character (`char::to_ascii_lowercase`).
pub open spec fn ascii_lower(c: char) -> char {
    if 'A' <= c && c <= 'Z' {
        ((c as u32) + 32) as char
    } else {
        c
    }
}

/// ASCII lower-casing of a text (`str::to_ascii_lowercase`).
pub open spec fn ascii_lower_seq(s: Seq<char>) -> Seq<char> {
    Seq::new(s.len(), |i: int| ascii_lower(s[i]))
}

/// Decimal digits of a natural number.
pub open spec fn nat_decimal(n: nat) -> Seq<char>
    decreases n,
{
    if n < 10 {
        seq![digit_char(n)]
    } else {
        nat_decimal(n / 10) + seq![digit_char(n % 10)]
    }
}

/// The character of one decimal digit.
pub open spec fn digit_char(d: nat) -> char {
    if d == 0 { '0' }
    else if d == 1 { '1' }
    else if d == 2 { '2' }
    else if d == 3 { '3' }
    else if d == 4 { '4' }
    else if d == 5 { '5' }
    else if d == 6 { '6' }
    else if d == 7 { '7' }
    else if d == 8 { '8' }
    else { '9' }
}

/// Decimal rendering of an integer, as `Display` writes it.
pub open spec fn int_decimal(n: int) -> Seq<char> {
    if n < 0 {
        seq!['-'] + nat_decimal((-n) as nat)
    } else {
        nat_decimal(n as nat)
    }
}

/// Joins the pieces with a separator (`[T]::join`).
pub open spec fn join_seqs(items: Seq<Seq<char>>, sep: Seq<char>) -> Seq<char>
    decreases items.len(),
{
    if items.len() == 0 {
        Seq::empty()
    } else if items.len() == 1 {
        items[0]
    } else {
        join_seqs(items.drop_last(), sep) + sep + items.last()
    }
}

/// The views of a vector of strings.
pub open spec fn views(v: Seq<String>) -> Seq<Seq<char>> {
    Seq::new(v.len(), |i: int| v[i]@)
}

/// Appends one character to a string (`String::push`).
#[verifier::external_body]
pub(crate) fn push_char(s: &mut String, c: char)
    ensures
        final(s)@ == old(s)@.push(c),
{
    s.push(c)
}

/// A string holding the text of `s`.
pub fn owned(s: &str) -> (r: String)
    ensures
        r@ == s@,
{
    String::from_str(s)
}

/// The characters of `s`, one per element.
pub fn chars_of(s: &str) -> (r: Vec<char>)
    ensures
        r@ == s@,
{
    let n = s.unicode_len();
    let mut out: Vec<char> = Vec::new();
    let mut i: usize = 0;
    while i < n
        invariant
            n == s@.len(),
            i <= n,
            out@ == s@.subrange(0, i as int),
        decreases n - i,
    {
        let c = s.get_char(i);
        out.push(c);
        i = i + 1;
        assert(out@ =~= s@.subrange(0, i as int));
    }
    assert(out@ =~= s@);
    out
}

/// A string holding the characters of `v` in order.
pub fn string_of(v: &[char]) -> (r: String)
    ensures
        r@ == v@,
{
    let mut out = String::new();
    let mut i: usize = 0;
    while i < v.len()
        invariant
            i <= v@.len(),
            out@ == v@.subrange(0, i as int),
        decreases v@.len() - i,
    {
        push_char(&mut out, v[i]);
        i = i + 1;
        assert(out@ =~= v@.subrange(0, i as int));
    }
    assert(out@ =~= v@);
    out
}

/// The characters `v[from..to]` as a string.
pub fn string_of_range(v: &[char], from: usize, to: usize) -> (r: String)
    requires
        from <= to <= v@.len(),
    ensures
        r@ == v@.subrange(from as int, to as int),
{
    let mut out = String::new();
    let mut i: usize = from;
    while i < to
        invariant
            from <= i <= to <= v@.len(),
            out@ == v@.subrange(from as int, i as int),
        decreases to - i,
    {
        push_char(&mut out, v[i]);
        i = i + 1;
        assert(out@ =~= v@.subrange(from as int, i as int));
    }
    out
}

/// Appends `t` to `s`.
pub fn append_str(s: &mut String, t: &str)
    ensures
        final(s)@ == old(s)@ + t@,
{
    s.append(t);
}

/// `a` followed by `b`, as a new string.
pub fn concat2(a: &str, b: &str) -> (r: String)
    ensures
        r@ == a@ + b@,
{
    let mut s = owned(a);
    s.append(b);
    s
}

/// `a`, `b` and `c` in order, as a new string.
pub fn concat3(a: &str, b: &str, c: &str) -> (r: String)
    ensures
        r@ == a@ + b@ + c@,
{
    let mut s = owned(a);
    s.append(b);
    s.append(c);
    s
}

/// Equality of two texts.
pub fn seq_eq(a: &[char], b: &[char]) -> (r: bool)
    ensures
        r == (a@ == b@),
{
    if a.len() != b.len() {
        return false;
    }
    let mut i: usize = 0;
    while i < a.len()
        invariant
            a@.len() == b@.len(),
            i <= a@.len(),
            forall|k: int| 0 <= k < i ==> a@[k] == b@[k],
        decreases a@.len() - i,
    {
        if a[i] != b[i] {
            return false;
        }
        i = i + 1;
    }
    assert(a@ =~= b@);
    true
}

/// Equality of two `str`s.
pub fn str_eq(a: &str, b: &str) -> (r: bool)
    ensures
        r == (a@ == b@),
{
    let av = chars_of(a);
    let bv = chars_of(b);
    seq_eq(av.as_slice(), bv.as_slice())
}

/// `s[i..]` starts with `needle`.
pub fn occurs_at_exec(s: &[char], needle: &[char], i: usize) -> (r: bool)
    ensures
        r == occurs_at(s@, needle@, i as int),
{
    if i > s.len() || needle.len() > s.len() - i {
        return false;
    }
    let mut k: usize = 0;
    while k < needle.len()
        invariant
            i + needle.len() <= s.len(),
            k <= needle@.len(),
            forall|j: int| 0 <= j < k ==> s@[i + j] == needle@[j],
        decreases needle@.len() - k,
    {
        if s[i + k] != needle[k] {
            assert(s@.subrange(i as int, i + needle@.len())[k as int] != needle@[k as int]);
            return false;
        }
        k = k + 1;
    }
    assert(s@.subrange(i as int, i + needle@.len()) =~= needle@);
    true
}

/// `hay` contains `needle` (`str::contains`).
pub fn contains_seq(hay: &[char], needle: &[char]) -> (r: bool)
    ensures
        r == seq_contains(hay@, needle@),
{
    if needle.len() > hay.len() {
        assert(forall|i: int| !occurs_at(hay@, needle@, i));
        return false;
    }
    let last = hay.len() - needle.len();
    let mut i: usize = 0;
    loop
        invariant
            last == hay@.len() - needle@.len(),
            i <= last,
            forall|j: int| 0 <= j < i ==> !occurs_at(hay@, needle@, j),
        ensures
            forall|j: int| 0 <= j <= last ==> !occurs_at(hay@, needle@, j),
        decreases last - i,
    {
        if occurs_at_exec(hay, needle, i) {
            return true;
        }
        if i == last {
            break;
        }
        i = i + 1;
    }
    assert(forall|j: int| !occurs_at(hay@, needle@, j));
    false
}

/// `hay` contains `needle` (`str::contains`), on `str`s.
pub fn str_contains(hay: &str, needle: &str) -> (r: bool)
    ensures
        r == seq_contains(hay@, needle@),
{
    let h = chars_of(hay);
    let n = chars_of(needle);
    contains_seq(h.as_slice(), n.as_slice())
}

/// `s` starts with `prefix` (`str::starts_with`).
pub fn starts_with_seq(s: &[char], prefix: &[char]) -> (r: bool)
    ensures
        r == seq_starts_with(s@, prefix@),
{
    let r = occurs_at_exec(s, prefix, 0);
    assert(r == occurs_at(s@, prefix@, 0));
    r
}

/// `s` starts with `prefix`, on `str`s.
pub fn str_starts_with(s: &str, prefix: &str) -> (r: bool)
    ensures
        r == seq_starts_with(s@, prefix@),
{
    let a = chars_of(s);
    let b = chars_of(prefix);
    starts_with_seq(a.as_slice(), b.as_slice())
}

/// `s` ends with `suffix` (`str::ends_with`).
pub fn ends_with_seq(s: &[char], suffix: &[char]) -> (r: bool)
    ensures
        r == seq_ends_with(s@, suffix@),
{
    if suffix.len() > s.len() {
        return false;
    }
    occurs_at_exec(s, suffix, s.len() - suffix.len())
}

/// `s` starts with the character `c`.
pub fn first_char_is(s: &str, c: char) -> (r: bool)
    ensures
        r == (s@.len() > 0 && s@[0] == c),
{
    if s.unicode_len() == 0 {
        false
    } else {
        s.get_char(0) == c
    }
}

/// `char::is_whitespace`.
pub fn is_ws_exec(c: char) -> (r: bool)
    ensures
        r == is_ws(c),
{
    c == ' ' || ('\t' <= c && c <= '\r') || c == '\u{85}' || c == '\u{A0}' || c == '\u{1680}'
        || ('\u{2000}' <= c && c <= '\u{200A}') || c == '\u{2028}' || c == '\u{2029}' || c
        == '\u{202F}' || c == '\u{205F}' || c == '\u{3000}'
}

proof fn lemma_lead_ws_bound(s: Seq<char>)
    ensures
        lead_ws(s) <= s.len(),
        forall|k: int| 0 <= k < lead_ws(s) ==> is_ws(#[trigger] s[k]),
        lead_ws(s) < s.len() ==> !is_ws(s[lead_ws(s) as int]),
    decreases s.len(),
{
    if s.len() > 0 && is_ws(s[0]) {
        let t = s.subrange(1, s.len() as int);
        lemma_lead_ws_bound(t);
        assert forall|k: int| 0 <= k < lead_ws(s) implies is_ws(#[trigger] s[k]) by {
            if k > 0 {
                assert(s[k] == t[k - 1]);
            }
        }
        if lead_ws(s) < s.len() {
            assert(s[lead_ws(s) as int] == t[lead_ws(t) as int]);
        }
    }
}

proof fn lemma_lead_ws_of(s: Seq<char>, n: nat)
    requires
        n <= s.len(),
        forall|k: int| 0 <= k < n ==> is_ws(#[trigger] s[k]),
        n < s.len() ==> !is_ws(s[n as int]),
    ensures
        lead_ws(s) == n,
    decreases n,
{
    if n > 0 {
        let t = s.subrange(1, s.len() as int);
        assert forall|k: int| 0 <= k < n - 1 implies is_ws(#[trigger] t[k]) by {
            assert(t[k] == s[k + 1]);
        }
        if n - 1 < t.len() {
            assert(t[n - 1] == s[n as int]);
        }
        lemma_lead_ws_of(t, (n - 1) as nat);
    }
}

proof fn lemma_trail_ws_of(s: Seq<char>, n: nat)
    requires
        n <= s.len(),
        forall|k: int| s.len() - n <= k < s.len() ==> is_ws(#[trigger] s[k]),
        n < s.len() ==> !is_ws(s[s.len() - n - 1]),
    ensures
        trail_ws(s) == n,
    decreases n,
{
    if n > 0 {
        let t = s.subrange(0, s.len() - 1);
        assert forall|k: int| t.len() - (n - 1) <= k < t.len() implies is_ws(#[trigger] t[k]) by {
            assert(t[k] == s[k]);
        }
        if n - 1 < t.len() {
            assert(t[t.len() - (n - 1) - 1] == s[s.len() - n - 1]);
        }
        assert(is_ws(s[s.len() - 1]));
        lemma_trail_ws_of(t, (n - 1) as nat);
    }
}

/// The bounds `(start, end)` of `s` once trimmed: `trim(s) == s[start..end]`.
pub fn trim_bounds(s: &[char]) -> (r: (usize, usize))
    ensures
        r.0 <= r.1 <= s@.len(),
        trim(s@) == s@.subrange(r.0 as int, r.1 as int),
        trim_start(s@) == s@.subrange(r.0 as int, s@.len() as int),
{
    let mut start: usize = 0;
    while start < s.len() && is_ws_exec(s[start])
        invariant
            start <= s@.len(),
            forall|k: int| 0 <= k < start ==> is_ws(#[trigger] s@[k]),
        decreases s@.len() - start,
    {
        start = start + 1;
    }
    proof {
        lemma_lead_ws_of(s@, start as nat);
    }
    let ghost t = s@.subrange(start as int, s@.len() as int);
    let mut end: usize = s.len();
    while end > start && is_ws_exec(s[end - 1])
        invariant
            start <= end <= s@.len(),
            t == s@.subrange(start as int, s@.len() as int),
            forall|k: int| end <= k < s@.len() ==> is_ws(#[trigger] s@[k]),
        decreases end - start,
    {
        end = end - 1;
    }
    proof {
        let n = (s@.len() - end) as nat;
        assert forall|k: int| t.len() - n <= k < t.len() implies is_ws(#[trigger] t[k]) by {
            assert(t[k] == s@[k + start]);
        }
        if n < t.len() {
            assert(t[t.len() - n - 1] == s@[end - 1]);
        }
        lemma_trail_ws_of(t, n);
        assert(trim(s@) =~= s@.subrange(start as int, end as int));
    }
    (start, end)
}

/// `str::trim` as a new string.
pub fn trim_string(s: &str) -> (r: String)
    ensures
        r@ == trim(s@),
{
    let v = chars_of(s);
    let (a, b) = trim_bounds(v.as_slice());
    string_of_range(v.as_slice(), a, b)
}

/// Index of the first `c` in `s`.
pub fn find_char(s: &[char], c: char) -> (r: Option<usize>)
    ensures
        match r {
            Some(i) => first_index_of(s@, c) == Some(i as int),
            None => first_index_of(s@, c) is None,
        },
{
    let mut i: usize = 0;
    while i < s.len()
        invariant
            i <= s@.len(),
            forall|k: int| 0 <= k < i ==> s@[k] != c,
        decreases s@.len() - i,
    {
        if s[i] == c {
            proof {
                lemma_first_index_of(s@, c, i as int);
            }
            return Some(i);
        }
        i = i + 1;
    }
    proof {
        lemma_first_index_none(s@, c);
    }
    None
}

/// `first_index_of` is the first position holding `c`.
pub proof fn lemma_first_index_of(s: Seq<char>, c: char, i: int)
    requires
        0 <= i < s.len(),
        s[i] == c,
        forall|k: int| 0 <= k < i ==> s[k] != c,
    ensures
        first_index_of(s, c) == Some(i),
    decreases s.len(),
{
    if i > 0 {
        let t = s.subrange(1, s.len() as int);
        assert forall|k: int| 0 <= k < i - 1 implies t[k] != c by {
            assert(t[k] == s[k + 1]);
        }
        lemma_first_index_of(t, c, i - 1);
    }
}

/// Without `c` in `s`, `first_index_of` finds nothing.
pub proof fn lemma_first_index_none(s: Seq<char>, c: char)
    requires
        forall|k: int| 0 <= k < s.len() ==> s[k] != c,
    ensures
        first_index_of(s, c) is None,
    decreases s.len(),
{
    if s.len() > 0 {
        let t = s.subrange(1, s.len() as int);
        assert forall|k: int| 0 <= k < t.len() implies t[k] != c by {
            assert(t[k] == s[k + 1]);
        }
        lemma_first_index_none(t, c);
    }
}

/// What `first_index_of` returns is a position of `c`, and no earlier one holds `c`.
pub proof fn lemma_first_index_props(s: Seq<char>, c: char)
    ensures
        match first_index_of(s, c) {
            Some(i) => 0 <= i < s.len() && s[i] == c && forall|k: int| 0 <= k < i ==> s[k] != c,
            None => forall|k: int| 0 <= k < s.len() ==> s[k] != c,
        },
    decreases s.len(),
{
    if s.len() > 0 && s[0] != c {
        let t = s.subrange(1, s.len() as int);
        lemma_first_index_props(t, c);
        match first_index_of(t, c) {
            Some(i) => {
                assert forall|k: int| 0 <= k < i + 1 implies s[k] != c by {
                    if k > 0 {
                        assert(s[k] == t[k - 1]);
                    }
                }
            },
            None => {
                assert forall|k: int| 0 <= k < s.len() implies s[k] != c by {
                    if k > 0 {
                        assert(s[k] == t[k - 1]);
                    }
                }
            },
        }
    }
}

/// What `last_index_of` returns is a position of `c`, and no later one holds `c`.
pub proof fn lemma_last_index_props(s: Seq<char>, c: char)
    ensures
        match last_index_of(s, c) {
            Some(i) => 0 <= i < s.len() && s[i] == c && forall|k: int| i < k < s.len() ==> s[k] != c,
            None => forall|k: int| 0 <= k < s.len() ==> s[k] != c,
        },
    decreases s.len(),
{
    if s.len() > 0 && s[s.len() - 1] != c {
        let t = s.subrange(0, s.len() - 1);
        lemma_last_index_props(t, c);
        match last_index_of(t, c) {
            Some(i) => {
                assert forall|k: int| i < k < s.len() implies s[k] != c by {
                    if k < s.len() - 1 {
                        assert(s[k] == t[k]);
                    }
                }
            },
            None => {
                assert forall|k: int| 0 <= k < s.len() implies s[k] != c by {
                    if k < s.len() - 1 {
                        assert(s[k] == t[k]);
                    }
                }
            },
        }
    }
}

proof fn lemma_last_index_of(s: Seq<char>, c: char, i: int)
    requires
        0 <= i < s.len(),
        s[i] == c,
        forall|k: int| i < k < s.len() ==> s[k] != c,
    ensures
        last_index_of(s, c) == Some(i),
    decreases s.len(),
{
    if i < s.len() - 1 {
        let t = s.subrange(0, s.len() - 1);
        assert forall|k: int| i < k < t.len() implies t[k] != c by {
            assert(t[k] == s[k]);
        }
        lemma_last_index_of(t, c, i);
    }
}

proof fn lemma_last_index_none(s: Seq<char>, c: char)
    requires
        forall|k: int| 0 <= k < s.len() ==> s[k] != c,
    ensures
        last_index_of(s, c) is None,
    decreases s.len(),
{
    if s.len() > 0 {
        let t = s.subrange(0, s.len() - 1);
        assert forall|k: int| 0 <= k < t.len() implies t[k] != c by {
            assert(t[k] == s[k]);
        }
        lemma_last_index_none(t, c);
    }
}

/// Index of the last `c` in `s`.
pub fn rfind_char(s: &[char], c: char) -> (r: Option<usize>)
    ensures
        match r {
            Some(i) => last_index_of(s@, c) == Some(i as int),
            None => last_index_of(s@, c) is None,
        },
{
    let mut i: usize = s.len();
    while i > 0
        invariant
            i <= s@.len(),
            forall|k: int| i <= k < s@.len() ==> s@[k] != c,
        decreases i,
    {
        if s[i - 1] == c {
            proof {
                lemma_last_index_of(s@, c, i - 1);
            }
            return Some(i - 1);
        }
        i = i - 1;
    }
    proof {
        lemma_last_index_none(s@, c);
    }
    None
}

/// `str::split_once(c)`.
pub fn split_once_str(s: &str, c: char) -> (r: Option<(String, String)>)
    ensures
        match r {
            Some((a, b)) => split_once(s@, c) == Some((a@, b@)),
            None => split_once(s@, c) is None,
        },
{
    let v = chars_of(s);
    proof {
        lemma_first_index_props(v@, c);
    }
    match find_char(v.as_slice(), c) {
        Some(i) => {
            let a = string_of_range(v.as_slice(), 0, i);
            let b = string_of_range(v.as_slice(), i + 1, v.len());
            Some((a, b))
        },
        None => None,
    }
}

/// `str::rsplit_once(c)`.
pub fn rsplit_once_str(s: &str, c: char) -> (r: Option<(String, String)>)
    ensures
        match r {
            Some((a, b)) => rsplit_once(s@, c) == Some((a@, b@)),
            None => rsplit_once(s@, c) is None,
        },
{
    let v = chars_of(s);
    match rfind_char(v.as_slice(), c) {
        Some(i) => {
            proof {
                lemma_last_index_props(v@, c);
            }
            let a = string_of_range(v.as_slice(), 0, i);
            let b = string_of_range(v.as_slice(), i + 1, v.len());
            Some((a, b))
        },
        None => None,
    }
}

/// `str::split(c)`, collected.
pub fn split_str(s: &str, c: char) -> (r: Vec<String>)
    ensures
        views(r@) == split_all(s@, c),
{
    let v = chars_of(s);
    let mut out: Vec<String> = Vec::new();
    let mut start: usize = 0;
    let mut i: usize = 0;
    assert(v@.subrange(0, v@.len() as int) =~= v@);
    assert(views(out@) =~= Seq::<Seq<char>>::empty());
    assert(Seq::<Seq<char>>::empty() + split_all(s@, c) =~= split_all(s@, c));
    while i < v.len()
        invariant
            v@ == s@,
            start <= i <= v@.len(),
            forall|k: int| start <= k < i ==> v@[k] != c,
            views(out@) + split_all(v@.subrange(start as int, v@.len() as int), c) == split_all(
                s@,
                c,
            ),
        decreases v@.len() - i,
    {
        if v[i] == c {
            let ghost rest = v@.subrange(start as int, v@.len() as int);
            let ghost before = views(out@);
            proof {
                assert forall|k: int| 0 <= k < i - start implies rest[k] != c by {
                    assert(rest[k] == v@[k + start]);
                }
                lemma_first_index_of(rest, c, i - start);
                assert(rest.subrange(0, i - start) =~= v@.subrange(start as int, i as int));
                assert(rest.subrange(i - start + 1, rest.len() as int) =~= v@.subrange(
                    i + 1,
                    v@.len() as int,
                ));
            }
            let piece = string_of_range(v.as_slice(), start, i);
            out.push(piece);
            proof {
                assert(views(out@) =~= before.push(piece@));
                let tail = split_all(v@.subrange(i + 1, v@.len() as int), c);
                assert(split_all(rest, c) == seq![piece@] + tail);
                assert(before + (seq![piece@] + tail) =~= before.push(piece@) + tail);
            }
            start = i + 1;
        }
        i = i + 1;
    }
    let ghost rest = v@.subrange(start as int, v@.len() as int);
    proof {
        assert forall|k: int| 0 <= k < rest.len() implies rest[k] != c by {
            assert(rest[k] == v@[k + start]);
        }
        lemma_first_index_none(rest, c);
    }
    let last = string_of_range(v.as_slice(), start, v.len());
    let ghost before = views(out@);
    out.push(last);
    proof {
        assert(views(out@) =~= before.push(last@));
        assert(before + seq![rest] =~= before.push(last@));
    }
    out
}


/// `views` of a concatenation.
pub proof fn lemma_views_add(a: Seq<String>, b: Seq<String>)
    ensures
        views(a + b) == views(a) + views(b),
{
    assert(views(a + b) =~= views(a) + views(b));
}

/// `views` of a pushed sequence.
pub proof fn lemma_views_push(a: Seq<String>, x: String)
    ensures
        views(a.push(x)) == views(a).push(x@),
{
    assert(views(a.push(x)) =~= views(a).push(x@));
}

/// The pieces joined with `sep` in between (`[String]::join`).
pub fn join_lines(lines: &Vec<String>, sep: &str) -> (r: String)
    ensures
        r@ == join_seqs(views(lines@), sep@),
{
    let mut out = String::new();
    let mut i: usize = 0;
    while i < lines.len()
        invariant
            i <= lines@.len(),
            out@ == join_seqs(views(lines@.subrange(0, i as int)), sep@),
        decreases lines@.len() - i,
    {
        let ghost before = views(lines@.subrange(0, i as int));
        if i > 0 {
            out.append(sep);
        }
        out.append(lines[i].as_str());
        proof {
            let now = views(lines@.subrange(0, i + 1));
            assert(now.drop_last() =~= before);
            assert(now.last() == lines@[i as int]@);
            if i == 0 {
                assert(before =~= Seq::<Seq<char>>::empty());
            }
        }
        i = i + 1;
    }
    assert(lines@.subrange(0, lines@.len() as int) =~= lines@);
    out
}

/// `n` spaces.
pub open spec fn spaces(n: nat) -> Seq<char> {
    Seq::new(n, |i: int| ' ')
}

/// A string of `n` spaces.
pub fn spaces_string(n: usize) -> (r: String)
    ensures
        r@ == spaces(n as nat),
{
    let mut out = String::new();
    let mut i: usize = 0;
    while i < n
        invariant
            i <= n,
            out@ == spaces(i as nat),
        decreases n - i,
    {
        push_char(&mut out, ' ');
        i = i + 1;
        assert(out@ =~= spaces(i as nat));
    }
    out
}

/// Lower-cases an ASCII letter: `A`..`Z` become `a`..`z`, every other
/// character stays as it is.
pub(crate) fn ascii_lower_exec(c: char) -> (r: char)
    ensures
        r == ascii_lower(c),
{
    if 'A' <= c && c <= 'Z' {
        let b: u8 = c as u8;
        (b + 32) as char
    } else {
        c
    }
}

/// ASCII upper-casing of one character (`char::to_ascii_uppercase`).
pub open spec fn ascii_upper(c: char) -> char {
    if 'a' <= c && c <= 'z' {
        ((c as u32) - 32) as char
    } else {
        c
    }
}

/// ASCII upper-casing of a text (`str::to_ascii_uppercase`).
pub open spec fn ascii_upper_seq(s: Seq<char>) -> Seq<char> {
    Seq::new(s.len(), |i: int| ascii_upper(s[i]))
}

/// Upper-cases an ASCII letter: `a`..`z` become `A`..`Z`, every other
/// character stays as it is.
pub(crate) fn ascii_upper_exec(c: char) -> (r: char)
    ensures
        r == ascii_upper(c),
{
    if 'a' <= c && c <= 'z' {
        let b: u8 = c as u8;
        (b - 32) as char
    } else {
        c
    }
}

/// ASCII upper-casing of a text.
pub fn to_ascii_uppercase(s: &str) -> (r: String)
    ensures
        r@ == ascii_upper_seq(s@),
{
    let chars = chars_of(s);
    let mut out = String::new();
    let mut i: usize = 0;
    while i < chars.len()
        invariant
            chars@ == s@,
            i <= chars@.len(),
            out@ == ascii_upper_seq(s@.subrange(0, i as int)),
        decreases chars@.len() - i,
    {
        push_char(&mut out, ascii_upper_exec(chars[i]));
        i = i + 1;
        assert(out@ =~= ascii_upper_seq(s@.subrange(0, i as int)));
    }
    assert(s@.subrange(0, s@.len() as int) =~= s@);
    out
}

/// `str::trim_end` as a new string.
pub fn trim_end_string(s: &str) -> (r: String)
    ensures
        r@ == trim_end(s@),
{
    let v = chars_of(s);
    let mut end: usize = v.len();
    while end > 0 && is_ws_exec(v[end - 1])
        invariant
            v@ == s@,
            end <= v@.len(),
            forall|k: int| end <= k < v@.len() ==> is_ws(#[trigger] v@[k]),
        decreases end,
    {
        end = end - 1;
    }
    proof {
        lemma_trail_ws_of(s@, (s@.len() - end) as nat);
    }
    string_of_range(v.as_slice(), 0, end)
}

/// `s` without its trailing run of `c`.
pub open spec fn strip_trailing(s: Seq<char>, c: char) -> Seq<char>
    decreases s.len(),
{
    if s.len() > 0 && s.last() == c {
        strip_trailing(s.drop_last(), c)
    } else {
        s
    }
}

/// Removes the trailing run of `c` from `s`.
pub fn strip_trailing_string(s: &str, c: char) -> (r: String)
    ensures
        r@ == strip_trailing(s@, c),
{
    let v = chars_of(s);
    let mut end: usize = v.len();
    assert(s@.subrange(0, s@.len() as int) =~= s@);
    while end > 0 && v[end - 1] == c
        invariant
            v@ == s@,
            end <= v@.len(),
            strip_trailing(s@, c) == strip_trailing(s@.subrange(0, end as int), c),
        decreases end,
    {
        assert(s@.subrange(0, end as int).drop_last() =~= s@.subrange(0, end - 1));
        end = end - 1;
    }
    string_of_range(v.as_slice(), 0, end)
}

/// The text of `s` before the first occurrence of `sep`, or all of `s`.
pub open spec fn before_first(s: Seq<char>, sep: Seq<char>) -> Seq<char>
    decreases s.len(),
{
    if sep.len() == 0 || occurs_at(s, sep, 0) {
        Seq::empty()
    } else if s.len() == 0 {
        s
    } else {
        seq![s[0]] + before_first(s.subrange(1, s.len() as int), sep)
    }
}

/// The text before the first occurrence of `sep` (`str::split(sep).next()`).
pub fn before_first_string(s: &str, sep: &str) -> (r: String)
    ensures
        r@ == before_first(s@, sep@),
{
    let v = chars_of(s);
    let p = chars_of(sep);
    if p.len() == 0 {
        return String::new();
    }
    let mut i: usize = 0;
    assert(s@.subrange(0, s@.len() as int) =~= s@);
    assert(s@.subrange(0, 0) + before_first(s@, sep@) =~= before_first(s@, sep@));
    while i < v.len() && !occurs_at_exec(v.as_slice(), p.as_slice(), i)
        invariant
            v@ == s@,
            p@ == sep@,
            p@.len() > 0,
            i <= v@.len(),
            before_first(s@, sep@) == s@.subrange(0, i as int) + before_first(s@.subrange(i as int, s@.len() as int), sep@),
        decreases v@.len() - i,
    {
        proof {
            let rest = s@.subrange(i as int, s@.len() as int);
            assert(!occurs_at(rest, sep@, 0)) by {
                if sep@.len() <= rest.len() {
                    assert(rest.subrange(0, sep@.len() as int) =~= s@.subrange(i as int, i + sep@.len()));
                }
            }
            assert(rest.subrange(1, rest.len() as int) =~= s@.subrange(i + 1, s@.len() as int));
            assert(s@.subrange(0, i + 1) =~= s@.subrange(0, i as int) + seq![rest[0]]);
        }
        i = i + 1;
    }
    proof {
        let rest = s@.subrange(i as int, s@.len() as int);
        if i < v@.len() {
            assert(rest.subrange(0, sep@.len() as int) =~= s@.subrange(i as int, i + sep@.len()));
            assert(occurs_at(rest, sep@, 0));
        }
        assert(before_first(rest, sep@) =~= Seq::<char>::empty());
        assert(s@.subrange(0, i as int) + Seq::<char>::empty() =~= s@.subrange(0, i as int));
    }
    string_of_range(v.as_slice(), 0, i)
}

/// The value of an ASCII digit.
pub open spec fn digit_value(c: char) -> nat {
    (c as u32 - '0' as u32) as nat
}

/// Every character is an ASCII digit and there is at least one.
pub open spec fn all_digits(s: Seq<char>) -> bool {
    s.len() > 0 && forall|i: int| 0 <= i < s.len() ==> '0' <= #[trigger] s[i] && s[i] <= '9'
}

/// The value of a string of ASCII digits, read in base ten.
pub open spec fn digits_value(s: Seq<char>) -> nat
    decreases s.len(),
{
    if s.len() == 0 {
        0
    } else {
        digits_value(s.drop_last()) * 10 + digit_value(s.last())
    }
}

/// What `str::parse` gives for an unsigned type whose largest value is `max`:
/// an optional `+` and at least one digit, with a value of at most `max`.
pub open spec fn spec_parse_unsigned(s: Seq<char>, max: nat) -> Option<nat> {
    let body = if s.len() > 0 && s[0] == '+' {
        s.subrange(1, s.len() as int)
    } else {
        s
    };
    if all_digits(body) && digits_value(body) <= max {
        Some(digits_value(body))
    } else {
        None
    }
}

/// What `str::parse` gives for a signed type ranging over `-(max + 1)..=max`.
pub open spec fn spec_parse_signed(s: Seq<char>, max: nat) -> Option<int> {
    if s.len() > 0 && s[0] == '-' {
        let body = s.subrange(1, s.len() as int);
        if all_digits(body) && digits_value(body) <= max + 1 {
            Some(-(digits_value(body) as int))
        } else {
            None
        }
    } else {
        match spec_parse_unsigned(s, max) {
            Some(v) => Some(v as int),
            None => None,
        }
    }
}

/// Reads `v[from..]` as base-ten digits, `None` when one is not a digit or the
/// value exceeds `max`.
fn digits_up_to(v: &[char], from: usize, max: u64) -> (r: Option<u64>)
    requires
        from <= v@.len(),
    ensures
        match r {
            Some(n) => all_digits(v@.subrange(from as int, v@.len() as int)) && n == digits_value(v@.subrange(from as int, v@.len() as int)) && n <= max,
            None => !(all_digits(v@.subrange(from as int, v@.len() as int)) && digits_value(v@.subrange(from as int, v@.len() as int)) <= max),
        },
{
    let ghost body = v@.subrange(from as int, v@.len() as int);
    if from == v.len() {
        return None;
    }
    let mut acc: u64 = 0;
    let mut i: usize = from;
    while i < v.len()
        invariant
            from <= i <= v@.len(),
            body == v@.subrange(from as int, v@.len() as int),
            forall|k: int| from <= k < i ==> '0' <= #[trigger] v@[k] && v@[k] <= '9',
            acc == digits_value(v@.subrange(from as int, i as int)),
            acc <= max,
        decreases v@.len() - i,
    {
        let c = v[i];
        if c < '0' || c > '9' {
            assert(body[i - from] == c);
            return None;
        }
        let d = (c as u32 - '0' as u32) as u64;
        assert(v@.subrange(from as int, i + 1).drop_last() =~= v@.subrange(from as int, i as int));
        assert(body.subrange(0, i + 1 - from) =~= v@.subrange(from as int, i + 1));
        assert(digits_value(v@.subrange(from as int, i + 1)) == acc * 10 + d);
        match acc.checked_mul(10) {
            Some(m) => match m.checked_add(d) {
                Some(n) => {
                    if n > max {
                        proof {
                            lemma_digits_value_prefix_monotone(body, (i + 1 - from) as int);
                        }
                        return None;
                    }
                    acc = n;
                },
                None => {
                    proof {
                        lemma_digits_value_prefix_monotone(body, (i + 1 - from) as int);
                    }
                    return None;
                },
            },
            None => {
                proof {
                    lemma_digits_value_prefix_monotone(body, (i + 1 - from) as int);
                }
                return None;
            },
        }
        i = i + 1;
    }
    Some(acc)
}

/// The value of a digit string is at least the value of any of its prefixes.
proof fn lemma_digits_value_prefix_monotone(s: Seq<char>, k: int)
    requires
        0 <= k <= s.len(),
    ensures
        digits_value(s.subrange(0, k)) <= digits_value(s),
    decreases s.len() - k,
{
    if k < s.len() {
        lemma_digits_value_prefix_monotone(s, k + 1);
        assert(s.subrange(0, k + 1).drop_last() =~= s.subrange(0, k));
    } else {
        assert(s.subrange(0, k) =~= s);
    }
}

/// `str::parse::<u64>`-style parsing of an unsigned number no larger than `max`.
pub fn parse_unsigned(s: &str, max: u64) -> (r: Option<u64>)
    ensures
        match spec_parse_unsigned(s@, max as nat) {
            Some(n) => r == Some(n as u64),
            None => r is None,
        },
{
    let v = chars_of(s);
    let from: usize = if v.len() > 0 && v[0] == '+' { 1 } else { 0 };
    proof {
        if from == 0 {
            assert(v@.subrange(0, v@.len() as int) =~= s@);
        }
    }
    digits_up_to(v.as_slice(), from, max)
}

/// `str::parse::<usize>`.
pub fn parse_usize(s: &str) -> (r: Option<usize>)
    ensures
        match spec_parse_unsigned(s@, usize::MAX as nat) {
            Some(n) => r == Some(n as usize),
            None => r is None,
        },
{
    match parse_unsigned(s, usize::MAX as u64) {
        Some(n) => Some(n as usize),
        None => None,
    }
}

/// `str::parse::<i64>`.
pub fn parse_i64(s: &str) -> (r: Option<i64>)
    ensures
        match spec_parse_signed(s@, i64::MAX as nat) {
            Some(n) => r == Some(n as i64),
            None => r is None,
        },
{
    let v = chars_of(s);
    if v.len() > 0 && v[0] == '-' {
        match digits_up_to(v.as_slice(), 1, 9223372036854775808u64) {
            Some(n) => {
                if n == 9223372036854775808u64 {
                    Some(i64::MIN)
                } else {
                    Some(-(n as i64))
                }
            },
            None => None,
        }
    } else {
        match parse_unsigned(s, i64::MAX as u64) {
            Some(n) => Some(n as i64),
            None => None,
        }
    }
}

/// `str::parse::<i32>`.
pub fn parse_i32(s: &str) -> (r: Option<i32>)
    ensures
        match spec_parse_signed(s@, i32::MAX as nat) {
            Some(n) => r == Some(n as i32),
            None => r is None,
        },
{
    let v = chars_of(s);
    if v.len() > 0 && v[0] == '-' {
        match digits_up_to(v.as_slice(), 1, 2147483648u64) {
            Some(n) => {
                if n == 2147483648u64 {
                    Some(i32::MIN)
                } else {
                    Some(-(n as i32))
                }
            },
            None => None,
        }
    } else {
        match parse_unsigned(s, i32::MAX as u64) {
            Some(n) => Some(n as i32),
            None => None,
        }
    }
}

/// Removes every leading `c` (`str::trim_start_matches(c)`).
pub fn strip_leading_string(s: &str, c: char) -> (r: String)
    ensures
        r@ == strip_leading(s@, c),
{
    let v = chars_of(s);
    let mut i: usize = 0;
    assert(s@.subrange(0, s@.len() as int) =~= s@);
    while i < v.len() && v[i] == c
        invariant
            v@ == s@,
            i <= v@.len(),
            strip_leading(s@, c) == strip_leading(s@.subrange(i as int, s@.len() as int), c),
        decreases v@.len() - i,
    {
        assert(s@.subrange(i as int, s@.len() as int).subrange(1, s@.len() - i) =~= s@.subrange(i + 1, s@.len() as int));
        i = i + 1;
    }
    string_of_range(v.as_slice(), i, v.len())
}

/// Equality of two byte strings.
pub fn bytes_eq(a: &[u8], b: &[u8]) -> (r: bool)
    ensures
        r == (a@ == b@),
{
    if a.len() != b.len() {
        return false;
    }
    let mut i: usize = 0;
    while i < a.len()
        invariant
            a@.len() == b@.len(),
            i <= a@.len(),
            forall|k: int| 0 <= k < i ==> a@[k] == b@[k],
        decreases a@.len() - i,
    {
        if a[i] != b[i] {
            return false;
        }
        i = i + 1;
    }
    assert(a@ =~= b@);
    true
}

/// A vector holding the bytes.
pub fn bytes_to_vec(a: &[u8]) -> (r: Vec<u8>)
    ensures
        r@ == a@,
{
    let mut out: Vec<u8> = Vec::new();
    let mut i: usize = 0;
    while i < a.len()
        invariant
            i <= a@.len(),
            out@ == a@.subrange(0, i as int),
        decreases a@.len() - i,
    {
        out.push(a[i]);
        i = i + 1;
        assert(out@ =~= a@.subrange(0, i as int));
    }
    assert(out@ =~= a@);
    out
}

/// A text with no whitespace at either end.
pub open spec fn is_trimmed(s: Seq<char>) -> bool {
    s.len() == 0 || (!is_ws(s[0]) && !is_ws(s[s.len() - 1]))
}

proof fn lemma_trail_ws_bound(s: Seq<char>)
    ensures
        trail_ws(s) <= s.len(),
        trail_ws(s) < s.len() ==> !is_ws(s[s.len() - trail_ws(s) - 1]),
    decreases s.len(),
{
    if s.len() > 0 && is_ws(s[s.len() - 1]) {
        let t = s.subrange(0, s.len() - 1);
        lemma_trail_ws_bound(t);
        if trail_ws(s) < s.len() {
            assert(s[s.len() - trail_ws(s) - 1] == t[t.len() - trail_ws(t) - 1]);
        }
    }
}

/// A trimmed text has no whitespace at either end.
pub proof fn lemma_trim_props(s: Seq<char>)
    ensures
        is_trimmed(trim(s)),
{
    let u = trim_start(s);
    lemma_lead_ws_bound(s);
    lemma_trail_ws_bound(u);
    let t = trim(s);
    if t.len() > 0 {
        assert(t[0] == u[0]);
        assert(u[0] == s[lead_ws(s) as int]);
        assert(t[t.len() - 1] == u[u.len() - trail_ws(u) - 1]);
    }
}

/// Trimming a text with no whitespace at either end leaves it unchanged.
pub proof fn lemma_trim_of_trimmed(s: Seq<char>)
    requires
        is_trimmed(s),
    ensures
        trim(s) == s,
{
    if s.len() > 0 {
        lemma_lead_ws_of(s, 0);
        assert(trim_start(s) =~= s);
        lemma_trail_ws_of(s, 0);
        assert(trim_end(s) =~= s);
    } else {
        assert(trim(s) =~= s);
    }
}

/// Why `str::parse` refused an integer.
#[derive(Debug, Clone, Copy, PartialEq, Eq, Structural)]
pub enum IntErrorKind {
    Empty,
    InvalidDigit,
    PosOverflow,
    NegOverflow,
}

/// The base-ten scan of `body[i..]` on top of `acc`: the value, or `Err(true)`
/// at the first non-digit, `Err(false)` when the value first exceeds `limit`.
pub open spec fn scan_digits(body: Seq<char>, limit: nat, i: int, acc: nat) -> core::result::Result<nat, bool>
    decreases body.len() - i,
{
    if i < 0 || i >= body.len() {
        Ok(acc)
    } else if !('0' <= body[i] && body[i] <= '9') {
        Err(true)
    } else if acc * 10 + digit_value(body[i]) > limit {
        Err(false)
    } else {
        scan_digits(body, limit, i + 1, acc * 10 + digit_value(body[i]))
    }
}

/// A scan that starts within the limit ends within it.
pub proof fn lemma_scan_bound(body: Seq<char>, limit: nat, i: int, acc: nat)
    requires
        acc <= limit,
    ensures
        scan_digits(body, limit, i, acc) matches Ok(v) ==> v <= limit,
    decreases body.len() - i,
{
    if 0 <= i < body.len() && '0' <= body[i] && body[i] <= '9' && acc * 10 + digit_value(body[i]) <= limit {
        lemma_scan_bound(body, limit, i + 1, acc * 10 + digit_value(body[i]));
    }
}

/// What `str::parse::<i32>` gives: the value, or why it was refused.
pub open spec fn spec_parse_i32_full(s: Seq<char>) -> core::result::Result<int, IntErrorKind> {
    if s.len() == 0 {
        Err(IntErrorKind::Empty)
    } else if (s[0] == '+' || s[0] == '-') && s.len() == 1 {
        Err(IntErrorKind::InvalidDigit)
    } else if s[0] == '-' {
        match scan_digits(s.subrange(1, s.len() as int), 0x8000_0000, 0, 0) {
            Ok(v) => Ok(-(v as int)),
            Err(invalid) => Err(if invalid { IntErrorKind::InvalidDigit } else { IntErrorKind::NegOverflow }),
        }
    } else {
        let body = if s[0] == '+' { s.subrange(1, s.len() as int) } else { s };
        match scan_digits(body, 0x7fff_ffff, 0, 0) {
            Ok(v) => Ok(v as int),
            Err(invalid) => Err(if invalid { IntErrorKind::InvalidDigit } else { IntErrorKind::PosOverflow }),
        }
    }
}

/// The message `ParseIntError` displays for a kind.
pub open spec fn spec_int_error_message(k: IntErrorKind) -> Seq<char> {
    match k {
        IntErrorKind::Empty => "cannot parse integer from empty string"@,
        IntErrorKind::InvalidDigit => "invalid digit found in string"@,
        IntErrorKind::PosOverflow => "number too large to fit in target type"@,
        IntErrorKind::NegOverflow => "number too small to fit in target type"@,
    }
}

/// The message `ParseIntError` displays for a kind.
pub fn int_error_message(k: IntErrorKind) -> (r: &'static str)
    ensures
        r@ == spec_int_error_message(k),
{
    match k {
        IntErrorKind::Empty => "cannot parse integer from empty string",
        IntErrorKind::InvalidDigit => "invalid digit found in string",
        IntErrorKind::PosOverflow => "number too large to fit in target type",
        IntErrorKind::NegOverflow => "number too small to fit in target type",
    }
}

/// Scans `v[from..]` as base-ten digits up to `limit`.
fn scan_digits_exec(v: &[char], from: usize, limit: u64) -> (r: core::result::Result<u64, bool>)
    requires
        from <= v@.len(),
        limit < 0x1_0000_0000,
    ensures
        match scan_digits(v@.subrange(from as int, v@.len() as int), limit as nat, 0, 0) {
            Ok(n) => r is Ok && r->Ok_0 as nat == n,
            Err(b) => r == Err::<u64, bool>(b),
        },
        r is Ok ==> r->Ok_0 <= limit,
{
    let ghost body = v@.subrange(from as int, v@.len() as int);
    let mut acc: u64 = 0;
    let mut i: usize = from;
    while i < v.len()
        invariant
            from <= i <= v@.len(),
            body == v@.subrange(from as int, v@.len() as int),
            limit < 0x1_0000_0000,
            acc <= limit,
            scan_digits(body, limit as nat, 0, 0) == scan_digits(body, limit as nat, i - from, acc as nat),
        decreases v@.len() - i,
    {
        let c = v[i];
        assert(body[i - from] == c);
        if c < '0' || c > '9' {
            return Err(true);
        }
        let d = (c as u32 - '0' as u32) as u64;
        if acc * 10 + d > limit {
            return Err(false);
        }
        acc = acc * 10 + d;
        i = i + 1;
    }
    Ok(acc)
}

/// `str::parse::<i32>`, with the reason when it is refused.
pub fn parse_i32_full(s: &str) -> (r: core::result::Result<i32, IntErrorKind>)
    ensures
        match spec_parse_i32_full(s@) {
            Ok(n) => i32::MIN <= n <= i32::MAX && r == Ok::<i32, IntErrorKind>(n as i32),
            Err(k) => r == Err::<i32, IntErrorKind>(k),
        },
{
    proof {
        if s@.len() > 0 {
            lemma_scan_bound(s@.subrange(1, s@.len() as int), 0x8000_0000, 0, 0);
            lemma_scan_bound(s@.subrange(1, s@.len() as int), 0x7fff_ffff, 0, 0);
            lemma_scan_bound(s@, 0x7fff_ffff, 0, 0);
        }
    }
    let v = chars_of(s);
    if v.len() == 0 {
        return Err(IntErrorKind::Empty);
    }
    if (v[0] == '+' || v[0] == '-') && v.len() == 1 {
        return Err(IntErrorKind::InvalidDigit);
    }
    if v[0] == '-' {
        let scanned = scan_digits_exec(v.as_slice(), 1, 0x8000_0000);
        match scanned {
            Ok(n) => {
                if n == 0x8000_0000 {
                    Ok(i32::MIN)
                } else {
                    Ok(-(n as i32))
                }
            },
            Err(true) => Err(IntErrorKind::InvalidDigit),
            Err(false) => Err(IntErrorKind::NegOverflow),
        }
    } else {
        let from: usize = if v[0] == '+' { 1 } else { 0 };
        proof {
            if from == 0 {
                assert(v@.subrange(0, v@.len() as int) =~= s@);
            }
        }
        match scan_digits_exec(v.as_slice(), from, 0x7fff_ffff) {
            Ok(n) => Ok(n as i32),
            Err(true) => Err(IntErrorKind::InvalidDigit),
            Err(false) => Err(IntErrorKind::PosOverflow),
        }
    }
}

/// What `str::parse::<i64>` gives: the value, or why it was refused.
pub open spec fn spec_parse_i64_full(s: Seq<char>) -> core::result::Result<int, IntErrorKind> {
    if s.len() == 0 {
        Err(IntErrorKind::Empty)
    } else if (s[0] == '+' || s[0] == '-') && s.len() == 1 {
        Err(IntErrorKind::InvalidDigit)
    } else if s[0] == '-' {
        match scan_digits(s.subrange(1, s.len() as int), 0x8000_0000_0000_0000, 0, 0) {
            Ok(v) => Ok(-(v as int)),
            Err(invalid) => Err(if invalid { IntErrorKind::InvalidDigit } else { IntErrorKind::NegOverflow }),
        }
    } else {
        let body = if s[0] == '+' { s.subrange(1, s.len() as int) } else { s };
        match scan_digits(body, 0x7fff_ffff_ffff_ffff, 0, 0) {
            Ok(v) => Ok(v as int),
            Err(invalid) => Err(if invalid { IntErrorKind::InvalidDigit } else { IntErrorKind::PosOverflow }),
        }
    }
}

/// The base-ten scan of `v[from..]` with a limit below 2^64.
fn scan_digits_wide(v: &[char], from: usize, limit: u128) -> (r: core::result::Result<u128, bool>)
    requires
        from <= v@.len(),
        limit <= 0x8000_0000_0000_0000,
    ensures
        match scan_digits(v@.subrange(from as int, v@.len() as int), limit as nat, 0, 0) {
            Ok(n) => r is Ok && r->Ok_0 as nat == n,
            Err(b) => r == Err::<u128, bool>(b),
        },
        r is Ok ==> r->Ok_0 <= limit,
{
    let ghost body = v@.subrange(from as int, v@.len() as int);
    let mut acc: u128 = 0;
    let mut i: usize = from;
    while i < v.len()
        invariant
            from <= i <= v@.len(),
            body == v@.subrange(from as int, v@.len() as int),
            limit <= 0x8000_0000_0000_0000,
            acc <= limit,
            scan_digits(body, limit as nat, 0, 0) == scan_digits(body, limit as nat, i - from, acc as nat),
        decreases v@.len() - i,
    {
        let c = v[i];
        assert(body[i - from] == c);
        if c < '0' || c > '9' {
            return Err(true);
        }
        let d = (c as u32 - '0' as u32) as u128;
        if acc * 10 + d > limit {
            return Err(false);
        }
        acc = acc * 10 + d;
        i = i + 1;
    }
    Ok(acc)
}

/// `str::parse::<i64>`, with the reason when it is refused.
pub fn parse_i64_full(s: &str) -> (r: core::result::Result<i64, IntErrorKind>)
    ensures
        match spec_parse_i64_full(s@) {
            Ok(n) => i64::MIN <= n <= i64::MAX && r == Ok::<i64, IntErrorKind>(n as i64),
            Err(k) => r == Err::<i64, IntErrorKind>(k),
        },
{
    proof {
        if s@.len() > 0 {
            lemma_scan_bound(s@.subrange(1, s@.len() as int), 0x8000_0000_0000_0000, 0, 0);
            lemma_scan_bound(s@.subrange(1, s@.len() as int), 0x7fff_ffff_ffff_ffff, 0, 0);
            lemma_scan_bound(s@, 0x7fff_ffff_ffff_ffff, 0, 0);
        }
    }
    let v = chars_of(s);
    if v.len() == 0 {
        return Err(IntErrorKind::Empty);
    }
    if (v[0] == '+' || v[0] == '-') && v.len() == 1 {
        return Err(IntErrorKind::InvalidDigit);
    }
    if v[0] == '-' {
        match scan_digits_wide(v.as_slice(), 1, 0x8000_0000_0000_0000) {
            Ok(n) => {
                if n == 0x8000_0000_0000_0000 {
                    Ok(i64::MIN)
                } else {
                    Ok(-(n as i64))
                }
            },
            Err(true) => Err(IntErrorKind::InvalidDigit),
            Err(false) => Err(IntErrorKind::NegOverflow),
        }
    } else {
        let from: usize = if v[0] == '+' { 1 } else { 0 };
        proof {
            if from == 0 {
                assert(v@.subrange(0, v@.len() as int) =~= s@);
            }
        }
        match scan_digits_wide(v.as_slice(), from, 0x7fff_ffff_ffff_ffff) {
            Ok(n) => Ok(n as i64),
            Err(true) => Err(IntErrorKind::InvalidDigit),
            Err(false) => Err(IntErrorKind::PosOverflow),
        }
    }
}

} // verus!
