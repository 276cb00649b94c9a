//! Verified operations on strings, stated over the sequence of their characters.
use vstd::prelude::*;
use vstd::utf8::{decode_utf8, valid_utf8};

verus! {

/// The text of an optional string.
pub open spec fn opt_text(o: Option<String>) -> Option<Seq<char>> {
    match o {
        Some(s) => Some(s@),
        None => None,
    }
}

/// The texts of a list of strings.
pub open spec fn texts(list: Seq<String>) -> Seq<Seq<char>> {
    list.map_values(|s: String| s@)
}

/// `s` without its trailing run of `c`.
pub open spec fn trimmed_end(s: Seq<char>, c: char) -> Seq<char>
    decreases s.len(),
{
    if s.len() > 0 && s.last() == c {
        trimmed_end(s.drop_last(), c)
    } else {
        s
    }
}

/// `s` without its leading run of `c`.
pub open spec fn trimmed_start(s: Seq<char>, c: char) -> Seq<char>
    decreases s.len(),
{
    if s.len() > 0 && s[0] == c {
        trimmed_start(s.drop_first(), c)
    } else {
        s
    }
}

/// The part of `s` before the first `c`; all of `s` where `c` does not occur.
pub open spec fn before_first(s: Seq<char>, c: char) -> Seq<char>
    decreases s.len(),
{
    if s.len() == 0 || s[0] == c {
        Seq::empty()
    } else {
        seq![s[0]] + before_first(s.drop_first(), c)
    }
}

/// The part of `s` before the last `c`; all of `s` where `c` does not occur.
pub open spec fn before_last(s: Seq<char>, c: char) -> Seq<char>
    decreases s.len(),
{
    if !s.contains(c) || s.len() == 0 {
        s
    } else if s.last() == c {
        s.drop_last()
    } else {
        before_last(s.drop_last(), c)
    }
}

/// The pieces of `s` between the occurrences of `c`; one piece more than there
/// are occurrences.
pub open spec fn pieces(s: Seq<char>, c: char) -> Seq<Seq<char>>
    decreases s.len(),
{
    let head = before_first(s, c);
    if head.len() < s.len() {
        seq![head] + pieces(s.skip(head.len() as int + 1), c)
    } else {
        seq![head]
    }
}

/// `s` with every disjoint occurrence of `from`, found from left to right,
/// replaced by `to`. An empty `from` occurs before every character and at the
/// end.
pub open spec fn replaced(s: Seq<char>, from: Seq<char>, to: Seq<char>) -> Seq<char>
    decreases s.len(),
{
    if from.len() == 0 {
        if s.len() == 0 {
            to
        } else {
            to + seq![s[0]] + replaced(s.drop_first(), from, to)
        }
    } else if s.len() == 0 {
        s
    } else if from.is_prefix_of(s) {
        to + replaced(s.skip(from.len() as int), from, to)
    } else {
        seq![s[0]] + replaced(s.drop_first(), from, to)
    }
}

/// Whether `part` stands somewhere in `s`.
pub open spec fn occurs_in(part: Seq<char>, s: Seq<char>) -> bool {
    exists|i: int| 0 <= i <= s.len() && part.is_prefix_of(#[trigger] s.skip(i))
}

/// The characters with the Unicode property `White_Space`.
pub open spec fn is_white_space(c: char) -> bool {
    ||| '\u{9}' <= c <= '\u{d}'
    ||| c == '\u{20}'
    ||| c == '\u{85}'
    ||| c == '\u{a0}'
    ||| c == '\u{1680}'
    ||| '\u{2000}' <= c <= '\u{200a}'
    ||| c == '\u{2028}'
    ||| c == '\u{2029}'
    ||| c == '\u{202f}'
    ||| c == '\u{205f}'
    ||| c == '\u{3000}'
}

/// `s` without the white space at its start.
pub open spec fn stripped_start(s: Seq<char>) -> Seq<char>
    decreases s.len(),
{
    if s.len() > 0 && is_white_space(s[0]) {
        stripped_start(s.drop_first())
    } else {
        s
    }
}

/// `s` without the white space at its end.
pub open spec fn stripped_end(s: Seq<char>) -> Seq<char>
    decreases s.len(),
{
    if s.len() > 0 && is_white_space(s.last()) {
        stripped_end(s.drop_last())
    } else {
        s
    }
}

/// `s` without the white space at both ends.
pub open spec fn stripped(s: Seq<char>) -> Seq<char> {
    stripped_end(stripped_start(s))
}

/// The items of `list` in order, `sep` between each two.
pub open spec fn joined(list: Seq<Seq<char>>, sep: Seq<char>) -> Seq<char>
    decreases list.len(),
{
    if list.len() == 0 {
        Seq::empty()
    } else if list.len() == 1 {
        list[0]
    } else {
        joined(list.drop_last(), sep) + sep + list.last()
    }
}

/// The decimal digit `d`.
pub open spec fn digit(d: int) -> char {
    if d == 0 {
        '0'
    } else if d == 1 {
        '1'
    } else if d == 2 {
        '2'
    } else if d == 3 {
        '3'
    } else if d == 4 {
        '4'
    } else if d == 5 {
        '5'
    } else if d == 6 {
        '6'
    } else if d == 7 {
        '7'
    } else if d == 8 {
        '8'
    } else {
        '9'
    }
}

/// `n` in decimal, without leading zeros.
pub open spec fn decimal(n: nat) -> Seq<char>
    decreases n,
{
    if n < 10 {
        seq![digit(n as int)]
    } else {
        decimal(n / 10) + seq![digit((n % 10) as int)]
    }
}

/// `n` in decimal, with a minus sign in front of a negative number.
pub open spec fn signed_decimal(n: int) -> Seq<char> {
    if n < 0 {
        seq!['-'] + decimal((-n) as nat)
    } else {
        decimal(n as nat)
    }
}

/// The lower-case form of an ASCII letter; any other character as it is.
pub open spec fn ascii_lower(c: char) -> char {
    if 'A' <= c <= 'Z' {
        ((c as u32) + 32) as char
    } else {
        c
    }
}

/// Whether two strings are equal but for the case of ASCII letters.
pub open spec fn same_ignoring_ascii_case(a: Seq<char>, b: Seq<char>) -> bool {
    &&& a.len() == b.len()
    &&& forall|i: int| 0 <= i < a.len() ==> ascii_lower(a[i]) == ascii_lower(b[i])
}

/// Whether two strings hold the same characters.
pub fn str_eq(a: &str, b: &str) -> (r: bool)
    ensures
        r == (a@ == b@),
{
    a.to_owned() == b.to_owned()
}

/// The characters of a string, in order.
pub fn chars_of(s: &str) -> (v: Vec<char>)
    ensures
        v@ == s@,
{
    let mut v: Vec<char> = Vec::new();
    for c in it: s.chars()
        invariant
            v@ == it.seq().take(it.index() as int),
            it.seq() == s@,
    {
        v.push(c);
    }
    v
}

/// Whether two optional strings are both absent or hold the same characters.
pub fn opt_str_eq(a: &Option<String>, b: &Option<String>) -> (r: bool)
    ensures
        r == (opt_text(*a) == opt_text(*b)),
{
    match (a, b) {
        (Some(x), Some(y)) => str_eq(x.as_str(), y.as_str()),
        (None, None) => true,
        _ => false,
    }
}

/// Whether `s` starts with `prefix`.
pub fn starts_with(s: &str, prefix: &str) -> (r: bool)
    ensures
        r == prefix@.is_prefix_of(s@),
{
    let n: usize = s.unicode_len();
    let k: usize = prefix.unicode_len();
    if k > n {
        return false;
    }
    let head = s.substring_char(0, k);
    let r = str_eq(head, prefix);
    proof {
        if r {
            assert(prefix@ =~= s@.subrange(0, prefix@.len() as int));
        }
    }
    r
}

/// Whether `s` ends with `suffix`.
pub fn ends_with(s: &str, suffix: &str) -> (r: bool)
    ensures
        r == suffix@.is_suffix_of(s@),
{
    let n: usize = s.unicode_len();
    let k: usize = suffix.unicode_len();
    if k > n {
        return false;
    }
    let tail = s.substring_char(n - k, n);
    let r = str_eq(tail, suffix);
    proof {
        if r {
            assert(suffix@ =~= s@.subrange(s@.len() - suffix@.len(), s@.len() as int));
        }
    }
    r
}

/// Whether `list` holds `s`.
pub fn contains_text(list: &Vec<String>, s: &str) -> (r: bool)
    ensures
        r == texts(list@).contains(s@),
{
    let mut i: usize = 0;
    while i < list.len()
        invariant
            i <= list.len(),
            forall|j: int| 0 <= j < i ==> list@[j]@ != s@,
        decreases list.len() - i,
    {
        if str_eq(list[i].as_str(), s) {
            assert(texts(list@)[i as int] == s@);
            return true;
        }
        i = i + 1;
    }
    assert forall|j: int| 0 <= j < texts(list@).len() implies texts(list@)[j] != s@ by {
        assert(list@[j]@ != s@);
    }
    false
}

/// `s` without its trailing run of `c`.
pub fn trim_end_char(s: &str, c: char) -> (r: String)
    ensures
        r@ == trimmed_end(s@, c),
{
    let chars = chars_of(s);
    let mut n: usize = chars.len();
    assert(s@.take(n as int) =~= s@);
    while n > 0 && chars[n - 1] == c
        invariant
            n <= chars.len(),
            chars@ == s@,
            trimmed_end(s@, c) == trimmed_end(s@.take(n as int), c),
        decreases n,
    {
        assert(s@.take(n as int).drop_last() =~= s@.take(n - 1));
        n = n - 1;
    }
    assert(s@.take(n as int) =~= s@.subrange(0, n as int));
    s.substring_char(0, n).to_owned()
}

/// `s` without its leading run of `c`.
pub fn trim_start_char(s: &str, c: char) -> (r: String)
    ensures
        r@ == trimmed_start(s@, c),
{
    let chars = chars_of(s);
    let n: usize = chars.len();
    let mut i: usize = 0;
    assert(s@.skip(0) =~= s@);
    while i < n && chars[i] == c
        invariant
            i <= n,
            n == chars.len(),
            chars@ == s@,
            trimmed_start(s@, c) == trimmed_start(s@.skip(i as int), c),
        decreases n - i,
    {
        assert(s@.skip(i as int).drop_first() =~= s@.skip(i + 1));
        i = i + 1;
    }
    assert(s@.skip(i as int) =~= s@.subrange(i as int, n as int));
    s.substring_char(i, n).to_owned()
}

/// The part of `s` before the first `c`; all of `s` where `c` does not occur.
pub fn head_before(s: &str, c: char) -> (r: String)
    ensures
        r@ == before_first(s@, c),
{
    let chars = chars_of(s);
    let n: usize = chars.len();
    let mut i: usize = 0;
    assert(s@.skip(0) =~= s@);
    assert(s@.take(0) + before_first(s@, c) =~= before_first(s@, c));
    while i < n && chars[i] != c
        invariant
            i <= n,
            n == chars.len(),
            chars@ == s@,
            before_first(s@, c) == s@.take(i as int) + before_first(s@.skip(i as int), c),
        decreases n - i,
    {
        assert(s@.skip(i as int).drop_first() =~= s@.skip(i + 1));
        assert(s@.take(i as int) + (seq![s@[i as int]] + before_first(s@.skip(i + 1), c)) =~= s@.take(
            i + 1,
        ) + before_first(s@.skip(i + 1), c));
        i = i + 1;
    }
    assert(before_first(s@.skip(i as int), c) =~= Seq::empty());
    assert(s@.take(i as int) + Seq::<char>::empty() =~= s@.subrange(0, i as int));
    s.substring_char(0, i).to_owned()
}

/// The part of `s` before the last `c`; all of `s` where `c` does not occur.
pub fn head_before_last(s: &str, c: char) -> (r: String)
    ensures
        r@ == before_last(s@, c),
{
    let chars = chars_of(s);
    let mut n: usize = chars.len();
    assert(s@.take(n as int) =~= s@);
    while n > 0
        invariant
            n <= chars.len(),
            chars@ == s@,
            forall|j: int| n <= j < s@.len() ==> s@[j] != c,
            s@.contains(c) ==> before_last(s@, c) == before_last(s@.take(n as int), c),
        decreases n,
    {
        if chars[n - 1] == c {
            proof {
                assert(s@.contains(c));
                let t = s@.take(n as int);
                assert(t.last() == c);
                assert(t.contains(c)) by {
                    assert(t[t.len() - 1] == c);
                }
                assert(t.drop_last() =~= s@.subrange(0, n - 1));
            }
            return s.substring_char(0, n - 1).to_owned();
        }
        proof {
            let t = s@.take(n as int);
            assert(t.drop_last() =~= s@.take(n - 1));
            if s@.contains(c) {
                let k = choose|k: int| 0 <= k < s@.len() && s@[k] == c;
                assert(t[k] == c);
                assert(t.contains(c));
            }
        }
        n = n - 1;
    }
    assert(!s@.contains(c));
    s.to_owned()
}

/// The pieces of `s` between the occurrences of `c`.
pub fn split_on(s: &str, c: char) -> (r: Vec<String>)
    ensures
        texts(r@) == pieces(s@, c),
{
    let n: usize = s.unicode_len();
    let mut out: Vec<String> = Vec::new();
    let mut start: usize = 0;
    assert(s@.skip(0) =~= s@);
    assert(texts(out@) + pieces(s@, c) =~= pieces(s@, c));
    loop
        invariant
            start <= n,
            n == s@.len(),
            pieces(s@, c) == texts(out@) + pieces(s@.skip(start as int), c),
        decreases n - start,
    {
        let rest = s.substring_char(start, n);
        assert(rest@ =~= s@.skip(start as int));
        let head = head_before(rest, c);
        let k: usize = head.as_str().unicode_len();
        proof {
            lemma_before_first_len(rest@, c);
        }
        let ghost before = out@;
        out.push(head);
        assert(texts(out@) =~= texts(before).push(head@));
        if k == n - start {
            assert(texts(before) + seq![head@] =~= texts(out@));
            return out;
        }
        proof {
            let tail = pieces(rest@.skip(k + 1), c);
            assert(texts(before) + (seq![head@] + tail) =~= texts(out@) + tail);
            assert(rest@.skip(k + 1) =~= s@.skip(start + k + 1));
        }
        start = start + k + 1;
    }
}

proof fn lemma_before_first_len(s: Seq<char>, c: char)
    ensures
        before_first(s, c).len() <= s.len(),
    decreases s.len(),
{
    if s.len() > 0 && s[0] != c {
        lemma_before_first_len(s.drop_first(), c);
    }
}

/// Whether `word` stands in `chars` at position `at`.
fn stands_at(chars: &Vec<char>, at: usize, word: &Vec<char>) -> (r: bool)
    requires
        at <= chars.len(),
    ensures
        r == word@.is_prefix_of(chars@.skip(at as int)),
{
    if word.len() > chars.len() - at {
        return false;
    }
    let mut i: usize = 0;
    while i < word.len()
        invariant
            i <= word.len(),
            at + word.len() <= chars.len(),
            forall|j: int| 0 <= j < i ==> word@[j] == chars@[at + j],
        decreases word.len() - i,
    {
        if word[i] != chars[at + i] {
            assert(word@[i as int] != chars@.skip(at as int)[i as int]);
            return false;
        }
        i = i + 1;
    }
    assert(word@ =~= chars@.skip(at as int).subrange(0, word@.len() as int));
    true
}

/// Whether `part` stands somewhere in `s`.
pub fn contains_part(s: &str, part: &str) -> (r: bool)
    ensures
        r == occurs_in(part@, s@),
{
    let chars = chars_of(s);
    let word = chars_of(part);
    if word.len() == 0 {
        assert(part@.is_prefix_of(s@.skip(0)));
        return true;
    }
    let mut i: usize = 0;
    while i < chars.len()
        invariant
            i <= chars.len(),
            chars@ == s@,
            word@ == part@,
            part@.len() > 0,
            forall|j: int| 0 <= j < i ==> !part@.is_prefix_of(#[trigger] s@.skip(j)),
        decreases chars.len() - i,
    {
        if stands_at(&chars, i, &word) {
            return true;
        }
        i = i + 1;
    }
    false
}

/// `s` with every occurrence of `from` replaced by `to`.
pub fn replace_all(s: &str, from: &str, to: &str) -> (r: String)
    ensures
        r@ == replaced(s@, from@, to@),
{
    let chars = chars_of(s);
    let word = chars_of(from);
    let n: usize = chars.len();
    let k: usize = word.len();
    let mut out = String::new();
    let mut start: usize = 0;
    let mut i: usize = 0;
    assert(s@.skip(0) =~= s@);
    assert(out@ + s@.subrange(0, 0) + replaced(s@, from@, to@) =~= replaced(s@, from@, to@));
    while i < n
        invariant
            start <= i <= n,
            n == s@.len(),
            chars@ == s@,
            word@ == from@,
            k == from@.len(),
            replaced(s@, from@, to@) == out@ + s@.subrange(start as int, i as int) + replaced(
                s@.skip(i as int),
                from@,
                to@,
            ),
        decreases n - i,
    {
        let ghost before = out@;
        let ghost kept = s@.subrange(start as int, i as int);
        let ghost rest = s@.skip(i as int);
        assert(rest.drop_first() =~= s@.skip(i + 1));
        if k == 0 {
            out.append(s.substring_char(start, i));
            out.append(to);
            start = i;
            i = i + 1;
            assert(before + kept + (to@ + seq![rest[0]] + replaced(s@.skip(i as int), from@, to@))
                =~= out@ + s@.subrange(start as int, i as int) + replaced(
                s@.skip(i as int),
                from@,
                to@,
            ));
        } else if stands_at(&chars, i, &word) {
            out.append(s.substring_char(start, i));
            out.append(to);
            i = i + k;
            start = i;
            assert(rest.skip(k as int) =~= s@.skip(i as int));
            assert(before + kept + (to@ + replaced(s@.skip(i as int), from@, to@)) =~= out@
                + s@.subrange(start as int, i as int) + replaced(s@.skip(i as int), from@, to@));
        } else {
            i = i + 1;
            assert(before + kept + (seq![rest[0]] + replaced(s@.skip(i as int), from@, to@))
                =~= out@ + s@.subrange(start as int, i as int) + replaced(
                s@.skip(i as int),
                from@,
                to@,
            ));
        }
    }
    let ghost before = out@;
    let ghost kept = s@.subrange(start as int, n as int);
    out.append(s.substring_char(start, n));
    if k == 0 {
        assert(replaced(s@.skip(n as int), from@, to@) == to@);
        out.append(to);
    } else {
        assert(before + kept + replaced(s@.skip(n as int), from@, to@) =~= out@);
    }
    out
}

/// Whether `c` has the Unicode property `White_Space`.
pub fn is_space(c: char) -> (r: bool)
    ensures
        r == is_white_space(c),
{
    ('\u{9}' <= c && c <= '\u{d}') || c == '\u{20}' || c == '\u{85}' || c == '\u{a0}' || c
        == '\u{1680}' || ('\u{2000}' <= c && c <= '\u{200a}') || c == '\u{2028}' || c
        == '\u{2029}' || c == '\u{202f}' || c == '\u{205f}' || c == '\u{3000}'
}

/// `s` without the white space at both ends.
pub fn strip(s: &str) -> (r: String)
    ensures
        r@ == stripped(s@),
{
    let chars = chars_of(s);
    let n: usize = chars.len();
    let mut i: usize = 0;
    assert(s@.skip(0) =~= s@);
    while i < n && is_space(chars[i])
        invariant
            i <= n,
            n == chars.len(),
            chars@ == s@,
            stripped_start(s@) == stripped_start(s@.skip(i as int)),
        decreases n - i,
    {
        assert(s@.skip(i as int).drop_first() =~= s@.skip(i + 1));
        i = i + 1;
    }
    let ghost t = s@.skip(i as int);
    assert(stripped_start(s@) == t);
    let mut m: usize = n;
    assert(t.take(m - i) =~= t);
    while m > i && is_space(chars[m - 1])
        invariant
            i <= m <= n,
            n == chars.len(),
            chars@ == s@,
            t == s@.skip(i as int),
            stripped_end(t) == stripped_end(t.take(m - i)),
        decreases m,
    {
        assert(t.take(m - i).last() == s@[m - 1]);
        assert(t.take(m - i).drop_last() =~= t.take(m - 1 - i));
        m = m - 1;
    }
    assert(t.take(m - i) =~= s@.subrange(i as int, m as int));
    s.substring_char(i, m).to_owned()
}

/// The items of `list` in order, `sep` between each two.
pub fn join(list: &Vec<String>, sep: &str) -> (r: String)
    ensures
        r@ == joined(texts(list@), sep@),
{
    let mut out = String::new();
    let mut i: usize = 0;
    assert(texts(list@).take(0) =~= Seq::<Seq<char>>::empty());
    while i < list.len()
        invariant
            i <= list.len(),
            out@ == joined(texts(list@).take(i as int), sep@),
        decreases list.len() - i,
    {
        let ghost done = texts(list@).take(i + 1);
        assert(done.drop_last() =~= texts(list@).take(i as int));
        assert(done.last() == list@[i as int]@);
        if i > 0 {
            out.append(sep);
        }
        let ghost before = out@;
        out.append(list[i].as_str());
        assert(i == 0 ==> before + list@[i as int]@ =~= list@[i as int]@);
        i = i + 1;
    }
    assert(texts(list@).take(list.len() as int) =~= texts(list@));
    out
}

/// The decimal digit `d`, as a string.
fn digit_str(d: u64) -> (r: &'static str)
    requires
        d < 10,
    ensures
        r@ == seq![digit(d as int)],
{
    proof {
        reveal_strlit("0");
        reveal_strlit("1");
        reveal_strlit("2");
        reveal_strlit("3");
        reveal_strlit("4");
        reveal_strlit("5");
        reveal_strlit("6");
        reveal_strlit("7");
        reveal_strlit("8");
        reveal_strlit("9");
    }
    if d == 0 {
        "0"
    } else if d == 1 {
        "1"
    } else if d == 2 {
        "2"
    } else if d == 3 {
        "3"
    } else if d == 4 {
        "4"
    } else if d == 5 {
        "5"
    } else if d == 6 {
        "6"
    } else if d == 7 {
        "7"
    } else if d == 8 {
        "8"
    } else {
        "9"
    }
}

/// `n` in decimal, without leading zeros.
pub fn decimal_of(n: u64) -> (r: String)
    ensures
        r@ == decimal(n as nat),
    decreases n,
{
    if n < 10 {
        digit_str(n).to_owned()
    } else {
        decimal_of(n / 10).concat(digit_str(n % 10))
    }
}

/// `n` in decimal, with a minus sign in front of a negative number.
pub fn signed_decimal_of(n: i64) -> (r: String)
    ensures
        r@ == signed_decimal(n as int),
{
    if n < 0 {
        proof {
            reveal_strlit("-");
            assert("-"@ =~= seq!['-']);
        }
        let magnitude: u64 = (-(n as i128)) as u64;
        "-".to_owned().concat(decimal_of(magnitude).as_str())
    } else {
        decimal_of(n as u64)
    }
}

/// The lower-case form of an ASCII letter; any other character as it is.
fn lower(c: char) -> (r: char)
    ensures
        r == ascii_lower(c),
{
    if 'A' <= c && c <= 'Z' {
        let code: u8 = c as u8;
        assert(code == c as u32);
        (code + 32u8) as char
    } else {
        c
    }
}

/// Whether two strings are equal but for the case of ASCII letters.
pub fn eq_ignore_ascii_case(a: &str, b: &str) -> (r: bool)
    ensures
        r == same_ignoring_ascii_case(a@, b@),
{
    let x = chars_of(a);
    let y = chars_of(b);
    if x.len() != y.len() {
        return false;
    }
    let mut i: usize = 0;
    while i < x.len()
        invariant
            i <= x.len(),
            x.len() == y.len(),
            x@ == a@,
            y@ == b@,
            forall|j: int| 0 <= j < i ==> ascii_lower(a@[j]) == ascii_lower(b@[j]),
        decreases x.len() - i,
    {
        if lower(x[i]) != lower(y[i]) {
            return false;
        }
        i = i + 1;
    }
    true
}

/// What `format!` makes of a string under `{:?}`: the string in quotes, with
/// escapes.
pub uninterp spec fn debug_quoted(text: Seq<char>) -> Seq<char>;

/// Calls `format!` to put a string in quotes the way `{:?}` does. Of the result
/// it is only claimed that it depends on the string alone.
#[verifier::external_body]
pub(crate) fn quote_debug(text: &str) -> (r: String)
    ensures
        r@ == debug_quoted(text@),
{
    format!("{:?}", text)
}

/// Calls `std::str::from_utf8`: the text that bytes stand for, where they are
/// UTF-8.
#[verifier::external_body]
pub(crate) fn decode_text(bytes: &[u8]) -> (r: Option<String>)
    ensures
        opt_text(r) == (if valid_utf8(bytes@) {
            Some(decode_utf8(bytes@))
        } else {
            None
        }),
{
    std::str::from_utf8(bytes).ok().map(str::to_owned)
}

/// What `String::from_utf8_lossy` makes of bytes: text in which replacement
/// characters stand for what is no UTF-8.
pub uninterp spec fn lossy_text(bytes: Seq<u8>) -> Seq<char>;

/// The text to show for bytes: the one that they stand for where they are UTF-8,
/// and else one with replacement characters.
pub open spec fn shown_text(bytes: Seq<u8>) -> Seq<char> {
    if valid_utf8(bytes) {
        decode_utf8(bytes)
    } else {
        lossy_text(bytes)
    }
}

/// Calls `String::from_utf8_lossy`. Bytes that are UTF-8 stand for their text; of
/// other bytes it is only claimed that the result depends on them alone.
#[verifier::external_body]
pub(crate) fn decode_lossy(bytes: &[u8]) -> (r: String)
    ensures
        r@ == lossy_text(bytes@),
        valid_utf8(bytes@) ==> r@ == decode_utf8(bytes@),
{
    String::from_utf8_lossy(bytes).into_owned()
}

/// What does not occur in a text is not replaced in it.
pub proof fn lemma_absent_is_not_replaced(s: Seq<char>, from: Seq<char>, to: Seq<char>)
    requires
        from.len() > 0,
        forall|i: int| 0 <= i <= s.len() ==> !from.is_prefix_of(#[trigger] s.skip(i)),
    ensures
        replaced(s, from, to) == s,
    decreases s.len(),
{
    if s.len() > 0 {
        assert(s.skip(0) =~= s);
        let rest = s.drop_first();
        assert forall|i: int| 0 <= i <= rest.len() implies !from.is_prefix_of(
            #[trigger] rest.skip(i),
        ) by {
            assert(rest.skip(i) =~= s.skip(i + 1));
        }
        lemma_absent_is_not_replaced(rest, from, to);
        assert(seq![s[0]] + rest =~= s);
    }
}

/// The first occurrence in a text is replaced, what stands before it stays, and
/// what comes after it is dealt with in the same way.
pub proof fn lemma_first_occurrence_is_replaced(
    before: Seq<char>,
    after: Seq<char>,
    from: Seq<char>,
    to: Seq<char>,
)
    requires
        from.len() > 0,
        forall|i: int|
            0 <= i < before.len() ==> !from.is_prefix_of(
                #[trigger] (before + from + after).skip(i),
            ),
    ensures
        replaced(before + from + after, from, to) == before + to + replaced(after, from, to),
    decreases before.len(),
{
    let s = before + from + after;
    if before.len() == 0 {
        assert(s.subrange(0, from.len() as int) =~= from);
        assert(from.is_prefix_of(s));
        assert(s.skip(from.len() as int) =~= after);
        assert(before + to + replaced(after, from, to) =~= to + replaced(after, from, to));
    } else {
        assert(s.skip(0) =~= s);
        let rest = before.drop_first();
        assert(s.drop_first() =~= rest + from + after);
        assert forall|i: int| 0 <= i < rest.len() implies !from.is_prefix_of(
            #[trigger] (rest + from + after).skip(i),
        ) by {
            assert((rest + from + after).skip(i) =~= s.skip(i + 1));
        }
        lemma_first_occurrence_is_replaced(rest, after, from, to);
        assert(seq![s[0]] + (rest + to + replaced(after, from, to)) =~= before + to + replaced(
            after,
            from,
            to,
        ));
    }
}

/// The part of a text before the first occurrence of a character.
pub proof fn lemma_before_first(before: Seq<char>, after: Seq<char>, c: char)
    requires
        !before.contains(c),
    ensures
        before_first(before + seq![c] + after, c) == before,
        before_first(before, c) == before,
    decreases before.len(),
{
    let s = before + seq![c] + after;
    if before.len() > 0 {
        assert(before[0] != c) by {
            assert(before.contains(before[0]));
        }
        let rest = before.drop_first();
        assert(!rest.contains(c)) by {
            if rest.contains(c) {
                let i = choose|i: int| 0 <= i < rest.len() && rest[i] == c;
                assert(before[i + 1] == c);
            }
        }
        lemma_before_first(rest, after, c);
        assert(s.drop_first() =~= rest + seq![c] + after);
        assert(s[0] == before[0]);
        assert(seq![before[0]] + rest =~= before);
    } else {
        assert(s[0] == c);
        assert(before_first(s, c) =~= before);
        assert(before_first(before, c) =~= before);
    }
}

/// The part of a text before the last occurrence of a character; all of it where
/// the character does not occur.
pub proof fn lemma_before_last(before: Seq<char>, after: Seq<char>, c: char)
    requires
        !after.contains(c),
    ensures
        before_last(before + seq![c] + after, c) == before,
        before_last(after, c) == after,
    decreases after.len(),
{
    let s = before + seq![c] + after;
    assert(s[before.len() as int] == c);
    if after.len() == 0 {
        assert(s.last() == c);
        assert(s.drop_last() =~= before);
    } else {
        assert(after.contains(after.last()));
        assert(s.last() == after.last());
        let rest = after.drop_last();
        assert(!rest.contains(c)) by {
            if rest.contains(c) {
                let i = choose|i: int| 0 <= i < rest.len() && rest[i] == c;
                assert(after[i] == c);
            }
        }
        lemma_before_last(before, rest, c);
        assert(s.drop_last() =~= before + seq![c] + rest);
    }
}

/// A text is its trimmed form and a run of the character behind it, and the trimmed
/// form does not end with that character.
pub proof fn lemma_trimmed_end(s: Seq<char>, c: char)
    ensures
        trimmed_end(s, c).is_prefix_of(s),
        forall|i: int| trimmed_end(s, c).len() <= i < s.len() ==> #[trigger] s[i] == c,
        trimmed_end(s, c).len() > 0 ==> trimmed_end(s, c).last() != c,
    decreases s.len(),
{
    if s.len() > 0 && s.last() == c {
        lemma_trimmed_end(s.drop_last(), c);
        let t = trimmed_end(s, c);
        assert(t =~= s.subrange(0, t.len() as int));
        assert forall|i: int| t.len() <= i < s.len() implies #[trigger] s[i] == c by {
            if i < s.len() - 1 {
                assert(s.drop_last()[i] == c);
            }
        }
    } else {
        assert(s =~= s.subrange(0, s.len() as int));
    }
}

/// A text is its trimmed form with a run of the character before it, and the trimmed
/// form does not start with that character.
pub proof fn lemma_trimmed_start(s: Seq<char>, c: char)
    ensures
        trimmed_start(s, c).is_suffix_of(s),
        forall|i: int|
            0 <= i < s.len() - trimmed_start(s, c).len() ==> #[trigger] s[i] == c,
        trimmed_start(s, c).len() > 0 ==> trimmed_start(s, c)[0] != c,
    decreases s.len(),
{
    if s.len() > 0 && s[0] == c {
        lemma_trimmed_start(s.drop_first(), c);
        let t = trimmed_start(s, c);
        assert(t =~= s.subrange(s.len() - t.len(), s.len() as int));
        assert forall|i: int| 0 <= i < s.len() - t.len() implies #[trigger] s[i] == c by {
            if i > 0 {
                assert(s.drop_first()[i - 1] == c);
            }
        }
    } else {
        assert(s =~= s.subrange(0, s.len() as int));
    }
}

/// What is left of a text without the white space at its start, or at its end, is
/// the rest of it, and has none there.
pub proof fn lemma_stripped_ends(s: Seq<char>)
    ensures
        stripped_start(s).is_suffix_of(s),
        forall|i: int|
            0 <= i < s.len() - stripped_start(s).len() ==> is_white_space(#[trigger] s[i]),
        stripped_start(s).len() > 0 ==> !is_white_space(stripped_start(s)[0]),
        stripped_end(s).is_prefix_of(s),
        forall|i: int| stripped_end(s).len() <= i < s.len() ==> is_white_space(#[trigger] s[i]),
        stripped_end(s).len() > 0 ==> !is_white_space(stripped_end(s).last()),
        stripped(s) == stripped_end(stripped_start(s)),
    decreases s.len(),
{
    assert(s =~= s.subrange(0, s.len() as int));
    if s.len() > 0 && is_white_space(s[0]) {
        lemma_stripped_ends(s.drop_first());
        let t = stripped_start(s);
        assert(t =~= s.subrange(s.len() - t.len(), s.len() as int));
        assert forall|i: int| 0 <= i < s.len() - t.len() implies is_white_space(
            #[trigger] s[i],
        ) by {
            if i > 0 {
                assert(is_white_space(s.drop_first()[i - 1]));
            }
        }
    }
    if s.len() > 0 && is_white_space(s.last()) {
        lemma_stripped_ends(s.drop_last());
        let t = stripped_end(s);
        assert(t =~= s.subrange(0, t.len() as int));
        assert forall|i: int| t.len() <= i < s.len() implies is_white_space(#[trigger] s[i]) by {
            if i < s.len() - 1 {
                assert(is_white_space(s.drop_last()[i]));
            }
        }
    }
}

/// The first piece of a text ends before the first separator, and the pieces of what
/// comes behind that are the others.
pub proof fn lemma_pieces_between_separators(before: Seq<char>, after: Seq<char>, c: char)
    requires
        !before.contains(c),
    ensures
        pieces(before + seq![c] + after, c) == seq![before] + pieces(after, c),
        pieces(before, c) == seq![before],
{
    let s = before + seq![c] + after;
    lemma_before_first(before, after, c);
    assert(s.skip(before.len() as int + 1) =~= after);
}

/// A list of texts with one more is joined by putting the separator and the text
/// behind it.
pub proof fn lemma_joined_in_order(list: Seq<Seq<char>>, last: Seq<char>, sep: Seq<char>)
    ensures
        joined(Seq::empty(), sep) == Seq::<char>::empty(),
        joined(seq![last], sep) == last,
        list.len() > 0 ==> joined(list.push(last), sep) == joined(list, sep) + sep + last,
{
    assert(list.push(last).drop_last() =~= list);
}

/// The number that decimal digits stand for.
pub open spec fn decimal_value(digits: Seq<char>) -> int
    decreases digits.len(),
{
    if digits.len() == 0 {
        0
    } else {
        decimal_value(digits.drop_last()) * 10 + (digits.last() as int - 48)
    }
}

/// A number is read back from its decimal digits, which are digits.
pub proof fn lemma_decimal_is_read_back(n: nat)
    ensures
        decimal_value(decimal(n)) == n,
        decimal(n).len() > 0,
        forall|i: int| 0 <= i < decimal(n).len() ==> '0' <= #[trigger] decimal(n)[i] <= '9',
        n > 0 ==> decimal(n)[0] != '0',
    decreases n,
{
    if n >= 10 {
        lemma_decimal_is_read_back(n / 10);
        let head = decimal(n / 10);
        assert(decimal(n).drop_last() =~= head);
        assert(decimal(n)[0] == head[0]);
    } else {
        assert(decimal(n).drop_last() =~= Seq::<char>::empty());
        assert(decimal_value(Seq::<char>::empty()) == 0);
    }
}

/// The pieces of two texts with a separator between them are those of the first,
/// then those of the second.
pub proof fn lemma_pieces_of_two(a: Seq<char>, b: Seq<char>, c: char)
    ensures
        pieces(a + seq![c] + b, c) == pieces(a, c) + pieces(b, c),
    decreases a.len(),
{
    if !a.contains(c) {
        lemma_pieces_between_separators(a, b, c);
    } else {
        let head = before_first(a, c);
        lemma_first_piece(a, c);
        let rest = a.skip(head.len() as int + 1);
        assert(a =~= head + seq![c] + rest);
        lemma_pieces_between_separators(head, rest, c);
        lemma_pieces_between_separators(head, rest + seq![c] + b, c);
        assert(a + seq![c] + b =~= head + seq![c] + (rest + seq![c] + b));
        lemma_pieces_of_two(rest, b, c);
        assert(seq![head] + (pieces(rest, c) + pieces(b, c)) =~= (seq![head] + pieces(rest, c))
            + pieces(b, c));
    }
}

/// Where a character occurs, the part before its first occurrence does not hold it,
/// and it comes right behind that part.
proof fn lemma_first_piece(s: Seq<char>, c: char)
    requires
        s.contains(c),
    ensures
        before_first(s, c).len() < s.len(),
        !before_first(s, c).contains(c),
        before_first(s, c) == s.take(before_first(s, c).len() as int),
        s[before_first(s, c).len() as int] == c,
    decreases s.len(),
{
    if s[0] != c {
        let rest = s.drop_first();
        assert(rest.contains(c)) by {
            let i = choose|i: int| 0 <= i < s.len() && s[i] == c;
            assert(rest[i - 1] == c);
        }
        lemma_first_piece(rest, c);
        let head = before_first(rest, c);
        assert(before_first(s, c) =~= s.take(head.len() as int + 1));
        assert(!(seq![s[0]] + head).contains(c)) by {
            if (seq![s[0]] + head).contains(c) {
                let i = choose|i: int|
                    0 <= i < (seq![s[0]] + head).len() && (seq![s[0]] + head)[i] == c;
                assert(head[i - 1] == c);
            }
        }
    } else {
        assert(before_first(s, c) =~= s.take(0));
    }
}

/// The case of ASCII letters is ignored, and nothing else: a text is the same as
/// itself, two texts are the same either way round, and texts without upper-case
/// letters are the same only where they are equal.
pub proof fn lemma_only_case_is_ignored(a: Seq<char>, b: Seq<char>, c: char)
    ensures
        same_ignoring_ascii_case(a, a),
        same_ignoring_ascii_case(a, b) ==> same_ignoring_ascii_case(b, a),
        same_ignoring_ascii_case(a, b) ==> a.len() == b.len(),
        'A' <= c <= 'Z' ==> ascii_lower(c) as int == c as int + 32,
        !('A' <= c <= 'Z') ==> ascii_lower(c) == c,
        same_ignoring_ascii_case(seq![c], seq![ascii_lower(c)]),
        same_ignoring_ascii_case(a, b) && (forall|i: int|
            0 <= i < a.len() ==> !('A' <= #[trigger] a[i] <= 'Z') && !('A' <= b[i] <= 'Z')) ==> a
            == b,
{
    if same_ignoring_ascii_case(a, b) && (forall|i: int|
        0 <= i < a.len() ==> !('A' <= #[trigger] a[i] <= 'Z') && !('A' <= b[i] <= 'Z')) {
        assert(a =~= b);
    }
}

/// A number below zero is written as the digits of its absolute value behind a minus
/// sign, any other number as its digits.
pub proof fn lemma_sign_stands_before_the_digits(n: int)
    ensures
        n < 0 ==> signed_decimal(n)[0] == '-' && decimal_value(signed_decimal(n).skip(1)) == -n,
        n >= 0 ==> decimal_value(signed_decimal(n)) == n,
{
    if n < 0 {
        lemma_decimal_is_read_back((-n) as nat);
        assert(signed_decimal(n).skip(1) =~= decimal((-n) as nat));
    } else {
        lemma_decimal_is_read_back(n as nat);
    }
}

/// Bytes that are UTF-8 are shown as the text that they stand for.
pub proof fn lemma_utf8_is_shown_as_it_is(bytes: Seq<u8>)
    requires
        valid_utf8(bytes),
    ensures
        shown_text(bytes) == decode_utf8(bytes),
{
}

/// A text occurs in every text that it is a part of, and only there.
pub proof fn lemma_parts_occur(before: Seq<char>, part: Seq<char>, after: Seq<char>)
    ensures
        occurs_in(part, before + part + after),
        part.len() > after.len() ==> !occurs_in(part, after),
        occurs_in(part, after) ==> exists|i: int|
            0 <= i <= after.len() - part.len() && #[trigger] after.subrange(i, i + part.len())
                == part,
{
    let whole = before + part + after;
    let k = before.len() as int;
    assert(whole.skip(k).subrange(0, part.len() as int) =~= part);
    if occurs_in(part, after) {
        let i = choose|i: int| 0 <= i <= after.len() && part.is_prefix_of(#[trigger] after.skip(i));
        assert(after.subrange(i, i + part.len()) =~= after.skip(i).subrange(
            0,
            part.len() as int,
        ));
    }
}

/// An empty text occurs before every character and at the end.
pub proof fn lemma_empty_occurs_everywhere(c: char, rest: Seq<char>, to: Seq<char>)
    ensures
        replaced(Seq::empty(), Seq::empty(), to) == to,
        replaced(seq![c] + rest, Seq::empty(), to) == to + seq![c] + replaced(
            rest,
            Seq::empty(),
            to,
        ),
{
    assert((seq![c] + rest).drop_first() =~= rest);
}

} // verus!
