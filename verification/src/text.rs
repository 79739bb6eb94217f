//! Character-level helpers shared by the rest of the library: building
//! strings, searching for separators and decimal numbers.
use vstd::prelude::*;

verus! {

/// Appends one character to a string (`String::push`).
#[verifier::external_body]
pub(crate) fn push_char(s: &mut String, c: char)
    ensures
        final(s)@ == old(s)@.push(c),
{
    s.push(c);
}

/// Appends a string slice to a string (`String::push_str`).
#[verifier::external_body]
pub(crate) fn push_str(s: &mut String, t: &str)
    ensures
        final(s)@ == old(s)@ + t@,
{
    s.push_str(t);
}

/// The characters of `s`, in order.
pub fn chars_of(s: &str) -> (r: Vec<char>)
    ensures
        r@ == s@,
{
    let mut r: Vec<char> = Vec::new();
    for c in it: s.chars()
        invariant
            r@ == it.seq().take(it.index() as int),
    {
        r.push(c);
    }
    r
}

/// A string made of the characters `v[from..to]`.
pub fn string_from_range(v: &Vec<char>, from: usize, to: usize) -> (r: String)
    requires
        from <= to <= v.len(),
    ensures
        r@ == v@.subrange(from as int, to as int),
{
    let mut r = String::new();
    let mut i = from;
    while i < to
        invariant
            from <= i <= to <= v.len(),
            r@ == v@.subrange(from as int, i as int),
        decreases to - i,
    {
        push_char(&mut r, v[i]);
        assert(v@.subrange(from as int, i + 1) == v@.subrange(from as int, i as int).push(v@[i as int]));
        i += 1;
    }
    r
}

/// A string made of all the characters of `v`.
pub fn string_from_chars(v: &Vec<char>) -> (r: String)
    ensures
        r@ == v@,
{
    let r = string_from_range(v, 0, v.len());
    assert(v@.subrange(0, v@.len() as int) == v@);
    r
}

/// Concatenation of two string slices.
pub fn concat2(a: &str, b: &str) -> (r: String)
    ensures
        r@ == a@ + b@,
{
    let mut r = String::new();
    push_str(&mut r, a);
    push_str(&mut r, b);
    assert(Seq::<char>::empty() + a@ + b@ == a@ + b@);
    r
}

/// Concatenation of three string slices.
pub fn concat3(a: &str, b: &str, c: &str) -> (r: String)
    ensures
        r@ == a@ + b@ + c@,
{
    let mut r = concat2(a, b);
    push_str(&mut r, c);
    r
}

/// Whether two character sequences are equal.
pub fn chars_eq(a: &Vec<char>, b: &Vec<char>) -> (r: bool)
    ensures
        r == (a@ == b@),
{
    if a.len() != b.len() {
        return false;
    }
    let mut i: usize = 0;
    while i < a.len()
        invariant
            a.len() == b.len(),
            i <= a.len(),
            forall|j: int| 0 <= j < i ==> a@[j] == b@[j],
        decreases a.len() - i,
    {
        if a[i] != b[i] {
            return false;
        }
        i += 1;
    }
    assert(a@ =~= b@);
    true
}

/// Whether two string slices hold the same characters.
pub fn str_eq(a: &str, b: &str) -> (r: bool)
    ensures
        r == (a@ == b@),
{
    let va = chars_of(a);
    let vb = chars_of(b);
    chars_eq(&va, &vb)
}

/// The characters of an optional string.
pub open spec fn opt_text(o: Option<String>) -> Option<Seq<char>> {
    match o {
        Some(s) => Some(s@),
        None => None,
    }
}

/// Whether two optional strings are both absent or hold the same
/// characters.
pub fn opt_str_eq(a: &Option<String>, b: &Option<String>) -> (r: bool)
    ensures
        r == (opt_text(*a) == opt_text(*b)),
{
    match (a, b) {
        (Some(x), Some(y)) => str_eq(x.as_str(), y.as_str()),
        (None, None) => true,
        _ => false,
    }
}

/// Whether two lists of strings hold the same strings in the same order.
pub fn string_lists_eq(a: &[String], b: &[String]) -> (r: bool)
    ensures
        r == (views(a@) == views(b@)),
{
    if a.len() != b.len() {
        assert(views(a@).len() != views(b@).len());
        return false;
    }
    let mut i: usize = 0;
    while i < a.len()
        invariant
            a@.len() == b@.len(),
            i <= a@.len(),
            forall|j: int| 0 <= j < i ==> a@[j]@ == b@[j]@,
        decreases a@.len() - i,
    {
        if !str_eq(a[i].as_str(), b[i].as_str()) {
            assert(views(a@)[i as int] != views(b@)[i as int]);
            return false;
        }
        i += 1;
    }
    assert(views(a@) =~= views(b@));
    true
}

/// The character sequences of a list of strings.
pub open spec fn views(v: Seq<String>) -> Seq<Seq<char>> {
    v.map_values(|s: String| s@)
}

/// `n` occurs in `h` starting at position `i`.
pub open spec fn occurs_at(h: Seq<char>, n: Seq<char>, i: int) -> bool {
    0 <= i && i + n.len() <= h.len() && h.subrange(i, i + n.len()) == n
}

/// `n` occurs somewhere in `h`.
pub open spec fn contains_seq(h: Seq<char>, n: Seq<char>) -> bool {
    exists|i: int| occurs_at(h, n, i)
}

/// `i` is the first position at which `n` occurs in `h`.
pub open spec fn first_occurrence(h: Seq<char>, n: Seq<char>, i: int) -> bool {
    occurs_at(h, n, i) && forall|j: int| 0 <= j < i ==> !occurs_at(h, n, j)
}

/// `h` begins with `p`.
pub open spec fn starts_with(h: Seq<char>, p: Seq<char>) -> bool {
    p.len() <= h.len() && h.subrange(0, p.len() as int) == p
}

/// `h` ends with `p`.
pub open spec fn ends_with(h: Seq<char>, p: Seq<char>) -> bool {
    p.len() <= h.len() && h.subrange(h.len() - p.len(), h.len() as int) == p
}

/// Whether `n` occurs in `h` at position `i` (exec).
pub fn occurs_at_exec(h: &Vec<char>, n: &Vec<char>, i: usize) -> (r: bool)
    ensures
        r == occurs_at(h@, n@, i as int),
{
    if i > h.len() || n.len() > h.len() - i {
        return false;
    }
    let mut k: usize = 0;
    while k < n.len()
        invariant
            i + n.len() <= h.len(),
            k <= n.len(),
            forall|j: int| 0 <= j < k ==> h@[i + j] == n@[j],
        decreases n.len() - k,
    {
        if h[i + k] != n[k] {
            assert(h@.subrange(i as int, i + n.len())[k as int] != n@[k as int]);
            return false;
        }
        k += 1;
    }
    assert(h@.subrange(i as int, i + n.len()) =~= n@);
    true
}

/// The first position at which `n` occurs in `h`, if any.
pub fn find_chars(h: &Vec<char>, n: &Vec<char>) -> (r: Option<usize>)
    ensures
        r matches Some(i) ==> first_occurrence(h@, n@, i as int),
        r is None ==> !contains_seq(h@, n@),
{
    if n.len() > h.len() {
        assert forall|i: int| !occurs_at(h@, n@, i) by {}
        return None;
    }
    let last = h.len() - n.len();
    let mut i: usize = 0;
    loop
        invariant
            last == h.len() - n.len(),
            n.len() <= h.len(),
            i <= last,
            forall|j: int| 0 <= j < i ==> !occurs_at(h@, n@, j),
        decreases last - i,
    {
        if occurs_at_exec(h, n, i) {
            return Some(i);
        }
        if i == last {
            assert forall|j: int| !occurs_at(h@, n@, j) by {
                if 0 <= j && j + n.len() <= h.len() {
                    assert(j <= i);
                }
            }
            return None;
        }
        i += 1;
    }
}

/// Whether `n` occurs in `h`.
pub fn contains_chars(h: &Vec<char>, n: &Vec<char>) -> (r: bool)
    ensures
        r == contains_seq(h@, n@),
{
    match find_chars(h, n) {
        Some(_) => true,
        None => false,
    }
}

/// Whether the string slice `needle` occurs in `hay`.
pub fn str_contains(hay: &str, needle: &str) -> (r: bool)
    ensures
        r == contains_seq(hay@, needle@),
{
    let h = chars_of(hay);
    let n = chars_of(needle);
    contains_chars(&h, &n)
}

/// Whether `h` begins with `p` (exec).
pub fn starts_with_chars(h: &Vec<char>, p: &Vec<char>) -> (r: bool)
    ensures
        r == starts_with(h@, p@),
{
    let r = occurs_at_exec(h, p, 0);
    r
}

/// Splits `h` around the first occurrence of `sep`: the part before it and
/// the part after it.
pub fn split_once_chars(h: &Vec<char>, sep: &Vec<char>) -> (r: Option<(String, String)>)
    ensures
        r matches Some((a, b)) ==> exists|i: int|
            first_occurrence(h@, sep@, i) && a@ == h@.subrange(0, i) && b@ == h@.subrange(
                i + sep@.len(),
                h@.len() as int,
            ),
        r is None ==> !contains_seq(h@, sep@),
{
    match find_chars(h, sep) {
        Some(i) => {
            assert(occurs_at(h@, sep@, i as int));
            let sep_len = sep.len();
            let h_len = h.len();
            assert(i + sep_len <= h_len);
            let a = string_from_range(h, 0, i);
            let j: usize = i + sep_len;
            let b = string_from_range(h, j, h.len());
            Some((a, b))
        },
        None => None,
    }
}

/// The decimal digit for `d`.
pub open spec fn digit_char(d: nat) -> char {
    if d == 0 {
        '0'
    } else if d == 1 {
        '1'
    } else if d == 2 {
        '2'
    } else if d == 3 {
        '3'
    } else if d == 4 {
        '4'
    } else if d == 5 {
        '5'
    } else if d == 6 {
        '6'
    } else if d == 7 {
        '7'
    } else if d == 8 {
        '8'
    } else {
        '9'
    }
}

/// Whether `c` is one of the ASCII digits `0`..`9`.
pub open spec fn is_digit(c: char) -> bool {
    '0' <= c && c <= '9'
}

/// The value of an ASCII digit.
pub open spec fn digit_value(c: char) -> nat {
    (c as int - '0' as int) as nat
}

/// The usual decimal notation of `n`: no sign, no leading zeros.
pub open spec fn decimal(n: nat) -> Seq<char>
    decreases n,
{
    if n < 10 {
        seq![digit_char(n)]
    } else {
        decimal(n / 10).push(digit_char(n % 10))
    }
}

/// The number that a sequence of decimal digits denotes.
pub open spec fn digits_value(s: Seq<char>) -> nat
    decreases s.len(),
{
    if s.len() == 0 {
        0
    } else {
        digits_value(s.drop_last()) * 10 + digit_value(s.last())
    }
}

/// Every character of `s` is a decimal digit.
pub open spec fn all_digits(s: Seq<char>) -> bool {
    forall|i: int| 0 <= i < s.len() ==> is_digit(#[trigger] s[i])
}

/// What `usize::from_str` accepts: an optional `+` sign followed by one or
/// more decimal digits whose value fits in a `usize`.
pub open spec fn parse_usize_spec(s: Seq<char>) -> Option<nat> {
    let digits = if s.len() > 0 && s[0] == '+' {
        s.skip(1)
    } else {
        s
    };
    if digits.len() > 0 && all_digits(digits) && digits_value(digits) <= usize::MAX {
        Some(digits_value(digits))
    } else {
        None
    }
}

proof fn lemma_digit_char(d: nat)
    requires
        d < 10,
    ensures
        is_digit(digit_char(d)),
        digit_value(digit_char(d)) == d,
        digit_char(d) != '+',
{
}

/// The decimal notation of `n` is a non-empty run of digits that denotes `n`.
pub proof fn lemma_decimal(n: nat)
    ensures
        decimal(n).len() > 0,
        all_digits(decimal(n)),
        digits_value(decimal(n)) == n,
        decimal(n)[0] != '+',
    decreases n,
{
    if n < 10 {
        lemma_digit_char(n);
        let s = decimal(n);
        assert(s == seq![digit_char(n)]);
        assert(s.len() == 1);
        assert(s.drop_last() =~= Seq::<char>::empty());
        assert(digits_value(s.drop_last()) == 0);
        assert(s.last() == digit_char(n));
        assert(digits_value(s) == n);
    } else {
        lemma_decimal(n / 10);
        lemma_digit_char(n % 10);
        let s = decimal(n);
        assert(s.drop_last() =~= decimal(n / 10));
        assert(s.last() == digit_char(n % 10));
        assert(digit_value(s.last()) == n % 10);
        assert(digits_value(s) == digits_value(s.drop_last()) * 10 + digit_value(s.last()));
        assert(digits_value(s.drop_last()) == n / 10);
        assert(n == (n / 10) * 10 + n % 10);
        assert(s[0] == decimal(n / 10)[0]);
    }
}

fn digit_to_char(d: usize) -> (c: char)
    requires
        d < 10,
    ensures
        c == digit_char(d as nat),
{
    if d == 0 {
        '0'
    } else if d == 1 {
        '1'
    } else if d == 2 {
        '2'
    } else if d == 3 {
        '3'
    } else if d == 4 {
        '4'
    } else if d == 5 {
        '5'
    } else if d == 6 {
        '6'
    } else if d == 7 {
        '7'
    } else if d == 8 {
        '8'
    } else {
        '9'
    }
}

/// The decimal notation of `n` (as `n.to_string()` writes it).
pub fn usize_to_string(n: usize) -> (r: String)
    ensures
        r@ == decimal(n as nat),
    decreases n,
{
    if n < 10 {
        let mut r = String::new();
        push_char(&mut r, digit_to_char(n));
        assert(Seq::<char>::empty().push(digit_char(n as nat)) =~= seq![digit_char(n as nat)]);
        r
    } else {
        let mut r = usize_to_string(n / 10);
        push_char(&mut r, digit_to_char(n % 10));
        r
    }
}

/// The decimal notation of `n` (as `n.to_string()` writes it).
pub fn u64_to_string(n: u64) -> (r: String)
    ensures
        r@ == decimal(n as nat),
    decreases n,
{
    if n < 10 {
        let mut r = String::new();
        push_char(&mut r, digit_to_char(n as usize));
        assert(Seq::<char>::empty().push(digit_char(n as nat)) =~= seq![digit_char(n as nat)]);
        r
    } else {
        let mut r = u64_to_string(n / 10);
        push_char(&mut r, digit_to_char((n % 10) as usize));
        r
    }
}

/// Parses a `usize` the way `usize::from_str` does.
pub fn parse_usize(s: &str) -> (r: Option<usize>)
    ensures
        r matches Some(v) ==> parse_usize_spec(s@) == Some(v as nat),
        r is None ==> parse_usize_spec(s@) is None,
{
    let v = chars_of(s);
    let start: usize = if v.len() > 0 && v[0] == '+' {
        1
    } else {
        0
    };
    let ghost digits = v@.skip(start as int);
    assert(digits == if s@.len() > 0 && s@[0] == '+' {
        s@.skip(1)
    } else {
        s@
    });
    if start >= v.len() {
        return None;
    }
    let mut acc: usize = 0;
    let mut i = start;
    while i < v.len()
        invariant
            start <= i <= v.len(),
            v@ == s@,
            digits == v@.skip(start as int),
            digits == if s@.len() > 0 && s@[0] == '+' {
                s@.skip(1)
            } else {
                s@
            },
            all_digits(v@.subrange(start as int, i as int)),
            acc as nat == digits_value(v@.subrange(start as int, i as int)),
        decreases v.len() - i,
    {
        let c = v[i];
        if !('0' <= c && c <= '9') {
            assert(digits[i - start] == c);
            assert(!is_digit(digits[i - start]));
            return None;
        }
        let d = (c as u32 - '0' as u32) as usize;
        let ghost prefix = v@.subrange(start as int, i + 1);
        assert(prefix.drop_last() =~= v@.subrange(start as int, i as int));
        assert(prefix.last() == c);
        assert(digit_value(c) == d);
        assert(all_digits(prefix));
        assert(digits_value(prefix) == acc * 10 + d);
        match acc.checked_mul(10) {
            Some(m) => match m.checked_add(d) {
                Some(a) => {
                    acc = a;
                },
                None => {
                    proof {
                        lemma_prefix_value_bound(digits, (i + 1 - start) as nat);
                        assert(digits.subrange(0, (i + 1 - start) as int) =~= prefix);
                    }
                    return None;
                },
            },
            None => {
                proof {
                    lemma_prefix_value_bound(digits, (i + 1 - start) as nat);
                    assert(digits.subrange(0, (i + 1 - start) as int) =~= prefix);
                }
                return None;
            },
        }
        i += 1;
    }
    assert(v@.subrange(start as int, v.len() as int) =~= digits);
    Some(acc)
}

/// A run of digits is worth at least as much as any of its prefixes.
proof fn lemma_prefix_value_bound(s: Seq<char>, k: nat)
    requires
        k <= s.len(),
        all_digits(s.subrange(0, k as int)) || all_digits(s),
    ensures
        digits_value(s.subrange(0, k as int)) <= digits_value(s),
    decreases s.len(),
{
    if k == s.len() {
        assert(s.subrange(0, k as int) =~= s);
    } else {
        assert(s.drop_last().subrange(0, k as int) =~= s.subrange(0, k as int));
        if all_digits(s) {
            assert(all_digits(s.drop_last()));
        }
        lemma_prefix_value_bound(s.drop_last(), k);
        assert(digits_value(s.drop_last()) <= digits_value(s.drop_last()) * 10);
    }
}

/// Decimal notation and `usize::from_str` agree: reading back what
/// `usize_to_string` wrote gives the number that was written.
pub proof fn lemma_parse_decimal(n: usize)
    ensures
        parse_usize_spec(decimal(n as nat)) == Some(n as nat),
{
    lemma_decimal(n as nat);
}

/// The part of `s` after the last occurrence of `c` (all of `s` when `c`
/// does not occur): the last item of `s.split(c)`.
pub open spec fn after_last(s: Seq<char>, c: char) -> Seq<char>
    decreases s.len(),
{
    if s.len() == 0 {
        s
    } else if s.last() == c {
        Seq::<char>::empty()
    } else {
        after_last(s.drop_last(), c).push(s.last())
    }
}

/// `after_last` is a suffix of `s` that does not contain `c`.
pub proof fn lemma_after_last(s: Seq<char>, c: char)
    ensures
        after_last(s, c).len() <= s.len(),
        after_last(s, c) == s.subrange(s.len() - after_last(s, c).len(), s.len() as int),
        !after_last(s, c).contains(c),
        after_last(s, c).len() < s.len() ==> s[s.len() - after_last(s, c).len() - 1] == c,
    decreases s.len(),
{
    if s.len() == 0 {
    } else if s.last() == c {
        assert(s.subrange(s.len() as int, s.len() as int) =~= Seq::<char>::empty());
    } else {
        lemma_after_last(s.drop_last(), c);
        let a = after_last(s.drop_last(), c);
        assert(after_last(s, c) =~= s.subrange(s.len() - a.len() - 1, s.len() as int));
        assert forall|i: int| 0 <= i < a.len() + 1 implies after_last(s, c)[i] != c by {
            if i < a.len() {
                assert(after_last(s, c)[i] == a[i]);
            }
        }
    }
}

/// The start of `after_last(v, c)` within `v`.
pub fn after_last_start(v: &Vec<char>, c: char) -> (r: usize)
    ensures
        r <= v.len(),
        v@.subrange(r as int, v@.len() as int) == after_last(v@, c),
{
    proof {
        lemma_after_last(v@, c);
    }
    let mut i = v.len();
    assert(v@.subrange(0, i as int) =~= v@);
    assert(v@.subrange(i as int, v@.len() as int) =~= Seq::<char>::empty());
    assert(after_last(v@, c) + Seq::<char>::empty() =~= after_last(v@, c));
    while i > 0
        invariant
            i <= v.len(),
            after_last(v@, c) == after_last(v@.subrange(0, i as int), c) + v@.subrange(i as int, v@.len() as int),
            forall|j: int| i <= j < v.len() ==> v@[j] != c,
        decreases i,
    {
        if v[i - 1] == c {
            assert(v@.subrange(0, i as int).last() == c);
            assert(after_last(v@.subrange(0, i as int), c) =~= Seq::<char>::empty());
            assert(after_last(v@, c) =~= v@.subrange(i as int, v@.len() as int));
            return i;
        }
        let ghost pre = v@.subrange(0, i as int);
        assert(pre.drop_last() =~= v@.subrange(0, i - 1));
        assert(after_last(pre, c) == after_last(v@.subrange(0, i - 1), c).push(v@[i - 1]));
        assert(v@.subrange(i - 1, v@.len() as int) =~= seq![v@[i - 1]] + v@.subrange(i as int, v@.len() as int));
        assert(after_last(v@, c) =~= after_last(v@.subrange(0, i - 1), c) + v@.subrange(i - 1, v@.len() as int));
        i -= 1;
    }
    assert(v@.subrange(0, 0) =~= Seq::<char>::empty());
    assert(after_last(v@, c) =~= v@.subrange(0, v@.len() as int));
    0
}


/// Whether `c` is a Unicode white-space character (the `White_Space`
/// property, which `char::is_whitespace` tests).
pub open spec fn is_white(c: char) -> bool {
    ||| ('\u{9}' <= c && c <= '\u{d}')
    ||| c == ' '
    ||| c == '\u{85}'
    ||| c == '\u{a0}'
    ||| c == '\u{1680}'
    ||| ('\u{2000}' <= c && c <= '\u{200a}')
    ||| c == '\u{2028}'
    ||| c == '\u{2029}'
    ||| c == '\u{202f}'
    ||| c == '\u{205f}'
    ||| c == '\u{3000}'
}

/// Whether `c` is white space (exec).
pub fn is_white_exec(c: char) -> (r: bool)
    ensures
        r == is_white(c),
{
    ('\u{9}' <= c && c <= '\u{d}') || c == ' ' || c == '\u{85}' || c == '\u{a0}' || c == '\u{1680}' || (
    '\u{2000}' <= c && c <= '\u{200a}') || c == '\u{2028}' || c == '\u{2029}' || c == '\u{202f}' || c
        == '\u{205f}' || c == '\u{3000}'
}

/// The words of `s`: its maximal runs of characters that are not white
/// space, in order.
pub open spec fn words(s: Seq<char>) -> Seq<Seq<char>>
    decreases s.len(),
{
    if s.len() == 0 {
        Seq::<Seq<char>>::empty()
    } else {
        let w = words(s.drop_last());
        let c = s.last();
        if is_white(c) {
            w
        } else if s.len() >= 2 && !is_white(s[s.len() - 2]) {
            w.update(w.len() - 1, w.last().push(c))
        } else {
            w.push(seq![c])
        }
    }
}

/// A text that does not end in white space, and is not empty, ends inside
/// its last word.
pub proof fn lemma_words_nonempty(s: Seq<char>)
    requires
        s.len() > 0,
        !is_white(s.last()),
    ensures
        words(s).len() > 0,
    decreases s.len(),
{
    if s.len() >= 2 && !is_white(s[s.len() - 2]) {
        let t = s.drop_last();
        assert(t.last() == s[s.len() - 2]);
        lemma_words_nonempty(t);
    }
}

/// Splits `s` at white space (`str::split_whitespace`).
pub fn split_whitespace(s: &str) -> (r: Vec<String>)
    ensures
        views(r@) == words(s@),
{
    let v = chars_of(s);
    let mut out: Vec<String> = Vec::new();
    let mut cur: Vec<char> = Vec::new();
    let mut i: usize = 0;
    while i < v.len()
        invariant
            v@ == s@,
            i <= v.len(),
            cur@.len() > 0 ==> i > 0 && !is_white(v@[i - 1]),
            i > 0 && !is_white(v@[i - 1]) ==> cur@.len() > 0,
            cur@.len() > 0 ==> views(out@).push(cur@) == words(v@.take(i as int)),
            cur@.len() == 0 ==> views(out@) == words(v@.take(i as int)),
        decreases v.len() - i,
    {
        let c = v[i];
        let ghost pre = v@.take(i as int);
        let ghost post = v@.take(i + 1);
        assert(post.drop_last() =~= pre);
        assert(post.last() == c);
        if is_white_exec(c) {
            if cur.len() > 0 {
                let w = string_from_chars(&cur);
                let ghost before = out@;
                out.push(w);
                assert(views(out@) =~= views(before).push(cur@));
                cur = Vec::new();
            }
        } else {
            if cur.len() > 0 {
                assert(post[post.len() - 2] == v@[i - 1]);
                proof {
                    lemma_words_nonempty(pre);
                }
                cur.push(c);
                assert(views(out@).push(cur@) =~= words(pre).update(words(pre).len() - 1, words(pre).last().push(c)));
            } else {
                if i > 0 {
                    assert(post[post.len() - 2] == v@[i - 1]);
                }
                cur.push(c);
                assert(cur@ =~= seq![c]);
            }
        }
        i += 1;
    }
    assert(v@.take(v@.len() as int) =~= v@);
    if cur.len() > 0 {
        let w = string_from_chars(&cur);
        let ghost before = out@;
        out.push(w);
        assert(views(out@) =~= views(before).push(cur@));
    }
    out
}

/// A character with ASCII capitals made small (`char::to_ascii_lowercase`).
pub open spec fn ascii_lower(c: char) -> char {
    if 'A' <= c && c <= 'Z' {
        ((c as int) + 32) as char
    } else {
        c
    }
}

/// Two texts are equal when ASCII case is ignored.
pub open spec fn eq_ignore_ascii_case(a: Seq<char>, b: Seq<char>) -> bool {
    a.len() == b.len() && forall|i: int| 0 <= i < a.len() ==> ascii_lower(#[trigger] a[i]) == ascii_lower(b[i])
}

/// A character with ASCII capitals made small (exec).
pub fn ascii_lower_exec(c: char) -> (r: char)
    ensures
        r == ascii_lower(c),
{
    if 'A' <= c && c <= 'Z' {
        let n: u8 = (c as u8) + 32;
        n as char
    } else {
        c
    }
}

/// Whether two string slices are equal when ASCII case is ignored
/// (`str::eq_ignore_ascii_case`).
pub fn str_eq_ignore_ascii_case(a: &str, b: &str) -> (r: bool)
    ensures
        r == eq_ignore_ascii_case(a@, b@),
{
    let va = chars_of(a);
    let vb = chars_of(b);
    if va.len() != vb.len() {
        return false;
    }
    let mut i: usize = 0;
    while i < va.len()
        invariant
            va@ == a@,
            vb@ == b@,
            va.len() == vb.len(),
            i <= va.len(),
            forall|j: int| 0 <= j < i ==> ascii_lower(#[trigger] va@[j]) == ascii_lower(vb@[j]),
        decreases va.len() - i,
    {
        if ascii_lower_exec(va[i]) != ascii_lower_exec(vb[i]) {
            return false;
        }
        i += 1;
    }
    true
}

/// Joins strings with a separator between each two (`[String]::join`).
pub open spec fn joined(parts: Seq<Seq<char>>, sep: Seq<char>) -> Seq<char>
    decreases parts.len(),
{
    if parts.len() == 0 {
        Seq::<char>::empty()
    } else if parts.len() == 1 {
        parts[0]
    } else {
        joined(parts.drop_last(), sep) + sep + parts.last()
    }
}

/// Joins strings with a separator between each two (exec).
pub fn join(parts: &Vec<String>, sep: &str) -> (r: String)
    ensures
        r@ == joined(views(parts@), sep@),
{
    let mut r = String::new();
    let mut i: usize = 0;
    while i < parts.len()
        invariant
            i <= parts.len(),
            r@ == joined(views(parts@).take(i as int), sep@),
        decreases parts.len() - i,
    {
        let ghost pre = views(parts@).take(i as int);
        let ghost post = views(parts@).take(i + 1);
        assert(post.drop_last() =~= pre);
        if i > 0 {
            push_str(&mut r, sep);
        } else {
            assert(r@ == Seq::<char>::empty());
        }
        push_str(&mut r, parts[i].as_str());
        if i == 0 {
            assert(r@ =~= post[0]);
        }
        i += 1;
    }
    assert(views(parts@).take(parts@.len() as int) =~= views(parts@));
    r
}


/// `s` without the prefix `p`, when it starts with it (`str::strip_prefix`).
pub fn strip_prefix(s: &str, p: &str) -> (r: Option<String>)
    ensures
        match r {
            Some(t) => starts_with(s@, p@) && t@ == s@.subrange(p@.len() as int, s@.len() as int),
            None => !starts_with(s@, p@),
        },
{
    let vs = chars_of(s);
    let vp = chars_of(p);
    if starts_with_chars(&vs, &vp) {
        let n = vp.len();
        let m = vs.len();
        Some(string_from_range(&vs, n, m))
    } else {
        None
    }
}


/// `a` comes before `b` in the order of `str`: the first differing
/// character decides (by code point, which is the order of their UTF-8
/// bytes), and a proper prefix comes first.
pub open spec fn lex_lt(a: Seq<char>, b: Seq<char>) -> bool
    decreases a.len(),
{
    if b.len() == 0 {
        false
    } else if a.len() == 0 {
        true
    } else if a[0] != b[0] {
        a[0] < b[0]
    } else {
        lex_lt(a.subrange(1, a.len() as int), b.subrange(1, b.len() as int))
    }
}

/// The order is irreflexive, total on distinct texts, and transitive.
pub proof fn lemma_lex_order(a: Seq<char>, b: Seq<char>, c: Seq<char>)
    ensures
        !lex_lt(a, a),
        a != b ==> (lex_lt(a, b) || lex_lt(b, a)),
        !(lex_lt(a, b) && lex_lt(b, a)),
        lex_lt(a, b) && lex_lt(b, c) ==> lex_lt(a, c),
    decreases a.len(),
{
    if a.len() > 0 {
        let a1 = a.subrange(1, a.len() as int);
        if b.len() > 0 && c.len() > 0 {
            lemma_lex_order(a1, b.subrange(1, b.len() as int), c.subrange(1, c.len() as int));
        } else if b.len() > 0 {
            lemma_lex_order(a1, b.subrange(1, b.len() as int), c);
        } else {
            lemma_lex_order(a1, b, c);
        }
        if a != b && b.len() > 0 && a[0] == b[0] {
            assert(a1 != b.subrange(1, b.len() as int)) by {
                if a1 == b.subrange(1, b.len() as int) {
                    assert(a =~= seq![a[0]] + a1);
                    assert(b =~= seq![b[0]] + b.subrange(1, b.len() as int));
                }
            }
        }
    } else {
        if b.len() == 0 {
            assert(a =~= b);
        }
    }
}

/// Whether `a` comes before `b` (exec).
pub fn str_lt(a: &str, b: &str) -> (r: bool)
    ensures
        r == lex_lt(a@, b@),
{
    let va = chars_of(a);
    let vb = chars_of(b);
    let mut i: usize = 0;
    assert(va@.subrange(0, va@.len() as int) =~= va@);
    assert(vb@.subrange(0, vb@.len() as int) =~= vb@);
    while i < va.len() && i < vb.len() && va[i] == vb[i]
        invariant
            va@ == a@,
            vb@ == b@,
            i <= va@.len(),
            i <= vb@.len(),
            va@.subrange(0, i as int) == vb@.subrange(0, i as int),
            lex_lt(a@, b@) == lex_lt(va@.subrange(i as int, va@.len() as int), vb@.subrange(i as int, vb@.len() as int)),
        decreases va@.len() - i,
    {
        let ghost x = va@.subrange(i as int, va@.len() as int);
        let ghost y = vb@.subrange(i as int, vb@.len() as int);
        assert(x.subrange(1, x.len() as int) =~= va@.subrange(i + 1, va@.len() as int));
        assert(y.subrange(1, y.len() as int) =~= vb@.subrange(i + 1, vb@.len() as int));
        assert(va@.subrange(0, i + 1) =~= va@.subrange(0, i as int).push(va@[i as int]));
        assert(vb@.subrange(0, i + 1) =~= vb@.subrange(0, i as int).push(vb@[i as int]));
        i += 1;
    }
    if i == vb.len() {
        false
    } else if i == va.len() {
        true
    } else {
        va[i] < vb[i]
    }
}

/// The texts of `s` in strictly increasing order, each once.
pub open spec fn strictly_sorted(s: Seq<Seq<char>>) -> bool {
    forall|i: int, j: int| 0 <= i < j < s.len() ==> lex_lt(#[trigger] s[i], #[trigger] s[j])
}

/// Sorts texts and drops repeats (as a sorted set gives them back).
pub fn sort_unique(items: Vec<String>) -> (r: Vec<String>)
    ensures
        strictly_sorted(views(r@)),
        forall|x: Seq<char>| views(r@).contains(x) <==> views(items@).contains(x),
{
    let mut out: Vec<String> = Vec::new();
    let ghost orig = views(items@);
    let mut i: usize = 0;
    while i < items.len()
        invariant
            i <= items@.len(),
            orig == views(items@),
            strictly_sorted(views(out@)),
            forall|x: Seq<char>| views(out@).contains(x) <==> orig.take(i as int).contains(x),
        decreases items@.len() - i,
    {
        let item = &items[i];
        let mut j: usize = 0;
        while j < out.len() && str_lt(out[j].as_str(), item.as_str())
            invariant
                j <= out@.len(),
                forall|k: int| 0 <= k < j ==> lex_lt(#[trigger] views(out@)[k], item@),
            decreases out@.len() - j,
        {
            j += 1;
        }
        let ghost before = views(out@);
        proof {
            assert(orig.take(i + 1) =~= orig.take(i as int).push(item@));
        }
        if j < out.len() && str_eq(out[j].as_str(), item.as_str()) {
            proof {
                assert forall|x: Seq<char>| views(out@).contains(x) <==> orig.take(i + 1).contains(x) by {
                    if x == item@ {
                        assert(views(out@)[j as int] == x);
                    }
                    if orig.take(i + 1).contains(x) && x != item@ {
                        let k = choose|k: int| 0 <= k < orig.take(i + 1).len() && #[trigger] orig.take(i + 1)[k] == x;
                        assert(orig.take(i as int)[k] == x);
                    }
                    if views(out@).contains(x) {
                        assert(orig.take(i as int).contains(x));
                        let k = choose|k: int| 0 <= k < orig.take(i as int).len() && #[trigger] orig.take(i as int)[k] == x;
                        assert(orig.take(i + 1)[k] == x);
                    }
                }
            }
        } else {
            proof {
                if j < out.len() {
                    lemma_lex_order(before[j as int], item@, item@);
                    assert(!lex_lt(before[j as int], item@));
                    assert(before[j as int] != item@);
                    lemma_lex_order(item@, before[j as int], item@);
                    assert(lex_lt(item@, before[j as int]));
                }
            }
            out.insert(j, item.clone());
            proof {
                let now = views(out@);
                assert(now =~= before.insert(j as int, item@));
                assert forall|a: int, b: int| 0 <= a < b < now.len() implies lex_lt(#[trigger] now[a], #[trigger] now[b]) by {
                    if a < j && b == j {
                    } else if a < j && b > j {
                        assert(now[b] == before[b - 1]);
                        if b - 1 > j {
                            assert(lex_lt(before[j as int], before[b - 1]));
                            lemma_lex_order(item@, before[j as int], before[b - 1]);
                        }
                    } else if a == j {
                        assert(now[b] == before[b - 1]);
                        if b - 1 > j {
                            assert(lex_lt(before[j as int], before[b - 1]));
                            lemma_lex_order(item@, before[j as int], before[b - 1]);
                        }
                    } else if a > j {
                        assert(now[a] == before[a - 1] && now[b] == before[b - 1]);
                    } else {
                        assert(now[a] == before[a] && now[b] == before[b]);
                    }
                }
                assert forall|x: Seq<char>| now.contains(x) <==> orig.take(i + 1).contains(x) by {
                    if now.contains(x) {
                        let k = choose|k: int| 0 <= k < now.len() && #[trigger] now[k] == x;
                        if k != j {
                            let k2 = if k < j { k } else { k - 1 };
                            assert(before[k2] == x);
                            assert(before.contains(x));
                            let m = choose|m: int| 0 <= m < orig.take(i as int).len() && #[trigger] orig.take(i as int)[m] == x;
                            assert(orig.take(i + 1)[m] == x);
                        } else {
                            assert(orig.take(i + 1)[i as int] == x);
                        }
                    }
                    if orig.take(i + 1).contains(x) {
                        let k = choose|k: int| 0 <= k < orig.take(i + 1).len() && #[trigger] orig.take(i + 1)[k] == x;
                        if k < i {
                            assert(orig.take(i as int)[k] == x);
                            assert(before.contains(x));
                            let m = choose|m: int| 0 <= m < before.len() && #[trigger] before[m] == x;
                            if m < j {
                                assert(now[m] == x);
                            } else {
                                assert(now[m + 1] == x);
                            }
                        } else {
                            assert(now[j as int] == x);
                        }
                    }
                }
            }
        }
        i += 1;
    }
    assert(views(items@).take(items@.len() as int) =~= views(items@));
    out
}

} // verus!
