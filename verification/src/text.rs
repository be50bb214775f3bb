//! Text as sequences of characters: searching, splitting, and decimal numbers.

use vstd::prelude::*;
use vstd::string::*;

verus! {

/// `pat` occurs in `text` at index `at`.
pub open spec fn occurs_at(text: Seq<char>, pat: Seq<char>, at: int) -> bool {
    &&& 0 <= at
    &&& at + pat.len() <= text.len()
    &&& text.subrange(at, at + pat.len()) == pat
}

/// `pat` occurs somewhere in `text`.
pub open spec fn contains(text: Seq<char>, pat: Seq<char>) -> bool {
    exists|at: int| occurs_at(text, pat, at)
}

/// `text` begins with `pat`.
pub open spec fn starts_with(text: Seq<char>, pat: Seq<char>) -> bool {
    occurs_at(text, pat, 0)
}

/// `text` ends with `pat`.
pub open spec fn ends_with(text: Seq<char>, pat: Seq<char>) -> bool {
    occurs_at(text, pat, text.len() - pat.len())
}

/// The least index at or after `from` at which `pat` occurs in `text`.
pub open spec fn first_occurrence(text: Seq<char>, pat: Seq<char>, from: int) -> Option<int>
    decreases text.len() + 1 - from,
{
    if from < 0 || from + pat.len() > text.len() {
        None
    } else if occurs_at(text, pat, from) {
        Some(from)
    } else {
        first_occurrence(text, pat, from + 1)
    }
}

/// Piece number `k` (from 0) of what remains of `text` from index `from` when
/// it is cut at each occurrence of `pat`, scanning from the left; the empty
/// text where there are fewer pieces.
pub open spec fn piece_from(text: Seq<char>, pat: Seq<char>, from: int, k: nat) -> Seq<char>
    decreases k,
{
    match first_occurrence(text, pat, from) {
        None => if k == 0 {
            text.subrange(from, text.len() as int)
        } else {
            Seq::empty()
        },
        Some(at) => if k == 0 {
            text.subrange(from, at)
        } else {
            piece_from(text, pat, at + pat.len(), (k - 1) as nat)
        },
    }
}

/// Piece number `k` of `text` split on `pat`. For a non-empty `pat` this is
/// item `k` of `str::split`, or the empty text where `split` yields fewer.
pub open spec fn piece(text: Seq<char>, pat: Seq<char>, k: nat) -> Seq<char> {
    piece_from(text, pat, 0, k)
}

/// `first_occurrence` finds an occurrence, and none lies before it.
pub proof fn lemma_first_occurrence(text: Seq<char>, pat: Seq<char>, from: int)
    requires
        0 <= from,
    ensures
        match first_occurrence(text, pat, from) {
            Some(at) => {
                &&& from <= at
                &&& occurs_at(text, pat, at)
                &&& forall|j: int| from <= j < at ==> !occurs_at(text, pat, j)
            },
            None => forall|j: int| from <= j ==> !occurs_at(text, pat, j),
        },
    decreases text.len() + 1 - from,
{
    if from + pat.len() <= text.len() && !occurs_at(text, pat, from) {
        lemma_first_occurrence(text, pat, from + 1);
    }
}

/// A text contains a pattern exactly when the pattern has a first occurrence.
pub proof fn lemma_contains_first_occurrence(text: Seq<char>, pat: Seq<char>)
    ensures
        contains(text, pat) <==> first_occurrence(text, pat, 0) is Some,
{
    lemma_first_occurrence(text, pat, 0);
}

/// The characters of `s`, in order.
pub fn chars_of(s: &str) -> (v: Vec<char>)
    ensures
        v@ == s@,
{
    let mut v: Vec<char> = Vec::new();
    for c in it: s.chars()
        invariant
            it.seq() == s@,
            v@ == it.seq().take(it.index() as int),
    {
        v.push(c);
    }
    v
}

/// Tests whether `pat` occurs in `text` at `at`.
pub fn occurs_at_index(text: &Vec<char>, pat: &Vec<char>, at: usize) -> (b: bool)
    ensures
        b == occurs_at(text@, pat@, at as int),
{
    if pat.len() > text.len() || at > text.len() - pat.len() {
        return false;
    }
    let mut i: usize = 0;
    while i < pat.len()
        invariant
            i <= pat.len(),
            at + pat.len() <= text.len(),
            forall|j: int| 0 <= j < i ==> text@[at + j] == pat@[j],
        decreases pat.len() - i,
    {
        if text[at + i] != pat[i] {
            return false;
        }
        i += 1;
    }
    assert(text@.subrange(at as int, at + pat.len()) =~= pat@);
    true
}

/// The first index at or after `from` at which `pat` occurs in `text`.
pub fn find(text: &Vec<char>, pat: &Vec<char>, from: usize) -> (r: Option<usize>)
    ensures
        r is Some <==> first_occurrence(text@, pat@, from as int) is Some,
        r matches Some(at) ==> first_occurrence(text@, pat@, from as int) == Some(at as int),
{
    if pat.len() > text.len() || from > text.len() - pat.len() {
        return None;
    }
    let last: usize = text.len() - pat.len();
    let mut i: usize = from;
    while i <= last
        invariant
            from <= i <= last + 1,
            last == text.len() - pat.len(),
            first_occurrence(text@, pat@, from as int) == first_occurrence(text@, pat@, i as int),
        decreases last + 1 - i,
    {
        if occurs_at_index(text, pat, i) {
            return Some(i);
        }
        if i == last {
            assert(first_occurrence(text@, pat@, i + 1) is None);
            return None;
        }
        i += 1;
    }
    None
}

/// Does `text` contain `pat`? As `str::contains` with a string pattern.
pub fn str_contains(text: &str, pat: &str) -> (b: bool)
    ensures
        b == contains(text@, pat@),
{
    let t = chars_of(text);
    let p = chars_of(pat);
    proof {
        lemma_contains_first_occurrence(text@, pat@);
    }
    find(&t, &p, 0).is_some()
}

/// Does `text` begin with `pat`? As `str::starts_with` with a string pattern.
pub fn str_starts_with(text: &str, pat: &str) -> (b: bool)
    ensures
        b == starts_with(text@, pat@),
{
    let t = chars_of(text);
    let p = chars_of(pat);
    occurs_at_index(&t, &p, 0)
}

/// Does `text` end with `pat`? As `str::ends_with` with a string pattern.
pub fn str_ends_with(text: &str, pat: &str) -> (b: bool)
    ensures
        b == ends_with(text@, pat@),
{
    let t = chars_of(text);
    let p = chars_of(pat);
    if p.len() > t.len() {
        return false;
    }
    occurs_at_index(&t, &p, t.len() - p.len())
}

/// The first `count` pieces of `text` split on `pat`.
pub fn pieces(text: &str, pat: &str, count: usize) -> (v: Vec<String>)
    ensures
        v.len() == count,
        forall|k: int| 0 <= k < count ==> (#[trigger] v[k])@ == piece(text@, pat@, k as nat),
{
    let t = chars_of(text);
    let p = chars_of(pat);
    let mut v: Vec<String> = Vec::new();
    let mut from: usize = 0;
    let mut open: bool = true;
    let mut k: usize = 0;
    while k < count
        invariant
            k <= count,
            v.len() == k,
            t@ == text@,
            p@ == pat@,
            from <= t.len(),
            forall|j: int| 0 <= j < k ==> (#[trigger] v[j])@ == piece(text@, pat@, j as nat),
            forall|j: nat|
                k <= j ==> #[trigger] piece(text@, pat@, j) == if open {
                    piece_from(text@, pat@, from as int, (j - k) as nat)
                } else {
                    Seq::<char>::empty()
                },
        decreases count - k,
    {
        let item: String;
        if !open {
            item = String::new();
        } else {
            match find(&t, &p, from) {
                Some(at) => {
                    proof {
                        lemma_first_occurrence(text@, pat@, from as int);
                    }
                    item = String::from_str(text.substring_char(from, at));
                    from = at + p.len();
                },
                None => {
                    item = String::from_str(text.substring_char(from, t.len()));
                    open = false;
                },
            }
        }
        v.push(item);
        k += 1;
    }
    v
}

/// The lower-case form of a text, as `str::to_lowercase` gives it.
pub uninterp spec fn lowercase_of(text: Seq<char>) -> Seq<char>;

/// `str::to_lowercase`: the result is the lower-case form of the text, which
/// depends on the text alone.
#[verifier::external_body]
pub(crate) fn lowercase(text: &str) -> (r: String)
    ensures
        r@ == lowercase_of(text@),
{
    text.to_lowercase()
}

/// The character of a decimal digit.
pub open spec fn digit_char(d: int) -> char {
    if d == 0 {
        '0'
    } else if d == 1 {
        '1'
    } else if d == 2 {
        '2'
    } else if d == 3 {
        '3'
    } else if d == 4 {
        '4'
    } else if d == 5 {
        '5'
    } else if d == 6 {
        '6'
    } else if d == 7 {
        '7'
    } else if d == 8 {
        '8'
    } else {
        '9'
    }
}

/// A natural number in decimal, without leading zeros.
pub open spec fn decimal(n: nat) -> Seq<char>
    decreases n,
{
    if n < 10 {
        seq![digit_char(n as int)]
    } else {
        decimal(n / 10).push(digit_char((n % 10) as int))
    }
}

/// An integer in decimal, with a minus sign where it is negative.
pub open spec fn signed_decimal(i: int) -> Seq<char> {
    if i < 0 {
        seq!['-'] + decimal((-i) as nat)
    } else {
        decimal(i as nat)
    }
}

fn digit_text(d: u64) -> (s: &'static str)
    requires
        d < 10,
    ensures
        s@ == seq![digit_char(d as int)],
{
    proof {
        reveal_strlit("0");
        reveal_strlit("1");
        reveal_strlit("2");
        reveal_strlit("3");
        reveal_strlit("4");
        reveal_strlit("5");
        reveal_strlit("6");
        reveal_strlit("7");
        reveal_strlit("8");
        reveal_strlit("9");
    }
    let s = if d == 0 {
        "0"
    } else if d == 1 {
        "1"
    } else if d == 2 {
        "2"
    } else if d == 3 {
        "3"
    } else if d == 4 {
        "4"
    } else if d == 5 {
        "5"
    } else if d == 6 {
        "6"
    } else if d == 7 {
        "7"
    } else if d == 8 {
        "8"
    } else {
        "9"
    };
    s
}

/// Appends `n` in decimal to `out`.
pub fn push_decimal(out: &mut String, n: u64)
    ensures
        final(out)@ == old(out)@ + decimal(n as nat),
    decreases n,
{
    if n >= 10 {
        push_decimal(out, n / 10);
    }
    out.append(digit_text(n % 10));
}

/// Appends `i` in decimal to `out`, as `Display` writes an integer.
pub fn push_signed_decimal(out: &mut String, i: i64)
    ensures
        final(out)@ == old(out)@ + signed_decimal(i as int),
{
    if i < 0 {
        proof {
            reveal_strlit("-");
        }
        out.append("-");
        let magnitude: u64 = if i == i64::MIN {
            9223372036854775808u64
        } else {
            (-i) as u64
        };
        push_decimal(out, magnitude);
    } else {
        push_decimal(out, i as u64);
    }
}

/// A decimal digit.
pub open spec fn is_digit(c: char) -> bool {
    '0' <= c <= '9'
}

/// The value of a decimal digit.
pub open spec fn digit_value(c: char) -> int {
    c as u32 - '0' as u32
}

/// The number that a text of decimal digits denotes; 0 for the empty text.
pub open spec fn digits_value(s: Seq<char>) -> nat
    decreases s.len(),
{
    if s.len() == 0 {
        0
    } else {
        (digits_value(s.drop_last()) * 10 + digit_value(s.last())) as nat
    }
}

/// Every character of `s` is a decimal digit.
pub open spec fn all_digits(s: Seq<char>) -> bool {
    forall|i: int| 0 <= i < s.len() ==> is_digit(#[trigger] s[i])
}

/// The natural number that a text denotes: one or more decimal digits and
/// nothing else. `None` for any other text.
pub open spec fn natural_of(s: Seq<char>) -> Option<nat> {
    if s.len() > 0 && all_digits(s) {
        Some(digits_value(s))
    } else {
        None
    }
}

/// The integer that a text denotes: an optional `+` or `-`, then one or more
/// decimal digits and nothing else. `None` for any other text.
pub open spec fn integer_of(s: Seq<char>) -> Option<int> {
    if s.len() > 0 && s[0] == '-' {
        match natural_of(s.subrange(1, s.len() as int)) {
            Some(n) => Some(-(n as int)),
            None => None,
        }
    } else if s.len() > 0 && s[0] == '+' {
        match natural_of(s.subrange(1, s.len() as int)) {
            Some(n) => Some(n as int),
            None => None,
        }
    } else {
        match natural_of(s) {
            Some(n) => Some(n as int),
            None => None,
        }
    }
}

/// What `str::parse::<i32>` accepts, and the number it gives.
pub open spec fn i32_of(s: Seq<char>) -> Option<i32> {
    match integer_of(s) {
        Some(i) => if i32::MIN <= i <= i32::MAX {
            Some(i as i32)
        } else {
            None
        },
        None => None,
    }
}

/// A natural number written in decimal is one or more digits that read back
/// as the number.
pub proof fn lemma_decimal_reads_back(n: nat)
    ensures
        decimal(n).len() > 0,
        all_digits(decimal(n)),
        digits_value(decimal(n)) == n,
    decreases n,
{
    if n < 10 {
        assert(digits_value(decimal(n).drop_last()) == 0);
    } else {
        lemma_decimal_reads_back(n / 10);
        assert(decimal(n).drop_last() =~= decimal(n / 10));
    }
}

/// An integer written in decimal reads back as the integer, and is made of
/// digits and at most a minus sign.
pub proof fn lemma_signed_decimal_reads_back(i: int)
    ensures
        integer_of(signed_decimal(i)) == Some(i),
        forall|k: int|
            0 <= k < signed_decimal(i).len() ==> is_digit(#[trigger] signed_decimal(i)[k])
                || signed_decimal(i)[k] == '-',
{
    let s = signed_decimal(i);
    if i < 0 {
        lemma_decimal_reads_back((-i) as nat);
        assert(s.subrange(1, s.len() as int) =~= decimal((-i) as nat));
    } else {
        lemma_decimal_reads_back(i as nat);
    }
}

/// Where a character stands at `at` and nowhere from `from` up to there, its
/// first occurrence from `from` is at `at`.
pub proof fn lemma_first_occurrence_of_char(text: Seq<char>, c: char, from: int, at: int)
    requires
        0 <= from <= at < text.len(),
        text[at] == c,
        forall|j: int| from <= j < at ==> text[j] != c,
    ensures
        first_occurrence(text, seq![c], from) == Some(at),
    decreases at - from,
{
    if from == at {
        assert(text.subrange(at, at + 1) =~= seq![c]);
    } else {
        assert(text.subrange(from, from + 1)[0] == text[from]);
        lemma_first_occurrence_of_char(text, c, from + 1, at);
    }
}

/// A character that does not stand anywhere from `from` on has no occurrence
/// from `from`.
pub proof fn lemma_no_occurrence_of_char(text: Seq<char>, c: char, from: int)
    requires
        0 <= from,
        forall|j: int| from <= j < text.len() ==> text[j] != c,
    ensures
        first_occurrence(text, seq![c], from) is None,
    decreases text.len() + 1 - from,
{
    if from + 1 <= text.len() {
        assert(text.subrange(from, from + 1)[0] == text[from]);
        lemma_no_occurrence_of_char(text, c, from + 1);
    }
}

/// Reads a 32-bit integer as `str::parse::<i32>` does.
pub fn parse_i32(text: &str) -> (r: Option<i32>)
    ensures
        r == i32_of(text@),
{
    let t = chars_of(text);
    let n = t.len();
    let negative = n > 0 && t[0] == '-';
    let start: usize = if n > 0 && (t[0] == '-' || t[0] == '+') {
        1
    } else {
        0
    };
    let ghost digits = t@.subrange(start as int, n as int);
    if start == n {
        return None;
    }
    let mut acc: i64 = 0;
    let mut i: usize = start;
    let mut fits: bool = true;
    while i < n
        invariant
            start <= i <= n,
            n == t.len(),
            t@ == text@,
            start == if n > 0 && (t@[0] == '-' || t@[0] == '+') {
                1int
            } else {
                0int
            },
            digits == t@.subrange(start as int, n as int),
            start == 0 ==> digits == text@,
            forall|j: int| 0 <= j < i - start ==> is_digit(#[trigger] digits[j]),
            fits ==> acc == digits_value(digits.take(i - start)),
            !fits ==> digits_value(digits.take(i - start)) > 2147483648,
            0 <= acc <= 2147483648,
        decreases n - i,
    {
        let c = t[i];
        if c < '0' || c > '9' {
            assert(!is_digit(digits[i - start]));
            return None;
        }
        let d: i64 = (c as u32 - '0' as u32) as i64;
        assert(digits.take(i - start + 1).drop_last() =~= digits.take(i - start));
        if fits && acc * 10 + d <= 2147483648 {
            acc = acc * 10 + d;
        } else {
            fits = false;
        }
        i += 1;
    }
    assert(digits.take(n - start) =~= digits);
    if !fits {
        None
    } else if negative {
        Some((-acc) as i32)
    } else if acc == 2147483648 {
        None
    } else {
        Some(acc as i32)
    }
}

} // verus!
