//! Digit-level string utilities: rendering numbers to decimal text and
//! reading decimal text back, with exact character-sequence contracts.

use vstd::prelude::*;
use vstd::string::StringExecFns;

verus! {

/// The decimal digit character for a value below ten.
pub open spec fn digit_char(d: int) -> char {
    if d == 0 {
        '0'
    } else if d == 1 {
        '1'
    } else if d == 2 {
        '2'
    } else if d == 3 {
        '3'
    } else if d == 4 {
        '4'
    } else if d == 5 {
        '5'
    } else if d == 6 {
        '6'
    } else if d == 7 {
        '7'
    } else if d == 8 {
        '8'
    } else {
        '9'
    }
}

/// Whether a character is a decimal digit.
pub open spec fn is_digit_char(c: char) -> bool {
    c == '0' || c == '1' || c == '2' || c == '3' || c == '4' || c == '5' || c == '6' || c == '7'
        || c == '8' || c == '9'
}

/// The numeric value of a decimal digit character.
pub open spec fn digit_val(c: char) -> int {
    if c == '0' {
        0
    } else if c == '1' {
        1
    } else if c == '2' {
        2
    } else if c == '3' {
        3
    } else if c == '4' {
        4
    } else if c == '5' {
        5
    } else if c == '6' {
        6
    } else if c == '7' {
        7
    } else if c == '8' {
        8
    } else {
        9
    }
}

/// The decimal rendering of a non-negative integer, most significant digit first.
pub open spec fn spec_digits(n: int) -> Seq<char>
    decreases n,
{
    if n < 10 {
        seq![digit_char(n)]
    } else {
        spec_digits(n / 10).push(digit_char(n % 10))
    }
}

/// The value of a sequence of decimal digit characters.
pub open spec fn digits_val(s: Seq<char>) -> int
    decreases s.len(),
{
    if s.len() == 0 {
        0
    } else {
        digits_val(s.drop_last()) * 10 + digit_val(s.last())
    }
}

/// Every character of the sequence is a decimal digit.
pub open spec fn all_digits(s: Seq<char>) -> bool {
    forall|i: int| 0 <= i < s.len() ==> is_digit_char(#[trigger] s[i])
}

/// Reading a digit character back gives the digit.
pub proof fn lemma_digit_roundtrip(d: int)
    requires
        0 <= d < 10,
    ensures
        digit_val(digit_char(d)) == d,
        is_digit_char(digit_char(d)),
{
}

/// A rendered number is made of digits, is non-empty, and reads back to its value.
pub proof fn lemma_spec_digits_val(n: int)
    requires
        n >= 0,
    ensures
        spec_digits(n).len() >= 1,
        all_digits(spec_digits(n)),
        digits_val(spec_digits(n)) == n,
    decreases n,
{
    if n < 10 {
        lemma_digit_roundtrip(n);
        assert(spec_digits(n) =~= seq![digit_char(n)]);
        assert(spec_digits(n).drop_last() =~= Seq::<char>::empty());
        assert(digits_val(Seq::<char>::empty()) == 0);
        assert(spec_digits(n).last() == digit_char(n));
        assert(digits_val(spec_digits(n)) == digits_val(spec_digits(n).drop_last()) * 10
            + digit_val(spec_digits(n).last()));
    } else {
        lemma_spec_digits_val(n / 10);
        lemma_digit_roundtrip(n % 10);
        assert(spec_digits(n).drop_last() =~= spec_digits(n / 10));
        assert(spec_digits(n).last() == digit_char(n % 10));
        assert(digits_val(spec_digits(n)) == digits_val(spec_digits(n / 10)) * 10 + digit_val(
            digit_char(n % 10),
        ));
    }
}

/// A single-character string for a decimal digit.
pub fn digit_str(d: u64) -> (r: &'static str)
    requires
        d < 10,
    ensures
        r@ =~= seq![digit_char(d as int)],
{
    proof {
        reveal_strlit("0");
        reveal_strlit("1");
        reveal_strlit("2");
        reveal_strlit("3");
        reveal_strlit("4");
        reveal_strlit("5");
        reveal_strlit("6");
        reveal_strlit("7");
        reveal_strlit("8");
        reveal_strlit("9");
    }
    if d == 0 {
        "0"
    } else if d == 1 {
        "1"
    } else if d == 2 {
        "2"
    } else if d == 3 {
        "3"
    } else if d == 4 {
        "4"
    } else if d == 5 {
        "5"
    } else if d == 6 {
        "6"
    } else if d == 7 {
        "7"
    } else if d == 8 {
        "8"
    } else {
        "9"
    }
}

/// Render a number as decimal text.
pub fn render_u64(n: u64) -> (s: String)
    ensures
        s@ == spec_digits(n as int),
    decreases n,
{
    if n < 10 {
        String::from_str(digit_str(n))
    } else {
        let mut s: String = render_u64(n / 10);
        s.append(digit_str(n % 10));
        proof {
            assert(s@ =~= spec_digits(n as int));
        }
        s
    }
}

/// The numeric value of a digit character.
pub fn digit_of(c: char) -> (d: u64)
    requires
        is_digit_char(c),
    ensures
        d == digit_val(c),
        d < 10,
{
    if c == '0' {
        0
    } else if c == '1' {
        1
    } else if c == '2' {
        2
    } else if c == '3' {
        3
    } else if c == '4' {
        4
    } else if c == '5' {
        5
    } else if c == '6' {
        6
    } else if c == '7' {
        7
    } else if c == '8' {
        8
    } else {
        9
    }
}

/// Relies on `String::push`: appends exactly the one character.
#[verifier::external_body]
pub(crate) fn push_char(s: &mut String, c: char)
    ensures
        final(s)@ == old(s)@.push(c),
{
    s.push(c);
}

/// The characters of a text slice, as a vector.
pub fn str_chars(s: &str) -> (v: Vec<char>)
    ensures
        v@ == s@,
{
    let n: usize = s.unicode_len();
    let mut v: Vec<char> = Vec::new();
    let mut i: usize = 0;
    while i < n
        invariant
            i <= n,
            n == s@.len(),
            v@ =~= s@.subrange(0, i as int),
        decreases n - i,
    {
        v.push(s.get_char(i));
        i = i + 1;
    }
    proof {
        assert(v@ =~= s@);
    }
    v
}

/// Build a text value from a range of characters.
pub fn chars_to_string(v: &Vec<char>, lo: usize, hi: usize) -> (s: String)
    requires
        lo <= hi <= v@.len(),
    ensures
        s@ == v@.subrange(lo as int, hi as int),
{
    let mut s: String = String::new();
    let mut i: usize = lo;
    while i < hi
        invariant
            lo <= i <= hi <= v@.len(),
            s@ =~= v@.subrange(lo as int, i as int),
        decreases hi - i,
    {
        push_char(&mut s, v[i]);
        proof {
            assert(s@ =~= v@.subrange(lo as int, i + 1 as int));
        }
        i = i + 1;
    }
    s
}

/// The first position of a character at or after a position, or the length.
pub open spec fn find_from(s: Seq<char>, c: char, i: int) -> int
    decreases s.len() - i,
{
    if i < 0 {
        0
    } else if i >= s.len() {
        s.len() as int
    } else if s[i] == c {
        i
    } else {
        find_from(s, c, i + 1)
    }
}

/// Where the first occurrence lies: between the start and the length, on the
/// character when inside, with no earlier occurrence.
pub proof fn lemma_find_from(s: Seq<char>, c: char, i: int)
    requires
        0 <= i <= s.len(),
    ensures
        i <= find_from(s, c, i) <= s.len(),
        find_from(s, c, i) < s.len() ==> s[find_from(s, c, i)] == c,
        forall|j: int| i <= j < find_from(s, c, i) ==> s[j] != c,
    decreases s.len() - i,
{
    if i < s.len() && s[i] != c {
        lemma_find_from(s, c, i + 1);
    }
}

/// Find a character at or after a position.
pub fn find_char(v: &Vec<char>, c: char, start: usize) -> (r: usize)
    requires
        start <= v@.len(),
    ensures
        r == find_from(v@, c, start as int),
        start <= r <= v@.len(),
{
    proof {
        lemma_find_from(v@, c, start as int);
    }
    let mut i: usize = start;
    while i < v.len()
        invariant
            start <= i <= v@.len(),
            find_from(v@, c, start as int) == find_from(v@, c, i as int),
        decreases v@.len() - i,
    {
        if v[i] == c {
            return i;
        }
        i = i + 1;
    }
    i
}

/// The end of the run of a given character starting at a position.
pub open spec fn run_end(s: Seq<char>, c: char, i: int) -> int
    decreases s.len() - i,
{
    if 0 <= i < s.len() && s[i] == c {
        run_end(s, c, i + 1)
    } else {
        i
    }
}

/// The run end lies between the start and the length; the run is all the
/// character; the run does not continue past its end.
pub proof fn lemma_run_end(s: Seq<char>, c: char, i: int)
    requires
        0 <= i <= s.len(),
    ensures
        i <= run_end(s, c, i) <= s.len(),
        forall|j: int| i <= j < run_end(s, c, i) ==> s[j] == c,
        run_end(s, c, i) < s.len() ==> s[run_end(s, c, i)] != c,
    decreases s.len() - i,
{
    if i < s.len() && s[i] == c {
        lemma_run_end(s, c, i + 1);
    }
}

/// Skip a run of one character.
pub fn skip_run(v: &Vec<char>, c: char, start: usize) -> (r: usize)
    requires
        start <= v@.len(),
    ensures
        r == run_end(v@, c, start as int),
        start <= r <= v@.len(),
{
    proof {
        lemma_run_end(v@, c, start as int);
    }
    let mut i: usize = start;
    while i < v.len() && v[i] == c
        invariant
            start <= i <= v@.len(),
            run_end(v@, c, start as int) == run_end(v@, c, i as int),
        decreases v@.len() - i,
    {
        i = i + 1;
    }
    i
}

/// The end of the run of decimal digits starting at a position.
pub open spec fn digits_end(s: Seq<char>, i: int) -> int
    decreases s.len() - i,
{
    if 0 <= i < s.len() && is_digit_char(s[i]) {
        digits_end(s, i + 1)
    } else {
        i
    }
}

/// The digit-run end lies between the start and the length; the run is all
/// digits; the run does not continue past its end.
pub proof fn lemma_digits_end(s: Seq<char>, i: int)
    requires
        0 <= i <= s.len(),
    ensures
        i <= digits_end(s, i) <= s.len(),
        forall|j: int| i <= j < digits_end(s, i) ==> is_digit_char(#[trigger] s[j]),
        digits_end(s, i) < s.len() ==> !is_digit_char(s[digits_end(s, i)]),
    decreases s.len() - i,
{
    if i < s.len() && is_digit_char(s[i]) {
        lemma_digits_end(s, i + 1);
    }
}

/// A run of digits followed by a non-digit (or nothing) is exactly the run.
pub proof fn lemma_digits_end_of_run(s: Seq<char>, i: int, j: int)
    requires
        0 <= i <= j <= s.len(),
        forall|k: int| i <= k < j ==> is_digit_char(#[trigger] s[k]),
        j < s.len() ==> !is_digit_char(s[j]),
    ensures
        digits_end(s, i) == j,
    decreases j - i,
{
    if i < j {
        lemma_digits_end_of_run(s, i + 1, j);
    }
}

/// Skip a run of decimal digits.
pub fn skip_digits(v: &Vec<char>, start: usize) -> (r: usize)
    requires
        start <= v@.len(),
    ensures
        r == digits_end(v@, start as int),
        start <= r <= v@.len(),
{
    proof {
        lemma_digits_end(v@, start as int);
    }
    let mut i: usize = start;
    while i < v.len() && is_digit(v[i])
        invariant
            start <= i <= v@.len(),
            digits_end(v@, start as int) == digits_end(v@, i as int),
        decreases v@.len() - i,
    {
        i = i + 1;
    }
    i
}

/// The value of a digit run, capped just above the marker-range limit: the
/// exact value when it is at most 255, and 256 otherwise.
pub open spec fn capped_val(s: Seq<char>) -> int {
    if digits_val(s) <= 255 {
        digits_val(s)
    } else {
        256
    }
}

/// A digit value is never negative.
pub proof fn lemma_digits_val_nonneg(s: Seq<char>)
    ensures
        digits_val(s) >= 0,
    decreases s.len(),
{
    if s.len() > 0 {
        lemma_digits_val_nonneg(s.drop_last());
    }
}

/// Read the value of the digit run `[lo, hi)`, capped at 256.
pub fn read_capped(v: &Vec<char>, lo: usize, hi: usize) -> (r: u64)
    requires
        lo <= hi <= v@.len(),
        forall|j: int| lo <= j < hi ==> is_digit_char(#[trigger] v@[j]),
    ensures
        r == capped_val(v@.subrange(lo as int, hi as int)),
        r <= 256,
{
    let mut acc: u64 = 0;
    let mut i: usize = lo;
    while i < hi
        invariant
            lo <= i <= hi <= v@.len(),
            forall|j: int| lo <= j < hi ==> is_digit_char(#[trigger] v@[j]),
            acc == capped_val(v@.subrange(lo as int, i as int)),
            acc <= 256,
        decreases hi - i,
    {
        let ghost prefix = v@.subrange(lo as int, i as int);
        let ghost extended = v@.subrange(lo as int, i + 1 as int);
        proof {
            assert(extended.drop_last() =~= prefix);
            assert(extended.last() == v@[i as int]);
            lemma_digits_val_nonneg(prefix);
        }
        let d: u64 = digit_of(v[i]);
        if acc > 255 {
            acc = 256;
        } else {
            let next: u64 = acc * 10 + d;
            if next > 255 {
                acc = 256;
            } else {
                acc = next;
            }
        }
        i = i + 1;
    }
    proof {
        assert(v@.subrange(lo as int, hi as int) =~= v@.subrange(lo as int, i as int));
    }
    acc
}

/// A copy of a range of characters.
pub fn sub_chars(v: &Vec<char>, lo: usize, hi: usize) -> (r: Vec<char>)
    requires
        lo <= hi <= v@.len(),
    ensures
        r@ == v@.subrange(lo as int, hi as int),
{
    let mut r: Vec<char> = Vec::new();
    let mut i: usize = lo;
    while i < hi
        invariant
            lo <= i <= hi <= v@.len(),
            r@ =~= v@.subrange(lo as int, i as int),
        decreases hi - i,
    {
        r.push(v[i]);
        proof {
            assert(r@ =~= v@.subrange(lo as int, i + 1 as int));
        }
        i = i + 1;
    }
    r
}

/// The pieces of a sequence split on a separator, from a position on; empty
/// pieces are kept.
pub open spec fn split_from(s: Seq<char>, c: char, i: int) -> Seq<Seq<char>>
    decreases s.len() - i,
{
    if i < 0 || i > s.len() {
        seq![]
    } else {
        let j = find_from(s, c, i);
        if j < i {
            seq![]
        } else if j >= s.len() {
            seq![s.subrange(i, s.len() as int)]
        } else {
            seq![s.subrange(i, j)] + split_from(s, c, j + 1)
        }
    }
}

fn split_char_from(v: &Vec<char>, c: char, start: usize) -> (parts: Vec<String>)
    requires
        start <= v@.len(),
    ensures
        parts.deep_view() == split_from(v@, c, start as int),
        parts@.len() >= 1,
    decreases v@.len() - start,
{
    proof {
        lemma_find_from(v@, c, start as int);
    }
    let j: usize = find_char(v, c, start);
    let piece: String = chars_to_string(v, start, j);
    if j >= v.len() {
        let mut parts: Vec<String> = Vec::new();
        parts.push(piece);
        proof {
            assert(parts.deep_view() =~~= split_from(v@, c, start as int));
        }
        parts
    } else {
        let mut rest: Vec<String> = split_char_from(v, c, j + 1);
        let mut parts: Vec<String> = Vec::new();
        parts.push(piece);
        parts.append(&mut rest);
        proof {
            assert(parts.deep_view() =~~= split_from(v@, c, start as int));
        }
        parts
    }
}

/// Split on a separator character; empty pieces are kept.
pub fn split_char(v: &Vec<char>, c: char) -> (parts: Vec<String>)
    ensures
        parts.deep_view() == split_from(v@, c, 0),
        parts@.len() >= 1,
{
    split_char_from(v, c, 0)
}

/// Compare two text slices for equality of their character sequences.
pub fn str_eq(a: &str, b: &str) -> (r: bool)
    ensures
        r == (a@ == b@),
{
    let sa: String = String::from_str(a);
    let sb: String = String::from_str(b);
    sa == sb
}

/// Whether a character is a decimal digit.
pub fn is_digit(c: char) -> (r: bool)
    ensures
        r == is_digit_char(c),
{
    c == '0' || c == '1' || c == '2' || c == '3' || c == '4' || c == '5' || c == '6' || c == '7'
        || c == '8' || c == '9'
}

} // verus!
