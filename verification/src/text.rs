use vstd::prelude::*;
use vstd::string::*;

verus! {

/// Appends one character to a string.
///
/// Wraps `String::push`; the contract claims that the new contents are the
/// old contents followed by `c`, as the standard library documents.
#[verifier::external_body]
pub(crate) fn push_char(s: &mut String, c: char)
    ensures
        final(s)@ == old(s)@.push(c),
{
    s.push(c);
}

/// The characters of `s`, in order.
pub fn chars_of(s: &str) -> (v: Vec<char>)
    ensures
        v@ == s@,
{
    let mut v: Vec<char> = Vec::new();
    for c in it: s.chars()
        invariant
            v@ == it.seq().take(it.index() as int),
            it.seq() == s@,
    {
        v.push(c);
    }
    v
}

/// Whether two string slices hold the same characters.
pub fn str_eq(a: &str, b: &str) -> (r: bool)
    ensures
        r == (a@ == b@),
{
    let x = a.to_string();
    let y = b.to_string();
    x == y
}

/// A new `String` holding the characters of `s`.
pub fn owned(s: &str) -> (r: String)
    ensures
        r@ == s@,
{
    s.to_string()
}

/// `a` followed by `b`, as a new `String`.
pub fn concat2(a: &str, b: &str) -> (r: String)
    ensures
        r@ == a@ + b@,
{
    let mut r = a.to_string();
    r.append(b);
    r
}

} // verus!

verus! {

/// Whether `suffix` ends `s`.
pub open spec fn has_suffix(s: Seq<char>, suffix: Seq<char>) -> bool {
    suffix.len() <= s.len() && s.subrange(s.len() - suffix.len(), s.len() as int) == suffix
}

/// A `String` holding `v[from..to]`.
pub fn string_from_range(v: &Vec<char>, from: usize, to: usize) -> (r: String)
    requires
        from <= to <= v@.len(),
    ensures
        r@ == v@.subrange(from as int, to as int),
{
    let mut r = String::new();
    let mut i = from;
    while i < to
        invariant
            from <= i <= to <= v@.len(),
            r@ == v@.subrange(from as int, i as int),
        decreases to - i,
    {
        push_char(&mut r, v[i]);
        assert(v@.subrange(from as int, i + 1) == v@.subrange(from as int, i as int).push(v@[i as int]));
        i += 1;
    }
    r
}

/// `s` without `suffix`, when `s` ends with it.
pub fn strip_suffix(s: &str, suffix: &str) -> (r: Option<String>)
    ensures
        r is Some <==> has_suffix(s@, suffix@),
        r matches Some(t) ==> t@ == s@.subrange(0, s@.len() - suffix@.len()),
{
    let sv = chars_of(s);
    let xv = chars_of(suffix);
    let n = sv.len();
    let m = xv.len();
    if m > n {
        return None;
    }
    let start = n - m;
    let mut i: usize = 0;
    while i < m
        invariant
            sv@ == s@,
            xv@ == suffix@,
            n == sv@.len(),
            m == xv@.len(),
            m <= n,
            start == n - m,
            0 <= i <= m,
            forall|j: int| 0 <= j < i ==> sv@[start + j] == xv@[j],
        decreases m - i,
    {
        if sv[start + i] != xv[i] {
            assert(s@.subrange(start as int, n as int)[i as int] != suffix@[i as int]);
            return None;
        }
        i += 1;
    }
    assert(s@.subrange(start as int, n as int) =~= suffix@);
    Some(string_from_range(&sv, 0, start))
}

} // verus!

verus! {

/// The character of a decimal digit.
pub open spec fn digit_char(d: nat) -> char {
    ((d + 48) as u8) as char
}

/// The decimal numeral of `n`, without sign or leading zeros.
pub open spec fn spec_decimal(n: nat) -> Seq<char>
    decreases n,
{
    if n < 10 {
        seq![digit_char(n)]
    } else {
        spec_decimal(n / 10).push(digit_char(n % 10))
    }
}

/// The decimal numeral of `n`.
pub fn decimal(n: u64) -> (r: String)
    ensures
        r@ == spec_decimal(n as nat),
    decreases n,
{
    if n < 10 {
        let mut r = String::new();
        push_char(&mut r, ((n as u8) + 48u8) as char);
        assert(r@ =~= seq![digit_char(n as nat)]);
        r
    } else {
        let mut r = decimal(n / 10);
        push_char(&mut r, (((n % 10) as u8) + 48u8) as char);
        r
    }
}

/// `n` spaces.
pub open spec fn spaces(n: int) -> Seq<char>
    decreases n,
{
    if n <= 0 {
        Seq::empty()
    } else {
        spaces(n - 1).push(' ')
    }
}

/// `s` padded with spaces on the right to at least `width` characters.
pub open spec fn pad_right(s: Seq<char>, width: int) -> Seq<char> {
    s + spaces(width - s.len())
}

/// `s` padded with spaces on the left to at least `width` characters.
pub open spec fn pad_left(s: Seq<char>, width: int) -> Seq<char> {
    spaces(width - s.len()) + s
}

/// A string of `n` spaces.
pub fn make_spaces(n: usize) -> (r: String)
    ensures
        r@ == spaces(n as int),
{
    let mut r = String::new();
    let mut i: usize = 0;
    while i < n
        invariant
            i <= n,
            r@ == spaces(i as int),
        decreases n - i,
    {
        push_char(&mut r, ' ');
        i += 1;
    }
    r
}

/// The number of characters of `s`.
pub fn char_count(s: &str) -> (r: usize)
    ensures
        r == s@.len(),
{
    s.unicode_len()
}

/// `s` left-aligned in a field of `width` characters.
pub fn align_left(s: &str, width: usize) -> (r: String)
    ensures
        r@ == pad_right(s@, width as int),
{
    let n = char_count(s);
    let fill = if n < width { width - n } else { 0 };
    let mut r = owned(s);
    let pad = make_spaces(fill);
    r.append(pad.as_str());
    assert(spaces(fill as int) == spaces(width - s@.len()));
    r
}

/// `s` right-aligned in a field of `width` characters.
pub fn align_right(s: &str, width: usize) -> (r: String)
    ensures
        r@ == pad_left(s@, width as int),
{
    let n = char_count(s);
    let fill = if n < width { width - n } else { 0 };
    let mut r = make_spaces(fill);
    r.append(s);
    assert(spaces(fill as int) == spaces(width - s@.len()));
    r
}

} // verus!

verus! {

/// Whether `c` has the Unicode `White_Space` property, the test of
/// `char::is_whitespace`.
pub open spec fn is_space(c: char) -> bool {
    let u = c as u32;
    (0x09 <= u <= 0x0D) || u == 0x20 || u == 0x85 || u == 0xA0 || u == 0x1680
        || (0x2000 <= u <= 0x200A) || u == 0x2028 || u == 0x2029 || u == 0x202F
        || u == 0x205F || u == 0x3000
}

pub fn is_space_char(c: char) -> (r: bool)
    ensures
        r == is_space(c),
{
    let u = c as u32;
    (0x09 <= u && u <= 0x0D) || u == 0x20 || u == 0x85 || u == 0xA0 || u == 0x1680
        || (0x2000 <= u && u <= 0x200A) || u == 0x2028 || u == 0x2029 || u == 0x202F
        || u == 0x205F || u == 0x3000
}

/// The position of the first character from `i` on that is no space, or
/// the length when there is none.
pub open spec fn trim_start_from(s: Seq<char>, i: int) -> int
    decreases s.len() - i,
{
    if i < 0 || i >= s.len() {
        s.len() as int
    } else if is_space(s[i]) {
        trim_start_from(s, i + 1)
    } else {
        i
    }
}

/// The position just after the last character before `j` that is no
/// space, or 0 when there is none.
pub open spec fn trim_end_before(s: Seq<char>, j: int) -> int
    decreases j,
{
    if j <= 0 || j > s.len() {
        0
    } else if is_space(s[j - 1]) {
        trim_end_before(s, j - 1)
    } else {
        j
    }
}

/// `s` without its leading and trailing white space, as `str::trim` gives it.
pub open spec fn spec_trim(s: Seq<char>) -> Seq<char> {
    let start = trim_start_from(s, 0);
    let end = trim_end_before(s, s.len() as int);
    if start < end { s.subrange(start, end) } else { Seq::empty() }
}

proof fn lemma_trim_start_bounds(s: Seq<char>, i: int)
    requires
        0 <= i <= s.len(),
    ensures
        i <= trim_start_from(s, i) <= s.len(),
        trim_start_from(s, i) < s.len() ==> !is_space(s[trim_start_from(s, i)]),
    decreases s.len() - i,
{
    if i < s.len() && is_space(s[i]) {
        lemma_trim_start_bounds(s, i + 1);
    }
}

proof fn lemma_trim_end_bounds(s: Seq<char>, j: int)
    requires
        0 <= j <= s.len(),
    ensures
        0 <= trim_end_before(s, j) <= j,
        trim_end_before(s, j) > 0 ==> !is_space(s[trim_end_before(s, j) - 1]),
    decreases j,
{
    if j > 0 && is_space(s[j - 1]) {
        lemma_trim_end_bounds(s, j - 1);
    }
}

/// `v[from..to]` without its leading and trailing white space.
pub fn trim_range(v: &Vec<char>, from: usize, to: usize) -> (r: String)
    requires
        from <= to <= v@.len(),
    ensures
        r@ == spec_trim(v@.subrange(from as int, to as int)),
{
    let ghost s = v@.subrange(from as int, to as int);
    let mut i = from;
    while i < to && is_space_char(v[i])
        invariant
            from <= i <= to <= v@.len(),
            s == v@.subrange(from as int, to as int),
            trim_start_from(s, 0) == trim_start_from(s, i - from),
        decreases to - i,
    {
        i += 1;
    }
    let mut j = to;
    while j > i && is_space_char(v[j - 1])
        invariant
            from <= i <= j <= to <= v@.len(),
            s == v@.subrange(from as int, to as int),
            trim_end_before(s, s.len() as int) == trim_end_before(s, j - from),
        decreases j,
    {
        j -= 1;
    }
    proof {
        lemma_trim_start_bounds(s, 0);
        lemma_trim_end_bounds(s, s.len() as int);
        let start = i - from;
        let end = j - from;
        if i < to {
            assert(trim_start_from(s, start) == start);
        } else {
            assert(trim_start_from(s, start) == s.len());
        }
        if j > i {
            assert(trim_end_before(s, end) == end);
            assert(s.subrange(start, end) =~= v@.subrange(i as int, j as int));
        } else {
            lemma_trim_end_bounds(s, end);
        }
    }
    string_from_range(v, i, j)
}

/// `s` without its leading and trailing white space.
pub fn trim(s: &str) -> (r: String)
    ensures
        r@ == spec_trim(s@),
{
    let v = chars_of(s);
    assert(v@.subrange(0, v@.len() as int) =~= s@);
    trim_range(&v, 0, v.len())
}

} // verus!

verus! {

/// The position of the first `c` in `s` from `i` on, or the length when
/// there is none.
pub open spec fn find_from(s: Seq<char>, c: char, i: int) -> int
    decreases s.len() - i,
{
    if i < 0 || i >= s.len() {
        s.len() as int
    } else if s[i] == c {
        i
    } else {
        find_from(s, c, i + 1)
    }
}

/// The position of the last `c` in `s` before `j`, or -1 when there is none.
pub open spec fn rfind_before(s: Seq<char>, c: char, j: int) -> int
    decreases j,
{
    if j <= 0 || j > s.len() {
        -1
    } else if s[j - 1] == c {
        j - 1
    } else {
        rfind_before(s, c, j - 1)
    }
}

pub proof fn lemma_find_bounds(s: Seq<char>, c: char, i: int)
    requires
        0 <= i <= s.len(),
    ensures
        i <= find_from(s, c, i) <= s.len(),
        find_from(s, c, i) < s.len() ==> s[find_from(s, c, i)] == c,
    decreases s.len() - i,
{
    if i < s.len() && s[i] != c {
        lemma_find_bounds(s, c, i + 1);
    }
}

pub proof fn lemma_rfind_bounds(s: Seq<char>, c: char, j: int)
    requires
        0 <= j <= s.len(),
    ensures
        -1 <= rfind_before(s, c, j) < j,
        rfind_before(s, c, j) >= 0 ==> s[rfind_before(s, c, j)] == c,
        find_from(s, c, 0) < j ==> rfind_before(s, c, j) >= find_from(s, c, 0),
    decreases j,
{
    lemma_find_bounds(s, c, 0);
    if j > 0 && s[j - 1] != c {
        lemma_rfind_bounds(s, c, j - 1);
    }
}

/// The position of the first `c` in `v`, or its length.
pub fn find_char(v: &Vec<char>, c: char) -> (r: usize)
    ensures
        r == find_from(v@, c, 0),
{
    let mut i: usize = 0;
    while i < v.len() && v[i] != c
        invariant
            i <= v@.len(),
            find_from(v@, c, 0) == find_from(v@, c, i as int),
        decreases v@.len() - i,
    {
        i += 1;
    }
    i
}

/// One past the position of the last `c` in `v`, or 0 when there is none.
pub fn rfind_char_end(v: &Vec<char>, c: char) -> (r: usize)
    ensures
        r == rfind_before(v@, c, v@.len() as int) + 1,
{
    let mut j: usize = v.len();
    while j > 0 && v[j - 1] != c
        invariant
            j <= v@.len(),
            rfind_before(v@, c, v@.len() as int) == rfind_before(v@, c, j as int),
        decreases j,
    {
        j -= 1;
    }
    j
}

} // verus!
