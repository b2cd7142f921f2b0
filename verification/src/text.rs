//! Text as sequences of characters: searching, trimming, case folding, ordering and number parsing.

use vstd::prelude::*;
use vstd::string::*;

verus! {

/// The ASCII lower-case form of a character; any other character is its own.
pub open spec fn lower_char(c: char) -> char {
    if 'A' <= c <= 'Z' {
        ((c as u32) + 32) as char
    } else {
        c
    }
}

/// The ASCII upper-case form of a character; any other character is its own.
pub open spec fn upper_char(c: char) -> char {
    if 'a' <= c <= 'z' {
        ((c as u32) - 32) as char
    } else {
        c
    }
}

/// `s` with every ASCII letter in lower case.
pub open spec fn lower(s: Seq<char>) -> Seq<char> {
    s.map_values(|c: char| lower_char(c))
}

/// `s` with every ASCII letter in upper case.
pub open spec fn upper(s: Seq<char>) -> Seq<char> {
    s.map_values(|c: char| upper_char(c))
}

/// `needle` stands in `hay` from position `i` on.
pub open spec fn found_at(hay: Seq<char>, needle: Seq<char>, i: int) -> bool {
    &&& 0 <= i
    &&& i + needle.len() <= hay.len()
    &&& hay.subrange(i, i + needle.len()) == needle
}

/// `needle` stands somewhere in `hay`.
pub open spec fn contains(hay: Seq<char>, needle: Seq<char>) -> bool {
    exists|i: int| found_at(hay, needle, i)
}

/// A character with the Unicode property `White_Space`.
pub open spec fn is_white(c: char) -> bool {
    let n = c as u32;
    ||| 0x09 <= n <= 0x0d
    ||| n == 0x20
    ||| n == 0x85
    ||| n == 0xa0
    ||| n == 0x1680
    ||| 0x2000 <= n <= 0x200a
    ||| n == 0x2028
    ||| n == 0x2029
    ||| n == 0x202f
    ||| n == 0x205f
    ||| n == 0x3000
}

/// `s` without the white space at its end.
pub open spec fn trim_end(s: Seq<char>) -> Seq<char>
    decreases s.len(),
{
    if s.len() > 0 && is_white(s.last()) {
        trim_end(s.drop_last())
    } else {
        s
    }
}

/// `s` without the white space at its start.
pub open spec fn trim_start(s: Seq<char>) -> Seq<char>
    decreases s.len(),
{
    if s.len() > 0 && is_white(s.first()) {
        trim_start(s.drop_first())
    } else {
        s
    }
}

/// `s` without the white space at either end.
pub open spec fn trim(s: Seq<char>) -> Seq<char> {
    trim_end(trim_start(s))
}

/// Every character of `s` is white space.
pub open spec fn all_white(s: Seq<char>) -> bool {
    forall|i: int| 0 <= i < s.len() ==> is_white(#[trigger] s[i])
}

/// White space in front of a text does not survive trimming.
proof fn lemma_trim_start_skips(before: Seq<char>, s: Seq<char>)
    requires
        all_white(before),
    ensures
        trim_start(before + s) == trim_start(s),
    decreases before.len(),
{
    if before.len() > 0 {
        assert((before + s).drop_first() =~= before.drop_first() + s);
        lemma_trim_start_skips(before.drop_first(), s);
    } else {
        assert(before + s =~= s);
    }
}

/// White space behind a text does not survive trimming at the end.
proof fn lemma_trim_end_skips(s: Seq<char>, after: Seq<char>)
    requires
        all_white(after),
    ensures
        trim_end(s + after) == trim_end(s),
    decreases after.len(),
{
    if after.len() > 0 {
        assert((s + after).drop_last() =~= s + after.drop_last());
        assert((s + after).last() == after.last());
        lemma_trim_end_skips(s, after.drop_last());
    } else {
        assert(s + after =~= s);
    }
}

/// White space behind a text does not survive trimming at both ends.
proof fn lemma_trim_skips_after(s: Seq<char>, after: Seq<char>)
    requires
        all_white(after),
    ensures
        trim(s + after) == trim(s),
    decreases s.len(),
{
    if s.len() == 0 {
        assert(s + after =~= after + s);
        lemma_trim_start_skips(after, s);
    } else if is_white(s.first()) {
        assert((s + after).drop_first() =~= s.drop_first() + after);
        lemma_trim_skips_after(s.drop_first(), after);
    } else {
        lemma_trim_end_skips(s, after);
    }
}

/// White space around a text does not survive trimming.
pub proof fn lemma_trim_skips(before: Seq<char>, s: Seq<char>, after: Seq<char>)
    requires
        all_white(before),
        all_white(after),
    ensures
        trim(before + s + after) == trim(s),
{
    assert(before + s + after =~= before + (s + after));
    lemma_trim_start_skips(before, s + after);
    lemma_trim_skips_after(s, after);
}

/// Folding to upper case goes through trimming at the start.
proof fn lemma_upper_trim_start(s: Seq<char>)
    ensures
        trim_start(upper(s)) == upper(trim_start(s)),
    decreases s.len(),
{
    if s.len() > 0 {
        assert(upper(s).drop_first() =~= upper(s.drop_first()));
        lemma_upper_trim_start(s.drop_first());
    }
}

/// Folding to upper case goes through trimming at the end.
proof fn lemma_upper_trim_end(s: Seq<char>)
    ensures
        trim_end(upper(s)) == upper(trim_end(s)),
    decreases s.len(),
{
    if s.len() > 0 {
        assert(upper(s).drop_last() =~= upper(s.drop_last()));
        lemma_upper_trim_end(s.drop_last());
    }
}

/// Folding to upper case goes through trimming.
pub proof fn lemma_upper_trim(s: Seq<char>)
    ensures
        trim(upper(s)) == upper(trim(s)),
{
    lemma_upper_trim_start(s);
    lemma_upper_trim_end(trim_start(s));
}

/// The characters of an optional text.
pub open spec fn option_text(o: Option<String>) -> Option<Seq<char>> {
    match o {
        Some(s) => Some(s@),
        None => None,
    }
}

/// The characters of an optional borrowed text.
pub open spec fn option_str(o: Option<&str>) -> Option<Seq<char>> {
    match o {
        Some(s) => Some(s@),
        None => None,
    }
}

/// The characters of each text of a list.
pub open spec fn texts(list: Seq<String>) -> Seq<Seq<char>> {
    list.map_values(|s: String| s@)
}

/// The characters of `s`.
pub fn chars_of(s: &str) -> (r: Vec<char>)
    ensures
        r@ == s@,
{
    let mut r: Vec<char> = Vec::new();
    for c in it: s.chars()
        invariant
            it.seq() == s@,
            r@ == s@.take(it.index() as int),
    {
        r.push(c);
    }
    r
}

/// Folds one character to ASCII lower case.
pub fn to_lower_char(c: char) -> (r: char)
    ensures
        r == lower_char(c),
{
    if 'A' <= c && c <= 'Z' {
        ((c as u8) + 32) as char
    } else {
        c
    }
}

/// Folds one character to ASCII upper case.
pub fn to_upper_char(c: char) -> (r: char)
    ensures
        r == upper_char(c),
{
    if 'a' <= c && c <= 'z' {
        ((c as u8) - 32) as char
    } else {
        c
    }
}

/// The characters of `s`, folded to ASCII lower case.
pub fn lower_chars(s: &str) -> (r: Vec<char>)
    ensures
        r@ == lower(s@),
{
    let all: Vec<char> = chars_of(s);
    let mut r: Vec<char> = Vec::new();
    let mut i: usize = 0;
    while i < all.len()
        invariant
            all@ == s@,
            i <= all.len(),
            r@ == lower(s@.take(i as int)),
        decreases all.len() - i,
    {
        r.push(to_lower_char(all[i]));
        i = i + 1;
        assert(r@ =~= lower(s@.take(i as int)));
    }
    assert(s@.take(i as int) =~= s@);
    r
}

/// The characters of `s`, folded to ASCII upper case.
pub fn upper_chars(s: &str) -> (r: Vec<char>)
    ensures
        r@ == upper(s@),
{
    let all: Vec<char> = chars_of(s);
    let mut r: Vec<char> = Vec::new();
    let mut i: usize = 0;
    while i < all.len()
        invariant
            all@ == s@,
            i <= all.len(),
            r@ == upper(s@.take(i as int)),
        decreases all.len() - i,
    {
        r.push(to_upper_char(all[i]));
        i = i + 1;
        assert(r@ =~= upper(s@.take(i as int)));
    }
    assert(s@.take(i as int) =~= s@);
    r
}

/// Tells whether `needle` stands in `hay` from position `at` on.
fn stands_at(hay: &Vec<char>, needle: &Vec<char>, at: usize) -> (r: bool)
    requires
        at + needle.len() <= hay.len(),
    ensures
        r == found_at(hay@, needle@, at as int),
{
    let mut k: usize = 0;
    while k < needle.len()
        invariant
            at + needle.len() <= hay.len(),
            k <= needle.len(),
            forall|j: int| 0 <= j < k ==> hay@[at + j] == needle@[j],
        decreases needle.len() - k,
    {
        if hay[at + k] != needle[k] {
            assert(hay@.subrange(at as int, at + needle@.len())[k as int] != needle@[k as int]);
            return false;
        }
        k = k + 1;
    }
    assert(hay@.subrange(at as int, at + needle@.len()) =~= needle@);
    true
}

/// Tells whether `needle` stands anywhere in `hay`.
pub fn has(hay: &Vec<char>, needle: &str) -> (r: bool)
    ensures
        r == contains(hay@, needle@),
{
    let wanted: Vec<char> = chars_of(needle);
    if wanted.len() > hay.len() {
        return false;
    }
    let last: usize = hay.len() - wanted.len();
    let mut at: usize = 0;
    loop
        invariant
            wanted@ == needle@,
            last == hay.len() - wanted.len(),
            at <= last,
            forall|i: int| 0 <= i < at ==> !found_at(hay@, needle@, i),
        decreases last - at,
    {
        if stands_at(hay, &wanted, at) {
            return true;
        }
        if at == last {
            assert forall|i: int| !found_at(hay@, needle@, i) by {
                if found_at(hay@, needle@, i) {
                    assert(i <= last);
                }
            }
            return false;
        }
        at = at + 1;
    }
}

/// Tells whether the text `s` begins with `prefix`.
pub fn begins_with(s: &str, prefix: &str) -> (r: bool)
    ensures
        r == prefix@.is_prefix_of(s@),
{
    let text: Vec<char> = chars_of(s);
    let wanted: Vec<char> = chars_of(prefix);
    if wanted.len() > text.len() {
        return false;
    }
    let r: bool = stands_at(&text, &wanted, 0);
    r
}

/// Tells whether two texts are the same.
pub fn same(a: &str, b: &str) -> (r: bool)
    ensures
        r == (a@ == b@),
{
    let x: Vec<char> = chars_of(a);
    let y: Vec<char> = chars_of(b);
    same_chars(&x, &y)
}

/// Tells whether the characters of `x` spell those of `y`.
pub fn same_chars(x: &Vec<char>, y: &Vec<char>) -> (r: bool)
    ensures
        r == (x@ == y@),
{
    if x.len() != y.len() {
        return false;
    }
    let r: bool = stands_at(x, y, 0);
    assert(x@.subrange(0, y@.len() as int) =~= x@);
    r
}

/// Tells whether the characters of `x` spell the text `word`.
pub fn spells(x: &Vec<char>, word: &str) -> (r: bool)
    ensures
        r == (x@ == word@),
{
    same_chars(x, &chars_of(word))
}

/// Tells whether two optional texts are the same.
pub fn same_option(a: &Option<String>, b: &Option<String>) -> (r: bool)
    ensures
        r == (option_text(*a) == option_text(*b)),
{
    match (a, b) {
        (Some(x), Some(y)) => same(x.as_str(), y.as_str()),
        (None, None) => true,
        _ => false,
    }
}

/// A copy of an optional text.
pub fn copy_option(a: &Option<String>) -> (r: Option<String>)
    ensures
        r == *a,
{
    match a {
        Some(x) => Some(x.clone()),
        None => None,
    }
}

/// Tells whether `c` is white space.
pub fn white(c: char) -> (r: bool)
    ensures
        r == is_white(c),
{
    let n: u32 = c as u32;
    (0x09 <= n && n <= 0x0d) || n == 0x20 || n == 0x85 || n == 0xa0 || n == 0x1680 || (0x2000 <= n
        && n <= 0x200a) || n == 0x2028 || n == 0x2029 || n == 0x202f || n == 0x205f || n == 0x3000
}

/// `s` without the white space at its end.
pub fn trimmed_end(s: &str) -> (r: &str)
    ensures
        r@ == trim_end(s@),
{
    let all: Vec<char> = chars_of(s);
    let mut end: usize = all.len();
    assert(s@.take(end as int) =~= s@);
    while end > 0 && white(all[end - 1])
        invariant
            all@ == s@,
            end <= all.len(),
            trim_end(s@) == trim_end(s@.take(end as int)),
        decreases end,
    {
        assert(s@.take(end as int).drop_last() =~= s@.take(end - 1));
        end = end - 1;
    }
    s.substring_char(0, end)
}

/// `s` without the white space at either end.
pub fn trimmed(s: &str) -> (r: &str)
    ensures
        r@ == trim(s@),
{
    let all: Vec<char> = chars_of(s);
    let mut start: usize = 0;
    assert(s@.skip(0) =~= s@);
    while start < all.len() && white(all[start])
        invariant
            all@ == s@,
            start <= all.len(),
            trim_start(s@) == trim_start(s@.skip(start as int)),
        decreases all.len() - start,
    {
        assert(s@.skip(start as int).drop_first() =~= s@.skip(start + 1));
        start = start + 1;
    }
    assert(s@.skip(start as int) =~= s@.subrange(start as int, s@.len() as int));
    trimmed_end(s.substring_char(start, all.len()))
}

/// `a` does not come after `b` in the order of texts, which goes by the first character in which
/// they differ; a text comes after its own prefixes.
pub open spec fn not_after(a: Seq<char>, b: Seq<char>) -> bool
    decreases a.len(),
{
    if a.len() == 0 {
        true
    } else if b.len() == 0 {
        false
    } else if a[0] != b[0] {
        a[0] < b[0]
    } else {
        not_after(a.drop_first(), b.drop_first())
    }
}

/// Any two texts are in order one way or the other, and both ways only if they are the same.
pub proof fn lemma_order_is_total(a: Seq<char>, b: Seq<char>)
    ensures
        not_after(a, b) || not_after(b, a),
        not_after(a, b) && not_after(b, a) <==> a == b,
    decreases a.len(),
{
    if a.len() > 0 && b.len() > 0 {
        lemma_order_is_total(a.drop_first(), b.drop_first());
        if a[0] == b[0] && a.drop_first() == b.drop_first() {
            assert(a =~= seq![a[0]] + a.drop_first());
            assert(b =~= seq![b[0]] + b.drop_first());
        }
    } else if a.len() == 0 && b.len() == 0 {
        assert(a =~= b);
    }
}

/// The order of texts is transitive.
pub proof fn lemma_order_is_transitive(a: Seq<char>, b: Seq<char>, c: Seq<char>)
    requires
        not_after(a, b),
        not_after(b, c),
    ensures
        not_after(a, c),
    decreases a.len(),
{
    if a.len() > 0 && a[0] == b[0] && b[0] == c[0] {
        lemma_order_is_transitive(a.drop_first(), b.drop_first(), c.drop_first());
    }
}

/// Tells whether `a` does not come after `b` in the order of texts.
pub fn in_order(a: &str, b: &str) -> (r: bool)
    ensures
        r == not_after(a@, b@),
{
    let x: Vec<char> = chars_of(a);
    let y: Vec<char> = chars_of(b);
    let mut i: usize = 0;
    assert(a@.skip(0) =~= a@);
    assert(b@.skip(0) =~= b@);
    while i < x.len() && i < y.len() && x[i] == y[i]
        invariant
            x@ == a@,
            y@ == b@,
            i <= x.len(),
            i <= y.len(),
            not_after(a@, b@) == not_after(a@.skip(i as int), b@.skip(i as int)),
        decreases x.len() - i,
    {
        assert(a@.skip(i as int).drop_first() =~= a@.skip(i + 1));
        assert(b@.skip(i as int).drop_first() =~= b@.skip(i + 1));
        i = i + 1;
    }
    if i == x.len() {
        true
    } else if i == y.len() {
        false
    } else {
        x[i] < y[i]
    }
}

/// How `String::from_utf8_lossy` reads `bytes`.
pub uninterp spec fn utf8_lossy(bytes: Seq<u8>) -> Seq<char>;

/// `String::from_utf8_lossy`, made an owned text: bytes that are valid UTF-8 are read as such,
/// and every invalid stretch becomes a replacement character. Which stretches those are is left
/// to the name; the text depends on the bytes alone.
#[verifier::external_body]
pub(crate) fn lossy(bytes: &Vec<u8>) -> (r: String)
    ensures
        r@ == utf8_lossy(bytes@),
        vstd::utf8::valid_utf8(bytes@) ==> r@ == vstd::utf8::decode_utf8(bytes@),
{
    String::from_utf8_lossy(bytes).to_string()
}

/// The pieces of `s` between its line feeds.
pub open spec fn split_lines(s: Seq<char>) -> Seq<Seq<char>>
    decreases s.len(),
{
    if s.len() == 0 {
        seq![Seq::empty()]
    } else {
        let before = split_lines(s.drop_last());
        if s.last() == '\n' {
            before.push(Seq::empty())
        } else {
            before.drop_last().push(before.last().push(s.last()))
        }
    }
}

/// Every character of `s` is a decimal digit.
pub open spec fn all_digits(s: Seq<char>) -> bool {
    forall|i: int| 0 <= i < s.len() ==> '0' <= #[trigger] s[i] <= '9'
}

/// The number that the decimal digits `s` write.
pub open spec fn digits_value(s: Seq<char>) -> int
    decreases s.len(),
{
    if s.len() == 0 {
        0
    } else {
        10 * digits_value(s.drop_last()) + (s.last() as u32 - '0' as u32)
    }
}

/// The digits of a number, after its sign.
pub open spec fn after_sign(s: Seq<char>) -> Seq<char> {
    if s.len() > 0 && (s[0] == '-' || s[0] == '+') {
        s.drop_first()
    } else {
        s
    }
}

/// The number that an optional sign and decimal digits write.
pub open spec fn signed_value(s: Seq<char>) -> int {
    if s.len() > 0 && s[0] == '-' {
        -digits_value(after_sign(s))
    } else {
        digits_value(after_sign(s))
    }
}

/// The 32-bit number that `s` writes: an optional sign and at least one digit, within range.
pub open spec fn number(s: Seq<char>) -> Option<i32> {
    let value = signed_value(s);
    if after_sign(s).len() > 0 && all_digits(after_sign(s)) && i32::MIN <= value <= i32::MAX {
        Some(value as i32)
    } else {
        None
    }
}

/// The numbers among the lines, white space around them aside; any other line is skipped.
pub open spec fn numbers(lines: Seq<Seq<char>>) -> Seq<i32>
    decreases lines.len(),
{
    if lines.len() == 0 {
        Seq::empty()
    } else {
        let before = numbers(lines.drop_last());
        match number(trim(lines.last())) {
            Some(n) => before.push(n),
            None => before,
        }
    }
}

/// Reads a 32-bit number.
pub fn parse_number(s: &str) -> (r: Option<i32>)
    ensures
        r == number(s@),
{
    let all: Vec<char> = chars_of(s);
    let negative: bool = all.len() > 0 && all[0] == '-';
    let signed: bool = all.len() > 0 && (all[0] == '-' || all[0] == '+');
    let start: usize = if signed {
        1
    } else {
        0
    };
    let ghost digits = after_sign(s@);
    assert(digits =~= s@.skip(start as int));
    if start == all.len() {
        return None;
    }
    // More than any 32-bit number needs, and safe to multiply.
    let cap: i64 = 1_000_000_000_000;
    let mut value: i64 = 0;
    let mut i: usize = start;
    assert(digits.take(0) =~= Seq::empty());
    while i < all.len()
        invariant
            all@ == s@,
            start <= i <= all.len(),
            digits == after_sign(s@),
            digits == s@.skip(start as int),
            cap == 1_000_000_000_000,
            all_digits(digits.take(i - start)),
            0 <= value <= cap,
            value < cap ==> value == digits_value(digits.take(i - start)),
            value == cap ==> digits_value(digits.take(i - start)) >= cap,
        decreases all.len() - i,
    {
        let c: char = all[i];
        assert(digits[i - start] == c);
        if c < '0' || '9' < c {
            assert(!all_digits(digits));
            return None;
        }
        let digit: i64 = ((c as u32) - ('0' as u32)) as i64;
        proof {
            let next = digits.take(i - start + 1);
            assert(next.drop_last() =~= digits.take(i - start));
            assert(next.last() == c);
            assert forall|k: int| 0 <= k < next.len() implies '0' <= #[trigger] next[k] <= '9' by {
                if k < i - start {
                    assert(next[k] == digits.take(i - start)[k]);
                }
            }
        }
        let longer: i64 = 10 * value + digit;
        value = if longer < cap {
            longer
        } else {
            cap
        };
        i = i + 1;
    }
    assert(digits.take(i - start) =~= digits);
    if negative {
        if value <= 2_147_483_648 {
            Some((-value) as i32)
        } else {
            None
        }
    } else if value <= 2_147_483_647 {
        Some(value as i32)
    } else {
        None
    }
}

/// Reads the numbers of a text, one a line; any line that is no number is skipped.
pub fn parse_numbers(s: &str) -> (r: Vec<i32>)
    ensures
        r@ == numbers(split_lines(s@)),
{
    let all: Vec<char> = chars_of(s);
    let mut found: Vec<i32> = Vec::new();
    let mut start: usize = 0;
    let mut i: usize = 0;
    let ghost mut done: Seq<Seq<char>> = Seq::empty();
    proof {
        assert(s@.take(0) =~= Seq::empty());
        assert(split_lines(s@.take(0)) =~= done.push(s@.subrange(0, 0)));
    }
    while i < all.len()
        invariant
            all@ == s@,
            start <= i <= all.len(),
            split_lines(s@.take(i as int)) == done.push(s@.subrange(start as int, i as int)),
            found@ == numbers(done),
        decreases all.len() - i,
    {
        let ghost line = s@.subrange(start as int, i as int);
        proof {
            assert(s@.take(i + 1).drop_last() =~= s@.take(i as int));
            assert(done.push(line).drop_last() =~= done);
        }
        if all[i] == '\n' {
            if let Some(n) = parse_number(trimmed(s.substring_char(start, i))) {
                found.push(n);
            }
            start = i + 1;
            proof {
                done = done.push(line);
                assert(s@.subrange(start as int, i + 1) =~= Seq::empty());
            }
        } else {
            assert(s@.subrange(start as int, i + 1) =~= line.push(s@[i as int]));
        }
        i = i + 1;
    }
    let ghost line = s@.subrange(start as int, i as int);
    proof {
        assert(s@.take(i as int) =~= s@);
        assert(done.push(line).drop_last() =~= done);
    }
    if let Some(n) = parse_number(trimmed(s.substring_char(start, i))) {
        found.push(n);
    }
    found
}

/// Folding touches the ASCII letters and nothing else: each goes to the letter of the other case,
/// 32 code points away.
pub proof fn law_case_folding(s: Seq<char>, i: int)
    requires
        0 <= i < s.len(),
    ensures
        lower(s).len() == s.len(),
        upper(s).len() == s.len(),
        ({
            let c = s[i] as u32;
            let low = lower(s)[i] as u32;
            let up = upper(s)[i] as u32;
            &&& 65 <= c <= 90 ==> low == c + 32 && up == c
            &&& 97 <= c <= 122 ==> low == c && up == c - 32
            &&& c < 65 || 90 < c < 97 || 122 < c ==> low == c && up == c
        }),
{
}

/// A text is contained in another exactly when the other is it with something in front and
/// something behind.
pub proof fn law_contains(hay: Seq<char>, needle: Seq<char>)
    ensures
        contains(hay, needle) <==> exists|front: Seq<char>, back: Seq<char>|
            hay == #[trigger] (front + needle + back),
{
    if contains(hay, needle) {
        let i = choose|i: int| found_at(hay, needle, i);
        let front = hay.take(i);
        let back = hay.skip(i + needle.len());
        assert(hay =~= front + hay.subrange(i, i + needle.len()) + back);
        assert(hay == front + needle + back);
    }
    if exists|front: Seq<char>, back: Seq<char>| hay == #[trigger] (front + needle + back) {
        let (front, back) = choose|front: Seq<char>, back: Seq<char>|
            hay == #[trigger] (front + needle + back);
        assert(hay.subrange(front.len() as int, (front.len() + needle.len()) as int) =~= needle);
        assert(found_at(hay, needle, front.len() as int));
    }
}

/// White space is the 25 characters of that Unicode property.
pub proof fn law_white_space(c: char)
    ensures
        is_white(c) <==> c == '\t' || c == '\n' || c == '\u{b}' || c == '\u{c}' || c == '\r' || c
            == ' ' || c == '\u{85}' || c == '\u{a0}' || c == '\u{1680}' || c == '\u{2000}' || c
            == '\u{2001}' || c == '\u{2002}' || c == '\u{2003}' || c == '\u{2004}' || c
            == '\u{2005}' || c == '\u{2006}' || c == '\u{2007}' || c == '\u{2008}' || c
            == '\u{2009}' || c == '\u{200a}' || c == '\u{2028}' || c == '\u{2029}' || c
            == '\u{202f}' || c == '\u{205f}' || c == '\u{3000}',
{
}

/// Trimming at the end cuts off white space alone, and all of it.
pub proof fn law_trim_end(s: Seq<char>)
    ensures
        trim_end(s).len() <= s.len(),
        trim_end(s) == s.take(trim_end(s).len() as int),
        forall|i: int| trim_end(s).len() <= i < s.len() ==> is_white(#[trigger] s[i]),
        trim_end(s).len() > 0 ==> !is_white(trim_end(s).last()),
    decreases s.len(),
{
    if s.len() > 0 && is_white(s.last()) {
        let x = s.drop_last();
        law_trim_end(x);
        assert(trim_end(s) =~= s.take(trim_end(s).len() as int));
        assert forall|i: int| trim_end(s).len() <= i < s.len() implies is_white(
            #[trigger] s[i],
        ) by {
            if i < x.len() {
                assert(x[i] == s[i]);
            }
        }
    } else {
        assert(trim_end(s) =~= s.take(s.len() as int));
    }
}

/// Trimming at the start cuts off white space alone, and all of it.
pub proof fn law_trim_start(s: Seq<char>)
    ensures
        trim_start(s).len() <= s.len(),
        trim_start(s) == s.skip(s.len() - trim_start(s).len()),
        forall|i: int| 0 <= i < s.len() - trim_start(s).len() ==> is_white(#[trigger] s[i]),
        trim_start(s).len() > 0 ==> !is_white(trim_start(s).first()),
    decreases s.len(),
{
    if s.len() > 0 && is_white(s.first()) {
        let x = s.drop_first();
        law_trim_start(x);
        assert(trim_start(s) =~= s.skip(s.len() - trim_start(s).len()));
        assert forall|i: int| 0 <= i < s.len() - trim_start(s).len() implies is_white(
            #[trigger] s[i],
        ) by {
            if i > 0 {
                assert(x[i - 1] == s[i]);
            }
        }
    } else {
        assert(trim_start(s) =~= s.skip(0));
    }
}

/// Trimming cuts white space off both ends, and all of it; a blank text leaves nothing.
pub proof fn law_trim(s: Seq<char>)
    ensures
        exists|i: int|
            {
                &&& 0 <= i <= s.len() - trim(s).len()
                &&& trim(s) == #[trigger] s.subrange(i, i + trim(s).len())
                &&& all_white(s.take(i))
                &&& all_white(s.skip(i + trim(s).len()))
            },
        trim(s).len() > 0 ==> !is_white(trim(s).first()) && !is_white(trim(s).last()),
{
    law_trim_start(s);
    let x = trim_start(s);
    law_trim_end(x);
    let t = trim(s);
    let i = s.len() - x.len();
    assert(t =~= s.subrange(i, i + t.len()));
    assert forall|k: int| 0 <= k < s.skip(i + t.len()).len() implies is_white(
        #[trigger] s.skip(i + t.len())[k],
    ) by {
        assert(s.skip(i + t.len())[k] == x[t.len() + k]);
    }
}

/// Optional and listed texts are taken character by character, none left out.
pub proof fn law_texts(s: String, list: Seq<String>, i: int)
    requires
        0 <= i < list.len(),
    ensures
        option_text(Some(s)) == Some(s@),
        option_text(None) == None::<Seq<char>>,
        texts(list).len() == list.len(),
        texts(list)[i] == list[i]@,
{
}

/// An optional borrowed text is taken character by character.
pub proof fn law_borrowed_text(s: &str)
    ensures
        option_str(Some(s)) == Some(s@),
        option_str(None) == None::<Seq<char>>,
{
}

/// A text comes no later than another exactly when it is a prefix of it, or has the smaller
/// character where the two first differ.
pub proof fn law_text_order(a: Seq<char>, b: Seq<char>)
    ensures
        not_after(a, b) <==> a.is_prefix_of(b) || exists|i: int|
            0 <= i < a.len() && i < b.len() && a.take(i) == b.take(i) && #[trigger] a[i] < b[i],
    decreases a.len(),
{
    if a.len() == 0 {
        assert(a =~= b.subrange(0, 0));
    } else if b.len() > 0 {
        let x = a.drop_first();
        let y = b.drop_first();
        law_text_order(x, y);
        if a[0] != b[0] {
            assert(a.take(0) =~= b.take(0));
            if a.is_prefix_of(b) {
                assert(b.subrange(0, a.len() as int)[0] == a[0]);
            }
            if exists|i: int|
                0 <= i < a.len() && i < b.len() && a.take(i) == b.take(i) && #[trigger] a[i]
                    < b[i] {
                let i = choose|i: int|
                    0 <= i < a.len() && i < b.len() && a.take(i) == b.take(i) && #[trigger] a[i]
                        < b[i];
                if i > 0 {
                    assert(a.take(i)[0] == b.take(i)[0]);
                }
            }
        } else {
            if x.is_prefix_of(y) {
                assert(a =~= b.subrange(0, a.len() as int)) by {
                    assert forall|k: int| 0 <= k < a.len() implies a[k] == b[k] by {
                        if k > 0 {
                            assert(x[k - 1] == y.subrange(0, x.len() as int)[k - 1]);
                        }
                    }
                }
            }
            if a.is_prefix_of(b) {
                assert(x =~= y.subrange(0, x.len() as int)) by {
                    assert forall|k: int| 0 <= k < x.len() implies x[k] == y[k] by {
                        assert(a[k + 1] == b.subrange(0, a.len() as int)[k + 1]);
                    }
                }
            }
            if exists|i: int|
                0 <= i < x.len() && i < y.len() && x.take(i) == y.take(i) && #[trigger] x[i]
                    < y[i] {
                let i = choose|i: int|
                    0 <= i < x.len() && i < y.len() && x.take(i) == y.take(i) && #[trigger] x[i]
                        < y[i];
                assert(a.take(i + 1) =~= seq![a[0]] + x.take(i));
                assert(b.take(i + 1) =~= seq![b[0]] + y.take(i));
                assert(a[i + 1] < b[i + 1]);
            }
            if exists|i: int|
                0 <= i < a.len() && i < b.len() && a.take(i) == b.take(i) && #[trigger] a[i]
                    < b[i] {
                let i = choose|i: int|
                    0 <= i < a.len() && i < b.len() && a.take(i) == b.take(i) && #[trigger] a[i]
                        < b[i];
                assert(x.take(i - 1) =~= a.take(i).drop_first());
                assert(y.take(i - 1) =~= b.take(i).drop_first());
                assert(x[i - 1] < y[i - 1]);
            }
        }
    } else {
        if a.is_prefix_of(b) {
            assert(a.len() <= b.len());
        }
    }
}

/// A text without a line feed is one line; one before a line feed is a line of its own, and the
/// rest has its own lines.
pub proof fn law_split_lines(line: Seq<char>, rest: Seq<char>)
    requires
        !line.contains('\n'),
    ensures
        split_lines(line) == seq![line],
        split_lines(line + seq!['\n'] + rest) == seq![line] + split_lines(rest),
{
    lemma_one_line(line);
    lemma_lines_after(line, rest);
}

/// A text without a line feed is one line.
proof fn lemma_one_line(line: Seq<char>)
    requires
        !line.contains('\n'),
    ensures
        split_lines(line) == seq![line],
    decreases line.len(),
{
    if line.len() > 0 {
        let x = line.drop_last();
        assert forall|i: int| 0 <= i < x.len() implies x[i] != '\n' by {
            assert(line.contains(line[i]));
        }
        lemma_one_line(x);
        assert(line.contains(line.last()));
        assert(x.push(line.last()) =~= line);
        assert(split_lines(line) =~= seq![line]);
    } else {
        assert(line =~= Seq::empty());
        assert(split_lines(line) =~= seq![line]);
    }
}

/// Behind a line feed, lines are split as if nothing stood before.
proof fn lemma_lines_after(line: Seq<char>, rest: Seq<char>)
    requires
        !line.contains('\n'),
    ensures
        split_lines(line + seq!['\n'] + rest) == seq![line] + split_lines(rest),
        split_lines(rest).len() > 0,
    decreases rest.len(),
{
    let all = line + seq!['\n'] + rest;
    if rest.len() == 0 {
        lemma_one_line(line);
        assert(all.drop_last() =~= line);
        assert(split_lines(all) =~= seq![line] + split_lines(rest));
    } else {
        let x = rest.drop_last();
        lemma_lines_after(line, x);
        assert(all.drop_last() =~= line + seq!['\n'] + x);
        assert(all.last() == rest.last());
        assert(split_lines(all) =~= seq![line] + split_lines(rest));
    }
}

/// The numbers of two lists of lines are those of the first and then those of the second; a line
/// gives its number, white space around it aside, or nothing.
pub proof fn law_numbers(a: Seq<Seq<char>>, b: Seq<Seq<char>>, line: Seq<char>)
    ensures
        numbers(a + b) == numbers(a) + numbers(b),
        numbers(seq![line]) == match number(trim(line)) {
            Some(n) => seq![n],
            None => Seq::empty(),
        },
    decreases b.len(),
{
    reveal_with_fuel(numbers, 2);
    assert(seq![line].drop_last() =~= Seq::empty());
    assert(numbers(seq![line]) =~= match number(trim(line)) {
        Some(n) => seq![n],
        None => Seq::empty(),
    });
    if b.len() == 0 {
        assert(a + b =~= a);
    } else {
        law_numbers(a, b.drop_last(), line);
        assert((a + b).drop_last() =~= a + b.drop_last());
    }
    assert(numbers(a + b) =~= numbers(a) + numbers(b));
}

/// A number without a sign is read digit by digit: one digit is itself, one more digit multiplies
/// by ten and adds, as long as the result fits; no other character continues a number.
pub proof fn law_number_digits(s: Seq<char>, c: char)
    requires
        s.len() > 0,
        s[0] != '-' && s[0] != '+',
    ensures
        number(Seq::empty()) is None,
        ({
            let d = c as u32 - 48;
            let digit = 48 <= c as u32 <= 57;
            let longer = number(s.push(c));
            &&& number(seq![c]) == (if digit {
                Some(d as i32)
            } else {
                None
            })
            &&& longer == match number(s) {
                Some(n) => if digit && 10 * n + d <= 2_147_483_647 {
                    Some((10 * n + d) as i32)
                } else {
                    None
                },
                None => None,
            }
        }),
{
    let one = seq![c];
    reveal_with_fuel(digits_value, 2);
    assert(one.drop_last() =~= Seq::empty());
    assert(one.drop_first() =~= Seq::empty());
    if c != '-' && c != '+' {
        assert(one[0] == c);
    }
    let longer = s.push(c);
    assert(longer[0] == s[0]);
    assert(longer.drop_last() =~= s);
    lemma_value_is_natural(s);
    if all_digits(longer) {
        assert forall|k: int| 0 <= k < s.len() implies '0' <= #[trigger] s[k] <= '9' by {
            assert(longer[k] == s[k]);
        }
        assert(longer[s.len() as int] == c);
    }
    if all_digits(s) && '0' <= c <= '9' {
        assert forall|k: int| 0 <= k < longer.len() implies '0' <= #[trigger] longer[k] <= '9' by {
            if k < s.len() {
                assert(longer[k] == s[k]);
            }
        }
    }
}

/// Decimal digits write no negative number.
proof fn lemma_value_is_natural(s: Seq<char>)
    ensures
        all_digits(s) ==> digits_value(s) >= 0,
    decreases s.len(),
{
    if s.len() > 0 && all_digits(s) {
        let x = s.drop_last();
        assert forall|k: int| 0 <= k < x.len() implies '0' <= #[trigger] x[k] <= '9' by {
            assert(x[k] == s[k]);
        }
        lemma_value_is_natural(x);
        assert('0' <= s[s.len() - 1] <= '9');
    }
}

/// A plus sign changes nothing and a minus sign negates; a number has at most one sign. Only the
/// least number is written with a minus sign and no counterpart without.
pub proof fn law_number_sign(s: Seq<char>)
    requires
        s.len() > 0,
    ensures
        ({
            let plus = number(seq!['+'] + s);
            let minus = number(seq!['-'] + s);
            &&& s[0] == '-' || s[0] == '+' ==> plus is None && minus is None
            &&& s[0] != '-' && s[0] != '+' ==> {
                &&& plus == number(s)
                &&& number(s) matches Some(n) ==> minus == Some((-n) as i32)
                &&& number(s) is None ==> (minus is Some <==> all_digits(s) && digits_value(s)
                    == 2_147_483_648)
                &&& minus matches Some(m) ==> (number(s) is None <==> m == i32::MIN)
            }
        }),
{
    let plus = seq!['+'] + s;
    let minus = seq!['-'] + s;
    assert(plus.drop_first() =~= s);
    assert(minus.drop_first() =~= s);
    lemma_value_is_natural(s);
    if s[0] == '-' || s[0] == '+' {
        assert(!all_digits(s));
    }
}

} // verus!
