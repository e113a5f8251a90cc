//! Text as sequences of characters: the few operations on strings that the
//! rest of the library needs, each with an exact contract.

use vstd::prelude::*;
use vstd::string::*;

verus! {

/// The lowercase form of a text, as `str::to_lowercase` computes it.
pub uninterp spec fn lowercase(s: Seq<char>) -> Seq<char>;

/// The uppercase form of a text, as `str::to_uppercase` computes it.
pub uninterp spec fn uppercase(s: Seq<char>) -> Seq<char>;

/// Whether a character is white space, as `char::is_whitespace` decides it.
pub uninterp spec fn white_space(c: char) -> bool;

/// Calls `str::to_lowercase`. The result depends on the text alone; it is
/// named, not described.
#[verifier::external_body]
pub(crate) fn to_lowercase(s: &str) -> (r: String)
    ensures
        r@ == lowercase(s@),
{
    s.to_lowercase()
}

/// Calls `str::to_uppercase`. The result depends on the text alone; it is
/// named, not described.
#[verifier::external_body]
pub(crate) fn to_uppercase(s: &str) -> (r: String)
    ensures
        r@ == uppercase(s@),
{
    s.to_uppercase()
}

/// Calls `char::is_whitespace`. The result depends on the character alone;
/// it is named, not described.
#[verifier::external_body]
pub(crate) fn is_whitespace(c: char) -> (r: bool)
    ensures
        r == white_space(c),
{
    c.is_whitespace()
}

/// Compares two texts with `==` on `str`, which holds exactly when they are
/// the same sequence of characters.
#[verifier::external_body]
pub(crate) fn str_eq(a: &str, b: &str) -> (r: bool)
    ensures
        r == (a@ == b@),
{
    a == b
}

/// Calls `String::push`, which appends one character.
#[verifier::external_body]
pub(crate) fn push_char(s: &mut String, c: char)
    ensures
        final(s)@ == old(s)@.push(c),
{
    s.push(c)
}

/// The characters of `s`, in order.
pub fn chars_of(s: &str) -> (v: Vec<char>)
    ensures
        v@ == s@,
{
    let mut v: Vec<char> = Vec::new();
    for c in it: s.chars()
        invariant
            v@ == s@.take(it.index() as int),
            it.seq() == s@,
    {
        v.push(c);
    }
    assert(s@.take(s@.len() as int) =~= s@);
    v
}

/// The text made of `chars[from..to]`.
pub fn string_of(chars: &Vec<char>, from: usize, to: usize) -> (r: String)
    requires
        from <= to <= chars@.len(),
    ensures
        r@ == chars@.subrange(from as int, to as int),
{
    let mut r = String::new();
    let mut i: usize = from;
    while i < to
        invariant
            from <= i <= to <= chars@.len(),
            r@ == chars@.subrange(from as int, i as int),
        decreases to - i,
    {
        push_char(&mut r, chars[i]);
        i = i + 1;
        assert(chars@.subrange(from as int, i as int) =~= chars@.subrange(from as int, i - 1).push(
            chars@[i - 1],
        ));
    }
    r
}

/// Number of leading white-space characters of `s`.
pub open spec fn leading_space(s: Seq<char>) -> nat
    decreases s.len(),
{
    if s.len() > 0 && white_space(s[0]) {
        1 + leading_space(s.drop_first())
    } else {
        0
    }
}

/// Number of trailing white-space characters of `s`.
pub open spec fn trailing_space(s: Seq<char>) -> nat
    decreases s.len(),
{
    if s.len() > 0 && white_space(s.last()) {
        1 + trailing_space(s.drop_last())
    } else {
        0
    }
}

/// `s` without its leading white space.
pub open spec fn trim_start(s: Seq<char>) -> Seq<char> {
    s.skip(leading_space(s) as int)
}

/// `s` without its leading and trailing white space.
pub open spec fn trimmed(s: Seq<char>) -> Seq<char> {
    let rest = trim_start(s);
    rest.take(rest.len() - trailing_space(rest))
}

/// The leading white space of a text is no longer than the text.
pub proof fn lemma_leading_space_bound(s: Seq<char>)
    ensures
        leading_space(s) <= s.len(),
    decreases s.len(),
{
    if s.len() > 0 && white_space(s[0]) {
        lemma_leading_space_bound(s.drop_first());
    }
}

/// The trailing white space of a text is no longer than the text.
pub proof fn lemma_trailing_space_bound(s: Seq<char>)
    ensures
        trailing_space(s) <= s.len(),
    decreases s.len(),
{
    if s.len() > 0 && white_space(s.last()) {
        lemma_trailing_space_bound(s.drop_last());
    }
}

/// Skipping the white space in front of `s[i..]` when `s[i]` is white space
/// is skipping one character and then the white space in front of the rest.
proof fn lemma_leading_space_step(s: Seq<char>, i: int)
    requires
        0 <= i < s.len(),
    ensures
        leading_space(s.skip(i)) == if white_space(s[i]) {
            1 + leading_space(s.skip(i + 1))
        } else {
            0
        },
{
    assert(s.skip(i).drop_first() =~= s.skip(i + 1));
}

/// The trailing white space of `s[..j]`, one character at a time.
proof fn lemma_trailing_space_step(s: Seq<char>, j: int)
    requires
        0 < j <= s.len(),
    ensures
        trailing_space(s.take(j)) == if white_space(s[j - 1]) {
            1 + trailing_space(s.take(j - 1))
        } else {
            0
        },
{
    assert(s.take(j).drop_last() =~= s.take(j - 1));
}

/// Where the trimmed part of `chars[from..to]` starts and ends.
pub fn trim_range(chars: &Vec<char>, from: usize, to: usize) -> (r: (usize, usize))
    requires
        from <= to <= chars@.len(),
    ensures
        from <= r.0 <= r.1 <= to,
        chars@.subrange(r.0 as int, r.1 as int) == trimmed(chars@.subrange(from as int, to as int)),
{
    let ghost whole = chars@.subrange(from as int, to as int);
    let mut start: usize = from;
    assert(whole.skip(0) =~= whole);
    while start < to && is_whitespace(chars[start])
        invariant
            from <= start <= to <= chars@.len(),
            whole == chars@.subrange(from as int, to as int),
            leading_space(whole) == (start - from) + leading_space(whole.skip(start - from)),
        decreases to - start,
    {
        proof {
            lemma_leading_space_step(whole, start - from);
        }
        start = start + 1;
    }
    proof {
        if start < to {
            lemma_leading_space_step(whole, start - from);
        } else {
            assert(whole.skip(start - from).len() == 0);
        }
    }
    let ghost rest = trim_start(whole);
    assert(rest =~= chars@.subrange(start as int, to as int));
    let mut end: usize = to;
    assert(rest.take(rest.len() as int) =~= rest);
    while end > start && is_whitespace(chars[end - 1])
        invariant
            start <= end <= to <= chars@.len(),
            rest == chars@.subrange(start as int, to as int),
            trailing_space(rest) == (to - end) + trailing_space(rest.take(end - start)),
        decreases end - start,
    {
        proof {
            lemma_trailing_space_step(rest, end - start);
        }
        end = end - 1;
    }
    proof {
        if end > start {
            lemma_trailing_space_step(rest, end - start);
        } else {
            assert(rest.take(0).len() == 0);
        }
        assert(rest.take(rest.len() - trailing_space(rest)) =~= chars@.subrange(
            start as int,
            end as int,
        ));
    }
    (start, end)
}

/// Whether `c` occurs in `chars`.
pub fn contains_char(chars: &Vec<char>, c: char) -> (r: bool)
    ensures
        r == chars@.contains(c),
{
    let mut i: usize = 0;
    while i < chars.len()
        invariant
            i <= chars@.len(),
            forall|k: int| 0 <= k < i ==> chars@[k] != c,
        decreases chars@.len() - i,
    {
        if chars[i] == c {
            return true;
        }
        i = i + 1;
    }
    false
}

/// Whether `chars[from..to]` spells `word`.
pub fn range_is(chars: &Vec<char>, from: usize, to: usize, word: &str) -> (r: bool)
    requires
        from <= to <= chars@.len(),
    ensures
        r == (chars@.subrange(from as int, to as int) == word@),
{
    let w = chars_of(word);
    assert(chars@.subrange(from as int, to as int).len() == to - from);
    if w.len() != to - from {
        return false;
    }
    let mut i: usize = 0;
    while i < w.len()
        invariant
            from <= to <= chars@.len(),
            w@.len() == to - from,
            w@ == word@,
            i <= w@.len(),
            forall|k: int| 0 <= k < i ==> chars@[from + k] == w@[k],
        decreases w@.len() - i,
    {
        if chars[from + i] != w[i] {
            assert(chars@.subrange(from as int, to as int)[i as int] == chars@[from + i]);
            return false;
        }
        i = i + 1;
    }
    assert(chars@.subrange(from as int, to as int) =~= w@);
    true
}

/// Whether `prefix` is a prefix of `s`.
pub open spec fn starts_with(s: Seq<char>, prefix: Seq<char>) -> bool {
    prefix.len() <= s.len() && s.take(prefix.len() as int) == prefix
}

/// Whether `chars` starts with `prefix`.
pub fn has_prefix(chars: &Vec<char>, prefix: &Vec<char>) -> (r: bool)
    ensures
        r == starts_with(chars@, prefix@),
{
    if prefix.len() > chars.len() {
        return false;
    }
    let mut i: usize = 0;
    while i < prefix.len()
        invariant
            prefix@.len() <= chars@.len(),
            i <= prefix@.len(),
            forall|k: int| 0 <= k < i ==> chars@[k] == prefix@[k],
        decreases prefix@.len() - i,
    {
        if chars[i] != prefix[i] {
            assert(chars@.take(prefix@.len() as int)[i as int] != prefix@[i as int]);
            return false;
        }
        i = i + 1;
    }
    assert(chars@.take(prefix@.len() as int) =~= prefix@);
    true
}

/// Number of bytes that `c` takes in UTF-8.
pub open spec fn utf8_width(c: char) -> nat {
    if (c as u32) < 0x80 {
        1
    } else if (c as u32) < 0x800 {
        2
    } else if (c as u32) < 0x10000 {
        3
    } else {
        4
    }
}

/// Number of bytes that `s` takes in UTF-8.
pub open spec fn utf8_len(s: Seq<char>) -> nat
    decreases s.len(),
{
    if s.len() == 0 {
        0
    } else {
        utf8_len(s.drop_last()) + utf8_width(s.last())
    }
}

/// Number of bytes that `c` takes in UTF-8.
pub fn width_of(c: char) -> (w: u8)
    ensures
        w == utf8_width(c),
{
    let code = c as u32;
    if code < 0x80 {
        1
    } else if code < 0x800 {
        2
    } else if code < 0x10000 {
        3
    } else {
        4
    }
}

/// A text of `n` characters takes between `n` and `4 n` bytes.
pub proof fn lemma_utf8_len_bounds(s: Seq<char>)
    ensures
        s.len() <= utf8_len(s) <= 4 * s.len(),
    decreases s.len(),
{
    if s.len() > 0 {
        lemma_utf8_len_bounds(s.drop_last());
    }
}

/// Number of bytes that `chars` takes in UTF-8.
pub fn byte_len(chars: &Vec<char>) -> (n: u128)
    ensures
        n == utf8_len(chars@),
{
    let mut n: u128 = 0;
    let mut i: usize = 0;
    assert(chars@.take(0) =~= Seq::<char>::empty());
    while i < chars.len()
        invariant
            i <= chars@.len(),
            n == utf8_len(chars@.take(i as int)),
            n <= 4 * i,
        decreases chars@.len() - i,
    {
        proof {
            assert(chars@.take(i + 1).drop_last() =~= chars@.take(i as int));
        }
        n = n + width_of(chars[i]) as u128;
        i = i + 1;
    }
    assert(chars@.take(chars@.len() as int) =~= chars@);
    n
}

/// The position in `s` that lies `bytes` bytes into its UTF-8 form, if
/// that is between two characters.
pub open spec fn char_index_at(s: Seq<char>, bytes: nat) -> Option<nat>
    decreases s.len(),
{
    if utf8_len(s) == bytes {
        Some(s.len())
    } else if s.len() == 0 {
        None
    } else {
        char_index_at(s.drop_last(), bytes)
    }
}

/// The byte length grows with every character.
pub proof fn lemma_utf8_len_grows(s: Seq<char>, i: int, j: int)
    requires
        0 <= i <= j <= s.len(),
    ensures
        utf8_len(s.take(i)) + (j - i) <= utf8_len(s.take(j)),
    decreases j - i,
{
    if i < j {
        lemma_utf8_len_grows(s, i, j - 1);
        assert(s.take(j).drop_last() =~= s.take(j - 1));
    }
}

/// `char_index_at` finds the one prefix with the given byte length.
pub proof fn lemma_char_index_at(s: Seq<char>, bytes: nat)
    ensures
        match char_index_at(s, bytes) {
            Some(i) => i <= s.len() && utf8_len(s.take(i as int)) == bytes,
            None => forall|i: int| 0 <= i <= s.len() ==> utf8_len(#[trigger] s.take(i)) != bytes,
        },
    decreases s.len(),
{
    if utf8_len(s) == bytes {
        assert(s.take(s.len() as int) =~= s);
    } else if s.len() == 0 {
        assert forall|i: int| 0 <= i <= s.len() implies utf8_len(#[trigger] s.take(i)) != bytes by {
            assert(s.take(i) =~= s);
        }
    } else {
        let front = s.drop_last();
        lemma_char_index_at(front, bytes);
        match char_index_at(front, bytes) {
            Some(i) => {
                assert(front.take(i as int) =~= s.take(i as int));
            },
            None => {
                assert forall|i: int| 0 <= i <= s.len() implies utf8_len(#[trigger] s.take(i))
                    != bytes by {
                    if i == s.len() {
                        assert(s.take(i) =~= s);
                    } else {
                        assert(front.take(i) =~= s.take(i));
                    }
                }
            },
        }
    }
}

/// The position in `chars` that lies `bytes` bytes into its UTF-8 form, if
/// that is between two characters.
pub fn index_at_byte(chars: &Vec<char>, bytes: u128) -> (r: Option<usize>)
    ensures
        match r {
            Some(i) => i <= chars@.len() && char_index_at(chars@, bytes as nat) == Some(i as nat),
            None => char_index_at(chars@, bytes as nat) is None,
        },
{
    let mut seen: u128 = 0;
    let mut i: usize = 0;
    assert(chars@.take(0) =~= Seq::<char>::empty());
    proof {
        lemma_char_index_at(chars@, bytes as nat);
    }
    while i < chars.len() && seen < bytes
        invariant
            i <= chars@.len(),
            seen == utf8_len(chars@.take(i as int)),
            seen <= 4 * i,
            forall|k: int| 0 <= k < i ==> utf8_len(#[trigger] chars@.take(k)) < bytes,
        decreases chars@.len() - i,
    {
        proof {
            assert(chars@.take(i + 1).drop_last() =~= chars@.take(i as int));
        }
        seen = seen + width_of(chars[i]) as u128;
        i = i + 1;
    }
    if seen == bytes {
        proof {
            match char_index_at(chars@, bytes as nat) {
                Some(j) => {
                    if (j as int) < i {
                        assert(utf8_len(chars@.take(j as int)) < bytes);
                    } else if (j as int) > i {
                        lemma_utf8_len_grows(chars@, i as int, j as int);
                    }
                },
                None => {
                    assert(utf8_len(chars@.take(i as int)) != bytes);
                },
            }
        }
        Some(i)
    } else {
        proof {
            match char_index_at(chars@, bytes as nat) {
                Some(j) => {
                    if (j as int) < i {
                        assert(utf8_len(chars@.take(j as int)) < bytes);
                    } else {
                        lemma_utf8_len_grows(chars@, i as int, j as int);
                    }
                },
                None => {},
            }
        }
        None
    }
}

/// Whether `c` is one of the digits `0` to `9`.
pub open spec fn is_digit(c: char) -> bool {
    '0' <= c <= '9'
}

/// The number that a run of digits denotes.
pub open spec fn digits_value(s: Seq<char>) -> nat
    decreases s.len(),
{
    if s.len() == 0 {
        0
    } else {
        digits_value(s.drop_last()) * 10 + ((s.last() as u32 - '0' as u32) as nat)
    }
}

/// What a run of digits parses to: there is at least one digit, nothing
/// but digits, and the number fits.
pub open spec fn parsed_digits(digits: Seq<char>) -> Option<u32> {
    if digits.len() > 0 && (forall|i: int| 0 <= i < digits.len() ==> is_digit(#[trigger] digits[i]))
        && digits_value(digits) <= u32::MAX {
        Some(digits_value(digits) as u32)
    } else {
        None
    }
}

/// What parsing `s` as an unsigned 32-bit number gives: the text is an
/// optional `+`, then one or more digits, and the number must fit.
pub open spec fn parsed_u32(s: Seq<char>) -> Option<u32> {
    if s.len() > 0 && s[0] == '+' {
        parsed_digits(s.drop_first())
    } else {
        parsed_digits(s)
    }
}

/// A longer run of digits denotes a number that is at least as large.
proof fn lemma_digits_value_grows(s: Seq<char>, i: int)
    requires
        0 <= i <= s.len(),
        forall|k: int| 0 <= k < s.len() ==> is_digit(#[trigger] s[k]),
    ensures
        digits_value(s.take(i)) <= digits_value(s),
    decreases s.len() - i,
{
    if i < s.len() {
        lemma_digits_value_grows(s, i + 1);
        assert(s.take(i + 1).drop_last() =~= s.take(i));
    } else {
        assert(s.take(i) =~= s);
    }
}

/// Parses `chars[from..to]` as an unsigned 32-bit number.
pub fn parse_u32(chars: &Vec<char>, from: usize, to: usize) -> (r: Option<u32>)
    requires
        from <= to <= chars@.len(),
    ensures
        r == parsed_u32(chars@.subrange(from as int, to as int)),
{
    let ghost s = chars@.subrange(from as int, to as int);
    let mut i: usize = from;
    if i < to && chars[i] == '+' {
        i = i + 1;
    }
    let first: usize = i;
    let ghost digits = chars@.subrange(first as int, to as int);
    assert(digits =~= if s.len() > 0 && s[0] == '+' {
        s.drop_first()
    } else {
        s
    });
    assert(parsed_u32(s) == parsed_digits(digits));
    if first == to {
        return None;
    }
    let mut value: u64 = 0;
    assert(digits.take(0) =~= Seq::<char>::empty());
    while i < to
        invariant
            first <= i <= to <= chars@.len(),
            digits == chars@.subrange(first as int, to as int),
            first < to,
            parsed_u32(chars@.subrange(from as int, to as int)) == parsed_digits(digits),
            forall|k: int| 0 <= k < i - first ==> is_digit(#[trigger] digits[k]),
            value == digits_value(digits.take(i - first)),
            value <= u32::MAX,
        decreases to - i,
    {
        let c = chars[i];
        assert(digits[i - first] == c);
        if !('0' <= c && c <= '9') {
            assert(!is_digit(digits[i - first]));
            return None;
        }
        let d: u64 = (c as u32 - '0' as u32) as u64;
        proof {
            assert(digits.take(i - first + 1).drop_last() =~= digits.take(i - first));
        }
        value = value * 10 + d;
        i = i + 1;
        if value > u32::MAX as u64 {
            proof {
                if forall|k: int| 0 <= k < digits.len() ==> is_digit(#[trigger] digits[k]) {
                    lemma_digits_value_grows(digits, i - first);
                }
            }
            return None;
        }
    }
    assert(digits.take(digits.len() as int) =~= digits);
    Some(value as u32)
}

/// The character that stands for a digit.
pub open spec fn digit_char(d: nat) -> char {
    ((48 + d) as u8) as char
}

/// The decimal form of a number, without leading zeros.
pub open spec fn decimal_text(n: nat) -> Seq<char>
    decreases n,
{
    if n < 10 {
        seq![digit_char(n)]
    } else {
        decimal_text(n / 10).push(digit_char(n % 10))
    }
}

/// Appends the decimal form of `n` to `s`.
pub fn push_decimal(s: &mut String, n: u32)
    ensures
        final(s)@ == old(s)@ + decimal_text(n as nat),
    decreases n,
{
    if n >= 10 {
        push_decimal(s, n / 10);
    }
    let ghost before = s@;
    push_char(s, (48u8 + (n % 10) as u8) as char);
    proof {
        if n >= 10 {
            assert(before.push(digit_char((n % 10) as nat)) =~= old(s)@ + decimal_text(n as nat));
        } else {
            assert(before.push(digit_char(n as nat)) =~= old(s)@ + decimal_text(n as nat));
        }
    }
}

/// The decimal form of a number is made of digits and denotes the number.
pub proof fn lemma_decimal_text_denotes(n: nat)
    ensures
        decimal_text(n).len() >= 1,
        forall|i: int| 0 <= i < decimal_text(n).len() ==> is_digit(#[trigger] decimal_text(n)[i]),
        digits_value(decimal_text(n)) == n,
    decreases n,
{
    let d = n % 10;
    assert(digit_char(d) as u32 == 48 + d);
    assert('0' as u32 == 48);
    assert(decimal_text(n).last() == digit_char(d));
    if n >= 10 {
        lemma_decimal_text_denotes(n / 10);
        assert(decimal_text(n).drop_last() =~= decimal_text(n / 10));
    } else {
        assert(decimal_text(n).drop_last() =~= Seq::<char>::empty());
        assert(digits_value(Seq::<char>::empty()) == 0);
    }
}

/// The texts of a list of strings.
pub open spec fn texts(v: Seq<String>) -> Seq<Seq<char>> {
    v.map_values(|s: String| s@)
}

/// The text of an optional string.
pub open spec fn opt_text(s: Option<String>) -> Option<Seq<char>> {
    match s {
        Some(t) => Some(t@),
        None => None,
    }
}

/// The text of an optional string slice.
pub open spec fn opt_str(s: Option<&str>) -> Option<Seq<char>> {
    match s {
        Some(t) => Some(t@),
        None => None,
    }
}

} // verus!
