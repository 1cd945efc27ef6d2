//! Text helpers shared by the scanner, the parser and the code generator:
//! character classes, conversions between strings and character vectors,
//! decimal numbers, escape sequences and string assembly.

use vstd::prelude::*;

verus! {

/// `String::push` of std appends one character to the end of the string.
pub assume_specification[ std::string::String::push ](s: &mut std::string::String, ch: char)
    ensures
        final(s)@ == old(s)@.push(ch),
;

/// Whether a character is alphanumeric in the sense of Unicode, as
/// `char::is_alphanumeric` of std decides it. The library asks it of
/// characters outside ASCII only.
pub uninterp spec fn alphanumeric(c: char) -> bool;

/// `char::is_alphanumeric` of std: a function of the character alone.
pub assume_specification[ char::is_alphanumeric ](c: char) -> (b: bool)
    ensures
        b == alphanumeric(c),
;

/// Whether a character is white space in the sense of Unicode: the
/// characters from tab to carriage return, the space, next line, the
/// no-break space, the Ogham space mark, the spaces from en quad to
/// hair space, line and paragraph separator, the narrow no-break
/// space, the medium mathematical space and the ideographic space.
pub open spec fn whitespace(c: char) -> bool {
    let n = c as u32;
    (0x09 <= n <= 0x0d) || n == 0x20 || n == 0x85 || n == 0xa0 || n == 0x1680 || (0x2000 <= n
        <= 0x200a) || n == 0x2028 || n == 0x2029 || n == 0x202f || n == 0x205f || n == 0x3000
}

/// `char::is_whitespace` of std says whether the character is white
/// space in the sense of Unicode (`White_Space`).
pub assume_specification[ char::is_whitespace ](c: char) -> (b: bool)
    ensures
        b == whitespace(c),
;

/// The Unicode lowercase form of a text, as `str::to_lowercase` of std
/// computes it. The library asks it of texts that are not all ASCII
/// only.
pub uninterp spec fn lowercase(s: Seq<char>) -> Seq<char>;

/// `str::to_lowercase` of std: a function of the text alone.
pub assume_specification[ str::to_lowercase ](s: &str) -> (r: std::string::String)
    ensures
        r@ == lowercase(s@),
;

/// A decimal digit `0..=9`.
pub open spec fn is_digit(c: char) -> bool {
    '0' <= c <= '9'
}

/// Whether a character is in ASCII.
pub open spec fn is_ascii(c: char) -> bool {
    (c as u32) < 128
}

/// Whether a character is a letter or a digit: in ASCII one of `a` to
/// `z`, `A` to `Z` and `0` to `9`; outside it a character that is
/// alphanumeric in the sense of Unicode.
pub open spec fn letter_or_digit(c: char) -> bool {
    if is_ascii(c) {
        ('a' <= c <= 'z') || ('A' <= c <= 'Z') || is_digit(c)
    } else {
        alphanumeric(c)
    }
}

/// A character that may continue an identifier or a keyword.
pub open spec fn is_word_char(c: char) -> bool {
    letter_or_digit(c) || c == '_'
}

pub fn char_is_digit(c: char) -> (b: bool)
    ensures
        b == is_digit(c),
{
    '0' <= c && c <= '9'
}

pub fn char_is_ascii(c: char) -> (b: bool)
    ensures
        b == is_ascii(c),
{
    c <= '\u{7f}'
}

pub fn char_is_letter_or_digit(c: char) -> (b: bool)
    ensures
        b == letter_or_digit(c),
{
    if char_is_ascii(c) {
        ('a' <= c && c <= 'z') || ('A' <= c && c <= 'Z') || ('0' <= c && c <= '9')
    } else {
        c.is_alphanumeric()
    }
}

pub fn char_is_word(c: char) -> (b: bool)
    ensures
        b == is_word_char(c),
{
    char_is_letter_or_digit(c) || c == '_'
}

/// The characters of a string, in order.
pub fn to_chars(s: &str) -> (v: Vec<char>)
    ensures
        v@ == s@,
{
    let mut v: Vec<char> = Vec::new();
    for c in it: s.chars()
        invariant
            v@ == it.seq().take(it.index() as int),
    {
        v.push(c);
    }
    v
}

/// The string made of the characters `v[from..to]`.
pub fn substring(v: &Vec<char>, from: usize, to: usize) -> (s: String)
    requires
        from <= to <= v.len(),
    ensures
        s@ == v@.subrange(from as int, to as int),
{
    let mut s = String::new();
    let mut i: usize = from;
    while i < to
        invariant
            from <= i <= to <= v.len(),
            s@ == v@.subrange(from as int, i as int),
        decreases to - i,
    {
        s.push(v[i]);
        i = i + 1;
    }
    s
}

/// The string made of all the characters of `v`.
pub fn from_chars(v: &Vec<char>) -> (s: String)
    ensures
        s@ == v@,
{
    let s = substring(v, 0, v.len());
    assert(v@.subrange(0, v@.len() as int) == v@);
    s
}

/// A copy of a text.
pub fn copy_str(s: &str) -> (r: String)
    ensures
        r@ == s@,
{
    String::from_str(s)
}

pub fn join2(a: &str, b: &str) -> (r: String)
    ensures
        r@ == a@ + b@,
{
    let mut r = String::from_str(a);
    r.append(b);
    r
}

pub fn join3(a: &str, b: &str, c: &str) -> (r: String)
    ensures
        r@ == a@ + b@ + c@,
{
    let mut r = join2(a, b);
    r.append(c);
    r
}

pub fn join4(a: &str, b: &str, c: &str, d: &str) -> (r: String)
    ensures
        r@ == a@ + b@ + c@ + d@,
{
    let mut r = join3(a, b, c);
    r.append(d);
    r
}

pub fn join5(a: &str, b: &str, c: &str, d: &str, e: &str) -> (r: String)
    ensures
        r@ == a@ + b@ + c@ + d@ + e@,
{
    let mut r = join4(a, b, c, d);
    r.append(e);
    r
}

pub fn join6(a: &str, b: &str, c: &str, d: &str, e: &str, f: &str) -> (r: String)
    ensures
        r@ == a@ + b@ + c@ + d@ + e@ + f@,
{
    let mut r = join5(a, b, c, d, e);
    r.append(f);
    r
}

pub fn join7(a: &str, b: &str, c: &str, d: &str, e: &str, f: &str, g: &str) -> (r: String)
    ensures
        r@ == a@ + b@ + c@ + d@ + e@ + f@ + g@,
{
    let mut r = join6(a, b, c, d, e, f);
    r.append(g);
    r
}

/// The character that writes the digit `d`.
pub open spec fn digit_char(d: int) -> char {
    ((48 + d) as u8) as char
}

/// The digit that the character `c` writes.
pub open spec fn digit_value(c: char) -> int {
    (c as u8) as int - 48
}

/// The decimal notation of a natural number, without leading zeros.
pub open spec fn decimal(n: nat) -> Seq<char>
    decreases n,
{
    if n < 10 {
        seq![digit_char(n as int)]
    } else {
        decimal(n / 10).push(digit_char((n % 10) as int))
    }
}

/// The decimal notation of an integer, with a leading `-` below zero.
pub open spec fn signed_decimal(n: int) -> Seq<char> {
    if n < 0 {
        seq!['-'] + decimal((-n) as nat)
    } else {
        decimal(n as nat)
    }
}

fn push_decimal(s: &mut String, n: u64)
    ensures
        final(s)@ == old(s)@ + decimal(n as nat),
    decreases n,
{
    if n < 10 {
        let d: u8 = n as u8;
        s.push((48u8 + d) as char);
        assert(old(s)@.push(digit_char(n as int)) == old(s)@ + decimal(n as nat));
    } else {
        push_decimal(s, n / 10);
        let d: u8 = (n % 10) as u8;
        s.push((48u8 + d) as char);
        assert((old(s)@ + decimal((n / 10) as nat)).push(digit_char((n % 10) as int)) == old(s)@
            + decimal(n as nat));
    }
}

/// The decimal notation of `n`.
pub fn u64_to_string(n: u64) -> (s: String)
    ensures
        s@ == decimal(n as nat),
{
    let mut s = String::new();
    push_decimal(&mut s, n);
    assert(Seq::<char>::empty() + decimal(n as nat) == decimal(n as nat));
    s
}

/// The decimal notation of `n`.
pub fn usize_to_string(n: usize) -> (s: String)
    ensures
        s@ == decimal(n as nat),
{
    u64_to_string(n as u64)
}

/// The decimal notation of `n`, with a leading `-` below zero.
pub fn i64_to_string(n: i64) -> (s: String)
    ensures
        s@ == signed_decimal(n as int),
{
    if n < 0 {
        let m: u64 = ((-(n + 1)) as u64) + 1;
        let mut s = String::new();
        s.push('-');
        push_decimal(&mut s, m);
        assert(Seq::<char>::empty().push('-') == seq!['-']);
        s
    } else {
        u64_to_string(n as u64)
    }
}

/// Whether every character of `s` is a decimal digit.
pub open spec fn all_digits(s: Seq<char>) -> bool {
    forall|i: int| 0 <= i < s.len() ==> is_digit(#[trigger] s[i])
}

/// The number that a sequence of decimal digits writes.
pub open spec fn digits_value(s: Seq<char>) -> nat
    decreases s.len(),
{
    if s.len() == 0 {
        0
    } else {
        (digits_value(s.drop_last()) * 10 + digit_value(s.last())) as nat
    }
}

/// What an integer literal denotes: the value of its digits where the
/// text is a nonempty run of digits whose value fits in an `i64`.
pub open spec fn integer_literal(s: Seq<char>) -> Option<i64> {
    if s.len() > 0 && all_digits(s) && digits_value(s) <= i64::MAX {
        Some(digits_value(s) as i64)
    } else {
        None
    }
}

proof fn lemma_digits_value_monotone(s: Seq<char>, k: int)
    requires
        all_digits(s),
        0 <= k <= s.len(),
    ensures
        digits_value(s.take(k)) <= digits_value(s),
    decreases s.len() - k,
{
    if k < s.len() {
        let t = s.take(k + 1);
        assert(t.drop_last() == s.take(k));
        assert(t.last() == s[k]);
        assert(is_digit(s[k]));
        lemma_digits_value_monotone(s, k + 1);
    } else {
        assert(s.take(k) == s);
    }
}

/// The number that `s` writes, where it is a nonempty run of digits
/// whose value is `limit` at most.
pub open spec fn bounded_digits(s: Seq<char>, limit: nat) -> Option<nat> {
    if s.len() > 0 && all_digits(s) && digits_value(s) <= limit {
        Some(digits_value(s))
    } else {
        None
    }
}

/// What a decimal number with an optional sign before it denotes: the
/// value of its digits, below zero behind a `-`, where the digits are a
/// nonempty run and the value fits in an `i64`.
pub open spec fn signed_integer(s: Seq<char>) -> Option<i64> {
    if s.len() > 0 && s[0] == '-' {
        match bounded_digits(s.subrange(1, s.len() as int), (i64::MAX + 1) as nat) {
            Some(m) => Some((0 - m) as i64),
            None => None,
        }
    } else if s.len() > 0 && s[0] == '+' {
        integer_literal(s.subrange(1, s.len() as int))
    } else {
        integer_literal(s)
    }
}

/// Reads the digits `v[from..]` as a number that is `limit` at most.
pub fn parse_digits(v: &Vec<char>, from: usize, limit: u64) -> (r: Option<u64>)
    requires
        from <= v.len(),
    ensures
        match bounded_digits(v@.subrange(from as int, v@.len() as int), limit as nat) {
            Some(m) => r == Some(m as u64),
            None => r is None,
        },
{
    let ghost s = v@.subrange(from as int, v@.len() as int);
    if from == v.len() {
        return None;
    }
    let mut acc: u64 = 0;
    let mut i: usize = from;
    while i < v.len()
        invariant
            from <= i <= v.len(),
            s == v@.subrange(from as int, v@.len() as int),
            all_digits(s.take(i - from)),
            acc as int == digits_value(s.take(i - from)),
            acc <= limit,
        decreases v.len() - i,
    {
        let c = v[i];
        proof {
            assert(s.take(i - from + 1).drop_last() == s.take(i - from));
            assert(s.take(i - from + 1).last() == c);
        }
        if !char_is_digit(c) {
            assert(!all_digits(s)) by {
                assert(!is_digit(s[i - from]));
            }
            return None;
        }
        let d: u64 = ((c as u8) - 48u8) as u64;
        if d > limit || acc > (limit - d) / 10 {
            proof {
                if all_digits(s) {
                    lemma_digits_value_monotone(s, i - from + 1);
                }
            }
            return None;
        }
        acc = acc * 10 + d;
        proof {
            let t = s.take(i - from + 1);
            assert forall|j: int| 0 <= j < t.len() implies is_digit(#[trigger] t[j]) by {
                if j < i - from {
                    assert(t[j] == s.take(i - from)[j]);
                }
            }
        }
        i = i + 1;
    }
    assert(s.take(s.len() as int) == s);
    Some(acc)
}

/// Reads an integer literal.
pub fn parse_integer(text: &str) -> (r: Option<i64>)
    ensures
        r == integer_literal(text@),
{
    let v = to_chars(text);
    assert(v@.subrange(0, v@.len() as int) == v@);
    match parse_digits(&v, 0, 0x7fff_ffff_ffff_ffffu64) {
        Some(m) => Some(m as i64),
        None => None,
    }
}

/// Reads a decimal number with an optional sign before it.
pub fn parse_signed(text: &str) -> (r: Option<i64>)
    ensures
        r == signed_integer(text@),
{
    let v = to_chars(text);
    if v.len() > 0 && v[0] == '-' {
        match parse_digits(&v, 1, 0x8000_0000_0000_0000u64) {
            Some(m) => if m == 0x8000_0000_0000_0000u64 {
                Some(i64::MIN)
            } else {
                Some(0 - (m as i64))
            },
            None => None,
        }
    } else if v.len() > 0 && v[0] == '+' {
        match parse_digits(&v, 1, 0x7fff_ffff_ffff_ffffu64) {
            Some(m) => Some(m as i64),
            None => None,
        }
    } else {
        assert(v@.subrange(0, v@.len() as int) == v@);
        match parse_digits(&v, 0, 0x7fff_ffff_ffff_ffffu64) {
            Some(m) => Some(m as i64),
            None => None,
        }
    }
}

/// The lowercase form of an ASCII capital letter; any other character
/// as it is.
pub open spec fn ascii_lower(c: char) -> char {
    if 'A' <= c <= 'Z' {
        (((c as u8) + 32) as u8) as char
    } else {
        c
    }
}

/// Whether every character of a text is in ASCII.
pub open spec fn all_ascii(s: Seq<char>) -> bool {
    forall|i: int| 0 <= i < s.len() ==> is_ascii(#[trigger] s[i])
}

/// A text with each ASCII capital letter in its lowercase form.
pub open spec fn ascii_lowered(s: Seq<char>) -> Seq<char> {
    Seq::new(s.len(), |i: int| ascii_lower(s[i]))
}

/// The lowercase form of a text: of a text in ASCII, the text with each
/// capital letter in its lowercase form; of any other, its Unicode
/// lowercase form.
pub open spec fn lowered(s: Seq<char>) -> Seq<char> {
    if all_ascii(s) {
        ascii_lowered(s)
    } else {
        lowercase(s)
    }
}

/// Whether two texts are equal when the case of ASCII letters is ignored.
pub open spec fn same_ignoring_case(a: Seq<char>, b: Seq<char>) -> bool {
    &&& a.len() == b.len()
    &&& forall|i: int| 0 <= i < a.len() ==> ascii_lower(#[trigger] a[i]) == ascii_lower(b[i])
}

pub fn char_ascii_lower(c: char) -> (r: char)
    ensures
        r == ascii_lower(c),
{
    if 'A' <= c && c <= 'Z' {
        ((c as u8) + 32u8) as char
    } else {
        c
    }
}

/// The lowercase form of a text.
pub fn to_lower(text: &str) -> (r: String)
    ensures
        r@ == lowered(text@),
{
    let v = to_chars(text);
    let mut r = String::new();
    let mut i: usize = 0;
    while i < v.len()
        invariant
            i <= v.len(),
            v@ == text@,
            all_ascii(v@.take(i as int)),
            r@ == ascii_lowered(v@.take(i as int)),
        decreases v.len() - i,
    {
        let c = v[i];
        if !char_is_ascii(c) {
            assert(!all_ascii(v@)) by {
                assert(!is_ascii(v@[i as int]));
            }
            return text.to_lowercase();
        }
        r.push(char_ascii_lower(c));
        proof {
            let t = v@.take(i as int + 1);
            assert(t.drop_last() == v@.take(i as int));
            assert forall|j: int| 0 <= j < t.len() implies is_ascii(#[trigger] t[j]) by {
                if j < i {
                    assert(t[j] == v@.take(i as int)[j]);
                }
            }
            assert(r@ =~= ascii_lowered(t));
        }
        i = i + 1;
    }
    assert(v@.take(v@.len() as int) == v@);
    r
}

/// Compares two texts, ignoring the case of ASCII letters.
pub fn eq_ignore_case(a: &str, b: &str) -> (r: bool)
    ensures
        r == same_ignoring_case(a@, b@),
{
    let x = to_chars(a);
    let y = to_chars(b);
    if x.len() != y.len() {
        return false;
    }
    let mut i: usize = 0;
    while i < x.len()
        invariant
            i <= x.len(),
            x.len() == y.len(),
            x@ == a@,
            y@ == b@,
            forall|j: int| 0 <= j < i ==> ascii_lower(#[trigger] x@[j]) == ascii_lower(y@[j]),
        decreases x.len() - i,
    {
        if char_ascii_lower(x[i]) != char_ascii_lower(y[i]) {
            return false;
        }
        i = i + 1;
    }
    true
}

/// Compares two texts.
pub fn same(a: &str, b: &str) -> (r: bool)
    ensures
        r == (a@ == b@),
{
    let x = to_chars(a);
    let y = to_chars(b);
    if x.len() != y.len() {
        return false;
    }
    let mut i: usize = 0;
    while i < x.len()
        invariant
            i <= x.len(),
            x.len() == y.len(),
            x@ == a@,
            y@ == b@,
            forall|j: int| 0 <= j < i ==> x@[j] == y@[j],
        decreases x.len() - i,
    {
        if x[i] != y[i] {
            return false;
        }
        i = i + 1;
    }
    assert(x@ =~= y@);
    true
}

/// The character that an escape sequence denotes, given the character
/// that follows the backslash.
pub open spec fn escape_code(c: char) -> Option<char> {
    if c == 'n' {
        Some('\n')
    } else if c == 't' {
        Some('\t')
    } else if c == 'r' {
        Some('\r')
    } else if c == '"' {
        Some('"')
    } else if c == '\'' {
        Some('\'')
    } else if c == '\\' {
        Some('\\')
    } else {
        None
    }
}

/// The character to write after a backslash for a character that needs
/// an escape sequence.
pub open spec fn escape_letter(c: char) -> Option<char> {
    if c == '\n' {
        Some('n')
    } else if c == '\t' {
        Some('t')
    } else if c == '\r' {
        Some('r')
    } else if c == '"' {
        Some('"')
    } else if c == '\'' {
        Some('\'')
    } else if c == '\\' {
        Some('\\')
    } else {
        None
    }
}

/// The text that a string literal's raw content denotes: each escape
/// sequence, read from the left, gives the character it stands for; a
/// backslash that starts no escape sequence stays as it is.
pub open spec fn unescape(s: Seq<char>) -> Seq<char>
    decreases s.len(),
{
    if s.len() == 0 {
        s
    } else if s[0] == '\\' && s.len() >= 2 && escape_code(s[1]) is Some {
        seq![escape_code(s[1])->0] + unescape(s.skip(2))
    } else {
        seq![s[0]] + unescape(s.skip(1))
    }
}

/// The raw content that denotes a text: every character that has an
/// escape sequence is written as that sequence.
pub open spec fn escape(s: Seq<char>) -> Seq<char>
    decreases s.len(),
{
    if s.len() == 0 {
        s
    } else {
        match escape_letter(s[0]) {
            Some(l) => seq!['\\', l] + escape(s.skip(1)),
            None => seq![s[0]] + escape(s.skip(1)),
        }
    }
}

/// Whether a backslash occurs in the text.
pub open spec fn has_backslash(s: Seq<char>) -> bool {
    exists|i: int| 0 <= i < s.len() && #[trigger] s[i] == '\\'
}

/// A text without a backslash holds no escape sequence, and denotes
/// itself.
pub proof fn lemma_unescape_plain(s: Seq<char>)
    requires
        !has_backslash(s),
    ensures
        unescape(s) == s,
    decreases s.len(),
{
    if s.len() > 0 {
        assert(s[0] != '\\');
        let t = s.skip(1);
        assert forall|i: int| 0 <= i < t.len() implies #[trigger] t[i] != '\\' by {
            assert(t[i] == s[i + 1]);
        }
        lemma_unescape_plain(t);
        assert(seq![s[0]] + t =~= s);
    }
}

/// Writing a text with escape sequences and reading it back gives the
/// text again.
pub proof fn lemma_unescape_escape(s: Seq<char>)
    ensures
        unescape(escape(s)) == s,
    decreases s.len(),
{
    if s.len() > 0 {
        let t = s.skip(1);
        lemma_unescape_escape(t);
        let e = escape(s);
        match escape_letter(s[0]) {
            Some(l) => {
                assert(e[0] == '\\');
                assert(e[1] == l);
                assert(escape_code(l) == Some(s[0]));
                assert(e.skip(2) =~= escape(t));
            },
            None => {
                assert(e[0] == s[0]);
                assert(e.skip(1) =~= escape(t));
            },
        }
        assert(seq![s[0]] + t =~= s);
    }
}

fn char_escape_code(c: char) -> (r: Option<char>)
    ensures
        r == escape_code(c),
{
    if c == 'n' {
        Some('\n')
    } else if c == 't' {
        Some('\t')
    } else if c == 'r' {
        Some('\r')
    } else if c == '"' {
        Some('"')
    } else if c == '\'' {
        Some('\'')
    } else if c == '\\' {
        Some('\\')
    } else {
        None
    }
}

fn char_escape_letter(c: char) -> (r: Option<char>)
    ensures
        r == escape_letter(c),
{
    if c == '\n' {
        Some('n')
    } else if c == '\t' {
        Some('t')
    } else if c == '\r' {
        Some('r')
    } else if c == '"' {
        Some('"')
    } else if c == '\'' {
        Some('\'')
    } else if c == '\\' {
        Some('\\')
    } else {
        None
    }
}

/// The text that the raw content `v[from..to]` denotes.
pub fn unescape_range(v: &Vec<char>, from: usize, to: usize) -> (s: String)
    requires
        from <= to <= v.len(),
    ensures
        s@ == unescape(v@.subrange(from as int, to as int)),
{
    let mut s = String::new();
    let mut i: usize = from;
    while i < to
        invariant
            from <= i <= to <= v.len(),
            s@ + unescape(v@.subrange(i as int, to as int)) == unescape(
                v@.subrange(from as int, to as int),
            ),
        decreases to - i,
    {
        let ghost rest = v@.subrange(i as int, to as int);
        let c = v[i];
        assert(rest[0] == c);
        let code = if c == '\\' && i + 1 < to {
            assert(rest[1] == v@[i + 1]);
            char_escape_code(v[i + 1])
        } else {
            None
        };
        match code {
            Some(d) => {
                assert(rest.skip(2) =~= v@.subrange(i as int + 2, to as int));
                assert(s@.push(d) + unescape(rest.skip(2)) =~= s@ + unescape(rest));
                s.push(d);
                i = i + 2;
            },
            None => {
                assert(rest.skip(1) =~= v@.subrange(i as int + 1, to as int));
                assert(s@.push(c) + unescape(rest.skip(1)) =~= s@ + unescape(rest));
                s.push(c);
                i = i + 1;
            },
        }
    }
    assert(v@.subrange(to as int, to as int) =~= Seq::<char>::empty());
    assert(s@ + Seq::<char>::empty() =~= s@);
    s
}

/// The raw content that denotes the text `t`.
pub fn escape_text(t: &str) -> (s: String)
    ensures
        s@ == escape(t@),
{
    let v = to_chars(t);
    let mut s = String::new();
    let mut i: usize = 0;
    assert(v@.skip(0) =~= v@);
    while i < v.len()
        invariant
            i <= v.len(),
            v@ == t@,
            s@ + escape(v@.skip(i as int)) == escape(v@),
        decreases v.len() - i,
    {
        let ghost rest = v@.skip(i as int);
        let c = v[i];
        assert(rest[0] == c);
        assert(rest.skip(1) =~= v@.skip(i as int + 1));
        match char_escape_letter(c) {
            Some(l) => {
                assert(s@.push('\\').push(l) + escape(rest.skip(1)) =~= s@ + escape(rest));
                s.push('\\');
                s.push(l);
            },
            None => {
                assert(s@.push(c) + escape(rest.skip(1)) =~= s@ + escape(rest));
                s.push(c);
            },
        }
        i = i + 1;
    }
    assert(v@.skip(v@.len() as int) =~= Seq::<char>::empty());
    assert(s@ + Seq::<char>::empty() =~= s@);
    s
}

} // verus!
