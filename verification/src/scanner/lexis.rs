//! What the scanner computes, stated over the characters of the source.

use crate::base::errors::SyntaxErrorView;
use crate::base::token::{Kind, TokenView};
use crate::scanner::position::Position;
use crate::text::{is_digit, is_word_char, letter_or_digit, unescape, whitespace};
use vstd::prelude::*;

verus! {

/// Where a scanner stands in its source.
///
/// `current` is the index of the character read last; while `init` holds
/// nothing has been read yet. `line_num` counts lines from 1, and
/// `line_start` is the index at which the current line begins.
pub ghost struct Cursor {
    pub current: int,
    pub line_num: int,
    pub line_start: int,
    pub init: bool,
}

/// What one step of the scanner gives: a token or an error, and where
/// the scanner stands afterwards.
pub ghost struct Scanned {
    pub result: Result<TokenView, SyntaxErrorView>,
    pub cursor: Cursor,
}

/// A number without sign as an `i64`, the largest `i64` where it does
/// not fit.
pub open spec fn clamp_i64(n: int) -> i64 {
    if n < 0 {
        0i64
    } else if n > i64::MAX {
        i64::MAX
    } else {
        n as i64
    }
}

impl Cursor {
    /// The cursor of a scanner that has read nothing.
    pub open spec fn start() -> Cursor {
        Cursor { current: 0, line_num: 1, line_start: 0, init: true }
    }

    /// The cursor once the character at index `i` has been read.
    pub open spec fn at(self, i: int) -> Cursor {
        Cursor { current: i, init: false, ..self }
    }

    /// The cursor once the end of a line has been read.
    pub open spec fn newline(self) -> Cursor {
        Cursor {
            line_num: if self.line_num < usize::MAX {
                self.line_num + 1
            } else {
                self.line_num
            },
            line_start: self.current + 1,
            ..self
        }
    }

    /// The index of the character that is read next.
    pub open spec fn next_index(self) -> int {
        if self.init {
            0
        } else {
            self.current + 1
        }
    }

    /// The cursor after one character more has been read, if there is
    /// one.
    pub open spec fn stepped(self, src: Seq<char>) -> Cursor {
        if self.init {
            Cursor { init: false, ..self }
        } else if self.current < src.len() {
            Cursor { current: self.current + 1, ..self }
        } else {
            self
        }
    }

    /// The cursor one character back; at the first character, and
    /// before anything was read, the cursor itself.
    pub open spec fn back(self) -> Cursor {
        if !self.init && self.current > 0 {
            Cursor { current: self.current - 1, ..self }
        } else {
            self
        }
    }

    /// The position that tokens and errors made here carry.
    pub open spec fn position(self) -> Position {
        Position {
            char_number: self.current as usize,
            line: clamp_i64(self.line_num),
            col: clamp_i64(self.current - self.line_start),
        }
    }

    /// Whether the cursor fits the source.
    pub open spec fn fits(self, src: Seq<char>) -> bool {
        &&& 0 <= self.current <= src.len() <= usize::MAX
        &&& 0 <= self.line_num <= usize::MAX
        &&& 0 <= self.line_start <= usize::MAX
        &&& self.init ==> self.current == 0
    }

    /// How many characters are left to read, and one more while nothing
    /// was read.
    pub open spec fn remaining(self, src: Seq<char>) -> nat {
        if self.init {
            src.len() + 1
        } else if self.current <= src.len() {
            (src.len() - self.current) as nat
        } else {
            0
        }
    }
}

/// The character under the cursor.
pub open spec fn peek(src: Seq<char>, c: Cursor) -> Option<char> {
    if 0 <= c.current < src.len() {
        Some(src[c.current])
    } else {
        None
    }
}

/// The character after the one under the cursor.
pub open spec fn peek_next(src: Seq<char>, c: Cursor) -> Option<char> {
    if 0 <= c.current && c.current + 1 < src.len() {
        Some(src[c.current + 1])
    } else {
        None
    }
}

/// The end of the line that holds index `i`: the index of its newline,
/// or the length of the source.
pub open spec fn line_end(src: Seq<char>, i: int) -> int
    decreases src.len() - i,
{
    if 0 <= i < src.len() && src[i] != '\n' {
        line_end(src, i + 1)
    } else {
        i
    }
}

/// The index at which line `n` begins, lines counted from 0; the length
/// of the source where there is no such line.
pub open spec fn line_begin(src: Seq<char>, n: nat) -> int
    decreases n,
{
    if n == 0 {
        0
    } else {
        let e = line_end(src, line_begin(src, (n - 1) as nat));
        if e < src.len() {
            e + 1
        } else {
            src.len() as int
        }
    }
}

/// The text of line `n`, lines counted from 0, without the newline that
/// ends it and without a carriage return before that newline; empty
/// where there is no such line.
pub open spec fn line_of(src: Seq<char>, n: nat) -> Seq<char> {
    let s = line_begin(src, n);
    let e = line_end(src, s);
    if s < e < src.len() && src[e - 1] == '\r' {
        src.subrange(s, e - 1)
    } else if s <= e <= src.len() {
        src.subrange(s, e)
    } else {
        Seq::empty()
    }
}

/// The line that the cursor is on.
pub open spec fn current_line(src: Seq<char>, c: Cursor) -> Seq<char> {
    if c.line_num >= 1 {
        line_of(src, (c.line_num - 1) as nat)
    } else {
        line_of(src, 0)
    }
}

/// The end of the run of word characters that begins at `i`.
pub open spec fn word_end(src: Seq<char>, i: int) -> int
    decreases src.len() - i,
{
    if 0 <= i < src.len() && is_word_char(src[i]) {
        word_end(src, i + 1)
    } else {
        i
    }
}

/// The index of the first whitespace character at or after `i`, or the
/// length of the source.
pub open spec fn junk_end(src: Seq<char>, i: int) -> int
    decreases src.len() - i,
{
    if 0 <= i < src.len() && !whitespace(src[i]) {
        junk_end(src, i + 1)
    } else {
        i
    }
}

/// The index of the character that closes a block comment: the second
/// character of the first pair `*` `closer` that begins at or after `i`.
pub open spec fn comment_close(src: Seq<char>, i: int, closer: char) -> Option<int>
    decreases src.len() - i,
{
    if i < 0 || i + 1 >= src.len() {
        None
    } else if src[i] == '*' && src[i + 1] == closer {
        Some(i + 1)
    } else {
        comment_close(src, i + 1, closer)
    }
}

/// The index of the quote that closes a string literal whose content
/// begins at `i`. A backslash takes the character behind it along, so a
/// quote behind a backslash closes nothing.
pub open spec fn string_close(src: Seq<char>, i: int) -> Option<int>
    decreases src.len() - i,
{
    if i < 0 || i >= src.len() {
        None
    } else if src[i] == '"' {
        Some(i)
    } else if src[i] == '\\' {
        if i + 1 < src.len() {
            string_close(src, i + 2)
        } else {
            None
        }
    } else {
        string_close(src, i + 1)
    }
}

/// The end of a numeric literal that goes on at `i`, and whether it is
/// a real number. `real` says that a `.` was met, `has_exp` that the
/// exponent marker was met, `after_exp` that it was the character just
/// before `i`: only there a sign may stand.
pub open spec fn number_end(src: Seq<char>, i: int, is_real: bool, has_exp: bool, after_exp: bool) -> (
    int,
    bool,
)
    decreases src.len() - i,
{
    if i < 0 || i >= src.len() {
        (i, is_real)
    } else if is_digit(src[i]) {
        number_end(src, i + 1, is_real, has_exp, false)
    } else if src[i] == '.' {
        number_end(src, i + 1, true, has_exp, false)
    } else if src[i] == 'e' && is_real && !has_exp {
        number_end(src, i + 1, is_real, true, true)
    } else if (src[i] == '-' || src[i] == '+') && after_exp {
        number_end(src, i + 1, is_real, has_exp, false)
    } else {
        (i, is_real)
    }
}

/// The kind of a token that is one character of punctuation.
pub open spec fn punctuation(ch: char) -> Option<Kind> {
    if ch == '(' {
        Some(Kind::LeftParen)
    } else if ch == ')' {
        Some(Kind::RightParen)
    } else if ch == '-' {
        Some(Kind::Minus)
    } else if ch == '+' {
        Some(Kind::Plus)
    } else if ch == ';' {
        Some(Kind::Semicolon)
    } else if ch == '*' {
        Some(Kind::Star)
    } else if ch == '=' {
        Some(Kind::Equal)
    } else if ch == '!' {
        Some(Kind::Bang)
    } else if ch == '[' {
        Some(Kind::LeftSquare)
    } else if ch == ']' {
        Some(Kind::RightSquare)
    } else if ch == ',' {
        Some(Kind::Comma)
    } else {
        None
    }
}

/// The kind of a token that is `ch` alone, for a character that may
/// also begin a token of two characters.
pub open spec fn single_kind(ch: char) -> Kind {
    if ch == ':' {
        Kind::Colon
    } else if ch == '>' {
        Kind::Greater
    } else {
        Kind::Less
    }
}

/// The kind of the token that is `ch` followed by `=`.
pub open spec fn paired_kind(ch: char) -> Kind {
    if ch == ':' {
        Kind::ColonEqual
    } else if ch == '>' {
        Kind::GreaterEqual
    } else {
        Kind::LessEqual
    }
}

/// A token made where the cursor stands.
pub open spec fn token_at(kind: Kind, lexeme: Seq<char>, c: Cursor) -> Scanned {
    Scanned { result: Ok(TokenView { kind, lexeme, position: c.position() }), cursor: c }
}

/// An error reported where the cursor stands, with the line it is on.
pub open spec fn error_at(src: Seq<char>, description: Seq<char>, c: Cursor) -> Scanned {
    Scanned {
        result: Err(
            SyntaxErrorView {
                position: c.position(),
                raw_line: current_line(src, c),
                description,
            },
        ),
        cursor: c,
    }
}

/// A block comment whose first character is at `k`: it ends with the
/// first `*` followed by `closer`; without one it is an error that
/// takes the rest of the source.
pub open spec fn scan_comment(src: Seq<char>, c: Cursor, k: int, closer: char) -> Scanned {
    match comment_close(src, k + 2, closer) {
        Some(e) => token_at(Kind::Comment, src.subrange(k, e + 1), c.at(e)),
        None => error_at(src, "Reached EOF before closing comment"@, c.at(src.len() as int)),
    }
}

/// A string literal whose opening quote is at `k`: its lexeme is what
/// the content between the quotes denotes; without a closing quote it
/// is an error that takes the rest of the source.
pub open spec fn scan_string(src: Seq<char>, c: Cursor, k: int) -> Scanned {
    match string_close(src, k + 1) {
        Some(e) => token_at(Kind::LitString, unescape(src.subrange(k + 1, e)), c.at(e)),
        None => error_at(src, "Reached EOF while scanning string"@, c.at(src.len() as int)),
    }
}

/// A numeric literal whose first digit is at `k`.
pub open spec fn scan_number(src: Seq<char>, c: Cursor, k: int) -> Scanned {
    let (e, is_real) = number_end(src, k + 1, false, false, false);
    token_at(
        if is_real {
            Kind::LitReal
        } else {
            Kind::LitInt
        },
        src.subrange(k, e),
        c.at(e - 1),
    )
}

/// A keyword or an identifier whose first character is at `k`.
pub open spec fn scan_word(src: Seq<char>, c: Cursor, k: int) -> Scanned {
    let e = word_end(src, k + 1);
    token_at(Kind::of_word(src.subrange(k, e)), src.subrange(k, e), c.at(e - 1))
}

/// Characters that begin no token, from `k` up to the next whitespace,
/// which is taken too.
pub open spec fn scan_junk(src: Seq<char>, c: Cursor, k: int) -> Scanned {
    let e = junk_end(src, k + 1);
    error_at(src, "Unknown token: "@ + src.subrange(k, e), c.at(e))
}

/// The token that begins with the character at index `k`.
pub open spec fn scan_at(src: Seq<char>, c: Cursor, k: int) -> Scanned {
    let ch = src[k];
    let d = c.at(k);
    if punctuation(ch) is Some {
        token_at(punctuation(ch)->0, seq![ch], d)
    } else if ch == ':' || ch == '>' || ch == '<' {
        if k + 1 < src.len() && src[k + 1] == '=' {
            token_at(paired_kind(ch), seq![ch, '='], c.at(k + 1))
        } else {
            token_at(single_kind(ch), seq![ch], d)
        }
    } else if ch == '{' {
        if k + 1 >= src.len() {
            error_at(src, "Unexpected End Of File wile reading the source"@, d)
        } else if src[k + 1] == '*' {
            scan_comment(src, c, k, '}')
        } else {
            error_at(src, "Unknown token: "@ + seq![src[k + 1]], d)
        }
    } else if ch == '/' {
        if k + 1 < src.len() && src[k + 1] == '*' {
            scan_comment(src, c, k, '/')
        } else if k + 1 < src.len() && src[k + 1] == '/' {
            let e = line_end(src, k + 2);
            token_at(Kind::Comment, src.subrange(k, e), c.at(e - 1))
        } else {
            token_at(Kind::Slash, seq![ch], d)
        }
    } else if ch == '"' {
        scan_string(src, c, k)
    } else if ch == '\n' {
        token_at(Kind::Eol, seq![ch], d)
    } else if whitespace(ch) {
        token_at(Kind::Whites, seq![ch], d)
    } else if is_digit(ch) {
        scan_number(src, c, k)
    } else if letter_or_digit(ch) {
        scan_word(src, c, k)
    } else {
        scan_junk(src, c, k)
    }
}

/// One step of the scanner: the next token, whitespace and comments
/// among them, or an error. At the end of the source it is `Eof`, again
/// and again.
pub open spec fn scan(src: Seq<char>, c: Cursor) -> Scanned {
    if c.current >= src.len() {
        token_at(Kind::Eof, Seq::empty(), c)
    } else if c.next_index() >= src.len() {
        token_at(Kind::Eof, Seq::empty(), c.at(src.len() as int))
    } else {
        scan_at(src, c, c.next_index())
    }
}

/// Whether a token of this kind is dropped by the scanner.
pub open spec fn dropped(kind: Kind) -> bool {
    kind == Kind::Eol || kind == Kind::Whites || kind == Kind::Comment
}

/// The next token that is no whitespace, end of line or comment, or the
/// first error met on the way. Each end of line moves the cursor to the
/// next line.
pub open spec fn next(src: Seq<char>, c: Cursor) -> Scanned
    decreases c.remaining(src),
{
    let s = scan(src, c);
    if c.fits(src) && s.result is Ok && dropped(s.result->Ok_0.kind) {
        proof {
            lemma_scan_moves(src, c);
        }
        if s.result->Ok_0.kind == Kind::Eol {
            next(src, s.cursor.newline())
        } else {
            next(src, s.cursor)
        }
    } else {
        s
    }
}

/// What the parser gets when it asks for a token: the next token that
/// the scanner gives, the errors met before it, and where the scanner
/// stands afterwards.
pub ghost struct Fetched {
    pub token: TokenView,
    pub errors: Seq<SyntaxErrorView>,
    pub cursor: Cursor,
}

/// Scans on past every error until a token comes.
pub open spec fn fetch(src: Seq<char>, c: Cursor) -> Fetched
    decreases c.remaining(src),
{
    let s = next(src, c);
    match s.result {
        Ok(t) => Fetched { token: t, errors: Seq::empty(), cursor: s.cursor },
        Err(e) => if c.fits(src) {
            proof {
                lemma_next_moves(src, c);
            }
            let f = fetch(src, s.cursor);
            Fetched { token: f.token, errors: seq![e] + f.errors, cursor: f.cursor }
        } else {
            Fetched {
                token: TokenView { kind: Kind::Eof, lexeme: Seq::empty(), position: c.position() },
                errors: seq![e],
                cursor: s.cursor,
            }
        },
    }
}

pub proof fn lemma_line_end_bounds(src: Seq<char>, i: int)
    requires
        0 <= i <= src.len(),
    ensures
        i <= line_end(src, i) <= src.len(),
        line_end(src, i) < src.len() ==> src[line_end(src, i)] == '\n',
    decreases src.len() - i,
{
    if i < src.len() && src[i] != '\n' {
        lemma_line_end_bounds(src, i + 1);
    }
}

/// Past the last line every line begins at the end of the source.
pub proof fn lemma_line_begin_saturates(src: Seq<char>, n: nat, m: nat)
    requires
        line_begin(src, n) == src.len(),
        n <= m,
    ensures
        line_begin(src, m) == src.len(),
    decreases m - n,
{
    if n < m {
        lemma_line_begin_saturates(src, n, (m - 1) as nat);
    }
}

pub proof fn lemma_word_end_bounds(src: Seq<char>, i: int)
    requires
        0 <= i <= src.len(),
    ensures
        i <= word_end(src, i) <= src.len(),
    decreases src.len() - i,
{
    if i < src.len() && is_word_char(src[i]) {
        lemma_word_end_bounds(src, i + 1);
    }
}

pub proof fn lemma_junk_end_bounds(src: Seq<char>, i: int)
    requires
        0 <= i <= src.len(),
    ensures
        i <= junk_end(src, i) <= src.len(),
    decreases src.len() - i,
{
    if i < src.len() && !whitespace(src[i]) {
        lemma_junk_end_bounds(src, i + 1);
    }
}

pub proof fn lemma_number_end_bounds(
    src: Seq<char>,
    i: int,
    is_real: bool,
    has_exp: bool,
    after_exp: bool,
)
    requires
        0 <= i <= src.len(),
    ensures
        i <= number_end(src, i, is_real, has_exp, after_exp).0 <= src.len(),
    decreases src.len() - i,
{
    if i < src.len() {
        if is_digit(src[i]) {
            lemma_number_end_bounds(src, i + 1, is_real, has_exp, false);
        } else if src[i] == '.' {
            lemma_number_end_bounds(src, i + 1, true, has_exp, false);
        } else if src[i] == 'e' && is_real && !has_exp {
            lemma_number_end_bounds(src, i + 1, is_real, true, true);
        } else if (src[i] == '-' || src[i] == '+') && after_exp {
            lemma_number_end_bounds(src, i + 1, is_real, has_exp, false);
        }
    }
}

pub proof fn lemma_comment_close_bounds(src: Seq<char>, i: int, closer: char)
    requires
        0 <= i,
    ensures
        comment_close(src, i, closer) matches Some(e) ==> i < e < src.len(),
    decreases src.len() - i,
{
    if i + 1 < src.len() && !(src[i] == '*' && src[i + 1] == closer) {
        lemma_comment_close_bounds(src, i + 1, closer);
    }
}

pub proof fn lemma_string_close_bounds(src: Seq<char>, i: int)
    requires
        0 <= i,
    ensures
        string_close(src, i) matches Some(e) ==> i <= e < src.len(),
    decreases src.len() - i,
{
    if i < src.len() && src[i] != '"' {
        if src[i] == '\\' {
            if i + 1 < src.len() {
                lemma_string_close_bounds(src, i + 2);
            }
        } else {
            lemma_string_close_bounds(src, i + 1);
        }
    }
}

/// A step that begins before the end of the source reads at least one
/// character, and leaves the cursor within the source.
pub proof fn lemma_scan_moves(src: Seq<char>, c: Cursor)
    requires
        c.fits(src),
        c.current < src.len(),
    ensures
        scan(src, c).cursor.fits(src),
        scan(src, c).cursor.current < src.len() ==> scan(src, c).cursor.newline().fits(src),
        scan(src, c).cursor.remaining(src) < c.remaining(src),
        scan(src, c).cursor.newline().remaining(src) < c.remaining(src),
        !scan(src, c).cursor.init,
        c.next_index() <= scan(src, c).cursor.current,
        (scan(src, c).result matches Ok(t) && t.kind == Kind::Eol) ==> scan(src, c).cursor.current
            < src.len(),
{
    let k = c.next_index();
    if k < src.len() {
        lemma_comment_close_bounds(src, k + 2, '}');
        lemma_comment_close_bounds(src, k + 2, '/');
        lemma_string_close_bounds(src, k + 1);
        lemma_number_end_bounds(src, k + 1, false, false, false);
        lemma_word_end_bounds(src, k + 1);
        lemma_junk_end_bounds(src, k + 1);
        if k + 2 <= src.len() {
            lemma_line_end_bounds(src, k + 2);
        }
    }
}

/// After a step of the scanner the cursor is within the source, and
/// nothing was given back.
pub proof fn lemma_scan_fits(src: Seq<char>, c: Cursor)
    requires
        c.fits(src),
    ensures
        scan(src, c).cursor.fits(src),
        scan(src, c).cursor.remaining(src) <= c.remaining(src),
{
    if c.current < src.len() {
        lemma_scan_moves(src, c);
    }
}

/// What `next` gives is never whitespace, an end of line or a comment;
/// the cursor stays within the source and nothing is given back; a
/// token other than `Eof`, and an error, cost at least one character;
/// after `Eof` nothing is left.
pub proof fn lemma_next_moves(src: Seq<char>, c: Cursor)
    requires
        c.fits(src),
    ensures
        next(src, c).cursor.fits(src),
        next(src, c).cursor.remaining(src) <= c.remaining(src),
        next(src, c).result matches Ok(t) ==> !dropped(t.kind),
        !(next(src, c).result matches Ok(t) && t.kind == Kind::Eof) ==> next(src, c).cursor.remaining(
            src,
        ) < c.remaining(src),
        (next(src, c).result matches Ok(t) && t.kind == Kind::Eof) ==> next(src, c).cursor.current
            == src.len(),
    decreases c.remaining(src),
{
    let s = scan(src, c);
    lemma_scan_fits(src, c);
    if c.current < src.len() {
        lemma_scan_moves(src, c);
    }
    if s.result is Ok && dropped(s.result->Ok_0.kind) {
        if s.result->Ok_0.kind == Kind::Eol {
            lemma_next_moves(src, s.cursor.newline());
        } else {
            lemma_next_moves(src, s.cursor);
        }
    }
}

/// The token that `fetch` gives is never whitespace, an end of line or
/// a comment; nothing is given back; a token other than `Eof` costs at
/// least one character.
pub proof fn lemma_fetch_moves(src: Seq<char>, c: Cursor)
    requires
        c.fits(src),
    ensures
        fetch(src, c).cursor.fits(src),
        fetch(src, c).cursor.remaining(src) <= c.remaining(src),
        !dropped(fetch(src, c).token.kind),
        fetch(src, c).token.kind != Kind::Eof ==> fetch(src, c).cursor.remaining(src) < c.remaining(
            src,
        ),
    decreases c.remaining(src),
{
    lemma_next_moves(src, c);
    let s = next(src, c);
    if s.result is Err {
        lemma_fetch_moves(src, s.cursor);
    }
}

} // verus!
