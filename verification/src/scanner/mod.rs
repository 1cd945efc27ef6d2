pub mod lexis;
pub mod position;

use crate::base::errors::{SyntaxError, SyntaxErrorView};
use crate::base::token::{Kind, Token, TokenView};
use crate::scanner::lexis::{
    clamp_i64, comment_close, current_line, junk_end,
    lemma_line_begin_saturates, lemma_scan_moves, line_begin, line_end,
    line_of, next, number_end, peek, peek_next, punctuation, scan, scan_at,
    scan_comment, scan_junk, scan_number, scan_string, scan_word, string_close,
    word_end, Cursor, Scanned,
};
use crate::scanner::position::Position;
use crate::text::{
    char_is_digit, char_is_letter_or_digit, char_is_word, copy_str, join2, substring, to_chars,
    unescape_range,
};
use vstd::prelude::*;

verus! {

/// Reads tokens from a source text, one at a time.
#[derive(Debug)]
pub struct Scanner {
    source: Vec<char>,
    current: usize,
    line_num: usize,
    line_start: usize,
    init: bool,
}

/// A result of the scanner with its texts as sequences of characters.
pub open spec fn result_view(r: Result<Token, SyntaxError>) -> Result<TokenView, SyntaxErrorView> {
    match r {
        Ok(t) => Ok(t@),
        Err(e) => Err(e@),
    }
}

fn to_i64(n: usize) -> (r: i64)
    ensures
        r == clamp_i64(n as int),
{
    if n as u64 > i64::MAX as u64 {
        i64::MAX
    } else {
        n as i64
    }
}

fn char_string(ch: char) -> (s: String)
    ensures
        s@ == seq![ch],
{
    let mut s = String::new();
    s.push(ch);
    assert(s@ =~= seq![ch]);
    s
}

fn punct(ch: char) -> (k: Option<Kind>)
    ensures
        k == punctuation(ch),
{
    if ch == '(' {
        Some(Kind::LeftParen)
    } else if ch == ')' {
        Some(Kind::RightParen)
    } else if ch == '-' {
        Some(Kind::Minus)
    } else if ch == '+' {
        Some(Kind::Plus)
    } else if ch == ';' {
        Some(Kind::Semicolon)
    } else if ch == '*' {
        Some(Kind::Star)
    } else if ch == '=' {
        Some(Kind::Equal)
    } else if ch == '!' {
        Some(Kind::Bang)
    } else if ch == '[' {
        Some(Kind::LeftSquare)
    } else if ch == ']' {
        Some(Kind::RightSquare)
    } else if ch == ',' {
        Some(Kind::Comma)
    } else {
        None
    }
}

impl Scanner {
    /// The scanner stands within its source.
    #[verifier::type_invariant]
    pub closed spec fn well_formed(&self) -> bool {
        self.cursor().fits(self.source_text())
    }

    /// The characters of the source.
    pub closed spec fn source_text(&self) -> Seq<char> {
        self.source@
    }

    /// Where the scanner stands.
    pub closed spec fn cursor(&self) -> Cursor {
        Cursor {
            current: self.current as int,
            line_num: self.line_num as int,
            line_start: self.line_start as int,
            init: self.init,
        }
    }

    /// A result together with where the scanner stands.
    pub open spec fn scanned(&self, r: Result<Token, SyntaxError>) -> Scanned {
        Scanned { result: result_view(r), cursor: self.cursor() }
    }

    pub proof fn lemma_fits(&self)
        requires
            self.well_formed(),
        ensures
            self.cursor().fits(self.source_text()),
    {
    }

    pub fn new(src: String) -> (s: Scanner)
        ensures
            s.source_text() == src@,
            s.cursor() == Cursor::start(),
            s.well_formed(),
    {
        let chars: Vec<char> = to_chars(src.as_str());
        assert(chars@.len() <= usize::MAX) by {
            assert(chars.len() == chars@.len());
        }
        Scanner { source: chars, current: 0, line_num: 1, line_start: 0, init: true }
    }

    /// Returns the current char the scanner is looking at in the
    /// source, None if the scanner is at the end
    pub fn get_current(&self) -> (r: Option<char>)
        ensures
            r == peek(self.source_text(), self.cursor()),
    {
        if self.is_at_end() {
            return None;
        }
        Some(self.source[self.current])
    }

    /// Returns the next character with respect to the current one
    pub fn get_next(&self) -> (r: Option<char>)
        ensures
            r == peek_next(self.source_text(), self.cursor()),
    {
        if self.is_at_end() || self.source.len() <= self.current + 1 {
            return None;
        }
        Some(self.source[self.current + 1])
    }

    /// True if the scanner is at the end, false otherwise
    pub fn is_at_end(&self) -> (b: bool)
        ensures
            b == (self.cursor().current >= self.source_text().len()),
    {
        self.current >= self.source.len()
    }

    /// How many characters are left to read, and one more while
    /// nothing was read.
    pub fn remaining(&self) -> (r: u128)
        ensures
            r == self.cursor().remaining(self.source_text()),
    {
        proof {
            use_type_invariant(self);
        }
        if self.init {
            self.source.len() as u128 + 1
        } else {
            (self.source.len() - self.current) as u128
        }
    }

    /// Advances to the next character
    pub fn advance(&mut self) -> (r: Option<char>)
        ensures
            final(self).source_text() == old(self).source_text(),
            final(self).cursor() == old(self).cursor().stepped(old(self).source_text()),
            r == peek(final(self).source_text(), final(self).cursor()),
    {
        proof {
            use_type_invariant(&*self);
        }
        if self.init {
            self.init = false;
            return self.get_current();
        }
        if self.current < self.source.len() {
            self.current = self.current + 1;
        }
        self.get_current()
    }

    /// Goes back by one character
    pub fn go_back(&mut self)
        ensures
            final(self).source_text() == old(self).source_text(),
            final(self).cursor() == old(self).cursor().back(),
    {
        proof {
            use_type_invariant(&*self);
        }
        if !self.init && self.current > 0 {
            self.current = self.current - 1;
        }
    }

    /// returns the ${num} line in the source code
    pub fn line(&self, num: usize) -> (s: String)
        ensures
            s@ == line_of(self.source_text(), num as nat),
    {
        let n = self.source.len();
        let mut start: usize = 0;
        let mut k: usize = 0;
        while k < num && start < n
            invariant
                n == self.source.len(),
                k <= num,
                start <= n,
                start == line_begin(self.source@, k as nat),
            decreases num - k,
        {
            let mut e: usize = start;
            while e < n && self.source[e] != '\n'
                invariant
                    n == self.source.len(),
                    start <= e <= n,
                    line_end(self.source@, e as int) == line_end(self.source@, start as int),
                decreases n - e,
            {
                e = e + 1;
            }
            start = if e < n {
                e + 1
            } else {
                n
            };
            k = k + 1;
        }
        proof {
            if k < num {
                lemma_line_begin_saturates(self.source@, k as nat, num as nat);
            }
        }
        let mut e: usize = start;
        while e < n && self.source[e] != '\n'
            invariant
                n == self.source.len(),
                start <= e <= n,
                line_end(self.source@, e as int) == line_end(self.source@, start as int),
            decreases n - e,
        {
            e = e + 1;
        }
        if start < e && e < n && self.source[e - 1] == '\r' {
            substring(&self.source, start, e - 1)
        } else {
            substring(&self.source, start, e)
        }
    }

    /// returns the line of the current character
    pub fn curr_line(&self) -> (s: String)
        ensures
            s@ == current_line(self.source_text(), self.cursor()),
    {
        if self.line_num >= 1 {
            self.line(self.line_num - 1)
        } else {
            self.line(0)
        }
    }

    /// Generates a new token with the current position
    fn gen_token(&self, kind: Kind, lexeme: String) -> (t: Token)
        ensures
            t == (Token { kind, lexeme, position: self.cursor().position() }),
    {
        Token { kind, lexeme, position: self.position() }
    }

    /// Generates a Position structure based on internal
    /// rapresentation of position
    fn position(&self) -> (p: Position)
        ensures
            p == self.cursor().position(),
    {
        Position {
            char_number: self.current,
            line: to_i64(self.line_num),
            col: if self.current >= self.line_start {
                to_i64(self.current - self.line_start)
            } else {
                0
            },
        }
    }

    /// Moves to the character at index `j` and makes a token there.
    fn land_token(&mut self, j: usize, kind: Kind, lexeme: String) -> (r: Result<Token, SyntaxError>)
        requires
            j <= old(self).source_text().len(),
        ensures
            final(self).source_text() == old(self).source_text(),
            final(self).scanned(r) == crate::scanner::lexis::token_at(
                kind,
                lexeme@,
                old(self).cursor().at(j as int),
            ),
    {
        proof {
            use_type_invariant(&*self);
        }
        self.init = false;
        self.current = j;
        Ok(self.gen_token(kind, lexeme))
    }

    /// Moves to the character at index `j` and reports an error there.
    fn land_error(&mut self, j: usize, description: String) -> (r: Result<Token, SyntaxError>)
        requires
            j <= old(self).source_text().len(),
        ensures
            final(self).source_text() == old(self).source_text(),
            final(self).scanned(r) == crate::scanner::lexis::error_at(
                old(self).source_text(),
                description@,
                old(self).cursor().at(j as int),
            ),
    {
        proof {
            use_type_invariant(&*self);
        }
        self.init = false;
        self.current = j;
        Err(SyntaxError::new(self.position(), self.curr_line(), description))
    }

    /// Scans a block comment whose two opening characters are at `k`
    /// and `k + 1`, up to the first `*` followed by `closer`.
    fn block_comment(&mut self, k: usize, closer: char) -> (r: Result<Token, SyntaxError>)
        requires
            k + 1 < old(self).source_text().len(),
        ensures
            final(self).source_text() == old(self).source_text(),
            final(self).scanned(r) == scan_comment(
                old(self).source_text(),
                old(self).cursor(),
                k as int,
                closer,
            ),
    {
        let n = self.source.len();
        let mut j: usize = k + 2;
        while j < n && j + 1 < n
            invariant
                n == self.source.len(),
                *self == *old(self),
                k + 2 <= j <= n,
                comment_close(self.source@, j as int, closer) == comment_close(
                    self.source@,
                    k as int + 2,
                    closer,
                ),
            decreases n - j,
        {
            if self.source[j] == '*' && self.source[j + 1] == closer {
                let lexeme = substring(&self.source, k, j + 2);
                return self.land_token(j + 1, Kind::Comment, lexeme);
            }
            j = j + 1;
        }
        self.land_error(n, copy_str("Reached EOF before closing comment"))
    }

    /// Scans a string literal whose opening quote is at `k`.
    fn string(&mut self, k: usize) -> (r: Result<Token, SyntaxError>)
        requires
            k < old(self).source_text().len(),
        ensures
            final(self).source_text() == old(self).source_text(),
            final(self).scanned(r) == scan_string(
                old(self).source_text(),
                old(self).cursor(),
                k as int,
            ),
    {
        let n = self.source.len();
        let mut j: usize = k + 1;
        while j < n
            invariant
                n == self.source.len(),
                *self == *old(self),
                k + 1 <= j,
                string_close(self.source@, j as int) == string_close(self.source@, k as int + 1),
            decreases n - j,
        {
            let c = self.source[j];
            if c == '"' {
                let lexeme = unescape_range(&self.source, k + 1, j);
                return self.land_token(j, Kind::LitString, lexeme);
            }
            if c == '\\' {
                if j + 1 < n {
                    j = j + 2;
                } else {
                    return self.land_error(n, copy_str("Reached EOF while scanning string"));
                }
            } else {
                j = j + 1;
            }
        }
        self.land_error(n, copy_str("Reached EOF while scanning string"))
    }

    /// Makes the token of the numeric literal at `k..j`.
    fn number(&mut self, k: usize, j: usize, is_real: bool) -> (r: Result<Token, SyntaxError>)
        requires
            k < j <= old(self).source_text().len(),
        ensures
            final(self).source_text() == old(self).source_text(),
            final(self).scanned(r) == crate::scanner::lexis::token_at(
                if is_real {
                    Kind::LitReal
                } else {
                    Kind::LitInt
                },
                old(self).source_text().subrange(k as int, j as int),
                old(self).cursor().at(j as int - 1),
            ),
    {
        let lexeme = substring(&self.source, k, j);
        let kind = if is_real {
            Kind::LitReal
        } else {
            Kind::LitInt
        };
        self.land_token(j - 1, kind, lexeme)
    }

    /// Scans a numeric literal whose first digit is at `k`.
    fn digits(&mut self, k: usize) -> (r: Result<Token, SyntaxError>)
        requires
            k < old(self).source_text().len(),
        ensures
            final(self).source_text() == old(self).source_text(),
            final(self).scanned(r) == scan_number(
                old(self).source_text(),
                old(self).cursor(),
                k as int,
            ),
    {
        let n = self.source.len();
        let mut j: usize = k + 1;
        let mut is_real = false;
        let mut e_found = false;
        let mut after_e = false;
        while j < n
            invariant
                n == self.source.len(),
                *self == *old(self),
                k + 1 <= j <= n,
                number_end(self.source@, j as int, is_real, e_found, after_e) == number_end(
                    self.source@,
                    k as int + 1,
                    false,
                    false,
                    false,
                ),
            decreases n - j,
        {
            let c = self.source[j];
            if char_is_digit(c) {
                after_e = false;
            } else if c == '.' {
                is_real = true;
                after_e = false;
            } else if c == 'e' && is_real && !e_found {
                e_found = true;
                after_e = true;
            } else if (c == '-' || c == '+') && after_e {
                after_e = false;
            } else {
                return self.number(k, j, is_real);
            }
            j = j + 1;
        }
        self.number(k, j, is_real)
    }

    /// Makes the token of a word: that of the keyword it spells, else
    /// an identifier.
    fn find_word(&mut self, j: usize, word: String) -> (r: Result<Token, SyntaxError>)
        requires
            j <= old(self).source_text().len(),
        ensures
            final(self).source_text() == old(self).source_text(),
            final(self).scanned(r) == crate::scanner::lexis::token_at(
                Kind::of_word(word@),
                word@,
                old(self).cursor().at(j as int),
            ),
    {
        let kind = Kind::from_word(word.as_str());
        self.land_token(j, kind, word)
    }

    /// Scans a keyword or an identifier whose first character is at
    /// `k`.
    fn words(&mut self, k: usize) -> (r: Result<Token, SyntaxError>)
        requires
            k < old(self).source_text().len(),
        ensures
            final(self).source_text() == old(self).source_text(),
            final(self).scanned(r) == scan_word(
                old(self).source_text(),
                old(self).cursor(),
                k as int,
            ),
    {
        let n = self.source.len();
        let mut j: usize = k + 1;
        while j < n && char_is_word(self.source[j])
            invariant
                n == self.source.len(),
                *self == *old(self),
                k + 1 <= j <= n,
                word_end(self.source@, j as int) == word_end(self.source@, k as int + 1),
            decreases n - j,
        {
            j = j + 1;
        }
        let word = substring(&self.source, k, j);
        self.find_word(j - 1, word)
    }

    /// Takes the characters from `k` up to the next whitespace as an
    /// unknown token.
    fn junk(&mut self, k: usize) -> (r: Result<Token, SyntaxError>)
        requires
            k < old(self).source_text().len(),
        ensures
            final(self).source_text() == old(self).source_text(),
            final(self).scanned(r) == scan_junk(
                old(self).source_text(),
                old(self).cursor(),
                k as int,
            ),
    {
        let n = self.source.len();
        let mut j: usize = k + 1;
        while j < n && !self.source[j].is_whitespace()
            invariant
                n == self.source.len(),
                *self == *old(self),
                k + 1 <= j <= n,
                junk_end(self.source@, j as int) == junk_end(self.source@, k as int + 1),
            decreases n - j,
        {
            j = j + 1;
        }
        let erroneous = substring(&self.source, k, j);
        let description = join2("Unknown token: ", erroneous.as_str());
        self.land_error(j, description)
    }

    /// Scans the token that begins at index `k`.
    fn scan_from(&mut self, k: usize) -> (r: Result<Token, SyntaxError>)
        requires
            k < old(self).source_text().len(),
        ensures
            final(self).source_text() == old(self).source_text(),
            final(self).scanned(r) == scan_at(old(self).source_text(), old(self).cursor(), k as int),
    {
        let n = self.source.len();
        let ch = self.source[k];
        match punct(ch) {
            Some(kind) => {
                return self.land_token(k, kind, char_string(ch));
            },
            None => {},
        }
        if ch == ':' || ch == '>' || ch == '<' {
            let paired = if ch == ':' {
                Kind::ColonEqual
            } else if ch == '>' {
                Kind::GreaterEqual
            } else {
                Kind::LessEqual
            };
            let single = if ch == ':' {
                Kind::Colon
            } else if ch == '>' {
                Kind::Greater
            } else {
                Kind::Less
            };
            if k + 1 < n && self.source[k + 1] == '=' {
                let mut lexeme = char_string(ch);
                lexeme.push('=');
                assert(lexeme@ =~= seq![ch, '=']);
                self.land_token(k + 1, paired, lexeme)
            } else {
                self.land_token(k, single, char_string(ch))
            }
        } else if ch == '{' {
            if k + 1 >= n {
                self.land_error(k, copy_str("Unexpected End Of File wile reading the source"))
            } else if self.source[k + 1] == '*' {
                self.block_comment(k, '}')
            } else {
                let found = char_string(self.source[k + 1]);
                self.land_error(k, join2("Unknown token: ", found.as_str()))
            }
        } else if ch == '/' {
            if k + 1 < n && self.source[k + 1] == '*' {
                self.block_comment(k, '/')
            } else if k + 1 < n && self.source[k + 1] == '/' {
                let mut e: usize = k + 2;
                while e < n && self.source[e] != '\n'
                    invariant
                        n == self.source.len(),
                        *self == *old(self),
                        k + 2 <= e <= n,
                        line_end(self.source@, e as int) == line_end(self.source@, k as int + 2),
                    decreases n - e,
                {
                    e = e + 1;
                }
                let lexeme = substring(&self.source, k, e);
                self.land_token(e - 1, Kind::Comment, lexeme)
            } else {
                self.land_token(k, Kind::Slash, char_string(ch))
            }
        } else if ch == '"' {
            self.string(k)
        } else if ch == '\n' {
            self.land_token(k, Kind::Eol, char_string(ch))
        } else if ch.is_whitespace() {
            self.land_token(k, Kind::Whites, char_string(ch))
        } else if char_is_digit(ch) {
            self.digits(k)
        } else if char_is_letter_or_digit(ch) {
            self.words(k)
        } else {
            self.junk(k)
        }
    }

    /// Scans next token
    fn scan_token(&mut self) -> (r: Result<Token, SyntaxError>)
        ensures
            final(self).source_text() == old(self).source_text(),
            final(self).scanned(r) == scan(old(self).source_text(), old(self).cursor()),
    {
        proof {
            use_type_invariant(&*self);
        }
        if self.is_at_end() {
            return Ok(self.gen_token(Kind::Eof, String::new()));
        }
        let k: usize = if self.init {
            0
        } else {
            self.current + 1
        };
        if k >= self.source.len() {
            let n = self.source.len();
            return self.land_token(n, Kind::Eof, String::new());
        }
        self.scan_from(k)
    }

    /// Returns next token based on the scan, wich could recognise
    /// also whitespace tokens
    pub fn next_token(&mut self) -> (r: Result<Token, SyntaxError>)
        ensures
            final(self).source_text() == old(self).source_text(),
            final(self).scanned(r) == next(old(self).source_text(), old(self).cursor()),
    {
        loop
            invariant
                self.source_text() == old(self).source_text(),
                next(self.source_text(), self.cursor()) == next(
                    old(self).source_text(),
                    old(self).cursor(),
                ),
            decreases self.cursor().remaining(self.source_text()),
        {
            proof {
                use_type_invariant(&*self);
                if self.cursor().current < self.source_text().len() {
                    lemma_scan_moves(self.source_text(), self.cursor());
                }
            }
            match self.scan_token() {
                Ok(token) => match token.kind {
                    Kind::Eol => {
                        if self.line_num < usize::MAX {
                            self.line_num = self.line_num + 1;
                        }
                        self.line_start = self.current + 1;
                    },
                    Kind::Whites | Kind::Comment => {},
                    _ => {
                        return Ok(token);
                    },
                },
                Err(syn_error) => {
                    return Err(syn_error);
                },
            }
        }
    }
}

} // verus!
