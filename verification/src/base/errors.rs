use crate::scanner::position::Position;
use crate::text::{join7, signed_decimal};
use colored::Colorize;
use vstd::prelude::*;

verus! {

/// An error that can be shown to the user.
pub trait MiniPLError {
    /// The message as it is printed, with the styling that the terminal
    /// allows.
    fn get_error(&self) -> String;
}

/// An error found while scanning or parsing.
#[derive(Debug)]
pub struct SyntaxError {
    pub position: Position,
    pub raw_line: String,
    pub description: String,
}

/// An error found while evaluating a program directly.
#[derive(Debug)]
pub struct EvaluationError {
    pub position: Position,
    pub description: String,
}

/// An error found while generating code.
#[derive(Debug)]
pub struct CompilationError {
    pub position: Position,
    pub description: String,
}

/// A syntax error with its texts as sequences of characters.
pub ghost struct SyntaxErrorView {
    pub position: Position,
    pub raw_line: Seq<char>,
    pub description: Seq<char>,
}

/// A compilation error with its text as a sequence of characters.
pub ghost struct CompilationErrorView {
    pub position: Position,
    pub description: Seq<char>,
}

impl View for SyntaxError {
    type V = SyntaxErrorView;

    open spec fn view(&self) -> SyntaxErrorView {
        SyntaxErrorView {
            position: self.position,
            raw_line: self.raw_line@,
            description: self.description@,
        }
    }
}

impl View for CompilationError {
    type V = CompilationErrorView;

    open spec fn view(&self) -> CompilationErrorView {
        CompilationErrorView { position: self.position, description: self.description@ }
    }
}

impl Clone for SyntaxError {
    fn clone(&self) -> (e: Self)
        ensures
            e == *self,
    {
        SyntaxError {
            position: self.position,
            raw_line: self.raw_line.clone(),
            description: self.description.clone(),
        }
    }
}

impl Clone for EvaluationError {
    fn clone(&self) -> (e: Self)
        ensures
            e == *self,
    {
        EvaluationError { position: self.position, description: self.description.clone() }
    }
}

impl Clone for CompilationError {
    fn clone(&self) -> (e: Self)
        ensures
            e == *self,
    {
        CompilationError { position: self.position, description: self.description.clone() }
    }
}

/// `ColoredString` of colored: a text with the colour and the style
/// that it is shown in.
#[verifier::external_type_specification]
#[verifier::external_body]
pub struct ExColoredString(colored::ColoredString);

/// `Colorize::red` of colored on a `&str`: the text with red as its
/// colour. Nothing is claimed of the result.
#[verifier::external_body]
fn red(s: &str) -> colored::ColoredString {
    s.red()
}

/// `Colorize::bold` of colored on a `&str`: the text with the bold
/// style. Nothing is claimed of the result.
#[verifier::external_body]
fn bold(s: &str) -> colored::ColoredString {
    s.bold()
}

/// `Colorize::bold` of colored on a `ColoredString`: the bold style is
/// added to what the text has. Nothing is claimed of the result.
#[verifier::external_body]
fn emboldened(s: colored::ColoredString) -> colored::ColoredString {
    s.bold()
}

/// `ToString::to_string` of std on a `ColoredString`, which goes by its
/// `Display`: the text, between escape codes where the terminal and
/// the settings of the process allow colours. So nothing is claimed of
/// the result.
#[verifier::external_body]
fn shown(s: &colored::ColoredString) -> String {
    s.to_string()
}

/// The first line of every message: the heading, the place and the
/// description.
pub open spec fn headline(heading: Seq<char>, position: Position, description: Seq<char>) -> Seq<
    char,
> {
    heading + " in "@ + signed_decimal(position.line as int) + ":"@ + signed_decimal(
        position.col as int,
    ) + " > "@ + description
}

fn make_headline(heading: &str, position: Position, description: &str) -> (s: String)
    ensures
        s@ == headline(heading@, position, description@),
{
    let line = crate::text::i64_to_string(position.line);
    let col = crate::text::i64_to_string(position.col);
    join7(heading, " in ", line.as_str(), ":", col.as_str(), " > ", description)
}

impl SyntaxError {
    pub fn new(position_: Position, raw_line_: String, description_: String) -> (e: SyntaxError)
        ensures
            e == (SyntaxError {
                position: position_,
                raw_line: raw_line_,
                description: description_,
            }),
    {
        SyntaxError { position: position_, raw_line: raw_line_, description: description_ }
    }

    /// The message of a syntax error, given its three texts as they are
    /// to appear: the headline, a blank line, and the source line behind
    /// its number.
    pub open spec fn layout_of(
        heading: Seq<char>,
        position: Position,
        description: Seq<char>,
        raw_line: Seq<char>,
    ) -> Seq<char> {
        headline(heading, position, description) + "\n\n\t"@ + signed_decimal(position.line as int)
            + " |\t"@ + raw_line + "\n"@
    }

    /// Lays the message out from texts that are already styled.
    pub fn layout(&self, heading: &str, description: &str, raw_line: &str) -> (s: String)
        ensures
            s@ == Self::layout_of(heading@, self.position, description@, raw_line@),
    {
        let mut s = make_headline(heading, self.position, description);
        s.append("\n\n\t");
        let line = crate::text::i64_to_string(self.position.line);
        s.append(line.as_str());
        s.append(" |\t");
        s.append(raw_line);
        s.append("\n");
        s
    }
}

impl EvaluationError {
    pub fn new(position_: Position, description_: String) -> (e: EvaluationError)
        ensures
            e == (EvaluationError { position: position_, description: description_ }),
    {
        EvaluationError { position: position_, description: description_ }
    }

    /// The message of an evaluation error: the headline alone.
    pub open spec fn layout_of(heading: Seq<char>, position: Position, description: Seq<char>) -> Seq<
        char,
    > {
        headline(heading, position, description) + "\n"@
    }

    /// Lays the message out from texts that are already styled.
    pub fn layout(&self, heading: &str, description: &str) -> (s: String)
        ensures
            s@ == Self::layout_of(heading@, self.position, description@),
    {
        let mut s = make_headline(heading, self.position, description);
        s.append("\n");
        s
    }
}

impl CompilationError {
    pub fn new(position_: Position, description_: String) -> (e: CompilationError)
        ensures
            e == (CompilationError { position: position_, description: description_ }),
    {
        CompilationError { position: position_, description: description_ }
    }

    /// The message of a compilation error: the headline, a blank line,
    /// and the number of the line.
    pub open spec fn layout_of(heading: Seq<char>, position: Position, description: Seq<char>) -> Seq<
        char,
    > {
        headline(heading, position, description) + "\n\n\t"@ + signed_decimal(position.line as int)
    }

    /// Lays the message out from texts that are already styled.
    pub fn layout(&self, heading: &str, description: &str) -> (s: String)
        ensures
            s@ == Self::layout_of(heading@, self.position, description@),
    {
        let mut s = make_headline(heading, self.position, description);
        s.append("\n\n\t");
        let line = crate::text::i64_to_string(self.position.line);
        s.append(line.as_str());
        s
    }
}

impl MiniPLError for SyntaxError {
    fn get_error(&self) -> (s: String)
        ensures
            exists|h: Seq<char>, d: Seq<char>, r: Seq<char>|
                s@ == SyntaxError::layout_of(h, self.position, d, r),
    {
        let heading = shown(&emboldened(red("Syntax error")));
        let description = shown(&bold(self.description.as_str()));
        let raw_line = shown(&bold(self.raw_line.as_str()));
        self.layout(heading.as_str(), description.as_str(), raw_line.as_str())
    }
}

impl MiniPLError for EvaluationError {
    fn get_error(&self) -> (s: String)
        ensures
            exists|h: Seq<char>, d: Seq<char>| s@ == EvaluationError::layout_of(h, self.position, d),
    {
        let heading = shown(&emboldened(red("Evaluation error")));
        let description = shown(&bold(self.description.as_str()));
        self.layout(heading.as_str(), description.as_str())
    }
}

impl MiniPLError for CompilationError {
    fn get_error(&self) -> (s: String)
        ensures
            exists|h: Seq<char>, d: Seq<char>| s@ == CompilationError::layout_of(h, self.position, d),
    {
        let heading = shown(&emboldened(red("Compilation error")));
        let description = shown(&bold(self.description.as_str()));
        self.layout(heading.as_str(), description.as_str())
    }
}

} // verus!
