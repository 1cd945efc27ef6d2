pub mod array;
pub mod assert_stmt;
pub mod block;
pub mod expression;
pub mod funcions;
pub mod if_stmt;
pub mod laws;
pub mod lowering;
pub mod print;
pub mod procedures;
pub mod program;
pub mod program_name;
pub mod read;
pub mod return_stmt;
pub mod same_tree;
pub mod source_control;
pub mod var;
pub mod while_stmt;

use crate::base::ast::ASTNode;
use crate::base::errors::{CompilationError, CompilationErrorView, SyntaxError};
use crate::base::types::{SimpleType, Type};
use crate::compiler::laws::{lemma_well_typed_clean, same_errors};
use crate::compiler::lowering::{last, lower, num, ret_ptr, ret_value, slot, storage, Gen};
use crate::compiler::same_tree::{code_of, lemma_code_of};
use crate::parser::syntax::read_source;
use crate::parser::{error_views, Parser};
use crate::scanner::position::Position;
use crate::text::{copy_str, join2, join3, to_lower, usize_to_string};
use vstd::prelude::*;

verus! {

/// Whether code generation has met an error.
#[derive(Debug, Clone, Copy, PartialEq, Eq, Structural)]
pub enum State {
    Sane,
    Error,
}

/// The code generator: it walks a syntax tree once and emits
/// instructions, and collects the errors that it meets on the way.
#[derive(Debug)]
pub struct Compiler {
    pub c_errors: Vec<CompilationError>,
    pub s_errors: Vec<SyntaxError>,
    pub state: State,
    source: String,
    raw_instructions: Vec<String>,
    pub scope: String,
    pub label: usize,
}

/// Errors with their texts as sequences of characters.
pub open spec fn compilation_views(errors: Seq<CompilationError>) -> Seq<CompilationErrorView> {
    Seq::new(errors.len(), |i: int| errors[i]@)
}

/// What stands before the generated code in the source text.
pub open spec fn header() -> Seq<char> {
    "#include <stdio.h>\n#include <stdlib.h>\n#include <string.h>\n#include <stdbool.h>\nint main(){\n"@
}

/// What stands behind the generated code in the source text.
pub open spec fn footer() -> Seq<char> {
    "\n}"@
}

/// The first `n` pieces of code, one behind the other.
pub open spec fn flat(code: Seq<Seq<char>>, n: nat) -> Seq<char>
    decreases n,
{
    if n == 0 || n > code.len() {
        Seq::empty()
    } else {
        flat(code, (n - 1) as nat) + code[n - 1]
    }
}

/// The source text for the pieces of code: all of them between the
/// header and the footer.
pub open spec fn rendered(code: Seq<Seq<char>>) -> Seq<char> {
    header() + flat(code, code.len()) + footer()
}

impl View for Compiler {
    type V = Gen;

    closed spec fn view(&self) -> Gen {
        Gen {
            code: self.code(),
            errors: compilation_views(self.c_errors@),
            sane: self.state == State::Sane,
            scope: self.scope@,
            label: self.label as int,
        }
    }
}

impl Compiler {
    /// The pieces of code emitted so far.
    pub closed spec fn code(&self) -> Seq<Seq<char>> {
        Seq::new(self.raw_instructions@.len(), |i: int| self.raw_instructions@[i]@)
    }

    /// The source text that was generated last.
    pub closed spec fn text(&self) -> Seq<char> {
        self.source@
    }

    /// Whether this is the generator `old` after a step that brought
    /// it to the state `g`: the source text and the syntax errors are
    /// those of `old`.
    pub open spec fn generated(&self, old: &Compiler, g: Gen) -> bool {
        &&& self@ == g
        &&& self.text() == old.text()
        &&& self.syntax_errors() == old.syntax_errors()
    }

    /// The syntax errors that the generator holds.
    pub closed spec fn syntax_errors(&self) -> Seq<SyntaxError> {
        self.s_errors@
    }

    /// Whether no error was met, in generating code or before.
    pub fn is_sane(&self) -> (b: bool)
        ensures
            b == self@.sane,
    {
        match self.state {
            State::Sane => true,
            State::Error => false,
        }
    }

    pub fn new() -> (c: Compiler)
        ensures
            c@ == Gen::fresh(),
            c.text() == Seq::<char>::empty(),
            c.syntax_errors().len() == 0,
    {
        let c = Compiler {
            c_errors: Vec::new(),
            s_errors: Vec::new(),
            state: State::Sane,
            source: String::new(),
            raw_instructions: Vec::new(),
            scope: copy_str("main"),
            label: 0,
        };
        assert(c.code() =~= Seq::<Seq<char>>::empty());
        assert(compilation_views(c.c_errors@) =~= Seq::<CompilationErrorView>::empty());
        c
    }

    pub fn insert_header(&mut self)
        ensures
            final(self)@ == old(self)@,
            final(self).syntax_errors() == old(self).syntax_errors(),
            final(self).text() == header() + old(self).text(),
    {
        let mut s = copy_str(
            "#include <stdio.h>\n#include <stdlib.h>\n#include <string.h>\n#include <stdbool.h>\nint main(){\n",
        );
        s.append(self.source.as_str());
        self.source = s;
    }

    pub fn insert_footer(&mut self)
        ensures
            final(self)@ == old(self)@,
            final(self).syntax_errors() == old(self).syntax_errors(),
            final(self).text() == old(self).text() + footer(),
    {
        let mut s = copy_str(self.source.as_str());
        s.append("\n}");
        self.source = s;
    }

    /// Emits one instruction: a line of code.
    pub fn push_instruction(&mut self, instr: String)
        ensures
            final(self).generated(old(self), old(self)@.emit(instr@)),
    {
        let mut line = instr;
        line.push('\n');
        self.raw_instructions.push(line);
        assert(self.code() =~= old(self).code().push(instr@.push('\n')));
    }

    /// Emits a piece of code as it is, without ending the line.
    pub fn push_instruction_raw(&mut self, instr: String)
        ensures
            final(self).generated(
                old(self),
                (Gen { code: old(self)@.code.push(instr@), ..old(self)@ }),
            ),
    {
        self.raw_instructions.push(instr);
        assert(self.code() =~= old(self).code().push(instr@));
    }

    /// Emits one instruction: a line of code.
    pub fn emit(&mut self, instr: String)
        ensures
            final(self).generated(old(self), old(self)@.emit(instr@)),
    {
        self.push_instruction(instr)
    }

    /// Emits a label.
    pub fn emit_label(&mut self, name: String)
        ensures
            final(self).generated(old(self), old(self)@.emit_label(name@)),
    {
        let mut line = name;
        line.append(":");
        self.push_instruction(line)
    }

    /// Puts all the emitted code between the header and the footer.
    pub fn gen_source(&mut self)
        ensures
            final(self)@ == old(self)@,
            final(self).syntax_errors() == old(self).syntax_errors(),
            final(self).text() == rendered(old(self)@.code),
    {
        let mut body = String::new();
        let n = self.raw_instructions.len();
        let mut i: usize = 0;
        while i < n
            invariant
                i <= n,
                n == self.raw_instructions@.len(),
                self.code().len() == n,
                body@ == flat(self.code(), i as nat),
            decreases n - i,
        {
            body.append(self.raw_instructions[i].as_str());
            i = i + 1;
        }
        self.source = String::new();
        self.insert_header();
        let mut s = copy_str(self.source.as_str());
        s.append(body.as_str());
        self.source = s;
        self.insert_footer();
        assert(self.source@ =~= header() + flat(self.code(), n as nat) + footer());
    }

    pub fn get_source(&self) -> (s: String)
        ensures
            s@ == self.text(),
    {
        self.source.clone()
    }

    /// Takes the next label: its number is handed out, and the counter
    /// goes on by one, as long as the number fits.
    pub fn advance_label(&mut self) -> (n: usize)
        ensures
            n == old(self)@.label,
            final(self).generated(old(self), old(self)@.bump()),
    {
        let to_ret = self.label;
        if self.label < usize::MAX {
            self.label = self.label + 1;
        }
        to_ret
    }

    /// Records an error at a place, and leaves the state of no error.
    pub fn fail_at(&mut self, position: Position, msg: &str)
        ensures
            final(self).generated(old(self), old(self)@.fail(position, msg@)),
    {
        self.state = State::Error;
        self.c_errors.push(CompilationError { description: copy_str(msg), position });
        assert(compilation_views(self.c_errors@) =~= compilation_views(old(self).c_errors@).push(
            CompilationErrorView { position, description: msg@ },
        ));
    }

    /// Records an error at the place of a node, and leaves the state
    /// of no error.
    pub fn push_c_error(&mut self, node: &ASTNode, msg: &str)
        ensures
            final(self).generated(old(self), old(self)@.fail(node.spec_position(), msg@)),
    {
        self.fail_at(node.position(), msg)
    }

    /// The name of the function or procedure whose body is being
    /// generated.
    pub fn scope_name(&self) -> (s: &str)
        ensures
            s@ == self@.scope,
    {
        self.scope.as_str()
    }

    /// The number that the next label gets.
    pub fn label_number(&self) -> (n: usize)
        ensures
            n == self@.label,
    {
        self.label
    }

    /// The errors that the generator has found so far.
    pub fn compilation_errors(&self) -> (r: &Vec<CompilationError>)
        ensures
            compilation_views(r@) == self@.errors,
    {
        &self.c_errors
    }

    /// The syntax errors that the generator holds.
    pub fn parse_errors(&self) -> (r: &Vec<SyntaxError>)
        ensures
            r@ == self.syntax_errors(),
    {
        &self.s_errors
    }

    /// Generates the code of a node, whatever it is.
    pub fn compile_ast(&mut self, ast: &ASTNode)
        ensures
            final(self).generated(old(self), lower(*ast, old(self)@)),
        decreases ast, 5nat,
    {
        match ast {
            ASTNode::Program(p) => self.compile_program(p),
            ASTNode::ProgramName(node) => self.compile_program_name(node),
            ASTNode::FunctionDecl(f_node) => self.compile_function(f_node),
            ASTNode::ProcedureDecl(p_node) => self.compile_procedure(p_node),
            ASTNode::Block(b_node) => self.compile_block(b_node),
            ASTNode::BinaryExpression(exp_node) => self.compile_expression(exp_node),
            ASTNode::VarName(var_name) => self.compile_var_name(var_name),
            ASTNode::ArrayRef(a_ref_node) => self.compile_array_ref(a_ref_node),
            ASTNode::Literal(lit) => self.compile_lit(lit),
            ASTNode::UnaryExpression(expr) => self.compile_unary(expr),
            ASTNode::VarReassignment(ass) => self.compile_var_assignment(ass),
            ASTNode::VariableDecl(decl) => self.compile_var_decl(decl),
            ASTNode::WhileStmt(while_stmt) => self.compile_while(while_stmt),
            ASTNode::IfStmt(if_stmt) => self.compile_if(if_stmt),
            ASTNode::ElseStmt(else_stmt) => self.compile_else(else_stmt),
            ASTNode::PrintStmt(prnt) => self.compile_print(prnt),
            ASTNode::ReadStmt(read) => self.compile_read(read),
            ASTNode::AssertStmt(assert_stmt) => self.compile_assert(assert_stmt),
            ASTNode::FunctionCallStmt(fn_call) => self.compile_function_call(fn_call),
            ASTNode::ProcedureCallStmt(proc_call) => self.compile_procedure_call(proc_call),
            ASTNode::ReturnStmt(ret) => self.compile_return(ret),
            ASTNode::EofStmt(_) => {},
        }
    }

    /// Parses a source text and generates its code. Where the parser
    /// finds errors, they are handed out and nothing is generated.
    /// Else the code for the tree of the program is added to what the
    /// generator holds, and all of it is put between the header and the
    /// footer; the tree obeys the type rules, so the generator finds no
    /// error in it.
    pub fn compile(&mut self, source: String) -> (r: Result<(), Vec<SyntaxError>>)
        ensures
            final(self).syntax_errors() == old(self).syntax_errors(),
            match read_source(source@) {
                Ok(tree) => {
                    &&& r is Ok
                    &&& final(self)@ == code_of(tree, old(self)@)
                    &&& final(self).text() == rendered(final(self)@.code)
                    &&& same_errors(final(self)@, old(self)@)
                },
                Err(es) => {
                    &&& r matches Err(errors)
                    &&& error_views(errors@) == es
                    &&& errors@.len() >= 1
                    &&& final(self)@ == old(self)@
                    &&& final(self).text() == old(self).text()
                },
            },
    {
        let mut parser = Parser::new(source);
        match parser.parse() {
            Ok(ast) => {
                proof {
                    lemma_well_typed_clean(ast, self@);
                    lemma_code_of(ast, self@);
                }
                self.compile_ast(&ast);
                self.gen_source();
                Ok(())
            },
            Err(errs) => Err(errs),
        }
    }

    /// Compiles a source text and hands out the generated source text.
    /// Where the parser finds errors, they are added to the syntax
    /// errors of the generator, its state becomes that of an error, and
    /// the text that is handed out is empty.
    pub fn compile_source(&mut self, source: String) -> (text: String)
        ensures
            match read_source(source@) {
                Ok(tree) => {
                    &&& final(self)@ == code_of(tree, old(self)@)
                    &&& same_errors(final(self)@, old(self)@)
                    &&& text@ == rendered(final(self)@.code)
                    &&& final(self).text() == text@
                    &&& final(self).syntax_errors() == old(self).syntax_errors()
                },
                Err(es) => {
                    &&& text@.len() == 0
                    &&& final(self)@ == (Gen { sane: false, ..old(self)@ })
                    &&& final(self).text() == old(self).text()
                    &&& error_views(final(self).syntax_errors()) == error_views(
                        old(self).syntax_errors(),
                    ) + es
                },
            },
    {
        match self.compile(source) {
            Ok(_) => self.get_source(),
            Err(mut errs) => {
                assert(error_views(self.s_errors@ + errs@) =~= error_views(self.s_errors@)
                    + error_views(errs@));
                self.s_errors.append(&mut errs);
                self.state = State::Error;
                String::new()
            },
        }
    }

    /// Begins the body of another function or procedure.
    pub fn enter(&mut self, scope: &str)
        ensures
            final(self).generated(old(self), old(self)@.enter(scope@)),
    {
        self.scope = copy_str(scope);
    }

    pub fn f_ret_value(name: String) -> (s: String)
        ensures
            s@ == ret_value(name@),
    {
        join2(name.as_str(), "_return_value")
    }

    pub fn f_ret_ptr(name: String) -> (s: String)
        ensures
            s@ == ret_ptr(name@),
    {
        join2(name.as_str(), "_return_ptr")
    }

    pub fn type_for_last(r_type: Type) -> (s: String)
        ensures
            s@ == slot(r_type),
    {
        match r_type {
            Type::Simple(a) => match a {
                SimpleType::String => copy_str("str"),
                _ => a.to_c_type(),
            },
            Type::Array(a) => match a {
                SimpleType::String => copy_str("str_arr"),
                _ => {
                    let t = a.to_c_type();
                    join2(t.as_str(), "_arr")
                },
            },
        }
    }

    /// The variable that passes values of the type `t`.
    pub fn last_of(t: Type) -> (s: String)
        ensures
            s@ == last(t),
    {
        let name = Self::type_for_last(t);
        join2("last_", name.as_str())
    }

    /// The variable that stores the name `name` of the scope `scope`.
    pub fn storage_of(scope: &str, name: &str) -> (s: String)
        ensures
            s@ == storage(scope@, name@),
    {
        let lower = to_lower(name);
        join3(scope, "_", lower.as_str())
    }

    /// The number of a label as it is written.
    pub fn number(label: usize) -> (s: String)
        ensures
            s@ == num(label as int),
    {
        usize_to_string(label)
    }
}

impl Default for Compiler {
    fn default() -> (c: Self)
        ensures
            c@ == Gen::fresh(),
    {
        Self::new()
    }
}

} // verus!
