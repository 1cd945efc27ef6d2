use crate::base::ast::{ASTNode, FunctionDeclNode, ProcedureDeclNode, ReturnStmtNode};
use crate::base::token::Token;
use crate::base::errors::SyntaxError;
use crate::base::symbol_table::{Symbol, SymbolTable, SymbolType};
use crate::base::token::Kind;
use crate::base::types::Type;
use crate::base::tree::arguments;
use crate::parser::grammar::{
    paired, read_arguments, read_call_parameters, read_function_call, read_level, reads_as,
    summaries, summary, value_types, Value,
};
use crate::parser::rules::{function_call, types_of};
use crate::parser::state::single_error;
use crate::parser::syntax::{
    read_more_params, read_param_type, read_parameters, read_return, read_signature,
    entries_of, lemma_single_error, outcome_as, read_begin, read_body, read_function,
    read_single_param, statement_as, value_as, Signature,
};
use crate::parser::state::statement_parsed;
use crate::parser::Parser;
use crate::text::{join2, join3};
use vstd::prelude::*;

verus! {

impl Parser {
    /// Parses the rest of a parameter behind its name, which is the
    /// current token: `:`, the type, and the `,` or `)` behind it.
    pub fn parse_param_type(&mut self, by_reference: bool) -> (r: Result<Symbol, Vec<SyntaxError>>)
        ensures
            final(self)@.reads_on(old(self)@),
            match r {
                Ok(param) => {
                    &&& final(self)@.fuel() < old(self)@.fuel()
                    &&& param.args is None
                    &&& (final(self)@.current.kind == Kind::Comma || final(self)@.current.kind
                        == Kind::RightParen)
                },
                Err(errors) => errors@.len() == 1,
            },
            final(self)@ == read_param_type(old(self)@, by_reference).state,
            match read_param_type(old(self)@, by_reference).result {
                Ok(d) => r matches Ok(param) && param.declared() == d,
                Err(e) => r matches Err(errors) && single_error(errors@, e),
            },
    {
        reveal(read_param_type);
        self.settled();
        let id = self.current().clone();
        self.expect_advance(Kind::Colon)?;
        let r_type = self.parse_type()?;
        match self.advance().kind {
            Kind::Comma | Kind::RightParen => {
                let s_type = match r_type {
                    Type::Array(_) => SymbolType::Arr,
                    Type::Simple(_) => if by_reference {
                        SymbolType::VarParam
                    } else {
                        SymbolType::Param
                    },
                };
                Ok(Symbol::plain(id.lexeme, s_type, r_type, id.position))
            },
            other => Err(self.unexpected_token_err(Kind::RightParen, other)),
        }
    }

    /// Parses one parameter of a declaration: `var` for a parameter
    /// that is passed by reference, the name, `:` and the type, and the
    /// `,` or `)` behind it. A parameter of an array type has the role
    /// of an array.
    pub fn parse_single_param(&mut self) -> (r: Result<Symbol, Vec<SyntaxError>>)
        ensures
            final(self)@.reads_on(old(self)@),
            match r {
                Ok(param) => {
                    &&& final(self)@.fuel() < old(self)@.fuel()
                    &&& param.args is None
                    &&& (final(self)@.current.kind == Kind::Comma || final(self)@.current.kind
                        == Kind::RightParen)
                },
                Err(errors) => errors@.len() == 1,
            },
            final(self)@ == read_single_param(old(self)@).state,
            match read_single_param(old(self)@).result {
                Ok(d) => r matches Ok(param) && param.declared() == d,
                Err(e) => r matches Err(errors) && single_error(errors@, e),
            },
    {
        reveal(read_single_param);
        self.settled();
        match self.advance().kind {
            Kind::Var => {
                self.expect_advance(Kind::Identifier)?;
                self.parse_param_type(true)
            },
            Kind::Identifier => self.parse_param_type(false),
            other => {
                let found = other.to_string();
                let description = join2("Expected a param declaration, found ", found.as_str());
                Err(self.fail(description.as_str()))
            },
        }
    }

    /// Adds a parameter to those before it, whose names it must not
    /// have.
    pub(crate) fn add_param(&self, params: &mut SymbolTable, param: Symbol) -> (r: Result<
        (),
        Vec<SyntaxError>,
    >)
        requires
            param.args is None,
            forall|i: int|
                0 <= i < old(params).symbols@.len() ==> (#[trigger] old(params).symbols@[i]).args is None,
        ensures
            forall|i: int|
                0 <= i < final(params).symbols@.len() ==> (#[trigger] final(params).symbols@[i]).args
                    is None,
            match crate::base::symbol_table::declared_for(old(params).declarations(), param.name@) {
                Some(first) => r matches Err(errors) && single_error(
                    errors@,
                    self@.error(
                        crate::parser::redeclared_message(param.name@, first.entry.position),
                    ),
                ),
                None => r is Ok && final(params).declarations() == old(params).declarations().push(
                    param.declared(),
                ),
            },
    {
        match params.find(param.name.as_str()) {
            Some(first) => {
                let line = crate::text::i64_to_string(first.position.line);
                let col = crate::text::i64_to_string(first.position.col);
                let description = crate::text::join6(
                    "Declaration of an already declared variable: ",
                    param.name.as_str(),
                    ", previously declared at ",
                    line.as_str(),
                    ":",
                    col.as_str(),
                );
                Err(self.fail(description.as_str()))
            },
            None => {
                params.push(param);
                Ok(())
            },
        }
    }

    /// Parses the parameters behind those of `params`, up to the `)`.
    pub(crate) fn parse_more_params(&mut self, params: SymbolTable) -> (r: Result<
        SymbolTable,
        Vec<SyntaxError>,
    >)
        requires
            forall|i: int|
                0 <= i < params.symbols@.len() ==> (#[trigger] params.symbols@[i]).args is None,
        ensures
            final(self)@.reads_on(old(self)@),
            match r {
                Ok(all) => final(self)@.current.kind == Kind::RightParen && forall|i: int|
                    0 <= i < all.symbols@.len() ==> (#[trigger] all.symbols@[i]).args is None,
                Err(errors) => errors@.len() == 1,
            },
            final(self)@ == read_more_params(old(self)@, params.declarations()).state,
            match read_more_params(old(self)@, params.declarations()).result {
                Ok(ds) => r matches Ok(all) && all.declarations() == ds,
                Err(e) => r matches Err(errors) && single_error(errors@, e),
            },
        decreases old(self)@.fuel(),
    {
        reveal_with_fuel(read_more_params, 1);
        self.settled();
        let mut params = params;
        let param = self.parse_single_param()?;
        self.add_param(&mut params, param)?;
        if self.matches(Kind::RightParen) {
            Ok(params)
        } else {
            let ghost first = self@;
            let r = self.parse_more_params(params);
            proof {
                self@.lemma_reads_trans(first, old(self)@);
            }
            r
        }
    }

    /// Private function to parse parameters in a function/procedure
    /// declaration
    ///
    /// The current token is the `(`; the list ends with its `)`. No two
    /// parameters have the same name.
    pub fn parse_parameters(&mut self) -> (r: Result<SymbolTable, Vec<SyntaxError>>)
        ensures
            final(self)@.reads_on(old(self)@),
            match r {
                Ok(params) => final(self)@.current.kind == Kind::RightParen && forall|i: int|
                    0 <= i < params.symbols@.len() ==> (#[trigger] params.symbols@[i]).args is None,
                Err(errors) => errors@.len() == 1,
            },
            final(self)@ == read_parameters(old(self)@).state,
            match read_parameters(old(self)@).result {
                Ok(ds) => r matches Ok(params) && params.declarations() == ds,
                Err(e) => r matches Err(errors) && single_error(errors@, e),
            },
    {
        reveal(read_parameters);
        self.settled();
        self.advance();
        if self.matches(Kind::RightParen) {
            return Ok(SymbolTable::new());
        }
        self.go_back();
        let ghost begun = self@;
        let r = self.parse_more_params(SymbolTable::new());
        proof {
            self@.lemma_reads_trans(begun, old(self)@);
        }
        r
    }

    /// Parses the end of a signature: `;` and `begin`.
    pub fn parse_signature_end(&mut self) -> (r: Result<(), Vec<SyntaxError>>)
        ensures
            final(self)@.reads_on(old(self)@),
            match r {
                Ok(_) => final(self)@.current.kind == Kind::Begin,
                Err(errors) => errors@.len() == 1,
            },
            value_as(r, final(self)@, read_begin(old(self)@)),
    {
        reveal(read_begin);
        self.settled();
        self.expect_advance(Kind::Semicolon)?;
        self.expect_advance(Kind::Begin)?;
        Ok(())
    }

    /// Parses the signature of a function or of a procedure, from its
    /// name to the `begin` of its body: the name, the parameters in
    /// parentheses, for a function `:` and the type of its result, and `;`.
    /// For a procedure the type is `Void`.
    pub fn parse_signature(&mut self, with_result: bool) -> (r: Result<
        (crate::base::token::Token, SymbolTable, Type),
        Vec<SyntaxError>,
    >)
        ensures
            final(self)@.reads_on(old(self)@),
            match r {
                Ok((id, params, r_type)) => {
                    &&& final(self)@.current.kind == Kind::Begin
                    &&& id.kind == Kind::Identifier
                    &&& (with_result ==> r_type.base() != crate::base::types::SimpleType::Void)
                    &&& (!with_result ==> r_type == crate::base::ast::void())
                    &&& forall|i: int|
                        0 <= i < params.symbols@.len() ==> (#[trigger] params.symbols@[i]).args is None
                },
                Err(errors) => errors@.len() == 1,
            },
            final(self)@ == read_signature(old(self)@, with_result).state,
            match read_signature(old(self)@, with_result).result {
                Ok(sig) => r matches Ok((id, params, r_type)) && id@ == sig.id
                    && params.declarations() == sig.params && r_type == sig.r_type,
                Err(e) => r matches Err(errors) && single_error(errors@, e),
            },
    {
        reveal(read_signature);
        reveal(crate::parser::syntax::read_signature_end);
        reveal(read_begin);
        self.settled();
        self.expect_advance(Kind::Identifier)?;
        let id = self.current().clone();
        self.expect_advance(Kind::LeftParen)?;
        let args = self.parse_parameters()?;
        let r_type = if with_result {
            self.expect_advance(Kind::Colon)?;
            self.parse_type()?
        } else {
            Type::Simple(crate::base::types::SimpleType::Void)
        };
        self.parse_signature_end()?;
        Ok((id, args, r_type))
    }

    /// Parses the body of a function or procedure whose signature was
    /// read: the routine is declared in the innermost scope, so that
    /// its body and what follows can call it, and the body is parsed as
    /// a block in a scope of its own that holds the parameters.
    pub(crate) fn parse_body(&mut self, id: Token, args: SymbolTable, r_type: Type, function: bool) -> (r:
        Result<ASTNode, Vec<SyntaxError>>)
        requires
            forall|i: int| 0 <= i < args.symbols@.len() ==> (#[trigger] args.symbols@[i]).args is None,
        ensures
            statement_parsed(old(self)@, final(self)@, r),
            r matches Ok(node) ==> (if function {
                node is FunctionDecl
            } else {
                node is ProcedureDecl
            }),
            outcome_as(
                r,
                final(self)@,
                read_body(
                    old(self)@,
                    (Signature { id: id@, params: args.declarations(), r_type }),
                    if function {
                        SymbolType::Function
                    } else {
                        SymbolType::Procedure
                    },
                ),
            ),
    {
        reveal(read_body);
        self.settled();
        let role = if function {
            SymbolType::Function
        } else {
            SymbolType::Procedure
        };
        let copy = args.copy_entries();
        let seed = args.copy_entries();
        proof {
            assert(copy.entries() =~= entries_of(args.declarations()));
            assert(seed.declarations() =~= args.declarations());
        }
        let symbol = Symbol {
            name: id.lexeme.clone(),
            s_type: role,
            r_type,
            position: id.position,
            args: Some(Box::new(copy)),
        };
        let ghost declared_symbol = symbol.declared();
        match self.declare(symbol) {
            Ok(_) => {},
            Err(errors) => {
                proof {
                    self@.lemma_reads_declares(old(self)@);
                    lemma_single_error(
                        errors@,
                        old(self)@.error(Parser::cannot_declare(old(self)@, id.lexeme@)),
                    );
                }
                return Err(errors);
            },
        }
        let ghost declared = self@;
        proof {
            old(self)@.lemma_declared(declared_symbol);
        }
        let body = self.parse_block_with(seed);
        proof {
            self@.lemma_reads_declares(declared);
            self@.lemma_declares_trans(declared, old(self)@);
        }
        let block = body?;
        if function {
            Ok(
                ASTNode::FunctionDecl(
                    FunctionDeclNode {
                        name: id.lexeme,
                        position: id.position,
                        args,
                        block: Box::new(block),
                        r_type,
                    },
                ),
            )
        } else {
            Ok(
                ASTNode::ProcedureDecl(
                    ProcedureDeclNode {
                        position: id.position,
                        name: id.lexeme,
                        args,
                        block: Box::new(block),
                    },
                ),
            )
        }
    }

    /// Parsing of a function block, returns either the corresponding
    /// ASTNode or a vector containing the found SyntaxErrors
    ///
    /// The current token is `function`; the declaration ends with the
    /// `end` of its body. Once the signature is read the function is
    /// declared in the innermost scope, so that its body and what
    /// follows can call it; the body is parsed in a scope of its own
    /// that holds the parameters.
    pub fn parse_function(&mut self) -> (r: Result<ASTNode, Vec<SyntaxError>>)
        ensures
            statement_parsed(old(self)@, final(self)@, r),
            r matches Ok(node) ==> node is FunctionDecl,
            outcome_as(r, final(self)@, read_function(old(self)@)),
    {
        reveal(read_function);
        self.settled();
        let (id, args, r_type) = match self.parse_signature(true) {
            Ok(signature) => signature,
            Err(errors) => {
                proof {
                    self@.lemma_reads_declares(old(self)@);
                    lemma_single_error(errors@, read_signature(old(self)@, true).result->Err_0);
                }
                return Err(errors);
            },
        };
        let ghost signed = self@;
        let r = self.parse_body(id, args, r_type, true);
        proof {
            signed.lemma_reads_declares(old(self)@);
            self@.lemma_declares_trans(signed, old(self)@);
        }
        r
    }

    /// Parses a return statement. The current token is `return`; the
    /// statement ends with its `;`, before which an expression may
    /// stand.
    pub fn parse_return(&mut self) -> (r: Result<ASTNode, Vec<SyntaxError>>)
        ensures
            final(self)@.reads_on(old(self)@),
            match r {
                Ok(node) => node.well_typed() && node is ReturnStmt,
                Err(errors) => errors@.len() == 1,
            },
            statement_as(r, final(self)@, read_return(old(self)@)),
    {
        reveal(read_return);
        self.settled();
        let id = self.current().clone();
        match self.advance().kind {
            Kind::Semicolon => Ok(ASTNode::ReturnStmt(ReturnStmtNode { token: id, value: None })),
            _ => {
                self.go_back();
                let expr = self.parse_expression()?;
                self.expect_current(Kind::Semicolon)?;
                Ok(ASTNode::ReturnStmt(ReturnStmtNode { token: id, value: Some(Box::new(expr)) }))
            },
        }
    }

    /// Parses the arguments of a call, from the `(`, which is the
    /// current token: expressions with a comma between two of them. It
    /// ends with the current token behind the last argument.
    #[verifier::loop_isolation(false)]
    pub fn parse_call_parameters(&mut self) -> (r: Result<Vec<ASTNode>, Vec<SyntaxError>>)
        ensures
            final(self)@.reads_on(old(self)@),
            match r {
                Ok(args) => forall|i: int| 0 <= i < args@.len() ==> (#[trigger] args@[i]).well_typed(),
                Err(errors) => errors@.len() == 1,
            },
            final(self)@ == read_call_parameters(old(self)@).state,
            match read_call_parameters(old(self)@).result {
                Ok(values) => r matches Ok(args) && summaries(args@) == values,
                Err(e) => r matches Err(errors) && single_error(errors@, e),
            },
        decreases old(self)@.fuel(), 10nat,
    {
        reveal_with_fuel(read_call_parameters, 1);
        reveal_with_fuel(read_arguments, 1);
        reveal_with_fuel(read_level, 1);
        self.settled();
        let mut params: Vec<ASTNode> = Vec::new();
        self.advance();
        if self.matches(Kind::RightParen) {
            assert(summaries(params@) =~= Seq::<Value>::empty());
            return Ok(params);
        }
        self.go_back();
        assert(summaries(params@) =~= Seq::<Value>::empty());
        loop
            invariant
                self@.reads_on(old(self)@),
                forall|i: int| 0 <= i < params@.len() ==> (#[trigger] params@[i]).well_typed(),
                read_arguments(self@, summaries(params@)) == read_call_parameters(old(self)@),
            decreases self@.fuel(),
        {
            let ghost before = params@;
            let node = self.parse_expression()?;
            params.push(node);
            assert(summaries(params@) =~= summaries(before).push(summary(node)));
            if !self.matches(Kind::Comma) {
                return Ok(params);
            }
        }
    }

    /// Parses a call of the function that the current token names, up
    /// to its `)`. The call must have as many arguments as the function
    /// has parameters, each of the type of its parameter; its type is
    /// the type that the function returns.
    pub fn parse_function_call(&mut self) -> (r: Result<ASTNode, Vec<SyntaxError>>)
        ensures
            final(self)@.reads_on(old(self)@),
            match r {
                Ok(node) => {
                    &&& node.well_typed()
                    &&& node is FunctionCallStmt
                    &&& crate::parser::state::resolve(
                        old(self)@.scopes,
                        old(self)@.current.lexeme,
                    ) matches Some(callee)
                    &&& callee.entry.s_type == SymbolType::Function
                    &&& node.spec_r_type() == callee.entry.r_type
                },
                Err(errors) => errors@.len() == 1,
            },
            reads_as(r, final(self)@, read_function_call(old(self)@)),
        decreases old(self)@.fuel(), 8nat,
    {
        reveal_with_fuel(read_function_call, 1);
        reveal_with_fuel(read_call_parameters, 1);
        self.settled();
        let f_name = self.current().clone();
        match self.resolve_symbol(f_name.lexeme.as_str()) {
            Some(f_sym) => {
                match f_sym.s_type {
                    SymbolType::Function => {},
                    _ => {
                        let description = join2(
                            f_name.lexeme.as_str(),
                            " exists, but is not a function",
                        );
                        return Err(self.fail(description.as_str()));
                    },
                }
                self.expect_advance(Kind::LeftParen)?;
                let params = self.parse_call_parameters()?;
                assert(types_of(params@) =~= value_types(summaries(params@)));
                match f_sym.params {
                    Some(declared) => {
                        let ghost given = params@;
                        let call = self.lift(
                            function_call(
                                f_name.position,
                                f_sym.name,
                                f_sym.r_type,
                                &declared,
                                params,
                            ),
                        )?;
                        assert(call matches ASTNode::FunctionCallStmt(f) && arguments(f.args@)
                            =~= paired(declared.entries(), summaries(given)));
                        self.expect_current(Kind::RightParen)?;
                        Ok(call)
                    },
                    None => Err(self.fail("Initialized function with empty arg table")),
                }
            },
            None => {
                let description = join3("Unknown function \"", f_name.lexeme.as_str(), "\"");
                Err(self.fail(description.as_str()))
            },
        }
    }
}

} // verus!
