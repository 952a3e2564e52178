use vstd::prelude::*;

use crate::issue::{concat3, ThrushError};
use crate::objects::{
    global_model, global_table, new_global_table, Global, new_struct_fields, no_fields, no_globals, no_locals, no_structs,
    struct_fields, struct_fields_insert, struct_table, DataTypes, ParserObjects, StructFieldsMap,
};
use crate::tokens::{spec_token_text, Token, TokenKind};

verus! {

broadcast use vstd::seq_lib::group_seq_properties;

/// The statements the import preprocessor produces.
#[derive(Debug)]
pub enum Instruction {
    /// A function parameter: its name, type, line and position.
    Param { name: String, kind: DataTypes, line: usize, position: u32 },
    /// A function: its name, parameters, body (none for a declaration), return
    /// type and whether it is public.
    Function {
        name: String,
        params: Vec<Instruction>,
        body: Option<Box<Instruction>>,
        return_type: DataTypes,
        is_public: bool,
    },
    /// A declaration that comes from another file.
    Extern { name: String, instr: Box<Instruction>, kind: TokenKind },
}

/// The preprocessor that collects the public declarations of an imported file.
pub struct Import {
    pub tokens: Vec<Token>,
    pub stmts: Vec<Instruction>,
    pub errors: Vec<ThrushError>,
    pub current: usize,
    pub parser_objects: ParserObjects,
}

/// The error reported when the end of the tokens is reached.
pub open spec fn is_eof_error(e: ThrushError, line: usize) -> bool {
    e matches ThrushError::Error(title, help, l, extra) && title@ == "Syntax error"@ && help@
        == "EOF has been reached."@ && l == line && extra@ == Seq::<char>::empty()
}

/// The error with the given title, help and line, and no further text.
pub open spec fn is_error(e: ThrushError, title: Seq<char>, help: Seq<char>, line: usize) -> bool {
    e matches ThrushError::Error(t, h, l, extra) && t@ == title && h@ == help && l == line && extra@
        == Seq::<char>::empty()
}

fn eof_error(line: usize) -> (r: ThrushError)
    ensures
        is_eof_error(r, line),
{
    proof {
        reveal_strlit("Syntax error");
        reveal_strlit("EOF has been reached.");
    }
    ThrushError::Error(String::from_str("Syntax error"), String::from_str("EOF has been reached."), line, String::new())
}

/// What reading a type at the current token of `before` does: a data type, or the
/// name of a declared structure, is stepped over and the end of the tokens is
/// reported on its line; any other token stays where it is and is reported on
/// `line` as a type that does not exist.
pub open spec fn type_outcome(before: Import, after: Import, r: Result<DataTypes, ThrushError>, line: usize) -> bool {
    let c = before.current as int;
    let k = before.kind_at(c);
    if k is DataType || (k is Identifier && struct_table(before.parser_objects.structs).dom().contains(
        before.tokens@[c].lexeme->Some_0@,
    )) {
        &&& after.current == c + 1
        &&& r matches Err(e) && is_eof_error(e, before.tokens@[c].line)
    } else {
        &&& after.current == c
        &&& r matches Err(e) && is_error(e, "Undeterminated type"@, "Type \""@ + spec_token_text(k) + "\" not exist."@, line)
    }
}

/// What reading a function declaration after `fn`, at the current token of
/// `before`, does. Without a name, or without `(` after it, the matching syntax
/// error is returned on the line of `fn`. At the first token after `(`: a `)`, a
/// `,`, a `pass` or a parameter name is stepped over and the end of the tokens is
/// reported on its line. Otherwise a missing argument name is recorded; a `::` is
/// then stepped over and the end of the tokens reported; else a missing `::` is
/// recorded too (on the line of the `(`) and the token is read as a type (see
/// `type_outcome`). Nothing is declared.
pub open spec fn function_outcome(before: Import, after: Import, r: Result<(), ThrushError>) -> bool {
    let t = before.tokens@;
    let c = before.current as int;
    let line = t[c - 1].line;
    let p = c + 2;
    let n = before.errors@.len();
    &&& after.tokens == before.tokens
    &&& after.stmts == before.stmts
    &&& after.parser_objects == before.parser_objects
    &&& if !(t[c].kind is Identifier) {
        &&& after.current == c
        &&& after.errors@ == before.errors@
        &&& r matches Err(e) && is_error(e, "Expected function name"@, "Expected a name to the function."@, line)
    } else if !(t[c + 1].kind is LParen) {
        &&& after.current == c + 1
        &&& after.errors@ == before.errors@
        &&& r matches Err(e) && is_error(e, "Syntax Error"@, "Expected '('."@, line)
    } else if t[p].kind is RParen || t[p].kind is Comma || t[p].kind is Pass || t[p].kind is Identifier {
        &&& after.current == p + 1
        &&& after.errors@ == before.errors@
        &&& r matches Err(e) && is_eof_error(e, t[p].line)
    } else if t[p].kind is ColonColon {
        &&& after.current == p + 1
        &&& after.errors@.len() == n + 1
        &&& after.errors@.take(n as int) == before.errors@
        &&& is_error(after.errors@[n as int], "Syntax Error"@, "Expected argument name."@, line)
        &&& r matches Err(e) && is_eof_error(e, t[p].line)
    } else {
        &&& after.errors@.len() == n + 2
        &&& after.errors@.take(n as int) == before.errors@
        &&& is_error(after.errors@[n as int], "Syntax Error"@, "Expected argument name."@, line)
        &&& is_error(after.errors@[n + 1int], "Syntax Error"@, "Expected '::'."@, t[p - 1].line)
        &&& if t[p].kind is DataType {
            &&& after.current == p + 1
            &&& r matches Err(e) && is_eof_error(e, t[p].line)
        } else {
            &&& after.current == p
            &&& r matches Err(e) && is_error(
                e,
                "Undeterminated type"@,
                "Type \""@ + spec_token_text(t[p].kind) + "\" not exist."@,
                t[p - 1].line,
            )
        }
    }
}

impl Import {
    /// The tokens end with an end-of-file token and the position is on a token.
    pub open spec fn wf(&self) -> bool {
        &&& self.tokens@.len() > 0
        &&& self.tokens@.last().kind is Eof
        &&& self.current < self.tokens@.len()
    }

    pub open spec fn kind_at(&self, i: int) -> TokenKind {
        self.tokens@[i].kind
    }

    pub open spec fn at_end(&self) -> bool {
        self.kind_at(self.current as int) is Eof
    }

    /// The position after one step forward, which stays on the final token.
    pub open spec fn stepped(&self) -> int {
        if self.at_end() { self.current as int } else { self.current + 1 }
    }

    /// Everything but the position is as in `other`.
    pub open spec fn same_but_position(&self, other: &Import) -> bool {
        &&& self.tokens == other.tokens
        &&& self.stmts == other.stmts
        &&& self.errors == other.errors
        &&& self.parser_objects == other.parser_objects
    }

    /// Collects the public declarations of an imported file from its tokens: the
    /// statements produced and the tables of declared objects, or the errors found.
    pub fn generate(tokens: Vec<Token>) -> (r: Result<(Vec<Instruction>, ParserObjects), Vec<ThrushError>>)
        requires
            tokens@.len() > 0,
            tokens@.last().kind is Eof,
        ensures
            r matches Ok((stmts, objects)) && stmts@.len() == 0 && objects.scopes() == seq![no_locals()]
                && global_table(objects.globals) == no_globals() && struct_table(objects.structs)
                == no_structs(),
    {
        let imports: Import = Import {
            tokens,
            stmts: Vec::new(),
            errors: Vec::new(),
            current: 0,
            parser_objects: ParserObjects::new(new_global_table()),
        };
        Import::parse(imports)
    }

    fn parse(imports: Import) -> (r: Result<(Vec<Instruction>, ParserObjects), Vec<ThrushError>>)
        requires
            imports.wf(),
            imports.current == 0,
        ensures
            imports.errors@.len() == 0 ==> r == Ok::<(Vec<Instruction>, ParserObjects), Vec<ThrushError>>(
                (imports.stmts, imports.parser_objects),
            ),
            imports.errors@.len() > 0 ==> r == Err::<(Vec<Instruction>, ParserObjects), Vec<ThrushError>>(
                imports.errors,
            ),
    {
        let mut this: Import = imports;
        let ghost start = this;
        while !this.end()
            invariant_except_break
                this.wf(),
                this.same_but_position(&start),
                this.current == 0,
            ensures
                this.same_but_position(&start),
            decreases this.tokens@.len() - this.current,
        {
            if let Ok(true) = this.match_token(TokenKind::Public) {
                if let Err(e) = this.public() {
                    this.errors.push(e);
                }
            }
            if this.only_advance().is_err() {
                break;
            }
        }
        if this.errors.len() > 0 {
            return Err(this.errors);
        }
        Ok((this.stmts, this.parser_objects))
    }

    fn public(&mut self) -> (r: Result<(), ThrushError>)
        requires
            old(self).wf(),
            old(self).current >= 1,
        ensures
            final(self).wf(),
            final(self).same_but_position(old(self)),
            ({
                let k = old(self).kind_at(old(self).current as int);
                if k is Extern || k is Fn || k is Struct {
                    &&& final(self).current == old(self).stepped()
                    &&& r matches Err(e) && is_eof_error(e, final(self).tokens@[final(self).current - 1].line)
                } else {
                    final(self).current == old(self).current && r is Ok
                }
            }),
    {
        if self.peek().kind == TokenKind::Extern {
            while self.peek().kind != TokenKind::Fn || self.peek().kind != TokenKind::Struct
                invariant
                    self.wf(),
                    self.same_but_position(old(self)),
                    self.current == old(self).current,
                    old(self).current >= 1,
                    old(self).kind_at(old(self).current as int) is Extern,
                decreases self.tokens@.len() - self.current,
            {
                self.only_advance()?;
            }
        }
        if self.match_token(TokenKind::Fn)? {
            self.build_function()?;
            return Ok(());
        }
        if self.match_token(TokenKind::Struct)? {
            self.build_struct()?;
            return Ok(());
        }
        Ok(())
    }

    fn lexeme_of(&self, i: usize) -> (r: String)
        requires
            i < self.tokens@.len(),
            self.tokens@[i as int].lexeme is Some,
        ensures
            r == self.tokens@[i as int].lexeme->Some_0,
    {
        match &self.tokens[i].lexeme {
            Some(text) => text.clone(),
            None => String::new(),
        }
    }

    fn build_struct(&mut self) -> (r: Result<(), ThrushError>)
        requires
            old(self).wf(),
            old(self).current >= 1,
            forall|i: int| 0 <= i < old(self).tokens@.len() ==> (#[trigger] old(self).tokens@[i]).lexeme is Some,
        ensures
            final(self).wf(),
            final(self).tokens == old(self).tokens,
            final(self).stmts == old(self).stmts,
            final(self).errors == old(self).errors,
            final(self).parser_objects.locals == old(self).parser_objects.locals,
            final(self).parser_objects.globals == old(self).parser_objects.globals,
            ({
                let c = old(self).current as int;
                let t = old(self).tokens@;
                if c + 3 < t.len() && t[c].kind is Identifier && t[c + 1].kind is LBrace && t[c + 2].kind is RBrace
                    && t[c + 3].kind is SemiColon {
                    &&& r is Ok
                    &&& final(self).current == c + 4
                    &&& struct_table(final(self).parser_objects.structs).dom() == struct_table(
                        old(self).parser_objects.structs,
                    ).dom().insert(t[c].lexeme->Some_0@)
                    &&& struct_fields(struct_table(final(self).parser_objects.structs)[t[c].lexeme->Some_0@])
                        == no_fields()
                } else {
                    r is Err && final(self).parser_objects.structs == old(self).parser_objects.structs
                }
            }),
    {
        proof {
            reveal_strlit("Expected struct name");
            reveal_strlit("Write the struct name: \"struct --> name <-- { ... };\".");
            reveal_strlit("Syntax Error");
            reveal_strlit("Expected '{'.");
            reveal_strlit("Expected '}'.");
            reveal_strlit("Expected ';'.");
        }
        let name_line: usize = self.previous().line;
        let name_index: usize = self.consume(
            TokenKind::Identifier,
            String::from_str("Expected struct name"),
            String::from_str("Write the struct name: \"struct --> name <-- { ... };\"."),
            name_line,
        )?;
        let name: String = self.lexeme_of(name_index);
        let line: usize = self.previous().line;
        self.consume(
            TokenKind::LBrace,
            String::from_str("Syntax Error"),
            String::from_str("Expected '{'."),
            line,
        )?;
        let mut fields_types: StructFieldsMap = new_struct_fields();
        while self.peek().kind != TokenKind::RBrace
            invariant
                self.wf(),
                self.same_but_position(old(self)),
                self.current == old(self).current + 2,
                forall|i: int| 0 <= i < self.tokens@.len() ==> (#[trigger] self.tokens@[i]).lexeme is Some,
                struct_fields(fields_types) == no_fields(),
            decreases self.tokens@.len() - self.current,
        {
            if self.match_token(TokenKind::Comma)? {
                continue;
            }
            if self.match_token(TokenKind::Identifier)? {
                let field_index: usize = (self.current - 1) as usize;
                let field_name: String = self.lexeme_of(field_index);
                let field_line: usize = self.previous().line;
                let field_type: DataTypes = match self.peek().kind {
                    TokenKind::DataType(kind) => {
                        self.only_advance()?;
                        kind
                    },
                    _ => {
                        let peeked: String = self.lexeme_of(self.current);
                        if self.peek().kind == TokenKind::Identifier && self.parser_objects.get_struct(
                            peeked.as_str(),
                            field_line,
                        ).is_ok() || name == peeked {
                            self.only_advance()?;
                            DataTypes::Struct
                        } else {
                            proof {
                                reveal_strlit("Expected type of field");
                                reveal_strlit("Write the field type: \"");
                                reveal_strlit(" --> i64 <--\".");
                            }
                            return Err(
                                ThrushError::Error(
                                    String::from_str("Expected type of field"),
                                    concat3(
                                        "Write the field type: \"",
                                        field_name.as_str(),
                                        " --> i64 <--\".",
                                    ),
                                    field_line,
                                    String::new(),
                                ),
                            );
                        }
                    },
                };
                struct_fields_insert(&mut fields_types, field_name, field_type);
                continue;
            }
            self.only_advance()?;
        }
        self.consume(
            TokenKind::RBrace,
            String::from_str("Syntax Error"),
            String::from_str("Expected '}'."),
            line,
        )?;
        self.consume(
            TokenKind::SemiColon,
            String::from_str("Syntax Error"),
            String::from_str("Expected ';'."),
            line,
        )?;
        self.add_struct(name, fields_types);
        Ok(())
    }

    fn build_function(&mut self) -> (r: Result<(), ThrushError>)
        requires
            old(self).wf(),
            old(self).current >= 1,
            forall|i: int| 0 <= i < old(self).tokens@.len() ==> (#[trigger] old(self).tokens@[i]).lexeme is Some,
        ensures
            final(self).wf(),
            function_outcome(*old(self), *final(self), r),
    {
        proof {
            reveal_strlit("Expected function name");
            reveal_strlit("Expected a name to the function.");
            reveal_strlit("Syntax Error");
            reveal_strlit("Expected '('.");
            reveal_strlit("Expected argument name.");
            reveal_strlit("Expected '::'.");
            reveal_strlit("Undeterminated type");
            reveal_strlit("Type \"");
            reveal_strlit("\" not exist.");
        }
        let line: usize = self.previous().line;
        let name_index: usize = self.consume(
            TokenKind::Identifier,
            String::from_str("Expected function name"),
            String::from_str("Expected a name to the function."),
            line,
        )?;
        let name: String = self.lexeme_of(name_index);
        self.consume(
            TokenKind::LParen,
            String::from_str("Syntax Error"),
            String::from_str("Expected '('."),
            line,
        )?;
        let mut params: Vec<Instruction> = Vec::new();
        let mut params_types: Vec<DataTypes> = Vec::new();
        let mut param_position: u32 = 0;
        let ghost errors_start = self.errors@;
        while !self.match_token(TokenKind::RParen)?
            invariant
                self.wf(),
                self.tokens == old(self).tokens,
                self.stmts == old(self).stmts,
                self.parser_objects == old(self).parser_objects,
                self.current >= 1,
                forall|i: int| 0 <= i < self.tokens@.len() ==> (#[trigger] self.tokens@[i]).lexeme is Some,
                errors_start == old(self).errors@,
                self.errors@ == old(self).errors@,
                params_types@.len() == 0,
                self.current == old(self).current + 2,
                old(self).kind_at(old(self).current as int) is Identifier,
                old(self).kind_at(old(self).current + 1) is LParen,
                line == old(self).tokens@[old(self).current - 1].line,
            decreases self.tokens@.len() - self.current,
        {
            if self.match_token(TokenKind::Comma)? {
                continue;
            }
            if self.match_token(TokenKind::Pass)? {
                continue;
            }
            if !self.match_token(TokenKind::Identifier)? {
                self.errors.push(
                    ThrushError::Error(
                        String::from_str("Syntax Error"),
                        String::from_str("Expected argument name."),
                        line,
                        String::new(),
                    ),
                );
            }
            proof {
                let n = old(self).errors@.len() as int;
                assert(self.errors@.take(n) =~= old(self).errors@);
                assert(is_error(self.errors@[n], "Syntax Error"@, "Expected argument name."@, line));
            }
            let ident: String = self.lexeme_of((self.current - 1) as usize);
            let param_line: usize = self.previous().line;
            if !self.match_token(TokenKind::ColonColon)? {
                self.errors.push(
                    ThrushError::Error(
                        String::from_str("Syntax Error"),
                        String::from_str("Expected '::'."),
                        param_line,
                        String::new(),
                    ),
                );
            }
            proof {
                let n = old(self).errors@.len() as int;
                assert(self.errors@.take(n) =~= old(self).errors@);
                assert(is_error(self.errors@[n], "Syntax Error"@, "Expected argument name."@, line));
                assert(is_error(self.errors@[n + 1], "Syntax Error"@, "Expected '::'."@, param_line));
            }
            let kind: DataTypes = self.declared_type(param_line)?;
            params.push(Instruction::Param { name: ident, kind, line: param_line, position: param_position });
            params_types.push(kind);
            param_position = param_position + 1;
        }
        self.consume(
            TokenKind::Colon,
            String::from_str("Syntax Error"),
            String::from_str("Missing return type. Expected ':' followed by return type."),
            line,
        )?;
        let return_type: DataTypes = self.declared_type(line)?;
        self.add_build_function(name.clone(), return_type, params_types);
        self.stmts.push(
            Instruction::Extern {
                name: name.clone(),
                instr: Box::new(
                    Instruction::Function { name, params, body: None, return_type, is_public: true },
                ),
                kind: TokenKind::Fn,
            },
        );
        Ok(())
    }

    /// Reads the type written at the current token: a data type, or the name of a
    /// declared structure.
    fn declared_type(&mut self, line: usize) -> (r: Result<DataTypes, ThrushError>)
        requires
            old(self).wf(),
            old(self).current >= 1,
            forall|i: int| 0 <= i < old(self).tokens@.len() ==> (#[trigger] old(self).tokens@[i]).lexeme is Some,
        ensures
            final(self).wf(),
            final(self).same_but_position(old(self)),
            type_outcome(*old(self), *final(self), r, line),
    {
        proof {
            reveal_strlit("Undeterminated type");
            reveal_strlit("Type \"");
            reveal_strlit("\" not exist.");
        }
        match self.peek().kind {
            TokenKind::DataType(kind) => {
                self.only_advance()?;
                Ok(kind)
            },
            what => {
                let peeked: String = self.lexeme_of(self.current);
                if what == TokenKind::Identifier && self.parser_objects.get_struct(peeked.as_str(), line).is_ok() {
                    self.only_advance()?;
                    Ok(DataTypes::Struct)
                } else {
                    let described: String = what.to_text();
                    Err(
                        ThrushError::Error(
                            String::from_str("Undeterminated type"),
                            concat3("Type \"", described.as_str(), "\" not exist."),
                            line,
                            String::new(),
                        ),
                    )
                }
            },
        }
    }

    fn add_build_function(&mut self, name: String, kind: DataTypes, datatypes: Vec<DataTypes>)
        ensures
            global_table(final(self).parser_objects.globals) == global_table(
                old(self).parser_objects.globals,
            ).insert(name@, global_table(final(self).parser_objects.globals)[name@]),
            global_model(global_table(final(self).parser_objects.globals)[name@]) == (
                kind,
                datatypes@,
                Seq::<(Seq<char>, usize)>::empty(),
                true,
                false,
            ),
            final(self).parser_objects.locals == old(self).parser_objects.locals,
            final(self).parser_objects.structs == old(self).parser_objects.structs,
            final(self).tokens == old(self).tokens,
            final(self).stmts == old(self).stmts,
            final(self).errors == old(self).errors,
            final(self).current == old(self).current,
    {
        let global: Global = (kind, datatypes, Vec::new(), true, false);
        assert(global_model(global).2 =~= Seq::<(Seq<char>, usize)>::empty());
        self.parser_objects.insert_new_global(name, global);
    }

    fn add_struct(&mut self, name: String, fields: StructFieldsMap)
        ensures
            struct_table(final(self).parser_objects.structs) == struct_table(
                old(self).parser_objects.structs,
            ).insert(name@, fields),
            final(self).parser_objects.locals == old(self).parser_objects.locals,
            final(self).parser_objects.globals == old(self).parser_objects.globals,
            final(self).tokens == old(self).tokens,
            final(self).stmts == old(self).stmts,
            final(self).errors == old(self).errors,
            final(self).current == old(self).current,
    {
        self.parser_objects.insert_new_struct(name, fields);
    }

    fn consume(&mut self, kind: TokenKind, error_title: String, help: String, line: usize) -> (r: Result<usize, ThrushError>)
        requires
            old(self).wf(),
            old(self).current >= 1,
        ensures
            final(self).wf(),
            final(self).same_but_position(old(self)),
            old(self).kind_at(old(self).current as int) == kind ==> {
                &&& final(self).current == old(self).stepped()
                &&& if old(self).at_end() {
                    r matches Err(e) && is_eof_error(e, final(self).tokens@[final(self).current - 1].line)
                } else {
                    r == Ok::<usize, ThrushError>(old(self).current)
                }
            },
            old(self).kind_at(old(self).current as int) != kind ==> {
                &&& final(self).current == old(self).current
                &&& r matches Err(e) && is_error(e, error_title@, help@, line)
            },
            final(self).current >= old(self).current,
    {
        if self.peek().kind == kind {
            return self.advance();
        }
        Err(ThrushError::Error(error_title, help, line, String::new()))
    }

    fn match_token(&mut self, kind: TokenKind) -> (r: Result<bool, ThrushError>)
        requires
            old(self).wf(),
            !(old(self).current == 0 && old(self).at_end()),
        ensures
            final(self).wf(),
            final(self).same_but_position(old(self)),
            old(self).kind_at(old(self).current as int) == kind ==> {
                &&& final(self).current == old(self).stepped()
                &&& r matches Err(e) && is_eof_error(e, final(self).tokens@[final(self).current - 1].line)
            },
            old(self).kind_at(old(self).current as int) != kind ==> final(self).current == old(self).current
                && r == Ok::<bool, ThrushError>(false),
            final(self).current >= old(self).current,
    {
        if self.peek().kind == kind {
            self.only_advance()?;
            return Ok(true);
        }
        Ok(false)
    }

    /// Steps forward unless at the end, then reports that the end was reached.
    fn only_advance(&mut self) -> (r: Result<(), ThrushError>)
        requires
            old(self).wf(),
            !(old(self).current == 0 && old(self).at_end()),
        ensures
            final(self).wf(),
            final(self).same_but_position(old(self)),
            final(self).current == old(self).stepped(),
            final(self).current >= 1,
            r matches Err(e) && is_eof_error(e, final(self).tokens@[final(self).current - 1].line),
    {
        let count: usize = self.tokens.len();
        if !self.end() {
            assert(self.current != self.tokens@.len() - 1);
            assert(self.current + 1 < count);
            self.current = self.current + 1;
        }
        Err(eof_error(self.previous().line))
    }

    /// Steps forward and gives the index of the token stepped over; at the end,
    /// reports that the end was reached.
    fn advance(&mut self) -> (r: Result<usize, ThrushError>)
        requires
            old(self).wf(),
            old(self).current >= 1 || !old(self).at_end(),
        ensures
            final(self).wf(),
            final(self).same_but_position(old(self)),
            final(self).current == old(self).stepped(),
            !old(self).at_end() ==> r == Ok::<usize, ThrushError>(old(self).current),
            old(self).at_end() ==> (r matches Err(e) && is_eof_error(e, final(self).tokens@[final(self).current - 1].line)),
    {
        let count: usize = self.tokens.len();
        if !self.end() {
            assert(self.current != self.tokens@.len() - 1);
            assert(self.current + 1 < count);
            self.current = self.current + 1;
            return Ok(self.current - 1);
        }
        Err(eof_error(self.previous().line))
    }

    fn peek(&self) -> (r: &Token)
        requires
            self.wf(),
        ensures
            *r == self.tokens@[self.current as int],
    {
        &self.tokens[self.current]
    }

    fn end(&self) -> (r: bool)
        requires
            self.wf(),
        ensures
            r == self.at_end(),
    {
        self.tokens[self.current].kind == TokenKind::Eof
    }

    fn previous(&self) -> (r: &Token)
        requires
            self.wf(),
            self.current >= 1,
        ensures
            *r == self.tokens@[self.current - 1],
    {
        &self.tokens[self.current - 1]
    }
}

} // verus!
