//! The parser: a cursor over the tokens and one method per production, each
//! proved to compute the matching function of `grammar`.

use vstd::prelude::*;
use crate::ast::{
    opt_view, views, Ast, Node, NewAccess, NewAccessIndex, NewAtom, NewBinaryExpression, NewCall,
    NewDataDelcaration, NewDataItem, NewDoExpression, NewFnAnon, NewFnArgTyped, NewFnDeclaration,
    NewFnSignature, NewIfExpr, NewImport, NewLetExpr, NewLetMutExpr, NewListExpression, NewListSplit,
    NewMatchBranch, NewMatchExpression, NewMutExpr, NewPackage, NewPubExpr, NewReturnExpression, NewRootNode,
    NewStructAnon, NewStructDeclaration, NewStructField, NewTtype, NewTupleAny, NewTypeCmpst, NewTypeFn,
    NewTypeLst, NewTypeTuple, NewUnaryExpression, NewWhileExpression,
};
use crate::errors::{Construct, Fail, ParserError};
use crate::grammar::{
    ListKind, Parsed, ParsedList, at, closer, comma_ahead, expected, expected_either, expected_tag, forward,
    is_literal, is_operator, opens_tuple, operator_at, place, separator, sp_access, sp_access_rest,
    sp_binary, sp_binary_rest, sp_block, sp_branches, sp_call, sp_data, sp_do, sp_expression, sp_factor,
    sp_field, sp_fn, sp_fn_arg, sp_fn_rest, sp_if, sp_import, sp_item, sp_let, sp_list, sp_match, sp_member,
    sp_mut, sp_operand, sp_package, sp_parse, sp_parse_from, sp_program, sp_pub, sp_return, sp_statement,
    sp_string, sp_struct, sp_struct_anon, sp_symbol, sp_type_base, sp_type_composite, sp_type_fn,
    sp_type_list, sp_type_tuple, sp_unary, sp_variant, sp_while, tag_at, too_deep, trailing, MAX_NESTING,
};
use crate::tokens::{copy_token, Tag, Token};

verus! {

broadcast use vstd::std_specs::vec::group_vec_axioms;

/// Positional state over a token sequence.
pub struct Parser {
    tokens: Vec<Token>,
    cursor: usize,
}

/// The models of `s` with one more node: the model of `n` comes last.
pub proof fn lemma_views_push(s: Seq<Node>, n: Node)
    ensures
        views(s.push(n)) == views(s).push(n.view()),
{
    assert(s.push(n).drop_last() =~= s);
}

/// The model of a parse result.
pub open spec fn result_view(r: Result<Node, ParserError>) -> Result<Ast, Fail> {
    match r {
        Ok(n) => Ok(n.view()),
        Err(e) => Err(e.view()),
    }
}

/// How a production leaves the parser: the tokens are unchanged and the
/// cursor within them; on success the node's model and the cursor match the
/// grammar's outcome `s` and the cursor has moved forward; on failure the
/// error's model is the grammar's failure.
pub open spec fn produced(old: Parser, new: Parser, r: Result<Node, ParserError>, s: Parsed) -> bool {
    &&& new.toks() == old.toks()
    &&& new.wf()
    &&& match r {
        Ok(n) => s == Ok::<(Ast, int), Fail>((n.view(), new.pos())) && old.pos() < new.pos(),
        Err(e) => s == Err::<(Ast, int), Fail>(e.view()),
    }
}

/// [`produced`] for a production that gives a list of nodes.
pub open spec fn produced_list(old: Parser, new: Parser, r: Result<Vec<Node>, ParserError>, s: ParsedList) -> bool {
    &&& new.toks() == old.toks()
    &&& new.wf()
    &&& match r {
        Ok(v) => s == Ok::<(Seq<Ast>, int), Fail>((views(v@), new.pos())) && old.pos() < new.pos(),
        Err(e) => s == Err::<(Seq<Ast>, int), Fail>(e.view()),
    }
}

impl ListKind {
    /// The token that ends this list.
    fn closer_tag(&self) -> (r: Tag)
        ensures
            r == closer(*self),
    {
        match self {
            ListKind::Items => Tag::RBracket,
            ListKind::Generics | ListKind::TypeArgs => Tag::Greater,
            _ => Tag::RParen,
        }
    }

    /// The token between two items of this list.
    fn separator_tag(&self) -> (r: Tag)
        ensures
            r == separator(*self),
    {
        match self {
            ListKind::Variants => Tag::Pipe,
            _ => Tag::Comma,
        }
    }

    /// Whether a separator may stand before the closer.
    fn allows_trailing(&self) -> (r: bool)
        ensures
            r == trailing(*self),
    {
        match self {
            ListKind::Symbols | ListKind::Strings | ListKind::Fields => true,
            _ => false,
        }
    }
}

/// Whether a token category makes an atom on its own.
fn literal(g: Tag) -> (r: bool)
    ensures
        r == is_literal(g),
{
    g == Tag::Integer || g == Tag::String || g == Tag::Symbol || g == Tag::True || g == Tag::False
}

/// Whether `g` is an operator of the binary level `level`.
fn operator_of(level: u8, g: Tag) -> (r: bool)
    ensures
        r == is_operator(level as nat, g),
{
    if level == 0 {
        g == Tag::Or
    } else if level == 1 {
        g == Tag::And
    } else if level == 2 {
        g == Tag::Eq || g == Tag::NotEq
    } else if level == 3 {
        g == Tag::Greater || g == Tag::GreaterEqual || g == Tag::Less || g == Tag::LessEqual
    } else if level == 4 {
        g == Tag::Plus || g == Tag::Minus
    } else {
        g == Tag::Star || g == Tag::Slash
    }
}

impl Parser {
    /// The tokens being parsed.
    pub closed spec fn toks(&self) -> Seq<Token> {
        self.tokens@
    }

    /// The index of the next token.
    pub closed spec fn pos(&self) -> int {
        self.cursor as int
    }

    /// The cursor lies within the tokens.
    pub closed spec fn wf(&self) -> bool {
        self.cursor <= self.tokens.len()
    }

    /// A parser at the start of `tokens`.
    pub fn new(tokens: Vec<Token>) -> (r: Parser)
        ensures
            r.wf(),
            r.toks() == tokens@,
            r.pos() == 0,
    {
        Parser { tokens, cursor: 0 }
    }

    /// Whether every token has been consumed.
    pub fn is_done(&self) -> (r: bool)
        requires
            self.wf(),
        ensures
            r == (self.pos() == self.toks().len()),
    {
        self.cursor >= self.tokens.len()
    }

    /// The next token, without consuming it.
    pub fn peek(&self) -> (r: Option<&Token>)
        requires
            self.wf(),
        ensures
            r == (if self.pos() < self.toks().len() {
                Some(&self.toks()[self.pos()])
            } else {
                None
            }),
    {
        self.peek_at(0)
    }

    /// The token `k` places ahead, without consuming anything.
    pub fn peek_at(&self, k: usize) -> (r: Option<&Token>)
        requires
            self.wf(),
        ensures
            r == (if self.pos() + k < self.toks().len() {
                Some(&self.toks()[self.pos() + k])
            } else {
                None
            }),
    {
        if k < self.tokens.len() - self.cursor {
            Some(&self.tokens[self.cursor + k])
        } else {
            None
        }
    }

    /// Consumes and returns a copy of the next token, if there is one.
    pub fn advance(&mut self) -> (r: Option<Token>)
        requires
            old(self).wf(),
        ensures
            final(self).wf(),
            final(self).toks() == old(self).toks(),
            old(self).pos() < old(self).toks().len() ==> r == Some(old(self).toks()[old(self).pos()])
                && final(self).pos() == old(self).pos() + 1,
            old(self).pos() == old(self).toks().len() ==> r is None && final(self).pos() == old(self).pos(),
    {
        if self.cursor < self.tokens.len() {
            Some(self.bump())
        } else {
            None
        }
    }

    /// Consumes the next token, which must be `g`; otherwise fails with
    /// "expected `g`" where the next token is, or past the last one.
    pub fn expect(&mut self, g: Tag) -> (r: Result<Token, ParserError>)
        requires
            old(self).wf(),
        ensures
            final(self).wf(),
            final(self).toks() == old(self).toks(),
            match r {
                Ok(tok) => at(old(self).toks(), old(self).pos(), g) && tok == old(self).toks()[old(self).pos()]
                    && final(self).pos() == old(self).pos() + 1,
                Err(e) => !at(old(self).toks(), old(self).pos(), g)
                    && e.view() == expected_tag(g, old(self).toks(), old(self).pos()),
            },
    {
        if self.is(0, g) {
            Ok(self.bump())
        } else {
            Err(self.fail(0, Construct::Token(g)))
        }
    }

    /// Whether the token `k` places ahead has category `g`.
    fn is(&self, k: usize, g: Tag) -> (r: bool)
        requires
            self.wf(),
        ensures
            r == at(self.toks(), self.pos() + k, g),
    {
        k < self.tokens.len() - self.cursor && self.tokens[self.cursor + k].typ.tag() == g
    }

    /// Whether the next token is a literal or a name.
    fn is_literal_next(&self) -> (r: bool)
        requires
            self.wf(),
        ensures
            r == (self.pos() < self.toks().len() && is_literal(self.toks()[self.pos()].kind())),
    {
        self.cursor < self.tokens.len() && literal(self.tokens[self.cursor].typ.tag())
    }

    /// Whether the next token is an operator of the binary level `level`.
    fn is_operator_next(&self, level: u8) -> (r: bool)
        requires
            self.wf(),
        ensures
            r == operator_at(level as nat, self.toks(), self.pos()),
    {
        self.cursor < self.tokens.len() && operator_of(level, self.tokens[self.cursor].typ.tag())
    }

    /// Consumes the next token and returns a copy of it.
    fn bump(&mut self) -> (r: Token)
        requires
            old(self).wf(),
            old(self).pos() < old(self).toks().len(),
        ensures
            final(self).wf(),
            final(self).toks() == old(self).toks(),
            final(self).pos() == old(self).pos() + 1,
            r == old(self).toks()[old(self).pos()],
    {
        let tok = copy_token(&self.tokens[self.cursor]);
        self.cursor = self.cursor + 1;
        tok
    }

    /// Where a failure `k` places ahead is reported.
    fn place_ahead(&self, k: usize) -> (r: (usize, usize))
        requires
            self.wf(),
            self.pos() + k <= self.toks().len(),
        ensures
            r == place(self.toks(), self.pos() + k),
    {
        let i = self.cursor + k;
        if i < self.tokens.len() {
            (self.tokens[i].row, self.tokens[i].col)
        } else if i > 0 {
            let last = &self.tokens[i - 1];
            let col = if last.col < usize::MAX {
                last.col + 1
            } else {
                last.col
            };
            (last.row, col)
        } else {
            (0, 0)
        }
    }

    /// The failure "expected `c`" `k` places ahead.
    fn fail(&self, k: usize, c: Construct) -> (r: ParserError)
        requires
            self.wf(),
            self.pos() + k <= self.toks().len(),
        ensures
            r.view() == expected(c, self.toks(), self.pos() + k),
    {
        let (row, col) = self.place_ahead(k);
        ParserError::Expected(c, row, col)
    }

    /// The failure "nested too deep" at the cursor.
    fn too_deep(&self) -> (r: ParserError)
        requires
            self.wf(),
        ensures
            r.view() == too_deep(self.toks(), self.pos()),
    {
        let (row, col) = self.place_ahead(0);
        ParserError::NestingTooDeep(row, col)
    }

    /// The failure "expected `a` or `b`" `k` places ahead.
    fn fail_either(&self, k: usize, a: Tag, b: Tag) -> (r: ParserError)
        requires
            self.wf(),
            self.pos() + k <= self.toks().len(),
        ensures
            r.view() == expected_either(a, b, self.toks(), self.pos() + k),
    {
        let (row, col) = self.place_ahead(k);
        let cs = vec![Construct::Token(a), Construct::Token(b)];
        assert(cs@ == seq![Construct::Token(a), Construct::Token(b)]);
        ParserError::ExpectedOneOf(cs, row, col)
    }
}

/// A vector holding one node.
fn single(n: Node) -> (r: Vec<Node>)
    ensures
        views(r@) == seq![n.view()],
{
    let mut v: Vec<Node> = Vec::new();
    proof {
        lemma_views_push(v@, n);
        assert(v@ =~= Seq::<Node>::empty());
    }
    v.push(n);
    v
}

impl Parser {
    /// The category of the next token, if there is one.
    fn tag_next(&self) -> (r: Option<Tag>)
        requires
            self.wf(),
        ensures
            r == tag_at(self.toks(), self.pos()),
    {
        if self.cursor < self.tokens.len() {
            Some(self.tokens[self.cursor].typ.tag())
        } else {
            None
        }
    }

    /// Whether the parenthesis that is next opens a tuple: the scan keeps
    /// track of bracket depth and looks for a comma at the top level.
    fn opens_tuple_next(&self) -> (r: bool)
        requires
            self.wf(),
            at(self.toks(), self.pos(), Tag::LParen),
        ensures
            r == opens_tuple(self.toks(), self.pos()),
    {
        if self.is(1, Tag::RParen) {
            return true;
        }
        let ghost t = self.toks();
        let mut i: usize = self.cursor + 1;
        let mut depth: usize = 1;
        loop
            invariant
                t == self.toks(),
                self.wf(),
                self.cursor + 1 <= i <= self.tokens.len(),
                1 <= depth <= i - self.cursor,
                !at(t, self.pos() + 1, Tag::RParen),
                comma_ahead(t, self.pos() + 1, 1) == comma_ahead(t, i as int, depth as nat),
            decreases self.tokens.len() - i,
        {
            if i >= self.tokens.len() {
                return false;
            }
            let g = self.tokens[i].typ.tag();
            if g == Tag::LParen || g == Tag::LBracket || g == Tag::LCurly {
                depth = depth + 1;
            } else if g == Tag::RParen || g == Tag::RBracket || g == Tag::RCurly {
                if depth <= 1 {
                    return false;
                }
                depth = depth - 1;
            } else if g == Tag::Comma && depth == 1 {
                return true;
            }
            i = i + 1;
        }
    }

    /// Parses a whole program from the cursor: statements until the tokens
    /// run out, under a root node.
    pub fn parse(&mut self) -> (r: Result<Node, ParserError>)
        requires
            old(self).wf(),
        ensures
            final(self).wf(),
            final(self).toks() == old(self).toks(),
            result_view(r) == sp_parse_from(old(self).toks(), old(self).pos()),
    {
        let ghost t = self.toks();
        let ghost p = self.pos();
        let mut children: Vec<Node> = Vec::new();
        assert(views(children@) =~= Seq::<Ast>::empty());
        loop
            invariant
                self.wf(),
                self.toks() == t,
                t == old(self).toks(),
                p == old(self).pos(),
                sp_program(t, p, Seq::empty()) == sp_program(t, self.pos(), views(children@)),
            decreases t.len() - self.pos(),
        {
            if self.is_done() {
                return Ok(NewRootNode(children));
            }
            let s = match self.parse_statement(MAX_NESTING) {
                Ok(s) => s,
                Err(e) => return Err(e),
            };
            proof {
                lemma_views_push(children@, s);
            }
            children.push(s);
        }
    }

    fn parse_block(&mut self, depth: usize) -> (r: Result<Vec<Node>, ParserError>)
        requires
            old(self).wf(),
        ensures
            produced_list(*old(self), *final(self), r, sp_block(old(self).toks(), old(self).pos(), Seq::empty(), depth as nat)),
        decreases old(self).toks().len() - old(self).pos(), 56int, 0int,
    {
        let ghost t = self.toks();
        let ghost p = self.pos();
        let mut statements: Vec<Node> = Vec::new();
        assert(views(statements@) =~= Seq::<Ast>::empty());
        loop
            invariant
                self.wf(),
                self.toks() == t,
                t == old(self).toks(),
                p == old(self).pos(),
                p <= self.pos(),
                sp_block(t, p, Seq::empty(), depth as nat) == sp_block(t, self.pos(), views(statements@), depth as nat),
            decreases t.len() - self.pos(),
        {
            if self.is(0, Tag::RCurly) {
                self.bump();
                return Ok(statements);
            }
            let s = match self.parse_statement(depth) {
                Ok(s) => s,
                Err(e) => return Err(e),
            };
            proof {
                lemma_views_push(statements@, s);
            }
            statements.push(s);
        }
    }

    fn parse_statement(&mut self, depth: usize) -> (r: Result<Node, ParserError>)
        requires
            old(self).wf(),
        ensures
            produced(*old(self), *final(self), r, sp_statement(old(self).toks(), old(self).pos(), depth as nat)),
        decreases old(self).toks().len() - old(self).pos(), 55int, 0int,
    {
        let e = match self.parse_expression(depth) {
            Ok(e) => e,
            Err(e) => return Err(e),
        };
        if !self.is(0, Tag::Semicolon) {
            return Err(self.fail(0, Construct::Token(Tag::Semicolon)));
        }
        self.bump();
        Ok(e)
    }

    fn parse_list(&mut self, k: ListKind, may_close: bool, depth: usize) -> (r: Result<Vec<Node>, ParserError>)
        requires
            old(self).wf(),
        ensures
            produced_list(*old(self), *final(self), r, sp_list(k, old(self).toks(), old(self).pos(), Seq::empty(), may_close, depth as nat)),
        decreases old(self).toks().len() - old(self).pos(), 52int, 0int,
    {
        let ghost t = self.toks();
        let ghost p = self.pos();
        let mut items: Vec<Node> = Vec::new();
        let mut close_ok = may_close;
        assert(views(items@) =~= Seq::<Ast>::empty());
        loop
            invariant
                self.wf(),
                self.toks() == t,
                t == old(self).toks(),
                p == old(self).pos(),
                p <= self.pos(),
                sp_list(k, t, p, Seq::empty(), may_close, depth as nat) == sp_list(k, t, self.pos(), views(items@), close_ok, depth as nat),
            decreases t.len() - self.pos(),
        {
            if close_ok && self.is(0, k.closer_tag()) {
                self.bump();
                return Ok(items);
            }
            let item = match self.parse_item(k, depth) {
                Ok(n) => n,
                Err(e) => return Err(e),
            };
            proof {
                lemma_views_push(items@, item);
            }
            if self.is(0, k.closer_tag()) {
                self.bump();
                items.push(item);
                return Ok(items);
            } else if self.is(0, k.separator_tag()) {
                self.bump();
                items.push(item);
                close_ok = k.allows_trailing();
            } else {
                return Err(self.fail_either(0, k.separator_tag(), k.closer_tag()));
            }
        }
    }

    fn parse_item(&mut self, k: ListKind, depth: usize) -> (r: Result<Node, ParserError>)
        requires
            old(self).wf(),
        ensures
            produced(*old(self), *final(self), r, sp_item(k, old(self).toks(), old(self).pos(), depth as nat)),
        decreases old(self).toks().len() - old(self).pos(), 51int, 0int,
    {
        match k {
            ListKind::Exprs | ListKind::Items => self.parse_expression(depth),
            ListKind::FnArgs => self.parse_fn_arg(depth),
            ListKind::Symbols | ListKind::Generics => self.parse_symbol(),
            ListKind::Strings => self.parse_string(),
            ListKind::Fields => self.parse_field(depth),
            ListKind::Variants => self.parse_variant(depth),
            ListKind::TupleTypes | ListKind::TypeArgs => self.parse_type_fn(depth),
        }
    }

    fn parse_symbol(&mut self) -> (r: Result<Node, ParserError>)
        requires
            old(self).wf(),
        ensures
            produced(*old(self), *final(self), r, sp_symbol(old(self).toks(), old(self).pos())),
    {
        if !self.is(0, Tag::Symbol) {
            return Err(self.fail(0, Construct::Token(Tag::Symbol)));
        }
        Ok(NewAtom(self.bump()))
    }

    fn parse_string(&mut self) -> (r: Result<Node, ParserError>)
        requires
            old(self).wf(),
        ensures
            produced(*old(self), *final(self), r, sp_string(old(self).toks(), old(self).pos())),
    {
        if !self.is(0, Tag::String) {
            return Err(self.fail(0, Construct::Token(Tag::String)));
        }
        Ok(NewAtom(self.bump()))
    }

    fn parse_expression(&mut self, depth: usize) -> (r: Result<Node, ParserError>)
        requires
            old(self).wf(),
        ensures
            produced(*old(self), *final(self), r, sp_expression(old(self).toks(), old(self).pos(), depth as nat)),
        decreases old(self).toks().len() - old(self).pos(), 50int, 0int,
    {
        if depth == 0 {
            return Err(self.too_deep());
        }
        let inner = depth - 1;
        match self.tag_next() {
            Some(Tag::Let) => self.parse_let(inner),
            Some(Tag::Mut) => self.parse_mut(inner),
            Some(Tag::Fn) => self.parse_function(inner),
            Some(Tag::If) => self.parse_if(inner),
            Some(Tag::Pub) => self.parse_pub(inner),
            Some(Tag::Data) => self.parse_data(inner),
            Some(Tag::Struct) => self.parse_struct(inner),
            Some(Tag::Package) => self.parse_package(),
            Some(Tag::Import) => self.parse_import(inner),
            Some(Tag::Match) => self.parse_match(inner),
            Some(Tag::While) => self.parse_while(inner),
            Some(Tag::Do) => self.parse_do(inner),
            Some(Tag::Return) => self.parse_return(inner),
            _ => self.parse_binary(0, inner),
        }
    }

    fn parse_let(&mut self, depth: usize) -> (r: Result<Node, ParserError>)
        requires
            old(self).wf(),
        ensures
            produced(*old(self), *final(self), r, sp_let(old(self).toks(), old(self).pos(), depth as nat)),
        decreases old(self).toks().len() - old(self).pos(), 49int, 0int,
    {
        let tok = match self.expect(Tag::Let) {
            Ok(t) => t,
            Err(e) => return Err(e),
        };
        let is_mut = self.is(0, Tag::Mut);
        if is_mut {
            self.bump();
        }
        let symbols = if self.is(0, Tag::Symbol) {
            single(NewAtom(self.bump()))
        } else if self.is(0, Tag::LParen) {
            self.bump();
            match self.parse_list(ListKind::Symbols, true, depth) {
                Ok(v) => v,
                Err(e) => return Err(e),
            }
        } else {
            return Err(self.fail_either(0, Tag::Symbol, Tag::LParen));
        };
        let ttype = if self.is(0, Tag::DoubleColon) {
            self.bump();
            match self.parse_type_fn(depth) {
                Ok(ty) => Some(ty),
                Err(e) => return Err(e),
            }
        } else {
            None
        };
        if !self.is(0, Tag::Bind) {
            return Err(self.fail(0, Construct::Token(Tag::Bind)));
        }
        self.bump();
        let rhs = match self.parse_expression(depth) {
            Ok(n) => n,
            Err(e) => return Err(e),
        };
        if is_mut {
            Ok(NewLetMutExpr(tok, symbols, rhs, ttype))
        } else {
            Ok(NewLetExpr(tok, symbols, rhs, ttype))
        }
    }

    fn parse_mut(&mut self, depth: usize) -> (r: Result<Node, ParserError>)
        requires
            old(self).wf(),
        ensures
            produced(*old(self), *final(self), r, sp_mut(old(self).toks(), old(self).pos(), depth as nat)),
        decreases old(self).toks().len() - old(self).pos(), 49int, 0int,
    {
        let tok = match self.expect(Tag::Mut) {
            Ok(t) => t,
            Err(e) => return Err(e),
        };
        let lhs = match self.parse_access(depth) {
            Ok(n) => n,
            Err(e) => return Err(e),
        };
        if !self.is(0, Tag::Bind) {
            return Err(self.fail(0, Construct::Token(Tag::Bind)));
        }
        self.bump();
        let rhs = match self.parse_expression(depth) {
            Ok(n) => n,
            Err(e) => return Err(e),
        };
        Ok(NewMutExpr(tok, lhs, rhs))
    }

    /// Arguments, optional result type and body of a function, from the `(`
    /// of its arguments.
    fn parse_fn_rest(&mut self, depth: usize) -> (r: Result<(Vec<Node>, Option<Node>, Node), ParserError>)
        requires
            old(self).wf(),
        ensures
            final(self).toks() == old(self).toks(),
            final(self).wf(),
            match r {
                Ok((args, ty, body)) => sp_fn_rest(old(self).toks(), old(self).pos(), depth as nat) == Ok::<
                    (Seq<Ast>, Option<Box<Ast>>, Ast, int),
                    Fail,
                >((views(args@), opt_view(ty), body.view(), final(self).pos())) && old(self).pos() < final(self).pos(),
                Err(e) => sp_fn_rest(old(self).toks(), old(self).pos(), depth as nat) == Err::<
                    (Seq<Ast>, Option<Box<Ast>>, Ast, int),
                    Fail,
                >(e.view()),
            },
        decreases old(self).toks().len() - old(self).pos(), 48int, 0int,
    {
        if !self.is(0, Tag::LParen) {
            return Err(self.fail(0, Construct::Token(Tag::LParen)));
        }
        self.bump();
        let args = match self.parse_list(ListKind::FnArgs, true, depth) {
            Ok(v) => v,
            Err(e) => return Err(e),
        };
        let ty = if self.is(0, Tag::Colon) {
            self.bump();
            match self.parse_type_fn(depth) {
                Ok(ty) => Some(ty),
                Err(e) => return Err(e),
            }
        } else {
            None
        };
        if !self.is(0, Tag::EqArrow) {
            return Err(self.fail(0, Construct::Token(Tag::EqArrow)));
        }
        self.bump();
        let body = match self.parse_expression(depth) {
            Ok(n) => n,
            Err(e) => return Err(e),
        };
        Ok((args, ty, body))
    }

    fn parse_function(&mut self, depth: usize) -> (r: Result<Node, ParserError>)
        requires
            old(self).wf(),
        ensures
            produced(*old(self), *final(self), r, sp_fn(old(self).toks(), old(self).pos(), depth as nat)),
        decreases old(self).toks().len() - old(self).pos(), 49int, 0int,
    {
        if !self.is(0, Tag::Fn) {
            return Err(self.fail(0, Construct::Token(Tag::Fn)));
        }
        if self.is(1, Tag::LParen) {
            let tok = self.bump();
            match self.parse_fn_rest(depth) {
                Ok((args, ty, body)) => Ok(NewFnAnon(tok, args, ty, body)),
                Err(e) => Err(e),
            }
        } else if self.is(1, Tag::Symbol) {
            if self.is(2, Tag::DoubleColon) {
                let tok = self.bump();
                let name = NewAtom(self.bump());
                self.bump();
                match self.parse_type_fn(depth) {
                    Ok(ty) => Ok(NewFnSignature(tok, name, ty)),
                    Err(e) => Err(e),
                }
            } else if self.is(2, Tag::LParen) {
                let tok = self.bump();
                let name = NewAtom(self.bump());
                match self.parse_fn_rest(depth) {
                    Ok((args, ty, body)) => Ok(NewFnDeclaration(tok, name, body, args, ty)),
                    Err(e) => Err(e),
                }
            } else {
                Err(self.fail_either(2, Tag::DoubleColon, Tag::LParen))
            }
        } else {
            Err(self.fail_either(1, Tag::LParen, Tag::Symbol))
        }
    }

    fn parse_fn_arg(&mut self, depth: usize) -> (r: Result<Node, ParserError>)
        requires
            old(self).wf(),
        ensures
            produced(*old(self), *final(self), r, sp_fn_arg(old(self).toks(), old(self).pos(), depth as nat)),
        decreases old(self).toks().len() - old(self).pos(), 49int, 0int,
    {
        if !self.is_literal_next() {
            return Err(self.fail(0, Construct::Atom));
        }
        let symbol = NewAtom(self.bump());
        if self.is(0, Tag::Colon) {
            self.bump();
            match self.parse_type_fn(depth) {
                Ok(ty) => Ok(NewFnArgTyped(symbol, Some(ty))),
                Err(e) => Err(e),
            }
        } else {
            Ok(NewFnArgTyped(symbol, None))
        }
    }

    fn parse_if(&mut self, depth: usize) -> (r: Result<Node, ParserError>)
        requires
            old(self).wf(),
        ensures
            produced(*old(self), *final(self), r, sp_if(old(self).toks(), old(self).pos(), depth as nat)),
        decreases old(self).toks().len() - old(self).pos(), 49int, 0int,
    {
        let tok = match self.expect(Tag::If) {
            Ok(t) => t,
            Err(e) => return Err(e),
        };
        let cond = match self.parse_binary(0, depth) {
            Ok(n) => n,
            Err(e) => return Err(e),
        };
        if !self.is(0, Tag::Then) {
            return Err(self.fail(0, Construct::Token(Tag::Then)));
        }
        self.bump();
        let yes = match self.parse_expression(depth) {
            Ok(n) => n,
            Err(e) => return Err(e),
        };
        if self.is(0, Tag::Else) {
            self.bump();
            match self.parse_expression(depth) {
                Ok(no) => Ok(NewIfExpr(tok, cond, yes, Some(no))),
                Err(e) => Err(e),
            }
        } else {
            Ok(NewIfExpr(tok, cond, yes, None))
        }
    }

    fn parse_pub(&mut self, depth: usize) -> (r: Result<Node, ParserError>)
        requires
            old(self).wf(),
        ensures
            produced(*old(self), *final(self), r, sp_pub(old(self).toks(), old(self).pos(), depth as nat)),
        decreases old(self).toks().len() - old(self).pos(), 49int, 0int,
    {
        let tok = match self.expect(Tag::Pub) {
            Ok(t) => t,
            Err(e) => return Err(e),
        };
        let inner = if self.is(0, Tag::Fn) {
            self.parse_function(depth)
        } else if self.is(0, Tag::Data) {
            self.parse_data(depth)
        } else if self.is(0, Tag::Struct) {
            self.parse_struct(depth)
        } else {
            let (row, col) = self.place_ahead(0);
            let cs = vec![Construct::Token(Tag::Fn), Construct::Token(Tag::Data), Construct::Token(Tag::Struct)];
            assert(cs@ == seq![Construct::Token(Tag::Fn), Construct::Token(Tag::Data), Construct::Token(Tag::Struct)]);
            return Err(ParserError::ExpectedOneOf(cs, row, col));
        };
        match inner {
            Ok(rhs) => Ok(NewPubExpr(tok, rhs)),
            Err(e) => Err(e),
        }
    }

    fn parse_data(&mut self, depth: usize) -> (r: Result<Node, ParserError>)
        requires
            old(self).wf(),
        ensures
            produced(*old(self), *final(self), r, sp_data(old(self).toks(), old(self).pos(), depth as nat)),
        decreases old(self).toks().len() - old(self).pos(), 49int, 0int,
    {
        let tok = match self.expect(Tag::Data) {
            Ok(t) => t,
            Err(e) => return Err(e),
        };
        if !self.is(0, Tag::Symbol) {
            return Err(self.fail(0, Construct::Token(Tag::Symbol)));
        }
        let name = NewAtom(self.bump());
        let generics = if self.is(0, Tag::Less) {
            self.bump();
            match self.parse_list(ListKind::Generics, true, depth) {
                Ok(v) => v,
                Err(e) => return Err(e),
            }
        } else {
            let v: Vec<Node> = Vec::new();
            assert(views(v@) =~= Seq::<Ast>::empty());
            v
        };
        if !self.is(0, Tag::LParen) {
            return Err(self.fail(0, Construct::Token(Tag::LParen)));
        }
        self.bump();
        let lead = self.is(0, Tag::Pipe);
        if lead {
            self.bump();
        }
        match self.parse_list(ListKind::Variants, !lead, depth) {
            Ok(variants) => Ok(NewDataDelcaration(tok, name, generics, variants)),
            Err(e) => Err(e),
        }
    }

    fn parse_variant(&mut self, depth: usize) -> (r: Result<Node, ParserError>)
        requires
            old(self).wf(),
        ensures
            produced(*old(self), *final(self), r, sp_variant(old(self).toks(), old(self).pos(), depth as nat)),
        decreases old(self).toks().len() - old(self).pos(), 49int, 0int,
    {
        if !self.is(0, Tag::Symbol) {
            return Err(self.fail(0, Construct::Token(Tag::Symbol)));
        }
        let name = NewAtom(self.bump());
        if !self.is(0, Tag::DoubleColon) {
            return Ok(name);
        }
        self.bump();
        let ty = if self.is(0, Tag::Struct) {
            self.parse_struct_anon(depth)
        } else {
            self.parse_type_fn(depth)
        };
        match ty {
            Ok(ty) => Ok(NewDataItem(name, ty)),
            Err(e) => Err(e),
        }
    }

    fn parse_struct_anon(&mut self, depth: usize) -> (r: Result<Node, ParserError>)
        requires
            old(self).wf(),
        ensures
            produced(*old(self), *final(self), r, sp_struct_anon(old(self).toks(), old(self).pos(), depth as nat)),
        decreases old(self).toks().len() - old(self).pos(), 48int, 0int,
    {
        let tok = match self.expect(Tag::Struct) {
            Ok(t) => t,
            Err(e) => return Err(e),
        };
        if !self.is(0, Tag::LParen) {
            return Err(self.fail(0, Construct::Token(Tag::LParen)));
        }
        self.bump();
        match self.parse_list(ListKind::Fields, true, depth) {
            Ok(fields) => Ok(NewStructAnon(tok, fields)),
            Err(e) => Err(e),
        }
    }

    fn parse_struct(&mut self, depth: usize) -> (r: Result<Node, ParserError>)
        requires
            old(self).wf(),
        ensures
            produced(*old(self), *final(self), r, sp_struct(old(self).toks(), old(self).pos(), depth as nat)),
        decreases old(self).toks().len() - old(self).pos(), 49int, 0int,
    {
        if !self.is(0, Tag::Struct) {
            return Err(self.fail(0, Construct::Token(Tag::Struct)));
        }
        if !self.is(1, Tag::Symbol) {
            return self.parse_struct_anon(depth);
        }
        let tok = self.bump();
        let name = NewAtom(self.bump());
        if !self.is(0, Tag::LParen) {
            return Err(self.fail(0, Construct::Token(Tag::LParen)));
        }
        self.bump();
        match self.parse_list(ListKind::Fields, true, depth) {
            Ok(fields) => Ok(NewStructDeclaration(tok, name, fields)),
            Err(e) => Err(e),
        }
    }

    fn parse_field(&mut self, depth: usize) -> (r: Result<Node, ParserError>)
        requires
            old(self).wf(),
        ensures
            produced(*old(self), *final(self), r, sp_field(old(self).toks(), old(self).pos(), depth as nat)),
        decreases old(self).toks().len() - old(self).pos(), 49int, 0int,
    {
        if !self.is(0, Tag::Symbol) {
            return Err(self.fail(0, Construct::Token(Tag::Symbol)));
        }
        if !self.is(1, Tag::DoubleColon) {
            return Err(self.fail(1, Construct::Token(Tag::DoubleColon)));
        }
        let name = NewAtom(self.bump());
        self.bump();
        match self.parse_type_fn(depth) {
            Ok(ty) => Ok(NewStructField(name, ty)),
            Err(e) => Err(e),
        }
    }

    fn parse_package(&mut self) -> (r: Result<Node, ParserError>)
        requires
            old(self).wf(),
        ensures
            produced(*old(self), *final(self), r, sp_package(old(self).toks(), old(self).pos())),
    {
        let tok = match self.expect(Tag::Package) {
            Ok(t) => t,
            Err(e) => return Err(e),
        };
        if !self.is(0, Tag::Symbol) {
            return Err(self.fail(0, Construct::Token(Tag::Symbol)));
        }
        Ok(NewPackage(NewAtom(self.bump()), tok))
    }

    fn parse_import(&mut self, depth: usize) -> (r: Result<Node, ParserError>)
        requires
            old(self).wf(),
        ensures
            produced(*old(self), *final(self), r, sp_import(old(self).toks(), old(self).pos(), depth as nat)),
        decreases old(self).toks().len() - old(self).pos(), 49int, 0int,
    {
        let tok = match self.expect(Tag::Import) {
            Ok(t) => t,
            Err(e) => return Err(e),
        };
        if self.is(0, Tag::String) {
            Ok(NewImport(single(NewAtom(self.bump())), tok))
        } else if self.is(0, Tag::LParen) {
            self.bump();
            match self.parse_list(ListKind::Strings, true, depth) {
                Ok(paths) => Ok(NewImport(paths, tok)),
                Err(e) => Err(e),
            }
        } else {
            Err(self.fail_either(0, Tag::String, Tag::LParen))
        }
    }

    fn parse_match(&mut self, depth: usize) -> (r: Result<Node, ParserError>)
        requires
            old(self).wf(),
        ensures
            produced(*old(self), *final(self), r, sp_match(old(self).toks(), old(self).pos(), depth as nat)),
        decreases old(self).toks().len() - old(self).pos(), 49int, 0int,
    {
        let tok = match self.expect(Tag::Match) {
            Ok(t) => t,
            Err(e) => return Err(e),
        };
        let lhs = match self.parse_binary(0, depth) {
            Ok(n) => n,
            Err(e) => return Err(e),
        };
        if !self.is(0, Tag::LParen) {
            return Err(self.fail(0, Construct::Token(Tag::LParen)));
        }
        self.bump();
        match self.parse_branches(depth) {
            Ok(branches) => Ok(NewMatchExpression(tok, lhs, branches)),
            Err(e) => Err(e),
        }
    }

    fn parse_branches(&mut self, depth: usize) -> (r: Result<Vec<Node>, ParserError>)
        requires
            old(self).wf(),
        ensures
            produced_list(*old(self), *final(self), r, sp_branches(old(self).toks(), old(self).pos(), Seq::empty(), depth as nat)),
        decreases old(self).toks().len() - old(self).pos(), 52int, 0int,
    {
        let ghost t = self.toks();
        let ghost p = self.pos();
        let mut branches: Vec<Node> = Vec::new();
        assert(views(branches@) =~= Seq::<Ast>::empty());
        loop
            invariant
                self.wf(),
                self.toks() == t,
                t == old(self).toks(),
                p == old(self).pos(),
                p <= self.pos(),
                sp_branches(t, p, Seq::empty(), depth as nat) == sp_branches(t, self.pos(), views(branches@), depth as nat),
            decreases t.len() - self.pos(),
        {
            if self.is(0, Tag::RParen) {
                self.bump();
                return Ok(branches);
            }
            if !self.is(0, Tag::Pipe) {
                return Err(self.fail_either(0, Tag::Pipe, Tag::RParen));
            }
            let tok = self.bump();
            let lhs = match self.parse_expression(depth) {
                Ok(n) => n,
                Err(e) => return Err(e),
            };
            if !self.is(0, Tag::Arrow) {
                return Err(self.fail(0, Construct::Token(Tag::Arrow)));
            }
            self.bump();
            let rhs = match self.parse_expression(depth) {
                Ok(n) => n,
                Err(e) => return Err(e),
            };
            let branch = NewMatchBranch(tok, lhs, rhs);
            proof {
                lemma_views_push(branches@, branch);
            }
            branches.push(branch);
        }
    }

    fn parse_while(&mut self, depth: usize) -> (r: Result<Node, ParserError>)
        requires
            old(self).wf(),
        ensures
            produced(*old(self), *final(self), r, sp_while(old(self).toks(), old(self).pos(), depth as nat)),
        decreases old(self).toks().len() - old(self).pos(), 49int, 0int,
    {
        let tok = match self.expect(Tag::While) {
            Ok(t) => t,
            Err(e) => return Err(e),
        };
        let cond = match self.parse_binary(0, depth) {
            Ok(n) => n,
            Err(e) => return Err(e),
        };
        if !self.is(0, Tag::LCurly) {
            return Err(self.fail(0, Construct::Token(Tag::LCurly)));
        }
        self.bump();
        match self.parse_block(depth) {
            Ok(statements) => Ok(NewWhileExpression(tok, cond, statements)),
            Err(e) => Err(e),
        }
    }

    fn parse_do(&mut self, depth: usize) -> (r: Result<Node, ParserError>)
        requires
            old(self).wf(),
        ensures
            produced(*old(self), *final(self), r, sp_do(old(self).toks(), old(self).pos(), depth as nat)),
        decreases old(self).toks().len() - old(self).pos(), 49int, 0int,
    {
        let tok = match self.expect(Tag::Do) {
            Ok(t) => t,
            Err(e) => return Err(e),
        };
        if !self.is(0, Tag::LCurly) {
            return Err(self.fail(0, Construct::Token(Tag::LCurly)));
        }
        self.bump();
        match self.parse_block(depth) {
            Ok(statements) => Ok(NewDoExpression(tok, statements)),
            Err(e) => Err(e),
        }
    }

    fn parse_return(&mut self, depth: usize) -> (r: Result<Node, ParserError>)
        requires
            old(self).wf(),
        ensures
            produced(*old(self), *final(self), r, sp_return(old(self).toks(), old(self).pos(), depth as nat)),
        decreases old(self).toks().len() - old(self).pos(), 49int, 0int,
    {
        let tok = match self.expect(Tag::Return) {
            Ok(t) => t,
            Err(e) => return Err(e),
        };
        match self.parse_expression(depth) {
            Ok(value) => Ok(NewReturnExpression(tok, value)),
            Err(e) => Err(e),
        }
    }

    /// The operand of the binary level `level`: the next tighter level.
    fn parse_operand(&mut self, level: u8, depth: usize) -> (r: Result<Node, ParserError>)
        requires
            old(self).wf(),
            level <= 5,
        ensures
            produced(*old(self), *final(self), r, sp_operand(level as nat, old(self).toks(), old(self).pos(), depth as nat)),
        decreases old(self).toks().len() - old(self).pos(), 40 - level, 1int,
    {
        if level < 5 {
            self.parse_binary(level + 1, depth)
        } else {
            self.parse_unary(depth)
        }
    }

    /// The binary level `level`: operands joined by the level's operators,
    /// folded to the left as they come.
    fn parse_binary(&mut self, level: u8, depth: usize) -> (r: Result<Node, ParserError>)
        requires
            old(self).wf(),
            level <= 5,
        ensures
            produced(*old(self), *final(self), r, sp_binary(level as nat, old(self).toks(), old(self).pos(), depth as nat)),
        decreases old(self).toks().len() - old(self).pos(), 40 - level, 2int,
    {
        let ghost t = self.toks();
        let ghost p = self.pos();
        let mut lhs = match self.parse_operand(level, depth) {
            Ok(n) => n,
            Err(e) => return Err(e),
        };
        loop
            invariant
                self.wf(),
                self.toks() == t,
                t == old(self).toks(),
                p == old(self).pos(),
                p < self.pos(),
                level <= 5,
                sp_binary(level as nat, t, p, depth as nat) == sp_binary_rest(level as nat, t, self.pos(), lhs.view(), depth as nat),
            decreases t.len() - self.pos(),
        {
            if !self.is_operator_next(level) {
                return Ok(lhs);
            }
            let tok = self.bump();
            let rhs = match self.parse_operand(level, depth) {
                Ok(n) => n,
                Err(e) => return Err(e),
            };
            lhs = NewBinaryExpression(tok, lhs, rhs);
        }
    }

    fn parse_unary(&mut self, depth: usize) -> (r: Result<Node, ParserError>)
        requires
            old(self).wf(),
        ensures
            produced(*old(self), *final(self), r, sp_unary(old(self).toks(), old(self).pos(), depth as nat)),
        decreases old(self).toks().len() - old(self).pos(), 30int, 0int,
    {
        if self.is(0, Tag::Not) || self.is(0, Tag::Minus) {
            let tok = self.bump();
            match self.parse_call(depth) {
                Ok(rhs) => Ok(NewUnaryExpression(tok, rhs)),
                Err(e) => Err(e),
            }
        } else {
            self.parse_call(depth)
        }
    }

    fn parse_call(&mut self, depth: usize) -> (r: Result<Node, ParserError>)
        requires
            old(self).wf(),
        ensures
            produced(*old(self), *final(self), r, sp_call(old(self).toks(), old(self).pos(), depth as nat)),
        decreases old(self).toks().len() - old(self).pos(), 29int, 0int,
    {
        if self.is(0, Tag::Symbol) && self.is(1, Tag::LParen) {
            let name = NewAtom(self.bump());
            self.bump();
            match self.parse_list(ListKind::Exprs, true, depth) {
                Ok(args) => Ok(NewCall(name, args)),
                Err(e) => Err(e),
            }
        } else {
            self.parse_access(depth)
        }
    }

    fn parse_access(&mut self, depth: usize) -> (r: Result<Node, ParserError>)
        requires
            old(self).wf(),
        ensures
            produced(*old(self), *final(self), r, sp_access(old(self).toks(), old(self).pos(), depth as nat)),
        decreases old(self).toks().len() - old(self).pos(), 28int, 0int,
    {
        let ghost t = self.toks();
        let ghost p = self.pos();
        let mut lhs = match self.parse_factor(depth) {
            Ok(n) => n,
            Err(e) => return Err(e),
        };
        loop
            invariant
                self.wf(),
                self.toks() == t,
                t == old(self).toks(),
                p == old(self).pos(),
                p < self.pos(),
                sp_access(t, p, depth as nat) == sp_access_rest(t, self.pos(), lhs.view(), depth as nat),
            decreases t.len() - self.pos(),
        {
            if self.is(0, Tag::Dot) {
                self.bump();
                let rhs = match self.parse_member(depth) {
                    Ok(n) => n,
                    Err(e) => return Err(e),
                };
                lhs = NewAccess(lhs, rhs);
            } else if self.is(0, Tag::LBracket) {
                self.bump();
                let index = match self.parse_expression(depth) {
                    Ok(n) => n,
                    Err(e) => return Err(e),
                };
                if !self.is(0, Tag::RBracket) {
                    return Err(self.fail(0, Construct::Token(Tag::RBracket)));
                }
                self.bump();
                lhs = NewAccessIndex(lhs, index);
            } else {
                return Ok(lhs);
            }
        }
    }

    fn parse_member(&mut self, depth: usize) -> (r: Result<Node, ParserError>)
        requires
            old(self).wf(),
        ensures
            produced(*old(self), *final(self), r, sp_member(old(self).toks(), old(self).pos(), depth as nat)),
        decreases old(self).toks().len() - old(self).pos(), 0int, 0int,
    {
        if !self.is(0, Tag::Symbol) {
            return Err(self.fail(0, Construct::Token(Tag::Symbol)));
        }
        let name = NewAtom(self.bump());
        if self.is(0, Tag::LParen) {
            self.bump();
            match self.parse_list(ListKind::Exprs, true, depth) {
                Ok(args) => Ok(NewCall(name, args)),
                Err(e) => Err(e),
            }
        } else {
            Ok(name)
        }
    }

    fn parse_factor(&mut self, depth: usize) -> (r: Result<Node, ParserError>)
        requires
            old(self).wf(),
        ensures
            produced(*old(self), *final(self), r, sp_factor(old(self).toks(), old(self).pos(), depth as nat)),
        decreases old(self).toks().len() - old(self).pos(), 27int, 0int,
    {
        if self.is(0, Tag::LParen) {
            if self.opens_tuple_next() {
                self.bump();
                match self.parse_list(ListKind::Exprs, true, depth) {
                    Ok(items) => Ok(NewTupleAny(items)),
                    Err(e) => Err(e),
                }
            } else {
                self.bump();
                let inner = match self.parse_expression(depth) {
                    Ok(n) => n,
                    Err(e) => return Err(e),
                };
                if !self.is(0, Tag::RParen) {
                    return Err(self.fail(0, Construct::Token(Tag::RParen)));
                }
                self.bump();
                Ok(inner)
            }
        } else if self.is(0, Tag::LBracket) {
            if self.is(1, Tag::Symbol) && self.is(2, Tag::Pipe) {
                if !self.is(3, Tag::Symbol) {
                    return Err(self.fail(3, Construct::Token(Tag::Symbol)));
                }
                if !self.is(4, Tag::RBracket) {
                    return Err(self.fail(4, Construct::Token(Tag::RBracket)));
                }
                self.bump();
                let head = NewAtom(self.bump());
                self.bump();
                let tail = NewAtom(self.bump());
                self.bump();
                Ok(NewListSplit(head, tail))
            } else {
                let tok = self.bump();
                match self.parse_list(ListKind::Items, true, depth) {
                    Ok(items) => Ok(NewListExpression(tok, items)),
                    Err(e) => Err(e),
                }
            }
        } else if self.is_literal_next() {
            Ok(NewAtom(self.bump()))
        } else {
            Err(self.fail(0, Construct::Expression))
        }
    }

    fn parse_type_fn(&mut self, depth: usize) -> (r: Result<Node, ParserError>)
        requires
            old(self).wf(),
        ensures
            produced(*old(self), *final(self), r, sp_type_fn(old(self).toks(), old(self).pos(), depth as nat)),
        decreases old(self).toks().len() - old(self).pos(), 10int, 0int,
    {
        if depth == 0 {
            return Err(self.too_deep());
        }
        let inner = depth - 1;
        let lhs = match self.parse_type_list(inner) {
            Ok(n) => n,
            Err(e) => return Err(e),
        };
        if self.is(0, Tag::Arrow) {
            let tok = self.bump();
            match self.parse_type_fn(inner) {
                Ok(rhs) => Ok(NewTypeFn(lhs, rhs, tok)),
                Err(e) => Err(e),
            }
        } else {
            Ok(lhs)
        }
    }

    fn parse_type_list(&mut self, depth: usize) -> (r: Result<Node, ParserError>)
        requires
            old(self).wf(),
        ensures
            produced(*old(self), *final(self), r, sp_type_list(old(self).toks(), old(self).pos(), depth as nat)),
        decreases old(self).toks().len() - old(self).pos(), 9int, 0int,
    {
        if self.is(0, Tag::LBracket) {
            let tok = self.bump();
            let ty = match self.parse_type_fn(depth) {
                Ok(n) => n,
                Err(e) => return Err(e),
            };
            if !self.is(0, Tag::RBracket) {
                return Err(self.fail(0, Construct::Token(Tag::RBracket)));
            }
            self.bump();
            Ok(NewTypeLst(ty, tok))
        } else {
            self.parse_type_tuple(depth)
        }
    }

    fn parse_type_tuple(&mut self, depth: usize) -> (r: Result<Node, ParserError>)
        requires
            old(self).wf(),
        ensures
            produced(*old(self), *final(self), r, sp_type_tuple(old(self).toks(), old(self).pos(), depth as nat)),
        decreases old(self).toks().len() - old(self).pos(), 8int, 0int,
    {
        if self.is(0, Tag::LParen) {
            self.bump();
            match self.parse_list(ListKind::TupleTypes, false, depth) {
                Ok(ttypes) => Ok(NewTypeTuple(ttypes)),
                Err(e) => Err(e),
            }
        } else {
            self.parse_type_composite(depth)
        }
    }

    fn parse_type_composite(&mut self, depth: usize) -> (r: Result<Node, ParserError>)
        requires
            old(self).wf(),
        ensures
            produced(*old(self), *final(self), r, sp_type_composite(old(self).toks(), old(self).pos(), depth as nat)),
        decreases old(self).toks().len() - old(self).pos(), 7int, 0int,
    {
        if self.is(0, Tag::Symbol) && self.is(1, Tag::Less) {
            let name = NewAtom(self.bump());
            self.bump();
            match self.parse_list(ListKind::TypeArgs, false, depth) {
                Ok(items) => Ok(NewTypeCmpst(NewTtype(name, false), items)),
                Err(e) => Err(e),
            }
        } else {
            self.parse_type_base()
        }
    }

    fn parse_type_base(&mut self) -> (r: Result<Node, ParserError>)
        requires
            old(self).wf(),
        ensures
            produced(*old(self), *final(self), r, sp_type_base(old(self).toks(), old(self).pos())),
    {
        let is_mut = self.is(0, Tag::Mut);
        if is_mut {
            self.bump();
        }
        if !self.is(0, Tag::Symbol) {
            return Err(self.fail(0, Construct::Token(Tag::Symbol)));
        }
        Ok(NewTtype(NewAtom(self.bump()), is_mut))
    }
}

/// Parses a whole token sequence into a root node holding its statements,
/// or gives the first failure.
pub fn parse(tokens: Vec<Token>) -> (r: Result<Node, ParserError>)
    ensures
        result_view(r) == sp_parse(tokens@),
{
    let mut parser = Parser::new(tokens);
    parser.parse()
}

} // verus!
