//! The grammar, stated as spec functions over the token sequence.
//!
//! Each production takes the tokens and the position where it starts, and
//! gives either the model of the node it builds with the position just past
//! what it consumed, or the first failure. The parser in `parser` is proved to
//! compute exactly these functions.
//!
//! Where a production goes on from the end position of a sub-parse, it takes
//! that outcome through [`forward`], which keeps it only when the position lies
//! past the start and within the tokens. That is what makes the recursion
//! well-founded. The parser's contracts show that every successful sub-parse
//! does move forward within the tokens, so the failure that `forward` puts in
//! place of such an outcome never occurs.

use vstd::prelude::*;
use crate::ast::Ast;
use crate::errors::{Construct, Fail};
use crate::tokens::{Tag, Token};

verus! {

/// The outcome of a production: a node model and the position after it.
pub type Parsed = Result<(Ast, int), Fail>;

/// The outcome of a list production: the item models and the position after it.
pub type ParsedList = Result<(Seq<Ast>, int), Fail>;

/// The category of the token at `p`, if there is one.
pub open spec fn tag_at(t: Seq<Token>, p: int) -> Option<Tag> {
    if 0 <= p < t.len() {
        Some(t[p].kind())
    } else {
        None
    }
}

/// Whether the token at `p` has category `g`.
pub open spec fn at(t: Seq<Token>, p: int, g: Tag) -> bool {
    tag_at(t, p) == Some(g)
}

/// The column after `c`, staying at the largest column.
pub open spec fn next_col(c: usize) -> usize {
    if c < usize::MAX {
        (c + 1) as usize
    } else {
        c
    }
}

/// Where a failure at `p` is reported: at the token there, or one column
/// past the last token when the stream is exhausted.
pub open spec fn place(t: Seq<Token>, p: int) -> (usize, usize) {
    if 0 <= p < t.len() {
        (t[p].row, t[p].col)
    } else if 0 < p && p - 1 < t.len() {
        (t[p - 1].row, next_col(t[p - 1].col))
    } else {
        (0, 0)
    }
}

/// The failure "expected `c`" at `p`.
pub open spec fn expected(c: Construct, t: Seq<Token>, p: int) -> Fail {
    Fail::Expected(c, place(t, p).0, place(t, p).1)
}

/// The failure "expected a token of category `g`" at `p`.
pub open spec fn expected_tag(g: Tag, t: Seq<Token>, p: int) -> Fail {
    expected(Construct::Token(g), t, p)
}

/// How deep expressions and types may nest: each expression or type inside
/// another spends one level.
pub const MAX_NESTING: usize = 64;

/// The failure "nested too deep" at `p`.
pub open spec fn too_deep(t: Seq<Token>, p: int) -> Fail {
    Fail::NestingTooDeep(place(t, p).0, place(t, p).1)
}

/// The failure "expected one of `cs`" at `p`.
pub open spec fn expected_one_of(cs: Seq<Construct>, t: Seq<Token>, p: int) -> Fail {
    Fail::ExpectedOneOf(cs, place(t, p).0, place(t, p).1)
}

/// The failure "expected one of the token categories `a`, `b`" at `p`.
pub open spec fn expected_either(a: Tag, b: Tag, t: Seq<Token>, p: int) -> Fail {
    expected_one_of(seq![Construct::Token(a), Construct::Token(b)], t, p)
}

/// The atom made of the token at `p`.
pub open spec fn atom_at(t: Seq<Token>, p: int) -> Ast {
    Ast::Atom { token: t[p] }
}

/// A name at `p`, as an atom.
pub open spec fn sp_symbol(t: Seq<Token>, p: int) -> Parsed {
    if at(t, p, Tag::Symbol) {
        Ok((atom_at(t, p), p + 1))
    } else {
        Err(expected_tag(Tag::Symbol, t, p))
    }
}

/// A string literal at `p`, as an atom.
pub open spec fn sp_string(t: Seq<Token>, p: int) -> Parsed {
    if at(t, p, Tag::String) {
        Ok((atom_at(t, p), p + 1))
    } else {
        Err(expected_tag(Tag::String, t, p))
    }
}

/// Whether a token category makes an atom on its own.
pub open spec fn is_literal(g: Tag) -> bool {
    g == Tag::Integer || g == Tag::String || g == Tag::Symbol || g == Tag::True || g == Tag::False
}

/// Whether `g` opens a bracket.
pub open spec fn is_opener(g: Tag) -> bool {
    g == Tag::LParen || g == Tag::LBracket || g == Tag::LCurly
}

/// Whether `g` closes a bracket.
pub open spec fn is_closer(g: Tag) -> bool {
    g == Tag::RParen || g == Tag::RBracket || g == Tag::RCurly
}

/// Scanning from `i` at bracket depth `depth` (the opening parenthesis is
/// depth 1): whether a comma at depth 1 comes before that parenthesis closes.
pub open spec fn comma_ahead(t: Seq<Token>, i: int, depth: nat) -> bool
    decreases t.len() - i,
{
    if i < 0 || i >= t.len() {
        false
    } else {
        let g = t[i].kind();
        if is_opener(g) {
            comma_ahead(t, i + 1, depth + 1)
        } else if is_closer(g) {
            if depth <= 1 {
                false
            } else {
                comma_ahead(t, i + 1, (depth - 1) as nat)
            }
        } else if g == Tag::Comma && depth == 1 {
            true
        } else {
            comma_ahead(t, i + 1, depth)
        }
    }
}

/// Whether the parenthesis at `p` opens a tuple rather than a group: it is
/// empty, or holds a comma outside any nested bracket.
pub open spec fn opens_tuple(t: Seq<Token>, p: int) -> bool {
    at(t, p + 1, Tag::RParen) || comma_ahead(t, p + 1, 1)
}

/// A sub-parse's outcome, kept when its end lies past `p` and within the
/// tokens.
pub open spec fn forward<A>(r: Result<(A, int), Fail>, t: Seq<Token>, p: int) -> Result<(A, int), Fail> {
    match r {
        Ok((a, q)) => if p < q <= t.len() {
            Ok((a, q))
        } else {
            Err(expected(Construct::Expression, t, p))
        },
        Err(e) => Err(e),
    }
}

/// A parsed type, as an annotation that is present.
pub open spec fn annotated(r: Parsed) -> Result<(Option<Box<Ast>>, int), Fail> {
    match r {
        Ok((a, q)) => Ok((Some(Box::new(a)), q)),
        Err(e) => Err(e),
    }
}

/// The comma-delimited lists of the grammar.
#[derive(Clone, Copy, Debug, PartialEq, Eq, Structural)]
pub enum ListKind {
    /// Tuple elements or call arguments: expressions up to `)`.
    Exprs,
    /// List literal items: expressions up to `]`.
    Items,
    /// Function arguments up to `)`.
    FnArgs,
    /// Names being bound, up to `)`, trailing comma allowed.
    Symbols,
    /// Imported paths, up to `)`, trailing comma allowed.
    Strings,
    /// Struct fields, up to `)`, trailing comma allowed.
    Fields,
    /// Data variants separated by `|`, up to `)`.
    Variants,
    /// Generic parameter names, up to `>`.
    Generics,
    /// Tuple type elements, up to `)`.
    TupleTypes,
    /// Composite type arguments, up to `>`.
    TypeArgs,
}

/// The token that ends a list.
pub open spec fn closer(k: ListKind) -> Tag {
    match k {
        ListKind::Items => Tag::RBracket,
        ListKind::Generics | ListKind::TypeArgs => Tag::Greater,
        _ => Tag::RParen,
    }
}

/// The token between two items of a list.
pub open spec fn separator(k: ListKind) -> Tag {
    match k {
        ListKind::Variants => Tag::Pipe,
        _ => Tag::Comma,
    }
}

/// Whether a separator may stand before the closer.
pub open spec fn trailing(k: ListKind) -> bool {
    k == ListKind::Symbols || k == ListKind::Strings || k == ListKind::Fields
}

/// A list whose opener is consumed: items of kind `k` from `p`, appended to
/// `acc`, up to and including the closer. When `may_close`, the closer may
/// come at `p`.
pub open spec fn sp_list(k: ListKind, t: Seq<Token>, p: int, acc: Seq<Ast>, may_close: bool, d: nat) -> ParsedList
    decreases t.len() - p, 52int, 0int,
{
    if may_close && at(t, p, closer(k)) {
        Ok((acc, p + 1))
    } else {
        match forward(sp_item(k, t, p, d), t, p) {
            Err(e) => Err(e),
            Ok((it, q)) => if at(t, q, closer(k)) {
                Ok((acc.push(it), q + 1))
            } else if at(t, q, separator(k)) {
                sp_list(k, t, q + 1, acc.push(it), trailing(k), d)
            } else {
                Err(expected_either(separator(k), closer(k), t, q))
            },
        }
    }
}

/// One item of a list of kind `k`.
pub open spec fn sp_item(k: ListKind, t: Seq<Token>, p: int, d: nat) -> Parsed
    decreases t.len() - p, 51int, 0int,
{
    match k {
        ListKind::Exprs | ListKind::Items => sp_expression(t, p, d),
        ListKind::FnArgs => sp_fn_arg(t, p, d),
        ListKind::Symbols | ListKind::Generics => sp_symbol(t, p),
        ListKind::Strings => sp_string(t, p),
        ListKind::Fields => sp_field(t, p, d),
        ListKind::Variants => sp_variant(t, p, d),
        ListKind::TupleTypes | ListKind::TypeArgs => sp_type_fn(t, p, d),
    }
}

/// A whole program from `p`: statements until the tokens run out.
pub open spec fn sp_program(t: Seq<Token>, p: int, acc: Seq<Ast>) -> Result<Seq<Ast>, Fail>
    decreases t.len() - p, 57int, 0int,
{
    if p >= t.len() {
        Ok(acc)
    } else {
        match forward(sp_statement(t, p, MAX_NESTING as nat), t, p) {
            Err(e) => Err(e),
            Ok((s, q)) => sp_program(t, q, acc.push(s)),
        }
    }
}

/// The parse of the tokens from `p` on: the root node, or the first failure.
pub open spec fn sp_parse_from(t: Seq<Token>, p: int) -> Result<Ast, Fail> {
    match sp_program(t, p, Seq::empty()) {
        Ok(children) => Ok(Ast::Root { children }),
        Err(e) => Err(e),
    }
}

/// The parse of a whole token sequence: the root node, or the first failure.
pub open spec fn sp_parse(t: Seq<Token>) -> Result<Ast, Fail> {
    sp_parse_from(t, 0)
}

/// Statements of a block up to and including `}`.
pub open spec fn sp_block(t: Seq<Token>, p: int, acc: Seq<Ast>, d: nat) -> ParsedList
    decreases t.len() - p, 56int, 0int,
{
    if at(t, p, Tag::RCurly) {
        Ok((acc, p + 1))
    } else {
        match forward(sp_statement(t, p, d), t, p) {
            Err(e) => Err(e),
            Ok((s, q)) => sp_block(t, q, acc.push(s), d),
        }
    }
}

/// `statement ::= expression ';'`
pub open spec fn sp_statement(t: Seq<Token>, p: int, d: nat) -> Parsed
    decreases t.len() - p, 55int, 0int,
{
    match sp_expression(t, p, d) {
        Err(e) => Err(e),
        Ok((e, q)) => if at(t, q, Tag::Semicolon) {
            Ok((e, q + 1))
        } else {
            Err(expected_tag(Tag::Semicolon, t, q))
        },
    }
}

/// An expression: a production chosen by its leading keyword, or else the
/// operator ladder. With no nesting budget `d` left it fails instead.
pub open spec fn sp_expression(t: Seq<Token>, p: int, d: nat) -> Parsed
    decreases t.len() - p, 50int, 0int,
{
    if d == 0 {
        Err(too_deep(t, p))
    } else {
        let inner = (d - 1) as nat;
        match tag_at(t, p) {
            Some(Tag::Let) => sp_let(t, p, inner),
            Some(Tag::Mut) => sp_mut(t, p, inner),
            Some(Tag::Fn) => sp_fn(t, p, inner),
            Some(Tag::If) => sp_if(t, p, inner),
            Some(Tag::Pub) => sp_pub(t, p, inner),
            Some(Tag::Data) => sp_data(t, p, inner),
            Some(Tag::Struct) => sp_struct(t, p, inner),
            Some(Tag::Package) => sp_package(t, p),
            Some(Tag::Import) => sp_import(t, p, inner),
            Some(Tag::Match) => sp_match(t, p, inner),
            Some(Tag::While) => sp_while(t, p, inner),
            Some(Tag::Do) => sp_do(t, p, inner),
            Some(Tag::Return) => sp_return(t, p, inner),
            _ => sp_binary(0, t, p, inner),
        }
    }
}

/// `'let' ['mut'] (name | '(' names ')') ['::' type] '=' expression`
pub open spec fn sp_let(t: Seq<Token>, p: int, d: nat) -> Parsed
    decreases t.len() - p, 49int, 0int,
{
    if !at(t, p, Tag::Let) {
        Err(expected_tag(Tag::Let, t, p))
    } else {
        let is_mut = at(t, p + 1, Tag::Mut);
        let s = if is_mut { p + 2 } else { p + 1 };
        let names: ParsedList = if at(t, s, Tag::Symbol) {
            Ok((seq![atom_at(t, s)], s + 1))
        } else if at(t, s, Tag::LParen) {
            sp_list(ListKind::Symbols, t, s + 1, Seq::empty(), true, d)
        } else {
            Err(expected_either(Tag::Symbol, Tag::LParen, t, s))
        };
        match forward(names, t, p) {
            Err(e) => Err(e),
            Ok((symbols, q)) => {
                let ann = if at(t, q, Tag::DoubleColon) {
                    annotated(forward(sp_type_fn(t, q + 1, d), t, q + 1))
                } else {
                    Ok((None, q))
                };
                match ann {
                    Err(e) => Err(e),
                    Ok((ttype, r)) => if !at(t, r, Tag::Bind) {
                        Err(expected_tag(Tag::Bind, t, r))
                    } else {
                        match sp_expression(t, r + 1, d) {
                            Err(e) => Err(e),
                            Ok((rhs, u)) => Ok((
                                Ast::LetExpr { symbols, rhs: Box::new(rhs), token: t[p], is_mut, ttype },
                                u,
                            )),
                        }
                    },
                }
            },
        }
    }
}

/// `'mut' target '=' expression`
pub open spec fn sp_mut(t: Seq<Token>, p: int, d: nat) -> Parsed
    decreases t.len() - p, 49int, 0int,
{
    if !at(t, p, Tag::Mut) {
        Err(expected_tag(Tag::Mut, t, p))
    } else {
        match forward(sp_access(t, p + 1, d), t, p + 1) {
            Err(e) => Err(e),
            Ok((lhs, q)) => if !at(t, q, Tag::Bind) {
                Err(expected_tag(Tag::Bind, t, q))
            } else {
                match sp_expression(t, q + 1, d) {
                    Err(e) => Err(e),
                    Ok((rhs, r)) => Ok((Ast::MutExpr { lhs: Box::new(lhs), rhs: Box::new(rhs), token: t[p] }, r)),
                }
            },
        }
    }
}

/// The part shared by anonymous functions and declarations, from the `(`
/// of the arguments at `p`: `'(' args ')' [':' type] '=>' expression`.
pub open spec fn sp_fn_rest(t: Seq<Token>, p: int, d: nat) -> Result<(Seq<Ast>, Option<Box<Ast>>, Ast, int), Fail>
    decreases t.len() - p, 48int, 0int,
{
    if !at(t, p, Tag::LParen) {
        Err(expected_tag(Tag::LParen, t, p))
    } else {
        match forward(sp_list(ListKind::FnArgs, t, p + 1, Seq::empty(), true, d), t, p + 1) {
            Err(e) => Err(e),
            Ok((args, q)) => {
                let ann = if at(t, q, Tag::Colon) {
                    annotated(forward(sp_type_fn(t, q + 1, d), t, q + 1))
                } else {
                    Ok((None, q))
                };
                match ann {
                    Err(e) => Err(e),
                    Ok((ty, r)) => if !at(t, r, Tag::EqArrow) {
                        Err(expected_tag(Tag::EqArrow, t, r))
                    } else {
                        match sp_expression(t, r + 1, d) {
                            Err(e) => Err(e),
                            Ok((body, u)) => Ok((args, ty, body, u)),
                        }
                    },
                }
            },
        }
    }
}

/// The three function forms, told apart by the two tokens after `fn`.
pub open spec fn sp_fn(t: Seq<Token>, p: int, d: nat) -> Parsed
    decreases t.len() - p, 49int, 0int,
{
    if !at(t, p, Tag::Fn) {
        Err(expected_tag(Tag::Fn, t, p))
    } else if at(t, p + 1, Tag::LParen) {
        match sp_fn_rest(t, p + 1, d) {
            Err(e) => Err(e),
            Ok((arguments, type_out, rhs, q)) => Ok((
                Ast::FnAnon { arguments, type_out, rhs: Box::new(rhs), token: t[p] },
                q,
            )),
        }
    } else if at(t, p + 1, Tag::Symbol) {
        if at(t, p + 2, Tag::DoubleColon) {
            match sp_type_fn(t, p + 3, d) {
                Err(e) => Err(e),
                Ok((ty, q)) => Ok((
                    Ast::FnSignature { symbol: Box::new(atom_at(t, p + 1)), ttype: Box::new(ty), token: t[p] },
                    q,
                )),
            }
        } else if at(t, p + 2, Tag::LParen) {
            match sp_fn_rest(t, p + 2, d) {
                Err(e) => Err(e),
                Ok((arguments, type_out, rhs, q)) => Ok((
                    Ast::FnDeclaration {
                        symbol: Box::new(atom_at(t, p + 1)),
                        arguments,
                        type_out,
                        rhs: Box::new(rhs),
                        token: t[p],
                    },
                    q,
                )),
            }
        } else {
            Err(expected_either(Tag::DoubleColon, Tag::LParen, t, p + 2))
        }
    } else {
        Err(expected_either(Tag::LParen, Tag::Symbol, t, p + 1))
    }
}

/// A function argument: a literal or name, with an optional `: type`.
pub open spec fn sp_fn_arg(t: Seq<Token>, p: int, d: nat) -> Parsed
    decreases t.len() - p, 49int, 0int,
{
    if 0 <= p < t.len() && is_literal(t[p].kind()) {
        let ann = if at(t, p + 1, Tag::Colon) {
            annotated(sp_type_fn(t, p + 2, d))
        } else {
            Ok((None, p + 1))
        };
        match ann {
            Err(e) => Err(e),
            Ok((ttype, q)) => Ok((Ast::FnArgTyped { symbol: Box::new(atom_at(t, p)), ttype }, q)),
        }
    } else {
        Err(expected(Construct::Atom, t, p))
    }
}

/// `'if' condition 'then' expression ['else' expression]`
pub open spec fn sp_if(t: Seq<Token>, p: int, d: nat) -> Parsed
    decreases t.len() - p, 49int, 0int,
{
    if !at(t, p, Tag::If) {
        Err(expected_tag(Tag::If, t, p))
    } else {
        match forward(sp_binary(0, t, p + 1, d), t, p + 1) {
            Err(e) => Err(e),
            Ok((cond, q)) => if !at(t, q, Tag::Then) {
                Err(expected_tag(Tag::Then, t, q))
            } else {
                match forward(sp_expression(t, q + 1, d), t, q + 1) {
                    Err(e) => Err(e),
                    Ok((yes, r)) => if at(t, r, Tag::Else) {
                        match sp_expression(t, r + 1, d) {
                            Err(e) => Err(e),
                            Ok((no, u)) => Ok((
                                Ast::IfExpr {
                                    cond: Box::new(cond),
                                    true_branch: Box::new(yes),
                                    false_branch: Some(Box::new(no)),
                                    token: t[p],
                                },
                                u,
                            )),
                        }
                    } else {
                        Ok((
                            Ast::IfExpr {
                                cond: Box::new(cond),
                                true_branch: Box::new(yes),
                                false_branch: None,
                                token: t[p],
                            },
                            r,
                        ))
                    },
                }
            },
        }
    }
}

/// `'pub'` before a function, data or struct declaration.
pub open spec fn sp_pub(t: Seq<Token>, p: int, d: nat) -> Parsed
    decreases t.len() - p, 49int, 0int,
{
    if !at(t, p, Tag::Pub) {
        Err(expected_tag(Tag::Pub, t, p))
    } else {
        let inner = if at(t, p + 1, Tag::Fn) {
            sp_fn(t, p + 1, d)
        } else if at(t, p + 1, Tag::Data) {
            sp_data(t, p + 1, d)
        } else if at(t, p + 1, Tag::Struct) {
            sp_struct(t, p + 1, d)
        } else {
            Err(
                expected_one_of(
                    seq![Construct::Token(Tag::Fn), Construct::Token(Tag::Data), Construct::Token(Tag::Struct)],
                    t,
                    p + 1,
                ),
            )
        };
        match inner {
            Err(e) => Err(e),
            Ok((rhs, q)) => Ok((Ast::PubExpr { rhs: Box::new(rhs), token: t[p] }, q)),
        }
    }
}

/// `'data' name ['<' names '>'] '(' ['|'] variant ('|' variant)* ')'`
pub open spec fn sp_data(t: Seq<Token>, p: int, d: nat) -> Parsed
    decreases t.len() - p, 49int, 0int,
{
    if !at(t, p, Tag::Data) {
        Err(expected_tag(Tag::Data, t, p))
    } else if !at(t, p + 1, Tag::Symbol) {
        Err(expected_tag(Tag::Symbol, t, p + 1))
    } else {
        let generics: ParsedList = if at(t, p + 2, Tag::Less) {
            sp_list(ListKind::Generics, t, p + 3, Seq::empty(), true, d)
        } else {
            Ok((Seq::empty(), p + 2))
        };
        match forward(generics, t, p) {
            Err(e) => Err(e),
            Ok((generics, q)) => if !at(t, q, Tag::LParen) {
                Err(expected_tag(Tag::LParen, t, q))
            } else {
                let lead = at(t, q + 1, Tag::Pipe);
                let s = if lead { q + 2 } else { q + 1 };
                match sp_list(ListKind::Variants, t, s, Seq::empty(), !lead, d) {
                    Err(e) => Err(e),
                    Ok((variants, r)) => Ok((
                        Ast::DataDeclaration { symbol: Box::new(atom_at(t, p + 1)), generics, variants, token: t[p] },
                        r,
                    )),
                }
            },
        }
    }
}

/// A data variant: a name, or `name '::' type` where the type may be an
/// anonymous struct.
pub open spec fn sp_variant(t: Seq<Token>, p: int, d: nat) -> Parsed
    decreases t.len() - p, 49int, 0int,
{
    if !at(t, p, Tag::Symbol) {
        Err(expected_tag(Tag::Symbol, t, p))
    } else if !at(t, p + 1, Tag::DoubleColon) {
        Ok((atom_at(t, p), p + 1))
    } else {
        let ty = if at(t, p + 2, Tag::Struct) {
            sp_struct_anon(t, p + 2, d)
        } else {
            sp_type_fn(t, p + 2, d)
        };
        match ty {
            Err(e) => Err(e),
            Ok((ty, q)) => Ok((Ast::DataItem { symbol: Box::new(atom_at(t, p)), ttype: Box::new(ty) }, q)),
        }
    }
}

/// `'struct' '(' fields ')'`
pub open spec fn sp_struct_anon(t: Seq<Token>, p: int, d: nat) -> Parsed
    decreases t.len() - p, 48int, 0int,
{
    if !at(t, p, Tag::Struct) {
        Err(expected_tag(Tag::Struct, t, p))
    } else if !at(t, p + 1, Tag::LParen) {
        Err(expected_tag(Tag::LParen, t, p + 1))
    } else {
        match sp_list(ListKind::Fields, t, p + 2, Seq::empty(), true, d) {
            Err(e) => Err(e),
            Ok((fields, q)) => Ok((Ast::StructAnon { fields, token: t[p] }, q)),
        }
    }
}

/// `'struct' name '(' fields ')'`, or the anonymous form when no name follows
/// `struct`.
pub open spec fn sp_struct(t: Seq<Token>, p: int, d: nat) -> Parsed
    decreases t.len() - p, 49int, 0int,
{
    if !at(t, p, Tag::Struct) {
        Err(expected_tag(Tag::Struct, t, p))
    } else if at(t, p + 1, Tag::Symbol) {
        if !at(t, p + 2, Tag::LParen) {
            Err(expected_tag(Tag::LParen, t, p + 2))
        } else {
            match sp_list(ListKind::Fields, t, p + 3, Seq::empty(), true, d) {
                Err(e) => Err(e),
                Ok((fields, q)) => Ok((
                    Ast::StructDeclaration { symbol: Box::new(atom_at(t, p + 1)), fields, token: t[p] },
                    q,
                )),
            }
        }
    } else {
        sp_struct_anon(t, p, d)
    }
}

/// A struct field: `name '::' type`.
pub open spec fn sp_field(t: Seq<Token>, p: int, d: nat) -> Parsed
    decreases t.len() - p, 49int, 0int,
{
    if !at(t, p, Tag::Symbol) {
        Err(expected_tag(Tag::Symbol, t, p))
    } else if !at(t, p + 1, Tag::DoubleColon) {
        Err(expected_tag(Tag::DoubleColon, t, p + 1))
    } else {
        match sp_type_fn(t, p + 2, d) {
            Err(e) => Err(e),
            Ok((ty, q)) => Ok((Ast::StructField { symbol: Box::new(atom_at(t, p)), ttype: Box::new(ty) }, q)),
        }
    }
}

/// `'package' name`
pub open spec fn sp_package(t: Seq<Token>, p: int) -> Parsed {
    if !at(t, p, Tag::Package) {
        Err(expected_tag(Tag::Package, t, p))
    } else if at(t, p + 1, Tag::Symbol) {
        Ok((Ast::Package { token: t[p], rhs: Box::new(atom_at(t, p + 1)) }, p + 2))
    } else {
        Err(expected_tag(Tag::Symbol, t, p + 1))
    }
}

/// `'import' (string | '(' strings ')')`
pub open spec fn sp_import(t: Seq<Token>, p: int, d: nat) -> Parsed
    decreases t.len() - p, 49int, 0int,
{
    if !at(t, p, Tag::Import) {
        Err(expected_tag(Tag::Import, t, p))
    } else if at(t, p + 1, Tag::String) {
        Ok((Ast::Import { token: t[p], rhs: seq![atom_at(t, p + 1)] }, p + 2))
    } else if at(t, p + 1, Tag::LParen) {
        match sp_list(ListKind::Strings, t, p + 2, Seq::empty(), true, d) {
            Err(e) => Err(e),
            Ok((rhs, q)) => Ok((Ast::Import { token: t[p], rhs }, q)),
        }
    } else {
        Err(expected_either(Tag::String, Tag::LParen, t, p + 1))
    }
}

/// `'match' value '(' branch* ')'`
pub open spec fn sp_match(t: Seq<Token>, p: int, d: nat) -> Parsed
    decreases t.len() - p, 49int, 0int,
{
    if !at(t, p, Tag::Match) {
        Err(expected_tag(Tag::Match, t, p))
    } else {
        match forward(sp_binary(0, t, p + 1, d), t, p + 1) {
            Err(e) => Err(e),
            Ok((lhs, q)) => if !at(t, q, Tag::LParen) {
                Err(expected_tag(Tag::LParen, t, q))
            } else {
                match sp_branches(t, q + 1, Seq::empty(), d) {
                    Err(e) => Err(e),
                    Ok((branches, r)) => Ok((Ast::MatchExpression { lhs: Box::new(lhs), branches, token: t[p] }, r)),
                }
            },
        }
    }
}

/// Match branches `'|' pattern '->' result` up to and including `)`.
pub open spec fn sp_branches(t: Seq<Token>, p: int, acc: Seq<Ast>, d: nat) -> ParsedList
    decreases t.len() - p, 52int, 0int,
{
    if at(t, p, Tag::RParen) {
        Ok((acc, p + 1))
    } else if !at(t, p, Tag::Pipe) {
        Err(expected_either(Tag::Pipe, Tag::RParen, t, p))
    } else {
        match forward(sp_expression(t, p + 1, d), t, p + 1) {
            Err(e) => Err(e),
            Ok((lhs, q)) => if !at(t, q, Tag::Arrow) {
                Err(expected_tag(Tag::Arrow, t, q))
            } else {
                match forward(sp_expression(t, q + 1, d), t, q + 1) {
                    Err(e) => Err(e),
                    Ok((rhs, r)) => sp_branches(
                        t,
                        r,
                        acc.push(Ast::MatchBranch { lhs: Box::new(lhs), rhs: Box::new(rhs), token: t[p] }),
                        d,
                    ),
                }
            },
        }
    }
}

/// `'while' condition '{' statement* '}'`
pub open spec fn sp_while(t: Seq<Token>, p: int, d: nat) -> Parsed
    decreases t.len() - p, 49int, 0int,
{
    if !at(t, p, Tag::While) {
        Err(expected_tag(Tag::While, t, p))
    } else {
        match forward(sp_binary(0, t, p + 1, d), t, p + 1) {
            Err(e) => Err(e),
            Ok((cond, q)) => if !at(t, q, Tag::LCurly) {
                Err(expected_tag(Tag::LCurly, t, q))
            } else {
                match sp_block(t, q + 1, Seq::empty(), d) {
                    Err(e) => Err(e),
                    Ok((statements, r)) => Ok((
                        Ast::WhileExpression { cond: Box::new(cond), statements, token: t[p] },
                        r,
                    )),
                }
            },
        }
    }
}

/// `'do' '{' statement* '}'`
pub open spec fn sp_do(t: Seq<Token>, p: int, d: nat) -> Parsed
    decreases t.len() - p, 49int, 0int,
{
    if !at(t, p, Tag::Do) {
        Err(expected_tag(Tag::Do, t, p))
    } else if !at(t, p + 1, Tag::LCurly) {
        Err(expected_tag(Tag::LCurly, t, p + 1))
    } else {
        match sp_block(t, p + 2, Seq::empty(), d) {
            Err(e) => Err(e),
            Ok((statements, q)) => Ok((Ast::DoExpression { token: t[p], statements }, q)),
        }
    }
}

/// `'return' expression`
pub open spec fn sp_return(t: Seq<Token>, p: int, d: nat) -> Parsed
    decreases t.len() - p, 49int, 0int,
{
    if !at(t, p, Tag::Return) {
        Err(expected_tag(Tag::Return, t, p))
    } else {
        match sp_expression(t, p + 1, d) {
            Err(e) => Err(e),
            Ok((value, q)) => Ok((Ast::ReturnExpression { value: Box::new(value), token: t[p] }, q)),
        }
    }
}

/// The operators of a binary level, from loosest (0) to tightest (5).
pub open spec fn is_operator(level: nat, g: Tag) -> bool {
    if level == 0 {
        g == Tag::Or
    } else if level == 1 {
        g == Tag::And
    } else if level == 2 {
        g == Tag::Eq || g == Tag::NotEq
    } else if level == 3 {
        g == Tag::Greater || g == Tag::GreaterEqual || g == Tag::Less || g == Tag::LessEqual
    } else if level == 4 {
        g == Tag::Plus || g == Tag::Minus
    } else {
        g == Tag::Star || g == Tag::Slash
    }
}

/// Whether the token at `p` is an operator of `level`.
pub open spec fn operator_at(level: nat, t: Seq<Token>, p: int) -> bool {
    0 <= p < t.len() && is_operator(level, t[p].kind())
}

/// The operand of a binary level: the next tighter level.
pub open spec fn sp_operand(level: nat, t: Seq<Token>, p: int, d: nat) -> Parsed
    decreases t.len() - p, 40 - level, 1int,
{
    if level < 5 {
        sp_binary(level + 1, t, p, d)
    } else if level == 5 {
        sp_unary(t, p, d)
    } else {
        Err(expected(Construct::Expression, t, p))
    }
}

/// A binary level: operands of the next level joined by this level's
/// operators, grouped to the left.
pub open spec fn sp_binary(level: nat, t: Seq<Token>, p: int, d: nat) -> Parsed
    decreases t.len() - p, 40 - level, 2int,
{
    if level > 5 {
        Err(expected(Construct::Expression, t, p))
    } else {
        match forward(sp_operand(level, t, p, d), t, p) {
            Err(e) => Err(e),
            Ok((lhs, q)) => sp_binary_rest(level, t, q, lhs, d),
        }
    }
}

/// The rest of a binary level after its left operand `lhs`.
pub open spec fn sp_binary_rest(level: nat, t: Seq<Token>, p: int, lhs: Ast, d: nat) -> Parsed
    decreases t.len() - p, 0int, 0int,
{
    if level <= 5 && operator_at(level, t, p) {
        match forward(sp_operand(level, t, p + 1, d), t, p + 1) {
            Err(e) => Err(e),
            Ok((rhs, q)) => sp_binary_rest(
                level,
                t,
                q,
                Ast::BinaryExpression { lhs: Box::new(lhs), rhs: Box::new(rhs), token: t[p] },
                d,
            ),
        }
    } else {
        Ok((lhs, p))
    }
}

/// `('!' | '-') call | call`
pub open spec fn sp_unary(t: Seq<Token>, p: int, d: nat) -> Parsed
    decreases t.len() - p, 30int, 0int,
{
    if at(t, p, Tag::Not) || at(t, p, Tag::Minus) {
        match sp_call(t, p + 1, d) {
            Err(e) => Err(e),
            Ok((rhs, q)) => Ok((Ast::UnaryExpression { rhs: Box::new(rhs), token: t[p] }, q)),
        }
    } else {
        sp_call(t, p, d)
    }
}

/// `name '(' arguments ')' | access`
pub open spec fn sp_call(t: Seq<Token>, p: int, d: nat) -> Parsed
    decreases t.len() - p, 29int, 0int,
{
    if at(t, p, Tag::Symbol) && at(t, p + 1, Tag::LParen) {
        match sp_list(ListKind::Exprs, t, p + 2, Seq::empty(), true, d) {
            Err(e) => Err(e),
            Ok((args, q)) => Ok((Ast::Call { lhs: Box::new(atom_at(t, p)), args }, q)),
        }
    } else {
        sp_access(t, p, d)
    }
}

/// `factor ('.' member | '[' expression ']')*`
pub open spec fn sp_access(t: Seq<Token>, p: int, d: nat) -> Parsed
    decreases t.len() - p, 28int, 0int,
{
    match forward(sp_factor(t, p, d), t, p) {
        Err(e) => Err(e),
        Ok((lhs, q)) => sp_access_rest(t, q, lhs, d),
    }
}

/// The access chain after its left part `lhs`.
pub open spec fn sp_access_rest(t: Seq<Token>, p: int, lhs: Ast, d: nat) -> Parsed
    decreases t.len() - p, 0int, 0int,
{
    if at(t, p, Tag::Dot) {
        match forward(sp_member(t, p + 1, d), t, p + 1) {
            Err(e) => Err(e),
            Ok((rhs, q)) => sp_access_rest(t, q, Ast::Access { lhs: Box::new(lhs), rhs: Box::new(rhs) }, d),
        }
    } else if at(t, p, Tag::LBracket) {
        match forward(sp_expression(t, p + 1, d), t, p + 1) {
            Err(e) => Err(e),
            Ok((index, q)) => if !at(t, q, Tag::RBracket) {
                Err(expected_tag(Tag::RBracket, t, q))
            } else {
                sp_access_rest(t, q + 1, Ast::AccessIndex { symbol: Box::new(lhs), index: Box::new(index) }, d)
            },
        }
    } else {
        Ok((lhs, p))
    }
}

/// What follows a `.`: a name, or a call of it.
pub open spec fn sp_member(t: Seq<Token>, p: int, d: nat) -> Parsed
    decreases t.len() - p, 0int, 0int,
{
    if !at(t, p, Tag::Symbol) {
        Err(expected_tag(Tag::Symbol, t, p))
    } else if at(t, p + 1, Tag::LParen) {
        match sp_list(ListKind::Exprs, t, p + 2, Seq::empty(), true, d) {
            Err(e) => Err(e),
            Ok((args, q)) => Ok((Ast::Call { lhs: Box::new(atom_at(t, p)), args }, q)),
        }
    } else {
        Ok((atom_at(t, p), p + 1))
    }
}

/// A group, tuple, list literal, list split or atom.
pub open spec fn sp_factor(t: Seq<Token>, p: int, d: nat) -> Parsed
    decreases t.len() - p, 27int, 0int,
{
    if at(t, p, Tag::LParen) {
        if opens_tuple(t, p) {
            match sp_list(ListKind::Exprs, t, p + 1, Seq::empty(), true, d) {
                Err(e) => Err(e),
                Ok((items, q)) => Ok((Ast::TupleAny { items }, q)),
            }
        } else {
            match sp_expression(t, p + 1, d) {
                Err(e) => Err(e),
                Ok((inner, q)) => if at(t, q, Tag::RParen) {
                    Ok((inner, q + 1))
                } else {
                    Err(expected_tag(Tag::RParen, t, q))
                },
            }
        }
    } else if at(t, p, Tag::LBracket) {
        if at(t, p + 1, Tag::Symbol) && at(t, p + 2, Tag::Pipe) {
            if !at(t, p + 3, Tag::Symbol) {
                Err(expected_tag(Tag::Symbol, t, p + 3))
            } else if !at(t, p + 4, Tag::RBracket) {
                Err(expected_tag(Tag::RBracket, t, p + 4))
            } else {
                Ok((
                    Ast::ListSplit { head: Box::new(atom_at(t, p + 1)), tail: Box::new(atom_at(t, p + 3)) },
                    p + 5,
                ))
            }
        } else {
            match sp_list(ListKind::Items, t, p + 1, Seq::empty(), true, d) {
                Err(e) => Err(e),
                Ok((items, q)) => Ok((Ast::ListLiteral { items, token: t[p] }, q)),
            }
        }
    } else if 0 <= p < t.len() && is_literal(t[p].kind()) {
        Ok((atom_at(t, p), p + 1))
    } else {
        Err(expected(Construct::Expression, t, p))
    }
}

/// `list_type ['->' type]`: function types chain to the right. With no
/// nesting budget `d` left it fails instead.
pub open spec fn sp_type_fn(t: Seq<Token>, p: int, d: nat) -> Parsed
    decreases t.len() - p, 10int, 0int,
{
    if d == 0 {
        Err(too_deep(t, p))
    } else {
        let inner = (d - 1) as nat;
        match forward(sp_type_list(t, p, inner), t, p) {
            Err(e) => Err(e),
            Ok((lhs, q)) => if at(t, q, Tag::Arrow) {
                match sp_type_fn(t, q + 1, inner) {
                    Err(e) => Err(e),
                    Ok((rhs, r)) => Ok((Ast::TypeFn { lhs: Box::new(lhs), rhs: Box::new(rhs), token: t[q] }, r)),
                }
            } else {
                Ok((lhs, q))
            },
        }
    }
}

/// `'[' type ']' | tuple_type`
pub open spec fn sp_type_list(t: Seq<Token>, p: int, d: nat) -> Parsed
    decreases t.len() - p, 9int, 0int,
{
    if at(t, p, Tag::LBracket) {
        match sp_type_fn(t, p + 1, d) {
            Err(e) => Err(e),
            Ok((ty, q)) => if at(t, q, Tag::RBracket) {
                Ok((Ast::TypeLst { ttype: Box::new(ty), token: t[p] }, q + 1))
            } else {
                Err(expected_tag(Tag::RBracket, t, q))
            },
        }
    } else {
        sp_type_tuple(t, p, d)
    }
}

/// `'(' type (',' type)* ')' | composite_type`
pub open spec fn sp_type_tuple(t: Seq<Token>, p: int, d: nat) -> Parsed
    decreases t.len() - p, 8int, 0int,
{
    if at(t, p, Tag::LParen) {
        match sp_list(ListKind::TupleTypes, t, p + 1, Seq::empty(), false, d) {
            Err(e) => Err(e),
            Ok((ttypes, q)) => Ok((Ast::TypeTuple { ttypes }, q)),
        }
    } else {
        sp_type_composite(t, p, d)
    }
}

/// `name '<' type (',' type)* '>' | base_type`
pub open spec fn sp_type_composite(t: Seq<Token>, p: int, d: nat) -> Parsed
    decreases t.len() - p, 7int, 0int,
{
    if at(t, p, Tag::Symbol) && at(t, p + 1, Tag::Less) {
        match sp_list(ListKind::TypeArgs, t, p + 2, Seq::empty(), false, d) {
            Err(e) => Err(e),
            Ok((items, q)) => Ok((
                Ast::TypeCmpst {
                    ttype: Box::new(Ast::Ttype { symbol: Box::new(atom_at(t, p)), is_mut: false }),
                    items,
                },
                q,
            )),
        }
    } else {
        sp_type_base(t, p)
    }
}

/// `['mut'] name`
pub open spec fn sp_type_base(t: Seq<Token>, p: int) -> Parsed {
    let is_mut = at(t, p, Tag::Mut);
    let s = if is_mut { p + 1 } else { p };
    if at(t, s, Tag::Symbol) {
        Ok((Ast::Ttype { symbol: Box::new(atom_at(t, s)), is_mut }, s + 1))
    } else {
        Err(expected_tag(Tag::Symbol, t, s))
    }
}

} // verus!
