//! Properties of the grammar that hold for all inputs.

use vstd::prelude::*;
use crate::ast::{Ast, Node};
use crate::errors::{Construct, Fail, ParserError};
use crate::grammar::{
    at, atom_at, comma_ahead, expected_either, is_literal, is_operator, next_col, operator_at, sp_access,
    sp_access_rest, sp_binary, sp_binary_rest, sp_call, sp_expression, sp_factor, sp_item, sp_list, sp_operand,
    sp_parse, sp_program, sp_statement, sp_unary, tag_at, ListKind, MAX_NESTING,
};
use crate::parser::result_view;
use crate::tokens::{Tag, Token};

verus! {

/// A token sequence that is exactly one statement, ending with its `;`,
/// parses to a root with that statement as its only child.
pub proof fn lemma_single_statement(t: Seq<Token>, a: Ast)
    requires
        sp_statement(t, 0, MAX_NESTING as nat) == Ok::<(Ast, int), Fail>((a, t.len() as int)),
    ensures
        sp_parse(t) == Ok::<Ast, Fail>(Ast::Root { children: seq![a] }),
{
    assert(t.len() > 0) by {
        reveal_with_fuel(sp_statement, 1);
    }
    assert(sp_program(t, 0, Seq::empty()) == sp_program(t, t.len() as int, seq![a])) by {
        assert(Seq::<Ast>::empty().push(a) =~= seq![a]);
    }
}

/// Parsing the same tokens twice gives the same tree, or the same failure:
/// the outcome depends on the tokens alone.
pub proof fn lemma_parse_deterministic(t: Seq<Token>, r1: Result<Node, ParserError>, r2: Result<Node, ParserError>)
    requires
        result_view(r1) == sp_parse(t),
        result_view(r2) == sp_parse(t),
    ensures
        result_view(r1) == result_view(r2),
{
}

/// `let` and a name with nothing after them fail with "expected `=`" one
/// column past the name, and give no tree.
pub proof fn lemma_unfinished_let(t: Seq<Token>)
    requires
        t.len() == 2,
        t[0].kind() == Tag::Let,
        t[1].kind() == Tag::Symbol,
    ensures
        sp_parse(t) == Err::<Ast, Fail>(Fail::Expected(Construct::Token(Tag::Bind), t[1].row, next_col(t[1].col))),
{
}

/// A literal at `p` that nothing extends (no call, access or index follows)
/// is a whole unary operand.
proof fn lemma_literal_unary(t: Seq<Token>, p: int, d: nat)
    requires
        0 <= p,
        p + 1 < t.len(),
        is_literal(t[p].kind()),
        !at(t, p + 1, Tag::LParen),
        !at(t, p + 1, Tag::Dot),
        !at(t, p + 1, Tag::LBracket),
    ensures
        sp_unary(t, p, d) == Ok::<(Ast, int), Fail>((atom_at(t, p), p + 1)),
{
    assert(sp_factor(t, p, d) == Ok::<(Ast, int), Fail>((atom_at(t, p), p + 1)));
    assert(sp_access_rest(t, p + 1, atom_at(t, p), d) == Ok::<(Ast, int), Fail>((atom_at(t, p), p + 1)));
    assert(sp_access(t, p, d) == Ok::<(Ast, int), Fail>((atom_at(t, p), p + 1)));
    assert(sp_call(t, p, d) == Ok::<(Ast, int), Fail>((atom_at(t, p), p + 1)));
}

/// A parse of the binary level `level + 1` that no operator of `level`
/// follows is also the parse of `level`.
proof fn lemma_lift(level: nat, t: Seq<Token>, p: int, a: Ast, q: int, d: nat)
    requires
        level < 5,
        p < q <= t.len(),
        sp_binary(level + 1, t, p, d) == Ok::<(Ast, int), Fail>((a, q)),
        !operator_at(level, t, q),
    ensures
        sp_binary(level, t, p, d) == Ok::<(Ast, int), Fail>((a, q)),
{
    assert(sp_operand(level, t, p, d) == sp_binary(level + 1, t, p, d));
    assert(sp_binary_rest(level, t, q, a, d) == Ok::<(Ast, int), Fail>((a, q)));
}

/// A parse of the binary level `level` that no operator of a looser level
/// follows is also the parse of every looser level.
proof fn lemma_lift_to(low: nat, level: nat, t: Seq<Token>, p: int, a: Ast, q: int, d: nat)
    requires
        low <= level <= 5,
        p < q <= t.len(),
        sp_binary(level, t, p, d) == Ok::<(Ast, int), Fail>((a, q)),
        forall|l: nat| low <= l < level ==> !#[trigger] operator_at(l, t, q),
    ensures
        sp_binary(low, t, p, d) == Ok::<(Ast, int), Fail>((a, q)),
    decreases level - low,
{
    if low < level {
        lemma_lift((level - 1) as nat, t, p, a, q, d);
        lemma_lift_to(low, (level - 1) as nat, t, p, a, q, d);
    }
}

/// A literal that nothing extends, followed by no operator of `level` or
/// tighter, is a whole operand of `level`.
proof fn lemma_literal_binary(level: nat, t: Seq<Token>, p: int, d: nat)
    requires
        level <= 5,
        0 <= p,
        p + 1 < t.len(),
        is_literal(t[p].kind()),
        !at(t, p + 1, Tag::LParen),
        !at(t, p + 1, Tag::Dot),
        !at(t, p + 1, Tag::LBracket),
        forall|l: nat| level <= l <= 5 ==> !#[trigger] operator_at(l, t, p + 1),
    ensures
        sp_binary(level, t, p, d) == Ok::<(Ast, int), Fail>((atom_at(t, p), p + 1)),
{
    lemma_literal_unary(t, p, d);
    assert(sp_operand(5, t, p, d) == sp_unary(t, p, d));
    assert(sp_binary_rest(5, t, p + 1, atom_at(t, p), d) == Ok::<(Ast, int), Fail>((atom_at(t, p), p + 1)));
    assert(sp_binary(5, t, p, d) == Ok::<(Ast, int), Fail>((atom_at(t, p), p + 1)));
    lemma_lift_to(level, 5, t, p, atom_at(t, p), p + 1, d);
}

/// Whether a token is a name or an integer.
pub open spec fn is_operand(tok: Token) -> bool {
    tok.kind() == Tag::Symbol || tok.kind() == Tag::Integer
}

/// The statement `e ;` of an expression `e` that starts with no keyword
/// parses to the root holding `e` alone.
proof fn lemma_expression_statement(t: Seq<Token>, a: Ast)
    requires
        t.len() >= 2,
        is_operand(t[0]) || t[0].kind() == Tag::LParen,
        t[t.len() - 1].kind() == Tag::Semicolon,
        sp_binary(0, t, 0, (MAX_NESTING - 1) as nat) == Ok::<(Ast, int), Fail>((a, t.len() - 1)),
    ensures
        sp_parse(t) == Ok::<Ast, Fail>(Ast::Root { children: seq![a] }),
{
    assert(tag_at(t, 0) == Some(t[0].kind()));
    assert(sp_expression(t, 0, MAX_NESTING as nat) == sp_binary(0, t, 0, (MAX_NESTING - 1) as nat));
    assert(at(t, t.len() - 1, Tag::Semicolon));
    assert(sp_statement(t, 0, MAX_NESTING as nat) == Ok::<(Ast, int), Fail>((a, t.len() as int)));
    lemma_single_statement(t, a);
}

/// Left-associativity: `x o y p z ;` with name or integer operands and two
/// operators of one binary level parses to `((x o y) p z)`.
pub proof fn lemma_left_associative(level: nat, t: Seq<Token>)
    requires
        level <= 5,
        t.len() == 6,
        is_operand(t[0]),
        is_operand(t[2]),
        is_operand(t[4]),
        is_operator(level, t[1].kind()),
        is_operator(level, t[3].kind()),
        t[5].kind() == Tag::Semicolon,
    ensures
        sp_parse(t) == Ok::<Ast, Fail>(
            Ast::Root {
                children: seq![
                    Ast::BinaryExpression {
                        lhs: Box::new(
                            Ast::BinaryExpression {
                                lhs: Box::new(atom_at(t, 0)),
                                rhs: Box::new(atom_at(t, 2)),
                                token: t[1],
                            },
                        ),
                        rhs: Box::new(atom_at(t, 4)),
                        token: t[3],
                    },
                ],
            },
        ),
{
    let d = (MAX_NESTING - 1) as nat;
    let inner = Ast::BinaryExpression { lhs: Box::new(atom_at(t, 0)), rhs: Box::new(atom_at(t, 2)), token: t[1] };
    let outer = Ast::BinaryExpression { lhs: Box::new(inner), rhs: Box::new(atom_at(t, 4)), token: t[3] };
    // Each operator token belongs to exactly one level.
    assert forall|l: nat| l <= 5 && l != level implies !#[trigger] operator_at(l, t, 1) && !operator_at(l, t, 3) by {}
    assert forall|l: nat| l <= 5 implies !#[trigger] operator_at(l, t, 5) by {}
    if level < 5 {
        lemma_literal_binary(level + 1, t, 0, d);
        lemma_literal_binary(level + 1, t, 2, d);
        lemma_literal_binary(level + 1, t, 4, d);
        assert(sp_operand(level, t, 0, d) == sp_binary(level + 1, t, 0, d));
        assert(sp_operand(level, t, 2, d) == sp_binary(level + 1, t, 2, d));
        assert(sp_operand(level, t, 4, d) == sp_binary(level + 1, t, 4, d));
    } else {
        lemma_literal_unary(t, 0, d);
        lemma_literal_unary(t, 2, d);
        lemma_literal_unary(t, 4, d);
    }
    assert(sp_binary_rest(level, t, 5, outer, d) == Ok::<(Ast, int), Fail>((outer, 5)));
    assert(sp_binary_rest(level, t, 3, inner, d) == Ok::<(Ast, int), Fail>((outer, 5)));
    assert(sp_binary_rest(level, t, 1, atom_at(t, 0), d) == Ok::<(Ast, int), Fail>((outer, 5)));
    assert(sp_binary(level, t, 0, d) == Ok::<(Ast, int), Fail>((outer, 5)));
    lemma_lift_to(0, level, t, 0, outer, 5, d);
    lemma_expression_statement(t, outer);
}

/// The binary node `l o r` for the tokens at `i`, `i + 1`, `i + 2`.
pub open spec fn binary_at(t: Seq<Token>, i: int) -> Ast {
    Ast::BinaryExpression { lhs: Box::new(atom_at(t, i)), rhs: Box::new(atom_at(t, i + 2)), token: t[i + 1] }
}

/// The literal at `p` is a whole operand of `level`: under the tightest level
/// it is a unary operand, under the others a parse of the next level.
proof fn lemma_literal_operand(level: nat, t: Seq<Token>, p: int, d: nat)
    requires
        level <= 5,
        0 <= p,
        p + 1 < t.len(),
        is_operand(t[p]),
        forall|l: nat| level < l <= 5 ==> !#[trigger] operator_at(l, t, p + 1),
        !at(t, p + 1, Tag::LParen),
        !at(t, p + 1, Tag::Dot),
        !at(t, p + 1, Tag::LBracket),
    ensures
        sp_operand(level, t, p, d) == Ok::<(Ast, int), Fail>((atom_at(t, p), p + 1)),
{
    if level < 5 {
        lemma_literal_binary(level + 1, t, p, d);
    } else {
        lemma_literal_unary(t, p, d);
    }
}

/// `x o y` with an operator of `level`, followed by no operator of `level`
/// or tighter, is one binary node of `level`.
proof fn lemma_pair(level: nat, t: Seq<Token>, i: int, d: nat)
    requires
        level <= 5,
        0 <= i,
        i + 3 < t.len(),
        is_operand(t[i]),
        is_operand(t[i + 2]),
        is_operator(level, t[i + 1].kind()),
        forall|l: nat| level <= l <= 5 ==> !#[trigger] operator_at(l, t, i + 3),
        !at(t, i + 3, Tag::LParen),
        !at(t, i + 3, Tag::Dot),
        !at(t, i + 3, Tag::LBracket),
    ensures
        sp_binary(level, t, i, d) == Ok::<(Ast, int), Fail>((binary_at(t, i), i + 3)),
{
    assert forall|l: nat| l <= 5 && l != level implies !#[trigger] operator_at(l, t, i + 1) by {}
    lemma_literal_operand(level, t, i, d);
    lemma_literal_operand(level, t, i + 2, d);
    assert(sp_binary_rest(level, t, i + 3, binary_at(t, i), d) == Ok::<(Ast, int), Fail>((binary_at(t, i), i + 3)));
    assert(sp_binary_rest(level, t, i + 1, atom_at(t, i), d) == Ok::<(Ast, int), Fail>((binary_at(t, i), i + 3)));
}

/// Precedence: in `x o y p z ;` with name or integer operands, the operator
/// of the tighter level binds first. With `o` looser the statement is
/// `(x o (y p z))`; with `o` tighter it is `((x o y) p z)`.
pub proof fn lemma_precedence(lo: nat, hi: nat, t: Seq<Token>)
    requires
        lo < hi <= 5,
        t.len() == 6,
        is_operand(t[0]),
        is_operand(t[2]),
        is_operand(t[4]),
        t[5].kind() == Tag::Semicolon,
        (is_operator(lo, t[1].kind()) && is_operator(hi, t[3].kind())) || (is_operator(hi, t[1].kind())
            && is_operator(lo, t[3].kind())),
    ensures
        is_operator(lo, t[1].kind()) ==> sp_parse(t) == Ok::<Ast, Fail>(
            Ast::Root {
                children: seq![
                    Ast::BinaryExpression {
                        lhs: Box::new(atom_at(t, 0)),
                        rhs: Box::new(binary_at(t, 2)),
                        token: t[1],
                    },
                ],
            },
        ),
        is_operator(hi, t[1].kind()) ==> sp_parse(t) == Ok::<Ast, Fail>(
            Ast::Root {
                children: seq![
                    Ast::BinaryExpression {
                        lhs: Box::new(binary_at(t, 0)),
                        rhs: Box::new(atom_at(t, 4)),
                        token: t[3],
                    },
                ],
            },
        ),
{
    let d = (MAX_NESTING - 1) as nat;
    assert forall|l: nat| l <= 5 implies !#[trigger] operator_at(l, t, 5) by {}
    if is_operator(lo, t[1].kind()) {
        let whole = Ast::BinaryExpression { lhs: Box::new(atom_at(t, 0)), rhs: Box::new(binary_at(t, 2)), token: t[1] };
        assert forall|l: nat| l <= 5 && l != lo implies !#[trigger] operator_at(l, t, 1) by {}
        assert forall|l: nat| l <= 5 && l != hi implies !#[trigger] operator_at(l, t, 3) by {}
        lemma_pair(hi, t, 2, d);
        lemma_lift_to(lo + 1, hi, t, 2, binary_at(t, 2), 5, d);
        assert(sp_operand(lo, t, 2, d) == sp_binary(lo + 1, t, 2, d));
        lemma_literal_operand(lo, t, 0, d);
        assert(sp_binary_rest(lo, t, 5, whole, d) == Ok::<(Ast, int), Fail>((whole, 5)));
        assert(sp_binary_rest(lo, t, 1, atom_at(t, 0), d) == Ok::<(Ast, int), Fail>((whole, 5)));
        lemma_lift_to(0, lo, t, 0, whole, 5, d);
        lemma_expression_statement(t, whole);
    } else {
        let whole = Ast::BinaryExpression { lhs: Box::new(binary_at(t, 0)), rhs: Box::new(atom_at(t, 4)), token: t[3] };
        assert forall|l: nat| l <= 5 && l != hi implies !#[trigger] operator_at(l, t, 1) by {}
        assert forall|l: nat| l <= 5 && l != lo implies !#[trigger] operator_at(l, t, 3) by {}
        lemma_pair(hi, t, 0, d);
        lemma_lift_to(lo + 1, hi, t, 0, binary_at(t, 0), 3, d);
        assert(sp_operand(lo, t, 0, d) == sp_binary(lo + 1, t, 0, d));
        lemma_literal_operand(lo, t, 4, d);
        assert(sp_binary_rest(lo, t, 5, whole, d) == Ok::<(Ast, int), Fail>((whole, 5)));
        assert(sp_binary_rest(lo, t, 3, binary_at(t, 0), d) == Ok::<(Ast, int), Fail>((whole, 5)));
        lemma_lift_to(0, lo, t, 0, whole, 5, d);
        lemma_expression_statement(t, whole);
    }
}

/// From the factor up to the loosest binary level: a factor at `p` that
/// nothing extends and no operator follows is the whole expression there.
proof fn lemma_factor_is_expression(t: Seq<Token>, p: int, a: Ast, q: int, d: nat)
    requires
        0 <= p < q < t.len(),
        t[p].kind() == Tag::LParen,
        sp_factor(t, p, d) == Ok::<(Ast, int), Fail>((a, q)),
        !at(t, q, Tag::Dot),
        !at(t, q, Tag::LBracket),
        forall|l: nat| l <= 5 ==> !#[trigger] operator_at(l, t, q),
    ensures
        sp_binary(0, t, p, d) == Ok::<(Ast, int), Fail>((a, q)),
{
    assert(sp_access_rest(t, q, a, d) == Ok::<(Ast, int), Fail>((a, q)));
    assert(sp_access(t, p, d) == Ok::<(Ast, int), Fail>((a, q)));
    assert(sp_call(t, p, d) == Ok::<(Ast, int), Fail>((a, q)));
    assert(sp_unary(t, p, d) == Ok::<(Ast, int), Fail>((a, q)));
    assert(sp_operand(5, t, p, d) == sp_unary(t, p, d));
    assert(sp_binary_rest(5, t, q, a, d) == Ok::<(Ast, int), Fail>((a, q)));
    lemma_lift_to(0, 5, t, p, a, q, d);
}

/// A name or integer followed by `g`, which is no operator and extends
/// nothing, is a whole expression.
proof fn lemma_operand_expression(t: Seq<Token>, p: int, d: nat)
    requires
        d > 0,
        0 <= p,
        p + 1 < t.len(),
        is_operand(t[p]),
        t[p + 1].kind() == Tag::Comma || t[p + 1].kind() == Tag::RParen,
    ensures
        sp_expression(t, p, d) == Ok::<(Ast, int), Fail>((atom_at(t, p), p + 1)),
{
    assert forall|l: nat| l <= 5 implies !#[trigger] operator_at(l, t, p + 1) by {}
    lemma_literal_binary(0, t, p, (d - 1) as nat);
    assert(tag_at(t, p) == Some(t[p].kind()));
}

/// Grouping against tuples: `( x ) ;` is the bare expression `x`, while
/// `( x , y ) ;` is a tuple of two items, for names and integers `x`, `y`.
pub proof fn lemma_group_or_tuple(t: Seq<Token>)
    requires
        t.len() == 4 || t.len() == 6,
        t[0].kind() == Tag::LParen,
        is_operand(t[1]),
        t.len() == 4 ==> t[2].kind() == Tag::RParen && t[3].kind() == Tag::Semicolon,
        t.len() == 6 ==> t[2].kind() == Tag::Comma && is_operand(t[3]) && t[4].kind() == Tag::RParen
            && t[5].kind() == Tag::Semicolon,
    ensures
        t.len() == 4 ==> sp_parse(t) == Ok::<Ast, Fail>(Ast::Root { children: seq![atom_at(t, 1)] }),
        t.len() == 6 ==> sp_parse(t) == Ok::<Ast, Fail>(
            Ast::Root { children: seq![Ast::TupleAny { items: seq![atom_at(t, 1), atom_at(t, 3)] }] },
        ),
{
    let d = (MAX_NESTING - 1) as nat;
    let q = t.len() - 1;
    assert forall|l: nat| l <= 5 implies !#[trigger] operator_at(l, t, q) by {}
    lemma_operand_expression(t, 1, d);
    if t.len() == 4 {
        assert(!comma_ahead(t, 2, 1));
        assert(!comma_ahead(t, 1, 1));
        assert(sp_factor(t, 0, d) == Ok::<(Ast, int), Fail>((atom_at(t, 1), 3)));
        lemma_factor_is_expression(t, 0, atom_at(t, 1), 3, d);
        lemma_expression_statement(t, atom_at(t, 1));
    } else {
        let items = seq![atom_at(t, 1), atom_at(t, 3)];
        let tuple = Ast::TupleAny { items };
        assert(comma_ahead(t, 2, 1));
        assert(comma_ahead(t, 1, 1));
        lemma_operand_expression(t, 3, d);
        assert(sp_item(ListKind::Exprs, t, 3, d) == sp_expression(t, 3, d));
        assert(sp_item(ListKind::Exprs, t, 1, d) == sp_expression(t, 1, d));
        assert(seq![atom_at(t, 1)].push(atom_at(t, 3)) =~= items);
        assert(Seq::<Ast>::empty().push(atom_at(t, 1)) =~= seq![atom_at(t, 1)]);
        assert(sp_list(ListKind::Exprs, t, 3, seq![atom_at(t, 1)], false, d) == Ok::<(Seq<Ast>, int), Fail>((items, 5)));
        assert(sp_list(ListKind::Exprs, t, 1, Seq::empty(), true, d) == Ok::<(Seq<Ast>, int), Fail>((items, 5)));
        assert(sp_factor(t, 0, d) == Ok::<(Ast, int), Fail>((tuple, 5)));
        lemma_factor_is_expression(t, 0, tuple, 5, d);
        lemma_expression_statement(t, tuple);
    }
}

/// The two tokens after `fn` decide its form. `(` makes an anonymous
/// function, a name and `::` a signature, a name and `(` a declaration. A
/// name followed by anything else fails, naming `::` and `(`, at that token.
pub proof fn lemma_function_forms(t: Seq<Token>, p: int, d: nat)
    requires
        d > 0,
        0 <= p < t.len(),
        t[p].kind() == Tag::Fn,
    ensures
        at(t, p + 1, Tag::LParen) ==> (sp_expression(t, p, d) is Err || sp_expression(t, p, d) matches Ok((Ast::FnAnon { .. }, _))),
        at(t, p + 1, Tag::Symbol) && at(t, p + 2, Tag::DoubleColon) ==> (sp_expression(t, p, d) is Err
            || sp_expression(t, p, d) matches Ok((Ast::FnSignature { .. }, _))),
        at(t, p + 1, Tag::Symbol) && at(t, p + 2, Tag::LParen) ==> (sp_expression(t, p, d) is Err
            || sp_expression(t, p, d) matches Ok((Ast::FnDeclaration { .. }, _))),
        at(t, p + 1, Tag::Symbol) && !at(t, p + 2, Tag::DoubleColon) && !at(t, p + 2, Tag::LParen)
            ==> sp_expression(t, p, d) == Err::<(Ast, int), Fail>(expected_either(Tag::DoubleColon, Tag::LParen, t, p + 2)),
{
    assert(tag_at(t, p) == Some(Tag::Fn));
}

} // verus!
