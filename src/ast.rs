#![allow(non_snake_case)]

use vstd::prelude::*;
use crate::tokens::Token;

verus! {

broadcast use vstd::std_specs::vec::group_vec_axioms;

/// The node for the whole program: its top-level statements in order.
#[derive(Debug)]
pub struct Root {
    pub children: Vec<Node>,
}

/// The node for `let [mut] names [:: type] = value`.
#[derive(Debug)]
pub struct LetExpr {
    pub symbols: Vec<Node>,
    pub rhs: Box<Node>,
    pub token: Box<Token>,
    pub is_mut: bool,
    pub ttype: Box<Option<Node>>,
}

/// The node for `mut target = value`.
#[derive(Debug)]
pub struct MutExpr {
    pub lhs: Box<Node>,
    pub rhs: Box<Node>,
    pub token: Box<Token>,
}

/// The node for `fn (args) [: type] => body`.
#[derive(Debug)]
pub struct FnAnon {
    pub arguments: Vec<Node>,
    pub type_out: Box<Option<Node>>,
    pub rhs: Box<Node>,
    pub token: Box<Token>,
}

/// The node for `fn name :: type`.
#[derive(Debug)]
pub struct FnSignature {
    pub symbol: Box<Node>,
    pub ttype: Box<Node>,
    pub token: Box<Token>,
}

/// The node for `fn name (args) [: type] => body`.
#[derive(Debug)]
pub struct FnDeclaration {
    pub symbol: Box<Node>,
    pub arguments: Vec<Node>,
    pub type_out: Box<Option<Node>>,
    pub rhs: Box<Node>,
    pub token: Box<Token>,
}

/// The node for a function argument with an optional type.
#[derive(Debug)]
pub struct FnArgTyped {
    pub symbol: Box<Node>,
    pub ttype: Box<Option<Node>>,
}

/// The node for `if cond then a [else b]`.
#[derive(Debug)]
pub struct IfExpr {
    pub cond: Box<Node>,
    pub true_branch: Box<Node>,
    pub false_branch: Box<Option<Node>>,
    pub token: Box<Token>,
}

/// The node for `pub declaration`.
#[derive(Debug)]
pub struct PubExpr {
    pub rhs: Box<Node>,
    pub token: Box<Token>,
}

/// The node for `data Name [<T, ..>] ( [|] variant | .. )`.
#[derive(Debug)]
pub struct DataDeclaration {
    pub symbol: Box<Node>,
    pub generics: Vec<Node>,
    pub variants: Vec<Node>,
    pub token: Box<Token>,
}

/// The node for a data variant with a type: `Name :: type`.
#[derive(Debug)]
pub struct DataItem {
    pub symbol: Box<Node>,
    pub ttype: Box<Node>,
}

/// The node for `struct (fields)`.
#[derive(Debug)]
pub struct StructAnon {
    pub fields: Vec<Node>,
    pub token: Box<Token>,
}

/// The node for `struct Name (fields)`.
#[derive(Debug)]
pub struct StructDeclaration {
    pub symbol: Box<Node>,
    pub fields: Vec<Node>,
    pub token: Box<Token>,
}

/// The node for `name :: type` inside a struct.
#[derive(Debug)]
pub struct StructField {
    pub symbol: Box<Node>,
    pub ttype: Box<Node>,
}

/// The node for `package name`.
#[derive(Debug)]
pub struct Package {
    pub token: Box<Token>,
    pub rhs: Box<Node>,
}

/// The node for `import "path"` or `import ("a", "b")`.
#[derive(Debug)]
pub struct Import {
    pub token: Box<Token>,
    pub rhs: Vec<Node>,
}

/// The node for `match value ( | pattern -> result .. )`.
#[derive(Debug)]
pub struct MatchExpression {
    pub lhs: Box<Node>,
    pub branches: Vec<Node>,
    pub token: Box<Token>,
}

/// The node for `| pattern -> result`.
#[derive(Debug)]
pub struct MatchBranch {
    pub lhs: Box<Node>,
    pub rhs: Box<Node>,
    pub token: Box<Token>,
}

/// The node for `[a, b, ..]`.
#[derive(Debug)]
pub struct ListLiteral {
    pub items: Vec<Node>,
    pub token: Box<Token>,
}

/// The node for `[head | tail]`.
#[derive(Debug)]
pub struct ListSplit {
    pub head: Box<Node>,
    pub tail: Box<Node>,
}

/// The node for a function type `A -> B`.
#[derive(Debug)]
pub struct TypeFn {
    pub lhs: Box<Node>,
    pub rhs: Box<Node>,
    pub token: Box<Token>,
}

/// The node for a list type `[T]`.
#[derive(Debug)]
pub struct TypeLst {
    pub ttype: Box<Node>,
    pub token: Box<Token>,
}

/// The node for a tuple type `(A, B, ..)`.
#[derive(Debug)]
pub struct TypeTuple {
    pub ttypes: Vec<Node>,
}

/// The node for a composite type `Name<A, ..>`.
#[derive(Debug)]
pub struct TypeCmpst {
    pub ttype: Box<Node>,
    pub items: Vec<Node>,
}

/// The node for a named type `[mut] Name`.
#[derive(Debug)]
pub struct Ttype {
    pub symbol: Box<Node>,
    pub is_mut: bool,
}

/// The node for `while cond { statements }`.
#[derive(Debug)]
pub struct WhileExpression {
    pub cond: Box<Node>,
    pub statements: Vec<Node>,
    pub token: Box<Token>,
}

/// The node for `do { statements }`.
#[derive(Debug)]
pub struct DoExpression {
    pub token: Box<Token>,
    pub statements: Vec<Node>,
}

/// The node for `return value`.
#[derive(Debug)]
pub struct ReturnExpression {
    pub value: Box<Node>,
    pub token: Box<Token>,
}

/// The node for `lhs op rhs`.
#[derive(Debug)]
pub struct BinaryExpression {
    pub lhs: Box<Node>,
    pub rhs: Box<Node>,
    pub token: Token,
}

/// The node for `op operand`.
#[derive(Debug)]
pub struct UnaryExpression {
    pub rhs: Box<Node>,
    pub token: Token,
}

/// The node for `name(args)`.
#[derive(Debug)]
pub struct Call {
    pub lhs: Box<Node>,
    pub args: Vec<Node>,
}

/// The node for member access `lhs.rhs`.
#[derive(Debug)]
pub struct Access {
    pub lhs: Box<Node>,
    pub rhs: Box<Node>,
}

/// The node for index access `lhs[index]`.
#[derive(Debug)]
pub struct AccessIndex {
    pub symbol: Box<Node>,
    pub index: Box<Node>,
}

/// The node for a tuple of expressions.
#[derive(Debug)]
pub struct TupleAny {
    pub items: Vec<Node>,
}

/// The node for a tuple of names.
#[derive(Debug)]
pub struct TupleSymbols {
    pub items: Vec<Node>,
}

/// The node for a tuple of strings.
#[derive(Debug)]
pub struct TupleString {
    pub items: Vec<Node>,
}

/// The node for a single integer, string, boolean or name.
#[derive(Debug)]
pub struct Atom {
    pub token: Token,
}

/// A node of the syntax tree: one case per grammar production.
#[derive(Debug)]
pub enum Node {
    Root(Root),
    LetExpr(LetExpr),
    MutExpr(MutExpr),
    FnAnon(FnAnon),
    FnSignature(FnSignature),
    FnDeclaration(FnDeclaration),
    FnArgTyped(FnArgTyped),
    IfExpr(IfExpr),
    PubExpr(PubExpr),
    DataDeclaration(DataDeclaration),
    DataItem(DataItem),
    StructAnon(StructAnon),
    StructDeclaration(StructDeclaration),
    StructField(StructField),
    Package(Package),
    Import(Import),
    MatchExpression(MatchExpression),
    MatchBranch(MatchBranch),
    ListLiteral(ListLiteral),
    ListSplit(ListSplit),
    TypeFn(TypeFn),
    TypeLst(TypeLst),
    TypeTuple(TypeTuple),
    TypeCmpst(TypeCmpst),
    Ttype(Ttype),
    WhileExpression(WhileExpression),
    DoExpression(DoExpression),
    ReturnExpression(ReturnExpression),
    BinaryExpression(BinaryExpression),
    UnaryExpression(UnaryExpression),
    Call(Call),
    Access(Access),
    AccessIndex(AccessIndex),
    TupleAny(TupleAny),
    TupleSymbols(TupleSymbols),
    TupleString(TupleString),
    Atom(Atom),
}

/// The mathematical model of a syntax tree: the same shape as [`Node`], with
/// sequences for lists and plain values for boxes.
#[allow(inconsistent_fields)]
pub enum Ast {
    Root { children: Seq<Ast> },
    LetExpr { symbols: Seq<Ast>, rhs: Box<Ast>, token: Token, is_mut: bool, ttype: Option<Box<Ast>> },
    MutExpr { lhs: Box<Ast>, rhs: Box<Ast>, token: Token },
    FnAnon { arguments: Seq<Ast>, type_out: Option<Box<Ast>>, rhs: Box<Ast>, token: Token },
    FnSignature { symbol: Box<Ast>, ttype: Box<Ast>, token: Token },
    FnDeclaration { symbol: Box<Ast>, arguments: Seq<Ast>, type_out: Option<Box<Ast>>, rhs: Box<Ast>, token: Token },
    FnArgTyped { symbol: Box<Ast>, ttype: Option<Box<Ast>> },
    IfExpr { cond: Box<Ast>, true_branch: Box<Ast>, false_branch: Option<Box<Ast>>, token: Token },
    PubExpr { rhs: Box<Ast>, token: Token },
    DataDeclaration { symbol: Box<Ast>, generics: Seq<Ast>, variants: Seq<Ast>, token: Token },
    DataItem { symbol: Box<Ast>, ttype: Box<Ast> },
    StructAnon { fields: Seq<Ast>, token: Token },
    StructDeclaration { symbol: Box<Ast>, fields: Seq<Ast>, token: Token },
    StructField { symbol: Box<Ast>, ttype: Box<Ast> },
    Package { token: Token, rhs: Box<Ast> },
    Import { token: Token, rhs: Seq<Ast> },
    MatchExpression { lhs: Box<Ast>, branches: Seq<Ast>, token: Token },
    MatchBranch { lhs: Box<Ast>, rhs: Box<Ast>, token: Token },
    ListLiteral { items: Seq<Ast>, token: Token },
    ListSplit { head: Box<Ast>, tail: Box<Ast> },
    TypeFn { lhs: Box<Ast>, rhs: Box<Ast>, token: Token },
    TypeLst { ttype: Box<Ast>, token: Token },
    TypeTuple { ttypes: Seq<Ast> },
    TypeCmpst { ttype: Box<Ast>, items: Seq<Ast> },
    Ttype { symbol: Box<Ast>, is_mut: bool },
    WhileExpression { cond: Box<Ast>, statements: Seq<Ast>, token: Token },
    DoExpression { token: Token, statements: Seq<Ast> },
    ReturnExpression { value: Box<Ast>, token: Token },
    BinaryExpression { lhs: Box<Ast>, rhs: Box<Ast>, token: Token },
    UnaryExpression { rhs: Box<Ast>, token: Token },
    Call { lhs: Box<Ast>, args: Seq<Ast> },
    Access { lhs: Box<Ast>, rhs: Box<Ast> },
    AccessIndex { symbol: Box<Ast>, index: Box<Ast> },
    TupleAny { items: Seq<Ast> },
    TupleSymbols { items: Seq<Ast> },
    TupleString { items: Seq<Ast> },
    Atom { token: Token },
}

/// The models of a sequence of nodes, in order.
pub open spec fn views(s: Seq<Node>) -> Seq<Ast>
    decreases s,
{
    if s.len() == 0 {
        Seq::empty()
    } else {
        views(s.drop_last()).push(s.last().view())
    }
}

/// The model of an optional node.
pub open spec fn opt_view(o: Option<Node>) -> Option<Box<Ast>>
    decreases o,
{
    match o {
        Some(n) => Some(Box::new(n.view())),
        None => None,
    }
}

impl Node {
    /// The model of this node.
    pub open spec fn view(&self) -> Ast
        decreases self,
    {
        match self {
            Node::Root(x) => Ast::Root { children: views(x.children@) },
            Node::LetExpr(x) => Ast::LetExpr { symbols: views(x.symbols@), rhs: Box::new(x.rhs.view()), token: *x.token, is_mut: x.is_mut, ttype: opt_view(*x.ttype) },
            Node::MutExpr(x) => Ast::MutExpr { lhs: Box::new(x.lhs.view()), rhs: Box::new(x.rhs.view()), token: *x.token },
            Node::FnAnon(x) => Ast::FnAnon { arguments: views(x.arguments@), type_out: opt_view(*x.type_out), rhs: Box::new(x.rhs.view()), token: *x.token },
            Node::FnSignature(x) => Ast::FnSignature { symbol: Box::new(x.symbol.view()), ttype: Box::new(x.ttype.view()), token: *x.token },
            Node::FnDeclaration(x) => Ast::FnDeclaration { symbol: Box::new(x.symbol.view()), arguments: views(x.arguments@), type_out: opt_view(*x.type_out), rhs: Box::new(x.rhs.view()), token: *x.token },
            Node::FnArgTyped(x) => Ast::FnArgTyped { symbol: Box::new(x.symbol.view()), ttype: opt_view(*x.ttype) },
            Node::IfExpr(x) => Ast::IfExpr { cond: Box::new(x.cond.view()), true_branch: Box::new(x.true_branch.view()), false_branch: opt_view(*x.false_branch), token: *x.token },
            Node::PubExpr(x) => Ast::PubExpr { rhs: Box::new(x.rhs.view()), token: *x.token },
            Node::DataDeclaration(x) => Ast::DataDeclaration { symbol: Box::new(x.symbol.view()), generics: views(x.generics@), variants: views(x.variants@), token: *x.token },
            Node::DataItem(x) => Ast::DataItem { symbol: Box::new(x.symbol.view()), ttype: Box::new(x.ttype.view()) },
            Node::StructAnon(x) => Ast::StructAnon { fields: views(x.fields@), token: *x.token },
            Node::StructDeclaration(x) => Ast::StructDeclaration { symbol: Box::new(x.symbol.view()), fields: views(x.fields@), token: *x.token },
            Node::StructField(x) => Ast::StructField { symbol: Box::new(x.symbol.view()), ttype: Box::new(x.ttype.view()) },
            Node::Package(x) => Ast::Package { token: *x.token, rhs: Box::new(x.rhs.view()) },
            Node::Import(x) => Ast::Import { token: *x.token, rhs: views(x.rhs@) },
            Node::MatchExpression(x) => Ast::MatchExpression { lhs: Box::new(x.lhs.view()), branches: views(x.branches@), token: *x.token },
            Node::MatchBranch(x) => Ast::MatchBranch { lhs: Box::new(x.lhs.view()), rhs: Box::new(x.rhs.view()), token: *x.token },
            Node::ListLiteral(x) => Ast::ListLiteral { items: views(x.items@), token: *x.token },
            Node::ListSplit(x) => Ast::ListSplit { head: Box::new(x.head.view()), tail: Box::new(x.tail.view()) },
            Node::TypeFn(x) => Ast::TypeFn { lhs: Box::new(x.lhs.view()), rhs: Box::new(x.rhs.view()), token: *x.token },
            Node::TypeLst(x) => Ast::TypeLst { ttype: Box::new(x.ttype.view()), token: *x.token },
            Node::TypeTuple(x) => Ast::TypeTuple { ttypes: views(x.ttypes@) },
            Node::TypeCmpst(x) => Ast::TypeCmpst { ttype: Box::new(x.ttype.view()), items: views(x.items@) },
            Node::Ttype(x) => Ast::Ttype { symbol: Box::new(x.symbol.view()), is_mut: x.is_mut },
            Node::WhileExpression(x) => Ast::WhileExpression { cond: Box::new(x.cond.view()), statements: views(x.statements@), token: *x.token },
            Node::DoExpression(x) => Ast::DoExpression { token: *x.token, statements: views(x.statements@) },
            Node::ReturnExpression(x) => Ast::ReturnExpression { value: Box::new(x.value.view()), token: *x.token },
            Node::BinaryExpression(x) => Ast::BinaryExpression { lhs: Box::new(x.lhs.view()), rhs: Box::new(x.rhs.view()), token: x.token },
            Node::UnaryExpression(x) => Ast::UnaryExpression { rhs: Box::new(x.rhs.view()), token: x.token },
            Node::Call(x) => Ast::Call { lhs: Box::new(x.lhs.view()), args: views(x.args@) },
            Node::Access(x) => Ast::Access { lhs: Box::new(x.lhs.view()), rhs: Box::new(x.rhs.view()) },
            Node::AccessIndex(x) => Ast::AccessIndex { symbol: Box::new(x.symbol.view()), index: Box::new(x.index.view()) },
            Node::TupleAny(x) => Ast::TupleAny { items: views(x.items@) },
            Node::TupleSymbols(x) => Ast::TupleSymbols { items: views(x.items@) },
            Node::TupleString(x) => Ast::TupleString { items: views(x.items@) },
            Node::Atom(x) => Ast::Atom { token: x.token },
        }
    }
}

/// Builds the node for `let [mut] names [:: type] = value`.
pub fn NewLetExpr(tok: Token, symbols: Vec<Node>, rhs: Node, ttype: Option<Node>) -> (r: Node)
    ensures
        r.view() == (Ast::LetExpr { symbols: views(symbols@), rhs: Box::new(rhs.view()), token: tok, is_mut: false, ttype: opt_view(ttype) }),
{
    Node::LetExpr(LetExpr { symbols: symbols, rhs: Box::new(rhs), token: Box::new(tok), is_mut: false, ttype: Box::new(ttype) })
}

/// Builds the node for `let [mut] names [:: type] = value`.
pub fn NewLetMutExpr(tok: Token, symbols: Vec<Node>, rhs: Node, ttype: Option<Node>) -> (r: Node)
    ensures
        r.view() == (Ast::LetExpr { symbols: views(symbols@), rhs: Box::new(rhs.view()), token: tok, is_mut: true, ttype: opt_view(ttype) }),
{
    Node::LetExpr(LetExpr { symbols: symbols, rhs: Box::new(rhs), token: Box::new(tok), is_mut: true, ttype: Box::new(ttype) })
}

/// Builds the node for `mut target = value`.
pub fn NewMutExpr(tok: Token, lhs: Node, rhs: Node) -> (r: Node)
    ensures
        r.view() == (Ast::MutExpr { lhs: Box::new(lhs.view()), rhs: Box::new(rhs.view()), token: tok }),
{
    Node::MutExpr(MutExpr { lhs: Box::new(lhs), rhs: Box::new(rhs), token: Box::new(tok) })
}

/// Builds the node for `fn (args) [: type] => body`.
pub fn NewFnAnon(tok: Token, arguments: Vec<Node>, type_out: Option<Node>, rhs: Node) -> (r: Node)
    ensures
        r.view() == (Ast::FnAnon { arguments: views(arguments@), type_out: opt_view(type_out), rhs: Box::new(rhs.view()), token: tok }),
{
    Node::FnAnon(FnAnon { arguments: arguments, type_out: Box::new(type_out), rhs: Box::new(rhs), token: Box::new(tok) })
}

/// Builds the node for `fn name :: type`.
pub fn NewFnSignature(tok: Token, symbol: Node, ttype: Node) -> (r: Node)
    ensures
        r.view() == (Ast::FnSignature { symbol: Box::new(symbol.view()), ttype: Box::new(ttype.view()), token: tok }),
{
    Node::FnSignature(FnSignature { symbol: Box::new(symbol), ttype: Box::new(ttype), token: Box::new(tok) })
}

/// Builds the node for `fn name (args) [: type] => body`.
pub fn NewFnDeclaration(tok: Token, symbol: Node, rhs: Node, arguments: Vec<Node>, type_out: Option<Node>) -> (r: Node)
    ensures
        r.view() == (Ast::FnDeclaration { symbol: Box::new(symbol.view()), arguments: views(arguments@), type_out: opt_view(type_out), rhs: Box::new(rhs.view()), token: tok }),
{
    Node::FnDeclaration(FnDeclaration { symbol: Box::new(symbol), arguments: arguments, type_out: Box::new(type_out), rhs: Box::new(rhs), token: Box::new(tok) })
}

/// Builds the node for a function argument with an optional type.
pub fn NewFnArgTyped(symbol: Node, ttype: Option<Node>) -> (r: Node)
    ensures
        r.view() == (Ast::FnArgTyped { symbol: Box::new(symbol.view()), ttype: opt_view(ttype) }),
{
    Node::FnArgTyped(FnArgTyped { symbol: Box::new(symbol), ttype: Box::new(ttype) })
}

/// Builds the node for `if cond then a [else b]`.
pub fn NewIfExpr(tok: Token, cond: Node, true_branch: Node, false_branch: Option<Node>) -> (r: Node)
    ensures
        r.view() == (Ast::IfExpr { cond: Box::new(cond.view()), true_branch: Box::new(true_branch.view()), false_branch: opt_view(false_branch), token: tok }),
{
    Node::IfExpr(IfExpr { cond: Box::new(cond), true_branch: Box::new(true_branch), false_branch: Box::new(false_branch), token: Box::new(tok) })
}

/// Builds the node for `pub declaration`.
pub fn NewPubExpr(tok: Token, rhs: Node) -> (r: Node)
    ensures
        r.view() == (Ast::PubExpr { rhs: Box::new(rhs.view()), token: tok }),
{
    Node::PubExpr(PubExpr { rhs: Box::new(rhs), token: Box::new(tok) })
}

/// Builds the node for `data Name [<T, ..>] ( [|] variant | .. )`.
pub fn NewDataDelcaration(tok: Token, symbol: Node, generics: Vec<Node>, variants: Vec<Node>) -> (r: Node)
    ensures
        r.view() == (Ast::DataDeclaration { symbol: Box::new(symbol.view()), generics: views(generics@), variants: views(variants@), token: tok }),
{
    Node::DataDeclaration(DataDeclaration { symbol: Box::new(symbol), generics: generics, variants: variants, token: Box::new(tok) })
}

/// Builds the node for a data variant with a type: `Name :: type`.
pub fn NewDataItem(symbol: Node, ttype: Node) -> (r: Node)
    ensures
        r.view() == (Ast::DataItem { symbol: Box::new(symbol.view()), ttype: Box::new(ttype.view()) }),
{
    Node::DataItem(DataItem { symbol: Box::new(symbol), ttype: Box::new(ttype) })
}

/// Builds the node for `struct (fields)`.
pub fn NewStructAnon(tok: Token, fields: Vec<Node>) -> (r: Node)
    ensures
        r.view() == (Ast::StructAnon { fields: views(fields@), token: tok }),
{
    Node::StructAnon(StructAnon { fields: fields, token: Box::new(tok) })
}

/// Builds the node for `struct Name (fields)`.
pub fn NewStructDeclaration(tok: Token, symbol: Node, fields: Vec<Node>) -> (r: Node)
    ensures
        r.view() == (Ast::StructDeclaration { symbol: Box::new(symbol.view()), fields: views(fields@), token: tok }),
{
    Node::StructDeclaration(StructDeclaration { symbol: Box::new(symbol), fields: fields, token: Box::new(tok) })
}

/// Builds the node for `name :: type` inside a struct.
pub fn NewStructField(symbol: Node, ttype: Node) -> (r: Node)
    ensures
        r.view() == (Ast::StructField { symbol: Box::new(symbol.view()), ttype: Box::new(ttype.view()) }),
{
    Node::StructField(StructField { symbol: Box::new(symbol), ttype: Box::new(ttype) })
}

/// Builds the node for `package name`.
pub fn NewPackage(rhs: Node, token: Token) -> (r: Node)
    ensures
        r.view() == (Ast::Package { token: token, rhs: Box::new(rhs.view()) }),
{
    Node::Package(Package { token: Box::new(token), rhs: Box::new(rhs) })
}

/// Builds the node for `import "path"` or `import ("a", "b")`.
pub fn NewImport(rhs: Vec<Node>, token: Token) -> (r: Node)
    ensures
        r.view() == (Ast::Import { token: token, rhs: views(rhs@) }),
{
    Node::Import(Import { token: Box::new(token), rhs: rhs })
}

/// Builds the node for `match value ( | pattern -> result .. )`.
pub fn NewMatchExpression(tok: Token, lhs: Node, branches: Vec<Node>) -> (r: Node)
    ensures
        r.view() == (Ast::MatchExpression { lhs: Box::new(lhs.view()), branches: views(branches@), token: tok }),
{
    Node::MatchExpression(MatchExpression { lhs: Box::new(lhs), branches: branches, token: Box::new(tok) })
}

/// Builds the node for `| pattern -> result`.
pub fn NewMatchBranch(tok: Token, lhs: Node, rhs: Node) -> (r: Node)
    ensures
        r.view() == (Ast::MatchBranch { lhs: Box::new(lhs.view()), rhs: Box::new(rhs.view()), token: tok }),
{
    Node::MatchBranch(MatchBranch { lhs: Box::new(lhs), rhs: Box::new(rhs), token: Box::new(tok) })
}

/// Builds the node for `[a, b, ..]`.
pub fn NewListExpression(tok: Token, items: Vec<Node>) -> (r: Node)
    ensures
        r.view() == (Ast::ListLiteral { items: views(items@), token: tok }),
{
    Node::ListLiteral(ListLiteral { items: items, token: Box::new(tok) })
}

/// Builds the node for `[head | tail]`.
pub fn NewListSplit(head: Node, tail: Node) -> (r: Node)
    ensures
        r.view() == (Ast::ListSplit { head: Box::new(head.view()), tail: Box::new(tail.view()) }),
{
    Node::ListSplit(ListSplit { head: Box::new(head), tail: Box::new(tail) })
}

/// Builds the node for a function type `A -> B`.
pub fn NewTypeFn(lhs: Node, rhs: Node, token: Token) -> (r: Node)
    ensures
        r.view() == (Ast::TypeFn { lhs: Box::new(lhs.view()), rhs: Box::new(rhs.view()), token: token }),
{
    Node::TypeFn(TypeFn { lhs: Box::new(lhs), rhs: Box::new(rhs), token: Box::new(token) })
}

/// Builds the node for a list type `[T]`.
pub fn NewTypeLst(ttype: Node, token: Token) -> (r: Node)
    ensures
        r.view() == (Ast::TypeLst { ttype: Box::new(ttype.view()), token: token }),
{
    Node::TypeLst(TypeLst { ttype: Box::new(ttype), token: Box::new(token) })
}

/// Builds the node for a tuple type `(A, B, ..)`.
pub fn NewTypeTuple(ttypes: Vec<Node>) -> (r: Node)
    ensures
        r.view() == (Ast::TypeTuple { ttypes: views(ttypes@) }),
{
    Node::TypeTuple(TypeTuple { ttypes: ttypes })
}

/// Builds the node for a composite type `Name<A, ..>`.
pub fn NewTypeCmpst(ttype: Node, items: Vec<Node>) -> (r: Node)
    ensures
        r.view() == (Ast::TypeCmpst { ttype: Box::new(ttype.view()), items: views(items@) }),
{
    Node::TypeCmpst(TypeCmpst { ttype: Box::new(ttype), items: items })
}

/// Builds the node for a named type `[mut] Name`.
pub fn NewTtype(symbol: Node, is_mut: bool) -> (r: Node)
    ensures
        r.view() == (Ast::Ttype { symbol: Box::new(symbol.view()), is_mut: is_mut }),
{
    Node::Ttype(Ttype { symbol: Box::new(symbol), is_mut: is_mut })
}

/// Builds the node for `while cond { statements }`.
pub fn NewWhileExpression(tok: Token, cond: Node, statements: Vec<Node>) -> (r: Node)
    ensures
        r.view() == (Ast::WhileExpression { cond: Box::new(cond.view()), statements: views(statements@), token: tok }),
{
    Node::WhileExpression(WhileExpression { cond: Box::new(cond), statements: statements, token: Box::new(tok) })
}

/// Builds the node for `do { statements }`.
pub fn NewDoExpression(tok: Token, statements: Vec<Node>) -> (r: Node)
    ensures
        r.view() == (Ast::DoExpression { token: tok, statements: views(statements@) }),
{
    Node::DoExpression(DoExpression { token: Box::new(tok), statements: statements })
}

/// Builds the node for `return value`.
pub fn NewReturnExpression(tok: Token, value: Node) -> (r: Node)
    ensures
        r.view() == (Ast::ReturnExpression { value: Box::new(value.view()), token: tok }),
{
    Node::ReturnExpression(ReturnExpression { value: Box::new(value), token: Box::new(tok) })
}

/// Builds the node for `lhs op rhs`.
pub fn NewBinaryExpression(tok: Token, lhs: Node, rhs: Node) -> (r: Node)
    ensures
        r.view() == (Ast::BinaryExpression { lhs: Box::new(lhs.view()), rhs: Box::new(rhs.view()), token: tok }),
{
    Node::BinaryExpression(BinaryExpression { lhs: Box::new(lhs), rhs: Box::new(rhs), token: tok })
}

/// Builds the node for `op operand`.
pub fn NewUnaryExpression(tok: Token, rhs: Node) -> (r: Node)
    ensures
        r.view() == (Ast::UnaryExpression { rhs: Box::new(rhs.view()), token: tok }),
{
    Node::UnaryExpression(UnaryExpression { rhs: Box::new(rhs), token: tok })
}

/// Builds the node for `name(args)`.
pub fn NewCall(lhs: Node, args: Vec<Node>) -> (r: Node)
    ensures
        r.view() == (Ast::Call { lhs: Box::new(lhs.view()), args: views(args@) }),
{
    Node::Call(Call { lhs: Box::new(lhs), args: args })
}

/// Builds the node for member access `lhs.rhs`.
pub fn NewAccess(lhs: Node, rhs: Node) -> (r: Node)
    ensures
        r.view() == (Ast::Access { lhs: Box::new(lhs.view()), rhs: Box::new(rhs.view()) }),
{
    Node::Access(Access { lhs: Box::new(lhs), rhs: Box::new(rhs) })
}

/// Builds the node for index access `lhs[index]`.
pub fn NewAccessIndex(symbol: Node, index: Node) -> (r: Node)
    ensures
        r.view() == (Ast::AccessIndex { symbol: Box::new(symbol.view()), index: Box::new(index.view()) }),
{
    Node::AccessIndex(AccessIndex { symbol: Box::new(symbol), index: Box::new(index) })
}

/// Builds the node for a tuple of expressions.
pub fn NewTupleAny(items: Vec<Node>) -> (r: Node)
    ensures
        r.view() == (Ast::TupleAny { items: views(items@) }),
{
    Node::TupleAny(TupleAny { items: items })
}

/// Builds the node for a tuple of names.
pub fn NewTupleSymbols(items: Vec<Node>) -> (r: Node)
    ensures
        r.view() == (Ast::TupleSymbols { items: views(items@) }),
{
    Node::TupleSymbols(TupleSymbols { items: items })
}

/// Builds the node for a tuple of strings.
pub fn NewTupleString(items: Vec<Node>) -> (r: Node)
    ensures
        r.view() == (Ast::TupleString { items: views(items@) }),
{
    Node::TupleString(TupleString { items: items })
}

/// Builds the node for a single integer, string, boolean or name.
pub fn NewAtom(tok: Token) -> (r: Node)
    ensures
        r.view() == (Ast::Atom { token: tok }),
{
    Node::Atom(Atom { token: tok })
}

/// Builds the node for the whole program: its top-level statements in order.
pub fn NewRootNode(children: Vec<Node>) -> (r: Node)
    ensures
        r.view() == (Ast::Root { children: views(children@) }),
{
    Node::Root(Root { children: children })
}

} // verus!
