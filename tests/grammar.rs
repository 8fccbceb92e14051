use ivy_parser::ast::{Node, NewAtom, NewBinaryExpression, NewRootNode, NewTupleAny};
use ivy_parser::errors::{Construct, ParserError};
use ivy_parser::grammar::MAX_NESTING;
use ivy_parser::parser::{parse, Parser};
use ivy_parser::tokens::{copy_token, Tag, Token, TokenType};

fn tk(typ: TokenType) -> Token {
    Token::new(typ, 0, 0)
}

fn at(typ: TokenType, row: usize, col: usize) -> Token {
    Token::new(typ, row, col)
}

fn sym(s: &str) -> Token {
    tk(TokenType::Symbol(s.to_string()))
}

fn num(i: i32) -> Token {
    tk(TokenType::Integer(i))
}

fn op(t: &Token) -> String {
    match &t.typ {
        TokenType::Plus => "+".to_string(),
        TokenType::Minus => "-".to_string(),
        TokenType::Star => "*".to_string(),
        TokenType::Slash => "/".to_string(),
        TokenType::Eq => "==".to_string(),
        TokenType::NotEq => "!=".to_string(),
        TokenType::Greater => ">".to_string(),
        TokenType::GreaterEqual => ">=".to_string(),
        TokenType::Less => "<".to_string(),
        TokenType::LessEqual => "<=".to_string(),
        TokenType::And => "and".to_string(),
        TokenType::Or => "or".to_string(),
        TokenType::Not => "!".to_string(),
        other => format!("{:?}", other),
    }
}

fn list(nodes: &[Node]) -> String {
    nodes.iter().map(show).collect::<Vec<_>>().join(", ")
}

fn opt(n: &Option<Node>) -> String {
    match n {
        Some(n) => show(n),
        None => "_".to_string(),
    }
}

/// Renders a tree as a compact, fully parenthesised string.
fn show(n: &Node) -> String {
    match n {
        Node::Root(r) => format!("root[{}]", list(&r.children)),
        Node::LetExpr(x) => format!(
            "let{}[{}]:{}={}",
            if x.is_mut { " mut" } else { "" },
            list(&x.symbols),
            opt(&x.ttype),
            show(&x.rhs)
        ),
        Node::MutExpr(x) => format!("mut {}={}", show(&x.lhs), show(&x.rhs)),
        Node::FnAnon(x) => format!("fn[{}]:{}=>{}", list(&x.arguments), opt(&x.type_out), show(&x.rhs)),
        Node::FnSignature(x) => format!("sig {}::{}", show(&x.symbol), show(&x.ttype)),
        Node::FnDeclaration(x) => format!(
            "decl {}[{}]:{}=>{}",
            show(&x.symbol),
            list(&x.arguments),
            opt(&x.type_out),
            show(&x.rhs)
        ),
        Node::FnArgTyped(x) => match &*x.ttype {
            Some(t) => format!("{}:{}", show(&x.symbol), show(t)),
            None => show(&x.symbol),
        },
        Node::IfExpr(x) => format!("if {} then {} else {}", show(&x.cond), show(&x.true_branch), opt(&x.false_branch)),
        Node::PubExpr(x) => format!("pub {}", show(&x.rhs)),
        Node::DataDeclaration(x) => format!("data {}<{}>[{}]", show(&x.symbol), list(&x.generics), list(&x.variants)),
        Node::DataItem(x) => format!("{}::{}", show(&x.symbol), show(&x.ttype)),
        Node::StructAnon(x) => format!("struct[{}]", list(&x.fields)),
        Node::StructDeclaration(x) => format!("struct {}[{}]", show(&x.symbol), list(&x.fields)),
        Node::StructField(x) => format!("{}::{}", show(&x.symbol), show(&x.ttype)),
        Node::Package(x) => format!("package {}", show(&x.rhs)),
        Node::Import(x) => format!("import[{}]", list(&x.rhs)),
        Node::MatchExpression(x) => format!("match {}[{}]", show(&x.lhs), list(&x.branches)),
        Node::MatchBranch(x) => format!("{}->{}", show(&x.lhs), show(&x.rhs)),
        Node::ListLiteral(x) => format!("list[{}]", list(&x.items)),
        Node::ListSplit(x) => format!("[{}|{}]", show(&x.head), show(&x.tail)),
        Node::WhileExpression(x) => format!("while {}{{{}}}", show(&x.cond), list(&x.statements)),
        Node::DoExpression(x) => format!("do{{{}}}", list(&x.statements)),
        Node::ReturnExpression(x) => format!("return {}", show(&x.value)),
        Node::TypeFn(x) => format!("({} -> {})", show(&x.lhs), show(&x.rhs)),
        Node::TypeLst(x) => format!("[{}]", show(&x.ttype)),
        Node::TypeTuple(x) => format!("ttuple({})", list(&x.ttypes)),
        Node::TypeCmpst(x) => format!("{}<{}>", show(&x.ttype), list(&x.items)),
        Node::Ttype(x) => format!("{}{}", if x.is_mut { "mut " } else { "" }, show(&x.symbol)),
        Node::BinaryExpression(x) => format!("({} {} {})", show(&x.lhs), op(&x.token), show(&x.rhs)),
        Node::UnaryExpression(x) => format!("({}{})", op(&x.token), show(&x.rhs)),
        Node::Call(x) => format!("{}({})", show(&x.lhs), list(&x.args)),
        Node::Access(x) => format!("{}.{}", show(&x.lhs), show(&x.rhs)),
        Node::AccessIndex(x) => format!("{}[{}]", show(&x.symbol), show(&x.index)),
        Node::TupleAny(x) => format!("tuple({})", list(&x.items)),
        Node::TupleSymbols(x) => format!("names({})", list(&x.items)),
        Node::TupleString(x) => format!("strings({})", list(&x.items)),
        Node::Atom(x) => match &x.token.typ {
            TokenType::Integer(i) => i.to_string(),
            TokenType::Symbol(s) => s.clone(),
            TokenType::String(s) => format!("\"{}\"", s),
            TokenType::True => "true".to_string(),
            TokenType::False => "false".to_string(),
            other => format!("?{:?}", other),
        },
    }
}

/// Parses the tokens and renders the only statement.
fn one(tokens: Vec<Token>) -> String {
    match parse(tokens) {
        Ok(Node::Root(r)) => {
            assert_eq!(r.children.len(), 1);
            show(&r.children[0])
        }
        Ok(other) => panic!("not a root: {}", show(&other)),
        Err(e) => panic!("parse failed: {:?}", e),
    }
}

fn fails(tokens: Vec<Token>) -> ParserError {
    match parse(tokens) {
        Ok(n) => panic!("parsed: {}", show(&n)),
        Err(e) => e,
    }
}

fn semi() -> Token {
    tk(TokenType::Semicolon)
}

#[test]
fn single_statement_gives_one_child() {
    assert_eq!(one(vec![sym("x"), tk(TokenType::Plus), num(1), semi()]), "(x + 1)");
    assert_eq!(one(vec![tk(TokenType::Let), sym("y"), tk(TokenType::Bind), num(2), semi()]), "let[y]:_=2");
    assert_eq!(one(vec![num(5), semi()]), "5");
}

#[test]
fn empty_program_has_no_children() {
    assert_eq!(show(&parse(vec![]).unwrap()), "root[]");
}

#[test]
fn statements_keep_their_order() {
    let toks = vec![num(1), semi(), sym("a"), semi(), tk(TokenType::True), semi()];
    assert_eq!(show(&parse(toks).unwrap()), "root[1, a, true]");
}

#[test]
fn subtraction_groups_to_the_left() {
    let toks = vec![sym("a"), tk(TokenType::Minus), sym("b"), tk(TokenType::Minus), sym("c"), semi()];
    assert_eq!(one(toks), "((a - b) - c)");
}

#[test]
fn every_binary_level_groups_to_the_left() {
    let toks = vec![num(8), tk(TokenType::Slash), num(4), tk(TokenType::Star), num(2), semi()];
    assert_eq!(one(toks), "((8 / 4) * 2)");
    let toks = vec![sym("p"), tk(TokenType::Or), sym("q"), tk(TokenType::Or), sym("r"), semi()];
    assert_eq!(one(toks), "((p or q) or r)");
}

#[test]
fn multiplication_binds_tighter_than_addition() {
    let toks = vec![num(7), tk(TokenType::Plus), num(4), tk(TokenType::Star), num(2), semi()];
    assert_eq!(one(toks), "(7 + (4 * 2))");
}

#[test]
fn parentheses_override_precedence() {
    let toks = vec![
        tk(TokenType::LParen),
        num(7),
        tk(TokenType::Plus),
        num(4),
        tk(TokenType::RParen),
        tk(TokenType::Star),
        num(2),
        semi(),
    ];
    assert_eq!(one(toks), "((7 + 4) * 2)");
}

#[test]
fn operator_ladder_from_loosest_to_tightest() {
    // a or b and c == d < e + f * -g
    let toks = vec![
        sym("a"),
        tk(TokenType::Or),
        sym("b"),
        tk(TokenType::And),
        sym("c"),
        tk(TokenType::Eq),
        sym("d"),
        tk(TokenType::Less),
        sym("e"),
        tk(TokenType::Plus),
        sym("f"),
        tk(TokenType::Star),
        tk(TokenType::Minus),
        sym("g"),
        semi(),
    ];
    assert_eq!(one(toks), "(a or (b and (c == (d < (e + (f * (-g)))))))");
}

#[test]
fn parenthesised_single_is_a_group() {
    let toks = vec![tk(TokenType::LParen), num(3), tk(TokenType::RParen), semi()];
    assert_eq!(one(toks), "3");
}

#[test]
fn parenthesised_pair_is_a_tuple() {
    let toks = vec![tk(TokenType::LParen), num(3), tk(TokenType::Comma), num(5), tk(TokenType::RParen), semi()];
    assert_eq!(one(toks), "tuple(3, 5)");
}

#[test]
fn empty_parentheses_are_an_empty_tuple() {
    assert_eq!(one(vec![tk(TokenType::LParen), tk(TokenType::RParen), semi()]), "tuple()");
}

#[test]
fn comma_inside_nested_call_does_not_make_a_tuple() {
    // (f(1, 2));
    let toks = vec![
        tk(TokenType::LParen),
        sym("f"),
        tk(TokenType::LParen),
        num(1),
        tk(TokenType::Comma),
        num(2),
        tk(TokenType::RParen),
        tk(TokenType::RParen),
        semi(),
    ];
    assert_eq!(one(toks), "f(1, 2)");
}

#[test]
fn anonymous_function_form() {
    let toks = vec![
        tk(TokenType::Fn),
        tk(TokenType::LParen),
        tk(TokenType::RParen),
        tk(TokenType::EqArrow),
        num(1),
        semi(),
    ];
    assert_eq!(one(toks), "fn[]:_=>1");
}

#[test]
fn signature_function_form() {
    let toks = vec![
        tk(TokenType::Fn),
        sym("f"),
        tk(TokenType::DoubleColon),
        sym("Int"),
        tk(TokenType::Arrow),
        sym("Int"),
        semi(),
    ];
    assert_eq!(one(toks), "sig f::(Int -> Int)");
}

#[test]
fn declaration_function_form() {
    let toks = vec![
        tk(TokenType::Fn),
        sym("f"),
        tk(TokenType::LParen),
        sym("n"),
        tk(TokenType::RParen),
        tk(TokenType::EqArrow),
        sym("n"),
        semi(),
    ];
    assert_eq!(one(toks), "decl f[n]:_=>n");
}

#[test]
fn unknown_third_token_after_fn_names_both_forms() {
    let toks = vec![at(TokenType::Fn, 1, 1), at(TokenType::Symbol("f".to_string()), 1, 4), at(TokenType::Plus, 1, 6), at(TokenType::Semicolon, 1, 8)];
    match fails(toks) {
        ParserError::ExpectedOneOf(cs, row, col) => {
            assert_eq!(cs, vec![Construct::Token(Tag::DoubleColon), Construct::Token(Tag::LParen)]);
            assert_eq!((row, col), (1, 6));
        }
        other => panic!("wrong error: {:?}", other),
    }
}

#[test]
fn parsing_twice_gives_the_same_tree() {
    let make = || {
        vec![
            tk(TokenType::Let),
            sym("v"),
            tk(TokenType::Bind),
            sym("a"),
            tk(TokenType::Minus),
            num(2),
            tk(TokenType::Star),
            sym("b"),
            semi(),
        ]
    };
    let first = parse(make()).unwrap();
    let second = parse(make()).unwrap();
    assert_eq!(format!("{:?}", first), format!("{:?}", second));
    assert_eq!(show(&first), show(&second));
}

#[test]
fn unfinished_let_fails_after_the_last_token() {
    let toks = vec![at(TokenType::Let, 2, 1), at(TokenType::Symbol("x".to_string()), 2, 5)];
    let e = fails(toks);
    assert!(e.is_expected());
    assert_eq!(e.location(), (2, 6));
    match e {
        ParserError::Expected(c, _, _) => assert_eq!(c, Construct::Token(Tag::Bind)),
        other => panic!("wrong error: {:?}", other),
    }
}

#[test]
fn let_square_end_to_end() {
    // let square = fn (x) => x * x;
    let toks = vec![
        tk(TokenType::Let),
        sym("square"),
        tk(TokenType::Bind),
        tk(TokenType::Fn),
        tk(TokenType::LParen),
        sym("x"),
        tk(TokenType::RParen),
        tk(TokenType::EqArrow),
        sym("x"),
        tk(TokenType::Star),
        sym("x"),
        semi(),
    ];
    let root = parse(toks).unwrap();
    let Node::Root(r) = root else { panic!("not a root") };
    assert_eq!(r.children.len(), 1);
    let Node::LetExpr(l) = &r.children[0] else { panic!("not a let") };
    assert!(!l.is_mut);
    assert_eq!(l.symbols.len(), 1);
    assert_eq!(show(&l.symbols[0]), "square");
    let Node::FnAnon(f) = &*l.rhs else { panic!("not an anonymous function") };
    assert_eq!(f.arguments.len(), 1);
    let Node::FnArgTyped(arg) = &f.arguments[0] else { panic!("not an argument") };
    assert!(arg.ttype.is_none());
    assert_eq!(show(&arg.symbol), "x");
    assert!(f.type_out.is_none());
    assert_eq!(show(&f.rhs), "(x * x)");
}

#[test]
fn missing_semicolon_is_reported_past_the_last_token() {
    let toks = vec![at(TokenType::Integer(4), 3, 7)];
    let e = fails(toks);
    assert_eq!(e.location(), (3, 8));
    match e {
        ParserError::Expected(c, _, _) => assert_eq!(c, Construct::Token(Tag::Semicolon)),
        other => panic!("wrong error: {:?}", other),
    }
}

#[test]
fn error_column_stays_at_the_largest_column() {
    let e = fails(vec![at(TokenType::Integer(4), 0, usize::MAX)]);
    assert_eq!(e.location(), (0, usize::MAX));
}

#[test]
fn wrong_token_is_reported_where_it_stands() {
    // 1 2;  -- the second integer is where the `;` was expected
    let toks = vec![at(TokenType::Integer(1), 0, 0), at(TokenType::Integer(2), 0, 2), at(TokenType::Semicolon, 0, 3)];
    let e = fails(toks);
    assert_eq!(e.location(), (0, 2));
    assert!(e.is_expected());
}

#[test]
fn factor_without_expression_names_expression() {
    let e = fails(vec![at(TokenType::RParen, 5, 9), semi()]);
    match e {
        ParserError::Expected(c, row, col) => {
            assert_eq!(c, Construct::Expression);
            assert_eq!((row, col), (5, 9));
        }
        other => panic!("wrong error: {:?}", other),
    }
}

#[test]
fn let_without_name_or_tuple_names_both() {
    let e = fails(vec![tk(TokenType::Let), num(3), tk(TokenType::Bind), num(1), semi()]);
    match e {
        ParserError::ExpectedOneOf(cs, _, _) => {
            assert_eq!(cs, vec![Construct::Token(Tag::Symbol), Construct::Token(Tag::LParen)])
        }
        other => panic!("wrong error: {:?}", other),
    }
}

#[test]
fn fn_without_name_or_arguments_names_both() {
    let e = fails(vec![tk(TokenType::Fn), num(3), semi()]);
    match e {
        ParserError::ExpectedOneOf(cs, _, _) => {
            assert_eq!(cs, vec![Construct::Token(Tag::LParen), Construct::Token(Tag::Symbol)])
        }
        other => panic!("wrong error: {:?}", other),
    }
}

#[test]
fn pub_before_other_names_three_declarations() {
    let e = fails(vec![tk(TokenType::Pub), sym("x"), semi()]);
    match e {
        ParserError::ExpectedOneOf(cs, _, _) => assert_eq!(
            cs,
            vec![Construct::Token(Tag::Fn), Construct::Token(Tag::Data), Construct::Token(Tag::Struct)]
        ),
        other => panic!("wrong error: {:?}", other),
    }
}

#[test]
fn missing_separator_in_tuple_names_comma_and_closer() {
    // (1, 2 3);
    let e = fails(vec![
        tk(TokenType::LParen),
        num(1),
        tk(TokenType::Comma),
        num(2),
        num(3),
        tk(TokenType::RParen),
        semi(),
    ]);
    match e {
        ParserError::ExpectedOneOf(cs, _, _) => {
            assert_eq!(cs, vec![Construct::Token(Tag::Comma), Construct::Token(Tag::RParen)])
        }
        other => panic!("wrong error: {:?}", other),
    }
}

#[test]
fn trailing_comma_only_where_allowed() {
    // let (a, b,) = t;  -- allowed for names
    let toks = vec![
        tk(TokenType::Let),
        tk(TokenType::LParen),
        sym("a"),
        tk(TokenType::Comma),
        sym("b"),
        tk(TokenType::Comma),
        tk(TokenType::RParen),
        tk(TokenType::Bind),
        sym("t"),
        semi(),
    ];
    assert_eq!(one(toks), "let[a, b]:_=t");
    // [1, 2,];  -- not allowed in a list literal
    let e = fails(vec![
        tk(TokenType::LBracket),
        num(1),
        tk(TokenType::Comma),
        num(2),
        tk(TokenType::Comma),
        tk(TokenType::RBracket),
        semi(),
    ]);
    match e {
        ParserError::Expected(c, _, _) => assert_eq!(c, Construct::Expression),
        other => panic!("wrong error: {:?}", other),
    }
}

#[test]
fn let_mut_with_type_annotation() {
    // let mut (a, b) :: (Int, [Str]) = pair;
    let toks = vec![
        tk(TokenType::Let),
        tk(TokenType::Mut),
        tk(TokenType::LParen),
        sym("a"),
        tk(TokenType::Comma),
        sym("b"),
        tk(TokenType::RParen),
        tk(TokenType::DoubleColon),
        tk(TokenType::LParen),
        sym("Int"),
        tk(TokenType::Comma),
        tk(TokenType::LBracket),
        sym("Str"),
        tk(TokenType::RBracket),
        tk(TokenType::RParen),
        tk(TokenType::Bind),
        sym("pair"),
        semi(),
    ];
    assert_eq!(one(toks), "let mut[a, b]:ttuple(Int, [Str])=pair");
}

#[test]
fn mutation_of_an_index() {
    // mut xs[0] = 1;
    let toks = vec![
        tk(TokenType::Mut),
        sym("xs"),
        tk(TokenType::LBracket),
        num(0),
        tk(TokenType::RBracket),
        tk(TokenType::Bind),
        num(1),
        semi(),
    ];
    assert_eq!(one(toks), "mut xs[0]=1");
}

#[test]
fn declaration_with_typed_arguments_and_result() {
    // fn add (a: Int, b: mut Int) : Int => a + b;
    let toks = vec![
        tk(TokenType::Fn),
        sym("add"),
        tk(TokenType::LParen),
        sym("a"),
        tk(TokenType::Colon),
        sym("Int"),
        tk(TokenType::Comma),
        sym("b"),
        tk(TokenType::Colon),
        tk(TokenType::Mut),
        sym("Int"),
        tk(TokenType::RParen),
        tk(TokenType::Colon),
        sym("Int"),
        tk(TokenType::EqArrow),
        sym("a"),
        tk(TokenType::Plus),
        sym("b"),
        semi(),
    ];
    assert_eq!(one(toks), "decl add[a:Int, b:mut Int]:Int=>(a + b)");
}

#[test]
fn function_types_chain_to_the_right() {
    // fn f :: Int -> Int -> Map<Str, Int>;
    let toks = vec![
        tk(TokenType::Fn),
        sym("f"),
        tk(TokenType::DoubleColon),
        sym("Int"),
        tk(TokenType::Arrow),
        sym("Int"),
        tk(TokenType::Arrow),
        sym("Map"),
        tk(TokenType::Less),
        sym("Str"),
        tk(TokenType::Comma),
        sym("Int"),
        tk(TokenType::Greater),
        semi(),
    ];
    assert_eq!(one(toks), "sig f::(Int -> (Int -> Map<Str, Int>))");
}

#[test]
fn if_with_and_without_else() {
    let toks = vec![
        tk(TokenType::If),
        sym("a"),
        tk(TokenType::Greater),
        num(1),
        tk(TokenType::Then),
        num(2),
        tk(TokenType::Else),
        num(3),
        semi(),
    ];
    assert_eq!(one(toks), "if (a > 1) then 2 else 3");
    let toks = vec![tk(TokenType::If), tk(TokenType::True), tk(TokenType::Then), num(2), semi()];
    assert_eq!(one(toks), "if true then 2 else _");
}

#[test]
fn public_data_declaration_with_variants() {
    // pub data Shape<T> ( | Circle :: Int | Rect :: struct (w :: Int, h :: Int,) | Empty );
    let toks = vec![
        tk(TokenType::Pub),
        tk(TokenType::Data),
        sym("Shape"),
        tk(TokenType::Less),
        sym("T"),
        tk(TokenType::Greater),
        tk(TokenType::LParen),
        tk(TokenType::Pipe),
        sym("Circle"),
        tk(TokenType::DoubleColon),
        sym("Int"),
        tk(TokenType::Pipe),
        sym("Rect"),
        tk(TokenType::DoubleColon),
        tk(TokenType::Struct),
        tk(TokenType::LParen),
        sym("w"),
        tk(TokenType::DoubleColon),
        sym("Int"),
        tk(TokenType::Comma),
        sym("h"),
        tk(TokenType::DoubleColon),
        sym("Int"),
        tk(TokenType::Comma),
        tk(TokenType::RParen),
        tk(TokenType::Pipe),
        sym("Empty"),
        tk(TokenType::RParen),
        semi(),
    ];
    assert_eq!(one(toks), "pub data Shape<T>[Circle::Int, Rect::struct[w::Int, h::Int], Empty]");
}

#[test]
fn named_and_anonymous_structs() {
    let toks = vec![
        tk(TokenType::Struct),
        sym("P"),
        tk(TokenType::LParen),
        sym("x"),
        tk(TokenType::DoubleColon),
        sym("Int"),
        tk(TokenType::RParen),
        semi(),
    ];
    assert_eq!(one(toks), "struct P[x::Int]");
    let toks = vec![tk(TokenType::Struct), tk(TokenType::LParen), tk(TokenType::RParen), semi()];
    assert_eq!(one(toks), "struct[]");
}

#[test]
fn package_and_imports() {
    assert_eq!(one(vec![tk(TokenType::Package), sym("main"), semi()]), "package main");
    assert_eq!(one(vec![tk(TokenType::Import), tk(TokenType::String("io".to_string())), semi()]), "import[\"io\"]");
    let toks = vec![
        tk(TokenType::Import),
        tk(TokenType::LParen),
        tk(TokenType::String("a".to_string())),
        tk(TokenType::Comma),
        tk(TokenType::String("b".to_string())),
        tk(TokenType::RParen),
        semi(),
    ];
    assert_eq!(one(toks), "import[\"a\", \"b\"]");
}

#[test]
fn match_with_branches() {
    // match (xs) ( | [] -> 0 | [h | t] -> h );
    // A bare name before `(` would read as a call, so the value is grouped.
    let toks = vec![
        tk(TokenType::Match),
        tk(TokenType::LParen),
        sym("xs"),
        tk(TokenType::RParen),
        tk(TokenType::LParen),
        tk(TokenType::Pipe),
        tk(TokenType::LBracket),
        tk(TokenType::RBracket),
        tk(TokenType::Arrow),
        num(0),
        tk(TokenType::Pipe),
        tk(TokenType::LBracket),
        sym("h"),
        tk(TokenType::Pipe),
        sym("t"),
        tk(TokenType::RBracket),
        tk(TokenType::Arrow),
        sym("h"),
        tk(TokenType::RParen),
        semi(),
    ];
    assert_eq!(one(toks), "match xs[list[]->0, [h|t]->h]");
}

#[test]
fn match_on_a_bare_name_reads_a_call() {
    // match xs ( | 1 -> 2 );  -- `xs ( | ...` is taken as a call of `xs`
    let e = fails(vec![
        tk(TokenType::Match),
        sym("xs"),
        tk(TokenType::LParen),
        tk(TokenType::Pipe),
        num(1),
        tk(TokenType::Arrow),
        num(2),
        tk(TokenType::RParen),
        semi(),
    ]);
    match e {
        ParserError::Expected(c, _, _) => assert_eq!(c, Construct::Expression),
        other => panic!("wrong error: {:?}", other),
    }
}

#[test]
fn while_and_do_blocks() {
    // while i < 3 { mut i = i + 1; };
    let toks = vec![
        tk(TokenType::While),
        sym("i"),
        tk(TokenType::Less),
        num(3),
        tk(TokenType::LCurly),
        tk(TokenType::Mut),
        sym("i"),
        tk(TokenType::Bind),
        sym("i"),
        tk(TokenType::Plus),
        num(1),
        semi(),
        tk(TokenType::RCurly),
        semi(),
    ];
    assert_eq!(one(toks), "while (i < 3){mut i=(i + 1)}");
    // do { return 1; };
    let toks = vec![
        tk(TokenType::Do),
        tk(TokenType::LCurly),
        tk(TokenType::Return),
        num(1),
        semi(),
        tk(TokenType::RCurly),
        semi(),
    ];
    assert_eq!(one(toks), "do{return 1}");
}

#[test]
fn unclosed_block_is_an_error() {
    let e = fails(vec![tk(TokenType::Do), tk(TokenType::LCurly), num(1), semi()]);
    match e {
        ParserError::Expected(c, _, _) => assert_eq!(c, Construct::Expression),
        other => panic!("wrong error: {:?}", other),
    }
}

#[test]
fn access_chains_and_calls() {
    // p.x.len()[0] + f(1)(2)... only the first call form
    let toks = vec![
        sym("p"),
        tk(TokenType::Dot),
        sym("x"),
        tk(TokenType::Dot),
        sym("len"),
        tk(TokenType::LParen),
        tk(TokenType::RParen),
        tk(TokenType::LBracket),
        num(0),
        tk(TokenType::RBracket),
        tk(TokenType::Plus),
        sym("f"),
        tk(TokenType::LParen),
        num(1),
        tk(TokenType::RParen),
        semi(),
    ];
    assert_eq!(one(toks), "(p.x.len()[0] + f(1))");
}

#[test]
fn list_literal_and_unary_not() {
    let toks = vec![
        tk(TokenType::Not),
        tk(TokenType::LBracket),
        num(1),
        tk(TokenType::Comma),
        tk(TokenType::String("s".to_string())),
        tk(TokenType::RBracket),
        semi(),
    ];
    assert_eq!(one(toks), "(!list[1, \"s\"])");
}

#[test]
fn parser_methods_follow_the_cursor() {
    let mut p = Parser::new(vec![num(1), semi()]);
    assert!(!p.is_done());
    assert!(matches!(p.peek().map(|t| &t.typ), Some(TokenType::Integer(1))));
    assert!(matches!(p.peek_at(1).map(|t| &t.typ), Some(TokenType::Semicolon)));
    assert!(p.peek_at(2).is_none());
    assert!(p.expect(Tag::Integer).is_ok());
    let e = p.expect(Tag::Comma).unwrap_err();
    assert!(e.is_expected());
    assert!(matches!(p.advance().map(|t| t.typ), Some(TokenType::Semicolon)));
    assert!(p.is_done());
    assert!(p.advance().is_none());
    assert!(p.peek().is_none());
}

#[test]
fn parser_parse_gives_the_same_as_parse() {
    let mut p = Parser::new(vec![sym("a"), semi()]);
    let tree = p.parse().unwrap();
    assert!(p.is_done());
    assert_eq!(show(&tree), "root[a]");
}

#[test]
fn copy_token_keeps_payload_and_place() {
    let t = at(TokenType::Symbol("name".to_string()), 4, 2);
    let c = copy_token(&t);
    assert_eq!((c.row, c.col), (4, 2));
    assert!(matches!(&c.typ, TokenType::Symbol(s) if s == "name"));
    assert_eq!(c.typ.tag(), Tag::Symbol);
}

#[test]
fn constructors_build_the_named_nodes() {
    let sum = NewBinaryExpression(tk(TokenType::Plus), NewAtom(num(1)), NewAtom(num(2)));
    assert_eq!(show(&sum), "(1 + 2)");
    let tuple = NewTupleAny(vec![NewAtom(num(1)), NewAtom(sym("z"))]);
    assert_eq!(show(&NewRootNode(vec![tuple])), "root[tuple(1, z)]");
}

fn nested_parens(levels: usize) -> Vec<Token> {
    let mut toks = Vec::new();
    for i in 0..levels {
        toks.push(at(TokenType::LParen, 0, i));
    }
    toks.push(at(TokenType::Integer(9), 0, levels));
    for i in 0..levels {
        toks.push(at(TokenType::RParen, 0, levels + 1 + i));
    }
    toks.push(semi());
    toks
}

#[test]
fn nesting_up_to_the_limit_parses() {
    assert_eq!(one(nested_parens(MAX_NESTING - 1)), "9");
}

#[test]
fn nesting_past_the_limit_is_reported() {
    match fails(nested_parens(MAX_NESTING)) {
        ParserError::NestingTooDeep(row, col) => assert_eq!((row, col), (0, MAX_NESTING)),
        other => panic!("wrong error: {:?}", other),
    }
}

#[test]
fn very_deep_nesting_fails_without_exhausting_the_stack() {
    let e = fails(nested_parens(100_000));
    assert!(matches!(e, ParserError::NestingTooDeep(..)));
    assert!(!e.is_expected());
}

#[test]
fn long_function_type_chains_spend_the_budget() {
    // fn f :: A -> A -> ... -> A;  with more arrows than the budget allows
    let mut toks = vec![tk(TokenType::Fn), sym("f"), tk(TokenType::DoubleColon), sym("A")];
    for _ in 0..MAX_NESTING {
        toks.push(tk(TokenType::Arrow));
        toks.push(sym("A"));
    }
    toks.push(semi());
    assert!(matches!(fails(toks), ParserError::NestingTooDeep(..)));
}
