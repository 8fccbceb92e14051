use vstd::prelude::*;

verus! {

/// The category of a token, without its payload.
#[derive(Clone, Copy, Debug, PartialEq, Eq, Structural)]
pub enum Tag {
    /// integer literal
    Integer,
    /// string literal
    String,
    /// identifier
    Symbol,
    /// `true`
    True,
    /// `false`
    False,
    /// `+`
    Plus,
    /// `-`
    Minus,
    /// `*`
    Star,
    /// `/`
    Slash,
    /// `=`
    Bind,
    /// `==`
    Eq,
    /// `!`
    Not,
    /// `!=`
    NotEq,
    /// `>`
    Greater,
    /// `>=`
    GreaterEqual,
    /// `<`
    Less,
    /// `<=`
    LessEqual,
    /// `and`
    And,
    /// `or`
    Or,
    /// `|`
    Pipe,
    /// `->`
    Arrow,
    /// `=>`
    EqArrow,
    /// `,`
    Comma,
    /// `;`
    Semicolon,
    /// `:`
    Colon,
    /// `::`
    DoubleColon,
    /// `.`
    Dot,
    /// `(`
    LParen,
    /// `)`
    RParen,
    /// `[`
    LBracket,
    /// `]`
    RBracket,
    /// `{`
    LCurly,
    /// `}`
    RCurly,
    /// `let`
    Let,
    /// `mut`
    Mut,
    /// `fn`
    Fn,
    /// `if`
    If,
    /// `then`
    Then,
    /// `else`
    Else,
    /// `pub`
    Pub,
    /// `data`
    Data,
    /// `struct`
    Struct,
    /// `package`
    Package,
    /// `import`
    Import,
    /// `match`
    Match,
    /// `while`
    While,
    /// `do`
    Do,
    /// `return`
    Return,
}

/// What a token holds: its category, and for literals and identifiers the payload.
#[derive(Debug)]
pub enum TokenType {
    /// integer literal
    Integer(i32),
    /// string literal
    String(String),
    /// identifier
    Symbol(String),
    /// `true`
    True,
    /// `false`
    False,
    /// `+`
    Plus,
    /// `-`
    Minus,
    /// `*`
    Star,
    /// `/`
    Slash,
    /// `=`
    Bind,
    /// `==`
    Eq,
    /// `!`
    Not,
    /// `!=`
    NotEq,
    /// `>`
    Greater,
    /// `>=`
    GreaterEqual,
    /// `<`
    Less,
    /// `<=`
    LessEqual,
    /// `and`
    And,
    /// `or`
    Or,
    /// `|`
    Pipe,
    /// `->`
    Arrow,
    /// `=>`
    EqArrow,
    /// `,`
    Comma,
    /// `;`
    Semicolon,
    /// `:`
    Colon,
    /// `::`
    DoubleColon,
    /// `.`
    Dot,
    /// `(`
    LParen,
    /// `)`
    RParen,
    /// `[`
    LBracket,
    /// `]`
    RBracket,
    /// `{`
    LCurly,
    /// `}`
    RCurly,
    /// `let`
    Let,
    /// `mut`
    Mut,
    /// `fn`
    Fn,
    /// `if`
    If,
    /// `then`
    Then,
    /// `else`
    Else,
    /// `pub`
    Pub,
    /// `data`
    Data,
    /// `struct`
    Struct,
    /// `package`
    Package,
    /// `import`
    Import,
    /// `match`
    Match,
    /// `while`
    While,
    /// `do`
    Do,
    /// `return`
    Return,
}

impl TokenType {
    /// The category of a token type.
    pub open spec fn kind(&self) -> Tag {
        match self {
            TokenType::Integer(_) => Tag::Integer,
            TokenType::String(_) => Tag::String,
            TokenType::Symbol(_) => Tag::Symbol,
            TokenType::True => Tag::True,
            TokenType::False => Tag::False,
            TokenType::Plus => Tag::Plus,
            TokenType::Minus => Tag::Minus,
            TokenType::Star => Tag::Star,
            TokenType::Slash => Tag::Slash,
            TokenType::Bind => Tag::Bind,
            TokenType::Eq => Tag::Eq,
            TokenType::Not => Tag::Not,
            TokenType::NotEq => Tag::NotEq,
            TokenType::Greater => Tag::Greater,
            TokenType::GreaterEqual => Tag::GreaterEqual,
            TokenType::Less => Tag::Less,
            TokenType::LessEqual => Tag::LessEqual,
            TokenType::And => Tag::And,
            TokenType::Or => Tag::Or,
            TokenType::Pipe => Tag::Pipe,
            TokenType::Arrow => Tag::Arrow,
            TokenType::EqArrow => Tag::EqArrow,
            TokenType::Comma => Tag::Comma,
            TokenType::Semicolon => Tag::Semicolon,
            TokenType::Colon => Tag::Colon,
            TokenType::DoubleColon => Tag::DoubleColon,
            TokenType::Dot => Tag::Dot,
            TokenType::LParen => Tag::LParen,
            TokenType::RParen => Tag::RParen,
            TokenType::LBracket => Tag::LBracket,
            TokenType::RBracket => Tag::RBracket,
            TokenType::LCurly => Tag::LCurly,
            TokenType::RCurly => Tag::RCurly,
            TokenType::Let => Tag::Let,
            TokenType::Mut => Tag::Mut,
            TokenType::Fn => Tag::Fn,
            TokenType::If => Tag::If,
            TokenType::Then => Tag::Then,
            TokenType::Else => Tag::Else,
            TokenType::Pub => Tag::Pub,
            TokenType::Data => Tag::Data,
            TokenType::Struct => Tag::Struct,
            TokenType::Package => Tag::Package,
            TokenType::Import => Tag::Import,
            TokenType::Match => Tag::Match,
            TokenType::While => Tag::While,
            TokenType::Do => Tag::Do,
            TokenType::Return => Tag::Return,
        }
    }

    /// Returns the category of this token type.
    pub fn tag(&self) -> (r: Tag)
        ensures
            r == self.kind(),
    {
        match self {
            TokenType::Integer(_) => Tag::Integer,
            TokenType::String(_) => Tag::String,
            TokenType::Symbol(_) => Tag::Symbol,
            TokenType::True => Tag::True,
            TokenType::False => Tag::False,
            TokenType::Plus => Tag::Plus,
            TokenType::Minus => Tag::Minus,
            TokenType::Star => Tag::Star,
            TokenType::Slash => Tag::Slash,
            TokenType::Bind => Tag::Bind,
            TokenType::Eq => Tag::Eq,
            TokenType::Not => Tag::Not,
            TokenType::NotEq => Tag::NotEq,
            TokenType::Greater => Tag::Greater,
            TokenType::GreaterEqual => Tag::GreaterEqual,
            TokenType::Less => Tag::Less,
            TokenType::LessEqual => Tag::LessEqual,
            TokenType::And => Tag::And,
            TokenType::Or => Tag::Or,
            TokenType::Pipe => Tag::Pipe,
            TokenType::Arrow => Tag::Arrow,
            TokenType::EqArrow => Tag::EqArrow,
            TokenType::Comma => Tag::Comma,
            TokenType::Semicolon => Tag::Semicolon,
            TokenType::Colon => Tag::Colon,
            TokenType::DoubleColon => Tag::DoubleColon,
            TokenType::Dot => Tag::Dot,
            TokenType::LParen => Tag::LParen,
            TokenType::RParen => Tag::RParen,
            TokenType::LBracket => Tag::LBracket,
            TokenType::RBracket => Tag::RBracket,
            TokenType::LCurly => Tag::LCurly,
            TokenType::RCurly => Tag::RCurly,
            TokenType::Let => Tag::Let,
            TokenType::Mut => Tag::Mut,
            TokenType::Fn => Tag::Fn,
            TokenType::If => Tag::If,
            TokenType::Then => Tag::Then,
            TokenType::Else => Tag::Else,
            TokenType::Pub => Tag::Pub,
            TokenType::Data => Tag::Data,
            TokenType::Struct => Tag::Struct,
            TokenType::Package => Tag::Package,
            TokenType::Import => Tag::Import,
            TokenType::Match => Tag::Match,
            TokenType::While => Tag::While,
            TokenType::Do => Tag::Do,
            TokenType::Return => Tag::Return,
        }
    }

    /// A copy of this token type, payload included.
    pub fn duplicate(&self) -> (r: TokenType)
        ensures
            r == *self,
    {
        match self {
            TokenType::Integer(i) => TokenType::Integer(*i),
            TokenType::String(s) => TokenType::String(s.clone()),
            TokenType::Symbol(s) => TokenType::Symbol(s.clone()),
            TokenType::True => TokenType::True,
            TokenType::False => TokenType::False,
            TokenType::Plus => TokenType::Plus,
            TokenType::Minus => TokenType::Minus,
            TokenType::Star => TokenType::Star,
            TokenType::Slash => TokenType::Slash,
            TokenType::Bind => TokenType::Bind,
            TokenType::Eq => TokenType::Eq,
            TokenType::Not => TokenType::Not,
            TokenType::NotEq => TokenType::NotEq,
            TokenType::Greater => TokenType::Greater,
            TokenType::GreaterEqual => TokenType::GreaterEqual,
            TokenType::Less => TokenType::Less,
            TokenType::LessEqual => TokenType::LessEqual,
            TokenType::And => TokenType::And,
            TokenType::Or => TokenType::Or,
            TokenType::Pipe => TokenType::Pipe,
            TokenType::Arrow => TokenType::Arrow,
            TokenType::EqArrow => TokenType::EqArrow,
            TokenType::Comma => TokenType::Comma,
            TokenType::Semicolon => TokenType::Semicolon,
            TokenType::Colon => TokenType::Colon,
            TokenType::DoubleColon => TokenType::DoubleColon,
            TokenType::Dot => TokenType::Dot,
            TokenType::LParen => TokenType::LParen,
            TokenType::RParen => TokenType::RParen,
            TokenType::LBracket => TokenType::LBracket,
            TokenType::RBracket => TokenType::RBracket,
            TokenType::LCurly => TokenType::LCurly,
            TokenType::RCurly => TokenType::RCurly,
            TokenType::Let => TokenType::Let,
            TokenType::Mut => TokenType::Mut,
            TokenType::Fn => TokenType::Fn,
            TokenType::If => TokenType::If,
            TokenType::Then => TokenType::Then,
            TokenType::Else => TokenType::Else,
            TokenType::Pub => TokenType::Pub,
            TokenType::Data => TokenType::Data,
            TokenType::Struct => TokenType::Struct,
            TokenType::Package => TokenType::Package,
            TokenType::Import => TokenType::Import,
            TokenType::Match => TokenType::Match,
            TokenType::While => TokenType::While,
            TokenType::Do => TokenType::Do,
            TokenType::Return => TokenType::Return,
        }
    }
}

/// A lexical token with the row and column where it starts.
#[derive(Debug)]
pub struct Token {
    pub typ: TokenType,
    pub row: usize,
    pub col: usize,
}

impl Token {
    /// A token of the given type at the given place.
    pub fn new(typ: TokenType, row: usize, col: usize) -> (r: Token)
        ensures
            r == (Token { typ, row, col }),
    {
        Token { typ, row, col }
    }

    /// The category of this token.
    pub open spec fn kind(&self) -> Tag {
        self.typ.kind()
    }
}

/// Returns a copy of a token, payload and place included.
pub fn copy_token(tok: &Token) -> (r: Token)
    ensures
        r == *tok,
{
    Token { typ: tok.typ.duplicate(), row: tok.row, col: tok.col }
}

} // verus!
