//! Tokens as the lexer hands them to the parser.

use vstd::prelude::*;

verus! {

/// A reserved word, by its number in the lexer's keyword list.
#[derive(Clone, Copy, Debug, PartialEq, Eq, Structural, Hash)]
pub struct Keyword(pub u16);

/// The kind of a token, as the lexer tags it.
#[derive(Clone, Copy, Debug, PartialEq, Eq, Structural, Hash)]
pub enum Kind {
    Assign,
    SubAssign,
    AddAssign,
    Arrow,
    Coalesce,
    Namespace,
    DoubleSplat,
    BackwardLink,
    FloorDiv,
    Concat,
    GreaterEq,
    LessEq,
    NotEq,
    NotDistinctFrom,
    DistinctFrom,
    Comma,
    OpenParen,
    CloseParen,
    OpenBracket,
    CloseBracket,
    OpenBrace,
    CloseBrace,
    Dot,
    Semicolon,
    Colon,
    Add,
    Sub,
    Mul,
    Div,
    Modulo,
    Pow,
    Less,
    Greater,
    Eq,
    Ampersand,
    Pipe,
    At,
    Parameter,
    ParameterAndType,
    Substitution,
    IntConst,
    FloatConst,
    BigIntConst,
    DecimalConst,
    BinStr,
    Str,
    BacktickName,
    StrInterpStart,
    StrInterpCont,
    StrInterpEnd,
    Keyword(Keyword),
    Ident,
    EOF,
    EOI,
    Epsilon,
}

/// A half-open range of byte offsets into the source text.
#[derive(Clone, Copy, Debug, PartialEq, Eq, Structural, Hash)]
pub struct Span {
    pub start: u64,
    pub end: u64,
}

impl Default for Span {
    fn default() -> (r: Span)
        ensures
            r == (Span { start: 0, end: 0 }),
    {
        Span { start: 0, end: 0 }
    }
}

/// The decoded value of a literal token.
#[derive(Debug, PartialEq, Eq)]
pub enum Value {
    Int(i64),
    /// The IEEE-754 bit pattern of a floating-point literal.
    Float(u64),
    BigInt(String),
    Decimal(String),
    Str(String),
    Bytes(Vec<u8>),
}

/// What a literal value holds, as plain mathematical values.
pub enum ValueView {
    Int(i64),
    Float(u64),
    BigInt(Seq<char>),
    Decimal(Seq<char>),
    Str(Seq<char>),
    Bytes(Seq<u8>),
}

impl View for Value {
    type V = ValueView;

    open spec fn view(&self) -> ValueView {
        match self {
            Value::Int(v) => ValueView::Int(*v),
            Value::Float(v) => ValueView::Float(*v),
            Value::BigInt(s) => ValueView::BigInt(s@),
            Value::Decimal(s) => ValueView::Decimal(s@),
            Value::Str(s) => ValueView::Str(s@),
            Value::Bytes(b) => ValueView::Bytes(b@),
        }
    }
}

impl Clone for Value {
    fn clone(&self) -> (r: Value)
        ensures
            r@ == self@,
    {
        match self {
            Value::Int(v) => Value::Int(*v),
            Value::Float(v) => Value::Float(*v),
            Value::BigInt(s) => Value::BigInt(s.clone()),
            Value::Decimal(s) => Value::Decimal(s.clone()),
            Value::Str(s) => Value::Str(s.clone()),
            Value::Bytes(b) => {
                let c = b.clone();
                proof {
                    assert(c@ =~= b@);
                }
                Value::Bytes(c)
            },
        }
    }
}

/// One token of the input: its kind, its text, its decoded value and where it stands.
#[derive(Debug, PartialEq, Eq)]
pub struct Terminal {
    pub kind: Kind,
    pub text: String,
    pub value: Option<Value>,
    pub span: Span,
}

/// A token as plain mathematical values.
pub struct TerminalView {
    pub kind: Kind,
    pub text: Seq<char>,
    pub value: Option<ValueView>,
    pub span: Span,
}

impl View for Terminal {
    type V = TerminalView;

    open spec fn view(&self) -> TerminalView {
        TerminalView {
            kind: self.kind,
            text: self.text@,
            value: match self.value {
                Some(v) => Some(v@),
                None => None,
            },
            span: self.span,
        }
    }
}

impl Clone for Terminal {
    fn clone(&self) -> (r: Terminal)
        ensures
            r@ == self@,
    {
        let value = match &self.value {
            Some(v) => Some(v.clone()),
            None => None,
        };
        Terminal { kind: self.kind, text: self.text.clone(), value, span: self.span }
    }
}

} // verus!
