use vstd::prelude::*;

verus! {

/// A one-based line/column pair, the lexer's convention for span endpoints.
#[derive(Clone, Copy, Debug, PartialEq, Eq, Structural)]
pub struct Location {
    pub line: u32,
    pub column: u32,
}

/// Where a token or an error occurs in the source text: start and end
/// locations, both one-based and inclusive.
#[derive(Clone, Copy, Debug, PartialEq, Eq, Structural)]
pub struct Span {
    pub start: Location,
    pub end: Location,
}

/// A zero-based (line, character) pair as editors report cursor positions.
#[derive(Clone, Copy, Debug, PartialEq, Eq, Structural)]
pub struct Position {
    pub line: u32,
    pub character: u32,
}

/// The closed set of token categories the lexer produces.
#[allow(non_camel_case_types)]
#[derive(Clone, Copy, Debug, PartialEq, Eq, Structural)]
pub enum TokenType {
    NUMBER,
    STRING,
    IDENTIFIER,
    TESTCASE,
    TESTPLAN,
    TESTSUITE,
    TESTSTEPS,
    NONE,
    CAPABILITIES,
    PREREQUISITE,
    NAVIGATE,
    CLICK,
    BACK,
    FORWARD,
    REFRESH,
    GET,
    WAIT,
    ASSERT,
    ENTER,
    CLOSE,
    ATTRIBUTE,
    ELEMENT,
    URL,
    TITLE,
    CURRENT,
    IF,
    ELSE,
    TRUE,
    FALSE,
    ASSIGN_OP,
    NEGATION,
    PLUS,
    MINUS,
    MULTIPLY,
    FORWARDSLASH,
    MODULUS,
    LEFT_PARAN,
    RIGHT_PARAN,
    L_CURLY_BRACE,
    R_CURLY_BRACE,
    EQUALITY,
    NOT_EQUAL,
    GREATER_THAN,
    LESSER_THAN,
    GREATER_THAN_EQUAL_TO,
    LESSER_THAN_EQUAL_TO,
    AND,
    OR,
    FROM,
    TO,
    IN,
    NEW_LINE,
    EOF,
    ERROR,
}

/// The smallest lexical unit: a category, the rendered text (the payload for
/// literal and identifier categories, used for its length elsewhere), and the
/// source span.
#[derive(Debug)]
pub struct Token {
    pub token_type: TokenType,
    pub text: String,
    pub span: Span,
}

impl Clone for Token {
    fn clone(&self) -> (r: Token)
        ensures
            r == *self,
    {
        Token { token_type: self.token_type, text: self.text.clone(), span: self.span }
    }
}

/// A location is well formed when both coordinates respect the one-based
/// convention.
pub open spec fn wf_location(l: Location) -> bool {
    l.line >= 1 && l.column >= 1
}

pub open spec fn wf_span(s: Span) -> bool {
    wf_location(s.start) && wf_location(s.end)
}

/// A token is well formed when its span is, and its rendered text fits the
/// 32-bit lengths of the highlighting protocol.
pub open spec fn wf_token(t: Token) -> bool {
    wf_span(t.span) && t.text@.len() <= u32::MAX
}

pub open spec fn tokens_wf(s: Seq<Token>) -> bool {
    forall|i: int| 0 <= i < s.len() ==> wf_token(#[trigger] s[i])
}

impl Token {
    pub fn get_token_type(&self) -> (t: TokenType)
        ensures
            t == self.token_type,
    {
        self.token_type
    }

    pub fn get_end_location(&self) -> (l: Location)
        ensures
            l == self.span.end,
    {
        self.span.end
    }
}

/// The zero-based line a span starts on.
pub open spec fn start_line0(t: Token) -> int {
    t.span.start.line - 1
}

/// The zero-based column a span starts on.
pub open spec fn start_char0(t: Token) -> int {
    t.span.start.column - 1
}

/// The zero-based line a span ends on.
pub open spec fn end_line0(t: Token) -> int {
    t.span.end.line - 1
}

/// The zero-based column a span ends on.
pub open spec fn end_char0(t: Token) -> int {
    t.span.end.column - 1
}

/// Converts a one-based span start to the zero-based pair editors expect.
pub fn to_pos(span: Span) -> (p: (u32, u32))
    requires
        wf_span(span),
    ensures
        p.0 == span.start.line - 1,
        p.1 == span.start.column - 1,
{
    (span.start.line - 1, span.start.column - 1)
}

} // verus!
