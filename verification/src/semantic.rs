use vstd::prelude::*;
use vstd::string::StringExecFns;

use crate::token::{
    start_char0, start_line0, tokens_wf, Token, TokenType,
};

verus! {

/// The highlight categories of the published legend. Every token category
/// maps to exactly one of them.
#[derive(Clone, Copy, Debug, PartialEq, Eq, Structural)]
pub enum HighlightCategory {
    Number,
    Variable,
    Keyword,
    StringLit,
    Operator,
    Comment,
    Function,
    Parameter,
    Type,
    Property,
}

/// One delta-encoded highlight record: four integers relative to the
/// previously emitted token plus a modifier bitset, always zero here since no
/// modifier vocabulary is defined.
#[derive(Clone, Copy, Debug, PartialEq, Eq, Structural)]
pub struct SemanticToken {
    pub delta_line: u32,
    pub delta_start: u32,
    pub length: u32,
    pub token_type: u32,
    pub token_modifiers_bitset: u32,
}

/// The number of entries in the published legend.
pub const LEGEND_LEN: u32 = 11;

/// The total mapping from token category to highlight category: literals and
/// identifiers keep their own kinds, section and top-level markers highlight
/// as types, action verbs as functions, argument keywords as parameters,
/// control keywords as keywords, all operators as operators, and a small
/// miscellaneous set — connector words, newlines, end-of-file, error tokens —
/// as properties.
pub open spec fn category_of(t: TokenType) -> HighlightCategory {
    match t {
        TokenType::NUMBER => HighlightCategory::Number,
        TokenType::STRING => HighlightCategory::StringLit,
        TokenType::IDENTIFIER => HighlightCategory::Variable,
        TokenType::TESTCASE
        | TokenType::TESTPLAN
        | TokenType::TESTSUITE
        | TokenType::TESTSTEPS
        | TokenType::NONE
        | TokenType::CAPABILITIES
        | TokenType::PREREQUISITE => HighlightCategory::Type,
        TokenType::NAVIGATE
        | TokenType::CLICK
        | TokenType::BACK
        | TokenType::FORWARD
        | TokenType::REFRESH
        | TokenType::GET
        | TokenType::WAIT
        | TokenType::ASSERT
        | TokenType::ENTER
        | TokenType::CLOSE => HighlightCategory::Function,
        TokenType::ATTRIBUTE
        | TokenType::ELEMENT
        | TokenType::URL
        | TokenType::TITLE
        | TokenType::CURRENT => HighlightCategory::Parameter,
        TokenType::IF | TokenType::ELSE | TokenType::TRUE | TokenType::FALSE => HighlightCategory::Keyword,
        TokenType::ASSIGN_OP
        | TokenType::NEGATION
        | TokenType::PLUS
        | TokenType::MINUS
        | TokenType::MULTIPLY
        | TokenType::FORWARDSLASH
        | TokenType::MODULUS
        | TokenType::LEFT_PARAN
        | TokenType::RIGHT_PARAN
        | TokenType::L_CURLY_BRACE
        | TokenType::R_CURLY_BRACE
        | TokenType::EQUALITY
        | TokenType::NOT_EQUAL
        | TokenType::GREATER_THAN
        | TokenType::LESSER_THAN
        | TokenType::GREATER_THAN_EQUAL_TO
        | TokenType::LESSER_THAN_EQUAL_TO
        | TokenType::AND
        | TokenType::OR => HighlightCategory::Operator,
        TokenType::FROM | TokenType::TO | TokenType::IN | TokenType::NEW_LINE | TokenType::EOF
        | TokenType::ERROR => HighlightCategory::Property,
    }
}

/// The index of a highlight category in the published legend. The legend
/// carries a duplicate parameter entry at index 9, so the property entry
/// stands at index 10 and index 9 is never emitted.
pub open spec fn legend_index(c: HighlightCategory) -> u32 {
    match c {
        HighlightCategory::Number => 0,
        HighlightCategory::Variable => 1,
        HighlightCategory::Keyword => 2,
        HighlightCategory::StringLit => 3,
        HighlightCategory::Operator => 4,
        HighlightCategory::Comment => 5,
        HighlightCategory::Function => 6,
        HighlightCategory::Parameter => 7,
        HighlightCategory::Type => 8,
        HighlightCategory::Property => 10,
    }
}

/// The legend mapping is injective: two different highlight categories never
/// share a legend index.
pub proof fn lemma_legend_injective(a: HighlightCategory, b: HighlightCategory)
    requires
        a != b,
    ensures
        legend_index(a) != legend_index(b),
{
}

/// Every emitted legend index lies inside the published legend.
pub proof fn lemma_legend_in_range(c: HighlightCategory)
    ensures
        legend_index(c) < LEGEND_LEN,
{
}

/// Maps a token to its highlight category.
pub fn match_token_type(token: &Token) -> (c: HighlightCategory)
    ensures
        c == category_of(token.token_type),
{
    match token.token_type {
        TokenType::NUMBER => HighlightCategory::Number,
        TokenType::STRING => HighlightCategory::StringLit,
        TokenType::IDENTIFIER => HighlightCategory::Variable,
        TokenType::TESTCASE
        | TokenType::TESTPLAN
        | TokenType::TESTSUITE
        | TokenType::TESTSTEPS
        | TokenType::NONE
        | TokenType::CAPABILITIES
        | TokenType::PREREQUISITE => HighlightCategory::Type,
        TokenType::NAVIGATE
        | TokenType::CLICK
        | TokenType::BACK
        | TokenType::FORWARD
        | TokenType::REFRESH
        | TokenType::GET
        | TokenType::WAIT
        | TokenType::ASSERT
        | TokenType::ENTER
        | TokenType::CLOSE => HighlightCategory::Function,
        TokenType::ATTRIBUTE
        | TokenType::ELEMENT
        | TokenType::URL
        | TokenType::TITLE
        | TokenType::CURRENT => HighlightCategory::Parameter,
        TokenType::IF | TokenType::ELSE | TokenType::TRUE | TokenType::FALSE => HighlightCategory::Keyword,
        TokenType::ASSIGN_OP
        | TokenType::NEGATION
        | TokenType::PLUS
        | TokenType::MINUS
        | TokenType::MULTIPLY
        | TokenType::FORWARDSLASH
        | TokenType::MODULUS
        | TokenType::LEFT_PARAN
        | TokenType::RIGHT_PARAN
        | TokenType::L_CURLY_BRACE
        | TokenType::R_CURLY_BRACE
        | TokenType::EQUALITY
        | TokenType::NOT_EQUAL
        | TokenType::GREATER_THAN
        | TokenType::LESSER_THAN
        | TokenType::GREATER_THAN_EQUAL_TO
        | TokenType::LESSER_THAN_EQUAL_TO
        | TokenType::AND
        | TokenType::OR => HighlightCategory::Operator,
        TokenType::FROM | TokenType::TO | TokenType::IN | TokenType::NEW_LINE | TokenType::EOF
        | TokenType::ERROR => HighlightCategory::Property,
    }
}

/// The category index in the published legend, as the encoder emits it.
pub fn category_index(c: HighlightCategory) -> (i: u32)
    ensures
        i == legend_index(c),
{
    match c {
        HighlightCategory::Number => 0,
        HighlightCategory::Variable => 1,
        HighlightCategory::Keyword => 2,
        HighlightCategory::StringLit => 3,
        HighlightCategory::Operator => 4,
        HighlightCategory::Comment => 5,
        HighlightCategory::Function => 6,
        HighlightCategory::Parameter => 7,
        HighlightCategory::Type => 8,
        HighlightCategory::Property => 10,
    }
}

/// Start positions compared lexicographically: `a` starts no later than `b`.
pub open spec fn start_le(a: Token, b: Token) -> bool {
    start_line0(a) < start_line0(b) || (start_line0(a) == start_line0(b) && start_char0(a)
        <= start_char0(b))
}

/// Tokens appear in lexical order, so start positions are non-decreasing —
/// the delta encoding depends on this to stay non-negative.
pub open spec fn starts_monotonic(s: Seq<Token>) -> bool {
    forall|i: int, j: int| 0 <= i <= j < s.len() ==> start_le(s[i], s[j])
}

/// The delta-encoded highlight stream for the tokens of `s`, with `(pl, pc)`
/// the previously emitted token's zero-based start position. The line delta
/// is relative; the start delta is relative on the same line and the absolute
/// column when the line changes.
pub open spec fn encode_from(s: Seq<Token>, pl: int, pc: int) -> Seq<SemanticToken>
    decreases s.len(),
{
    if s.len() == 0 {
        Seq::empty()
    } else {
        let t = s[0];
        seq![record_for(t, pl, pc)] + encode_from(s.drop_first(), start_line0(t), start_char0(t))
    }
}

/// One highlight record relative to the previous start position.
pub open spec fn record_for(t: Token, pl: int, pc: int) -> SemanticToken {
    SemanticToken {
        delta_line: (start_line0(t) - pl) as u32,
        delta_start: if start_line0(t) == pl {
            (start_char0(t) - pc) as u32
        } else {
            start_char0(t) as u32
        },
        length: t.text@.len() as u32,
        token_type: legend_index(category_of(t.token_type)),
        token_modifiers_bitset: 0,
    }
}

/// The whole highlight stream, starting from the origin.
pub open spec fn encode_spec(s: Seq<Token>) -> Seq<SemanticToken> {
    encode_from(s, 0, 0)
}

/// Emits one highlight record per token, in lexical order, in a single
/// forward sweep.
pub fn update_semantic_tokens(tokens: &Vec<Token>) -> (result: Vec<SemanticToken>)
    requires
        tokens_wf(tokens@),
        starts_monotonic(tokens@),
    ensures
        result@ == encode_spec(tokens@),
{
    let ghost s = tokens@;
    let mut result: Vec<SemanticToken> = Vec::new();
    let mut last_line: u32 = 0;
    let mut last_col: u32 = 0;
    let mut idx: usize = 0;
    proof {
        assert(s.skip(0) =~= s);
        assert(Seq::<SemanticToken>::empty() + encode_from(s, 0, 0) =~= encode_from(s, 0, 0));
    }
    while idx < tokens.len()
        invariant
            idx <= s.len(),
            s == tokens@,
            tokens_wf(s),
            starts_monotonic(s),
            idx == 0 ==> last_line == 0 && last_col == 0,
            idx > 0 ==> last_line == start_line0(s[idx - 1]) && last_col == start_char0(
                s[idx - 1],
            ),
            encode_spec(s) == result@ + encode_from(s.skip(idx as int), last_line as int, last_col as int),
        decreases s.len() - idx,
    {
        let token = &tokens[idx];
        proof {
            if idx > 0 {
                assert(start_le(s[idx - 1], s[idx as int]));
            }
        }
        let pos = crate::token::to_pos(token.span);
        let stt = category_index(match_token_type(token));
        let len = token.text.unicode_len() as u32;
        let semantic_token = SemanticToken {
            delta_line: pos.0 - last_line,
            delta_start: if pos.0 == last_line {
                pos.1 - last_col
            } else {
                pos.1
            },
            length: len,
            token_type: stt,
            token_modifiers_bitset: 0,
        };
        proof {
            assert(semantic_token == record_for(s[idx as int], last_line as int, last_col as int));
            assert(s.skip(idx as int).drop_first() =~= s.skip(idx as int + 1));
            assert(s.skip(idx as int)[0] == s[idx as int]);
        }
        let ghost result_before = result@;
        result.push(semantic_token);
        proof {
            assert(result@ + encode_from(
                s.skip(idx as int + 1),
                start_line0(s[idx as int]),
                start_char0(s[idx as int]),
            ) =~= result_before + encode_from(
                s.skip(idx as int),
                last_line as int,
                last_col as int,
            ));
        }
        last_line = pos.0;
        last_col = pos.1;
        idx = idx + 1;
    }
    proof {
        assert(s.skip(s.len() as int) =~= Seq::<Token>::empty());
        assert(result@ + Seq::<SemanticToken>::empty() =~= result@);
    }
    result
}

/// The published legend: the ordered highlight category names the client is
/// told about once at session start. The parameter entry appears twice; the
/// encoder only ever uses the first occurrence, at index 7.
pub fn semantic_token_legend() -> (legend: Vec<String>)
    ensures
        legend@.len() == LEGEND_LEN,
        legend@[0]@ == "number"@,
        legend@[1]@ == "variable"@,
        legend@[2]@ == "keyword"@,
        legend@[3]@ == "string"@,
        legend@[4]@ == "operator"@,
        legend@[5]@ == "comment"@,
        legend@[6]@ == "function"@,
        legend@[7]@ == "parameter"@,
        legend@[8]@ == "type"@,
        legend@[9]@ == "parameter"@,
        legend@[10]@ == "property"@,
{
    let mut legend: Vec<String> = Vec::new();
    legend.push(String::from_str("number"));
    legend.push(String::from_str("variable"));
    legend.push(String::from_str("keyword"));
    legend.push(String::from_str("string"));
    legend.push(String::from_str("operator"));
    legend.push(String::from_str("comment"));
    legend.push(String::from_str("function"));
    legend.push(String::from_str("parameter"));
    legend.push(String::from_str("type"));
    legend.push(String::from_str("parameter"));
    legend.push(String::from_str("property"));
    legend
}

} // verus!
