use lsp_core::semantic::{
    match_token_type, category_index, semantic_token_legend, update_semantic_tokens,
    HighlightCategory, SemanticToken,
};
use lsp_core::token::{to_pos, Location, Span, Token, TokenType};

fn tok(token_type: TokenType, text: &str, sl: u32, sc: u32, el: u32, ec: u32) -> Token {
    Token {
        token_type,
        text: String::from(text),
        span: Span {
            start: Location { line: sl, column: sc },
            end: Location { line: el, column: ec },
        },
    }
}

#[test]
fn to_pos_is_zero_based() {
    let span = Span {
        start: Location { line: 3, column: 7 },
        end: Location { line: 3, column: 9 },
    };
    assert_eq!(to_pos(span), (2, 6));
}

#[test]
fn same_line_delta_encoding() {
    // Two tokens on one line, category indices 1 and 4, zero-based starts
    // (0, 0) and (0, 5), lengths 3 and 2: the second start delta is the
    // column difference 5 - 0.
    let tokens = vec![
        tok(TokenType::IDENTIFIER, "abc", 1, 1, 1, 3),
        tok(TokenType::EQUALITY, "==", 1, 6, 1, 7),
    ];
    let records = update_semantic_tokens(&tokens);
    assert_eq!(
        records,
        vec![
            SemanticToken {
                delta_line: 0,
                delta_start: 0,
                length: 3,
                token_type: 1,
                token_modifiers_bitset: 0,
            },
            SemanticToken {
                delta_line: 0,
                delta_start: 5,
                length: 2,
                token_type: 4,
                token_modifiers_bitset: 0,
            },
        ]
    );
}

#[test]
fn cross_line_start_delta_is_absolute_column() {
    // When the line changes, the start delta is the new token's absolute
    // zero-based column — not its absolute line number, which a flawed
    // encoder would emit here (the column 3 differs from the line 1).
    let tokens = vec![
        tok(TokenType::IDENTIFIER, "abc", 1, 1, 1, 3),
        tok(TokenType::NUMBER, "42", 2, 4, 2, 5),
    ];
    let records = update_semantic_tokens(&tokens);
    assert_eq!(records[1].delta_line, 1);
    assert_eq!(records[1].delta_start, 3);
    assert_eq!(records[1].length, 2);
    assert_eq!(records[1].token_type, 0);
}

#[test]
fn empty_token_sequence_encodes_to_nothing() {
    let tokens: Vec<Token> = Vec::new();
    assert!(update_semantic_tokens(&tokens).is_empty());
}

#[test]
fn modifiers_bitset_is_always_zero() {
    let tokens = vec![
        tok(TokenType::TESTCASE, "TESTCASE", 1, 1, 1, 8),
        tok(TokenType::NAVIGATE, "NAVIGATE", 2, 1, 2, 8),
        tok(TokenType::STRING, "\"x\"", 2, 10, 2, 12),
    ];
    for record in update_semantic_tokens(&tokens) {
        assert_eq!(record.token_modifiers_bitset, 0);
    }
}

#[test]
fn category_mapping_matches_legend() {
    assert_eq!(category_index(match_token_type(&tok(TokenType::NUMBER, "1", 1, 1, 1, 1))), 0);
    assert_eq!(category_index(match_token_type(&tok(TokenType::IDENTIFIER, "x", 1, 1, 1, 1))), 1);
    assert_eq!(category_index(match_token_type(&tok(TokenType::IF, "IF", 1, 1, 1, 2))), 2);
    assert_eq!(category_index(match_token_type(&tok(TokenType::STRING, "\"s\"", 1, 1, 1, 3))), 3);
    assert_eq!(category_index(match_token_type(&tok(TokenType::PLUS, "+", 1, 1, 1, 1))), 4);
    assert_eq!(category_index(match_token_type(&tok(TokenType::NAVIGATE, "NAVIGATE", 1, 1, 1, 8))), 6);
    assert_eq!(category_index(match_token_type(&tok(TokenType::ELEMENT, "ELEMENT", 1, 1, 1, 7))), 7);
    assert_eq!(category_index(match_token_type(&tok(TokenType::TESTSTEPS, "TESTSTEPS", 1, 1, 1, 9))), 8);
    assert_eq!(category_index(match_token_type(&tok(TokenType::EOF, "", 1, 1, 1, 1))), 10);
}

#[test]
fn legend_indices_are_distinct_and_in_range() {
    let categories = [
        HighlightCategory::Number,
        HighlightCategory::Variable,
        HighlightCategory::Keyword,
        HighlightCategory::StringLit,
        HighlightCategory::Operator,
        HighlightCategory::Comment,
        HighlightCategory::Function,
        HighlightCategory::Parameter,
        HighlightCategory::Type,
        HighlightCategory::Property,
    ];
    let legend = semantic_token_legend();
    let mut seen: Vec<u32> = Vec::new();
    for c in categories {
        let i = category_index(c);
        assert!((i as usize) < legend.len());
        assert!(!seen.contains(&i));
        seen.push(i);
    }
}

#[test]
fn published_legend_duplicates_parameter_entry() {
    let legend = semantic_token_legend();
    assert_eq!(legend.len(), 11);
    assert_eq!(legend[7], "parameter");
    assert_eq!(legend[9], "parameter");
    assert_eq!(legend[10], "property");
    // The encoder only ever emits the first parameter entry.
    assert_eq!(category_index(HighlightCategory::Parameter), 7);
}
