use vstd::prelude::*;
use vstd::string::StringExecFns;

use core::cmp::Ordering;

use crate::token::{
    end_char0, end_line0, tokens_wf, wf_token, Position, Token, TokenType,
};

verus! {

/// Orders a token's end position against a cursor position, both taken in
/// zero-based editor coordinates: the result says whether the token ends
/// before, at, or after the cursor.
pub open spec fn cmp_token_end(t: Token, p: Position) -> Ordering {
    if end_line0(t) == p.line {
        if end_char0(t) == p.character {
            Ordering::Equal
        } else if end_char0(t) < p.character {
            Ordering::Less
        } else {
            Ordering::Greater
        }
    } else if end_line0(t) < p.line {
        Ordering::Less
    } else {
        Ordering::Greater
    }
}

/// The token ends strictly before the cursor.
pub open spec fn ends_before(t: Token, p: Position) -> bool {
    cmp_token_end(t, p) == Ordering::Less
}

/// End positions compared lexicographically: `a` ends no later than `b`.
pub open spec fn end_le(a: Token, b: Token) -> bool {
    end_line0(a) < end_line0(b) || (end_line0(a) == end_line0(b) && end_char0(a) <= end_char0(b))
}

/// The token sequence is monotonically non-decreasing in end position, the
/// invariant binary search depends on. It is guaranteed by construction —
/// the lexer appends tokens in lexical order — not checked at run time.
pub open spec fn tokens_monotonic(s: Seq<Token>) -> bool {
    forall|i: int, j: int| 0 <= i <= j < s.len() ==> end_le(s[i], s[j])
}

/// The index where the cursor sits in the token sequence: the index of the
/// first token that ends at or after the cursor, which is the sequence length
/// when every token ends strictly before it.
pub open spec fn located_index(s: Seq<Token>, p: Position) -> int
    decreases s.len(),
{
    if s.len() == 0 {
        0
    } else if !ends_before(s[0], p) {
        0
    } else {
        1 + located_index(s.drop_first(), p)
    }
}

pub proof fn lemma_located_index_bounds(s: Seq<Token>, p: Position)
    ensures
        0 <= located_index(s, p) <= s.len(),
        forall|j: int| 0 <= j < located_index(s, p) ==> ends_before(#[trigger] s[j], p),
    decreases s.len(),
{
    if s.len() > 0 && ends_before(s[0], p) {
        lemma_located_index_bounds(s.drop_first(), p);
        assert forall|j: int| 0 <= j < located_index(s, p) implies ends_before(
            #[trigger] s[j],
            p,
        ) by {
            if j > 0 {
                assert(s[j] == s.drop_first()[j - 1]);
            }
        }
    }
}

/// Any index that splits the sequence into tokens ending strictly before the
/// cursor and tokens ending at or after it is the located index.
pub proof fn lemma_located_index_unique(s: Seq<Token>, p: Position, i: int)
    requires
        0 <= i <= s.len(),
        forall|j: int| 0 <= j < i ==> ends_before(#[trigger] s[j], p),
        forall|j: int| i <= j < s.len() ==> !ends_before(#[trigger] s[j], p),
    ensures
        i == located_index(s, p),
    decreases s.len(),
{
    if s.len() > 0 {
        if i == 0 {
            assert(!ends_before(s[0], p));
        } else {
            assert(ends_before(s[0], p));
            assert forall|j: int| 0 <= j < i - 1 implies ends_before(
                #[trigger] s.drop_first()[j],
                p,
            ) by {
                assert(s.drop_first()[j] == s[j + 1]);
            }
            assert forall|j: int| i - 1 <= j < s.drop_first().len() implies !ends_before(
                #[trigger] s.drop_first()[j],
                p,
            ) by {
                assert(s.drop_first()[j] == s[j + 1]);
            }
            lemma_located_index_unique(s.drop_first(), p, i - 1);
        }
    }
}

/// The section markers that the backward context scan accepts.
pub open spec fn is_section_marker(t: TokenType) -> bool {
    t == TokenType::TESTSTEPS || t == TokenType::CAPABILITIES || t == TokenType::PREREQUISITE
}

/// The enclosing grammar section at `i`: the nearest section marker at a
/// position in `0 ..= i`, or `NONE` when index 0 is reached with no marker
/// found or when `i` falls outside the sequence (a malformed lookup degrades
/// to the default). The scan examines index 0 itself, so a marker that roots
/// the document resolves its own section.
pub open spec fn section_context(s: Seq<Token>, i: int) -> TokenType
    decreases i + 1,
{
    if i < 0 || i >= s.len() {
        TokenType::NONE
    } else if is_section_marker(s[i].token_type) {
        s[i].token_type
    } else {
        section_context(s, i - 1)
    }
}

/// The document's top-level kind: the first token's category, or `NONE` for
/// an empty sequence.
pub open spec fn top_level_kind(s: Seq<Token>) -> TokenType {
    if s.len() == 0 {
        TokenType::NONE
    } else {
        s[0].token_type
    }
}

/// The top-level kinds with section structure: a test-case document holds
/// sections, and a document rooted at a section marker opens that section
/// itself. Every other kind — a test plan, a test suite — has no nested
/// sections.
pub open spec fn supports_sections(t: TokenType) -> bool {
    t == TokenType::TESTCASE || is_section_marker(t)
}

/// The grammar context for a cursor located at index `i`: a top-level kind
/// without section structure yields `NONE` with no backward scan at all.
pub open spec fn context_for(s: Seq<Token>, filetype: TokenType, i: int) -> TokenType {
    if supports_sections(filetype) {
        section_context(s, i)
    } else {
        TokenType::NONE
    }
}

/// A completion suggestion: a label and a short informational detail, nothing
/// more — no ranking, no text edits, no documentation payload.
#[derive(Debug, PartialEq, Eq)]
pub struct CompletionItem {
    pub label: String,
    pub detail: String,
}

impl View for CompletionItem {
    type V = (Seq<char>, Seq<char>);

    open spec fn view(&self) -> (Seq<char>, Seq<char>) {
        (self.label@, self.detail@)
    }
}

pub open spec fn item_views(s: Seq<CompletionItem>) -> Seq<(Seq<char>, Seq<char>)> {
    s.map_values(|c: CompletionItem| c@)
}

/// The closed vocabulary of recognized capability keys, offered at the start
/// of a capability declaration.
pub open spec fn capability_key_items() -> Seq<(Seq<char>, Seq<char>)> {
    seq![("BROWSER"@, "Capability"@), ("URL"@, "Capability"@)]
}

/// The enumerated value domain of the browser-choice capability, each detail
/// naming the domain.
pub open spec fn browser_value_items() -> Seq<(Seq<char>, Seq<char>)> {
    seq![("chrome"@, "BROWSER"@), ("firefox"@, "BROWSER"@), ("safari"@, "BROWSER"@)]
}

/// Resolves a key identifier against the capability vocabulary: the key's
/// enumerated value domain, or empty when the key is unknown or its domain
/// has no enumerated values.
pub open spec fn value_domain_items(name: Seq<char>) -> Seq<(Seq<char>, Seq<char>)> {
    if name == "BROWSER"@ {
        browser_value_items()
    } else {
        Seq::empty()
    }
}

/// Suggestions inside a capabilities section for a cursor located at `i`:
/// after an assignment operator the value domain of the key two positions
/// back; after a newline — or any other token, treated as the start of a key
/// by default — the full key vocabulary. Out-of-range lookups are legitimate
/// near the document start and yield the empty list.
pub open spec fn capability_completions(s: Seq<Token>, i: int) -> Seq<(Seq<char>, Seq<char>)> {
    if 1 <= i <= s.len() {
        if s[i - 1].token_type == TokenType::ASSIGN_OP {
            if i >= 2 && s[i - 2].token_type == TokenType::IDENTIFIER {
                value_domain_items(s[i - 2].text@)
            } else {
                Seq::empty()
            }
        } else {
            capability_key_items()
        }
    } else {
        Seq::empty()
    }
}

/// The full completion pipeline: locate the cursor, classify the context,
/// and dispatch. Only the capabilities context defines suggestions; every
/// other context yields the empty list.
pub open spec fn completions(s: Seq<Token>, p: Position) -> Seq<(Seq<char>, Seq<char>)> {
    let i = located_index(s, p);
    if context_for(s, top_level_kind(s), i) == TokenType::CAPABILITIES {
        capability_completions(s, i)
    } else {
        Seq::empty()
    }
}

/// Answers cursor queries against one immutable token snapshot.
pub struct IntelliSense {
    tokens: Vec<Token>,
    position: Position,
}

impl IntelliSense {
    pub closed spec fn tokens_view(&self) -> Seq<Token> {
        self.tokens@
    }

    pub closed spec fn position_view(&self) -> Position {
        self.position
    }

    /// The snapshot the queries rely on: well-formed spans and end positions
    /// non-decreasing in lexical order.
    pub open spec fn wf(&self) -> bool {
        tokens_wf(self.tokens_view()) && tokens_monotonic(self.tokens_view())
    }

    pub fn new(tokens: &Vec<Token>, position: &Position) -> (r: IntelliSense)
        requires
            tokens_wf(tokens@),
            tokens_monotonic(tokens@),
        ensures
            r.wf(),
            r.tokens_view() == tokens@,
            r.position_view() == *position,
    {
        let owned = tokens.clone();
        proof {
            assert forall|i: int| 0 <= i < tokens@.len() implies owned@[i] == tokens@[i] by {
                assert(cloned::<Token>(tokens@[i], owned@[i]));
            }
            assert(owned@ =~= tokens@);
        }
        IntelliSense { tokens: owned, position: *position }
    }

    /// Orders a token's end position against the cursor, after converting the
    /// one-based span coordinates to the zero-based editor convention.
    pub fn token_comparator(&self, token: &Token) -> (r: Ordering)
        requires
            wf_token(*token),
        ensures
            r == cmp_token_end(*token, self.position_view()),
    {
        let token_end_line = token.get_end_location().line - 1;
        let token_end_column = token.get_end_location().column - 1;
        if token_end_line == self.position.line {
            if token_end_column == self.position.character {
                Ordering::Equal
            } else if token_end_column < self.position.character {
                Ordering::Less
            } else {
                Ordering::Greater
            }
        } else if token_end_line < self.position.line {
            Ordering::Less
        } else {
            Ordering::Greater
        }
    }

    /// Binary search for the cursor: the returned index splits the sequence
    /// into tokens ending strictly before the cursor and tokens ending at or
    /// after it, so an exact match is found at the returned index itself.
    fn locate(&self) -> (i: usize)
        requires
            self.wf(),
        ensures
            i <= self.tokens_view().len(),
            forall|j: int| 0 <= j < i ==> ends_before(#[trigger] self.tokens_view()[j], self.position_view()),
            forall|j: int|
                i <= j < self.tokens_view().len() ==> !ends_before(
                    #[trigger] self.tokens_view()[j],
                    self.position_view(),
                ),
            i == located_index(self.tokens_view(), self.position_view()),
    {
        let ghost s = self.tokens@;
        let ghost p = self.position;
        let mut lo: usize = 0;
        let mut hi: usize = self.tokens.len();
        while lo < hi
            invariant
                lo <= hi <= s.len(),
                self.wf(),
                s == self.tokens@,
                p == self.position,
                forall|j: int| 0 <= j < lo ==> ends_before(#[trigger] s[j], p),
                forall|j: int| hi <= j < s.len() ==> !ends_before(#[trigger] s[j], p),
            decreases hi - lo,
        {
            let mid = lo + (hi - lo) / 2;
            let cmp = self.token_comparator(&self.tokens[mid]);
            if matches!(cmp, Ordering::Less) {
                assert forall|j: int| 0 <= j < mid + 1 implies ends_before(#[trigger] s[j], p) by {
                    if j < lo {
                    } else {
                        assert(end_le(s[j], s[mid as int]));
                    }
                }
                lo = mid + 1;
            } else {
                assert forall|j: int| mid <= j < s.len() implies !ends_before(#[trigger] s[j], p) by {
                    if j >= hi {
                    } else {
                        assert(end_le(s[mid as int], s[j]));
                    }
                }
                hi = mid;
            }
        }
        proof {
            lemma_located_index_unique(s, p, lo as int);
        }
        lo
    }

    /// Backward scan from `index` toward index 0 inclusive, stopping at the
    /// first section marker. An index outside the sequence yields `NONE`.
    fn get_testcase_high_level_token(&self, index: usize) -> (t: TokenType)
        ensures
            t == section_context(self.tokens_view(), index as int),
    {
        if index >= self.tokens.len() {
            return TokenType::NONE;
        }
        let ghost s = self.tokens@;
        let mut i: usize = index;
        while i > 0
            invariant
                0 <= i <= index < s.len(),
                s == self.tokens@,
                section_context(s, index as int) == section_context(s, i as int),
            decreases i,
        {
            let t = self.tokens[i].get_token_type();
            if matches!(
                t,
                TokenType::TESTSTEPS | TokenType::CAPABILITIES | TokenType::PREREQUISITE
            ) {
                return t;
            }
            i = i - 1;
        }
        let t = self.tokens[0].get_token_type();
        proof {
            assert(section_context(s, -1) == TokenType::NONE);
        }
        if matches!(
            t,
            TokenType::TESTSTEPS | TokenType::CAPABILITIES | TokenType::PREREQUISITE
        ) {
            t
        } else {
            TokenType::NONE
        }
    }

    /// Dispatches the context scan on the document's top-level kind: kinds
    /// without nested sections yield `NONE` with no scan at all.
    fn get_highlevel_token(&self, filetype: TokenType, index: usize) -> (t: TokenType)
        ensures
            t == context_for(self.tokens_view(), filetype, index as int),
            !supports_sections(filetype) ==> t == TokenType::NONE,
    {
        match filetype {
            TokenType::TESTCASE
            | TokenType::TESTSTEPS
            | TokenType::CAPABILITIES
            | TokenType::PREREQUISITE => self.get_testcase_high_level_token(index),
            _ => TokenType::NONE,
        }
    }

    /// Locates the cursor and resolves both the document's top-level kind and
    /// the enclosing grammar context, packaged together so callers scan only
    /// once. An empty snapshot yields index 0 and `NONE` twice.
    pub fn get_highlevel_and_filetype_token(&self) -> (r: (usize, TokenType, TokenType))
        requires
            self.wf(),
        ensures
            r.0 == located_index(self.tokens_view(), self.position_view()),
            r.0 <= self.tokens_view().len(),
            forall|j: int|
                0 <= j < r.0 ==> ends_before(#[trigger] self.tokens_view()[j], self.position_view()),
            forall|j: int|
                r.0 <= j < self.tokens_view().len() ==> !ends_before(
                    #[trigger] self.tokens_view()[j],
                    self.position_view(),
                ),
            r.1 == top_level_kind(self.tokens_view()),
            r.2 == context_for(self.tokens_view(), r.1, r.0 as int),
            !supports_sections(top_level_kind(self.tokens_view())) ==> r.2 == TokenType::NONE,
    {
        let index = self.locate();
        if self.tokens.len() == 0 {
            return (index, TokenType::NONE, TokenType::NONE);
        }
        let filetype = self.tokens[0].get_token_type();
        let highlevel_token = self.get_highlevel_token(filetype, index);
        (index, filetype, highlevel_token)
    }

    /// Resolves completion suggestions for the snapshot's cursor position.
    pub fn complete(&self) -> (items: Vec<CompletionItem>)
        requires
            self.wf(),
        ensures
            item_views(items@) == completions(self.tokens_view(), self.position_view()),
    {
        let (index, _filetype, highlevel) = self.get_highlevel_and_filetype_token();
        match highlevel {
            TokenType::CAPABILITIES => self.complete_capabilities(index),
            TokenType::TESTSTEPS => self.complete_teststeps(index),
            _ => {
                let items: Vec<CompletionItem> = Vec::new();
                proof {
                    assert(item_views(items@) =~= Seq::<(Seq<char>, Seq<char>)>::empty());
                }
                items
            },
        }
    }

    /// Suggestions for the steps section. The action vocabulary and its
    /// positional validity rules are not yet specified, so no suggestions are
    /// defined here; the caller degrades to an empty list.
    fn complete_teststeps(&self, _index: usize) -> (items: Vec<CompletionItem>)
        ensures
            item_views(items@) == Seq::<(Seq<char>, Seq<char>)>::empty(),
    {
        let items: Vec<CompletionItem> = Vec::new();
        proof {
            assert(item_views(items@) =~= Seq::<(Seq<char>, Seq<char>)>::empty());
        }
        items
    }

    /// Suggestions inside a capabilities section, dispatched on the token
    /// immediately preceding the located index.
    fn complete_capabilities(&self, index: usize) -> (items: Vec<CompletionItem>)
        requires
            index <= self.tokens_view().len(),
        ensures
            item_views(items@) == capability_completions(self.tokens_view(), index as int),
    {
        if index == 0 {
            let items: Vec<CompletionItem> = Vec::new();
            proof {
                assert(item_views(items@) =~= Seq::<(Seq<char>, Seq<char>)>::empty());
            }
            return items;
        }
        let prev = self.tokens[index - 1].get_token_type();
        if matches!(prev, TokenType::ASSIGN_OP) {
            if index >= 2 {
                let key = &self.tokens[index - 2];
                if matches!(key.token_type, TokenType::IDENTIFIER) {
                    return self.complete_capability_values(key);
                }
            }
            let items: Vec<CompletionItem> = Vec::new();
            proof {
                assert(item_views(items@) =~= Seq::<(Seq<char>, Seq<char>)>::empty());
            }
            items
        } else {
            let mut items: Vec<CompletionItem> = Vec::new();
            items.push(
                CompletionItem {
                    label: String::from_str("BROWSER"),
                    detail: String::from_str("Capability"),
                },
            );
            items.push(
                CompletionItem {
                    label: String::from_str("URL"),
                    detail: String::from_str("Capability"),
                },
            );
            proof {
                assert(item_views(items@) =~= capability_key_items());
            }
            items
        }
    }

    /// Resolves the just-assigned key identifier against the capability
    /// vocabulary and offers its enumerated value domain.
    fn complete_capability_values(&self, key: &Token) -> (items: Vec<CompletionItem>)
        ensures
            item_views(items@) == value_domain_items(key.text@),
    {
        if key.text == String::from_str("BROWSER") {
            let mut items: Vec<CompletionItem> = Vec::new();
            items.push(
                CompletionItem {
                    label: String::from_str("chrome"),
                    detail: String::from_str("BROWSER"),
                },
            );
            items.push(
                CompletionItem {
                    label: String::from_str("firefox"),
                    detail: String::from_str("BROWSER"),
                },
            );
            items.push(
                CompletionItem {
                    label: String::from_str("safari"),
                    detail: String::from_str("BROWSER"),
                },
            );
            proof {
                assert(item_views(items@) =~= browser_value_items());
            }
            items
        } else {
            let items: Vec<CompletionItem> = Vec::new();
            proof {
                assert(item_views(items@) =~= Seq::<(Seq<char>, Seq<char>)>::empty());
            }
            items
        }
    }
}

/// A document whose top-level kind supports no nested sections gets context
/// `NONE` and no suggestions, wherever the cursor stands.
pub proof fn lemma_no_sections_no_context(s: Seq<Token>, p: Position)
    requires
        !supports_sections(top_level_kind(s)),
    ensures
        context_for(s, top_level_kind(s), located_index(s, p)) == TokenType::NONE,
        completions(s, p) == Seq::<(Seq<char>, Seq<char>)>::empty(),
{
}

/// A cursor located immediately after a capability key and its assignment
/// operator, inside a capabilities section, is offered exactly that key's
/// enumerated value domain — which is empty when the key is unknown or has
/// no enumerated values.
pub proof fn lemma_capability_value_completion(s: Seq<Token>, p: Position)
    requires
        supports_sections(top_level_kind(s)),
        located_index(s, p) >= 2,
        s[located_index(s, p) - 1].token_type == TokenType::ASSIGN_OP,
        s[located_index(s, p) - 2].token_type == TokenType::IDENTIFIER,
        section_context(s, located_index(s, p)) == TokenType::CAPABILITIES,
    ensures
        completions(s, p) == value_domain_items(s[located_index(s, p) - 2].text@),
{
    lemma_located_index_bounds(s, p);
}

} // verus!
