//! Core of a language-tooling backend for a small test-description DSL: it
//! maps editor cursor positions onto an already-tokenized document, classifies
//! the grammar context around the cursor, produces completion suggestions,
//! delta-encodes semantic-highlighting records, and converts compiler error
//! spans into zero-based editor ranges.
//!
//! The lexer, the parser, and the transport to the editor are external
//! collaborators: this crate receives a token sequence and error spans and
//! answers queries about them.

pub mod completion;
pub mod diagnostics;
pub mod semantic;
pub mod token;
