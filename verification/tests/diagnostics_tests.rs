use lsp_core::diagnostics::{
    group_diagnostics, map_offset_span, map_span, offset_to_position, to_diagnostic,
    CompilerError, EditorRange,
};
use lsp_core::token::{Location, Position, Span};

fn span(sl: u32, sc: u32, el: u32, ec: u32) -> Span {
    Span {
        start: Location { line: sl, column: sc },
        end: Location { line: el, column: ec },
    }
}

fn err(path: &str, sp: Span, message: &str) -> CompilerError {
    CompilerError {
        source_path: String::from(path),
        span: sp,
        message: String::from(message),
    }
}

#[test]
fn one_based_span_maps_by_subtracting_one() {
    let r = map_span(span(3, 7, 3, 9));
    assert_eq!(r.start, Position { line: 2, character: 6 });
    assert_eq!(r.end, Position { line: 2, character: 8 });
    // Adding one back reproduces the original one-based pair.
    assert_eq!((r.start.line + 1, r.start.character + 1), (3, 7));
    assert_eq!((r.end.line + 1, r.end.character + 1), (3, 9));
}

#[test]
fn smallest_one_based_span_maps_to_origin() {
    let r = map_span(span(1, 1, 1, 1));
    assert_eq!(r.start, Position { line: 0, character: 0 });
    assert_eq!(r.end, Position { line: 0, character: 0 });
}

#[test]
fn byte_offsets_map_to_zero_based_positions() {
    let text = b"ab\ncd\nef";
    assert_eq!(offset_to_position(text, 0), Position { line: 0, character: 0 });
    assert_eq!(offset_to_position(text, 2), Position { line: 0, character: 2 });
    assert_eq!(offset_to_position(text, 3), Position { line: 1, character: 0 });
    assert_eq!(offset_to_position(text, 4), Position { line: 1, character: 1 });
    assert_eq!(offset_to_position(text, 7), Position { line: 2, character: 1 });
}

#[test]
fn byte_offset_past_end_degrades_to_last_position() {
    let text = b"ab\ncd";
    assert_eq!(offset_to_position(text, 100), Position { line: 1, character: 2 });
    assert_eq!(offset_to_position(text, 5), Position { line: 1, character: 2 });
}

#[test]
fn byte_offset_range_maps_both_ends() {
    let text = b"ab\ncd\nef";
    let r = map_offset_span(text, 1, 4);
    assert_eq!(
        r,
        EditorRange {
            start: Position { line: 0, character: 1 },
            end: Position { line: 1, character: 1 },
        }
    );
}

#[test]
fn diagnostic_keeps_message_and_maps_range() {
    let e = err("file:///a.ll", span(2, 3, 2, 8), "unexpected token");
    let d = to_diagnostic(&e);
    assert_eq!(d.message, "unexpected token");
    assert_eq!(d.range.start, Position { line: 1, character: 2 });
    assert_eq!(d.range.end, Position { line: 1, character: 7 });
}

#[test]
fn diagnostics_group_by_attributed_file() {
    // A single compilation may attribute errors to files other than the one
    // edited; groups appear in order of first attribution and keep report
    // order within each file.
    let errors = vec![
        err("file:///a.ll", span(1, 1, 1, 2), "first in a"),
        err("file:///b.ll", span(2, 1, 2, 2), "first in b"),
        err("file:///a.ll", span(3, 1, 3, 2), "second in a"),
    ];
    let groups = group_diagnostics(&errors);
    assert_eq!(groups.len(), 2);
    assert_eq!(groups[0].file, "file:///a.ll");
    assert_eq!(groups[0].diagnostics.len(), 2);
    assert_eq!(groups[0].diagnostics[0].message, "first in a");
    assert_eq!(groups[0].diagnostics[1].message, "second in a");
    assert_eq!(groups[0].diagnostics[1].range.start, Position { line: 2, character: 0 });
    assert_eq!(groups[1].file, "file:///b.ll");
    assert_eq!(groups[1].diagnostics.len(), 1);
    assert_eq!(groups[1].diagnostics[0].message, "first in b");
}

#[test]
fn empty_error_list_groups_to_nothing() {
    let errors: Vec<CompilerError> = Vec::new();
    assert!(group_diagnostics(&errors).is_empty());
}
