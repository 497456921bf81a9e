use vstd::prelude::*;

use crate::token::{wf_span, Position, Span};

verus! {

/// One error record as the compiler front-end reports it: the file the error
/// is attributed to — not necessarily the file being edited — a one-based
/// span, and a message.
#[derive(Debug)]
pub struct CompilerError {
    pub source_path: String,
    pub span: Span,
    pub message: String,
}

/// A zero-based start/end range suitable for editor display.
#[derive(Clone, Copy, Debug, PartialEq, Eq, Structural)]
pub struct EditorRange {
    pub start: Position,
    pub end: Position,
}

/// A mapped diagnostic: a zero-based range and the compiler's message.
#[derive(Debug, PartialEq, Eq)]
pub struct Diagnostic {
    pub range: EditorRange,
    pub message: String,
}

/// All diagnostics attributed to one source file, published together.
#[derive(Debug)]
pub struct FileDiagnostics {
    pub file: String,
    pub diagnostics: Vec<Diagnostic>,
}

/// The line/column variant of the mapping: one-based coordinates become
/// zero-based by subtracting one from each.
pub open spec fn range_spec(span: Span) -> EditorRange {
    EditorRange {
        start: Position {
            line: (span.start.line - 1) as u32,
            character: (span.start.column - 1) as u32,
        },
        end: Position { line: (span.end.line - 1) as u32, character: (span.end.column - 1) as u32 },
    }
}

pub open spec fn diagnostic_spec(e: CompilerError) -> Diagnostic {
    Diagnostic { range: range_spec(e.span), message: e.message }
}

/// Converts a compiler span to a zero-based editor range.
pub fn map_span(span: Span) -> (r: EditorRange)
    requires
        wf_span(span),
    ensures
        r == range_spec(span),
{
    EditorRange {
        start: Position { line: span.start.line - 1, character: span.start.column - 1 },
        end: Position { line: span.end.line - 1, character: span.end.column - 1 },
    }
}

/// Maps one compiler error to its published diagnostic.
pub fn to_diagnostic(e: &CompilerError) -> (d: Diagnostic)
    requires
        wf_span(e.span),
    ensures
        d == diagnostic_spec(*e),
{
    Diagnostic { range: map_span(e.span), message: e.message.clone() }
}

/// Mapping a one-based span and adding one back reproduces the original
/// coordinates: the mapped range is zero-based exactly, and never negative —
/// whichever input variant produced it, the result type carries no sign.
pub proof fn lemma_range_round_trip(span: Span)
    requires
        wf_span(span),
    ensures
        range_spec(span).start.line + 1 == span.start.line,
        range_spec(span).start.character + 1 == span.start.column,
        range_spec(span).end.line + 1 == span.end.line,
        range_spec(span).end.character + 1 == span.end.column,
{
}

/// The number of newline bytes among the first `off` bytes of the text.
pub open spec fn newline_count(text: Seq<u8>, off: int) -> int
    decreases off,
{
    if off <= 0 {
        0
    } else {
        newline_count(text, off - 1) + if text[off - 1] == 10 {
            1int
        } else {
            0int
        }
    }
}

/// The byte offset where the line containing offset `off` starts: just past
/// the last newline among the first `off` bytes, or 0 on the first line.
pub open spec fn line_start(text: Seq<u8>, off: int) -> int
    decreases off,
{
    if off <= 0 {
        0
    } else if text[off - 1] == 10 {
        off
    } else {
        line_start(text, off - 1)
    }
}

/// An offset at or past the end of text degrades to the end of text rather
/// than failing.
pub open spec fn clamped_offset(text: Seq<u8>, off: int) -> int {
    if off <= text.len() {
        off
    } else {
        text.len() as int
    }
}

/// The zero-based line of a byte offset: the newlines before it.
pub open spec fn offset_line(text: Seq<u8>, off: int) -> int {
    newline_count(text, clamped_offset(text, off))
}

/// The zero-based column of a byte offset: its distance from the start of
/// its line.
pub open spec fn offset_column(text: Seq<u8>, off: int) -> int {
    clamped_offset(text, off) - line_start(text, clamped_offset(text, off))
}

pub proof fn lemma_offset_bounds(text: Seq<u8>, off: int)
    requires
        off >= 0,
    ensures
        0 <= newline_count(text, off) <= off,
        0 <= line_start(text, off) <= off,
    decreases off,
{
    if off > 0 {
        lemma_offset_bounds(text, off - 1);
    }
}

/// The byte-offset variant of the mapping: counts newlines up to the offset
/// for the line and measures the distance from the line start for the
/// column, degrading to the last valid position past end of text.
pub fn offset_to_position(text: &[u8], offset: usize) -> (p: Position)
    requires
        text@.len() <= u32::MAX,
    ensures
        p.line == offset_line(text@, offset as int),
        p.character == offset_column(text@, offset as int),
{
    let clamped = if offset <= text.len() {
        offset
    } else {
        text.len()
    };
    let mut line: u32 = 0;
    let mut start_of_line: usize = 0;
    let mut i: usize = 0;
    while i < clamped
        invariant
            i <= clamped <= text@.len() <= u32::MAX,
            clamped == clamped_offset(text@, offset as int),
            line == newline_count(text@, i as int),
            start_of_line == line_start(text@, i as int),
        decreases clamped - i,
    {
        proof {
            lemma_offset_bounds(text@, i as int);
        }
        if text[i] == 10 {
            line = line + 1;
            start_of_line = i + 1;
        }
        i = i + 1;
    }
    proof {
        lemma_offset_bounds(text@, clamped as int);
    }
    Position { line, character: (clamped - start_of_line) as u32 }
}

/// Maps a byte-offset error range to a zero-based editor range against the
/// full source text.
pub fn map_offset_span(text: &[u8], start: usize, end: usize) -> (r: EditorRange)
    requires
        text@.len() <= u32::MAX,
    ensures
        r.start.line == offset_line(text@, start as int),
        r.start.character == offset_column(text@, start as int),
        r.end.line == offset_line(text@, end as int),
        r.end.character == offset_column(text@, end as int),
{
    EditorRange { start: offset_to_position(text, start), end: offset_to_position(text, end) }
}

/// The grouped diagnostics, abstracted to file names and diagnostic lists.
pub open spec fn group_views(gs: Seq<FileDiagnostics>) -> Seq<(Seq<char>, Seq<Diagnostic>)> {
    gs.map_values(|g: FileDiagnostics| (g.file@, g.diagnostics@))
}

/// The index of the group for file `f`, or the group count when no group
/// carries that file yet.
pub open spec fn find_file(gs: Seq<(Seq<char>, Seq<Diagnostic>)>, f: Seq<char>) -> int
    decreases gs.len(),
{
    if gs.len() == 0 {
        0
    } else if gs[0].0 == f {
        0
    } else {
        1 + find_file(gs.drop_first(), f)
    }
}

/// What `find_file` returns: an in-range index, no earlier group for `f`,
/// and the group at the index — when one exists — is for `f`.
pub proof fn lemma_find_file_props(gs: Seq<(Seq<char>, Seq<Diagnostic>)>, f: Seq<char>)
    ensures
        0 <= find_file(gs, f) <= gs.len(),
        forall|k: int| 0 <= k < find_file(gs, f) ==> (#[trigger] gs[k]).0 != f,
        find_file(gs, f) < gs.len() ==> gs[find_file(gs, f)].0 == f,
    decreases gs.len(),
{
    if gs.len() > 0 && gs[0].0 != f {
        lemma_find_file_props(gs.drop_first(), f);
        assert forall|k: int| 0 <= k < find_file(gs, f) implies (#[trigger] gs[k]).0 != f by {
            if k > 0 {
                assert(gs[k] == gs.drop_first()[k - 1]);
            }
        }
        assert(find_file(gs, f) < gs.len() ==> gs[find_file(gs, f)] == gs.drop_first()[
            find_file(gs, f) - 1
        ]);
    }
}

/// A left-to-right scan that stops at the first group for `f` — or runs off
/// the end — lands exactly on `find_file`.
pub proof fn lemma_find_file_from_scan(gs: Seq<(Seq<char>, Seq<Diagnostic>)>, f: Seq<char>, i: int)
    requires
        0 <= i <= gs.len(),
        forall|k: int| 0 <= k < i ==> (#[trigger] gs[k]).0 != f,
        i < gs.len() ==> gs[i].0 == f,
    ensures
        i == find_file(gs, f),
    decreases gs.len(),
{
    if gs.len() > 0 {
        if i == 0 {
        } else {
            assert(gs[0].0 != f);
            assert forall|k: int| 0 <= k < i - 1 implies (#[trigger] gs.drop_first()[k]).0 != f by {
                assert(gs.drop_first()[k] == gs[k + 1]);
            }
            assert(i - 1 < gs.drop_first().len() ==> gs.drop_first()[i - 1].0 == f);
            lemma_find_file_from_scan(gs.drop_first(), f, i - 1);
        }
    }
}

/// One error folded into the grouped diagnostics: appended to its file's
/// group when one exists, else opening a new group at the end.
pub open spec fn add_error(
    gs: Seq<(Seq<char>, Seq<Diagnostic>)>,
    e: CompilerError,
) -> Seq<(Seq<char>, Seq<Diagnostic>)> {
    let f = e.source_path@;
    let i = find_file(gs, f);
    if i < gs.len() {
        gs.update(i, (f, gs[i].1.push(diagnostic_spec(e))))
    } else {
        gs.push((f, seq![diagnostic_spec(e)]))
    }
}

/// The compiler's error list mapped and grouped by attributed file, files in
/// order of first attribution and each file's diagnostics in report order.
pub open spec fn group_spec(errors: Seq<CompilerError>) -> Seq<(Seq<char>, Seq<Diagnostic>)>
    decreases errors.len(),
{
    if errors.len() == 0 {
        Seq::empty()
    } else {
        add_error(group_spec(errors.drop_last()), errors.last())
    }
}

/// Finds the group already holding diagnostics for `file`, if any.
fn find_group(groups: &Vec<FileDiagnostics>, file: &String) -> (j: usize)
    ensures
        j == find_file(group_views(groups@), file@),
        j <= groups@.len(),
{
    let ghost gv = group_views(groups@);
    let mut j: usize = 0;
    while j < groups.len()
        invariant
            j <= gv.len(),
            gv == group_views(groups@),
            forall|k: int| 0 <= k < j ==> (#[trigger] gv[k]).0 != file@,
        decreases groups@.len() - j,
    {
        if groups[j].file == *file {
            proof {
                lemma_find_file_from_scan(gv, file@, j as int);
            }
            return j;
        }
        j = j + 1;
    }
    proof {
        lemma_find_file_from_scan(gv, file@, j as int);
    }
    j
}

/// Maps every reported error to a zero-based diagnostic and groups the
/// results by the file each error is attributed to — a compilation can emit
/// errors against files other than the one edited, and an unknown
/// attribution is still grouped and published under its stated file.
pub fn group_diagnostics(errors: &Vec<CompilerError>) -> (groups: Vec<FileDiagnostics>)
    requires
        forall|i: int| 0 <= i < errors@.len() ==> wf_span((#[trigger] errors@[i]).span),
    ensures
        group_views(groups@) == group_spec(errors@),
{
    let ghost es = errors@;
    let mut groups: Vec<FileDiagnostics> = Vec::new();
    let mut idx: usize = 0;
    proof {
        assert(es.take(0) =~= Seq::<CompilerError>::empty());
    }
    while idx < errors.len()
        invariant
            idx <= es.len(),
            es == errors@,
            forall|i: int| 0 <= i < es.len() ==> wf_span((#[trigger] es[i]).span),
            group_views(groups@) == group_spec(es.take(idx as int)),
        decreases es.len() - idx,
    {
        let ghost gv = group_views(groups@);
        let e = &errors[idx];
        let d = to_diagnostic(e);
        let j = find_group(&groups, &e.source_path);
        proof {
            lemma_find_file_props(gv, es[idx as int].source_path@);
        }
        if j < groups.len() {
            let mut g = groups.remove(j);
            g.diagnostics.push(d);
            groups.insert(j, g);
            proof {
                assert(group_views(groups@) =~= gv.update(
                    j as int,
                    (es[idx as int].source_path@, gv[j as int].1.push(diagnostic_spec(es[idx as int]))),
                ));
            }
        } else {
            let mut diags: Vec<Diagnostic> = Vec::new();
            diags.push(d);
            groups.push(FileDiagnostics { file: e.source_path.clone(), diagnostics: diags });
            proof {
                assert(group_views(groups@) =~= gv.push(
                    (es[idx as int].source_path@, seq![diagnostic_spec(es[idx as int])]),
                ));
            }
        }
        proof {
            assert(es.take(idx as int + 1).drop_last() =~= es.take(idx as int));
            assert(es.take(idx as int + 1).last() == es[idx as int]);
        }
        idx = idx + 1;
    }
    proof {
        assert(es.take(es.len() as int) =~= es);
    }
    groups
}

} // verus!
