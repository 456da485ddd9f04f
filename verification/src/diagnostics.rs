//! Translation of compiler diagnostics into editor-facing diagnostics.
//!
//! A compiler diagnostic carries a severity, a message, and an optional
//! inclusive span of offsets into one file's text. Translation maps the
//! severity onto the editor's scale, converts the span's endpoints into
//! line/column positions, and attaches the fixed source tag. A diagnostic
//! of Debug severity, or one without a span, is dropped, never an error.

use vstd::prelude::*;

use crate::position::{Span, SourcePosition, column_at, line_at, offset_to_position};

verus! {

/// Severity of a diagnostic as the compiler front end reports it.
#[derive(Clone, Copy, PartialEq, Eq, Structural, Debug)]
pub enum Severity {
    Info,
    Warning,
    Error,
    Debug,
}

/// Severity of a diagnostic as the editor displays it.
#[derive(Clone, Copy, PartialEq, Eq, Structural, Debug)]
pub enum DisplaySeverity {
    Error,
    Warning,
    Information,
}

/// A diagnostic as the compiler front end reports it. `span` is absent when
/// the diagnostic cannot be located in the source.
pub struct DiagnosticRecord {
    pub file_id: usize,
    pub span: Option<Span>,
    pub severity: Severity,
    pub message: String,
}

/// A diagnostic ready for the editor: a line/column range, a display
/// severity, the message, and the fixed source tag.
pub struct DisplayDiagnostic {
    pub start: SourcePosition,
    pub end: SourcePosition,
    pub severity: DisplaySeverity,
    pub message: String,
    pub source_tag: String,
}

/// Mathematical image of a `DisplayDiagnostic`.
pub struct DisplayDiagnosticView {
    pub start: SourcePosition,
    pub end: SourcePosition,
    pub severity: DisplaySeverity,
    pub message: Seq<char>,
    pub source_tag: Seq<char>,
}

impl View for DisplayDiagnostic {
    type V = DisplayDiagnosticView;

    open spec fn view(&self) -> DisplayDiagnosticView {
        DisplayDiagnosticView {
            start: self.start,
            end: self.end,
            severity: self.severity,
            message: self.message@,
            source_tag: self.source_tag@,
        }
    }
}

impl DeepView for DisplayDiagnostic {
    type V = DisplayDiagnosticView;

    open spec fn deep_view(&self) -> DisplayDiagnosticView {
        self.view()
    }
}

/// The display severity for a compiler severity; `None` for Debug, which is
/// never surfaced to the editor.
pub open spec fn severity_display(s: Severity) -> Option<DisplaySeverity> {
    match s {
        Severity::Info => Some(DisplaySeverity::Information),
        Severity::Warning => Some(DisplaySeverity::Warning),
        Severity::Error => Some(DisplaySeverity::Error),
        Severity::Debug => None,
    }
}

/// The fixed source tag attached to every published diagnostic.
pub open spec fn source_tag_text() -> Seq<char> {
    "solidity"@
}

/// Maps a compiler severity onto the editor's severity scale; Debug maps
/// to nothing.
pub fn map_severity(s: Severity) -> (r: Option<DisplaySeverity>)
    ensures
        r == severity_display(s),
{
    match s {
        Severity::Info => Some(DisplaySeverity::Information),
        Severity::Warning => Some(DisplaySeverity::Warning),
        Severity::Error => Some(DisplaySeverity::Error),
        Severity::Debug => None,
    }
}

/// Severity mapping totality: the mapping is one fixed function that sends
/// every severity other than Debug to exactly one display severity, and
/// sends Debug to nothing.
pub proof fn lemma_severity_mapping_total()
    ensures
        forall|s: Severity| #[trigger] severity_display(s) is Some <==> !(s is Debug),
{
}

/// The line/column position that offset `o` (clamped) denotes in `t`.
pub open spec fn position_at(t: Seq<char>, o: int) -> SourcePosition {
    SourcePosition { line: line_at(t, o) as usize, column: column_at(t, o) as usize }
}

/// The editor diagnostic that `d` yields over the text `t`: nothing for a
/// Debug diagnostic or one without a span; otherwise the span's endpoints
/// as line/column positions, the mapped severity, the unchanged message,
/// and the fixed source tag.
pub open spec fn translate_spec(t: Seq<char>, d: DiagnosticRecord) -> Option<DisplayDiagnosticView> {
    if d.severity is Debug || d.span is None {
        None
    } else {
        Some(
            (DisplayDiagnosticView {
                start: position_at(t, d.span->Some_0.start as int),
                end: position_at(t, d.span->Some_0.end as int),
                severity: severity_display(d.severity)->Some_0,
                message: d.message@,
                source_tag: source_tag_text(),
            }),
        )
    }
}

/// A Debug-severity diagnostic never yields an editor diagnostic, whatever
/// its span and message.
pub proof fn lemma_debug_filtered(t: Seq<char>, d: DiagnosticRecord)
    requires
        d.severity is Debug,
    ensures
        translate_spec(t, d) is None,
{
}

/// Translates one compiler diagnostic over its file's text. Debug
/// diagnostics and diagnostics without a span are dropped.
pub fn translate(text: &str, diag: &DiagnosticRecord) -> (r: Option<DisplayDiagnostic>)
    ensures
        r is Some <==> translate_spec(text@, *diag) is Some,
        r matches Some(d) ==> d@ == translate_spec(text@, *diag)->Some_0,
{
    let sev = match map_severity(diag.severity) {
        Some(s) => s,
        None => {
            return None;
        },
    };
    let sp = match diag.span {
        Some(sp) => sp,
        None => {
            return None;
        },
    };
    let start = offset_to_position(text, sp.start);
    let end = offset_to_position(text, sp.end);
    Some(
        DisplayDiagnostic {
            start,
            end,
            severity: sev,
            message: diag.message.clone(),
            source_tag: String::from_str("solidity"),
        },
    )
}

/// The sequence of editor diagnostics that `ds` yields over `t`, in the
/// order given, with Debug and unlocated diagnostics dropped.
pub open spec fn translate_all_spec(t: Seq<char>, ds: Seq<DiagnosticRecord>) -> Seq<
    DisplayDiagnosticView,
>
    decreases ds.len(),
{
    if ds.len() == 0 {
        Seq::empty()
    } else {
        translate_all_spec(t, ds.drop_last()) + match translate_spec(t, ds.last()) {
            Some(v) => seq![v],
            None => Seq::empty(),
        }
    }
}

/// Translates a list of compiler diagnostics over one file's text,
/// preserving their order and dropping Debug and unlocated diagnostics.
pub fn translate_all(text: &str, diags: &Vec<DiagnosticRecord>) -> (out: Vec<DisplayDiagnostic>)
    ensures
        out.deep_view() == translate_all_spec(text@, diags@),
{
    let mut out: Vec<DisplayDiagnostic> = Vec::new();
    let mut i: usize = 0;
    while i < diags.len()
        invariant
            i <= diags.len(),
            out.deep_view() == translate_all_spec(text@, diags@.take(i as int)),
        decreases diags.len() - i,
    {
        proof {
            assert(diags@.take(i + 1).drop_last() =~= diags@.take(i as int));
            assert(diags@.take(i + 1).last() == diags@[i as int]);
        }
        match translate(text, &diags[i]) {
            Some(d) => {
                proof {
                    assert(out.deep_view().push(d@) =~= translate_all_spec(
                        text@,
                        diags@.take(i + 1),
                    ));
                }
                out.push(d);
                proof {
                    assert(out.deep_view() =~= translate_all_spec(text@, diags@.take(i + 1)));
                }
            },
            None => {
                proof {
                    assert(out.deep_view() =~= translate_all_spec(text@, diags@.take(i + 1)));
                }
            },
        }
        i = i + 1;
    }
    proof {
        assert(diags@.take(diags.len() as int) =~= diags@);
    }
    out
}

} // verus!
