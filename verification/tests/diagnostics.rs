use solang_server::diagnostics::{
    DiagnosticRecord, DisplaySeverity, Severity, map_severity, translate, translate_all,
};
use solang_server::position::{SourcePosition, Span};

fn record(span: Option<Span>, severity: Severity, message: &str) -> DiagnosticRecord {
    DiagnosticRecord { file_id: 0, span, severity, message: String::from(message) }
}

#[test]
fn error_diagnostic_over_two_lines() {
    let d = record(Some(Span { start: 0, end: 4 }), Severity::Error, "boom");
    let out = translate("ab\ncd", &d).expect("an Error diagnostic with a span is kept");
    assert_eq!(out.start, SourcePosition { line: 0, column: 0 });
    assert_eq!(out.end, SourcePosition { line: 1, column: 1 });
    assert_eq!(out.severity, DisplaySeverity::Error);
    assert_eq!(out.message, "boom");
    assert_eq!(out.source_tag, "solidity");
}

#[test]
fn debug_diagnostic_is_dropped() {
    let d = record(Some(Span { start: 0, end: 4 }), Severity::Debug, "trace");
    assert!(translate("ab\ncd", &d).is_none());
    let d = record(Some(Span { start: 2, end: 2 }), Severity::Debug, "");
    assert!(translate("abc", &d).is_none());
}

#[test]
fn diagnostic_without_span_is_dropped() {
    let d = record(None, Severity::Error, "lost");
    assert!(translate("abc", &d).is_none());
}

#[test]
fn severity_mapping() {
    assert_eq!(map_severity(Severity::Info), Some(DisplaySeverity::Information));
    assert_eq!(map_severity(Severity::Warning), Some(DisplaySeverity::Warning));
    assert_eq!(map_severity(Severity::Error), Some(DisplaySeverity::Error));
    assert_eq!(map_severity(Severity::Debug), None);
}

#[test]
fn translate_all_keeps_order_and_drops_debug() {
    let diags = vec![
        record(Some(Span { start: 0, end: 1 }), Severity::Warning, "first"),
        record(Some(Span { start: 1, end: 2 }), Severity::Debug, "hidden"),
        record(None, Severity::Error, "unlocated"),
        record(Some(Span { start: 3, end: 4 }), Severity::Info, "second"),
    ];
    let out = translate_all("ab\ncd", &diags);
    assert_eq!(out.len(), 2);
    assert_eq!(out[0].message, "first");
    assert_eq!(out[0].severity, DisplaySeverity::Warning);
    assert_eq!(out[1].message, "second");
    assert_eq!(out[1].severity, DisplaySeverity::Information);
    assert_eq!(out[1].start, SourcePosition { line: 1, column: 0 });
    assert_eq!(out[1].end, SourcePosition { line: 1, column: 1 });
}

#[test]
fn translate_all_of_nothing_is_nothing() {
    let out = translate_all("abc", &Vec::new());
    assert!(out.is_empty());
}
