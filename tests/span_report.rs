use vellogd::span_report::{RConsoleReporter, SpanRecord, SpanStat};

fn span(name: &str, duration_ns: u64) -> SpanRecord {
    SpanRecord { name: String::from(name), duration_ns }
}

#[test]
fn spans_grouped_by_name_longest_first() {
    let spans = vec![
        span("draw", 5),
        span("root", 100),
        span("line", 7),
        span("draw", 4),
        span("text", 9),
    ];
    let report = RConsoleReporter::summarize(&spans);
    assert_eq!(
        report.rows,
        vec![
            SpanStat { first: 0, count: 2, duration_ns: 9 },
            SpanStat { first: 4, count: 1, duration_ns: 9 },
            SpanStat { first: 2, count: 1, duration_ns: 7 },
        ]
    );
    assert_eq!(report.root_ns, Some(100));
}

#[test]
fn no_root_no_total() {
    let report = RConsoleReporter::summarize(&vec![span("a", u64::MAX), span("a", u64::MAX)]);
    assert_eq!(report.rows, vec![SpanStat { first: 0, count: 2, duration_ns: 2 * u64::MAX as u128 }]);
    assert_eq!(report.root_ns, None);
    let empty = RConsoleReporter::summarize(&vec![]);
    assert!(empty.rows.is_empty());
    assert_eq!(empty.root_ns, None);
}
