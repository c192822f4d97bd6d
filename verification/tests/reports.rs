use odyssey::diagnostics::{line_window_of, margin, Diagnostic, LineAction, LineStyle, Paint, Report};
use odyssey::lca::ComputError;
use odyssey::parser::{FileLocator, RunError};

fn loc(lines: (usize, usize)) -> FileLocator {
    FileLocator { path: "act.yaml".to_string(), lines }
}

#[test]
fn message_reports_keep_their_text() {
    match RunError::IoError("no such file".to_string()).report() {
        Report::Message(m) => assert_eq!(m, "io error: no such file"),
        other => panic!("unexpected {other:?}"),
    }
    match RunError::UnknownMethod("recipe".to_string()).report() {
        Report::Message(m) => assert_eq!(m, "recipe"),
        other => panic!("unexpected {other:?}"),
    }
    match RunError::ComputError(ComputError::OdysseyError("boom".to_string())).report() {
        Report::Message(m) => assert_eq!(m, "engine error: boom"),
        other => panic!("unexpected {other:?}"),
    }
}

#[test]
fn located_reports_name_field_and_suggestion() {
    match RunError::MissingExchangeName(loc((4, 6))).report() {
        Report::Located(d) => {
            assert_eq!(d.error_msg, "error: missing exchange name");
            assert_eq!(d.help_msg, "every exchange must have a unique identifier name");
            assert_eq!(d.field, "name");
            assert_eq!(d.suggestion, "name: \"your_exchange_name\"");
            assert_eq!(d.line_style, LineStyle::Plain);
            assert!(d.suggest_added_line);
            assert_eq!(d.locator.lines, (4, 6));
        }
        other => panic!("unexpected {other:?}"),
    }
    let e = RunError::UnitMismatch { error_locator: loc((2, 3)), activity_unit: "kg".to_string() };
    match e.report() {
        Report::Located(d) => {
            assert_eq!(d.field, "unit");
            assert_eq!(d.suggestion, "kg");
            assert_eq!(d.line_style, LineStyle::ChangeSuggestion);
            assert!(!d.suggest_added_line);
            assert_eq!(d.line_action("    unit: \"g\""), LineAction::Replaced);
            assert_eq!(d.line_action("    name: flour"), LineAction::Plain);
            assert_eq!(d.line_action("   # unit: g"), LineAction::Skip);
            assert_eq!(d.line_action("   "), LineAction::Skip);
        }
        other => panic!("unexpected {other:?}"),
    }
    match RunError::AmountError(loc((2, 3))).report() {
        Report::Located(d) => {
            assert_eq!(d.line_style, LineStyle::SuggestionArrow);
            assert_eq!(d.line_action("  amount : x"), LineAction::Marked);
            assert_eq!(d.line_action("  name: amount"), LineAction::Plain);
        }
        other => panic!("unexpected {other:?}"),
    }
    match RunError::MissingDatabaseVersion(loc((2, 3))).report() {
        Report::Located(d) => {
            assert_eq!(d.line_style, LineStyle::AdditionSuggestion);
            assert_eq!(d.suggestion, "version: \"0.0.0\"");
            assert_eq!(d.line_action("  database:"), LineAction::PlainThenAddition);
            assert_eq!(d.line_action("  name: ecoinvent"), LineAction::Plain);
        }
        other => panic!("unexpected {other:?}"),
    }
}

#[test]
fn computation_reports_point_at_the_exchange() {
    match ComputError::LocationError(loc((8, 9))).report() {
        Report::Located(d) => {
            assert_eq!(d.error_msg, "error: exchange flow not found");
            assert_eq!(d.field, "location");
            assert_eq!(d.line_action("location: FR"), LineAction::Marked);
        }
        other => panic!("unexpected {other:?}"),
    }
    match ComputError::MultipleExchange(loc((8, 9))).report() {
        Report::Located(d) => {
            assert_eq!(d.error_msg, "error: multiple exchanges found");
            assert!(!d.suggest_added_line);
            assert_eq!(d.line_style, LineStyle::Plain);
        }
        other => panic!("unexpected {other:?}"),
    }
}

#[test]
fn report_windows_and_margins() {
    assert_eq!(line_window_of(&loc((4, 6))), (3, 2));
    assert_eq!(line_window_of(&loc((0, 0))), (0, 1));
    assert_eq!(line_window_of(&loc((5, 5))), (4, 1));
    assert_eq!(line_window_of(&loc((7, 3))), (6, 1));
    assert_eq!(margin(7), " ");
    assert_eq!(margin(10), "  ");
    assert_eq!(margin(12345), "     ");
}

#[test]
fn report_lines_lay_out_the_file() {
    let d = Diagnostic {
        locator: FileLocator { path: "a.yaml".to_string(), lines: (9, 10) },
        error_msg: "error: bad unit".to_string(),
        help_msg: "use kg".to_string(),
        field: "unit".to_string(),
        suggestion: "kg".to_string(),
        line_style: LineStyle::ChangeSuggestion,
        suggest_added_line: false,
    };
    let lines = vec!["  unit: kgg".to_string(), "  # note".to_string()];
    let out: Vec<Vec<(Paint, String)>> = d
        .report_lines(&lines)
        .into_iter()
        .map(|l| l.into_iter().map(|p| (p.paint, p.text)).collect())
        .collect();
    assert_eq!(
        out,
        vec![
            vec![(Paint::RedBold, "error: bad unit".to_string())],
            vec![
                (Paint::Plain, " ".to_string()),
                (Paint::BlueBold, "-->".to_string()),
                (Paint::Plain, " a.yaml:9".to_string()),
            ],
            vec![],
            vec![(Paint::RedStruck, "9 |  unit: kgg".to_string())],
            vec![(Paint::Green, "9 |    unit: \"kg\"".to_string())],
            vec![],
            vec![(Paint::BlueBold, "= help:".to_string()), (Paint::Plain, " use kg".to_string())],
        ]
    );
}
