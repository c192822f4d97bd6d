use odyssey::lca::ExchangeLink;
use odyssey::parser::{
    line_or_zero, load_yaml, parse_activity_head, parse_exchange, ActivityAssembly, ExchangeStep,
    RunError,
};
use odyssey::yaml::YamlValue;

#[test]
fn loads_an_activity_document() {
    let text = "name: bread\nunit: kg\nexchanges:\n  - name: flour\n    amount: 2\n";
    let doc = load_yaml(text, &"bread.yaml".to_string()).unwrap();
    match &doc.value {
        YamlValue::Mapping(entries) => {
            let keys: Vec<&str> = entries.iter().map(|(k, _)| k.as_str()).collect();
            assert_eq!(keys, vec!["name", "unit", "exchanges"]);
            match &entries[0].1.value {
                YamlValue::Scalar(s) => assert_eq!(s, "bread"),
                _ => panic!("name is not a scalar"),
            }
            assert_eq!(entries[0].1.start_line, Some(1));
            match &entries[2].1.value {
                YamlValue::Sequence(items) => assert_eq!(items.len(), 1),
                _ => panic!("exchanges is not a sequence"),
            }
        }
        _ => panic!("the document is not a mapping"),
    }
    let head = parse_activity_head(&doc, &"bread.yaml".to_string(), 1u32).unwrap();
    assert_eq!(head.activity_infos.name, "bread");
    assert_eq!(head.exchanges.len(), 1);
}

#[test]
fn load_errors_are_located() {
    let text = "name: bread\nexchanges: [1, 2\n";
    match load_yaml(text, &"bad.yaml".to_string()) {
        Err(RunError::YamlLoadError { error_locator, details }) => {
            assert_eq!(error_locator.path, "bad.yaml");
            assert_eq!(error_locator.lines.0, error_locator.lines.1);
            assert!(error_locator.lines.0 >= 2);
            assert!(!details.is_empty());
        }
        other => panic!("unexpected result: {:?}", other.map(|_| ())),
    }
}

#[test]
fn top_level_must_be_a_mapping() {
    match load_yaml("- a\n- b\n", &"list.yaml".to_string()) {
        Err(RunError::YamlLoadError { error_locator, .. }) => {
            assert_eq!(error_locator.path, "list.yaml");
            assert_eq!(error_locator.lines, (1, 1));
        }
        other => panic!("unexpected result: {:?}", other.map(|_| ())),
    }
}

#[test]
fn activities_are_assembled_item_by_item() {
    let text = "name: bread\nexchanges:\n  - name: flour\n    amount: 2\n    database:\n      name: ecoinvent\n      version: '3.9'\n  - name: water\n    amount: 5\n    database:\n      name: ecoinvent\n      version: '3.9'\n";
    let path = "bread.yaml".to_string();
    let doc = load_yaml(text, &path).unwrap();
    let head = parse_activity_head(&doc, &path, 1u32).unwrap();
    let mut assembly = ActivityAssembly::new(head);
    let mut lines = Vec::new();
    while let Some(start) = assembly.start_next(&path) {
        let start = start.unwrap();
        lines.push(start.locator.lines.0);
        let amount: u32 = start.amount.parse().unwrap();
        match parse_exchange(start.entries, &start.locator, amount).unwrap() {
            ExchangeStep::Linked(link) => assembly.push_link(link),
            ExchangeStep::File { .. } => panic!("no file exchange here"),
        }
    }
    let activity = assembly.finish();
    assert_eq!(activity.activity_infos.name, "bread");
    assert_eq!(activity.activity_infos.amount, 1);
    assert_eq!(activity.exchanges.len(), 2);
    let names: Vec<(String, u32)> = activity
        .exchanges
        .iter()
        .map(|e| match e {
            ExchangeLink::Database { activity_infos, .. } => (activity_infos.name.clone(), activity_infos.amount),
            ExchangeLink::Activity(_) => panic!("database links only"),
        })
        .collect();
    assert_eq!(names, vec![("flour".to_string(), 2), ("water".to_string(), 5)]);
    assert!(lines[0] < lines[1]);
}

#[test]
fn unknown_lines_are_zero() {
    assert_eq!(line_or_zero(None), 0);
    assert_eq!(line_or_zero(Some(7)), 7);
}
