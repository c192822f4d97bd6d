use odyssey::impacts::{ImpactCategory, ImpactMethod, CML, EF31, TRACI};
use odyssey::parser::{
    apply_unit_conversion, correct_database_name, link_file_activity, parse_activity_head,
    parse_exchange, parse_method, start_exchange, ExchangeStep, FileLink, FileLocator, RunError,
};
use odyssey::lca::{Activity, ActivityInfos, ExchangeLink};
use odyssey::yaml::{YamlNode, YamlValue};

fn scalar(s: &str) -> YamlNode {
    YamlNode { value: YamlValue::Scalar(s.to_string()), start_line: None, end_line: None }
}

fn mapping(entries: Vec<(&str, YamlNode)>, start: usize, end: usize) -> YamlNode {
    YamlNode {
        value: YamlValue::Mapping(entries.into_iter().map(|(k, v)| (k.to_string(), v)).collect()),
        start_line: Some(start),
        end_line: Some(end),
    }
}

fn sequence(items: Vec<YamlNode>) -> YamlNode {
    YamlNode { value: YamlValue::Sequence(items), start_line: None, end_line: None }
}

fn loc(path: &str, lines: (usize, usize)) -> FileLocator {
    FileLocator { path: path.to_string(), lines }
}

#[test]
fn empty_vectors_list_every_category_once() {
    let v = ImpactMethod::EF31.get_empty_vector::<f64>();
    assert_eq!(v.nrows(), 25);
    assert_eq!(v.values, vec![0.0; 25]);
    assert_eq!(v.irow(&0), Some(&ImpactCategory::EF31(EF31::Gwp100)));
    assert_eq!(v.irow(&24), Some(&ImpactCategory::EF31(EF31::WaterUse)));
    assert_eq!(v.irow(&25), None);
    let c = ImpactMethod::CML.get_empty_vector::<i64>();
    assert_eq!(c.values, vec![0; 11]);
    assert_eq!(c.row(&ImpactCategory::CML(CML::Eutrophication)), Some(10));
    assert_eq!(c.row(&ImpactCategory::TRACI(TRACI::Gwp100)), None);
    let t = TRACI::get_empty_vector::<f64>();
    assert_eq!(t.nrows(), 9);
    assert_eq!(t.mapping[2], ImpactCategory::TRACI(TRACI::ParticulMatter));
    let by_name = ImpactCategory::get_empty_vector::<f64>("traci");
    assert_eq!(by_name.mapping, t.mapping);
}

#[test]
fn method_names_are_case_insensitive() {
    assert!(matches!(parse_method("EF31".to_string()), Ok(ImpactMethod::EF31)));
    assert!(matches!(parse_method("Traci".to_string()), Ok(ImpactMethod::TRACI)));
    assert!(matches!(parse_method("cml".to_string()), Ok(ImpactMethod::CML)));
    match parse_method("recipe".to_string()) {
        Err(RunError::UnknownMethod(name)) => assert_eq!(name, "recipe"),
        other => panic!("unexpected {other:?}"),
    }
    assert_eq!(ImpactMethod::from_name("EF31"), None);
    assert_eq!(ImpactMethod::from_name("ef31"), Some(ImpactMethod::EF31));
}

#[test]
fn database_names_are_corrected() {
    let l = loc("a.yaml", (3, 5));
    assert_eq!(correct_database_name("EcoInvent".to_string(), &l).unwrap(), "Ecoinvent");
    match correct_database_name("agribalyse".to_string(), &l) {
        Err(RunError::UnknownDatabase(at)) => assert_eq!(at.lines, (3, 5)),
        other => panic!("unexpected {other:?}"),
    }
}

#[test]
fn activity_head_requires_a_mapping_with_exchanges() {
    match parse_activity_head(&scalar("x"), &"a.yaml".to_string(), 1.0) {
        Err(RunError::InvalidYamlFormat { error_locator, details }) => {
            assert_eq!(error_locator.path, "a.yaml");
            assert_eq!(details, "error: the root of the document must be a YAML mapping");
        }
        other => panic!("unexpected {:?}", other.err()),
    }
    let doc = mapping(vec![("name", scalar("bread"))], 0, 0);
    match parse_activity_head(&doc, &"a.yaml".to_string(), 1.0) {
        Err(RunError::InvalidYamlFormat { details, .. }) => {
            assert_eq!(details, "error: missing root key 'exchanges'")
        }
        other => panic!("unexpected {:?}", other.err()),
    }
    let doc = mapping(vec![("name", scalar("bread")), ("exchanges", scalar("none"))], 0, 0);
    match parse_activity_head(&doc, &"a.yaml".to_string(), 1.0) {
        Err(RunError::InvalidYamlFormat { details, .. }) => {
            assert_eq!(details, "The 'exchanges' key must contain a sequence (list) of items")
        }
        other => panic!("unexpected {:?}", other.err()),
    }
    let doc = mapping(vec![("exchanges", sequence(vec![]))], 0, 0);
    assert!(matches!(
        parse_activity_head(&doc, &"a.yaml".to_string(), 1.0),
        Err(RunError::MissingExchangeName(_))
    ));
    let doc = mapping(
        vec![("name", scalar("bread")), ("unit", sequence(vec![])), ("exchanges", sequence(vec![]))],
        0,
        0,
    );
    match parse_activity_head(&doc, &"a.yaml".to_string(), 1.0) {
        Err(RunError::WrongFieldFormat { field_name, .. }) => assert_eq!(field_name, "unit"),
        other => panic!("unexpected {:?}", other.err()),
    }
    let doc = mapping(
        vec![
            ("name", scalar("bread")),
            ("location", scalar("FR")),
            ("exchanges", sequence(vec![scalar("a"), scalar("b")])),
        ],
        0,
        0,
    );
    let head = parse_activity_head(&doc, &"a.yaml".to_string(), 1.0).unwrap();
    assert_eq!(head.activity_infos.name, "bread");
    assert_eq!(head.activity_infos.location.as_deref(), Some("FR"));
    assert_eq!(head.activity_infos.unit, None);
    assert_eq!(head.activity_infos.amount, 1.0);
    assert_eq!(head.activity_infos.locator.lines, (0, 0));
    assert_eq!(head.exchanges.len(), 2);
}

#[test]
fn exchanges_start_with_their_amount() {
    let path = "a.yaml".to_string();
    match start_exchange(&YamlNode { value: YamlValue::Scalar("x".into()), start_line: Some(4), end_line: Some(6) }, &path) {
        Err(RunError::InvalidYamlFormat { error_locator, details }) => {
            assert_eq!(error_locator.lines, (4, 6));
            assert_eq!(details, "Each exchange item must be a mapping block");
        }
        other => panic!("unexpected {:?}", other.err()),
    }
    let node = mapping(vec![("name", scalar("flour"))], 7, 9);
    assert!(matches!(start_exchange(&node, &path), Err(RunError::MissingExchangeAmount(l)) if l.lines == (7, 9)));
    let node = mapping(vec![("amount", sequence(vec![]))], 7, 9);
    assert!(matches!(start_exchange(&node, &path), Err(RunError::AmountError(_))));
    let node = mapping(vec![("amount", scalar("2.5")), ("name", scalar("flour"))], 7, 9);
    let start = start_exchange(&node, &path).unwrap();
    assert_eq!(start.amount, "2.5");
    assert_eq!(start.locator.lines, (7, 9));
    assert_eq!(start.entries.len(), 2);
}

#[test]
fn exchanges_link_to_a_database_or_a_file() {
    let l = loc("a.yaml", (1, 2));
    let db = mapping(vec![("name", scalar("ECOINVENT")), ("version", scalar("3.9"))], 0, 0);
    let entries = vec![("name".to_string(), scalar("flour")), ("database".to_string(), db)];
    match parse_exchange(&entries, &l, 2.0).unwrap() {
        ExchangeStep::Linked(ExchangeLink::Database { database_infos, activity_infos }) => {
            assert_eq!(database_infos.name, "Ecoinvent");
            assert_eq!(database_infos.version, "3.9");
            assert_eq!(activity_infos.amount, 2.0);
            assert_eq!(activity_infos.name, "flour");
        }
        other => panic!("unexpected {other:?}"),
    }
    let entries = vec![("name".to_string(), scalar("flour")), ("file".to_string(), scalar("flour.yaml"))];
    match parse_exchange(&entries, &l, 2.0).unwrap() {
        ExchangeStep::File { file, exchange_infos } => {
            assert_eq!(file, "flour.yaml");
            assert_eq!(exchange_infos.name, "flour");
        }
        other => panic!("unexpected {other:?}"),
    }
    let entries = vec![
        ("name".to_string(), scalar("flour")),
        ("file".to_string(), scalar("flour.yaml")),
        ("database".to_string(), scalar("x")),
    ];
    assert!(matches!(parse_exchange(&entries, &l, 2.0), Err(RunError::BothDatabaseAndFile(_))));
    let entries = vec![("name".to_string(), scalar("flour"))];
    assert!(matches!(parse_exchange(&entries, &l, 2.0), Err(RunError::MissingExchangeLink(_))));
    let entries = vec![("name".to_string(), scalar("flour")), ("database".to_string(), scalar("x"))];
    match parse_exchange(&entries, &l, 2.0) {
        Err(RunError::InvalidYamlFormat { details, .. }) => {
            assert_eq!(details, "'database' must be a mapping block")
        }
        other => panic!("unexpected {other:?}"),
    }
    let db = mapping(vec![("version", scalar("3.9"))], 0, 0);
    let entries = vec![("name".to_string(), scalar("flour")), ("database".to_string(), db)];
    assert!(matches!(parse_exchange(&entries, &l, 2.0), Err(RunError::MissingDatabaseName(_))));
    let db = mapping(vec![("name", scalar("other")), ("version", scalar("3.9"))], 0, 0);
    let entries = vec![("name".to_string(), scalar("flour")), ("database".to_string(), db)];
    assert!(matches!(parse_exchange(&entries, &l, 2.0), Err(RunError::UnknownDatabase(_))));
    let db = mapping(vec![("name", scalar("ecoinvent"))], 0, 0);
    let entries = vec![("name".to_string(), scalar("flour")), ("database".to_string(), db)];
    assert!(matches!(parse_exchange(&entries, &l, 2.0), Err(RunError::MissingDatabaseVersion(_))));
}

fn infos(name: &str, location: Option<&str>, unit: Option<&str>, amount: f64, l: FileLocator) -> ActivityInfos<FileLocator, f64> {
    ActivityInfos {
        name: name.to_string(),
        location: location.map(|s| s.to_string()),
        unit: unit.map(|s| s.to_string()),
        amount,
        locator: l,
    }
}

#[test]
fn file_activities_take_the_exchange_infos() {
    let ex = infos("flour", Some("FR"), None, 2.0, loc("a.yaml", (3, 4)));
    let act = Activity { activity_infos: infos("flour", None, Some("kg"), 1.0, loc("f.yaml", (0, 0))), exchanges: vec![] };
    match link_file_activity(ex, act).unwrap() {
        FileLink::Linked(ExchangeLink::Activity(a)) => {
            assert_eq!(a.activity_infos.location.as_deref(), Some("FR"));
            assert_eq!(a.activity_infos.unit.as_deref(), Some("kg"));
            assert_eq!(a.activity_infos.amount, 2.0);
            assert_eq!(a.activity_infos.locator.path, "a.yaml");
        }
        other => panic!("unexpected {other:?}"),
    }
    let ex = infos("flour", None, None, 2.0, loc("a.yaml", (3, 4)));
    let act = Activity { activity_infos: infos("bread", None, None, 1.0, loc("f.yaml", (0, 0))), exchanges: vec![] };
    match link_file_activity(ex, act) {
        Err(RunError::NameMismatch { error_locator, activity_name }) => {
            assert_eq!(activity_name, "bread");
            assert_eq!(error_locator.path, "a.yaml");
        }
        other => panic!("unexpected {other:?}"),
    }
    let ex = infos("flour", Some("FR"), None, 2.0, loc("a.yaml", (3, 4)));
    let act = Activity { activity_infos: infos("flour", Some("DE"), None, 1.0, loc("f.yaml", (0, 0))), exchanges: vec![] };
    assert!(matches!(link_file_activity(ex, act), Err(RunError::LocationMismatch { activity_location, .. }) if activity_location == "DE"));
    let ex = infos("flour", None, Some("g"), 500.0, loc("a.yaml", (3, 4)));
    let act = Activity { activity_infos: infos("flour", None, Some("kg"), 1.0, loc("f.yaml", (0, 0))), exchanges: vec![] };
    match link_file_activity(ex, act).unwrap() {
        FileLink::UnitConversion { activity_unit, exchange_unit, activity } => {
            assert_eq!(activity_unit, "kg");
            assert_eq!(exchange_unit, "g");
            match apply_unit_conversion(Some(0.001), activity_unit.clone(), activity).unwrap() {
                ExchangeLink::Activity(a) => assert_eq!(a.activity_infos.amount, 0.5),
                other => panic!("unexpected {other:?}"),
            }
        }
        other => panic!("unexpected {other:?}"),
    }
    let act = Activity { activity_infos: infos("flour", None, Some("kg"), 1.0, loc("f.yaml", (2, 2))), exchanges: vec![] };
    assert!(matches!(apply_unit_conversion(None, "kg".to_string(), act), Err(RunError::UnitMismatch { activity_unit, .. }) if activity_unit == "kg"));
}
