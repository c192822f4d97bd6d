use odyssey::error::{decimal, Error};
use odyssey::lca::{
    classify_search, diagnose_missing_exchange_error, get_activity_reference_flows,
    get_exchange_name, get_exchange_reference_flow, list_databases, Activity, ActivityInfos,
    ComputError, DatabaseInfos, Diagnosis, ExchangeLink, Lookup,
};

fn infos(name: &str, location: Option<&str>, unit: Option<&str>, amount: f64, at: u32) -> ActivityInfos<u32, f64> {
    ActivityInfos {
        name: name.to_string(),
        location: location.map(|s| s.to_string()),
        unit: unit.map(|s| s.to_string()),
        amount,
        locator: at,
    }
}

fn db(name: &str, version: &str) -> DatabaseInfos {
    DatabaseInfos { name: name.to_string(), version: version.to_string() }
}

fn sample() -> Activity<u32, f64> {
    let inner = Activity {
        activity_infos: infos("dough", None, None, 3.0, 2),
        exchanges: vec![
            ExchangeLink::Database { database_infos: db("Ecoinvent", "3.9"), activity_infos: infos("flour", None, None, 0.5, 3) },
            ExchangeLink::Database { database_infos: db("Ecoinvent", "3.10"), activity_infos: infos("water", None, None, 0.25, 4) },
        ],
    };
    Activity {
        activity_infos: infos("bread", None, None, 1.0, 0),
        exchanges: vec![
            ExchangeLink::Database { database_infos: db("Ecoinvent", "3.10"), activity_infos: infos("salt", None, None, 0.01, 1) },
            ExchangeLink::Activity(inner),
        ],
    }
}

#[test]
fn reference_flows_follow_nested_activities() {
    let a = sample();
    let demands = get_activity_reference_flows(&a);
    assert_eq!(demands.len(), 3);
    assert_eq!(demands[0].activity_infos.name, "salt");
    assert_eq!(demands[0].factors, Vec::<f64>::new());
    assert_eq!(demands[1].activity_infos.name, "flour");
    assert_eq!(demands[1].factors, vec![3.0]);
    assert_eq!(demands[2].database_infos.version, "3.10");
    let per_exchange: Vec<usize> = a.exchanges.iter().map(|e| get_exchange_reference_flow(e).len()).collect();
    assert_eq!(per_exchange, vec![1, 2]);
}

#[test]
fn databases_are_requested_once_in_order() {
    let a = sample();
    let requests = list_databases(&a);
    let ids: Vec<&str> = requests.iter().map(|r| r.id.as_str()).collect();
    assert_eq!(ids, vec!["Ecoinvent_3.10", "Ecoinvent_3.9"]);
    assert_eq!(requests[0].activity_infos.locator, 1);
    assert_eq!(requests[1].activity_infos.locator, 3);
}

#[test]
fn exchange_names_come_from_their_target() {
    let a = sample();
    let names: Vec<String> = a.exchanges.into_iter().map(get_exchange_name).collect();
    assert_eq!(names, vec!["salt".to_string(), "dough".to_string()]);
}

#[test]
fn diagnosis_narrows_down_the_missing_filter() {
    let d = db("Ecoinvent", "3.9");
    let a = infos("flour", Some("FR"), Some("kg"), 1.0, 7);
    match diagnose_missing_exchange_error(&d, &a, &vec![]) {
        Diagnosis::Search(q) => {
            assert_eq!(q.name, "flour");
            assert_eq!(q.database, None);
        }
        other => panic!("unexpected {other:?}"),
    }
    assert!(matches!(diagnose_missing_exchange_error(&d, &a, &vec![false]), Diagnosis::NameError));
    match diagnose_missing_exchange_error(&d, &a, &vec![true]) {
        Diagnosis::Search(q) => assert_eq!(q.database.as_deref(), Some("Ecoinvent_3.9")),
        other => panic!("unexpected {other:?}"),
    }
    assert!(matches!(diagnose_missing_exchange_error(&d, &a, &vec![true, false]), Diagnosis::DatabaseError));
    match diagnose_missing_exchange_error(&d, &a, &vec![true, true]) {
        Diagnosis::Search(q) => {
            assert_eq!(q.location.as_deref(), Some("FR"));
            assert_eq!(q.unit, None);
        }
        other => panic!("unexpected {other:?}"),
    }
    assert!(matches!(diagnose_missing_exchange_error(&d, &a, &vec![true, true, false]), Diagnosis::LocationError));
    match diagnose_missing_exchange_error(&d, &a, &vec![true, true, true]) {
        Diagnosis::Search(q) => {
            assert_eq!(q.location, None);
            assert_eq!(q.unit.as_deref(), Some("kg"));
        }
        other => panic!("unexpected {other:?}"),
    }
    let e = diagnose_missing_exchange_error(&d, &a, &vec![true, true, true, false]);
    assert!(matches!(e.into_error(7u32), Some(ComputError::UnitError(7))));
    let e = diagnose_missing_exchange_error(&d, &a, &vec![true, true, true, true]);
    assert!(matches!(e.into_error(7u32), Some(ComputError::MissingExchange(7))));
    let plain = infos("flour", None, None, 1.0, 7);
    assert!(matches!(diagnose_missing_exchange_error(&d, &plain, &vec![true, true]), Diagnosis::MissingExchange));
}

#[test]
fn search_counts_decide_the_lookup() {
    assert_eq!(classify_search(0), Lookup::Diagnose);
    assert_eq!(classify_search(1), Lookup::Found);
    assert_eq!(classify_search(2), Lookup::Ambiguous);
}

#[test]
fn database_identifiers_join_name_and_version() {
    assert_eq!(db("Ecoinvent", "3.9").to_string(), "Ecoinvent_3.9");
}

#[test]
fn matrix_error_messages() {
    assert_eq!(decimal(0), "0");
    assert_eq!(decimal(1203), "1203");
    assert_eq!(Error::DimensionMismatch { expected: 12, actual: 7 }.message(), "dimension mismatch: expected 12, got 7");
    assert_eq!(Error::NullPointer("L").message(), "null pointer: L");
    assert_eq!(Error::InvalidInput { details: "x".to_string() }.message(), "invalid input: x");
    assert_eq!(Error::SolveFailed.message(), "solve returned a non null code");
}
