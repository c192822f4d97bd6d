use odyssey::lcia::{get_impact_matrices, get_traci_matrix, ImpactRecords, TRACIImpacts};
use odyssey::impacts::{ImpactCategory, TRACI};
use odyssey::registry::{
    database_kind, find_database, register_database, unregister_database, DatabaseKind,
    ImportDatabaseArgs,
};
use odyssey::search::{format_result, to_column, to_inline, to_json, ResFormat, SearchResult};

fn result(location: Option<&str>) -> SearchResult {
    SearchResult {
        name: "wheat flour".to_string(),
        database_name: "Ecoinvent".to_string(),
        database_version: "3.9".to_string(),
        location: location.map(|s| s.to_string()),
        unit: "kg".to_string(),
    }
}

#[test]
fn inline_results() {
    assert_eq!(to_inline(&result(Some("FR"))), "[Ecoinvent v3.9] wheat flour FR kg\n");
    assert_eq!(to_inline(&result(None)), "[Ecoinvent v3.9] wheat flour kg\n");
}

#[test]
fn json_results() {
    assert_eq!(
        to_json(&result(Some("FR"))),
        r#"{"database":{"name":"Ecoinvent","version":"3.9"},"location":"FR","name":"wheat flour","unit":"kg"}"#
    );
    assert_eq!(
        to_json(&result(None)),
        r#"{"database":{"name":"Ecoinvent","version":"3.9"},"name":"wheat flour","unit":"kg"}"#
    );
}

fn strip_styles(s: &str) -> String {
    let mut out = String::new();
    let mut chars = s.chars();
    while let Some(c) = chars.next() {
        if c == '\u{1b}' {
            for d in chars.by_ref() {
                if d == 'm' {
                    break;
                }
            }
        } else {
            out.push(c);
        }
    }
    out
}

#[test]
fn column_results() {
    let text = to_column(&result(Some("FR")));
    assert_eq!(
        strip_styles(&text),
        "wheat flour\n | Database: Ecoinvent v3.9\n | Location: FR\n | Unit: kg\n\n"
    );
    let text = to_column(&result(None));
    assert_eq!(strip_styles(&text), "wheat flour\n | Database: Ecoinvent v3.9\n | Unit: kg\n\n");
}

#[test]
fn formatted_results_are_concatenated() {
    let out = format_result(vec![result(Some("FR")), result(None)], ResFormat::Compact);
    assert_eq!(out, "[Ecoinvent v3.9] wheat flour FR kg\n[Ecoinvent v3.9] wheat flour kg\n");
    assert_eq!(format_result(vec![], ResFormat::Json), "");
}

fn args(version: &str) -> ImportDatabaseArgs {
    ImportDatabaseArgs { version: version.to_string(), path: "/data".to_string(), kind: DatabaseKind::Ecoinvent }
}

#[test]
fn register_then_unregister() {
    let mut register = vec![args("3.8")];
    assert!(register_database(&mut register, args("3.9")));
    assert_eq!(register.len(), 2);
    assert!(!register_database(&mut register, args("3.9")));
    assert_eq!(register.len(), 2);
    assert_eq!(find_database(&register, DatabaseKind::Ecoinvent, &"3.9".to_string()), Some(1));
    assert!(unregister_database(&mut register, DatabaseKind::Ecoinvent, &"3.9".to_string()));
    assert_eq!(register.len(), 1);
    assert_eq!(register[0].version, "3.8");
    assert!(!unregister_database(&mut register, DatabaseKind::Ecoinvent, &"3.9".to_string()));
    assert_eq!(database_kind("EcoInvent"), Some(DatabaseKind::Ecoinvent));
    assert_eq!(database_kind("other"), None);
}

fn traci(flow: &str, gwp: Option<f64>) -> TRACIImpacts<f64> {
    TRACIImpacts {
        flow_id: flow.to_string(),
        gwp100: gwp,
        acidification: Some(2.0),
        eutrophication: Some(3.0),
        particulate_matter: None,
        ozone_depletion: None,
        photochemical_oxidant: None,
        ecotoxicity_freshwater: None,
        human_toxicity_carcinogenic: None,
        human_toxicity_non_carcinogenic: Some(9.0),
    }
}

#[test]
fn characterisation_matrices_keep_inventory_flows() {
    let flows = vec!["co2".to_string(), "ch4".to_string()];
    let records = vec![traci("co2", Some(1.0)), traci("n2o", Some(298.0)), traci("ch4", None)];
    let m = get_traci_matrix(&records, &flows);
    assert_eq!(m.rows.len(), 9);
    assert_eq!(m.cols, flows);
    assert_eq!(m.triplets.len(), 18);
    assert_eq!(m.triplets[0], (ImpactCategory::TRACI(TRACI::Gwp100), "co2".to_string(), 1.0));
    assert_eq!(m.triplets[5], (ImpactCategory::TRACI(TRACI::Eutrophication), "co2".to_string(), 3.0));
    assert_eq!(m.triplets[2], (ImpactCategory::TRACI(TRACI::ParticulMatter), "co2".to_string(), 0.0));
    assert_eq!(m.triplets[9], (ImpactCategory::TRACI(TRACI::Gwp100), "ch4".to_string(), 0.0));
    let all = get_impact_matrices(
        &vec!["traci", "traci"],
        &ImpactRecords { ef31: None, cml: None, traci: Some(records) },
        &flows,
    );
    assert_eq!(all.len(), 1);
    assert_eq!(all[0].0, "traci");
    assert_eq!(all[0].1.triplets.len(), 18);
}

#[test]
fn json_escapes_strings() {
    let sr = SearchResult {
        name: "a \"b\"\\c\n\u{1}".to_string(),
        database_name: "Ecoinvent".to_string(),
        database_version: "3.9".to_string(),
        location: Some("é\t".to_string()),
        unit: "kg".to_string(),
    };
    assert_eq!(
        to_json(&sr),
        r#"{"database":{"name":"Ecoinvent","version":"3.9"},"location":"é\t","name":"a \"b\"\\c\n\u0001","unit":"kg"}"#
    );
}

#[test]
fn formatting_a_concatenation_concatenates() {
    for format in [ResFormat::Compact, ResFormat::Json] {
        let a = vec![result(Some("FR"))];
        let b = vec![result(None), result(Some("DE"))];
        let mut both = Vec::new();
        both.extend(a.iter().map(|r| SearchResult { ..clone_result(r) }));
        both.extend(b.iter().map(clone_result));
        let joined = format_result(both, format);
        let expected = format_result(a, format) + &format_result(b, format);
        assert_eq!(joined, expected);
    }
}

fn clone_result(r: &SearchResult) -> SearchResult {
    SearchResult {
        name: r.name.clone(),
        database_name: r.database_name.clone(),
        database_version: r.database_version.clone(),
        location: r.location.clone(),
        unit: r.unit.clone(),
    }
}
