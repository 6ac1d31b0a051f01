use pine_analysis::builtins::Builtins;
use pine_analysis::types::{BaseType, Type};

#[test]
fn builtins_include_core_v6_items() {
    let b = Builtins::new();
    assert!(
        b.value_type("syminfo.isin").is_some(),
        "syminfo.isin missing"
    );
    assert!(
        b.value_type("plot.linestyle_solid").is_some(),
        "plot.linestyle_solid missing"
    );
    assert!(
        b.value_type("text.format_bold").is_some(),
        "text.format_bold missing"
    );

    assert!(b.function("library").is_some(), "library missing");
    assert!(b.function("input.enum").is_some(), "input.enum missing");
    assert!(
        b.function("str.match_all").is_some(),
        "str.match_all missing"
    );
    assert!(b.function("str.indexof").is_some(), "str.indexof missing");
    assert!(
        b.function("chart.point.from_index").is_some(),
        "chart.point.from_index missing"
    );
    assert!(
        b.function("time")
            .map(|f| f.signature.contains("timeframe_bars_back"))
            .unwrap_or(false),
        "time missing timeframe_bars_back param"
    );
    assert!(
        b.function("plot")
            .map(|f| f.signature.contains("force_overlay"))
            .unwrap_or(false),
        "plot missing force_overlay param"
    );
    assert!(
        b.function("label.new")
            .map(|f| f.signature.contains("text_formatting"))
            .unwrap_or(false),
        "label.new missing text_formatting param"
    );
    assert!(
        b.function("request.security")
            .map(|f| f.signature.contains("gaps"))
            .unwrap_or(false),
        "request.security missing gaps param"
    );
    assert!(
        b.function("request.security")
            .map(|f| f.signature.contains("lookahead"))
            .unwrap_or(false),
        "request.security missing lookahead param"
    );
}

#[test]
fn unknown_names_are_absent() {
    let b = Builtins::new();
    assert!(b.function("no.such.function").is_none());
    assert!(!b.is_function("no.such.function"));
    assert!(b.value_type("no.such.value").is_none());
    assert!(b.is_function("ta.sma"));
}

#[test]
fn value_types_are_recorded() {
    let b = Builtins::new();
    match b.value_type("close") {
        Some(Type::Series(BaseType::Float)) => {}
        other => panic!("unexpected type for close: {:?}", other),
    }
    match b.value_type("bar_index") {
        Some(Type::Series(BaseType::Int)) => {}
        other => panic!("unexpected type for bar_index: {:?}", other),
    }
}

#[test]
fn tables_have_one_entry_per_name() {
    let b = Builtins::new();
    let values = b.values();
    let mut names: Vec<&str> = values.iter().map(|(n, _)| n.as_str()).collect();
    let total = names.len();
    names.sort();
    names.dedup();
    assert_eq!(names.len(), total);
    let functions = b.functions();
    let mut fnames: Vec<&str> = functions.iter().map(|f| f.name).collect();
    let ftotal = fnames.len();
    fnames.sort();
    fnames.dedup();
    assert_eq!(fnames.len(), ftotal);
    assert!(ftotal > 100);
}
