use grid_ingest::sandbox::{build_eval_script, clean_script};

#[test]
fn cleaning_strips_newlines_and_tabs_only() {
    assert_eq!(clean_script("var a = 1;\nvar b = 2;\t"), "var a = 1;var b = 2;");
    assert_eq!(clean_script("\n\t\n"), "");
    assert_eq!(clean_script("untouched text"), "untouched text");
}

#[test]
fn cleaning_is_idempotent() {
    let once = clean_script("a\nb\tc");
    let twice = clean_script(once.as_str());
    assert_eq!(once, twice);
}

#[test]
fn built_script_appends_the_fixed_epilogue() {
    let built = build_eval_script("var dataByFuel = [];\n");
    assert_eq!(
        built,
        "var dataByFuel = []; JSON.stringify({dataFechaAcualizado,dataFuelCost,dataByFuel,dataMetrics,dataLoadPerSite});"
    );
}

#[test]
fn built_script_names_the_five_expected_variables() {
    let built = build_eval_script("");
    for name in [
        "dataFechaAcualizado",
        "dataFuelCost",
        "dataByFuel",
        "dataMetrics",
        "dataLoadPerSite",
    ] {
        assert!(built.contains(name));
    }
}
