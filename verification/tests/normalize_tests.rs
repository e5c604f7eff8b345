use grid_ingest::errors::ParseError;
use grid_ingest::json::{JsonNumber, JsonValue};
use grid_ingest::normalize::{parse_generation_payload, parse_outage_payload};

#[test]
fn outage_payload_keeps_every_region_in_order() {
    let text = r#"{
        "timestamp": "03/10/2024 09:00 AM",
        "regions": [
            {
                "name": "San Juan",
                "totalClients": 100,
                "totalClientsWithoutService": 25,
                "totalClientsWithService": 75,
                "totalClientsAffectedByPlannedOutage": 5,
                "percentageClientsWithoutService": 25.5,
                "percentageClientsWithService": 74.5
            },
            {
                "name": "Ponce",
                "totalClients": 40,
                "totalClientsWithoutService": 0,
                "totalClientsWithService": 40,
                "totalClientsAffectedByPlannedOutage": 0,
                "percentageClientsWithoutService": 0,
                "percentageClientsWithService": 100
            }
        ],
        "totals": {
            "totalClientsWithoutService": 25,
            "totalClients": 140,
            "totalClientsWithService": 115,
            "totalPercentageWithoutService": 17.86,
            "totalClientsAffectedByPlannedOutage": 5,
            "totalPercentageWithService": 82.14
        }
    }"#;
    let snap = parse_outage_payload(text).unwrap();
    assert_eq!(snap.timestamp, "03/10/2024 09:00 AM");
    assert_eq!(snap.regions.len(), 2);
    assert_eq!(snap.regions[0].name, "San Juan");
    assert_eq!(snap.regions[0].total_clients, 100);
    assert_eq!(snap.regions[0].total_clients_without_service, 25);
    assert_eq!(snap.regions[0].total_clients_with_service, 75);
    assert_eq!(snap.regions[0].total_clients_affected_by_planned_outage, 5);
    assert_eq!(
        snap.regions[0].percentage_clients_without_service,
        JsonNumber::Dec("25.5".to_string())
    );
    assert_eq!(
        snap.regions[0].percentage_clients_with_service,
        JsonNumber::Dec("74.5".to_string())
    );
    assert_eq!(snap.regions[1].name, "Ponce");
    assert_eq!(snap.regions[1].percentage_clients_without_service, JsonNumber::Int(0));
    assert_eq!(snap.regions[1].percentage_clients_with_service, JsonNumber::Int(100));
    assert_eq!(snap.totals.total_clients, 140);
    assert_eq!(
        snap.totals.total_percentage_without_service,
        JsonNumber::Dec("17.86".to_string())
    );
}

#[test]
fn missing_optional_region_fields_take_zero_defaults() {
    let text = r#"{
        "timestamp": "03/10/2024 09:00 AM",
        "regions": [{}],
        "totals": {}
    }"#;
    let snap = parse_outage_payload(text).unwrap();
    assert_eq!(snap.regions[0].name, "");
    assert_eq!(snap.regions[0].total_clients, 0);
    assert_eq!(snap.regions[0].percentage_clients_without_service, JsonNumber::Int(0));
    assert_eq!(snap.totals.total_clients, 0);
}

#[test]
fn unknown_extra_fields_are_ignored() {
    let text = r#"{
        "timestamp": "03/10/2024 09:00 AM",
        "regions": [{"name": "Arecibo", "somethingNew": true}],
        "totals": {"futureField": [1, 2, 3]}
    }"#;
    let snap = parse_outage_payload(text).unwrap();
    assert_eq!(snap.regions[0].name, "Arecibo");
}

#[test]
fn missing_required_outage_fields_are_fatal() {
    let no_timestamp = r#"{"regions": [], "totals": {}}"#;
    assert_eq!(parse_outage_payload(no_timestamp), Err(ParseError::MissingField));
    let no_regions = r#"{"timestamp": "x", "totals": {}}"#;
    assert_eq!(parse_outage_payload(no_regions), Err(ParseError::MissingField));
    let no_totals = r#"{"timestamp": "x", "regions": []}"#;
    assert_eq!(parse_outage_payload(no_totals), Err(ParseError::MissingField));
}

#[test]
fn wrongly_shaped_outage_fields_are_fatal() {
    assert_eq!(
        parse_outage_payload(r#"{"timestamp": 42, "regions": [], "totals": {}}"#),
        Err(ParseError::WrongType)
    );
    assert_eq!(
        parse_outage_payload(r#"{"timestamp": "x", "regions": 5, "totals": {}}"#),
        Err(ParseError::WrongType)
    );
    assert_eq!(
        parse_outage_payload(
            r#"{"timestamp": "x", "regions": [{"name": 3}], "totals": {}}"#
        ),
        Err(ParseError::WrongType)
    );
    assert_eq!(parse_outage_payload("[1, 2]"), Err(ParseError::WrongType));
}

#[test]
fn unparseable_text_is_a_syntax_error() {
    assert_eq!(parse_outage_payload("not json at all"), Err(ParseError::Syntax));
    assert_eq!(parse_generation_payload(""), Err(ParseError::Syntax));
}

#[test]
fn generation_payload_normalizes_every_list() {
    let text = r#"{
        "dataFechaAcualizado": "03/10/2024 09:00:00 AM",
        "dataFuelCost": [{"place": "Costa Sur", "value": 12}],
        "dataByFuel": [{"fuel": "Gas", "value": 40}, {"fuel": "Diesel", "value": 3}],
        "dataMetrics": [{"Index": "m1", "Desc": "frequency", "value": {"nested": [1, 2]}}],
        "dataLoadPerSite": [{
            "Index": "7",
            "Type": "thermal",
            "Desc": "south",
            "SiteTotal": 350,
            "units": [
                {"Index": "u1", "Unit": "CS-1", "MW": 200, "MVar": "45", "Cost": 10.5, "ParentId": "p7"},
                {"Index": "u2", "Unit": "CS-2", "MW": 150, "MVar": "30", "Cost": 9, "ParentId": "p7"}
            ]
        }]
    }"#;
    let frame = parse_generation_payload(text).unwrap();
    assert_eq!(frame.data_fecha_acualizado, "03/10/2024 09:00:00 AM");
    assert_eq!(frame.data_fuel_cost.len(), 1);
    assert_eq!(frame.data_fuel_cost[0].place, "Costa Sur");
    assert_eq!(frame.data_fuel_cost[0].value, 12);
    assert_eq!(frame.data_by_fuel.len(), 2);
    assert_eq!(frame.data_by_fuel[1].fuel, "Diesel");
    assert_eq!(frame.data_metrics.len(), 1);
    assert_eq!(frame.data_metrics[0].index, "m1");
    assert_eq!(frame.data_metrics[0].desc, "frequency");
    assert_eq!(
        frame.data_metrics[0].value,
        JsonValue::Object(vec![(
            "nested".to_string(),
            JsonValue::Array(vec![JsonValue::Int(1), JsonValue::Int(2)])
        )])
    );
    assert_eq!(frame.data_load_per_site.len(), 1);
    let site = &frame.data_load_per_site[0];
    assert_eq!(site.index, "7");
    assert_eq!(site.type_field, "thermal");
    assert_eq!(site.site_total, 350);
    assert_eq!(site.units.len(), 2);
    assert_eq!(site.units[0].unit, "CS-1");
    assert_eq!(site.units[0].mw, 200);
    assert_eq!(site.units[0].mvar, "45");
    assert_eq!(site.units[0].cost, JsonNumber::Dec("10.5".to_string()));
    assert_eq!(site.units[1].cost, JsonNumber::Int(9));
    assert_eq!(site.units[1].parent_id, "p7");
    // The upstream omits loadPerSiteIndex; it defaults to empty text.
    assert_eq!(site.units[0].load_per_site_index, "");
}

#[test]
fn generation_payload_missing_data_by_fuel_is_fatal() {
    let text = r#"{
        "dataFechaAcualizado": "03/10/2024 09:00:00 AM",
        "dataFuelCost": [],
        "dataMetrics": [],
        "dataLoadPerSite": []
    }"#;
    assert_eq!(parse_generation_payload(text), Err(ParseError::MissingField));
}

#[test]
fn metric_value_may_take_any_shape() {
    let text = r#"{
        "dataFechaAcualizado": "x",
        "dataFuelCost": [],
        "dataByFuel": [],
        "dataMetrics": [
            {"Index": "a", "Desc": "n", "value": 7},
            {"Index": "b", "Desc": "s", "value": "text"},
            {"Index": "c", "Desc": "missing"}
        ],
        "dataLoadPerSite": []
    }"#;
    let frame = parse_generation_payload(text).unwrap();
    assert_eq!(frame.data_metrics[0].value, JsonValue::Int(7));
    assert_eq!(frame.data_metrics[1].value, JsonValue::Text("text".to_string()));
    assert_eq!(frame.data_metrics[2].value, JsonValue::Null);
}

#[test]
fn missing_units_default_to_an_empty_list() {
    let text = r#"{
        "dataFechaAcualizado": "x",
        "dataFuelCost": [],
        "dataByFuel": [],
        "dataMetrics": [],
        "dataLoadPerSite": [{"Index": "1", "Type": "t", "Desc": "d", "SiteTotal": 0}]
    }"#;
    let frame = parse_generation_payload(text).unwrap();
    assert_eq!(frame.data_load_per_site[0].units.len(), 0);
}
