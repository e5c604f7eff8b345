use grid_ingest::json::JsonNumber;
use grid_ingest::model::{DataLoadPerSite, LumaServiceRegions, Region, Totals, Unit};
use grid_ingest::normalize::parse_outage_payload;
use grid_ingest::rows::{
    outage_region_rows, outage_totals_row, unit_rows_for_site, write_step, WritePolicy, WriteStep,
};

fn sample_unit(index: &str, mw: i64) -> Unit {
    Unit {
        load_per_site_index: String::new(),
        index: index.to_string(),
        unit: format!("U-{}", index),
        mw,
        mvar: "12".to_string(),
        cost: JsonNumber::Dec("9.5".to_string()),
        parent_id: "p".to_string(),
    }
}

#[test]
fn every_unit_row_carries_the_epoch_and_its_parent_index() {
    let site = DataLoadPerSite {
        index: "7".to_string(),
        type_field: "thermal".to_string(),
        desc: "south".to_string(),
        site_total: 350,
        units: vec![sample_unit("u1", 200), sample_unit("u2", 150), sample_unit("u3", 10)],
    };
    let rows = unit_rows_for_site(&site, 1710075600);
    assert_eq!(rows.len(), 3);
    for (k, row) in rows.iter().enumerate() {
        assert_eq!(row.time, 1710075600);
        assert_eq!(row.load_per_site_index, "7");
        assert_eq!(row.index, site.units[k].index);
        assert_eq!(row.unit, site.units[k].unit);
        assert_eq!(row.mw, site.units[k].mw);
        assert_eq!(row.mvar, site.units[k].mvar);
        assert_eq!(row.cost, site.units[k].cost);
        assert_eq!(row.parent_id, site.units[k].parent_id);
    }
}

fn sample_snapshot() -> LumaServiceRegions {
    LumaServiceRegions {
        regions: vec![
            Region {
                name: "San Juan".to_string(),
                total_clients: 100,
                total_clients_without_service: 25,
                total_clients_with_service: 75,
                total_clients_affected_by_planned_outage: 5,
                percentage_clients_without_service: JsonNumber::Dec("25.5".to_string()),
                percentage_clients_with_service: JsonNumber::Dec("74.5".to_string()),
            },
            Region {
                name: "Ponce".to_string(),
                total_clients: 40,
                total_clients_without_service: 0,
                total_clients_with_service: 40,
                total_clients_affected_by_planned_outage: 0,
                percentage_clients_without_service: JsonNumber::Int(0),
                percentage_clients_with_service: JsonNumber::Int(100),
            },
        ],
        totals: Totals {
            total_clients_without_service: 25,
            total_clients: 140,
            total_clients_with_service: 115,
            total_percentage_without_service: JsonNumber::Dec("17.86".to_string()),
            total_clients_affected_by_planned_outage: 5,
            total_percentage_with_service: JsonNumber::Dec("82.14".to_string()),
        },
        timestamp: "03/10/2024 09:00 AM".to_string(),
    }
}

#[test]
fn outage_rows_key_every_record_by_the_epoch() {
    let snap = sample_snapshot();
    let rows = outage_region_rows(&snap, 1710075600);
    assert_eq!(rows.len(), 2);
    assert_eq!(rows[0].time, 1710075600);
    assert_eq!(rows[0].name, "San Juan");
    assert_eq!(rows[1].time, 1710075600);
    assert_eq!(rows[1].name, "Ponce");
    assert_eq!(rows[1].percentage_clients_with_service, JsonNumber::Int(100));
    let totals = outage_totals_row(&snap, 1710075600);
    assert_eq!(totals.time, 1710075600);
    assert_eq!(totals.total_clients, 140);
}

#[test]
fn rerunning_ingestion_plans_identical_rows_so_appends_duplicate() {
    let text = r#"{
        "timestamp": "03/10/2024 09:00 AM",
        "regions": [{"name": "Mayaguez", "totalClients": 8}],
        "totals": {"totalClients": 8}
    }"#;
    let first = outage_region_rows(&parse_outage_payload(text).unwrap(), 1710075600);
    let second = outage_region_rows(&parse_outage_payload(text).unwrap(), 1710075600);
    assert_eq!(first, second);
    // With no dedup layer, an append-only store now holds each row twice.
    let mut stored = first;
    stored.extend(second);
    assert_eq!(stored.len(), 2);
    assert_eq!(stored[0], stored[1]);
}

#[test]
fn write_policy_defaults_to_fatal() {
    assert_eq!(WritePolicy::default(), WritePolicy::FatalOnError);
}

#[test]
fn write_step_aborts_only_a_failed_insert_under_the_fatal_policy() {
    assert_eq!(write_step(WritePolicy::FatalOnError, true), WriteStep::Continue);
    assert_eq!(write_step(WritePolicy::FatalOnError, false), WriteStep::Abort);
    assert_eq!(write_step(WritePolicy::SkipAndContinue, true), WriteStep::Continue);
    assert_eq!(write_step(WritePolicy::SkipAndContinue, false), WriteStep::Continue);
}
