use grid_ingest::errors::TimeError;
use grid_ingest::time::{local_string_of_epoch, resolve_generation_timestamp, resolve_outage_timestamp};

#[test]
fn outage_timestamp_resolves_to_known_epoch() {
    // 2024-03-10 09:00 AST (-04:00) is 2024-03-10 13:00 UTC.
    assert_eq!(resolve_outage_timestamp("03/10/2024 09:00 AM"), Ok(1710075600));
}

#[test]
fn resolution_is_deterministic() {
    let a = resolve_outage_timestamp("03/10/2024 09:00 AM");
    let b = resolve_outage_timestamp("03/10/2024 09:00 AM");
    assert_eq!(a, b);
    assert_eq!(a, Ok(1710075600));
}

#[test]
fn generation_timestamp_carries_seconds() {
    assert_eq!(resolve_generation_timestamp("03/10/2024 09:00:30 AM"), Ok(1710075630));
}

#[test]
fn resolution_round_trips_without_seconds() {
    let epoch = resolve_outage_timestamp("03/10/2024 09:00 AM").unwrap();
    assert_eq!(local_string_of_epoch(epoch, false).unwrap(), "03/10/2024 09:00 AM");
}

#[test]
fn resolution_round_trips_with_seconds() {
    let epoch = resolve_generation_timestamp("12/31/2023 11:59:59 PM").unwrap();
    assert_eq!(local_string_of_epoch(epoch, true).unwrap(), "12/31/2023 11:59:59 PM");
}

#[test]
fn twelve_am_is_midnight_and_twelve_pm_is_noon() {
    let midnight = resolve_outage_timestamp("03/10/2024 12:05 AM").unwrap();
    let noon = resolve_outage_timestamp("03/10/2024 12:05 PM").unwrap();
    assert_eq!(noon - midnight, 12 * 3600);
    assert_eq!(local_string_of_epoch(midnight, false).unwrap(), "03/10/2024 12:05 AM");
    assert_eq!(local_string_of_epoch(noon, false).unwrap(), "03/10/2024 12:05 PM");
}

#[test]
fn unpadded_text_is_a_format_error() {
    assert_eq!(resolve_outage_timestamp("3/10/2024 09:00 AM"), Err(TimeError::Format));
}

#[test]
fn impossible_dates_are_format_errors() {
    assert_eq!(resolve_outage_timestamp("02/30/2024 09:00 AM"), Err(TimeError::Format));
    assert_eq!(resolve_outage_timestamp("13/01/2024 09:00 AM"), Err(TimeError::Format));
    assert_eq!(resolve_outage_timestamp("02/29/2023 09:00 AM"), Err(TimeError::Format));
    assert_eq!(resolve_outage_timestamp("03/10/2024 13:00 AM"), Err(TimeError::Format));
    assert_eq!(resolve_outage_timestamp("03/10/2024 09:61 AM"), Err(TimeError::Format));
}

#[test]
fn leap_day_of_a_leap_year_resolves() {
    // 2024-02-29 00:00 AST is 2024-02-29 04:00 UTC.
    assert_eq!(resolve_outage_timestamp("02/29/2024 12:00 AM"), Ok(1709179200));
}

#[test]
fn seconds_format_rejects_the_short_form_and_vice_versa() {
    assert_eq!(resolve_generation_timestamp("03/10/2024 09:00 AM"), Err(TimeError::Format));
    assert_eq!(resolve_outage_timestamp("03/10/2024 09:00:30 AM"), Err(TimeError::Format));
}

#[test]
fn wartime_clock_gap_is_a_zone_error() {
    // At 1942-05-03 00:00 the zone sprang forward to AWT: that first
    // hour of the local clock never existed.
    assert_eq!(resolve_outage_timestamp("05/03/1942 12:30 AM"), Err(TimeError::Zone));
}

#[test]
fn wartime_clock_fold_is_a_zone_error() {
    // At 1945-09-30 02:00 the zone fell back: 01:30 happened twice.
    assert_eq!(resolve_outage_timestamp("09/30/1945 01:30 AM"), Err(TimeError::Zone));
}
