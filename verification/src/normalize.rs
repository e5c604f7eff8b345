//! The schema normalizer.
//!
//! Upstream payloads spell their field names inconsistently: the outage
//! source uses lowerCamelCase, the generation source capitalizes most of
//! its per-record keys. Each reader below names the upstream key it
//! accepts; the records keep the pipeline's own names. A missing optional
//! field takes a zero value (empty text, zero count); a missing required
//! top-level field (timestamp or a root array) is a fatal parse error; a
//! field of the wrong shape is always an error.

use crate::errors::ParseError;
use crate::json::{
    clone_json, get_field, json_model_fields, json_model_seq, json_of_text, lemma_json_model_seq,
    obj_get, parse_json, Json, JsonNumber, JsonValue,
};
use crate::model::{
    by_fuel_seq_view, fuel_cost_seq_view, load_seq_view, metric_seq_view, region_seq_view,
    unit_seq_view, ByFuelModel, DataByFuel, DataFuelCost, DataLoadPerSite, DataMetric,
    FuelCostModel, GenerationDataFrame, GenerationModel, LoadPerSiteModel, LumaModel,
    LumaServiceRegions, MetricModel, Region, RegionModel, Totals, TotalsModel, Unit, UnitModel,
};
use vstd::prelude::*;

verus! {

// ---------------------------------------------------------------------
// Field readers
// ---------------------------------------------------------------------

/// An optional text field: absent means empty text.
pub open spec fn opt_str_field(fs: Seq<(Seq<char>, Json)>, key: Seq<char>) -> Result<
    Seq<char>,
    ParseError,
> {
    match obj_get(fs, key) {
        Option::None => Ok(Seq::empty()),
        Option::Some(Json::Text(t)) => Ok(t),
        Option::Some(_) => Err(ParseError::WrongType),
    }
}

/// An optional integer field: absent means zero.
pub open spec fn opt_int_field(fs: Seq<(Seq<char>, Json)>, key: Seq<char>) -> Result<
    int,
    ParseError,
> {
    match obj_get(fs, key) {
        Option::None => Ok(0int),
        Option::Some(Json::Int(n)) => Ok(n),
        Option::Some(_) => Err(ParseError::WrongType),
    }
}

/// An optional numeric field, relayed exactly: absent means zero.
pub open spec fn opt_num_field(fs: Seq<(Seq<char>, Json)>, key: Seq<char>) -> Result<
    crate::json::NumModel,
    ParseError,
> {
    match obj_get(fs, key) {
        Option::None => Ok(crate::json::NumModel::Int(0)),
        Option::Some(Json::Int(n)) => Ok(crate::json::NumModel::Int(n)),
        Option::Some(Json::Num(t)) => Ok(crate::json::NumModel::Dec(t)),
        Option::Some(_) => Err(ParseError::WrongType),
    }
}

/// A required text field: absence is a fatal parse error.
pub open spec fn req_str_field(fs: Seq<(Seq<char>, Json)>, key: Seq<char>) -> Result<
    Seq<char>,
    ParseError,
> {
    match obj_get(fs, key) {
        Option::None => Err(ParseError::MissingField),
        Option::Some(Json::Text(t)) => Ok(t),
        Option::Some(_) => Err(ParseError::WrongType),
    }
}

/// A required array field: absence is a fatal parse error.
pub open spec fn req_array_field(fs: Seq<(Seq<char>, Json)>, key: Seq<char>) -> Result<
    Seq<Json>,
    ParseError,
> {
    match obj_get(fs, key) {
        Option::None => Err(ParseError::MissingField),
        Option::Some(Json::Array(a)) => Ok(a),
        Option::Some(_) => Err(ParseError::WrongType),
    }
}

/// An optional array field: absent means the empty list.
pub open spec fn opt_array_field(fs: Seq<(Seq<char>, Json)>, key: Seq<char>) -> Result<
    Seq<Json>,
    ParseError,
> {
    match obj_get(fs, key) {
        Option::None => Ok(Seq::empty()),
        Option::Some(Json::Array(a)) => Ok(a),
        Option::Some(_) => Err(ParseError::WrongType),
    }
}

/// A field relayed opaquely, whatever its shape: absent means null.
pub open spec fn value_field(fs: Seq<(Seq<char>, Json)>, key: Seq<char>) -> Json {
    match obj_get(fs, key) {
        Option::None => Json::Null,
        Option::Some(v) => v,
    }
}

/// Reads an optional text field, defaulting to the empty string.
pub fn read_opt_str(fs: &Vec<(String, JsonValue)>, key: &str) -> (r: Result<String, ParseError>)
    ensures
        match r {
            Ok(s) => opt_str_field(json_model_fields(fs@), key@) == Ok::<Seq<char>, ParseError>(
                s@,
            ),
            Err(e) => opt_str_field(json_model_fields(fs@), key@) == Err::<Seq<char>, ParseError>(
                e,
            ),
        },
{
    match get_field(fs, key) {
        Option::None => Ok(String::new()),
        Option::Some(JsonValue::Text(t)) => Ok(t.clone()),
        Option::Some(other) => Err(ParseError::WrongType),
    }
}

/// Reads an optional integer field, defaulting to zero.
pub fn read_opt_i64(fs: &Vec<(String, JsonValue)>, key: &str) -> (r: Result<i64, ParseError>)
    ensures
        match r {
            Ok(n) => opt_int_field(json_model_fields(fs@), key@) == Ok::<int, ParseError>(
                n as int,
            ),
            Err(e) => opt_int_field(json_model_fields(fs@), key@) == Err::<int, ParseError>(e),
        },
{
    match get_field(fs, key) {
        Option::None => Ok(0),
        Option::Some(JsonValue::Int(n)) => Ok(*n),
        Option::Some(other) => Err(ParseError::WrongType),
    }
}

/// Reads an optional numeric field, relayed exactly, defaulting to zero.
pub fn read_opt_num(fs: &Vec<(String, JsonValue)>, key: &str) -> (r: Result<JsonNumber, ParseError>)
    ensures
        match r {
            Ok(n) => opt_num_field(json_model_fields(fs@), key@) == Ok::<
                crate::json::NumModel,
                ParseError,
            >(n@),
            Err(e) => opt_num_field(json_model_fields(fs@), key@) == Err::<
                crate::json::NumModel,
                ParseError,
            >(e),
        },
{
    match get_field(fs, key) {
        Option::None => Ok(JsonNumber::Int(0)),
        Option::Some(JsonValue::Int(n)) => Ok(JsonNumber::Int(*n)),
        Option::Some(JsonValue::Num(t)) => Ok(JsonNumber::Dec(t.clone())),
        Option::Some(other) => Err(ParseError::WrongType),
    }
}

/// Reads a required text field.
pub fn read_req_str(fs: &Vec<(String, JsonValue)>, key: &str) -> (r: Result<String, ParseError>)
    ensures
        match r {
            Ok(s) => req_str_field(json_model_fields(fs@), key@) == Ok::<Seq<char>, ParseError>(
                s@,
            ),
            Err(e) => req_str_field(json_model_fields(fs@), key@) == Err::<Seq<char>, ParseError>(
                e,
            ),
        },
{
    match get_field(fs, key) {
        Option::None => Err(ParseError::MissingField),
        Option::Some(JsonValue::Text(t)) => Ok(t.clone()),
        Option::Some(other) => Err(ParseError::WrongType),
    }
}

/// Reads a field relayed opaquely, defaulting to null.
pub fn read_value(fs: &Vec<(String, JsonValue)>, key: &str) -> (r: JsonValue)
    ensures
        r@ == value_field(json_model_fields(fs@), key@),
{
    match get_field(fs, key) {
        Option::None => JsonValue::Null,
        Option::Some(v) => clone_json(v),
    }
}

// ---------------------------------------------------------------------
// Outage records
// ---------------------------------------------------------------------

/// A region entry has the expected shape: an object whose present fields
/// hold text, counts and numbers where the schema expects them.
pub open spec fn region_wf(j: Json) -> bool {
    &&& j is Object
    &&& opt_str_field(j->Object_0, "name"@) is Ok
    &&& opt_int_field(j->Object_0, "totalClients"@) is Ok
    &&& opt_int_field(j->Object_0, "totalClientsWithoutService"@) is Ok
    &&& opt_int_field(j->Object_0, "totalClientsWithService"@) is Ok
    &&& opt_int_field(j->Object_0, "totalClientsAffectedByPlannedOutage"@) is Ok
    &&& opt_num_field(j->Object_0, "percentageClientsWithoutService"@) is Ok
    &&& opt_num_field(j->Object_0, "percentageClientsWithService"@) is Ok
}

/// The region record a well-shaped entry normalizes to.
pub open spec fn region_model(j: Json) -> RegionModel {
    RegionModel {
        name: opt_str_field(j->Object_0, "name"@)->Ok_0,
        total_clients: opt_int_field(j->Object_0, "totalClients"@)->Ok_0,
        total_clients_without_service: opt_int_field(
            j->Object_0,
            "totalClientsWithoutService"@,
        )->Ok_0,
        total_clients_with_service: opt_int_field(j->Object_0, "totalClientsWithService"@)->Ok_0,
        total_clients_affected_by_planned_outage: opt_int_field(
            j->Object_0,
            "totalClientsAffectedByPlannedOutage"@,
        )->Ok_0,
        percentage_clients_without_service: opt_num_field(
            j->Object_0,
            "percentageClientsWithoutService"@,
        )->Ok_0,
        percentage_clients_with_service: opt_num_field(
            j->Object_0,
            "percentageClientsWithService"@,
        )->Ok_0,
    }
}

/// Normalizes one region entry.
pub fn region_of_json(j: &JsonValue) -> (r: Result<Region, ParseError>)
    ensures
        match r {
            Ok(reg) => region_wf(j@) && reg@ == region_model(j@),
            Err(e) => !region_wf(j@) && e == ParseError::WrongType,
        },
{
    let fs = match j {
        JsonValue::Object(fs) => fs,
        _ => { return Err(ParseError::WrongType); },
    };
    let name = match read_opt_str(fs, "name") {
        Ok(v) => v,
        Err(e) => { return Err(e); },
    };
    let total_clients = match read_opt_i64(fs, "totalClients") {
        Ok(v) => v,
        Err(e) => { return Err(e); },
    };
    let total_clients_without_service = match read_opt_i64(fs, "totalClientsWithoutService") {
        Ok(v) => v,
        Err(e) => { return Err(e); },
    };
    let total_clients_with_service = match read_opt_i64(fs, "totalClientsWithService") {
        Ok(v) => v,
        Err(e) => { return Err(e); },
    };
    let total_clients_affected_by_planned_outage = match read_opt_i64(
        fs,
        "totalClientsAffectedByPlannedOutage",
    ) {
        Ok(v) => v,
        Err(e) => { return Err(e); },
    };
    let percentage_clients_without_service = match read_opt_num(
        fs,
        "percentageClientsWithoutService",
    ) {
        Ok(v) => v,
        Err(e) => { return Err(e); },
    };
    let percentage_clients_with_service = match read_opt_num(fs, "percentageClientsWithService") {
        Ok(v) => v,
        Err(e) => { return Err(e); },
    };
    Ok(
        Region {
            name,
            total_clients,
            total_clients_without_service,
            total_clients_with_service,
            total_clients_affected_by_planned_outage,
            percentage_clients_without_service,
            percentage_clients_with_service,
        },
    )
}

/// A totals entry has the expected shape.
pub open spec fn totals_wf(j: Json) -> bool {
    &&& j is Object
    &&& opt_int_field(j->Object_0, "totalClientsWithoutService"@) is Ok
    &&& opt_int_field(j->Object_0, "totalClients"@) is Ok
    &&& opt_int_field(j->Object_0, "totalClientsWithService"@) is Ok
    &&& opt_num_field(j->Object_0, "totalPercentageWithoutService"@) is Ok
    &&& opt_int_field(j->Object_0, "totalClientsAffectedByPlannedOutage"@) is Ok
    &&& opt_num_field(j->Object_0, "totalPercentageWithService"@) is Ok
}

/// The totals record a well-shaped entry normalizes to.
pub open spec fn totals_model(j: Json) -> TotalsModel {
    TotalsModel {
        total_clients_without_service: opt_int_field(
            j->Object_0,
            "totalClientsWithoutService"@,
        )->Ok_0,
        total_clients: opt_int_field(j->Object_0, "totalClients"@)->Ok_0,
        total_clients_with_service: opt_int_field(j->Object_0, "totalClientsWithService"@)->Ok_0,
        total_percentage_without_service: opt_num_field(
            j->Object_0,
            "totalPercentageWithoutService"@,
        )->Ok_0,
        total_clients_affected_by_planned_outage: opt_int_field(
            j->Object_0,
            "totalClientsAffectedByPlannedOutage"@,
        )->Ok_0,
        total_percentage_with_service: opt_num_field(
            j->Object_0,
            "totalPercentageWithService"@,
        )->Ok_0,
    }
}

/// Normalizes the totals entry.
pub fn totals_of_json(j: &JsonValue) -> (r: Result<Totals, ParseError>)
    ensures
        match r {
            Ok(t) => totals_wf(j@) && t@ == totals_model(j@),
            Err(e) => !totals_wf(j@) && e == ParseError::WrongType,
        },
{
    let fs = match j {
        JsonValue::Object(fs) => fs,
        _ => { return Err(ParseError::WrongType); },
    };
    let total_clients_without_service = match read_opt_i64(fs, "totalClientsWithoutService") {
        Ok(v) => v,
        Err(e) => { return Err(e); },
    };
    let total_clients = match read_opt_i64(fs, "totalClients") {
        Ok(v) => v,
        Err(e) => { return Err(e); },
    };
    let total_clients_with_service = match read_opt_i64(fs, "totalClientsWithService") {
        Ok(v) => v,
        Err(e) => { return Err(e); },
    };
    let total_percentage_without_service = match read_opt_num(
        fs,
        "totalPercentageWithoutService",
    ) {
        Ok(v) => v,
        Err(e) => { return Err(e); },
    };
    let total_clients_affected_by_planned_outage = match read_opt_i64(
        fs,
        "totalClientsAffectedByPlannedOutage",
    ) {
        Ok(v) => v,
        Err(e) => { return Err(e); },
    };
    let total_percentage_with_service = match read_opt_num(fs, "totalPercentageWithService") {
        Ok(v) => v,
        Err(e) => { return Err(e); },
    };
    Ok(
        Totals {
            total_clients_without_service,
            total_clients,
            total_clients_with_service,
            total_percentage_without_service,
            total_clients_affected_by_planned_outage,
            total_percentage_with_service,
        },
    )
}

/// Every region entry of the array is well shaped.
pub open spec fn regions_wf(a: Seq<Json>) -> bool {
    forall|i: int| 0 <= i < a.len() ==> region_wf(#[trigger] a[i])
}

/// The region records a well-shaped array normalizes to, in order.
pub open spec fn regions_model(a: Seq<Json>) -> Seq<RegionModel> {
    Seq::new(a.len(), |i: int| region_model(a[i]))
}

/// Normalizes a region array, keeping the payload's order.
#[verifier::loop_isolation(false)]
pub fn regions_of_json(items: &Vec<JsonValue>) -> (r: Result<Vec<Region>, ParseError>)
    ensures
        match r {
            Ok(v) => regions_wf(json_model_seq(items@)) && region_seq_view(v@) == regions_model(
                json_model_seq(items@),
            ),
            Err(e) => !regions_wf(json_model_seq(items@)) && e == ParseError::WrongType,
        },
{
    proof {
        lemma_json_model_seq(items@);
    }
    let ghost a = json_model_seq(items@);
    let mut out: Vec<Region> = Vec::new();
    let mut i: usize = 0;
    while i < items.len()
        invariant
            0 <= i <= items@.len(),
            out@.len() == i,
            forall|k: int| 0 <= k < i ==> region_wf(#[trigger] a[k]),
            forall|k: int| 0 <= k < i ==> #[trigger] out@[k]@ == region_model(a[k]),
        decreases items@.len() - i,
    {
        match region_of_json(&items[i]) {
            Ok(reg) => { out.push(reg); },
            Err(e) => {
                proof {
                    assert(!region_wf(a[i as int]));
                }
                return Err(e);
            },
        }
        i = i + 1;
    }
    proof {
        assert(region_seq_view(out@) =~= regions_model(a));
    }
    Ok(out)
}

/// How a decoded outage payload normalizes: the snapshot it yields, or
/// the error that rejects it. The timestamp, the regions array and the
/// totals entry are required, in that order of inspection.
pub open spec fn outage_model(j: Json) -> Result<LumaModel, ParseError> {
    if !(j is Object) {
        Err(ParseError::WrongType)
    } else {
        let fs = j->Object_0;
        match req_str_field(fs, "timestamp"@) {
            Err(e) => Err(e),
            Ok(ts) => match req_array_field(fs, "regions"@) {
                Err(e) => Err(e),
                Ok(rs) => if !regions_wf(rs) {
                    Err(ParseError::WrongType)
                } else {
                    match obj_get(fs, "totals"@) {
                        Option::None => Err(ParseError::MissingField),
                        Option::Some(t) => if !totals_wf(t) {
                            Err(ParseError::WrongType)
                        } else {
                            Ok(
                                LumaModel {
                                    regions: regions_model(rs),
                                    totals: totals_model(t),
                                    timestamp: ts,
                                },
                            )
                        },
                    }
                },
            },
        }
    }
}

/// Normalizes a decoded outage payload.
pub fn outage_of_json(j: &JsonValue) -> (r: Result<LumaServiceRegions, ParseError>)
    ensures
        match r {
            Ok(s) => outage_model(j@) == Ok::<LumaModel, ParseError>(s@),
            Err(e) => outage_model(j@) == Err::<LumaModel, ParseError>(e),
        },
{
    let fs = match j {
        JsonValue::Object(fs) => fs,
        _ => { return Err(ParseError::WrongType); },
    };
    let timestamp = match read_req_str(fs, "timestamp") {
        Ok(v) => v,
        Err(e) => { return Err(e); },
    };
    let region_items = match get_field(fs, "regions") {
        Option::Some(JsonValue::Array(items)) => items,
        Option::Some(other) => { return Err(ParseError::WrongType); },
        Option::None => { return Err(ParseError::MissingField); },
    };
    let regions = match regions_of_json(region_items) {
        Ok(v) => v,
        Err(e) => { return Err(e); },
    };
    let totals = match get_field(fs, "totals") {
        Option::Some(t) => match totals_of_json(t) {
            Ok(v) => v,
            Err(e) => { return Err(e); },
        },
        Option::None => { return Err(ParseError::MissingField); },
    };
    Ok(LumaServiceRegions { regions, totals, timestamp })
}

/// Decodes and normalizes an outage payload from raw text.
pub fn parse_outage_payload(text: &str) -> (r: Result<LumaServiceRegions, ParseError>)
    ensures
        match json_of_text(text@) {
            Option::None => r == Err::<LumaServiceRegions, ParseError>(ParseError::Syntax),
            Option::Some(jm) => match r {
                Ok(s) => outage_model(jm) == Ok::<LumaModel, ParseError>(s@),
                Err(e) => outage_model(jm) == Err::<LumaModel, ParseError>(e),
            },
        },
{
    match parse_json(text) {
        Option::Some(v) => outage_of_json(&v),
        Option::None => Err(ParseError::Syntax),
    }
}

// ---------------------------------------------------------------------
// Generation records
// ---------------------------------------------------------------------

/// A fuel-cost entry has the expected shape.
pub open spec fn fuel_cost_wf(j: Json) -> bool {
    &&& j is Object
    &&& opt_str_field(j->Object_0, "place"@) is Ok
    &&& opt_int_field(j->Object_0, "value"@) is Ok
}

/// The fuel-cost record a well-shaped entry normalizes to.
pub open spec fn fuel_cost_model(j: Json) -> FuelCostModel {
    FuelCostModel {
        place: opt_str_field(j->Object_0, "place"@)->Ok_0,
        value: opt_int_field(j->Object_0, "value"@)->Ok_0,
    }
}

/// Normalizes one fuel-cost entry.
pub fn fuel_cost_of_json(j: &JsonValue) -> (r: Result<DataFuelCost, ParseError>)
    ensures
        match r {
            Ok(c) => fuel_cost_wf(j@) && c@ == fuel_cost_model(j@),
            Err(e) => !fuel_cost_wf(j@) && e == ParseError::WrongType,
        },
{
    let fs = match j {
        JsonValue::Object(fs) => fs,
        _ => { return Err(ParseError::WrongType); },
    };
    let place = match read_opt_str(fs, "place") {
        Ok(v) => v,
        Err(e) => { return Err(e); },
    };
    let value = match read_opt_i64(fs, "value") {
        Ok(v) => v,
        Err(e) => { return Err(e); },
    };
    Ok(DataFuelCost { place, value })
}

/// A by-fuel entry has the expected shape.
pub open spec fn by_fuel_wf(j: Json) -> bool {
    &&& j is Object
    &&& opt_str_field(j->Object_0, "fuel"@) is Ok
    &&& opt_int_field(j->Object_0, "value"@) is Ok
}

/// The by-fuel record a well-shaped entry normalizes to.
pub open spec fn by_fuel_model(j: Json) -> ByFuelModel {
    ByFuelModel {
        fuel: opt_str_field(j->Object_0, "fuel"@)->Ok_0,
        value: opt_int_field(j->Object_0, "value"@)->Ok_0,
    }
}

/// Normalizes one by-fuel entry.
pub fn by_fuel_of_json(j: &JsonValue) -> (r: Result<DataByFuel, ParseError>)
    ensures
        match r {
            Ok(c) => by_fuel_wf(j@) && c@ == by_fuel_model(j@),
            Err(e) => !by_fuel_wf(j@) && e == ParseError::WrongType,
        },
{
    let fs = match j {
        JsonValue::Object(fs) => fs,
        _ => { return Err(ParseError::WrongType); },
    };
    let fuel = match read_opt_str(fs, "fuel") {
        Ok(v) => v,
        Err(e) => { return Err(e); },
    };
    let value = match read_opt_i64(fs, "value") {
        Ok(v) => v,
        Err(e) => { return Err(e); },
    };
    Ok(DataByFuel { fuel, value })
}

/// A metric entry has the expected shape; its value field never fails,
/// being relayed opaquely.
pub open spec fn metric_wf(j: Json) -> bool {
    &&& j is Object
    &&& opt_str_field(j->Object_0, "Index"@) is Ok
    &&& opt_str_field(j->Object_0, "Desc"@) is Ok
}

/// The metric record a well-shaped entry normalizes to.
pub open spec fn metric_model(j: Json) -> MetricModel {
    MetricModel {
        index: opt_str_field(j->Object_0, "Index"@)->Ok_0,
        desc: opt_str_field(j->Object_0, "Desc"@)->Ok_0,
        value: value_field(j->Object_0, "value"@),
    }
}

/// Normalizes one metric entry.
pub fn metric_of_json(j: &JsonValue) -> (r: Result<DataMetric, ParseError>)
    ensures
        match r {
            Ok(m) => metric_wf(j@) && m@ == metric_model(j@),
            Err(e) => !metric_wf(j@) && e == ParseError::WrongType,
        },
{
    let fs = match j {
        JsonValue::Object(fs) => fs,
        _ => { return Err(ParseError::WrongType); },
    };
    let index = match read_opt_str(fs, "Index") {
        Ok(v) => v,
        Err(e) => { return Err(e); },
    };
    let desc = match read_opt_str(fs, "Desc") {
        Ok(v) => v,
        Err(e) => { return Err(e); },
    };
    let value = read_value(fs, "value");
    Ok(DataMetric { index, desc, value })
}

/// A unit entry has the expected shape.
pub open spec fn unit_wf(j: Json) -> bool {
    &&& j is Object
    &&& opt_str_field(j->Object_0, "loadPerSiteIndex"@) is Ok
    &&& opt_str_field(j->Object_0, "Index"@) is Ok
    &&& opt_str_field(j->Object_0, "Unit"@) is Ok
    &&& opt_int_field(j->Object_0, "MW"@) is Ok
    &&& opt_str_field(j->Object_0, "MVar"@) is Ok
    &&& opt_num_field(j->Object_0, "Cost"@) is Ok
    &&& opt_str_field(j->Object_0, "ParentId"@) is Ok
}

/// The unit record a well-shaped entry normalizes to.
pub open spec fn unit_model(j: Json) -> UnitModel {
    UnitModel {
        load_per_site_index: opt_str_field(j->Object_0, "loadPerSiteIndex"@)->Ok_0,
        index: opt_str_field(j->Object_0, "Index"@)->Ok_0,
        unit: opt_str_field(j->Object_0, "Unit"@)->Ok_0,
        mw: opt_int_field(j->Object_0, "MW"@)->Ok_0,
        mvar: opt_str_field(j->Object_0, "MVar"@)->Ok_0,
        cost: opt_num_field(j->Object_0, "Cost"@)->Ok_0,
        parent_id: opt_str_field(j->Object_0, "ParentId"@)->Ok_0,
    }
}

/// Normalizes one unit entry.
pub fn unit_of_json(j: &JsonValue) -> (r: Result<Unit, ParseError>)
    ensures
        match r {
            Ok(u) => unit_wf(j@) && u@ == unit_model(j@),
            Err(e) => !unit_wf(j@) && e == ParseError::WrongType,
        },
{
    let fs = match j {
        JsonValue::Object(fs) => fs,
        _ => { return Err(ParseError::WrongType); },
    };
    let load_per_site_index = match read_opt_str(fs, "loadPerSiteIndex") {
        Ok(v) => v,
        Err(e) => { return Err(e); },
    };
    let index = match read_opt_str(fs, "Index") {
        Ok(v) => v,
        Err(e) => { return Err(e); },
    };
    let unit = match read_opt_str(fs, "Unit") {
        Ok(v) => v,
        Err(e) => { return Err(e); },
    };
    let mw = match read_opt_i64(fs, "MW") {
        Ok(v) => v,
        Err(e) => { return Err(e); },
    };
    let mvar = match read_opt_str(fs, "MVar") {
        Ok(v) => v,
        Err(e) => { return Err(e); },
    };
    let cost = match read_opt_num(fs, "Cost") {
        Ok(v) => v,
        Err(e) => { return Err(e); },
    };
    let parent_id = match read_opt_str(fs, "ParentId") {
        Ok(v) => v,
        Err(e) => { return Err(e); },
    };
    Ok(Unit { load_per_site_index, index, unit, mw, mvar, cost, parent_id })
}

/// Every unit entry of the array is well shaped.
pub open spec fn units_wf(a: Seq<Json>) -> bool {
    forall|i: int| 0 <= i < a.len() ==> unit_wf(#[trigger] a[i])
}

/// The unit records a well-shaped array normalizes to, in order.
pub open spec fn units_model(a: Seq<Json>) -> Seq<UnitModel> {
    Seq::new(a.len(), |i: int| unit_model(a[i]))
}

/// Normalizes a unit array, keeping the payload's order.
#[verifier::loop_isolation(false)]
pub fn units_of_json(items: &Vec<JsonValue>) -> (r: Result<Vec<Unit>, ParseError>)
    ensures
        match r {
            Ok(v) => units_wf(json_model_seq(items@)) && unit_seq_view(v@) == units_model(
                json_model_seq(items@),
            ),
            Err(e) => !units_wf(json_model_seq(items@)) && e == ParseError::WrongType,
        },
{
    proof {
        lemma_json_model_seq(items@);
    }
    let ghost a = json_model_seq(items@);
    let mut out: Vec<Unit> = Vec::new();
    let mut i: usize = 0;
    while i < items.len()
        invariant
            0 <= i <= items@.len(),
            out@.len() == i,
            forall|k: int| 0 <= k < i ==> unit_wf(#[trigger] a[k]),
            forall|k: int| 0 <= k < i ==> #[trigger] out@[k]@ == unit_model(a[k]),
        decreases items@.len() - i,
    {
        match unit_of_json(&items[i]) {
            Ok(u) => { out.push(u); },
            Err(e) => {
                proof {
                    assert(!unit_wf(a[i as int]));
                }
                return Err(e);
            },
        }
        i = i + 1;
    }
    proof {
        assert(unit_seq_view(out@) =~= units_model(a));
    }
    Ok(out)
}

/// A load-per-site entry has the expected shape, its units included.
pub open spec fn load_wf(j: Json) -> bool {
    &&& j is Object
    &&& opt_str_field(j->Object_0, "Index"@) is Ok
    &&& opt_str_field(j->Object_0, "Type"@) is Ok
    &&& opt_str_field(j->Object_0, "Desc"@) is Ok
    &&& opt_int_field(j->Object_0, "SiteTotal"@) is Ok
    &&& opt_array_field(j->Object_0, "units"@) is Ok
    &&& units_wf(opt_array_field(j->Object_0, "units"@)->Ok_0)
}

/// The load-per-site record a well-shaped entry normalizes to.
pub open spec fn load_model(j: Json) -> LoadPerSiteModel {
    LoadPerSiteModel {
        index: opt_str_field(j->Object_0, "Index"@)->Ok_0,
        type_field: opt_str_field(j->Object_0, "Type"@)->Ok_0,
        desc: opt_str_field(j->Object_0, "Desc"@)->Ok_0,
        site_total: opt_int_field(j->Object_0, "SiteTotal"@)->Ok_0,
        units: units_model(opt_array_field(j->Object_0, "units"@)->Ok_0),
    }
}

/// Normalizes one load-per-site entry and the units it owns.
pub fn load_of_json(j: &JsonValue) -> (r: Result<DataLoadPerSite, ParseError>)
    ensures
        match r {
            Ok(s) => load_wf(j@) && s@ == load_model(j@),
            Err(e) => !load_wf(j@) && e == ParseError::WrongType,
        },
{
    let fs = match j {
        JsonValue::Object(fs) => fs,
        _ => { return Err(ParseError::WrongType); },
    };
    let index = match read_opt_str(fs, "Index") {
        Ok(v) => v,
        Err(e) => { return Err(e); },
    };
    let type_field = match read_opt_str(fs, "Type") {
        Ok(v) => v,
        Err(e) => { return Err(e); },
    };
    let desc = match read_opt_str(fs, "Desc") {
        Ok(v) => v,
        Err(e) => { return Err(e); },
    };
    let site_total = match read_opt_i64(fs, "SiteTotal") {
        Ok(v) => v,
        Err(e) => { return Err(e); },
    };
    let units = match get_field(fs, "units") {
        Option::None => Vec::new(),
        Option::Some(JsonValue::Array(items)) => match units_of_json(items) {
            Ok(v) => v,
            Err(e) => { return Err(e); },
        },
        Option::Some(other) => { return Err(ParseError::WrongType); },
    };
    proof {
        assert(unit_seq_view(Seq::<Unit>::empty()) =~= units_model(Seq::<Json>::empty()));
    }
    Ok(DataLoadPerSite { index, type_field, desc, site_total, units })
}

/// Every load-per-site entry of the array is well shaped.
pub open spec fn loads_wf(a: Seq<Json>) -> bool {
    forall|i: int| 0 <= i < a.len() ==> load_wf(#[trigger] a[i])
}

/// The load-per-site records a well-shaped array normalizes to, in order.
pub open spec fn loads_model(a: Seq<Json>) -> Seq<LoadPerSiteModel> {
    Seq::new(a.len(), |i: int| load_model(a[i]))
}

/// Every fuel-cost entry of the array is well shaped.
pub open spec fn fuel_costs_wf(a: Seq<Json>) -> bool {
    forall|i: int| 0 <= i < a.len() ==> fuel_cost_wf(#[trigger] a[i])
}

/// The fuel-cost records a well-shaped array normalizes to, in order.
pub open spec fn fuel_costs_model(a: Seq<Json>) -> Seq<FuelCostModel> {
    Seq::new(a.len(), |i: int| fuel_cost_model(a[i]))
}

/// Every by-fuel entry of the array is well shaped.
pub open spec fn by_fuels_wf(a: Seq<Json>) -> bool {
    forall|i: int| 0 <= i < a.len() ==> by_fuel_wf(#[trigger] a[i])
}

/// The by-fuel records a well-shaped array normalizes to, in order.
pub open spec fn by_fuels_model(a: Seq<Json>) -> Seq<ByFuelModel> {
    Seq::new(a.len(), |i: int| by_fuel_model(a[i]))
}

/// Every metric entry of the array is well shaped.
pub open spec fn metrics_wf(a: Seq<Json>) -> bool {
    forall|i: int| 0 <= i < a.len() ==> metric_wf(#[trigger] a[i])
}

/// The metric records a well-shaped array normalizes to, in order.
pub open spec fn metrics_model(a: Seq<Json>) -> Seq<MetricModel> {
    Seq::new(a.len(), |i: int| metric_model(a[i]))
}

/// Normalizes a fuel-cost array, keeping the payload's order.
#[verifier::loop_isolation(false)]
pub fn fuel_costs_of_json(items: &Vec<JsonValue>) -> (r: Result<Vec<DataFuelCost>, ParseError>)
    ensures
        match r {
            Ok(v) => fuel_costs_wf(json_model_seq(items@)) && fuel_cost_seq_view(v@)
                == fuel_costs_model(json_model_seq(items@)),
            Err(e) => !fuel_costs_wf(json_model_seq(items@)) && e == ParseError::WrongType,
        },
{
    proof {
        lemma_json_model_seq(items@);
    }
    let ghost a = json_model_seq(items@);
    let mut out: Vec<DataFuelCost> = Vec::new();
    let mut i: usize = 0;
    while i < items.len()
        invariant
            0 <= i <= items@.len(),
            out@.len() == i,
            forall|k: int| 0 <= k < i ==> fuel_cost_wf(#[trigger] a[k]),
            forall|k: int| 0 <= k < i ==> #[trigger] out@[k]@ == fuel_cost_model(a[k]),
        decreases items@.len() - i,
    {
        match fuel_cost_of_json(&items[i]) {
            Ok(c) => { out.push(c); },
            Err(e) => {
                proof {
                    assert(!fuel_cost_wf(a[i as int]));
                }
                return Err(e);
            },
        }
        i = i + 1;
    }
    proof {
        assert(fuel_cost_seq_view(out@) =~= fuel_costs_model(a));
    }
    Ok(out)
}

/// Normalizes a by-fuel array, keeping the payload's order.
#[verifier::loop_isolation(false)]
pub fn by_fuels_of_json(items: &Vec<JsonValue>) -> (r: Result<Vec<DataByFuel>, ParseError>)
    ensures
        match r {
            Ok(v) => by_fuels_wf(json_model_seq(items@)) && by_fuel_seq_view(v@) == by_fuels_model(
                json_model_seq(items@),
            ),
            Err(e) => !by_fuels_wf(json_model_seq(items@)) && e == ParseError::WrongType,
        },
{
    proof {
        lemma_json_model_seq(items@);
    }
    let ghost a = json_model_seq(items@);
    let mut out: Vec<DataByFuel> = Vec::new();
    let mut i: usize = 0;
    while i < items.len()
        invariant
            0 <= i <= items@.len(),
            out@.len() == i,
            forall|k: int| 0 <= k < i ==> by_fuel_wf(#[trigger] a[k]),
            forall|k: int| 0 <= k < i ==> #[trigger] out@[k]@ == by_fuel_model(a[k]),
        decreases items@.len() - i,
    {
        match by_fuel_of_json(&items[i]) {
            Ok(c) => { out.push(c); },
            Err(e) => {
                proof {
                    assert(!by_fuel_wf(a[i as int]));
                }
                return Err(e);
            },
        }
        i = i + 1;
    }
    proof {
        assert(by_fuel_seq_view(out@) =~= by_fuels_model(a));
    }
    Ok(out)
}

/// Normalizes a metric array, keeping the payload's order.
#[verifier::loop_isolation(false)]
pub fn metrics_of_json(items: &Vec<JsonValue>) -> (r: Result<Vec<DataMetric>, ParseError>)
    ensures
        match r {
            Ok(v) => metrics_wf(json_model_seq(items@)) && metric_seq_view(v@) == metrics_model(
                json_model_seq(items@),
            ),
            Err(e) => !metrics_wf(json_model_seq(items@)) && e == ParseError::WrongType,
        },
{
    proof {
        lemma_json_model_seq(items@);
    }
    let ghost a = json_model_seq(items@);
    let mut out: Vec<DataMetric> = Vec::new();
    let mut i: usize = 0;
    while i < items.len()
        invariant
            0 <= i <= items@.len(),
            out@.len() == i,
            forall|k: int| 0 <= k < i ==> metric_wf(#[trigger] a[k]),
            forall|k: int| 0 <= k < i ==> #[trigger] out@[k]@ == metric_model(a[k]),
        decreases items@.len() - i,
    {
        match metric_of_json(&items[i]) {
            Ok(m) => { out.push(m); },
            Err(e) => {
                proof {
                    assert(!metric_wf(a[i as int]));
                }
                return Err(e);
            },
        }
        i = i + 1;
    }
    proof {
        assert(metric_seq_view(out@) =~= metrics_model(a));
    }
    Ok(out)
}

/// Normalizes a load-per-site array, keeping the payload's order.
#[verifier::loop_isolation(false)]
pub fn loads_of_json(items: &Vec<JsonValue>) -> (r: Result<Vec<DataLoadPerSite>, ParseError>)
    ensures
        match r {
            Ok(v) => loads_wf(json_model_seq(items@)) && load_seq_view(v@) == loads_model(
                json_model_seq(items@),
            ),
            Err(e) => !loads_wf(json_model_seq(items@)) && e == ParseError::WrongType,
        },
{
    proof {
        lemma_json_model_seq(items@);
    }
    let ghost a = json_model_seq(items@);
    let mut out: Vec<DataLoadPerSite> = Vec::new();
    let mut i: usize = 0;
    while i < items.len()
        invariant
            0 <= i <= items@.len(),
            out@.len() == i,
            forall|k: int| 0 <= k < i ==> load_wf(#[trigger] a[k]),
            forall|k: int| 0 <= k < i ==> #[trigger] out@[k]@ == load_model(a[k]),
        decreases items@.len() - i,
    {
        match load_of_json(&items[i]) {
            Ok(s) => { out.push(s); },
            Err(e) => {
                proof {
                    assert(!load_wf(a[i as int]));
                }
                return Err(e);
            },
        }
        i = i + 1;
    }
    proof {
        assert(load_seq_view(out@) =~= loads_model(a));
    }
    Ok(out)
}

/// How a decoded generation payload normalizes. The timestamp text and
/// all four root arrays are required, inspected in the order the record
/// keeps them.
pub open spec fn generation_model(j: Json) -> Result<GenerationModel, ParseError> {
    if !(j is Object) {
        Err(ParseError::WrongType)
    } else {
        let fs = j->Object_0;
        match req_str_field(fs, "dataFechaAcualizado"@) {
            Err(e) => Err(e),
            Ok(ts) => match req_array_field(fs, "dataFuelCost"@) {
                Err(e) => Err(e),
                Ok(fc) => if !fuel_costs_wf(fc) {
                    Err(ParseError::WrongType)
                } else {
                    match req_array_field(fs, "dataByFuel"@) {
                        Err(e) => Err(e),
                        Ok(bf) => if !by_fuels_wf(bf) {
                            Err(ParseError::WrongType)
                        } else {
                            match req_array_field(fs, "dataMetrics"@) {
                                Err(e) => Err(e),
                                Ok(ms) => if !metrics_wf(ms) {
                                    Err(ParseError::WrongType)
                                } else {
                                    match req_array_field(fs, "dataLoadPerSite"@) {
                                        Err(e) => Err(e),
                                        Ok(ls) => if !loads_wf(ls) {
                                            Err(ParseError::WrongType)
                                        } else {
                                            Ok(
                                                GenerationModel {
                                                    data_fecha_acualizado: ts,
                                                    data_fuel_cost: fuel_costs_model(fc),
                                                    data_by_fuel: by_fuels_model(bf),
                                                    data_metrics: metrics_model(ms),
                                                    data_load_per_site: loads_model(ls),
                                                },
                                            )
                                        },
                                    }
                                },
                            }
                        },
                    }
                },
            },
        }
    }
}

/// Normalizes a decoded generation payload.
pub fn generation_of_json(j: &JsonValue) -> (r: Result<GenerationDataFrame, ParseError>)
    ensures
        match r {
            Ok(g) => generation_model(j@) == Ok::<GenerationModel, ParseError>(g@),
            Err(e) => generation_model(j@) == Err::<GenerationModel, ParseError>(e),
        },
{
    let fs = match j {
        JsonValue::Object(fs) => fs,
        _ => { return Err(ParseError::WrongType); },
    };
    let data_fecha_acualizado = match read_req_str(fs, "dataFechaAcualizado") {
        Ok(v) => v,
        Err(e) => { return Err(e); },
    };
    let fuel_cost_items = match get_field(fs, "dataFuelCost") {
        Option::Some(JsonValue::Array(items)) => items,
        Option::Some(other) => { return Err(ParseError::WrongType); },
        Option::None => { return Err(ParseError::MissingField); },
    };
    let data_fuel_cost = match fuel_costs_of_json(fuel_cost_items) {
        Ok(v) => v,
        Err(e) => { return Err(e); },
    };
    let by_fuel_items = match get_field(fs, "dataByFuel") {
        Option::Some(JsonValue::Array(items)) => items,
        Option::Some(other) => { return Err(ParseError::WrongType); },
        Option::None => { return Err(ParseError::MissingField); },
    };
    let data_by_fuel = match by_fuels_of_json(by_fuel_items) {
        Ok(v) => v,
        Err(e) => { return Err(e); },
    };
    let metric_items = match get_field(fs, "dataMetrics") {
        Option::Some(JsonValue::Array(items)) => items,
        Option::Some(other) => { return Err(ParseError::WrongType); },
        Option::None => { return Err(ParseError::MissingField); },
    };
    let data_metrics = match metrics_of_json(metric_items) {
        Ok(v) => v,
        Err(e) => { return Err(e); },
    };
    let load_items = match get_field(fs, "dataLoadPerSite") {
        Option::Some(JsonValue::Array(items)) => items,
        Option::Some(other) => { return Err(ParseError::WrongType); },
        Option::None => { return Err(ParseError::MissingField); },
    };
    let data_load_per_site = match loads_of_json(load_items) {
        Ok(v) => v,
        Err(e) => { return Err(e); },
    };
    Ok(
        GenerationDataFrame {
            data_fecha_acualizado,
            data_fuel_cost,
            data_by_fuel,
            data_metrics,
            data_load_per_site,
        },
    )
}

/// Decodes and normalizes a generation payload from raw text, as the
/// script evaluation sandbox hands it over.
pub fn parse_generation_payload(text: &str) -> (r: Result<GenerationDataFrame, ParseError>)
    ensures
        match json_of_text(text@) {
            Option::None => r == Err::<GenerationDataFrame, ParseError>(ParseError::Syntax),
            Option::Some(jm) => match r {
                Ok(g) => generation_model(jm) == Ok::<GenerationModel, ParseError>(g@),
                Err(e) => generation_model(jm) == Err::<GenerationModel, ParseError>(e),
            },
        },
{
    match parse_json(text) {
        Option::Some(v) => generation_of_json(&v),
        Option::None => Err(ParseError::Syntax),
    }
}

/// Law: a generation payload whose object lacks the required
/// `dataByFuel` root array never normalizes successfully.
pub proof fn lemma_generation_requires_by_fuel(j: Json)
    requires
        j is Object,
        obj_get(j->Object_0, "dataByFuel"@) is None,
    ensures
        generation_model(j) is Err,
{
}

/// Law: a payload whose regions array holds N entries normalizes to
/// exactly N region records, in the payload's order, each the exact
/// model of its entry — no field recomputed, reordered or dropped.
pub proof fn lemma_outage_preserves_regions(j: Json)
    requires
        outage_model(j) is Ok,
    ensures
        outage_model(j)->Ok_0.regions.len() == req_array_field(j->Object_0, "regions"@)->Ok_0.len(),
        forall|i: int|
            0 <= i < req_array_field(j->Object_0, "regions"@)->Ok_0.len()
                ==> outage_model(j)->Ok_0.regions[i] == region_model(
                #[trigger] req_array_field(j->Object_0, "regions"@)->Ok_0[i],
            ),
{
}

} // verus!
