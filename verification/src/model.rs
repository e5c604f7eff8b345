//! The canonical snapshot records the pipeline keeps.
//!
//! Counts are opaque integers from the source; percentage and cost fields
//! are relayed as [`JsonNumber`] values, never recomputed or coerced; the
//! loosely-typed metric value stays an untyped JSON tree. Each record has
//! a mathematical model (its view) that the contracts speak of.

use crate::json::{Json, JsonNumber, JsonValue, NumModel};
use vstd::prelude::*;

verus! {

/// One outage region: a name, four client counts and two percentages.
#[derive(Debug, PartialEq)]
pub struct Region {
    pub name: String,
    pub total_clients: i64,
    pub total_clients_without_service: i64,
    pub total_clients_with_service: i64,
    pub total_clients_affected_by_planned_outage: i64,
    pub percentage_clients_without_service: JsonNumber,
    pub percentage_clients_with_service: JsonNumber,
}

/// The mathematical shape of a [`Region`].
pub struct RegionModel {
    pub name: Seq<char>,
    pub total_clients: int,
    pub total_clients_without_service: int,
    pub total_clients_with_service: int,
    pub total_clients_affected_by_planned_outage: int,
    pub percentage_clients_without_service: NumModel,
    pub percentage_clients_with_service: NumModel,
}

impl View for Region {
    type V = RegionModel;

    open spec fn view(&self) -> RegionModel {
        RegionModel {
            name: self.name@,
            total_clients: self.total_clients as int,
            total_clients_without_service: self.total_clients_without_service as int,
            total_clients_with_service: self.total_clients_with_service as int,
            total_clients_affected_by_planned_outage: self.total_clients_affected_by_planned_outage
                as int,
            percentage_clients_without_service: self.percentage_clients_without_service@,
            percentage_clients_with_service: self.percentage_clients_with_service@,
        }
    }
}

/// The aggregate counters of an outage snapshot.
#[derive(Debug, PartialEq)]
pub struct Totals {
    pub total_clients_without_service: i64,
    pub total_clients: i64,
    pub total_clients_with_service: i64,
    pub total_percentage_without_service: JsonNumber,
    pub total_clients_affected_by_planned_outage: i64,
    pub total_percentage_with_service: JsonNumber,
}

/// The mathematical shape of a [`Totals`].
pub struct TotalsModel {
    pub total_clients_without_service: int,
    pub total_clients: int,
    pub total_clients_with_service: int,
    pub total_percentage_without_service: NumModel,
    pub total_clients_affected_by_planned_outage: int,
    pub total_percentage_with_service: NumModel,
}

impl View for Totals {
    type V = TotalsModel;

    open spec fn view(&self) -> TotalsModel {
        TotalsModel {
            total_clients_without_service: self.total_clients_without_service as int,
            total_clients: self.total_clients as int,
            total_clients_with_service: self.total_clients_with_service as int,
            total_percentage_without_service: self.total_percentage_without_service@,
            total_clients_affected_by_planned_outage: self.total_clients_affected_by_planned_outage
                as int,
            total_percentage_with_service: self.total_percentage_with_service@,
        }
    }
}

/// An outage snapshot: its regions in payload order, the aggregate
/// totals, and the source-local timestamp text.
#[derive(Debug, PartialEq)]
pub struct LumaServiceRegions {
    pub regions: Vec<Region>,
    pub totals: Totals,
    pub timestamp: String,
}

/// The mathematical shape of a [`LumaServiceRegions`].
pub struct LumaModel {
    pub regions: Seq<RegionModel>,
    pub totals: TotalsModel,
    pub timestamp: Seq<char>,
}

/// The models of a region list, in order.
pub open spec fn region_seq_view(s: Seq<Region>) -> Seq<RegionModel> {
    Seq::new(s.len(), |i: int| s[i]@)
}

impl View for LumaServiceRegions {
    type V = LumaModel;

    open spec fn view(&self) -> LumaModel {
        LumaModel {
            regions: region_seq_view(self.regions@),
            totals: self.totals@,
            timestamp: self.timestamp@,
        }
    }
}

/// One fuel-cost entry of a generation snapshot.
#[derive(Debug, PartialEq)]
pub struct DataFuelCost {
    pub place: String,
    pub value: i64,
}

/// The mathematical shape of a [`DataFuelCost`].
pub struct FuelCostModel {
    pub place: Seq<char>,
    pub value: int,
}

impl View for DataFuelCost {
    type V = FuelCostModel;

    open spec fn view(&self) -> FuelCostModel {
        FuelCostModel { place: self.place@, value: self.value as int }
    }
}

/// One by-fuel generation entry.
#[derive(Debug, PartialEq)]
pub struct DataByFuel {
    pub fuel: String,
    pub value: i64,
}

/// The mathematical shape of a [`DataByFuel`].
pub struct ByFuelModel {
    pub fuel: Seq<char>,
    pub value: int,
}

impl View for DataByFuel {
    type V = ByFuelModel;

    open spec fn view(&self) -> ByFuelModel {
        ByFuelModel { fuel: self.fuel@, value: self.value as int }
    }
}

/// One metric entry; its value is relayed opaquely, whatever its shape.
#[derive(Debug, PartialEq)]
pub struct DataMetric {
    pub index: String,
    pub desc: String,
    pub value: JsonValue,
}

/// The mathematical shape of a [`DataMetric`].
pub struct MetricModel {
    pub index: Seq<char>,
    pub desc: Seq<char>,
    pub value: Json,
}

impl View for DataMetric {
    type V = MetricModel;

    open spec fn view(&self) -> MetricModel {
        MetricModel { index: self.index@, desc: self.desc@, value: self.value@ }
    }
}

/// One generating unit, owned by its parent load-per-site entry.
#[derive(Debug, PartialEq)]
pub struct Unit {
    pub load_per_site_index: String,
    pub index: String,
    pub unit: String,
    pub mw: i64,
    pub mvar: String,
    pub cost: JsonNumber,
    pub parent_id: String,
}

/// The mathematical shape of a [`Unit`].
pub struct UnitModel {
    pub load_per_site_index: Seq<char>,
    pub index: Seq<char>,
    pub unit: Seq<char>,
    pub mw: int,
    pub mvar: Seq<char>,
    pub cost: NumModel,
    pub parent_id: Seq<char>,
}

impl View for Unit {
    type V = UnitModel;

    open spec fn view(&self) -> UnitModel {
        UnitModel {
            load_per_site_index: self.load_per_site_index@,
            index: self.index@,
            unit: self.unit@,
            mw: self.mw as int,
            mvar: self.mvar@,
            cost: self.cost@,
            parent_id: self.parent_id@,
        }
    }
}

/// The models of a unit list, in order.
pub open spec fn unit_seq_view(s: Seq<Unit>) -> Seq<UnitModel> {
    Seq::new(s.len(), |i: int| s[i]@)
}

/// One load-per-site entry and the units it owns.
#[derive(Debug, PartialEq)]
pub struct DataLoadPerSite {
    pub index: String,
    pub type_field: String,
    pub desc: String,
    pub site_total: i64,
    pub units: Vec<Unit>,
}

/// The mathematical shape of a [`DataLoadPerSite`].
pub struct LoadPerSiteModel {
    pub index: Seq<char>,
    pub type_field: Seq<char>,
    pub desc: Seq<char>,
    pub site_total: int,
    pub units: Seq<UnitModel>,
}

impl View for DataLoadPerSite {
    type V = LoadPerSiteModel;

    open spec fn view(&self) -> LoadPerSiteModel {
        LoadPerSiteModel {
            index: self.index@,
            type_field: self.type_field@,
            desc: self.desc@,
            site_total: self.site_total as int,
            units: unit_seq_view(self.units@),
        }
    }
}

/// A generation snapshot: the source-local timestamp text and four
/// independent lists, each in payload order.
#[derive(Debug, PartialEq)]
pub struct GenerationDataFrame {
    pub data_fecha_acualizado: String,
    pub data_fuel_cost: Vec<DataFuelCost>,
    pub data_by_fuel: Vec<DataByFuel>,
    pub data_metrics: Vec<DataMetric>,
    pub data_load_per_site: Vec<DataLoadPerSite>,
}

/// The mathematical shape of a [`GenerationDataFrame`].
pub struct GenerationModel {
    pub data_fecha_acualizado: Seq<char>,
    pub data_fuel_cost: Seq<FuelCostModel>,
    pub data_by_fuel: Seq<ByFuelModel>,
    pub data_metrics: Seq<MetricModel>,
    pub data_load_per_site: Seq<LoadPerSiteModel>,
}

/// The models of a fuel-cost list, in order.
pub open spec fn fuel_cost_seq_view(s: Seq<DataFuelCost>) -> Seq<FuelCostModel> {
    Seq::new(s.len(), |i: int| s[i]@)
}

/// The models of a by-fuel list, in order.
pub open spec fn by_fuel_seq_view(s: Seq<DataByFuel>) -> Seq<ByFuelModel> {
    Seq::new(s.len(), |i: int| s[i]@)
}

/// The models of a metric list, in order.
pub open spec fn metric_seq_view(s: Seq<DataMetric>) -> Seq<MetricModel> {
    Seq::new(s.len(), |i: int| s[i]@)
}

/// The models of a load-per-site list, in order.
pub open spec fn load_seq_view(s: Seq<DataLoadPerSite>) -> Seq<LoadPerSiteModel> {
    Seq::new(s.len(), |i: int| s[i]@)
}

impl View for GenerationDataFrame {
    type V = GenerationModel;

    open spec fn view(&self) -> GenerationModel {
        GenerationModel {
            data_fecha_acualizado: self.data_fecha_acualizado@,
            data_fuel_cost: fuel_cost_seq_view(self.data_fuel_cost@),
            data_by_fuel: by_fuel_seq_view(self.data_by_fuel@),
            data_metrics: metric_seq_view(self.data_metrics@),
            data_load_per_site: load_seq_view(self.data_load_per_site@),
        }
    }
}

} // verus!
