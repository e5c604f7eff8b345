//! The persistence planner.
//!
//! A snapshot persists as independent row inserts: for an outage, one
//! row per region plus one totals row; for a generation snapshot, one
//! root row, one row per fuel-cost, by-fuel and metric entry, one row
//! per load-per-site entry, and one row per unit under its parent. All
//! rows are keyed by the snapshot's resolved epoch; a unit row is keyed
//! by the epoch and its parent entry's index, not by a generated id.
//! Planning is pure; performing the inserts is storage work outside the
//! library, steered by [`WritePolicy`].

use crate::json::{Json, JsonNumber, JsonValue, NumModel};
use crate::model::{
    DataLoadPerSite, GenerationDataFrame, LoadPerSiteModel, LumaServiceRegions, RegionModel,
    TotalsModel, UnitModel,
};
use vstd::prelude::*;

verus! {

/// A copy of a number, equal in model to its source.
pub fn clone_num(n: &JsonNumber) -> (r: JsonNumber)
    ensures
        r@ == n@,
{
    match n {
        JsonNumber::Int(i) => JsonNumber::Int(*i),
        JsonNumber::Dec(t) => JsonNumber::Dec(t.clone()),
    }
}

/// One row of the region table.
#[derive(Debug, PartialEq)]
pub struct RegionRow {
    pub time: i64,
    pub name: String,
    pub total_clients: i64,
    pub total_clients_without_service: i64,
    pub total_clients_with_service: i64,
    pub total_clients_affected_by_planned_outage: i64,
    pub percentage_clients_without_service: JsonNumber,
    pub percentage_clients_with_service: JsonNumber,
}

/// The mathematical shape of a [`RegionRow`].
pub struct RegionRowModel {
    pub time: int,
    pub name: Seq<char>,
    pub total_clients: int,
    pub total_clients_without_service: int,
    pub total_clients_with_service: int,
    pub total_clients_affected_by_planned_outage: int,
    pub percentage_clients_without_service: NumModel,
    pub percentage_clients_with_service: NumModel,
}

impl View for RegionRow {
    type V = RegionRowModel;

    open spec fn view(&self) -> RegionRowModel {
        RegionRowModel {
            time: self.time as int,
            name: self.name@,
            total_clients: self.total_clients as int,
            total_clients_without_service: self.total_clients_without_service as int,
            total_clients_with_service: self.total_clients_with_service as int,
            total_clients_affected_by_planned_outage: self.total_clients_affected_by_planned_outage
                as int,
            percentage_clients_without_service: self.percentage_clients_without_service@,
            percentage_clients_with_service: self.percentage_clients_with_service@,
        }
    }
}

/// One row of the totals table.
#[derive(Debug, PartialEq)]
pub struct TotalsRow {
    pub time: i64,
    pub total_clients_without_service: i64,
    pub total_clients: i64,
    pub total_clients_with_service: i64,
    pub total_percentage_without_service: JsonNumber,
    pub total_clients_affected_by_planned_outage: i64,
    pub total_percentage_with_service: JsonNumber,
}

/// The mathematical shape of a [`TotalsRow`].
pub struct TotalsRowModel {
    pub time: int,
    pub total_clients_without_service: int,
    pub total_clients: int,
    pub total_clients_with_service: int,
    pub total_percentage_without_service: NumModel,
    pub total_clients_affected_by_planned_outage: int,
    pub total_percentage_with_service: NumModel,
}

impl View for TotalsRow {
    type V = TotalsRowModel;

    open spec fn view(&self) -> TotalsRowModel {
        TotalsRowModel {
            time: self.time as int,
            total_clients_without_service: self.total_clients_without_service as int,
            total_clients: self.total_clients as int,
            total_clients_with_service: self.total_clients_with_service as int,
            total_percentage_without_service: self.total_percentage_without_service@,
            total_clients_affected_by_planned_outage: self.total_clients_affected_by_planned_outage
                as int,
            total_percentage_with_service: self.total_percentage_with_service@,
        }
    }
}

/// One row of the unit table, keyed by the snapshot epoch and the parent
/// load-per-site entry's index.
#[derive(Debug, PartialEq)]
pub struct UnitRow {
    pub time: i64,
    pub load_per_site_index: String,
    pub index: String,
    pub unit: String,
    pub mw: i64,
    pub mvar: String,
    pub cost: JsonNumber,
    pub parent_id: String,
}

/// The mathematical shape of a [`UnitRow`].
pub struct UnitRowModel {
    pub time: int,
    pub load_per_site_index: Seq<char>,
    pub index: Seq<char>,
    pub unit: Seq<char>,
    pub mw: int,
    pub mvar: Seq<char>,
    pub cost: NumModel,
    pub parent_id: Seq<char>,
}

impl View for UnitRow {
    type V = UnitRowModel;

    open spec fn view(&self) -> UnitRowModel {
        UnitRowModel {
            time: self.time as int,
            load_per_site_index: self.load_per_site_index@,
            index: self.index@,
            unit: self.unit@,
            mw: self.mw as int,
            mvar: self.mvar@,
            cost: self.cost@,
            parent_id: self.parent_id@,
        }
    }
}

/// The models of a region-row list, in order.
pub open spec fn region_row_seq_view(s: Seq<RegionRow>) -> Seq<RegionRowModel> {
    Seq::new(s.len(), |i: int| s[i]@)
}

/// The models of a unit-row list, in order.
pub open spec fn unit_row_seq_view(s: Seq<UnitRow>) -> Seq<UnitRowModel> {
    Seq::new(s.len(), |i: int| s[i]@)
}

/// The region row a region record plans to, under a given epoch key.
pub open spec fn region_row_model(t: int, r: RegionModel) -> RegionRowModel {
    RegionRowModel {
        time: t,
        name: r.name,
        total_clients: r.total_clients,
        total_clients_without_service: r.total_clients_without_service,
        total_clients_with_service: r.total_clients_with_service,
        total_clients_affected_by_planned_outage: r.total_clients_affected_by_planned_outage,
        percentage_clients_without_service: r.percentage_clients_without_service,
        percentage_clients_with_service: r.percentage_clients_with_service,
    }
}

/// The totals row a totals record plans to, under a given epoch key.
pub open spec fn totals_row_model(t: int, x: TotalsModel) -> TotalsRowModel {
    TotalsRowModel {
        time: t,
        total_clients_without_service: x.total_clients_without_service,
        total_clients: x.total_clients,
        total_clients_with_service: x.total_clients_with_service,
        total_percentage_without_service: x.total_percentage_without_service,
        total_clients_affected_by_planned_outage: x.total_clients_affected_by_planned_outage,
        total_percentage_with_service: x.total_percentage_with_service,
    }
}

/// The unit row a unit record plans to, under a given epoch key and its
/// parent entry's index.
pub open spec fn unit_row_model(t: int, parent: Seq<char>, u: UnitModel) -> UnitRowModel {
    UnitRowModel {
        time: t,
        load_per_site_index: parent,
        index: u.index,
        unit: u.unit,
        mw: u.mw,
        mvar: u.mvar,
        cost: u.cost,
        parent_id: u.parent_id,
    }
}

/// The region rows an outage snapshot plans to, in payload order.
pub open spec fn region_rows_model(t: int, rs: Seq<RegionModel>) -> Seq<RegionRowModel> {
    Seq::new(rs.len(), |i: int| region_row_model(t, rs[i]))
}

/// The unit rows a load-per-site entry plans to, in payload order, all
/// keyed by the epoch and the entry's own index.
pub open spec fn unit_rows_model(t: int, s: LoadPerSiteModel) -> Seq<UnitRowModel> {
    Seq::new(s.units.len(), |i: int| unit_row_model(t, s.index, s.units[i]))
}

/// Plans the region rows of an outage snapshot: one row per region, in
/// payload order, every field relayed, all keyed by `epoch`.
#[verifier::loop_isolation(false)]
pub fn outage_region_rows(s: &LumaServiceRegions, epoch: i64) -> (r: Vec<RegionRow>)
    ensures
        region_row_seq_view(r@) == region_rows_model(epoch as int, s@.regions),
{
    let mut out: Vec<RegionRow> = Vec::new();
    let mut i: usize = 0;
    while i < s.regions.len()
        invariant
            0 <= i <= s.regions@.len(),
            out@.len() == i,
            forall|k: int|
                0 <= k < i ==> #[trigger] out@[k]@ == region_row_model(
                    epoch as int,
                    s@.regions[k],
                ),
        decreases s.regions@.len() - i,
    {
        let reg = &s.regions[i];
        out.push(
            (RegionRow {
                time: epoch,
                name: reg.name.clone(),
                total_clients: reg.total_clients,
                total_clients_without_service: reg.total_clients_without_service,
                total_clients_with_service: reg.total_clients_with_service,
                total_clients_affected_by_planned_outage:
                    reg.total_clients_affected_by_planned_outage,
                percentage_clients_without_service: clone_num(
                    &reg.percentage_clients_without_service,
                ),
                percentage_clients_with_service: clone_num(&reg.percentage_clients_with_service),
            }),
        );
        i = i + 1;
    }
    proof {
        assert(region_row_seq_view(out@) =~= region_rows_model(epoch as int, s@.regions));
    }
    out
}

/// Plans the totals row of an outage snapshot, keyed by `epoch`.
pub fn outage_totals_row(s: &LumaServiceRegions, epoch: i64) -> (r: TotalsRow)
    ensures
        r@ == totals_row_model(epoch as int, s@.totals),
{
    TotalsRow {
        time: epoch,
        total_clients_without_service: s.totals.total_clients_without_service,
        total_clients: s.totals.total_clients,
        total_clients_with_service: s.totals.total_clients_with_service,
        total_percentage_without_service: clone_num(&s.totals.total_percentage_without_service),
        total_clients_affected_by_planned_outage:
            s.totals.total_clients_affected_by_planned_outage,
        total_percentage_with_service: clone_num(&s.totals.total_percentage_with_service),
    }
}

/// Plans the unit rows of one load-per-site entry: one row per unit, in
/// payload order, each keyed by `epoch` and the entry's own index.
#[verifier::loop_isolation(false)]
pub fn unit_rows_for_site(site: &DataLoadPerSite, epoch: i64) -> (r: Vec<UnitRow>)
    ensures
        unit_row_seq_view(r@) == unit_rows_model(epoch as int, site@),
{
    let mut out: Vec<UnitRow> = Vec::new();
    let mut i: usize = 0;
    while i < site.units.len()
        invariant
            0 <= i <= site.units@.len(),
            out@.len() == i,
            forall|k: int|
                0 <= k < i ==> #[trigger] out@[k]@ == unit_row_model(
                    epoch as int,
                    site@.index,
                    site@.units[k],
                ),
        decreases site.units@.len() - i,
    {
        let u = &site.units[i];
        out.push(
            (UnitRow {
                time: epoch,
                load_per_site_index: site.index.clone(),
                index: u.index.clone(),
                unit: u.unit.clone(),
                mw: u.mw,
                mvar: u.mvar.clone(),
                cost: clone_num(&u.cost),
                parent_id: u.parent_id.clone(),
            }),
        );
        i = i + 1;
    }
    proof {
        assert(unit_row_seq_view(out@) =~= unit_rows_model(epoch as int, site@));
    }
    out
}

/// Law: a load-per-site entry with K units plans exactly K unit rows,
/// and every one of them carries the snapshot epoch and that entry's
/// own index as its parent key.
pub proof fn lemma_unit_rows_parent_keys(t: int, s: LoadPerSiteModel)
    ensures
        unit_rows_model(t, s).len() == s.units.len(),
        forall|k: int|
            0 <= k < s.units.len() ==> (#[trigger] unit_rows_model(t, s)[k]).time == t
                && unit_rows_model(t, s)[k].load_per_site_index == s.index,
{
}

/// Law: planning is a pure function of the snapshot and its epoch. Two
/// ingestions of identical payloads plan identical region rows, so with
/// no dedup layer an append-only store keeps every row twice.
pub proof fn lemma_rerun_appends_duplicates(
    t: int,
    rs: Seq<RegionModel>,
    r1: Seq<RegionRowModel>,
    r2: Seq<RegionRowModel>,
)
    requires
        r1 == region_rows_model(t, rs),
        r2 == region_rows_model(t, rs),
    ensures
        r1 == r2,
        (r1 + r2).len() == 2 * r1.len(),
        forall|k: int| 0 <= k < r1.len() ==> #[trigger] (r1 + r2)[k] == (r1 + r2)[k + r1.len()],
{
}

/// How a failed row insert is treated. The reconciled policy is uniform
/// across both snapshot families and fatal by default: a silent partial
/// write would corrupt historical queries.
#[derive(Clone, Copy, Debug, PartialEq, Eq, Structural)]
pub enum WritePolicy {
    /// Any failed insert aborts the run.
    FatalOnError,
    /// A failed insert is skipped and the run continues.
    SkipAndContinue,
}

impl Default for WritePolicy {
    /// The default policy: fatal with a clear error.
    fn default() -> (r: Self)
        ensures
            r == WritePolicy::FatalOnError,
    {
        WritePolicy::FatalOnError
    }
}

/// What the run does after one insert.
#[derive(Clone, Copy, Debug, PartialEq, Eq, Structural)]
pub enum WriteStep {
    /// Go on to the next row.
    Continue,
    /// Abort the run with a persistence error.
    Abort,
}

/// Decides how a run proceeds after a row insert reports success or
/// failure: success always continues; failure continues only under the
/// skip policy.
pub fn write_step(policy: WritePolicy, insert_ok: bool) -> (r: WriteStep)
    ensures
        r == (if insert_ok {
            WriteStep::Continue
        } else if policy == WritePolicy::SkipAndContinue {
            WriteStep::Continue
        } else {
            WriteStep::Abort
        }),
{
    if insert_ok {
        WriteStep::Continue
    } else {
        match policy {
            WritePolicy::SkipAndContinue => WriteStep::Continue,
            WritePolicy::FatalOnError => WriteStep::Abort,
        }
    }
}

} // verus!
