//! Sample-store queries: which table and grouping a chart resolution reads,
//! and the SQL text of each history query.

use vstd::prelude::*;

use crate::calendar::{date_midnight_of, utc_date_midnight, utc_date_text, utc_date_text_of};
use crate::text::{has_prefix, chars_equal_str, chars_of, push_signed_decimal, signed_decimal_text};

verus! {

/// Table and grouping interval (seconds; 0 for none) for a resolution name.
/// Unknown names read the raw samples grouped by minute.
pub open spec fn table_and_grouping(resolution: Seq<char>) -> (Seq<char>, int) {
    if resolution == "raw"@ {
        ("energy_samples"@, 0)
    } else if resolution == "1m"@ {
        ("energy_samples"@, 60)
    } else if resolution == "5m"@ {
        ("energy_samples_1m"@, 300)
    } else if resolution == "1h"@ {
        ("energy_samples_1h"@, 0)
    } else {
        ("energy_samples"@, 60)
    }
}

pub fn resolve_table_and_grouping(resolution: &str) -> (r: (&'static str, i64))
    ensures
        (r.0@, r.1 as int) == table_and_grouping(resolution@),
{
    let v = chars_of(resolution);
    if chars_equal_str(v.as_slice(), "raw") {
        ("energy_samples", 0)
    } else if chars_equal_str(v.as_slice(), "1m") {
        ("energy_samples", 60)
    } else if chars_equal_str(v.as_slice(), "5m") {
        ("energy_samples_1m", 300)
    } else if chars_equal_str(v.as_slice(), "1h") {
        ("energy_samples_1h", 0)
    } else {
        ("energy_samples", 60)
    }
}

/// SQL of the power history query: grid, PV, home and battery power, averaged per group interval when the resolution groups.
pub open spec fn power_history_sql_of(resolution: Seq<char>) -> Seq<char> {
    let table = table_and_grouping(resolution).0;
    let g = signed_decimal_text(table_and_grouping(resolution).1);
    if table_and_grouping(resolution).1 > 0 {
        "SELECT (timestamp / "@ + g + ") * "@ + g + " as ts,\n                    AVG(grid_power), AVG(pv_power), AVG(home_power), AVG(battery_power)\n             FROM "@ + table + "\n             WHERE timestamp >= ?1 AND timestamp <= ?2\n             GROUP BY ts ORDER BY ts"@
    } else {
        "SELECT timestamp, grid_power, pv_power, home_power, battery_power\n             FROM "@ + table + "\n             WHERE timestamp >= ?1 AND timestamp <= ?2\n             ORDER BY timestamp"@
    }
}

pub fn power_history_sql(resolution: &str) -> (r: String)
    ensures
        r@ == power_history_sql_of(resolution@),
{
    let (table, group_by) = resolve_table_and_grouping(resolution);
    if group_by > 0 {
        let mut r = String::new();
        r.append("SELECT (timestamp / ");
        push_signed_decimal(&mut r, group_by);
        r.append(") * ");
        push_signed_decimal(&mut r, group_by);
        r.append(" as ts,\n                    AVG(grid_power), AVG(pv_power), AVG(home_power), AVG(battery_power)\n             FROM ");
        r.append(table);
        r.append("\n             WHERE timestamp >= ?1 AND timestamp <= ?2\n             GROUP BY ts ORDER BY ts");
        assert(r@ =~= power_history_sql_of(resolution@));
        r
    } else {
        let mut r = String::new();
        r.append("SELECT timestamp, grid_power, pv_power, home_power, battery_power\n             FROM ");
        r.append(table);
        r.append("\n             WHERE timestamp >= ?1 AND timestamp <= ?2\n             ORDER BY timestamp");
        assert(r@ =~= power_history_sql_of(resolution@));
        r
    }
}

/// SQL of the battery history query: battery power and state of charge.
pub open spec fn battery_history_sql_of(resolution: Seq<char>) -> Seq<char> {
    let table = table_and_grouping(resolution).0;
    let g = signed_decimal_text(table_and_grouping(resolution).1);
    if table_and_grouping(resolution).1 > 0 {
        "SELECT (timestamp / "@ + g + ") * "@ + g + " as ts,\n                    AVG(battery_power), AVG(battery_soc)\n             FROM "@ + table + "\n             WHERE timestamp >= ?1 AND timestamp <= ?2\n             GROUP BY ts ORDER BY ts"@
    } else {
        "SELECT timestamp, battery_power, battery_soc\n             FROM "@ + table + "\n             WHERE timestamp >= ?1 AND timestamp <= ?2\n             ORDER BY timestamp"@
    }
}

pub fn battery_history_sql(resolution: &str) -> (r: String)
    ensures
        r@ == battery_history_sql_of(resolution@),
{
    let (table, group_by) = resolve_table_and_grouping(resolution);
    if group_by > 0 {
        let mut r = String::new();
        r.append("SELECT (timestamp / ");
        push_signed_decimal(&mut r, group_by);
        r.append(") * ");
        push_signed_decimal(&mut r, group_by);
        r.append(" as ts,\n                    AVG(battery_power), AVG(battery_soc)\n             FROM ");
        r.append(table);
        r.append("\n             WHERE timestamp >= ?1 AND timestamp <= ?2\n             GROUP BY ts ORDER BY ts");
        assert(r@ =~= battery_history_sql_of(resolution@));
        r
    } else {
        let mut r = String::new();
        r.append("SELECT timestamp, battery_power, battery_soc\n             FROM ");
        r.append(table);
        r.append("\n             WHERE timestamp >= ?1 AND timestamp <= ?2\n             ORDER BY timestamp");
        assert(r@ =~= battery_history_sql_of(resolution@));
        r
    }
}

/// SQL of a loadpoint's charge power history query, always from the loadpoint samples.
pub open spec fn loadpoint_history_sql_of(resolution: Seq<char>) -> Seq<char> {
    let g = signed_decimal_text(table_and_grouping(resolution).1);
    if table_and_grouping(resolution).1 > 0 {
        "SELECT (timestamp / "@ + g + ") * "@ + g + " as ts, AVG(charge_power)\n             FROM loadpoint_samples\n             WHERE loadpoint_id = ?1 AND timestamp >= ?2 AND timestamp <= ?3\n             GROUP BY ts ORDER BY ts"@
    } else {
        "SELECT timestamp, charge_power\n         FROM loadpoint_samples\n         WHERE loadpoint_id = ?1 AND timestamp >= ?2 AND timestamp <= ?3\n         ORDER BY timestamp"@
    }
}

pub fn loadpoint_history_sql(resolution: &str) -> (r: String)
    ensures
        r@ == loadpoint_history_sql_of(resolution@),
{
    let (_table, group_by) = resolve_table_and_grouping(resolution);
    if group_by > 0 {
        let mut r = String::new();
        r.append("SELECT (timestamp / ");
        push_signed_decimal(&mut r, group_by);
        r.append(") * ");
        push_signed_decimal(&mut r, group_by);
        r.append(" as ts, AVG(charge_power)\n             FROM loadpoint_samples\n             WHERE loadpoint_id = ?1 AND timestamp >= ?2 AND timestamp <= ?3\n             GROUP BY ts ORDER BY ts");
        assert(r@ =~= loadpoint_history_sql_of(resolution@));
        r
    } else {
        let mut r = String::new();
        r.append("SELECT timestamp, charge_power\n         FROM loadpoint_samples\n         WHERE loadpoint_id = ?1 AND timestamp >= ?2 AND timestamp <= ?3\n         ORDER BY timestamp");
        assert(r@ =~= loadpoint_history_sql_of(resolution@));
        r
    }
}

/// The dates (`%Y-%m-%d`, UTC) that bound the daily chart from `from` to
/// `to`; an instant outside chrono's range gives the empty text.
pub fn daily_chart_range(from: i64, to: i64) -> (r: (String, String))
    ensures
        r.0@ == utc_date_text_of(from),
        r.1@ == utc_date_text_of(to),
{
    (utc_date_text(from), utc_date_text(to))
}

/// The chart timestamps of the daily summary rows with these dates: the
/// midnight (UTC) of each date that parses, in row order; a row whose date
/// does not parse gives no timestamp.
pub open spec fn chart_timestamps_of(dates: Seq<Seq<char>>) -> Seq<i64>
    decreases dates.len(),
{
    if dates.len() == 0 {
        Seq::empty()
    } else {
        let rest = chart_timestamps_of(dates.drop_last());
        match date_midnight_of(dates.last()) {
            Some(t) => rest.push(t),
            None => rest,
        }
    }
}

/// The views of a list of texts.
pub open spec fn text_views(s: Seq<String>) -> Seq<Seq<char>> {
    s.map_values(|t: String| t@)
}

/// The chart timestamps of daily summary rows from their dates; each is a
/// UTC midnight.
pub fn daily_chart_timestamps(dates: &[String]) -> (r: Vec<i64>)
    ensures
        r@ == chart_timestamps_of(text_views(dates@)),
        forall|i: int| 0 <= i < r@.len() ==> #[trigger] r@[i] % 86400 == 0,
{
    let mut r: Vec<i64> = Vec::new();
    let n = dates.len();
    for i in 0..n
        invariant
            n == dates@.len(),
            r@ == chart_timestamps_of(text_views(dates@.take(i as int))),
            forall|j: int| 0 <= j < r@.len() ==> #[trigger] r@[j] % 86400 == 0,
    {
        assert(text_views(dates@.take(i + 1)).drop_last() =~= text_views(dates@.take(i as int)));
        assert(text_views(dates@.take(i + 1)).last() == dates@[i as int]@);
        match utc_date_midnight(dates[i].as_str()) {
            Some(t) => r.push(t),
            None => {},
        }
    }
    assert(dates@.take(n as int) =~= dates@);
    r
}

/// SQL of the daily chart query: the daily summary columns charted, by date
/// between `?1` and `?2`.
pub fn daily_chart_sql() -> (r: &'static str)
    ensures
        r@ == "SELECT date, grid_import_wh, grid_export_wh, pv_production_wh, home_consumption_wh,\n                self_sufficiency_pct\n         FROM daily_summaries\n         WHERE date >= ?1 AND date <= ?2\n         ORDER BY date"@,
{
    "SELECT date, grid_import_wh, grid_export_wh, pv_production_wh, home_consumption_wh,\n                self_sufficiency_pct\n         FROM daily_summaries\n         WHERE date >= ?1 AND date <= ?2\n         ORDER BY date"
}

/// SQL of the energy totals query: sums of the positive and negative power
/// readings between `?1` and `?2`, and the number of samples.
pub fn energy_totals_sql() -> (r: &'static str)
    ensures
        r@ == "SELECT\n            SUM(CASE WHEN pv_power > 0 THEN pv_power ELSE 0 END),\n            SUM(CASE WHEN grid_power > 0 THEN grid_power ELSE 0 END),\n            SUM(CASE WHEN grid_power < 0 THEN ABS(grid_power) ELSE 0 END),\n            SUM(CASE WHEN home_power > 0 THEN home_power ELSE 0 END),\n            SUM(CASE WHEN battery_power > 0 THEN battery_power ELSE 0 END),\n            SUM(CASE WHEN battery_power < 0 THEN ABS(battery_power) ELSE 0 END),\n            COUNT(*)\n         FROM energy_samples\n         WHERE timestamp >= ?1 AND timestamp <= ?2"@,
{
    "SELECT\n            SUM(CASE WHEN pv_power > 0 THEN pv_power ELSE 0 END),\n            SUM(CASE WHEN grid_power > 0 THEN grid_power ELSE 0 END),\n            SUM(CASE WHEN grid_power < 0 THEN ABS(grid_power) ELSE 0 END),\n            SUM(CASE WHEN home_power > 0 THEN home_power ELSE 0 END),\n            SUM(CASE WHEN battery_power > 0 THEN battery_power ELSE 0 END),\n            SUM(CASE WHEN battery_power < 0 THEN ABS(battery_power) ELSE 0 END),\n            COUNT(*)\n         FROM energy_samples\n         WHERE timestamp >= ?1 AND timestamp <= ?2"
}

/// SQL of the daily summaries query: every stored column, by date between
/// `?1` and `?2`.
pub fn daily_summaries_sql() -> (r: &'static str)
    ensures
        r@ == "SELECT date, grid_import_wh, grid_export_wh, pv_production_wh, home_consumption_wh,\n                battery_charge_wh, battery_discharge_wh, self_sufficiency_pct\n         FROM daily_summaries\n         WHERE date >= ?1 AND date <= ?2\n         ORDER BY date"@,
{
    "SELECT date, grid_import_wh, grid_export_wh, pv_production_wh, home_consumption_wh,\n                battery_charge_wh, battery_discharge_wh, self_sufficiency_pct\n         FROM daily_summaries\n         WHERE date >= ?1 AND date <= ?2\n         ORDER BY date"
}

/// SQL of the PV energy of the day `?1`.
pub fn today_pv_energy_sql() -> (r: &'static str)
    ensures
        r@ == "SELECT pv_production_wh FROM daily_summaries WHERE date = ?1"@,
{
    "SELECT pv_production_wh FROM daily_summaries WHERE date = ?1"
}

/// One row of the daily summary table as the daily chart reads it.
pub struct DailyChartRow<N> {
    pub date: String,
    pub grid_import_wh: Option<N>,
    pub grid_export_wh: Option<N>,
    pub pv_production_wh: Option<N>,
    pub home_consumption_wh: Option<N>,
    pub self_sufficiency_pct: Option<N>,
}

/// The daily chart: the timestamps of the rows' dates and one column per
/// charted value, in row order.
pub struct DailyChartColumns<N> {
    pub timestamps: Vec<i64>,
    pub grid_import_wh: Vec<Option<N>>,
    pub grid_export_wh: Vec<Option<N>>,
    pub pv_production_wh: Vec<Option<N>>,
    pub home_consumption_wh: Vec<Option<N>>,
    pub self_sufficiency_pct: Vec<Option<N>>,
}

/// The dates of daily chart rows.
pub open spec fn row_dates<N>(rows: Seq<DailyChartRow<N>>) -> Seq<Seq<char>> {
    rows.map_values(|r: DailyChartRow<N>| r.date@)
}

/// The daily chart of `rows`: each column holds that value of every row in
/// row order; the timestamps are the midnights of the dates that parse.
pub fn daily_chart_columns<N: Copy>(rows: &[DailyChartRow<N>]) -> (r: DailyChartColumns<N>)
    ensures
        r.timestamps@ == chart_timestamps_of(row_dates(rows@)),
        forall|i: int| 0 <= i < r.timestamps@.len() ==> #[trigger] r.timestamps@[i] % 86400 == 0,
        r.grid_import_wh@.len() == rows@.len(),
        r.grid_export_wh@.len() == rows@.len(),
        r.pv_production_wh@.len() == rows@.len(),
        r.home_consumption_wh@.len() == rows@.len(),
        r.self_sufficiency_pct@.len() == rows@.len(),
        forall|i: int|
            #![trigger rows@[i]]
            0 <= i < rows@.len() ==> {
                &&& r.grid_import_wh@[i] == rows@[i].grid_import_wh
                &&& r.grid_export_wh@[i] == rows@[i].grid_export_wh
                &&& r.pv_production_wh@[i] == rows@[i].pv_production_wh
                &&& r.home_consumption_wh@[i] == rows@[i].home_consumption_wh
                &&& r.self_sufficiency_pct@[i] == rows@[i].self_sufficiency_pct
            },
{
    let mut dates: Vec<String> = Vec::new();
    let mut gi: Vec<Option<N>> = Vec::new();
    let mut ge: Vec<Option<N>> = Vec::new();
    let mut pv: Vec<Option<N>> = Vec::new();
    let mut hc: Vec<Option<N>> = Vec::new();
    let mut ss: Vec<Option<N>> = Vec::new();
    for i in 0..rows.len()
        invariant
            dates@.len() == i,
            gi@.len() == i,
            ge@.len() == i,
            pv@.len() == i,
            hc@.len() == i,
            ss@.len() == i,
            forall|j: int|
                #![trigger rows@[j]]
                0 <= j < i ==> {
                    &&& dates@[j]@ == rows@[j].date@
                    &&& gi@[j] == rows@[j].grid_import_wh
                    &&& ge@[j] == rows@[j].grid_export_wh
                    &&& pv@[j] == rows@[j].pv_production_wh
                    &&& hc@[j] == rows@[j].home_consumption_wh
                    &&& ss@[j] == rows@[j].self_sufficiency_pct
                },
    {
        let row = &rows[i];
        dates.push(row.date.clone());
        gi.push(row.grid_import_wh);
        ge.push(row.grid_export_wh);
        pv.push(row.pv_production_wh);
        hc.push(row.home_consumption_wh);
        ss.push(row.self_sufficiency_pct);
    }
    let timestamps = daily_chart_timestamps(dates.as_slice());
    assert forall|j: int| 0 <= j < rows@.len() implies text_views(dates@)[j] == row_dates(rows@)[j] by {
        assert(dates@[j]@ == rows@[j].date@);
    }
    assert(text_views(dates@) =~= row_dates(rows@));
    DailyChartColumns {
        timestamps,
        grid_import_wh: gi,
        grid_export_wh: ge,
        pv_production_wh: pv,
        home_consumption_wh: hc,
        self_sufficiency_pct: ss,
    }
}

/// The power history query selects, in this order, the time and the grid,
/// PV, home and battery power (averaged per group where the resolution
/// groups), which is the order in which its rows are read into the series;
/// the battery history query selects the time, battery power and state of
/// charge. Whatever the resolution, each reads from the table that the
/// resolution names.
pub proof fn lemma_history_queries_select_their_columns(resolution: Seq<char>)
    ensures
        ({
            let p = power_history_sql_of(resolution);
            let b = battery_history_sql_of(resolution);
            let grouped = table_and_grouping(resolution).1 > 0;
            let g = signed_decimal_text(table_and_grouping(resolution).1);
            let head = "SELECT (timestamp / "@ + g + ") * "@ + g + " as ts,\n                    "@;
            &&& !grouped ==> has_prefix(p, "SELECT timestamp, grid_power, pv_power, home_power, battery_power\n"@)
            &&& grouped ==> has_prefix(p, head + "AVG(grid_power), AVG(pv_power), AVG(home_power), AVG(battery_power)\n"@)
            &&& !grouped ==> has_prefix(b, "SELECT timestamp, battery_power, battery_soc\n"@)
            &&& grouped ==> has_prefix(b, head + "AVG(battery_power), AVG(battery_soc)\n"@)
        }),
{
    let p = power_history_sql_of(resolution);
    let b = battery_history_sql_of(resolution);
    let t = table_and_grouping(resolution).0;
    let g = signed_decimal_text(table_and_grouping(resolution).1);
    let head = "SELECT (timestamp / "@ + g + ") * "@ + g + " as ts,\n                    "@;
    reveal_strlit("SELECT timestamp, grid_power, pv_power, home_power, battery_power\n             FROM ");
    reveal_strlit("SELECT timestamp, grid_power, pv_power, home_power, battery_power\n");
    reveal_strlit("SELECT timestamp, battery_power, battery_soc\n             FROM ");
    reveal_strlit("SELECT timestamp, battery_power, battery_soc\n");
    reveal_strlit(" as ts,\n                    AVG(grid_power), AVG(pv_power), AVG(home_power), AVG(battery_power)\n             FROM ");
    reveal_strlit(" as ts,\n                    ");
    reveal_strlit("AVG(grid_power), AVG(pv_power), AVG(home_power), AVG(battery_power)\n");
    reveal_strlit(" as ts,\n                    AVG(battery_power), AVG(battery_soc)\n             FROM ");
    reveal_strlit("AVG(battery_power), AVG(battery_soc)\n");
    if table_and_grouping(resolution).1 > 0 {
        let pre = head + "AVG(grid_power), AVG(pv_power), AVG(home_power), AVG(battery_power)\n"@;
        assert(p.subrange(0, pre.len() as int) =~= pre);
        let preb = head + "AVG(battery_power), AVG(battery_soc)\n"@;
        assert(b.subrange(0, preb.len() as int) =~= preb);
    } else {
        let pre = "SELECT timestamp, grid_power, pv_power, home_power, battery_power\n"@;
        assert(p.subrange(0, pre.len() as int) =~= pre);
        let preb = "SELECT timestamp, battery_power, battery_soc\n"@;
        assert(b.subrange(0, preb.len() as int) =~= preb);
    }
}

} // verus!
