//! Report data: aggregate statistics, ranked metric lists, and the derived
//! fields of a report — bounce rate, average time per visit, the rewritten
//! country labels, and the mail subject line.

use vstd::arithmetic::div_mod::lemma_div_pos_is_pos;
use vstd::prelude::*;
use vstd::string::StringExecFns;

use crate::config::spec_country_name;
use crate::config::get_country_name;
use crate::text::dec_digits;
use crate::text::u64_to_string;
use crate::window::ReportType;

verus! {

/// One measurement over the current window and the prior equivalent window.
#[derive(Clone, Copy, PartialEq, Eq, Structural, Debug)]
pub struct MetricValue {
    pub value: u64,
    pub prev: u64,
}

/// The five aggregate counters of a site over a window.
#[derive(Clone, Copy, PartialEq, Eq, Structural, Debug)]
pub struct Stats {
    pub pageviews: MetricValue,
    pub visitors: MetricValue,
    pub visits: MetricValue,
    pub bounces: MetricValue,
    pub total_time: MetricValue,
}

/// One labeled datum of a ranked metric list.
#[derive(Clone, Debug)]
pub struct Metric {
    pub x: String,
    pub y: u64,
}

/// The bounce percentage for one side of a measurement: zero when there are
/// no visits, otherwise `bounces / visits * 100` clamped to at most 100.
pub open spec fn spec_bounce_rate_side(bounces: u64, visits: u64) -> int {
    if visits == 0 {
        0
    } else if bounces * 100 / (visits as int) > 100 {
        100
    } else {
        bounces * 100 / (visits as int)
    }
}

/// Law: the bounce rate stays within `[0, 100]` for every input, even when
/// bounces exceed visits.
pub proof fn lemma_bounce_rate_clamped(bounces: u64, visits: u64)
    ensures
        0 <= spec_bounce_rate_side(bounces, visits) <= 100,
{
    if visits != 0 {
        lemma_div_pos_is_pos(bounces * 100, visits as int);
    }
}

/// Law: with zero visits the bounce rate is zero and the formatted time per
/// visit is `"0m 0s"`.
pub proof fn lemma_zero_visits(bounces: u64, total_time: u64)
    ensures
        spec_bounce_rate_side(bounces, 0) == 0,
        spec_time_spent(total_time, 0) == "0m 0s"@,
{
}

/// Computes one side of the bounce rate.
pub fn bounce_rate_side(bounces: u64, visits: u64) -> (r: u64)
    ensures
        r == spec_bounce_rate_side(bounces, visits),
        r <= 100,
{
    proof {
        lemma_bounce_rate_clamped(bounces, visits);
    }
    if visits == 0 {
        0
    } else {
        let pct: u128 = (bounces as u128) * 100 / (visits as u128);
        assert(pct == bounces * 100 / (visits as int));
        if pct > 100 {
            100
        } else {
            pct as u64
        }
    }
}

/// Derives the bounce-rate measurement from the aggregate counters, each side
/// independently.
pub fn bounce_rate(stats: &Stats) -> (r: MetricValue)
    ensures
        r.value == spec_bounce_rate_side(stats.bounces.value, stats.visits.value),
        r.prev == spec_bounce_rate_side(stats.bounces.prev, stats.visits.prev),
        r.value <= 100,
        r.prev <= 100,
{
    MetricValue {
        value: bounce_rate_side(stats.bounces.value, stats.visits.value),
        prev: bounce_rate_side(stats.bounces.prev, stats.visits.prev),
    }
}

/// The average time per visit, formatted: `"0m 0s"` when there are no visits,
/// otherwise minutes and seconds when at least a minute, else seconds alone.
pub open spec fn spec_time_spent(total_time: u64, visits: u64) -> Seq<char> {
    if visits == 0 {
        "0m 0s"@
    } else {
        let seconds = total_time as int / visits as int;
        let minutes = seconds / 60;
        let rem = seconds % 60;
        if minutes > 0 {
            dec_digits(minutes as nat) + "m "@ + dec_digits(rem as nat) + "s"@
        } else {
            dec_digits(rem as nat) + "s"@
        }
    }
}

/// Formats the average time per visit.
pub fn format_time_spent(total_time: u64, visits: u64) -> (r: String)
    ensures
        r@ == spec_time_spent(total_time, visits),
{
    if visits == 0 {
        "0m 0s".to_owned()
    } else {
        let seconds = total_time / visits;
        let minutes = seconds / 60;
        let rem = seconds % 60;
        if minutes > 0 {
            let mut s = u64_to_string(minutes);
            s.append("m ");
            let rem_digits = u64_to_string(rem);
            s.append(rem_digits.as_str());
            s.append("s");
            proof {
                assert(s@ =~= spec_time_spent(total_time, visits));
            }
            s
        } else {
            let mut s = u64_to_string(rem);
            s.append("s");
            proof {
                assert(s@ =~= spec_time_spent(total_time, visits));
            }
            s
        }
    }
}

/// Rewrites the labels of a country metric list from codes to display names;
/// codes absent from the table pass through unchanged. Values and order are
/// kept.
pub fn rewrite_country_labels(map: &Vec<(String, String)>, metrics: &Vec<Metric>) -> (r: Vec<
    Metric,
>)
    ensures
        r@.len() == metrics@.len(),
        forall|i: int|
            0 <= i < metrics@.len() ==> (#[trigger] r@[i]).y == metrics@[i].y && r@[i].x@
                == spec_country_name(map@, metrics@[i].x@),
{
    let mut r: Vec<Metric> = Vec::new();
    let mut i: usize = 0;
    while i < metrics.len()
        invariant
            0 <= i <= metrics@.len(),
            r@.len() == i,
            forall|j: int|
                0 <= j < i ==> (#[trigger] r@[j]).y == metrics@[j].y && r@[j].x@
                    == spec_country_name(map@, metrics@[j].x@),
        decreases metrics@.len() - i,
    {
        let name = get_country_name(map, metrics[i].x.as_str());
        r.push(Metric { x: name, y: metrics[i].y });
        i = i + 1;
    }
    r
}

/// The fully assembled per-site report record, consumed once by the renderer.
#[derive(Clone, Debug)]
pub struct ReportData {
    pub website_name: String,
    pub date: String,
    pub report_type: String,
    pub stats: Stats,
    pub bounce_rate: MetricValue,
    pub time_spent: String,
    pub pages: Vec<Metric>,
    pub countries: Vec<Metric>,
    pub browsers: Vec<Metric>,
    pub devices: Vec<Metric>,
    pub referrers: Vec<Metric>,
}

/// Shapes the fetched statistics and metric lists into the report record:
/// derives the bounce rate and the average time per visit, rewrites country
/// labels, and passes every other list through unchanged.
pub fn assemble_report_data(
    website_name: &str,
    date_label: &str,
    report_type: &ReportType,
    stats: Stats,
    pages: Vec<Metric>,
    countries: Vec<Metric>,
    browsers: Vec<Metric>,
    devices: Vec<Metric>,
    referrers: Vec<Metric>,
    country_map: &Vec<(String, String)>,
) -> (r: ReportData)
    ensures
        r.website_name@ == website_name@,
        r.date@ == date_label@,
        r.report_type@ == report_type.spec_label(),
        r.stats == stats,
        r.bounce_rate.value == spec_bounce_rate_side(stats.bounces.value, stats.visits.value),
        r.bounce_rate.prev == spec_bounce_rate_side(stats.bounces.prev, stats.visits.prev),
        r.time_spent@ == spec_time_spent(stats.total_time.value, stats.visits.value),
        r.pages == pages,
        r.countries@.len() == countries@.len(),
        forall|i: int|
            0 <= i < countries@.len() ==> (#[trigger] r.countries@[i]).y == countries@[i].y
                && r.countries@[i].x@ == spec_country_name(country_map@, countries@[i].x@),
        r.browsers == browsers,
        r.devices == devices,
        r.referrers == referrers,
{
    let bounce_rate = bounce_rate(&stats);
    let time_spent = format_time_spent(stats.total_time.value, stats.visits.value);
    let countries = rewrite_country_labels(country_map, &countries);
    ReportData {
        website_name: website_name.to_owned(),
        date: date_label.to_owned(),
        report_type: report_type.label().to_owned(),
        stats,
        bounce_rate,
        time_spent,
        pages,
        countries,
        browsers,
        devices,
        referrers,
    }
}

/// The mail subject of a report: cadence, site name, and date label.
pub open spec fn spec_subject(rt: ReportType, website_name: Seq<char>, date: Seq<char>) -> Seq<
    char,
> {
    rt.spec_label() + " Analytics Report - "@ + website_name + " - "@ + date
}

/// Formats the mail subject line.
pub fn format_subject(report_type: &ReportType, website_name: &str, date: &str) -> (r: String)
    ensures
        r@ == spec_subject(*report_type, website_name@, date@),
{
    let mut s = report_type.label().to_owned();
    s.append(" Analytics Report - ");
    s.append(website_name);
    s.append(" - ");
    s.append(date);
    proof {
        assert(s@ =~= spec_subject(*report_type, website_name@, date@));
    }
    s
}

} // verus!
