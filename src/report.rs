//! The decisions of a weather report: which forecast to fetch for a point,
//! and which periods of it to show.
use vstd::prelude::*;
use crate::forecast::{Forecast, ForecastPeriod, PointInfo, Timestamp};

verus! {

/// Most periods a report shows.
pub const REPORT_WINDOW: usize = 10;

/// Which forecast document of a point to fetch.
#[derive(Clone, Copy, Debug, PartialEq, Eq, Structural)]
pub enum ForecastVariant {
    Standard,
    Hourly,
}

/// The link in a point's metadata that serves the given variant.
pub open spec fn forecast_link(info: PointInfo, variant: ForecastVariant) -> String {
    match variant {
        ForecastVariant::Standard => info.properties.forecast,
        ForecastVariant::Hourly => info.properties.forecast_hourly,
    }
}

/// The URL to fetch for the given forecast variant, exactly as the metadata gave it.
pub fn forecast_url(info: &PointInfo, variant: ForecastVariant) -> (r: String)
    ensures
        r == forecast_link(*info, variant),
{
    match variant {
        ForecastVariant::Standard => info.properties.forecast.clone(),
        ForecastVariant::Hourly => info.properties.forecast_hourly.clone(),
    }
}

/// What a report shows of one period.
#[derive(Debug)]
pub struct ReportLine {
    pub start: Timestamp,
    pub end: Timestamp,
    pub temperature: i8,
    pub short_forecast: String,
}

pub open spec fn line_of(p: ForecastPeriod) -> ReportLine {
    ReportLine {
        start: p.start_time,
        end: p.end_time,
        temperature: p.temperature,
        short_forecast: p.short_forecast,
    }
}

/// Number of periods shown out of `n`: the window, or all of them if fewer.
pub open spec fn window_len(n: nat) -> nat {
    if n < REPORT_WINDOW as nat { n } else { REPORT_WINDOW as nat }
}

/// The lines of a report on a sequence of periods: the first periods, up
/// to the window, in their order.
pub open spec fn report_lines(periods: Seq<ForecastPeriod>) -> Seq<ReportLine> {
    periods.take(window_len(periods.len()) as int).map_values(|p: ForecastPeriod| line_of(p))
}

/// A report shows the first `min(10, n)` of `n` periods, line `i` made from
/// period `i`: so chronological order is kept, and a short forecast is shown
/// whole rather than failing.
pub proof fn lemma_report_window(periods: Seq<ForecastPeriod>)
    ensures
        report_lines(periods).len() == if periods.len() < REPORT_WINDOW { periods.len() } else { REPORT_WINDOW as nat },
        forall|i: int| 0 <= i < report_lines(periods).len() ==> #[trigger] report_lines(periods)[i] == line_of(periods[i]),
{
}

/// The lines a report shows for a forecast: its first periods, in order,
/// as many as the window holds or as the forecast has.
pub fn report_window(fc: &Forecast) -> (r: Vec<ReportLine>)
    ensures
        r@ == report_lines(fc.properties.periods@),
{
    let periods = &fc.properties.periods;
    let n: usize = if periods.len() < REPORT_WINDOW { periods.len() } else { REPORT_WINDOW };
    let mut out: Vec<ReportLine> = Vec::new();
    let mut i: usize = 0;
    while i < n
        invariant
            n == window_len(periods@.len()),
            n <= periods@.len(),
            0 <= i <= n,
            out@ == periods@.take(i as int).map_values(|p: ForecastPeriod| line_of(p)),
        decreases n - i,
    {
        let p = &periods[i];
        out.push(ReportLine {
            start: p.start_time,
            end: p.end_time,
            temperature: p.temperature,
            short_forecast: p.short_forecast.clone(),
        });
        i = i + 1;
        assert(out@ =~= periods@.take(i as int).map_values(|p: ForecastPeriod| line_of(p)));
    }
    out
}

} // verus!
