//! Chart plans: everything about a chart that is decided before drawing it (file,
//! colours, axis ranges, points), for a line chart of a sparkline or a candlestick
//! chart of an OHLC series.

use vstd::prelude::*;
use crate::decimal::{dec_le, Dec, pow10, lemma_pow10_positive, MAX_MANTISSA};

verus! {

/// The colour of a line or a candle.
#[derive(Clone, Copy, Debug, PartialEq, Eq, Structural)]
pub enum ChartColor {
    Green,
    Red,
}

/// One period of an OHLC series; `time_ms` is its start in milliseconds since the epoch.
#[derive(Clone, Copy, Debug, PartialEq, Eq, Structural)]
pub struct Candle {
    pub time_ms: i64,
    pub open: Dec,
    pub high: Dec,
    pub low: Dec,
    pub close: Dec,
}

impl Candle {
    pub open spec fn wf(&self) -> bool {
        self.open.wf() && self.high.wf() && self.low.wf() && self.close.wf()
    }
}

/// A candle as drawn: its time in seconds, its four prices and its colour.
#[derive(Clone, Copy, Debug, PartialEq, Eq, Structural)]
pub struct CandleMark {
    pub time_secs: i64,
    pub open: Dec,
    pub high: Dec,
    pub low: Dec,
    pub close: Dec,
    pub color: ChartColor,
}

/// How a line chart is to be drawn.
#[derive(Clone, Debug)]
pub struct LinePlan {
    pub path: String,
    pub points: Vec<Dec>,
    pub color: ChartColor,
    pub y_low: Dec,
    pub y_high: Dec,
}

/// How a candlestick chart is to be drawn.
#[derive(Clone, Debug)]
pub struct CandlePlan {
    pub path: String,
    pub candles: Vec<CandleMark>,
    pub from_secs: i64,
    pub to_secs: i64,
    pub y_low: Dec,
    pub y_high: Dec,
}

/// Hours of padding on each side of a candlestick chart's time axis.
pub const PADDING_HOURS: i64 = 8;

/// Points of room that a line chart's x axis leaves after its last point.
pub const X_MARGIN: u64 = 2;

/// Width of a candle.
pub const CANDLE_WIDTH: u32 = 15;

/// The lower bound of a value axis is its lowest value times this percentage.
pub const LOW_PERCENT: u128 = 95;

/// The upper bound of a value axis is its highest value times this percentage.
pub const HIGH_PERCENT: u128 = 105;

/// `d` times `percent / 100`, exactly.
pub open spec fn scaled(d: Dec, percent: u128) -> Dec {
    Dec { negative: d.negative, mantissa: (d.mantissa * percent) as u128, scale: (d.scale + 2) as u32 }
}

fn scale_by(d: &Dec, percent: u128) -> (r: Dec)
    requires
        d.wf(),
        percent <= HIGH_PERCENT,
    ensures
        r == scaled(*d, percent),
{
    assert(d.mantissa * percent <= MAX_MANTISSA * HIGH_PERCENT) by (nonlinear_arith)
        requires
            d.mantissa <= MAX_MANTISSA,
            percent <= HIGH_PERCENT,
    ;
    Dec { negative: d.negative, mantissa: d.mantissa * percent, scale: d.scale + 2 }
}

/// Ordering on decimal values is transitive.
pub proof fn lemma_le_trans(a: Dec, b: Dec, c: Dec)
    requires
        a.le(b),
        b.le(c),
    ensures
        a.le(c),
{
    let x = a.signed_mantissa();
    let y = b.signed_mantissa();
    let z = c.signed_mantissa();
    let pa = pow10(a.scale as nat) as int;
    let pb = pow10(b.scale as nat) as int;
    let pc = pow10(c.scale as nat) as int;
    lemma_pow10_positive(a.scale as nat);
    lemma_pow10_positive(b.scale as nat);
    lemma_pow10_positive(c.scale as nat);
    assert(x * pc <= z * pa) by (nonlinear_arith)
        requires
            x * pb <= y * pa,
            y * pc <= z * pb,
            pa >= 1,
            pb >= 1,
            pc >= 1,
    {
        assert(x * pb * pc <= y * pa * pc);
        assert(y * pc * pa <= z * pb * pa);
        assert(x * pc * pb <= z * pa * pb);
    }
}

/// `m` is among `values` and no value lies below it.
pub open spec fn is_lowest(values: Seq<Dec>, m: Dec) -> bool {
    &&& values.contains(m)
    &&& forall|i: int| 0 <= i < values.len() ==> m.le(#[trigger] values[i])
}

/// `m` is among `values` and no value lies above it.
pub open spec fn is_highest(values: Seq<Dec>, m: Dec) -> bool {
    &&& values.contains(m)
    &&& forall|i: int| 0 <= i < values.len() ==> (#[trigger] values[i]).le(m)
}

pub open spec fn all_wf(values: Seq<Dec>) -> bool {
    forall|i: int| 0 <= i < values.len() ==> (#[trigger] values[i]).wf()
}

/// The lowest and the highest of `values`.
pub fn extremes(values: &Vec<Dec>) -> (r: (Dec, Dec))
    requires
        values@.len() > 0,
        all_wf(values@),
    ensures
        is_lowest(values@, r.0),
        is_highest(values@, r.1),
        r.0.wf(),
        r.1.wf(),
{
    let mut low = values[0];
    let mut high = values[0];
    let mut i: usize = 1;
    proof {
        assert(low.le(low)) by (nonlinear_arith);
        assert(values@.subrange(0, 1)[0] == low);
    }
    while i < values.len()
        invariant
            1 <= i <= values@.len(),
            all_wf(values@),
            low.wf(),
            high.wf(),
            values@.subrange(0, i as int).contains(low),
            values@.subrange(0, i as int).contains(high),
            forall|j: int| 0 <= j < i ==> low.le(#[trigger] values@[j]),
            forall|j: int| 0 <= j < i ==> (#[trigger] values@[j]).le(high),
        decreases values@.len() - i,
    {
        let v = values[i];
        let ghost old_low = low;
        let ghost old_high = high;
        if !dec_le(&low, &v) {
            low = v;
            proof {
                assert(v.le(old_low));
                assert forall|j: int| 0 <= j < i implies low.le(#[trigger] values@[j]) by {
                    lemma_le_trans(v, old_low, values@[j]);
                }
                assert(values@.subrange(0, i + 1)[i as int] == v);
            }
        }
        if !dec_le(&v, &high) {
            high = v;
            proof {
                assert(old_high.le(v));
                assert forall|j: int| 0 <= j < i implies (#[trigger] values@[j]).le(high) by {
                    lemma_le_trans(values@[j], old_high, v);
                }
                assert(values@.subrange(0, i + 1)[i as int] == v);
            }
        }
        proof {
            assert(v.le(v)) by (nonlinear_arith);
            let s0 = values@.subrange(0, i as int);
            let s1 = values@.subrange(0, i + 1);
            assert forall|x: Dec| s0.contains(x) implies s1.contains(x) by {
                let k = choose|k: int| 0 <= k < s0.len() && s0[k] == x;
                assert(s1[k] == x);
            }
            assert(s1[i as int] == v);
        }
        i = i + 1;
    }
    proof {
        assert(values@.subrange(0, values@.len() as int) =~= values@);
    }
    (low, high)
}

/// The colour of a line chart: green when the last value is at least the first.
pub open spec fn line_color(values: Seq<Dec>) -> ChartColor {
    if values[0].le(values[values.len() - 1]) {
        ChartColor::Green
    } else {
        ChartColor::Red
    }
}

/// The colour of a candle: green when it closes above its opening price.
pub open spec fn candle_color(c: Candle) -> ChartColor {
    if c.close.le(c.open) {
        ChartColor::Red
    } else {
        ChartColor::Green
    }
}

/// `plan` is the line chart of `values` drawn to `path`.
pub open spec fn is_line_plan(plan: LinePlan, values: Seq<Dec>, path: Seq<char>) -> bool {
    &&& plan.path@ == path
    &&& plan.points@ == values
    &&& plan.color == line_color(values)
    &&& exists|low: Dec| is_lowest(values, low) && plan.y_low == scaled(low, LOW_PERCENT)
    &&& exists|high: Dec| is_highest(values, high) && plan.y_high == scaled(high, HIGH_PERCENT)
}

/// The plan of a line chart of `values`, to be drawn to `path`; `None` for no values.
pub fn line_plan(values: &Vec<Dec>, path: String) -> (r: Option<LinePlan>)
    requires
        all_wf(values@),
    ensures
        r is None <==> values@.len() == 0,
        r is Some ==> is_line_plan(r->0, values@, path@),
        r is Some ==> (r->0.color == ChartColor::Green <==> values@[0].le(
            values@[values@.len() - 1],
        )),
{
    let n = values.len();
    if n == 0 {
        return None;
    }
    let (low, high) = extremes(values);
    let color = if dec_le(&values[0], &values[n - 1]) {
        ChartColor::Green
    } else {
        ChartColor::Red
    };
    let mut points: Vec<Dec> = Vec::new();
    let mut i: usize = 0;
    while i < n
        invariant
            n == values@.len(),
            i <= n,
            points@ == values@.subrange(0, i as int),
        decreases n - i,
    {
        points.push(values[i]);
        proof {
            assert(points@ =~= values@.subrange(0, i + 1));
        }
        i = i + 1;
    }
    proof {
        assert(points@ =~= values@);
    }
    let plan = LinePlan {
        path,
        points,
        color,
        y_low: scale_by(&low, LOW_PERCENT),
        y_high: scale_by(&high, HIGH_PERCENT),
    };
    Some(plan)
}

/// The hours between the last point of a line chart and the point at `x`, counted
/// backward from the last point (negative past it).
pub fn hours_back(plan: &LinePlan, x: u64) -> (r: i64)
    requires
        plan.points@.len() >= 1,
        plan.points@.len() <= i64::MAX,
        x <= i64::MAX,
    ensures
        r == plan.points@.len() - 1 - x,
{
    let last = (plan.points.len() - 1) as i64;
    last - (x as i64)
}

/// Seconds since the epoch of a time in milliseconds, rounding toward zero.
pub open spec fn secs_of(ms: i64) -> int {
    if ms >= 0 {
        ms as int / 1000
    } else {
        -((-(ms as int)) / 1000)
    }
}

fn to_secs(ms: i64) -> (r: i64)
    ensures
        r == secs_of(ms),
{
    ms / 1000
}

/// The closing prices of `series`.
pub open spec fn closes(series: Seq<Candle>) -> Seq<Dec> {
    series.map_values(|c: Candle| c.close)
}

/// The mark of a candle.
pub open spec fn candle_mark(c: Candle) -> CandleMark {
    CandleMark {
        time_secs: secs_of(c.time_ms) as i64,
        open: c.open,
        high: c.high,
        low: c.low,
        close: c.close,
        color: candle_color(c),
    }
}

/// `plan` is the candlestick chart of `series` drawn to `path`.
pub open spec fn is_candle_plan(plan: CandlePlan, series: Seq<Candle>, path: Seq<char>) -> bool {
    &&& plan.path@ == path
    &&& plan.candles@ == series.map_values(|c: Candle| candle_mark(c))
    &&& plan.from_secs == secs_of(series[0].time_ms) - PADDING_HOURS * 3600
    &&& plan.to_secs == secs_of(series[series.len() - 1].time_ms) + PADDING_HOURS * 3600
    &&& exists|low: Dec| is_lowest(closes(series), low) && plan.y_low == scaled(low, LOW_PERCENT)
    &&& exists|high: Dec|
        is_highest(closes(series), high) && plan.y_high == scaled(high, HIGH_PERCENT)
}

pub open spec fn all_candles_wf(series: Seq<Candle>) -> bool {
    forall|i: int| 0 <= i < series.len() ==> (#[trigger] series[i]).wf()
}

/// Whether every price of `series` is within decimal range.
pub fn candles_in_range(series: &Vec<Candle>) -> (r: bool)
    ensures
        r == all_candles_wf(series@),
{
    let mut i: usize = 0;
    while i < series.len()
        invariant
            i <= series@.len(),
            forall|j: int| 0 <= j < i ==> (#[trigger] series@[j]).wf(),
        decreases series@.len() - i,
    {
        let c = &series[i];
        if !(c.open.in_range() && c.high.in_range() && c.low.in_range() && c.close.in_range()) {
            return false;
        }
        i = i + 1;
    }
    true
}

/// The plan of a candlestick chart of `series`, to be drawn to `path`; `None` for an
/// empty series.
pub fn candle_plan(series: &Vec<Candle>, path: String) -> (r: Option<CandlePlan>)
    requires
        all_candles_wf(series@),
    ensures
        r is None <==> series@.len() == 0,
        r is Some ==> is_candle_plan(r->0, series@, path@),
{
    let n = series.len();
    if n == 0 {
        return None;
    }
    let mut close_values: Vec<Dec> = Vec::new();
    let mut candles: Vec<CandleMark> = Vec::new();
    let mut i: usize = 0;
    while i < n
        invariant
            n == series@.len(),
            i <= n,
            all_candles_wf(series@),
            close_values@ == closes(series@).subrange(0, i as int),
            candles@ == series@.map_values(|c: Candle| candle_mark(c)).subrange(0, i as int),
        decreases n - i,
    {
        let c = series[i];
        assert(c.wf());
        let color = if dec_le(&c.close, &c.open) {
            ChartColor::Red
        } else {
            ChartColor::Green
        };
        close_values.push(c.close);
        candles.push(
            CandleMark {
                time_secs: to_secs(c.time_ms),
                open: c.open,
                high: c.high,
                low: c.low,
                close: c.close,
                color,
            },
        );
        proof {
            assert(close_values@ =~= closes(series@).subrange(0, i + 1));
            assert(candles@ =~= series@.map_values(|c: Candle| candle_mark(c)).subrange(0, i + 1));
        }
        i = i + 1;
    }
    proof {
        assert(close_values@ =~= closes(series@));
        assert(candles@ =~= series@.map_values(|c: Candle| candle_mark(c)));
        assert forall|j: int| 0 <= j < close_values@.len() implies (#[trigger] close_values@[j]).wf() by {
            assert(series@[j].wf());
        }
    }
    let (low, high) = extremes(&close_values);
    let from = to_secs(series[0].time_ms) - PADDING_HOURS * 3600;
    let to = to_secs(series[n - 1].time_ms) + PADDING_HOURS * 3600;
    Some(
        CandlePlan {
            path,
            candles,
            from_secs: from,
            to_secs: to,
            y_low: scale_by(&low, LOW_PERCENT),
            y_high: scale_by(&high, HIGH_PERCENT),
        },
    )
}

/// The file a chart of `coin` is drawn to, made unique by the time stamp `stamp`.
pub open spec fn chart_file_name(coin: Seq<char>, stamp: Seq<char>) -> Seq<char> {
    coin + "_"@ + stamp + ".png"@
}

pub fn chart_file(coin: &str, stamp: &str) -> (r: String)
    ensures
        r@ == chart_file_name(coin@, stamp@),
{
    let mut name = String::from_str(coin);
    name.append("_");
    name.append(stamp);
    name.append(".png");
    name
}

/// Relies on `chrono::Local::now` and `DateTime::format`: the local time now, down to
/// the nanosecond. Nothing is promised of the text; two calls may give different stamps.
#[verifier::external_body]
pub(crate) fn time_stamp() -> (r: String) {
    chrono::Local::now().format("%Y%m%d%H%M%S%f").to_string()
}

} // verus!
