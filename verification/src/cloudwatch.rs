//! Metric queries: what is asked of the metrics backend, and what its answer
//! says about a load balancer's activity.

use crate::models::LoadBalancerState;
use vstd::prelude::*;

verus! {

/// The length of one bucket of a metric query, in seconds.
pub const PERIOD_SECONDS: i32 = 60;

/// The number of seconds in a day.
pub const SECONDS_PER_DAY: i64 = 86_400;

/// A point in time: seconds since the Unix epoch, and nanoseconds into that
/// second.
#[derive(Clone, Copy, Debug, PartialEq, Eq, Structural)]
pub struct Timestamp {
    pub secs: i64,
    pub nanos: u32,
}

/// The stretch of time that a metric query covers.
#[derive(Clone, Copy, Debug, PartialEq, Eq, Structural)]
pub struct MetricWindow {
    pub start: Timestamp,
    pub end: Timestamp,
}

/// One name and value that narrow a metric down.
#[derive(Debug)]
pub struct Dimension {
    pub name: String,
    pub value: String,
}

/// A dimension as plain text.
pub struct DimensionView {
    pub name: Seq<char>,
    pub value: Seq<char>,
}

impl View for Dimension {
    type V = DimensionView;

    open spec fn view(&self) -> DimensionView {
        DimensionView { name: self.name@, value: self.value@ }
    }
}

/// A fully specified metric: namespace, name and dimensions.
#[derive(Debug)]
pub struct Metric {
    pub namespace: String,
    pub metric_name: String,
    pub dimensions: Vec<Dimension>,
}

/// A metric as plain text.
pub struct MetricView {
    pub namespace: Seq<char>,
    pub metric_name: Seq<char>,
    pub dimensions: Seq<DimensionView>,
}

impl View for Metric {
    type V = MetricView;

    open spec fn view(&self) -> MetricView {
        MetricView {
            namespace: self.namespace@,
            metric_name: self.metric_name@,
            dimensions: self.dimensions@.map_values(|d: Dimension| d@),
        }
    }
}

/// The one query of a request: a metric, a bucket length and a statistic.
#[derive(Debug)]
pub struct MetricDataQuery {
    pub id: String,
    pub metric: Metric,
    pub period: i32,
    pub stat: String,
}

/// What is sent to the metrics backend for one metric.
#[derive(Debug)]
pub struct MetricDataRequest {
    pub query: MetricDataQuery,
    pub window: MetricWindow,
}

/// One result set of a metric query: the value of each bucket, as a count.
#[derive(Debug)]
pub struct MetricDataResult {
    pub values: Vec<u64>,
}

/// The sum of the values.
pub open spec fn sum(values: Seq<u64>) -> nat
    decreases values.len(),
{
    if values.len() == 0 {
        0
    } else {
        (sum(values.drop_last()) + values.last()) as nat
    }
}

/// The activity that a query's outcome shows: active where the values add up
/// to more than zero, inactive where they do not or where there is no result.
pub open spec fn activity(stats: Option<Seq<u64>>) -> LoadBalancerState {
    match stats {
        Some(values) => if sum(values) > 0 {
            LoadBalancerState::Active
        } else {
            LoadBalancerState::Inactive
        },
        None => LoadBalancerState::Inactive,
    }
}

/// The values of a result that may be missing.
pub open spec fn values_of(stats: Option<&MetricDataResult>) -> Option<Seq<u64>> {
    match stats {
        Some(result) => Some(result.values@),
        None => None,
    }
}

impl MetricWindow {
    /// The second at which a window of `days` days ending at `now_secs` starts.
    pub open spec fn start_secs(now_secs: int, days: int) -> int {
        now_secs - days * SECONDS_PER_DAY
    }

    /// The window that ends at `now` and starts `days` days before it.
    /// `None` where the start cannot be written as a timestamp.
    pub fn lookback(now: Timestamp, days: i64) -> (window: Option<MetricWindow>)
        ensures
            i64::MIN <= Self::start_secs(now.secs as int, days as int) <= i64::MAX
                <==> window is Some,
            window matches Some(w) ==> w.end == now && w.start.nanos == now.nanos && w.start.secs
                == Self::start_secs(now.secs as int, days as int),
    {
        assert(-0x8000_0000_0000_0000 * 86_400 <= days * SECONDS_PER_DAY <= 0x8000_0000_0000_0000
            * 86_400) by (nonlinear_arith)
            requires
                -0x8000_0000_0000_0000 <= days <= 0x8000_0000_0000_0000,
                SECONDS_PER_DAY == 86_400,
        ;
        let span: i128 = (days as i128) * (SECONDS_PER_DAY as i128);
        let start: i128 = now.secs as i128 - span;
        if start < i64::MIN as i128 || start > i64::MAX as i128 {
            None
        } else {
            Some(
                MetricWindow { start: Timestamp { secs: start as i64, nanos: now.nanos }, end: now },
            )
        }
    }
}

/// The request for `metric` over the `days` days before `now`: one query,
/// named `m1`, for the minimum of each 60-second bucket. `None` where the
/// window has no start.
pub fn metric_data_request(metric: Metric, now: Timestamp, days: i64) -> (request: Option<
    MetricDataRequest,
>)
    ensures
        i64::MIN <= MetricWindow::start_secs(now.secs as int, days as int) <= i64::MAX
            <==> request is Some,
        request matches Some(r) ==> {
            &&& r.query.metric == metric
            &&& r.query.id@ == "m1"@
            &&& r.query.period == PERIOD_SECONDS
            &&& r.query.stat@ == "Minimum"@
            &&& r.window.end == now
            &&& r.window.start.nanos == now.nanos
            &&& r.window.start.secs == MetricWindow::start_secs(now.secs as int, days as int)
        },
{
    match MetricWindow::lookback(now, days) {
        Some(window) => Some(
            MetricDataRequest {
                query: MetricDataQuery {
                    id: "m1".to_owned(),
                    metric,
                    period: PERIOD_SECONDS,
                    stat: "Minimum".to_owned(),
                },
                window,
            },
        ),
        None => None,
    }
}

/// The result that counts of a backend's answer: the first result set of a
/// successful answer. A failed call, like an answer without result sets,
/// gives nothing.
pub fn first_result<E>(response: Result<Vec<MetricDataResult>, E>) -> (stats: Option<
    MetricDataResult,
>)
    ensures
        stats == match response {
            Ok(results) => if results.len() > 0 {
                Some(results[0])
            } else {
                None
            },
            Err(_) => None,
        },
{
    match response {
        Ok(mut results) => {
            if results.len() > 0 {
                Some(results.remove(0))
            } else {
                None
            }
        },
        Err(_) => None,
    }
}

/// Adds up the values.
pub fn total(values: &Vec<u64>) -> (t: u128)
    ensures
        t == sum(values@),
{
    let mut t: u128 = 0;
    let mut i: usize = 0;
    while i < values.len()
        invariant
            i <= values.len(),
            t == sum(values@.take(i as int)),
            t <= i * u64::MAX,
        decreases values.len() - i,
    {
        assert(values@.take(i + 1).drop_last() =~= values@.take(i as int));
        assert((i + 1) * u64::MAX <= usize::MAX * u64::MAX) by (nonlinear_arith)
            requires
                i + 1 <= usize::MAX,
        ;
        assert(usize::MAX * u64::MAX <= 0xffff_ffff_ffff_ffff * 0xffff_ffff_ffff_ffff)
            by (nonlinear_arith)
            requires
                usize::MAX <= 0xffff_ffff_ffff_ffff,
                u64::MAX == 0xffff_ffff_ffff_ffff,
        ;
        assert((i + 1) * u64::MAX == i * u64::MAX + u64::MAX) by (nonlinear_arith);
        t = t + values[i] as u128;
        i = i + 1;
    }
    assert(values@.take(values.len() as int) =~= values@);
    t
}

/// Decides from the outcome of a metric query whether a load balancer is
/// active: it is where the values of the result add up to more than zero.
/// No result, like an empty one, means inactive.
pub fn classify(stats: Option<&MetricDataResult>) -> (state: LoadBalancerState)
    ensures
        state == LoadBalancerState::Active <==> (stats matches Some(result) && sum(result.values@)
            > 0),
        state == LoadBalancerState::Inactive <==> (stats is None || sum(stats->0.values@) == 0),
        stats is None ==> state == LoadBalancerState::Inactive,
        stats matches Some(result) && result.values@.len() == 0 ==> state
            == LoadBalancerState::Inactive,
        state == activity(values_of(stats)),
{
    match stats {
        Some(result) => {
            if total(&result.values) > 0 {
                LoadBalancerState::Active
            } else {
                LoadBalancerState::Inactive
            }
        },
        None => LoadBalancerState::Inactive,
    }
}

} // verus!
