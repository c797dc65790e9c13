use lb_janitor::cloudwatch::{
    classify, first_result, metric_data_request, total, MetricDataResult, MetricWindow, Timestamp,
    PERIOD_SECONDS, SECONDS_PER_DAY,
};
use lb_janitor::elb::healthy_host_metric;
use lb_janitor::models::LoadBalancerState;

fn result(values: &[u64]) -> MetricDataResult {
    MetricDataResult { values: values.to_vec() }
}

#[test]
fn positive_sum_is_active() {
    assert_eq!(classify(Some(&result(&[0, 0, 3, 0]))), LoadBalancerState::Active);
    assert_eq!(classify(Some(&result(&[1]))), LoadBalancerState::Active);
    assert_eq!(classify(Some(&result(&[12]))), LoadBalancerState::Active);
}

#[test]
fn zero_sum_is_inactive() {
    assert_eq!(classify(Some(&result(&[0, 0, 0]))), LoadBalancerState::Inactive);
    assert_eq!(classify(Some(&result(&[0]))), LoadBalancerState::Inactive);
}

#[test]
fn no_datapoints_is_inactive() {
    assert_eq!(classify(Some(&result(&[]))), LoadBalancerState::Inactive);
}

#[test]
fn no_result_is_inactive() {
    assert_eq!(classify(None), LoadBalancerState::Inactive);
}

#[test]
fn classification_follows_the_sum() {
    let cases: [&[u64]; 6] = [&[], &[0], &[0, 0], &[5], &[0, 7, 0], &[u64::MAX, u64::MAX]];
    for values in cases {
        let sum: u128 = values.iter().map(|v| *v as u128).sum();
        let expected =
            if sum > 0 { LoadBalancerState::Active } else { LoadBalancerState::Inactive };
        assert_eq!(classify(Some(&result(values))), expected);
    }
}

#[test]
fn total_adds_without_overflow() {
    assert_eq!(total(&vec![]), 0);
    assert_eq!(total(&vec![1, 2, 3]), 6);
    assert_eq!(total(&vec![u64::MAX, u64::MAX, 2]), 2 * (u64::MAX as u128) + 2);
}

#[test]
fn window_reaches_back_whole_days() {
    let now = Timestamp { secs: 1_700_000_000, nanos: 123_456_789 };
    let window = MetricWindow::lookback(now, 45).unwrap();
    assert_eq!(window.end, now);
    assert_eq!(window.start, Timestamp { secs: 1_700_000_000 - 45 * 86_400, nanos: 123_456_789 });
    assert_eq!(window.start.secs, 1_696_112_000);
}

#[test]
fn window_of_no_days_is_an_instant() {
    let now = Timestamp { secs: 10, nanos: 0 };
    let window = MetricWindow::lookback(now, 0).unwrap();
    assert_eq!(window.start, now);
    assert_eq!(window.end, now);
}

#[test]
fn window_may_start_before_the_epoch() {
    let now = Timestamp { secs: 100, nanos: 5 };
    let window = MetricWindow::lookback(now, 1).unwrap();
    assert_eq!(window.start, Timestamp { secs: 100 - 86_400, nanos: 5 });
}

#[test]
fn window_with_negative_days_starts_later() {
    let now = Timestamp { secs: 0, nanos: 0 };
    let window = MetricWindow::lookback(now, -2).unwrap();
    assert_eq!(window.start.secs, 2 * SECONDS_PER_DAY);
}

#[test]
fn window_without_representable_start_is_none() {
    let now = Timestamp { secs: i64::MIN + 10, nanos: 0 };
    assert_eq!(MetricWindow::lookback(now, 1), None);
    assert_eq!(MetricWindow::lookback(Timestamp { secs: 0, nanos: 0 }, i64::MAX), None);
    assert_eq!(MetricWindow::lookback(Timestamp { secs: i64::MAX, nanos: 0 }, -1), None);
}

#[test]
fn window_start_may_be_the_smallest_second() {
    let now = Timestamp { secs: i64::MIN + 86_400, nanos: 7 };
    let window = MetricWindow::lookback(now, 1).unwrap();
    assert_eq!(window.start, Timestamp { secs: i64::MIN, nanos: 7 });
}

#[test]
fn window_is_exact_where_the_span_alone_overflows() {
    // 106751991167301 days are more seconds than an i64 holds, yet the start fits.
    let days: i64 = 106_751_991_167_301;
    let now = Timestamp { secs: 40_000, nanos: 0 };
    let start = 40_000i128 - (days as i128) * 86_400;
    assert!((days as i128) * 86_400 > i64::MAX as i128);
    assert!(start >= i64::MIN as i128);
    let window = MetricWindow::lookback(now, days).unwrap();
    assert_eq!(window.start.secs as i128, start);
}

#[test]
fn request_asks_for_the_minimum_per_minute() {
    let now = Timestamp { secs: 1_000_000, nanos: 1 };
    let request = metric_data_request(healthy_host_metric("lb1"), now, 2).unwrap();
    assert_eq!(request.query.id, "m1");
    assert_eq!(request.query.period, 60);
    assert_eq!(request.query.period, PERIOD_SECONDS);
    assert_eq!(request.query.stat, "Minimum");
    assert_eq!(request.query.metric.namespace, "AWS/ELB");
    assert_eq!(request.window.end, now);
    assert_eq!(request.window.start, Timestamp { secs: 1_000_000 - 172_800, nanos: 1 });
}

#[test]
fn request_without_window_is_none() {
    let now = Timestamp { secs: i64::MIN, nanos: 0 };
    assert!(metric_data_request(healthy_host_metric("lb1"), now, 1).is_none());
}

#[test]
fn first_result_of_a_successful_answer_counts() {
    let response: Result<Vec<MetricDataResult>, String> = Ok(vec![result(&[4, 0]), result(&[9])]);
    assert_eq!(first_result(response).unwrap().values, vec![4, 0]);
}

#[test]
fn answer_without_results_gives_nothing() {
    let response: Result<Vec<MetricDataResult>, String> = Ok(vec![]);
    assert!(first_result(response).is_none());
}

#[test]
fn failed_query_gives_nothing() {
    let response: Result<Vec<MetricDataResult>, String> = Err("throttled".to_string());
    assert!(first_result(response).is_none());
}

#[test]
fn failed_query_counts_as_inactive() {
    let response: Result<Vec<MetricDataResult>, String> = Err("timeout".to_string());
    let stats = first_result(response);
    assert_eq!(classify(stats.as_ref()), LoadBalancerState::Inactive);
}
