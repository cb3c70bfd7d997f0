use tower::ext::{call_all, call_all_unordered, oneshot, ready, ready_oneshot};
use tower::leaf::{ConstService, EchoService, ScriptedService};
use tower::service::Readiness;

#[test]
fn ready_settles_within_patience() {
    let mut svc = EchoService::new(3, Vec::new());

    let v: Readiness<u64> = ready::<u64, u64, u64, _>(&mut svc, 10);
    assert_eq!(v, Readiness::Ready);
}

#[test]
fn ready_gives_up_when_patience_runs_out() {
    let mut svc = EchoService::new(9, Vec::new());

    let v: Readiness<u64> = ready::<u64, u64, u64, _>(&mut svc, 3);
    assert_eq!(v, Readiness::Pending);
}

#[test]
fn ready_oneshot_yields_the_service_back() {
    let svc = EchoService::new(2, Vec::new());

    let (mut svc, v) = ready_oneshot::<u64, u64, u64, _>(svc, 5);
    assert_eq!(v, Readiness::Ready);
    let r: Result<u64, u64> = call_all(&mut svc, vec![8], 1).remove(0);
    assert_eq!(r, Ok(8));
}

#[test]
fn oneshot_waits_and_calls_once() {
    let r: Option<Result<u64, u64>> = oneshot(ConstService::new(4u64), String::from("x"), 1);
    assert_eq!(r, Some(Ok(4)));
}

#[test]
fn oneshot_gives_up_on_a_service_that_stays_pending() {
    let svc = EchoService::new(9, Vec::new());
    let r: Option<Result<u64, u64>> = oneshot(svc, 1u64, 2);
    assert_eq!(r, None);
}

#[test]
fn call_all_keeps_request_order_despite_latency() {
    // Per-call latencies vary: none before the first call, two pending
    // reports before the second, one before the third.
    let mut svc = EchoService::new(0, vec![2, 1]);

    let res: Vec<Result<u64, u64>> = call_all(&mut svc, vec![10, 20, 30], 5);
    assert_eq!(res, vec![Ok(10), Ok(20), Ok(30)]);
}

#[test]
fn call_all_unordered_returns_the_same_results_as_a_bag() {
    let mut svc = EchoService::new(0, vec![1, 0]);

    let mut res: Vec<Result<u64, u64>> = call_all_unordered(&mut svc, vec![3, 1, 2], 5);
    res.sort();
    assert_eq!(res, vec![Ok(1), Ok(2), Ok(3)]);
}

#[test]
fn call_all_stops_when_patience_runs_out() {
    let mut svc = EchoService::new(9, Vec::new());

    let res: Vec<Result<u64, u64>> = call_all(&mut svc, vec![1, 2], 3);
    assert_eq!(res, Vec::new());
}

#[test]
fn call_all_stops_after_the_script_is_exhausted() {
    let script: Vec<Result<u64, u64>> = vec![Ok(5)];
    let mut svc = ScriptedService::new(script);

    let res: Vec<Result<u64, u64>> = call_all(&mut svc, vec![1, 2, 3], 2);
    assert_eq!(res, vec![Ok(5)]);
}
