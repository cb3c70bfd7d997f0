use tower::chain::Chain;
use tower::layer::{Identity, Layer};
use tower::leaf::{ConstService, EchoService, ScriptedService};
use tower::map_err::MapErr;
use tower::map_request::MapRequest;
use tower::map_response::MapResponse;
use tower::map_result::MapResult;
use tower::service::Service;
use tower::transform::{LimitCheck, RecoverAll, RecoverValue, SaturatingAdd};
use tower::try_map_request::TryMapRequest;

#[test]
fn map_response_maps_successes() {
    let mut m: MapResponse<ConstService<u64>, SaturatingAdd, u64> =
        MapResponse::new(ConstService::new(40), SaturatingAdd::new(2));

    let r: Result<u64, u64> = m.call(0u64);
    assert_eq!(r, Ok(42));
}

#[test]
fn map_response_passes_errors_unchanged() {
    let script: Vec<Result<u64, u64>> = vec![Err(9)];
    let mut m: MapResponse<ScriptedService<u64, u64>, SaturatingAdd, u64> =
        MapResponse::new(ScriptedService::new(script), SaturatingAdd::new(2));

    let r: Result<u64, u64> = m.call(0u64);
    assert_eq!(r, Err(9));
}

#[test]
fn map_err_maps_errors() {
    let script: Vec<Result<u64, u64>> = vec![Err(9)];
    let mut m: MapErr<ScriptedService<u64, u64>, SaturatingAdd, u64> =
        MapErr::new(ScriptedService::new(script), SaturatingAdd::new(1));

    let r: Result<u64, u64> = m.call(0u64);
    assert_eq!(r, Err(10));
}

#[test]
fn map_err_passes_successes_unchanged() {
    let mut m: MapErr<ConstService<u64>, SaturatingAdd, u64> =
        MapErr::new(ConstService::new(5), SaturatingAdd::new(1));

    let r: Result<u64, u64> = m.call(0u64);
    assert_eq!(r, Ok(5));
}

#[test]
fn map_request_transforms_before_forwarding() {
    let echo = EchoService::new(0, Vec::new());
    let mut m: MapRequest<EchoService, SaturatingAdd, u64> =
        MapRequest::new(echo, SaturatingAdd::new(1));

    let r: Result<u64, u64> = m.call(41u64);
    assert_eq!(r, Ok(42));
}

#[test]
fn try_map_request_admits_and_rejects() {
    let echo = EchoService::new(0, Vec::new());
    let mut m: TryMapRequest<EchoService, LimitCheck, u64> =
        TryMapRequest::new(echo, LimitCheck::new(10));

    let ok: Result<u64, u64> = m.call(5u64);
    assert_eq!(ok, Ok(5));
    let rejected: Result<u64, u64> = m.call(11u64);
    assert_eq!(rejected, Err(11));
    // The rejection never reached the inner service, which still answers.
    let after: Result<u64, u64> = m.call(3u64);
    assert_eq!(after, Ok(3));
}

#[test]
fn map_result_recovers_one_error() {
    let script: Vec<Result<u64, u64>> = vec![Err(7), Ok(1), Err(8)];
    let mut m: MapResult<ScriptedService<u64, u64>, RecoverValue, u64, u64> =
        MapResult::new(ScriptedService::new(script), RecoverValue::new(7, 99));

    let recovered: Result<u64, u64> = m.call(0u64);
    assert_eq!(recovered, Ok(99));
    let passed_ok: Result<u64, u64> = m.call(0u64);
    assert_eq!(passed_ok, Ok(1));
    let passed_err: Result<u64, u64> = m.call(0u64);
    assert_eq!(passed_err, Err(8));
}

#[test]
fn chain_runs_the_continuation_on_both_branches() {
    let script: Vec<Result<u64, u64>> = vec![Err(7), Ok(5)];
    let mut c: Chain<ScriptedService<u64, u64>, RecoverAll, u64, u64> =
        Chain::new(ScriptedService::new(script), RecoverAll::new(123));

    let recovered: Result<u64, u64> = c.call(0u64);
    assert_eq!(recovered, Ok(123));
    let passed: Result<u64, u64> = c.call(0u64);
    assert_eq!(passed, Ok(5));
}

#[test]
fn identity_layer_returns_the_service_unchanged() {
    let layer = Identity::new();
    let mut svc: ConstService<u64> = layer.apply(ConstService::new(11));

    let r: Result<u64, u64> = svc.call(0u64);
    assert_eq!(r, Ok(11));
}
