use tower::leaf::{ConstService, ScriptedService};
use tower::optional::{Optional, OptionalError};
use tower::service::{Readiness, Service};

#[test]
fn absent_inner_always_errors() {
    let mut o: Optional<ConstService<u8>> = Optional::new(None);

    for req in 0u64..4 {
        let r: Result<u8, OptionalError<u64>> = o.call(req);
        assert_eq!(r, Err(OptionalError::Absent));
    }
}

#[test]
fn absent_inner_is_always_ready() {
    let mut o: Optional<ConstService<u8>> = Optional::new(None);

    let v: Readiness<OptionalError<u64>> =
        <_ as Service<u64, u8, OptionalError<u64>>>::report_readiness(&mut o);
    assert_eq!(v, Readiness::Ready);
}

#[test]
fn present_inner_forwards_successes() {
    let mut o = Optional::new(Some(ConstService::new(7u8)));

    let v: Readiness<OptionalError<u64>> =
        <_ as Service<String, u8, OptionalError<u64>>>::report_readiness(&mut o);
    assert_eq!(v, Readiness::Ready);
    let r: Result<u8, OptionalError<u64>> = o.call(String::from("req"));
    assert_eq!(r, Ok(7));
}

#[test]
fn present_inner_widens_errors() {
    let script: Vec<Result<u8, u64>> = vec![Err(3), Ok(8)];
    let mut o = Optional::new(Some(ScriptedService::new(script)));

    let r1: Result<u8, OptionalError<u64>> = o.call(0u64);
    assert_eq!(r1, Err(OptionalError::Inner(3)));
    let r2: Result<u8, OptionalError<u64>> = o.call(0u64);
    assert_eq!(r2, Ok(8));
}
