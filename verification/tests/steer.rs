use tower::leaf::ConstService;
use tower::service::{Readiness, Service};
use tower::steer::{FixedPicker, RoundRobinPicker, Steer};

#[test]
fn pick_correctly() {
    let srvs = vec![ConstService::new(42u8), ConstService::new(57u8)];
    let mut st = Steer::new(srvs, FixedPicker::new(1));

    let r: Result<u8, u64> = st.call(String::from("foo"));
    assert_eq!(r.unwrap(), 57);
}

#[test]
fn routes_only_to_the_chosen_service() {
    // Two scripted-by-value services; the picker always chooses slot 1, so
    // slot 0 must keep its state untouched across any number of calls.
    let srvs = vec![ConstService::new(1u64), ConstService::new(2u64)];
    let mut st = Steer::new(srvs, FixedPicker::new(1));

    for _ in 0..3 {
        let r: Result<u64, u64> = st.call(0u64);
        assert_eq!(r, Ok(2));
    }
    assert_eq!(st.services[0].value, 1);
}

#[test]
fn reports_ready_when_all_services_are() {
    let srvs = vec![ConstService::new(3u8), ConstService::new(4u8)];
    let mut st = Steer::new(srvs, FixedPicker::new(0));

    let v: Readiness<u64> = <_ as Service<String, u8, u64>>::report_readiness(&mut st);
    assert_eq!(v, Readiness::Ready);
    let r: Result<u8, u64> = st.call(String::from("x"));
    assert_eq!(r, Ok(3));
}

#[test]
fn empty_steer_is_never_ready() {
    let srvs: Vec<ConstService<u8>> = Vec::new();
    let mut st = Steer::new(srvs, FixedPicker::new(0));

    let v: Readiness<u64> = <_ as Service<String, u8, u64>>::report_readiness(&mut st);
    assert_eq!(v, Readiness::Pending);
}

#[test]
fn round_robin_walks_the_slots() {
    let srvs = vec![
        ConstService::new(10u64),
        ConstService::new(20u64),
        ConstService::new(30u64),
    ];
    let mut st = Steer::new(srvs, RoundRobinPicker::new());

    let mut seen = Vec::new();
    for _ in 0..4 {
        let r: Result<u64, u64> = st.call(());
        seen.push(r.unwrap());
    }
    assert_eq!(seen, vec![10, 20, 30, 10]);
}

#[test]
fn fixed_picker_clamps_to_the_first_slot() {
    // A slot beyond the list falls back to slot 0, so the pick is in range
    // for every non-empty list.
    let srvs = vec![ConstService::new(5u8), ConstService::new(6u8)];
    let mut st = Steer::new(srvs, FixedPicker::new(9));

    let r: Result<u8, u64> = st.call(0u64);
    assert_eq!(r, Ok(5));
}
