use loop_events::event::{Event, EventId, Loop, Payload, UpdateArgs, UpdateEvent};
use loop_events::float_bits;
use std::cmp::Ordering;

fn args(dt: f64) -> UpdateArgs {
    UpdateArgs { dt: dt.to_bits() }
}

#[test]
fn test_input_update() {
    let e: Event = UpdateArgs { dt: (0.0f64).to_bits() }.into();
    let _: Option<Event> =
        UpdateEvent::from_update_args(&UpdateArgs { dt: (1.0f64).to_bits() }, &e);
}

#[test]
fn round_trip_preserves_dt_bits() {
    let samples = [
        0.0,
        -0.0,
        1.0,
        -1.0,
        1.5,
        f64::NAN,
        f64::INFINITY,
        f64::NEG_INFINITY,
        f64::MAX,
        f64::MIN_POSITIVE,
        5e-324,
    ];
    for dt in samples {
        let e: Event = args(dt).into();
        let got = e.update_args().expect("a loop update carries its arguments");
        assert_eq!(got.dt, dt.to_bits());
    }
}

#[test]
fn from_dt_matches_from_update_args() {
    let prior: Event = args(0.0).into();
    let a = Event::from_dt((1.5f64).to_bits(), &prior);
    let b = Event::from_update_args(&args(1.5), &prior);
    assert!(a == b);

    let nan = f64::NAN;
    let a = Event::from_dt(nan.to_bits(), &prior).unwrap();
    let b = Event::from_update_args(&args(nan), &prior).unwrap();
    assert_eq!(
        a.update_args().unwrap().dt,
        b.update_args().unwrap().dt
    );
}

#[test]
fn update_args_matches_update() {
    let e: Event = args(2.0).into();
    assert_eq!(e.update_args(), e.update(|a| *a));

    let c = Event::Custom(EventId("myapi/click"), Payload::new(3u8), None);
    assert!(c.update_args().is_none());
    assert!(c.update(|a| *a).is_none());
}

#[test]
fn update_calls_closure_on_update_events_only() {
    let e: Event = args(4.0).into();
    assert_eq!(e.update(|a| a.dt), Some((4.0f64).to_bits()));

    let c = Event::Custom(EventId("myapi/click"), Payload::new(3u8), Some(7));
    assert_eq!(c.update(|a| a.dt), None);
}

#[test]
fn custom_events_never_equal() {
    let id = EventId("myapi/click");
    let p = Payload::new(42u32);
    let e1 = Event::Custom(id, p.clone(), None);
    let e2 = Event::Custom(id, p.clone(), None);
    assert!(!(e1 == e2));
    assert!(e1 != e2);
    assert!(!(e1 == e1.clone()));

    let with_ts = Event::Custom(id, p, Some(100));
    assert!(e1 != with_ts);

    let l: Event = args(1.0).into();
    assert!(l != e1);
    assert!(e1 != l);
}

#[test]
fn custom_events_incomparable() {
    let id = EventId("myapi/click");
    let other = EventId("otherapi/scroll");
    let p = Payload::new(1i32);
    let e1 = Event::Custom(id, p.clone(), Some(1));
    let e2 = Event::Custom(id, p.clone(), Some(2));
    assert_eq!(e1.partial_cmp(&e2), None);
    assert_eq!(e1.partial_cmp(&e1), None);

    let e3 = Event::Custom(other, p.clone(), None);
    assert_eq!(e1.partial_cmp(&e3), None);

    let l: Event = args(0.0).into();
    assert_eq!(l.partial_cmp(&e1), None);
    assert_eq!(e1.partial_cmp(&l), None);
    assert!(!(e1 < e2));
    assert!(!(e1 > e2));
}

#[test]
fn loop_order_follows_dt_order() {
    let l1 = Loop::Update(args(1.0));
    let l2 = Loop::Update(args(2.0));
    assert_eq!(l1.partial_cmp(&l2), Some(Ordering::Less));
    assert!(l1 < l2);
    assert!(l2 > l1);

    let e1 = Event::Loop(l1);
    let e2 = Event::Loop(l2);
    assert_eq!(e1.partial_cmp(&e2), Some(Ordering::Less));
    assert!(e1 < e2);

    let neg = Event::Loop(Loop::Update(args(-3.5)));
    assert!(neg < e1);
}

#[test]
fn scenario_build_then_query() {
    let e1: Event = Event::from(args(0.0));
    let e2 = Event::from_update_args(&args(1.0), &e1);
    assert!(e2 == Some(Event::Loop(Loop::Update(args(1.0)))));
    assert_eq!(e2.unwrap().update_args(), Some(args(1.0)));
}

#[test]
fn comparison_agrees_with_f64_semantics() {
    let samples = [
        0.0,
        -0.0,
        1.0,
        -1.0,
        1.5,
        -2.25,
        f64::NAN,
        -f64::NAN,
        f64::INFINITY,
        f64::NEG_INFINITY,
        f64::MAX,
        f64::MIN,
        f64::MIN_POSITIVE,
        5e-324,
        -5e-324,
    ];
    for a in samples {
        for b in samples {
            let x = args(a);
            let y = args(b);
            assert_eq!(x == y, a == b, "eq mismatch on {a} and {b}");
            assert_eq!(
                x.partial_cmp(&y),
                a.partial_cmp(&b),
                "order mismatch on {a} and {b}"
            );
            assert_eq!(x < y, a < b, "lt mismatch on {a} and {b}");
            assert_eq!(
                float_bits::eq(a.to_bits(), b.to_bits()),
                a == b,
                "bit eq mismatch on {a} and {b}"
            );
            assert_eq!(
                float_bits::cmp(a.to_bits(), b.to_bits()),
                a.partial_cmp(&b),
                "bit order mismatch on {a} and {b}"
            );
        }
    }
}

#[test]
fn nan_classification_matches_f64() {
    let samples = [0.0, -0.0, 1.0, f64::NAN, f64::INFINITY, f64::NEG_INFINITY, 5e-324];
    for v in samples {
        assert_eq!(float_bits::is_nan(v.to_bits()), v.is_nan(), "nan mismatch on {v}");
        assert_eq!(float_bits::is_zero(v.to_bits()), v == 0.0 || v == -0.0);
    }
}

#[test]
fn event_id_compares_as_string() {
    let a = EventId("myapi/click");
    let b = EventId("myapi/click");
    let c = EventId("myapi/scroll");
    assert_eq!(a, b);
    assert_ne!(a, c);
    assert!(a < c);
}

#[test]
fn payload_clone_shares_value() {
    let p = Payload::new(42u32);
    let q = p.clone();
    assert_eq!(q.downcast_ref::<u32>(), Some(&42));
    assert!(q.downcast_ref::<i64>().is_none());
    assert_eq!(p.downcast_ref::<u32>(), Some(&42));
}

#[test]
fn cloned_loop_event_stays_equal() {
    let e: Event = args(2.5).into();
    let c = e.clone();
    assert!(e == c);
    assert_eq!(c.update_args(), Some(args(2.5)));
}
