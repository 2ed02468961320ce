use battery_monitor::monitor::{Monitor, MonitorResponse, MonitorSettings};

#[test]
fn constant_duration() {
    let monitor = Monitor::new(Some(MonitorSettings {
        retries: 5,
        normal_delay: 1,
        response_generator: || MonitorResponse { duration: 1, delay: 1 },
    }));

    let mut counter: i32 = 0;
    for response in monitor.responses() {
        counter += 1;
        assert_eq!(response.delay, 1);
        assert_eq!(response.duration, 1);
    }
    assert_eq!(counter, 5)
}

#[test]
fn duration_can_be_modified() {
    let monitor = Monitor::new(Some(MonitorSettings {
        retries: 5,
        normal_delay: 1,
        response_generator: || MonitorResponse { duration: 1, delay: 1 },
    }));

    let mut counter: i32 = 0;
    for response in monitor.responses() {
        counter += 1;
        assert_eq!(response.delay, 1);
        assert_eq!(response.duration, 1);
    }
    assert_eq!(counter, 5)
}

fn five_of(delay: i32) -> Monitor<impl Fn() -> MonitorResponse> {
    Monitor::new(Some(MonitorSettings {
        retries: 5,
        normal_delay: 1,
        response_generator: move || MonitorResponse { delay, duration: 3 },
    }))
}

#[test]
fn schedule_ends_after_its_retries_and_a_new_one_starts_afresh() {
    let mut first = five_of(7);
    for _ in 0..5 {
        assert_eq!(first.next(), Some(MonitorResponse { delay: 7, duration: 3 }));
    }
    assert_eq!(first.next(), None);
    assert_eq!(first.next(), None);

    let second = five_of(7);
    assert_eq!(second.responses().len(), 5);
    assert_eq!(first.next(), None);
}

#[test]
fn default_schedule_is_ten_of_five_and_two_seconds() {
    let monitor = Monitor::<fn() -> MonitorResponse>::new(None);
    assert_eq!(monitor.normal_delay(), 5000);
    let all = monitor.responses();
    assert_eq!(all.len(), 10);
    for r in all {
        assert_eq!(r, MonitorResponse { delay: 5000, duration: 2000 });
    }
    let by_default: Monitor<fn() -> MonitorResponse> = Monitor::default();
    assert_eq!(by_default.responses().len(), 10);
}

#[test]
fn non_positive_retries_give_an_empty_schedule() {
    let mut none = Monitor::new(Some(MonitorSettings {
        retries: 0,
        normal_delay: 1,
        response_generator: || MonitorResponse { delay: 1, duration: 1 },
    }));
    assert_eq!(none.next(), None);
    let negative = Monitor::new(Some(MonitorSettings {
        retries: -3,
        normal_delay: 9,
        response_generator: || MonitorResponse { delay: 1, duration: 1 },
    }));
    assert_eq!(negative.normal_delay(), 9);
    assert!(negative.responses().is_empty());
}

#[test]
fn each_element_comes_from_a_fresh_generator_call() {
    let calls = std::cell::Cell::new(0);
    let monitor = Monitor::new(Some(MonitorSettings {
        retries: 3,
        normal_delay: 1,
        response_generator: || {
            calls.set(calls.get() + 1);
            MonitorResponse { delay: calls.get(), duration: 10 * calls.get() }
        },
    }));
    let all = monitor.responses();
    assert_eq!(
        all,
        vec![
            MonitorResponse { delay: 1, duration: 10 },
            MonitorResponse { delay: 2, duration: 20 },
            MonitorResponse { delay: 3, duration: 30 },
        ]
    );
}

#[test]
fn negative_delay_waits_for_nothing() {
    assert_eq!(MonitorResponse { delay: -5, duration: 1 }.wait_ms(), 0);
    assert_eq!(MonitorResponse { delay: 0, duration: 1 }.wait_ms(), 0);
    assert_eq!(MonitorResponse { delay: 5000, duration: 1 }.wait_ms(), 5000);
}
