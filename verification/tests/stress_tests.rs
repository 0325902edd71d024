use invoker::stress::{request_body, ConstantLoad, LoadStep, RateRamp, StressMode};

fn rates(start: usize, peak: usize, inc: usize, limit: usize) -> Vec<usize> {
    let mut ramp = RateRamp::new(start, peak, inc);
    let mut out = Vec::new();
    while let Some(r) = ramp.next_second() {
        out.push(r);
        if out.len() == limit {
            break;
        }
    }
    out
}

#[test]
fn mode_names() {
    assert_eq!(StressMode::from_name("constant"), Some(StressMode::Constant));
    assert_eq!(StressMode::from_name("incremental"), Some(StressMode::Incremental));
    assert_eq!(StressMode::from_name("Constant"), None);
    assert_eq!(StressMode::from_name(""), None);
}

#[test]
fn ramp_rises_by_the_increment_and_stops_below_peak() {
    let r = rates(1, 50, 2, 1000);
    assert_eq!(r.len(), 25);
    assert_eq!(r[0], 1);
    assert_eq!(r[24], 49);
    for (k, rate) in r.iter().enumerate() {
        assert_eq!(*rate, 1 + 2 * k);
    }
}

#[test]
fn ramp_never_runs_the_peak() {
    assert_eq!(rates(1, 10, 3, 1000), vec![1, 4, 7]);
    assert_eq!(rates(0, 4, 2, 1000), vec![0, 2]);
    assert_eq!(rates(5, 5, 1, 1000), Vec::<usize>::new());
    assert_eq!(rates(9, 5, 1, 1000), Vec::<usize>::new());
}

#[test]
fn ramp_near_the_largest_rate_does_not_overflow() {
    assert_eq!(rates(usize::MAX - 3, usize::MAX, usize::MAX, 1000), vec![usize::MAX - 3]);
}

#[test]
fn ramp_without_increment_keeps_its_rate() {
    assert_eq!(rates(3, 4, 0, 100), vec![3; 100]);
}

#[test]
fn ramp_stays_over() {
    let mut ramp = RateRamp::new(1, 2, 5);
    assert_eq!(ramp.next_second(), Some(1));
    assert_eq!(ramp.next_second(), None);
    assert_eq!(ramp.next_second(), None);
}

#[test]
fn request_body_holds_the_send_time() {
    assert_eq!(request_body(1725029869123), r#"{"message":"1725029869123"}"#);
    assert_eq!(request_body(0), r#"{"message":"0"}"#);
}

fn steps(rate: usize, duration: usize) -> Vec<LoadStep> {
    let mut load = ConstantLoad::new(rate, duration);
    let mut out = Vec::new();
    loop {
        let step = load.next();
        if step == LoadStep::Done {
            return out;
        }
        out.push(step);
    }
}

#[test]
fn constant_load_sends_rate_requests_then_sleeps_each_second() {
    let (send, sleep) = (LoadStep::Send, LoadStep::Sleep);
    assert_eq!(steps(2, 3), vec![send, send, sleep, send, send, sleep, send, send, sleep]);
    assert_eq!(steps(50, 10).iter().filter(|s| **s == LoadStep::Send).count(), 500);
    assert_eq!(steps(50, 10).iter().filter(|s| **s == LoadStep::Sleep).count(), 10);
}

#[test]
fn constant_load_edges() {
    assert_eq!(steps(3, 0), Vec::<LoadStep>::new());
    assert_eq!(steps(0, 2), vec![LoadStep::Sleep, LoadStep::Sleep]);
    let mut load = ConstantLoad::new(1, 1);
    assert_eq!(load.next(), LoadStep::Send);
    assert_eq!(load.next(), LoadStep::Sleep);
    assert_eq!(load.next(), LoadStep::Done);
    assert_eq!(load.next(), LoadStep::Done);
}
