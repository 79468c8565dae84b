use colscan::{is_done, next_phase, Phase};

#[test]
fn phases_run_in_the_fixed_order() {
    let p0 = Phase::Start;
    let p1 = next_phase(&p0);
    let p2 = next_phase(&p1);
    let p3 = next_phase(&p2);
    let p4 = next_phase(&p3);
    let p5 = next_phase(&p4);
    assert_eq!(p1, Phase::ColdColumnarScan);
    assert_eq!(p2, Phase::ColdFastFieldScan);
    assert_eq!(p3, Phase::WarmColumnarScan);
    assert_eq!(p4, Phase::WarmFastFieldScan);
    assert_eq!(p5, Phase::Done);
}

#[test]
fn done_is_reached_after_five_steps_and_absorbs() {
    let mut p = Phase::Start;
    let mut steps: u32 = 0;
    while !is_done(&p) {
        p = next_phase(&p);
        steps += 1;
        assert!(steps <= 5);
    }
    assert_eq!(steps, 5);
    assert_eq!(next_phase(&p), Phase::Done);
}

#[test]
fn only_done_is_done() {
    assert!(!is_done(&Phase::Start));
    assert!(!is_done(&Phase::ColdColumnarScan));
    assert!(!is_done(&Phase::ColdFastFieldScan));
    assert!(!is_done(&Phase::WarmColumnarScan));
    assert!(!is_done(&Phase::WarmFastFieldScan));
    assert!(is_done(&Phase::Done));
}
