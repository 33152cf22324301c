use tegne::pacer::FramePacer;
use tegne::pacer::FrameStage;

#[test]
fn in_flight_never_exceeds_ring_size() {
    for frames in 1..5usize {
        let mut pacer = FramePacer::new(frames);
        for _ in 0..20 {
            pacer.begin_frame();
            assert!(pacer.in_flight() < frames);
            pacer.end_frame();
            assert!(pacer.in_flight() <= frames);
        }
        assert_eq!(pacer.in_flight(), frames);
        pacer.device_idle();
        assert_eq!(pacer.in_flight(), 0);
    }
}

#[test]
fn slots_advance_round_the_ring() {
    let mut pacer = FramePacer::new(3);
    assert_eq!(pacer.current(), 0);
    let mut seen = vec![];
    for _ in 0..6 {
        seen.push(pacer.begin_frame());
        pacer.end_frame();
    }
    assert_eq!(seen, vec![1, 2, 0, 1, 2, 0]);
    assert_eq!(pacer.frames_in_flight(), 3);
}

#[test]
fn draws_only_inside_a_frame() {
    let mut pacer = FramePacer::new(2);
    assert!(!pacer.can_draw());
    assert_eq!(pacer.stage(), FrameStage::Idle);
    pacer.begin_frame();
    assert!(pacer.can_draw());
    assert_eq!(pacer.stage(), FrameStage::Recording);
    pacer.end_frame();
    assert!(!pacer.can_draw());
}

#[test]
fn single_slot_ring_stays_on_slot_zero() {
    let mut pacer = FramePacer::new(1);
    assert_eq!(pacer.begin_frame(), 0);
    pacer.end_frame();
    assert_eq!(pacer.in_flight(), 1);
    assert_eq!(pacer.begin_frame(), 0);
    assert_eq!(pacer.in_flight(), 0);
}
