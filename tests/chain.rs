use arm_chain::arm::{Arm, ArmColor, ARM_COUNT};
use arm_chain::chain::{Chain, Segment};

/// Builds the chain for a frame the way the drawing code does: each arm turns
/// by `frames / 100 * omega^1.3` radians.
fn chain_at(frame_count: u32, center: (f32, f32)) -> Chain<(f32, f32)> {
    let base = frame_count as f32 / 100.0;
    let mut chain = Chain::new(center);
    while let Some(arm) = chain.next_arm() {
        let rotation = base * (arm.omega as f32).powf(1.3);
        let (x, y) = chain.tip();
        let length = arm.length as f32;
        chain.extend((x + length * rotation.cos(), y + length * rotation.sin()));
    }
    chain
}

#[test]
fn chain_has_one_segment_per_arm() {
    for frame in [0u32, 1, 99, 100, 250, 12345] {
        let chain = chain_at(frame, (400.0, 300.0));
        assert!(chain.is_complete());
        assert_eq!(chain.len(), ARM_COUNT);
        assert_eq!(chain.segments().len(), ARM_COUNT);
        for s in chain.segments() {
            assert!(s.width > 0);
            assert!(s.length > 0);
        }
        assert!(chain.next_arm().is_none());
    }
}

#[test]
fn chain_segments_are_linked() {
    let center = (400.0f32, 300.0f32);
    let chain = chain_at(250, center);
    let segs = chain.segments();
    assert_eq!(segs[0].start, center);
    for i in 1..segs.len() {
        assert_eq!(segs[i].start, segs[i - 1].end);
    }
    assert_eq!(chain.tip(), segs[ARM_COUNT - 1].end);
    assert_eq!(chain.center(), center);
}

#[test]
fn chain_at_frame_zero_lies_on_x_axis() {
    let chain = chain_at(0, (400.0, 300.0));
    let ends: Vec<(f32, f32)> = chain.segments().iter().map(|s| s.end).collect();
    assert_eq!(
        ends,
        vec![
            (530.0, 300.0),
            (640.0, 300.0),
            (730.0, 300.0),
            (800.0, 300.0),
            (850.0, 300.0),
            (880.0, 300.0),
        ]
    );
    let first: Segment<(f32, f32)> = chain.segments()[0];
    assert_eq!(first.start, (400.0, 300.0));
    assert_eq!(first.length, 130);
    assert_eq!(first.width, 16);
    assert_eq!(first.color, ArmColor::Red);
}

#[test]
fn chain_is_the_same_when_built_twice() {
    let a = chain_at(777, (123.5, 45.25));
    let b = chain_at(777, (123.5, 45.25));
    let ea: Vec<((f32, f32), (f32, f32), u32)> =
        a.segments().iter().map(|s| (s.start, s.end, s.width)).collect();
    let eb: Vec<((f32, f32), (f32, f32), u32)> =
        b.segments().iter().map(|s| (s.start, s.end, s.width)).collect();
    assert_eq!(ea.len(), ARM_COUNT);
    for (x, y) in ea.iter().zip(eb.iter()) {
        assert_eq!(x.0 .0.to_bits(), y.0 .0.to_bits());
        assert_eq!(x.0 .1.to_bits(), y.0 .1.to_bits());
        assert_eq!(x.1 .0.to_bits(), y.1 .0.to_bits());
        assert_eq!(x.1 .1.to_bits(), y.1 .1.to_bits());
        assert_eq!(x.2, y.2);
    }
}

#[test]
fn chain_extends_from_tip_with_integer_points() {
    let mut chain: Chain<(i64, i64)> = Chain::new((0, 0));
    assert_eq!(chain.len(), 0);
    assert_eq!(chain.tip(), (0, 0));
    assert_eq!(chain.next_arm(), Some(Arm::at(0)));
    chain.extend((5, 7));
    assert_eq!(chain.tip(), (5, 7));
    assert_eq!(chain.next_arm(), Some(Arm::at(1)));
    chain.extend((-2, 1));
    let segs = chain.segments();
    assert_eq!(segs.len(), 2);
    assert_eq!((segs[1].start, segs[1].end), ((5, 7), (-2, 1)));
    assert_eq!(segs[1].color, ArmColor::Green);
    assert_eq!(segs[1].length, 110);
    assert!(!chain.is_complete());
}
