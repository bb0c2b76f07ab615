use arm_chain::arm::{arm_color, arms, Arm, ArmColor, ARM_COUNT};

#[test]
fn arm_count_matches_colors() {
    assert_eq!(ARM_COUNT, 6);
    assert_eq!(arms().len(), ARM_COUNT);
}

#[test]
fn arm_sizes_shrink_outwards() {
    let lengths: Vec<u32> = arms().iter().map(|a| a.length).collect();
    let widths: Vec<u32> = arms().iter().map(|a| a.width).collect();
    assert_eq!(lengths, vec![130, 110, 90, 70, 50, 30]);
    assert_eq!(widths, vec![16, 14, 12, 10, 8, 6]);
}

#[test]
fn arm_speed_weights_grow_outwards() {
    let omegas: Vec<u32> = arms().iter().map(|a| a.omega).collect();
    assert_eq!(omegas, vec![1, 2, 3, 4, 5, 6]);
}

#[test]
fn arm_colors_in_configured_order() {
    let colors: Vec<ArmColor> = arms().iter().map(|a| a.color).collect();
    assert_eq!(
        colors,
        vec![
            ArmColor::Red,
            ArmColor::Green,
            ArmColor::Blue,
            ArmColor::Cyan,
            ArmColor::Yellow,
            ArmColor::Magenta,
        ]
    );
    assert_eq!(arm_color(3), ArmColor::Cyan);
}

#[test]
fn arm_at_gives_index_and_formula() {
    let a = Arm::at(2);
    assert_eq!(a.index, 2);
    assert_eq!(a.width, 4 * 2 + 4);
    assert_eq!(a.length, 4 * 20 + 10);
    assert_eq!(a.omega, 3);
    for (i, a) in arms().iter().enumerate() {
        assert_eq!(*a, Arm::at(i));
        assert!(a.width > 0 && a.length > 0 && a.omega >= 1);
    }
}
