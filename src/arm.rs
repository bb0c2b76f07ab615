//! The arms of the chain: how many there are, and the width, length, speed
//! weight and color that each takes from its index.
use vstd::prelude::*;

verus! {

/// Number of arms in the chain: one per configured color.
pub const ARM_COUNT: usize = 6;

/// Width gained per step of distance from the outer end.
pub const WIDTH_MULTIPLY: u32 = 2;

/// Width added to every arm on top of its multiple.
pub const WIDTH_MINIMUM: u32 = 4;

/// Length gained per step of distance from the outer end.
pub const LENGTH_MULTIPLY: u32 = 20;

/// Length added to every arm on top of its multiple.
pub const LENGTH_MINIMUM: u32 = 10;

/// The color of one arm.
#[derive(Clone, Copy, Debug, PartialEq, Eq, Structural)]
pub enum ArmColor {
    Red,
    Green,
    Blue,
    Cyan,
    Yellow,
    Magenta,
}

/// The configured colors, from the arm at the center outwards.
pub open spec fn configured_colors() -> Seq<ArmColor> {
    seq![
        ArmColor::Red,
        ArmColor::Green,
        ArmColor::Blue,
        ArmColor::Cyan,
        ArmColor::Yellow,
        ArmColor::Magenta,
    ]
}

/// Weight of arm `i` by its distance from the outer end: `ARM_COUNT` at the
/// center, 1 at the outer end.
pub open spec fn alpha(i: int) -> int {
    ARM_COUNT - i
}

/// Weight of arm `i` by its distance from the center: 1 at the center,
/// `ARM_COUNT` at the outer end. The arm's angular speed grows with it.
pub open spec fn omega(i: int) -> int {
    i + 1
}

pub open spec fn arm_width(i: int) -> int {
    alpha(i) * WIDTH_MULTIPLY + WIDTH_MINIMUM
}

pub open spec fn arm_length(i: int) -> int {
    alpha(i) * LENGTH_MULTIPLY + LENGTH_MINIMUM
}

/// The properties of one arm of the chain.
#[derive(Clone, Copy, Debug, PartialEq, Eq, Structural)]
pub struct Arm {
    /// Position in the chain, 0 at the center.
    pub index: usize,
    /// Thickness of the drawn line.
    pub width: u32,
    /// Distance from the arm's base to its end.
    pub length: u32,
    /// Speed weight; the arm turns at `omega^SPEED_EXPONENT` times the base rate.
    pub omega: u32,
    pub color: ArmColor,
}

impl Arm {
    /// What arm `i` of the chain is.
    pub open spec fn spec_at(i: int) -> Arm {
        Arm {
            index: i as usize,
            width: arm_width(i) as u32,
            length: arm_length(i) as u32,
            omega: omega(i) as u32,
            color: configured_colors()[i],
        }
    }

    /// Arm `i` of the chain, counted from the center.
    pub fn at(i: usize) -> (r: Arm)
        requires
            i < ARM_COUNT,
        ensures
            r == Arm::spec_at(i as int),
            r.width as int == arm_width(i as int),
            r.length as int == arm_length(i as int),
            r.omega as int == omega(i as int),
            r.width > 0,
            r.length > 0,
            r.omega >= 1,
    {
        let alpha: u32 = (ARM_COUNT - i) as u32;
        let omega: u32 = (i + 1) as u32;
        Arm {
            index: i,
            width: alpha * WIDTH_MULTIPLY + WIDTH_MINIMUM,
            length: alpha * LENGTH_MULTIPLY + LENGTH_MINIMUM,
            omega,
            color: arm_color(i),
        }
    }
}

/// The configured color of arm `i`.
pub fn arm_color(i: usize) -> (r: ArmColor)
    requires
        i < ARM_COUNT,
    ensures
        r == configured_colors()[i as int],
{
    match i {
        0 => ArmColor::Red,
        1 => ArmColor::Green,
        2 => ArmColor::Blue,
        3 => ArmColor::Cyan,
        4 => ArmColor::Yellow,
        _ => ArmColor::Magenta,
    }
}

/// Every arm of the chain, from the center outwards.
pub fn arms() -> (r: Vec<Arm>)
    ensures
        r@.len() == ARM_COUNT,
        forall|i: int| 0 <= i < ARM_COUNT ==> r@[i] == #[trigger] Arm::spec_at(i),
{
    let mut r: Vec<Arm> = Vec::new();
    let mut i: usize = 0;
    while i < ARM_COUNT
        invariant
            i <= ARM_COUNT,
            r@.len() == i,
            forall|j: int| 0 <= j < i ==> r@[j] == #[trigger] Arm::spec_at(j),
        decreases ARM_COUNT - i,
    {
        r.push(Arm::at(i));
        i = i + 1;
    }
    r
}

} // verus!
