use vstd::prelude::*;

verus! {

/// Number of work groups of `group` invocations needed to cover `dim` cells.
pub open spec fn groups_needed(dim: nat, group: nat) -> nat
    recommends
        group > 0,
{
    ((dim + group - 1) as nat) / group
}

/// Work-group count along one axis: ceiling division of the dimension by the
/// group size, so that every cell is covered.
pub fn work_group_count(dim: u32, group: u32) -> (r: u32)
    requires
        group > 0,
    ensures
        r as nat == groups_needed(dim as nat, group as nat),
        (r as int) * (group as int) >= (dim as int),
        (r as int - 1) * (group as int) < (dim as int),
{
    let q = dim / group;
    let m = dim % group;
    proof {
        let d = dim as int;
        let g = group as int;
        assert(d == (d / g) * g + d % g && 0 <= d % g < g) by (nonlinear_arith)
            requires g > 0;
        assert(m > 0 ==> q as int + 1 <= d) by (nonlinear_arith)
            requires g > 0, d == (q as int) * g + m as int, m as int >= 0, m as int > 0 ==> g >= 2;
    }
    let r = if m > 0 { q + 1 } else { q };
    proof {
        let d = dim as int;
        let g = group as int;
        assert(d == (q as int) * g + m as int);
        assert(groups_needed(dim as nat, group as nat) == r as nat && (r as int) * g >= d
            && (r as int - 1) * g < d) by (nonlinear_arith)
            requires g > 0, d == (q as int) * g + m as int, 0 <= m < g,
                r as int == (if m > 0 { q as int + 1 } else { q as int }),
                groups_needed(dim as nat, group as nat) == (d + g - 1) / g;
    }
    r
}

/// Work-group side of the value and full-kernel color programs.
pub const GROUP_SIZE: u32 = 16;

/// Work-group side of the separable color program.
pub const SEPARABLE_GROUP_SIZE: u32 = 32;

/// How many simulation steps run in the frame numbered `counter`, at speed
/// `speed` against the nominal rate `nominal`.
pub open spec fn steps_for_frame(speed: nat, nominal: nat, counter: nat) -> nat
    recommends
        speed > 0,
        nominal > 0,
{
    if speed >= nominal {
        speed / nominal
    } else if counter % (nominal / speed) == 0 {
        1
    } else {
        0
    }
}

/// Step scheduler: at or above the nominal rate, `speed / nominal` whole
/// steps per frame; below it, one step on each frame whose counter is a
/// multiple of `nominal / speed`, none on the others.
pub fn steps_this_frame(speed: u32, nominal: u32, counter: u64) -> (r: u32)
    requires
        speed > 0,
        nominal > 0,
    ensures
        r as nat == steps_for_frame(speed as nat, nominal as nat, counter as nat),
{
    if speed >= nominal {
        speed / nominal
    } else {
        let period = (nominal / speed) as u64;
        proof {
            assert(nominal as int / speed as int >= 1) by (nonlinear_arith)
                requires speed < nominal, speed > 0;
        }
        if counter % period == 0 {
            1
        } else {
            0
        }
    }
}

} // verus!
