use vstd::prelude::*;

use crate::dispatch::{groups_needed, work_group_count, GROUP_SIZE, SEPARABLE_GROUP_SIZE};

verus! {

/// The three program variants.
#[derive(PartialEq, Eq, Structural, Clone, Copy, Debug)]
pub enum ProgramKind {
    /// One scalar channel, full 2-D kernel, updated in place by channel swap.
    Value,
    /// Three color channels, full 2-D kernel, through a scratch buffer.
    FullKernelColor,
    /// Three color channels, two 1-D kernels in two passes.
    SeparableColor,
}

/// Which uploaded kernel buffer a convolution pass binds, and with it which
/// images it reads and writes.
#[derive(PartialEq, Eq, Structural, Clone, Copy, Debug)]
pub enum KernelSlot {
    /// The full 2-D kernel: reads the scratch buffer (the grid itself for the
    /// value program), writes the grid.
    Full,
    /// The row kernel: reads the scratch buffer, writes the bare row sums
    /// into the intermediate buffer.
    Horizontal,
    /// The column kernel: reads the intermediate buffer, takes each cell's
    /// previous value from the scratch buffer, writes the grid.
    Vertical,
}

/// One GPU operation of a step, in issue order.
#[derive(PartialEq, Eq, Structural, Clone, Copy, Debug)]
pub enum Pass {
    /// Copy the grid into the scratch buffer, which the next pass reads.
    CopyToScratch,
    /// Dispatch the convolution shader over `groups_x` by `groups_y` work groups.
    Convolve { kernel: KernelSlot, groups_x: u32, groups_y: u32 },
    /// Dispatch the channel-swap shader.
    SwapChannels { groups_x: u32, groups_y: u32 },
}

/// Work-group side that a variant's shaders are compiled with.
pub open spec fn group_size_of(kind: ProgramKind) -> nat {
    match kind {
        ProgramKind::SeparableColor => SEPARABLE_GROUP_SIZE as nat,
        _ => GROUP_SIZE as nat,
    }
}

/// The passes of one step, in the order they must be issued.
pub open spec fn step_plan(kind: ProgramKind, width: nat, height: nat) -> Seq<Pass> {
    let gx = groups_needed(width, group_size_of(kind)) as u32;
    let gy = groups_needed(height, group_size_of(kind)) as u32;
    match kind {
        ProgramKind::Value => seq![
            Pass::Convolve { kernel: KernelSlot::Full, groups_x: gx, groups_y: gy },
            Pass::SwapChannels { groups_x: gx, groups_y: gy },
        ],
        ProgramKind::FullKernelColor => seq![
            Pass::CopyToScratch,
            Pass::Convolve { kernel: KernelSlot::Full, groups_x: gx, groups_y: gy },
        ],
        ProgramKind::SeparableColor => seq![
            Pass::CopyToScratch,
            Pass::Convolve { kernel: KernelSlot::Horizontal, groups_x: gx, groups_y: gy },
            Pass::Convolve { kernel: KernelSlot::Vertical, groups_x: gx, groups_y: gy },
        ],
    }
}

/// The passes that one step of a `width` by `height` program of `kind` issues:
/// the value program convolves into the spare channel and then swaps; the
/// color programs first copy the grid to scratch, so that every read of the
/// step sees the previous generation, and the separable one then runs its
/// horizontal pass before its vertical pass.
pub fn step_passes(kind: ProgramKind, width: u32, height: u32) -> (r: Vec<Pass>)
    ensures
        r@ == step_plan(kind, width as nat, height as nat),
{
    let group = match kind {
        ProgramKind::SeparableColor => SEPARABLE_GROUP_SIZE,
        _ => GROUP_SIZE,
    };
    let gx = work_group_count(width, group);
    let gy = work_group_count(height, group);
    let mut r: Vec<Pass> = Vec::new();
    match kind {
        ProgramKind::Value => {
            r.push(Pass::Convolve { kernel: KernelSlot::Full, groups_x: gx, groups_y: gy });
            r.push(Pass::SwapChannels { groups_x: gx, groups_y: gy });
        },
        ProgramKind::FullKernelColor => {
            r.push(Pass::CopyToScratch);
            r.push(Pass::Convolve { kernel: KernelSlot::Full, groups_x: gx, groups_y: gy });
        },
        ProgramKind::SeparableColor => {
            r.push(Pass::CopyToScratch);
            r.push(Pass::Convolve { kernel: KernelSlot::Horizontal, groups_x: gx, groups_y: gy });
            r.push(Pass::Convolve { kernel: KernelSlot::Vertical, groups_x: gx, groups_y: gy });
        },
    }
    proof {
        assert(r@ == step_plan(kind, width as nat, height as nat));
    }
    r
}

/// A color program's step copies the grid to scratch before anything else,
/// copies nothing afterwards, and writes the grid only in its last pass; the
/// separable program's horizontal pass comes right before its vertical one.
pub proof fn lemma_color_plan_order(kind: ProgramKind, width: nat, height: nat)
    requires
        kind != ProgramKind::Value,
    ensures
        step_plan(kind, width, height)[0] == Pass::CopyToScratch,
        forall|i: int| 0 < i < step_plan(kind, width, height).len()
            ==> #[trigger] step_plan(kind, width, height)[i] != Pass::CopyToScratch,
        step_plan(kind, width, height).last() matches Pass::Convolve { kernel, .. }
            && kernel != KernelSlot::Horizontal,
        kind == ProgramKind::SeparableColor ==> (step_plan(kind, width, height)[1] matches Pass::Convolve { kernel, .. }
            && kernel == KernelSlot::Horizontal),
{
}

} // verus!
