use gpu_automaton::dispatch::{steps_this_frame, work_group_count, GROUP_SIZE, SEPARABLE_GROUP_SIZE};
use gpu_automaton::driver::{step_passes, KernelSlot, Pass, ProgramKind};
use gpu_automaton::edge::{
    rgb_edge_policy, scalar_edge_policy, EdgeConfig, EdgeSolution, RgbFill, SampleSource, ScalarFill, CSAMPLE_CLAMP_SRC, CSAMPLE_WRAP_SRC,
};
use gpu_automaton::kernel::{flatten_kernel, separable_kernel_size, KernelError};
use gpu_automaton::rgb_program;
use gpu_automaton::symmetric_rgb_program;
use gpu_automaton::val_program;

#[test]
fn dispatch_width_100_group_16_is_7() {
    assert_eq!(work_group_count(100, 16), 7);
}

#[test]
fn dispatch_exact_multiple_and_edges() {
    assert_eq!(work_group_count(96, 16), 6);
    assert_eq!(work_group_count(97, 16), 7);
    assert_eq!(work_group_count(0, 16), 0);
    assert_eq!(work_group_count(1, 32), 1);
    assert_eq!(work_group_count(u32::MAX, 1), u32::MAX);
    assert_eq!(work_group_count(u32::MAX, 16), 268435456);
}

#[test]
fn scheduler_multiplier_64_runs_two_steps_each_frame() {
    for frame in 0..10u64 {
        assert_eq!(steps_this_frame(64, 32, frame), 2);
    }
}

#[test]
fn scheduler_multiplier_8_runs_one_step_every_fourth_frame() {
    let counts: Vec<u32> = (1..=8u64).map(|f| steps_this_frame(8, 32, f)).collect();
    assert_eq!(counts, vec![0, 0, 0, 1, 0, 0, 0, 1]);
}

#[test]
fn scheduler_multiplier_32_runs_one_step_each_frame() {
    for frame in 0..10u64 {
        assert_eq!(steps_this_frame(32, 32, frame), 1);
    }
}

#[test]
fn scheduler_extremes() {
    assert_eq!(steps_this_frame(1024, 32, 5), 32);
    assert_eq!(steps_this_frame(1, 32, 31), 0);
    assert_eq!(steps_this_frame(1, 32, 64), 1);
}

#[test]
fn wrap_policy_edges() {
    let p: EdgeSolution<()> = EdgeSolution::Wrap;
    let (w, h) = (10u32, 6u32);
    for y in 0..h as i64 {
        assert_eq!(p.resolve(w as i64, y, w, h), p.resolve(0, y, w, h));
        assert_eq!(p.resolve(-1, y, w, h), p.resolve(w as i64 - 1, y, w, h));
    }
    assert_eq!(p.resolve(-1, -1, w, h), SampleSource::Cell(9, 5));
    assert_eq!(p.resolve(-21, 13, w, h), SampleSource::Cell(9, 1));
    assert_eq!(p.resolve(i64::MIN, 0, w, h), SampleSource::Cell(2, 0));
}

#[test]
fn clamp_policy_edges() {
    let p: EdgeSolution<()> = EdgeSolution::Clamp;
    let (w, h) = (10u32, 6u32);
    for y in 0..h as i64 {
        assert_eq!(p.resolve(-5, y, w, h), p.resolve(0, y, w, h));
        assert_eq!(p.resolve(w as i64 + 5, y, w, h), p.resolve(w as i64 - 1, y, w, h));
    }
    assert_eq!(p.resolve(-5, 100, w, h), SampleSource::Cell(0, 5));
}

#[test]
fn fixed_value_policy_outside_reads_fill() {
    let p: EdgeSolution<u8> = EdgeSolution::Value(7);
    let (w, h) = (4u32, 4u32);
    for (x, y) in [(-1i64, 0i64), (4, 0), (0, -1), (0, 4), (-1000, 2000), (i64::MAX, i64::MIN)] {
        assert_eq!(p.resolve(x, y, w, h), SampleSource::Fill);
    }
    assert_eq!(p.resolve(3, 2, w, h), SampleSource::Cell(3, 2));
}

#[test]
fn csample_src_scalar() {
    let clamp: EdgeSolution<ScalarFill> = EdgeSolution::Clamp;
    assert_eq!(clamp.csample_src(), CSAMPLE_CLAMP_SRC);
    let wrap: EdgeSolution<ScalarFill> = EdgeSolution::Wrap;
    assert_eq!(wrap.csample_src(), CSAMPLE_WRAP_SRC);
    let val = EdgeSolution::Value(ScalarFill { text: "0.5".to_string() });
    assert_eq!(
        val.csample_src(),
        "ivec2 im = ivec2(clamp(i.x, 0, int(uWidth)-1), clamp(i.y, 0, int(uHeight)-1));
        if (i != im) {
            return vec4(0.5, 0., 0., 1.);
        }
        return imageLoad(uTexture, i);"
    );
}

#[test]
fn csample_src_rgb() {
    let val = EdgeSolution::Value(RgbFill {
        r: "1".to_string(),
        g: "0.25".to_string(),
        b: "0".to_string(),
    });
    assert_eq!(
        val.csample_src(),
        "ivec2 im = ivec2(clamp(i.x, 0, int(uWidth)-1), clamp(i.y, 0, int(uHeight)-1));
        if (i != im) {
            return vec4(1, 0.25, 0, 1.);
        }
        return imageLoad(uTexture, i);"
    );
    let wrap: EdgeSolution<RgbFill> = EdgeSolution::Wrap;
    assert!(wrap.csample_src().contains("mod(i.x, int(uWidth))"));
}

#[test]
fn flatten_kernel_row_major() {
    let k = vec![vec![1, 2, 3], vec![4, 5, 6], vec![7, 8, 9]];
    assert_eq!(flatten_kernel(&k), Ok(vec![1, 2, 3, 4, 5, 6, 7, 8, 9]));
    assert_eq!(flatten_kernel(&vec![vec![0.5f32]]), Ok(vec![0.5f32]));
}

#[test]
fn flatten_kernel_errors() {
    let empty: Vec<Vec<i32>> = vec![];
    assert_eq!(flatten_kernel(&empty), Err(KernelError::Empty));
    assert_eq!(flatten_kernel(&vec![vec![1, 2, 3], vec![4, 5], vec![7, 8, 9]]), Err(KernelError::NotSquare));
    assert_eq!(flatten_kernel(&vec![vec![1, 2, 3]]), Err(KernelError::NotSquare));
    assert_eq!(flatten_kernel(&vec![vec![1, 2], vec![3, 4]]), Err(KernelError::EvenSize));
}

#[test]
fn separable_kernel_lengths() {
    assert_eq!(separable_kernel_size(&vec![1, 2, 1], &vec![1, 2, 1]), Ok(3));
    assert_eq!(separable_kernel_size(&vec![1, 2, 1], &vec![1]), Err(KernelError::LengthMismatch));
}

#[test]
fn value_shader_splices_fragments() {
    let src = val_program::convolution_shader_src("return x;", "return vec4(0.);", 9);
    assert!(src.starts_with("#version 430"));
    assert!(src.contains("float kernel[9];"));
    assert!(src.contains("vec4 csample(ivec2 i) {\n        return vec4(0.);\n    }"));
    assert!(src.contains("float fun(float x, float prev) {\n        return x;\n    }"));
    assert!(src.contains("vec4(pixel_sample.r, fun(sum, pixel_sample.r), pixel_sample.b, pixel_sample.a)"));
    assert!(val_program::SWAP_SHADER_SRC.contains("pixel_sample.g, pixel_sample.r"));
}

#[test]
fn color_shader_splices_fragments() {
    let src = rgb_program::convolution_shader_src("return v;", "S", 25);
    assert!(src.contains("float kernel[25];"));
    assert!(src.contains("layout(local_size_x = 16, local_size_y = 16, local_size_z = 1)"));
    assert!(src.contains("vec3 fun(vec3 v, vec3 prev) {\n        return v;\n    }"));
    assert!(src.contains("vec4 csample(ivec2 i) {\n        S\n    }"));
}

#[test]
fn separable_shader_splices_fragments() {
    let src = symmetric_rgb_program::convolution_shader_src("return v;", "S", 5);
    assert!(src.contains("layout(local_size_x = 32, local_size_y = 32, local_size_z = 1)"));
    assert!(src.contains("float kernel[5];"));
    assert!(src.contains("uniform int uKernelDir;"));
    assert!(src.contains("imageStore(uTextureWrite, i, vec4(sum, imageLoad(uTexture, i).a));"));
    assert!(src.contains("vec4 pixel_sample = imageLoad(uPrevious, i);"));
    assert_eq!(src.matches("fun(sum").count(), 1);
    assert!(src.contains("vec3 fun(vec3 v, vec3 prev) {\n        return v;\n    }"));
    let big = symmetric_rgb_program::convolution_shader_src("", "", 1234567);
    assert!(big.contains("float kernel[1234567];"));
}

#[test]
fn step_passes_per_variant() {
    assert_eq!(GROUP_SIZE, 16);
    assert_eq!(SEPARABLE_GROUP_SIZE, 32);
    assert_eq!(
        step_passes(ProgramKind::Value, 100, 33),
        vec![
            Pass::Convolve { kernel: KernelSlot::Full, groups_x: 7, groups_y: 3 },
            Pass::SwapChannels { groups_x: 7, groups_y: 3 },
        ]
    );
    assert_eq!(
        step_passes(ProgramKind::FullKernelColor, 16, 17),
        vec![Pass::CopyToScratch, Pass::Convolve { kernel: KernelSlot::Full, groups_x: 1, groups_y: 2 }]
    );
    assert_eq!(
        step_passes(ProgramKind::SeparableColor, 100, 64),
        vec![
            Pass::CopyToScratch,
            Pass::Convolve { kernel: KernelSlot::Horizontal, groups_x: 4, groups_y: 2 },
            Pass::Convolve { kernel: KernelSlot::Vertical, groups_x: 4, groups_y: 2 },
        ]
    );
}

#[test]
fn edge_config_scalar() {
    let (p, bad) = scalar_edge_policy(EdgeConfig::Text("wrap".to_string()));
    assert!(matches!(p, EdgeSolution::Wrap) && !bad);
    let (p, bad) = scalar_edge_policy(EdgeConfig::Text("clamp".to_string()));
    assert!(matches!(p, EdgeSolution::Clamp) && !bad);
    let (p, bad) = scalar_edge_policy(EdgeConfig::Text("mirror".to_string()));
    assert!(matches!(p, EdgeSolution::Clamp) && bad);
    let (p, bad) = scalar_edge_policy(EdgeConfig::Number("0.5".to_string()));
    assert!(!bad);
    match p {
        EdgeSolution::Value(v) => assert_eq!(v.text, "0.5"),
        _ => panic!("expected a fill value"),
    }
    let (p, bad) = scalar_edge_policy(EdgeConfig::Numbers(vec!["1".to_string()]));
    assert!(matches!(p, EdgeSolution::Clamp) && bad);
    let (p, bad) = scalar_edge_policy(EdgeConfig::Other);
    assert!(matches!(p, EdgeSolution::Clamp) && bad);
}

#[test]
fn edge_config_rgb() {
    let nums = vec!["1".to_string(), "0.5".to_string(), "0".to_string()];
    let (p, bad) = rgb_edge_policy(EdgeConfig::Numbers(nums));
    assert!(!bad);
    match p {
        EdgeSolution::Value(v) => {
            assert_eq!((v.r.as_str(), v.g.as_str(), v.b.as_str()), ("1", "0.5", "0"));
        }
        _ => panic!("expected a fill color"),
    }
    let (p, bad) = rgb_edge_policy(EdgeConfig::Numbers(vec!["1".to_string(), "2".to_string()]));
    assert!(matches!(p, EdgeSolution::Clamp) && bad);
    let (p, bad) = rgb_edge_policy(EdgeConfig::Number("1".to_string()));
    assert!(matches!(p, EdgeSolution::Clamp) && bad);
    let (p, bad) = rgb_edge_policy(EdgeConfig::Text("wrap".to_string()));
    assert!(matches!(p, EdgeSolution::Wrap) && !bad);
}
