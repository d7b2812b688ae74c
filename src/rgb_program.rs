use vstd::prelude::*;
use vstd::string::*;

use crate::text::{decimal, decimal_text};

verus! {

/// The template's fixed text, piece by piece; the spliced parts go between
/// consecutive pieces.
pub const SHADER_SRC_0: &'static str = "#version 430

    layout(local_size_x = 16, local_size_y = 16, local_size_z = 1) in;
    
    uniform uint uWidth;
    uniform uint uHeight;
    uniform int uKernelSize;
    uniform uKernel{
        float kernel[";

pub const SHADER_SRC_1: &'static str = "];
    };
    uniform layout(binding=3, rgba32f) image2D uTextureWrite;
    uniform layout(binding=3, rgba32f) image2D uTexture;

    vec4 csample(ivec2 i) {
        ";

pub const SHADER_SRC_2: &'static str = "
    }
    vec3 fun(vec3 v, vec3 prev) {
        ";

pub const SHADER_SRC_3: &'static str = "
    }

    void main() {
        ivec2 i = ivec2(gl_GlobalInvocationID.x, gl_GlobalInvocationID.y);
        if (i.x >= int(uWidth) || i.y >= int(uHeight))
            return;

        vec3 sum = vec3(0.);
        int offset = uKernelSize / 2;
        for (int k = 0; k < uKernelSize*uKernelSize; ++k)
            sum += csample(i + ivec2(mod(k, uKernelSize) - offset, k / uKernelSize - offset)).rgb * vec3(kernel[k]);

        vec4 pixel_sample = imageLoad(uTexture, i);
        imageStore(uTextureWrite, i, vec4(fun(sum, pixel_sample.rgb), pixel_sample.a) );
    }";

/// Shader source of the full-kernel color program: the fixed template with the kernel size,
/// the sampling routine `csample` and the user function `fun` spliced in.
pub open spec fn convolution_shader_text(fun: Seq<char>, csample: Seq<char>, kernel_size_sq: nat) -> Seq<char> {
    SHADER_SRC_0@
        + decimal_text(kernel_size_sq)
        + SHADER_SRC_1@
        + csample
        + SHADER_SRC_2@
        + fun
        + SHADER_SRC_3@
}

/// Builds the compute shader of the full-kernel color program.
pub fn convolution_shader_src(fun_src: &str, csample_src: &str, kernel_size_sq: usize) -> (r: String)
    ensures
        r@ == convolution_shader_text(fun_src@, csample_src@, kernel_size_sq as nat),
{
    let size = decimal(kernel_size_sq);
    let mut s = String::from_str(SHADER_SRC_0);
    s.append(size.as_str());
    s.append(SHADER_SRC_1);
    s.append(csample_src);
    s.append(SHADER_SRC_2);
    s.append(fun_src);
    s.append(SHADER_SRC_3);
    s
}

} // verus!
