use vstd::prelude::*;
use vstd::string::*;

use crate::dispatch::SEPARABLE_GROUP_SIZE;
use crate::text::{decimal, decimal_text};

verus! {

/// The template's fixed text, piece by piece; the spliced parts go between
/// consecutive pieces.
pub const SHADER_SRC_0: &'static str = "#version 430

    layout(local_size_x = ";

pub const SHADER_SRC_1: &'static str = ", local_size_y = ";

pub const SHADER_SRC_2: &'static str = ", local_size_z = 1) in;
    
    uniform uint uWidth;
    uniform uint uHeight;
    uniform int uKernelSize;
    uniform uKernel{
        float kernel[";

pub const SHADER_SRC_3: &'static str = "];
    };
    uniform int uKernelDir;
    uniform layout(binding=3, rgba32f) image2D uTextureWrite;
    uniform layout(binding=3, rgba32f) image2D uTexture;
    uniform layout(rgba32f) image2D uPrevious;

    vec4 csample(ivec2 i) {
        ";

pub const SHADER_SRC_4: &'static str = "
    }
    vec3 fun(vec3 v, vec3 prev) {
        ";

pub const SHADER_SRC_5: &'static str = "
    }

    void main() {
        ivec2 i = ivec2(gl_GlobalInvocationID.x, gl_GlobalInvocationID.y);
        if (i.x >= int(uWidth) || i.y >= int(uHeight))
            return;

        vec3 sum = vec3(0);

        int offset = uKernelSize / 2;
        ivec2 p = ivec2(0);
        if (uKernelDir == 0 ) {
            p.x = 1;
        } else {
            p.y = 1;
        }
        for (int k = 0; k < uKernelSize; ++k)
            sum += csample(i + (k - offset)*p).rgb * vec3(kernel[k]);
        

        if (uKernelDir == 0) {
            imageStore(uTextureWrite, i, vec4(sum, imageLoad(uTexture, i).a));
        } else {
            vec4 pixel_sample = imageLoad(uPrevious, i);
            imageStore(uTextureWrite, i, vec4(fun(sum, pixel_sample.rgb), pixel_sample.a) );
        }
    }";

/// Shader source of the separable color program's passes: the fixed template
/// with the work-group size, the kernel length, the sampling routine `csample`
/// and the user function `fun` spliced in. The horizontal pass
/// (`uKernelDir == 0`) stores the bare row sums; the vertical pass applies
/// `fun` to the column sum and the cell's value before the step, read from
/// `uPrevious`.
pub open spec fn convolution_shader_text(fun: Seq<char>, csample: Seq<char>, kernel_size: nat) -> Seq<char> {
    SHADER_SRC_0@
        + decimal_text(SEPARABLE_GROUP_SIZE as nat)
        + SHADER_SRC_1@
        + decimal_text(SEPARABLE_GROUP_SIZE as nat)
        + SHADER_SRC_2@
        + decimal_text(kernel_size)
        + SHADER_SRC_3@
        + csample
        + SHADER_SRC_4@
        + fun
        + SHADER_SRC_5@
}

/// Builds the compute shader that both passes of the separable color program run.
pub fn convolution_shader_src(fun_src: &str, csample_src: &str, kernel_size: usize) -> (r: String)
    ensures
        r@ == convolution_shader_text(fun_src@, csample_src@, kernel_size as nat),
{
    let group = decimal(SEPARABLE_GROUP_SIZE as usize);
    let size = decimal(kernel_size);
    let mut s = String::from_str(SHADER_SRC_0);
    s.append(group.as_str());
    s.append(SHADER_SRC_1);
    s.append(group.as_str());
    s.append(SHADER_SRC_2);
    s.append(size.as_str());
    s.append(SHADER_SRC_3);
    s.append(csample_src);
    s.append(SHADER_SRC_4);
    s.append(fun_src);
    s.append(SHADER_SRC_5);
    s
}

} // verus!
