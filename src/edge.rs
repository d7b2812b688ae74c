use vstd::prelude::*;
use vstd::string::*;
use vstd::arithmetic::div_mod::lemma_fundamental_div_mod_converse;

verus! {

/// What a neighborhood sample outside the grid resolves to.
pub enum EdgeSolution<T> {
    /// Coordinates are clamped to the grid, one axis at a time.
    Clamp,
    /// Coordinates wrap around, the grid being a torus.
    Wrap,
    /// Samples outside the grid read the given fill value.
    Value(T),
}

/// Where a sample is read from once the edge policy has been applied.
#[derive(PartialEq, Eq, Structural, Clone, Copy, Debug)]
pub enum SampleSource {
    /// The cell at column `x`, row `y`, inside the grid.
    Cell(u32, u32),
    /// The policy's fill value; grid memory is not read.
    Fill,
}

/// Fill value of a scalar grid, as the literal text spliced into the shader.
pub struct ScalarFill {
    pub text: String,
}

/// Fill value of a color grid: the literal text of its three channels.
pub struct RgbFill {
    pub r: String,
    pub g: String,
    pub b: String,
}

pub open spec fn clamp_coord(i: int, dim: int) -> int {
    if i < 0 {
        0
    } else if i >= dim {
        dim - 1
    } else {
        i
    }
}

pub open spec fn in_grid(x: int, y: int, width: int, height: int) -> bool {
    0 <= x < width && 0 <= y < height
}

/// The cell (or the fill value) that sampling `(x, y)` reads under `policy`.
pub open spec fn sample_source<T>(
    policy: EdgeSolution<T>,
    x: int,
    y: int,
    width: int,
    height: int,
) -> SampleSource {
    match policy {
        EdgeSolution::Clamp => SampleSource::Cell(
            clamp_coord(x, width) as u32,
            clamp_coord(y, height) as u32,
        ),
        EdgeSolution::Wrap => SampleSource::Cell((x % width) as u32, (y % height) as u32),
        EdgeSolution::Value(_) => if in_grid(x, y, width, height) {
            SampleSource::Cell(x as u32, y as u32)
        } else {
            SampleSource::Fill
        },
    }
}

/// Clamps one coordinate to `[0, dim - 1]`.
fn clamp_axis(i: i64, dim: u32) -> (r: u32)
    requires
        dim > 0,
    ensures
        r as int == clamp_coord(i as int, dim as int),
{
    if i < 0 {
        0
    } else if i >= dim as i64 {
        dim - 1
    } else {
        i as u32
    }
}

/// Reduces one coordinate modulo `dim`, into `[0, dim)`.
fn wrap_axis(i: i64, dim: u32) -> (r: u32)
    requires
        dim > 0,
    ensures
        r as int == (i as int) % (dim as int),
{
    let d = dim as u64;
    if i >= 0 {
        ((i as u64) % d) as u32
    } else {
        let a = (-(i + 1)) as u64;
        let k = a % d;
        proof {
            let q = a as int / d as int;
            assert(a as int == q * (d as int) + k as int) by (nonlinear_arith)
                requires d > 0, k as int == a as int % d as int, q == a as int / d as int;
            assert(i as int == (-q - 1) * (d as int) + (d as int - 1 - k as int)) by (nonlinear_arith)
                requires a as int == q * (d as int) + k as int, a as int == -(i as int + 1);
            lemma_fundamental_div_mod_converse(i as int, d as int, -q - 1, d as int - 1 - k as int);
        }
        (d - 1 - k) as u32
    }
}

impl<T> EdgeSolution<T> {
    /// Resolves a sample at `(x, y)` on a `width` by `height` grid.
    pub fn resolve(&self, x: i64, y: i64, width: u32, height: u32) -> (r: SampleSource)
        requires
            width > 0,
            height > 0,
        ensures
            r == sample_source(*self, x as int, y as int, width as int, height as int),
            r matches SampleSource::Cell(cx, cy) ==> cx < width && cy < height,
    {
        match self {
            EdgeSolution::Clamp => SampleSource::Cell(clamp_axis(x, width), clamp_axis(y, height)),
            EdgeSolution::Wrap => SampleSource::Cell(wrap_axis(x, width), wrap_axis(y, height)),
            EdgeSolution::Value(_) => {
                if 0 <= x && x < width as i64 && 0 <= y && y < height as i64 {
                    SampleSource::Cell(x as u32, y as u32)
                } else {
                    SampleSource::Fill
                }
            },
        }
    }
}

/// Under wrapping, column `width` reads column 0 and column -1 reads the
/// last column, on every row.
pub proof fn lemma_wrap_edges(width: int, height: int, y: int)
    requires
        width > 0,
        height > 0,
    ensures
        sample_source(EdgeSolution::<()>::Wrap, width, y, width, height)
            == sample_source(EdgeSolution::<()>::Wrap, 0, y, width, height),
        sample_source(EdgeSolution::<()>::Wrap, -1, y, width, height)
            == sample_source(EdgeSolution::<()>::Wrap, width - 1, y, width, height),
{
    lemma_fundamental_div_mod_converse(width, width, 1, 0);
    lemma_fundamental_div_mod_converse(0, width, 0, 0);
    lemma_fundamental_div_mod_converse(-1, width, -1, width - 1);
    lemma_fundamental_div_mod_converse(width - 1, width, 0, width - 1);
}

/// Under clamping, any column left of the grid reads column 0 and any column
/// right of it reads the last column, on every row.
pub proof fn lemma_clamp_edges(width: int, height: int, x: int, y: int)
    requires
        width > 0,
        height > 0,
    ensures
        x < 0 ==> sample_source(EdgeSolution::<()>::Clamp, x, y, width, height)
            == sample_source(EdgeSolution::<()>::Clamp, 0, y, width, height),
        x >= width ==> sample_source(EdgeSolution::<()>::Clamp, x, y, width, height)
            == sample_source(EdgeSolution::<()>::Clamp, width - 1, y, width, height),
{
}

/// Under a fill value, every sample outside the grid reads the fill value,
/// however far outside it lies.
pub proof fn lemma_fixed_value_outside<T>(fill: T, width: int, height: int, x: int, y: int)
    requires
        width > 0,
        height > 0,
        !in_grid(x, y, width, height),
    ensures
        sample_source(EdgeSolution::Value(fill), x, y, width, height) == SampleSource::Fill,
{
}

pub const CSAMPLE_CLAMP_SRC: &'static str = "
i = ivec2(clamp(i.x, 0, int(uWidth)-1), clamp(i.y, 0, int(uHeight)-1));
return imageLoad(uTexture, i);
";

pub const CSAMPLE_WRAP_SRC: &'static str = "
i = ivec2(mod(i.x, int(uWidth)), mod(i.y, int(uHeight)));
return imageLoad(uTexture, i);
";

pub const FILL_HEAD_SRC: &'static str = "ivec2 im = ivec2(clamp(i.x, 0, int(uWidth)-1), clamp(i.y, 0, int(uHeight)-1));
        if (i != im) {
            return vec4(";

pub const FILL_TAIL_SRC: &'static str = ", 1.);
        }
        return imageLoad(uTexture, i);";

pub const SEP_SRC: &'static str = ", ";

pub const SCALAR_PAD_SRC: &'static str = ", 0., 0.";

/// The sampling routine's body for a fill value whose first three channels
/// have the literal texts `r`, `g`, `b`.
pub open spec fn fill_src(r: Seq<char>, g: Seq<char>, b: Seq<char>) -> Seq<char> {
    FILL_HEAD_SRC@ + r + g + b + FILL_TAIL_SRC@
}

/// The sampling routine's body for `policy`, given the text that the fill
/// value's channels take.
pub open spec fn csample_text<T>(policy: EdgeSolution<T>, fill_text: spec_fn(T) -> Seq<char>) -> Seq<char> {
    match policy {
        EdgeSolution::Clamp => CSAMPLE_CLAMP_SRC@,
        EdgeSolution::Wrap => CSAMPLE_WRAP_SRC@,
        EdgeSolution::Value(v) => fill_text(v),
    }
}

pub open spec fn scalar_fill_text(v: ScalarFill) -> Seq<char> {
    fill_src(v.text@, SCALAR_PAD_SRC@, Seq::empty())
}

pub open spec fn rgb_fill_text(v: RgbFill) -> Seq<char> {
    fill_src(v.r@, SEP_SRC@ + v.g@, SEP_SRC@ + v.b@)
}

impl EdgeSolution<ScalarFill> {
    /// Body of the shader's sampling routine for a scalar grid: the fill value
    /// takes the first channel, the others read 0 and alpha 1.
    pub fn csample_src(self) -> (r: String)
        ensures
            r@ == csample_text(self, |v: ScalarFill| scalar_fill_text(v)),
    {
        match self {
            EdgeSolution::Clamp => String::from_str(CSAMPLE_CLAMP_SRC),
            EdgeSolution::Wrap => String::from_str(CSAMPLE_WRAP_SRC),
            EdgeSolution::Value(v) => {
                let mut s = String::from_str(FILL_HEAD_SRC);
                s.append(v.text.as_str());
                s.append(SCALAR_PAD_SRC);
                s.append(FILL_TAIL_SRC);
                proof {
                    assert(s@ == scalar_fill_text(v));
                }
                s
            },
        }
    }
}

impl EdgeSolution<RgbFill> {
    /// Body of the shader's sampling routine for a color grid: the fill value
    /// gives the three color channels, alpha is 1.
    pub fn csample_src(self) -> (r: String)
        ensures
            r@ == csample_text(self, |v: RgbFill| rgb_fill_text(v)),
    {
        match self {
            EdgeSolution::Clamp => String::from_str(CSAMPLE_CLAMP_SRC),
            EdgeSolution::Wrap => String::from_str(CSAMPLE_WRAP_SRC),
            EdgeSolution::Value(v) => {
                let mut s = String::from_str(FILL_HEAD_SRC);
                s.append(v.r.as_str());
                s.append(SEP_SRC);
                s.append(v.g.as_str());
                s.append(SEP_SRC);
                s.append(v.b.as_str());
                s.append(FILL_TAIL_SRC);
                proof {
                    assert(s@ == rgb_fill_text(v));
                }
                s
            },
        }
    }
}

/// The edge entry of a program's configuration, as the config loader found
/// it, numbers given as the literal text they take in shader source.
pub enum EdgeConfig<T> {
    /// A string, such as `clamp` or `wrap`.
    Text(String),
    /// A single number.
    Number(T),
    /// A list, with the numbers it holds in order.
    Numbers(Vec<T>),
    /// Anything else, or nothing.
    Other,
}

/// Policy named by a string: `wrap` and `clamp`; `None` for any other.
pub open spec fn named_policy<T>(s: Seq<char>) -> Option<EdgeSolution<T>> {
    if s == "wrap"@ {
        Some(EdgeSolution::Wrap)
    } else if s == "clamp"@ {
        Some(EdgeSolution::Clamp)
    } else {
        None
    }
}

/// Reads a string entry: the policy it names, or clamping with a warning.
fn policy_from_text<T>(s: &String) -> (r: (EdgeSolution<T>, bool))
    ensures
        named_policy::<T>(s@) matches Some(p) ==> r.0 == p && !r.1,
        named_policy::<T>(s@) is None ==> r.0 == EdgeSolution::<T>::Clamp && r.1,
{
    let wrap = String::from_str("wrap");
    let clamp = String::from_str("clamp");
    if *s == wrap {
        (EdgeSolution::Wrap, false)
    } else if *s == clamp {
        (EdgeSolution::Clamp, false)
    } else {
        (EdgeSolution::Clamp, true)
    }
}

/// The value program's edge policy from its configuration entry, and whether
/// the entry was malformed: a string names the policy, a number is the fill
/// value, anything else falls back to clamping with a warning.
pub fn scalar_edge_policy(cfg: EdgeConfig<String>) -> (r: (EdgeSolution<ScalarFill>, bool))
    ensures
        match cfg {
            EdgeConfig::Text(s) => match named_policy::<ScalarFill>(s@) {
                Some(p) => r.0 == p && !r.1,
                None => r.0 == EdgeSolution::<ScalarFill>::Clamp && r.1,
            },
            EdgeConfig::Number(v) => r.0 == EdgeSolution::Value((ScalarFill { text: v })) && !r.1,
            _ => r.0 == EdgeSolution::<ScalarFill>::Clamp && r.1,
        },
{
    match cfg {
        EdgeConfig::Text(s) => policy_from_text(&s),
        EdgeConfig::Number(v) => (EdgeSolution::Value(ScalarFill { text: v }), false),
        _ => (EdgeSolution::Clamp, true),
    }
}

/// A color program's edge policy from its configuration entry, and whether
/// the entry was malformed: a string names the policy, a list of exactly
/// three numbers is the fill color, anything else falls back to clamping
/// with a warning.
pub fn rgb_edge_policy(cfg: EdgeConfig<String>) -> (r: (EdgeSolution<RgbFill>, bool))
    ensures
        match cfg {
            EdgeConfig::Text(s) => match named_policy::<RgbFill>(s@) {
                Some(p) => r.0 == p && !r.1,
                None => r.0 == EdgeSolution::<RgbFill>::Clamp && r.1,
            },
            EdgeConfig::Numbers(v) => if v@.len() == 3 {
                r.0 == EdgeSolution::Value((RgbFill { r: v@[0], g: v@[1], b: v@[2] })) && !r.1
            } else {
                r.0 == EdgeSolution::<RgbFill>::Clamp && r.1
            },
            _ => r.0 == EdgeSolution::<RgbFill>::Clamp && r.1,
        },
{
    match cfg {
        EdgeConfig::Text(s) => policy_from_text(&s),
        EdgeConfig::Numbers(v) => {
            if v.len() == 3 {
                let mut v = v;
                let b = v.pop().unwrap();
                let g = v.pop().unwrap();
                let r = v.pop().unwrap();
                (EdgeSolution::Value(RgbFill { r, g, b }), false)
            } else {
                (EdgeSolution::Clamp, true)
            }
        },
        _ => (EdgeSolution::Clamp, true),
    }
}

} // verus!
