use vstd::prelude::*;
use vstd::arithmetic::div_mod::{lemma_div_by_multiple, lemma_div_is_ordered, lemma_div_pos_is_pos};
use crate::fixed::{
    clamp_unit,
    div_trunc,
    div_trunc_i64,
    lemma_div_trunc_bound,
    lemma_div_trunc_neg,
    lemma_div_trunc_shrinks,
    lemma_mul_within,
    ONE,
};

verus! {

/// Full turn in microradians, rounded down: 2π ≈ 6.283185307.
pub const TURN_MICRO: u64 = 6_283_185;
/// Number of glyphs on the shading ramp.
pub const RAMP_LEN: usize = 12;
/// Luminance is multiplied by this before it picks a glyph.
pub const LUMINANCE_SCALE: i64 = 8;
/// Camera-space depth, in fixed point, under which a sample is discarded.
pub const DEPTH_EPSILON: i64 = 16;
/// Largest tube or ring radius, in whole units.
pub const RADIUS_MAX: i64 = 1000;
/// The view distance saturates at plus or minus this many units.
pub const VIEW_DISTANCE_MAX: i64 = 10_000;
/// Largest buffer width or height, in cells.
pub const SIZE_MAX: usize = 1000;
/// Bound on the magnitude of the projection scale, in fixed point.
pub const SCALE_MAX: i64 = 30_720_000_000;

/// The shading ramp, from sparsest to densest.
pub open spec fn ramp() -> Seq<char> {
    seq!['.', ',', '-', '~', ':', ';', '=', '!', '*', '#', '$', '@']
}

/// Ramp position for a fixed-point luminance: scaled, rounded toward zero and
/// clamped into the ramp.
pub open spec fn glyph_index_of(luminance: int) -> int {
    let i = div_trunc(LUMINANCE_SCALE * luminance, ONE as int);
    if i >= RAMP_LEN {
        RAMP_LEN - 1
    } else if i < 0 {
        0
    } else {
        i
    }
}

/// Index into the shading ramp for a fixed-point luminance; it is in bounds
/// for every luminance.
pub fn glyph_index(luminance: i64) -> (r: usize)
    ensures
        r == glyph_index_of(luminance as int),
        r < RAMP_LEN,
{
    if luminance <= 0 {
        proof {
            lemma_div_pos_is_pos(-(LUMINANCE_SCALE * luminance), ONE as int);
        }
        0
    } else if luminance >= 2 * ONE {
        proof {
            lemma_div_is_ordered(16 * ONE, LUMINANCE_SCALE * luminance, ONE as int);
            lemma_div_by_multiple(16, ONE as int);
        }
        RAMP_LEN - 1
    } else {
        let i: i64 = div_trunc_i64(LUMINANCE_SCALE * luminance, ONE);
        proof {
            lemma_div_trunc_shrinks(LUMINANCE_SCALE * luminance, ONE as int);
        }
        if i >= RAMP_LEN as i64 {
            RAMP_LEN - 1
        } else {
            i as usize
        }
    }
}

/// The glyph at position `i` of the shading ramp.
pub fn ramp_glyph(i: usize) -> (c: char)
    requires
        i < RAMP_LEN,
    ensures
        c == ramp()[i as int],
{
    match i {
        0 => '.',
        1 => ',',
        2 => '-',
        3 => '~',
        4 => ':',
        5 => ';',
        6 => '=',
        7 => '!',
        8 => '*',
        9 => '#',
        10 => '$',
        _ => '@',
    }
}

/// Cosine and sine of one angle, in fixed point, each within `[-ONE, ONE]`.
#[derive(Clone, Copy, Debug)]
pub struct Trig {
    cos: i64,
    sin: i64,
}

impl View for Trig {
    type V = (int, int);

    closed spec fn view(&self) -> (int, int) {
        (self.cos as int, self.sin as int)
    }
}

impl Trig {
    #[verifier::type_invariant]
    spec fn inv(self) -> bool {
        &&& -ONE <= self.cos <= ONE
        &&& -ONE <= self.sin <= ONE
    }

    /// The pair `(cos, sin)`, each clamped into `[-ONE, ONE]`.
    pub fn new(cos: i64, sin: i64) -> (r: Trig)
        ensures
            r@ == (clamp_unit(cos as int), clamp_unit(sin as int)),
    {
        let c = if cos > ONE {
            ONE
        } else if cos < -ONE {
            -ONE
        } else {
            cos
        };
        let s = if sin > ONE {
            ONE
        } else if sin < -ONE {
            -ONE
        } else {
            sin
        };
        Trig { cos: c, sin: s }
    }

    /// The angle zero.
    pub fn zero() -> (r: Trig)
        ensures
            r@ == (ONE as int, 0int),
    {
        Trig { cos: ONE, sin: 0 }
    }

    pub fn cos(&self) -> (r: i64)
        ensures
            r == self@.0,
            -ONE <= r <= ONE,
    {
        proof {
            use_type_invariant(self);
        }
        self.cos
    }

    pub fn sin(&self) -> (r: i64)
        ensures
            r == self@.1,
            -ONE <= r <= ONE,
    {
        proof {
            use_type_invariant(self);
        }
        self.sin
    }
}

/// The torus's parameters: angular steps of the sweep (microradians), tube
/// and ring radii (whole units), projection scale (fixed point), view
/// distance (whole units) and buffer size (cells).
pub struct TorusParams {
    pub theta_step: int,
    pub phi_step: int,
    pub inner_radius: int,
    pub outer_radius: int,
    pub projection_scale: int,
    pub view_distance: int,
    pub width: int,
    pub height: int,
}

impl TorusParams {
    pub open spec fn valid(self) -> bool {
        &&& 1 <= self.theta_step <= TURN_MICRO
        &&& 1 <= self.phi_step <= TURN_MICRO
        &&& 0 <= self.inner_radius <= RADIUS_MAX
        &&& 0 <= self.outer_radius <= RADIUS_MAX
        &&& 1 <= self.inner_radius + self.outer_radius
        &&& -SCALE_MAX <= self.projection_scale <= SCALE_MAX
        &&& -VIEW_DISTANCE_MAX <= self.view_distance <= VIEW_DISTANCE_MAX
        &&& 1 <= self.width <= SIZE_MAX
        &&& 1 <= self.height <= SIZE_MAX
    }
}

/// The camera one unit farther away, saturating at the bound.
pub open spec fn view_distance_up(p: TorusParams) -> TorusParams {
    TorusParams {
        view_distance: if p.view_distance < VIEW_DISTANCE_MAX {
            p.view_distance + 1
        } else {
            p.view_distance
        },
        ..p
    }
}

/// The camera one unit closer, saturating at the bound.
pub open spec fn view_distance_down(p: TorusParams) -> TorusParams {
    TorusParams {
        view_distance: if p.view_distance > -VIEW_DISTANCE_MAX {
            p.view_distance - 1
        } else {
            p.view_distance
        },
        ..p
    }
}

/// Projection scale chosen at construction: it fits the torus into three
/// eighths of the width at the initial view distance.
pub open spec fn projection_scale_for(
    width: int,
    view_distance: int,
    inner_radius: int,
    outer_radius: int,
) -> int {
    div_trunc(width * view_distance * 3 * ONE, 8 * (inner_radius + outer_radius))
}

/// Number of sweep positions `k * step` that lie below a full turn.
pub open spec fn sweep_len(step: int) -> int {
    (TURN_MICRO as int) / step + 1
}

/// Every multiple of `step` that lies below a full turn, in increasing order.
pub fn sweep_angles(step: u64) -> (r: Vec<u64>)
    requires
        1 <= step <= TURN_MICRO,
    ensures
        r@.len() == sweep_len(step as int),
        forall|k: int| 0 <= k < r@.len() ==> #[trigger] r@[k] == k * step,
        forall|k: int| 0 <= k < r@.len() ==> #[trigger] r@[k] < TURN_MICRO + 1,
{
    let mut r: Vec<u64> = Vec::new();
    let mut angle: u64 = 0;
    assert(0 * step == 0) by (nonlinear_arith);
    while angle <= TURN_MICRO
        invariant
            1 <= step <= TURN_MICRO,
            angle == r@.len() * step,
            angle <= TURN_MICRO + step,
            r@.len() <= (TURN_MICRO as int) / (step as int) + 1,
            angle <= TURN_MICRO ==> r@.len() <= (TURN_MICRO as int) / (step as int),
            angle > TURN_MICRO ==> r@.len() == (TURN_MICRO as int) / (step as int) + 1,
            forall|k: int| 0 <= k < r@.len() ==> #[trigger] r@[k] == k * step,
            forall|k: int| 0 <= k < r@.len() ==> #[trigger] r@[k] < TURN_MICRO + 1,
        decreases TURN_MICRO + step - angle,
    {
        let ghost n = r@.len() as int;
        proof {
            lemma_sweep_count(n, step as int);
            lemma_sweep_count(n + 1, step as int);
            assert((n + 1) * step == n * step + step) by (nonlinear_arith);
        }
        r.push(angle);
        angle = angle + step;
    }
    r
}

/// Position `n` of a sweep lies below a full turn exactly when `n` is at most
/// the number of whole steps in a turn.
proof fn lemma_sweep_count(n: int, step: int)
    requires
        1 <= step,
        0 <= n,
    ensures
        n * step <= TURN_MICRO <==> n <= (TURN_MICRO as int) / step,
{
    let q = (TURN_MICRO as int) / step;
    vstd::arithmetic::div_mod::lemma_fundamental_div_mod(TURN_MICRO as int, step);
    let m = (TURN_MICRO as int) % step;
    assert(n * step <= TURN_MICRO <==> n <= q) by (nonlinear_arith)
        requires
            TURN_MICRO == step * q + m,
            0 <= m < step,
            1 <= step,
    ;
}

/// Where one surface sample lands: buffer row and column, camera-space depth
/// (fixed point) and position on the shading ramp.
pub struct Hit {
    pub row: int,
    pub col: int,
    pub depth: int,
    pub glyph: int,
}

/// Projects the surface sample at tube angle `t` and ring angle `f`, with the
/// torus turned by pitch `a` and yaw `b` (each given by its fixed-point cosine
/// and sine). `None` when the sample faces away from the light, lies at or
/// behind the camera, or falls outside the buffer.
pub open spec fn project(
    p: TorusParams,
    a: (int, int),
    b: (int, int),
    t: (int, int),
    f: (int, int),
) -> Option<Hit> {
    let one = ONE as int;
    let (ca, sa) = a;
    let (cb, sb) = b;
    let (ct, st) = t;
    let (cp, sp) = f;
    let cx = p.outer_radius * one + p.inner_radius * ct;
    let cy = p.inner_radius * st;
    let xm = cb * cp * one + sa * sb * sp;
    let xn = cx * xm - cy * ca * sb * one;
    let ym = sb * cp * one - sa * cb * sp;
    let yn = cx * ym + cy * ca * cb * one;
    let zn = p.view_distance * (one * one * one) + ca * cx * sp + cy * sa * one;
    let ln = cp * ct * sb * one - ca * ct * sp * one - sa * st * one * one + cb * ca * st * one
        - cb * ct * sa * sp;
    let x = div_trunc(xn, one * one * one);
    let y = div_trunc(yn, one * one * one);
    let z = div_trunc(zn, one * one);
    let l = div_trunc(ln, one * one * one);
    if ln <= 0 || z < DEPTH_EPSILON {
        None
    } else {
        let col = p.width / 2 + div_trunc(p.projection_scale * x, z * one);
        let row = p.height / 2 - div_trunc(p.projection_scale * y, z * one);
        if 0 <= col < p.width && 0 <= row < p.height {
            Some(Hit { row, col, depth: z, glyph: glyph_index_of(l) })
        } else {
            None
        }
    }
}

/// A frame in progress, row by row: each cell's glyph and the depth of the
/// sample that drew it, zero where none has.
pub struct Raster {
    pub glyphs: Seq<char>,
    pub depth: Seq<int>,
}

/// An empty frame for the torus's buffer size.
pub open spec fn blank(p: TorusParams) -> Raster {
    Raster {
        glyphs: Seq::new((p.width * p.height) as nat, |i: int| ' '),
        depth: Seq::new((p.width * p.height) as nat, |i: int| 0int),
    }
}

/// Draws one projected sample: it takes its cell only where the cell is empty
/// or holds a farther sample.
pub open spec fn plot(p: TorusParams, r: Raster, h: Option<Hit>) -> Raster {
    match h {
        None => r,
        Some(h) => {
            let i = h.row * p.width + h.col;
            if r.depth[i] == 0 || h.depth < r.depth[i] {
                Raster { glyphs: r.glyphs.update(i, ramp()[h.glyph]), depth: r.depth.update(i, h.depth) }
            } else {
                r
            }
        },
    }
}

/// Draws the first `n` ring positions of the tube circle at angle `t`.
pub open spec fn sweep_ring(
    p: TorusParams,
    a: (int, int),
    b: (int, int),
    t: (int, int),
    phis: Seq<(int, int)>,
    r: Raster,
    n: nat,
) -> Raster
    decreases n,
{
    if n == 0 {
        r
    } else {
        plot(p, sweep_ring(p, a, b, t, phis, r, (n - 1) as nat), project(p, a, b, t, phis[n - 1]))
    }
}

/// The frame after the first `m` tube angles, each swept over every ring angle.
pub open spec fn rasterize(
    p: TorusParams,
    a: (int, int),
    b: (int, int),
    thetas: Seq<(int, int)>,
    phis: Seq<(int, int)>,
    m: nat,
) -> Raster
    decreases m,
{
    if m == 0 {
        blank(p)
    } else {
        sweep_ring(
            p,
            a,
            b,
            thetas[m - 1],
            phis,
            rasterize(p, a, b, thetas, phis, (m - 1) as nat),
            phis.len(),
        )
    }
}

/// The glyphs of the finished frame.
pub open spec fn torus_image(
    p: TorusParams,
    a: (int, int),
    b: (int, int),
    thetas: Seq<(int, int)>,
    phis: Seq<(int, int)>,
) -> Seq<char> {
    rasterize(p, a, b, thetas, phis, thetas.len()).glyphs
}

pub open spec fn trig_values(s: Seq<Trig>) -> Seq<(int, int)> {
    s.map_values(|t: Trig| t@)
}

/// A finished frame: its size and its glyphs, row by row.
pub struct Scene {
    pub width: int,
    pub height: int,
    pub cells: Seq<char>,
}

/// A grid of glyphs, stored row by row.
pub struct SceneBuffer {
    width: usize,
    height: usize,
    cells: Vec<char>,
}

impl View for SceneBuffer {
    type V = Scene;

    closed spec fn view(&self) -> Scene {
        Scene { width: self.width as int, height: self.height as int, cells: self.cells@ }
    }
}

impl SceneBuffer {
    #[verifier::type_invariant]
    spec fn inv(self) -> bool {
        &&& self.cells@.len() == self.width * self.height
        &&& self.width <= SIZE_MAX
        &&& self.height <= SIZE_MAX
    }

    pub fn width(&self) -> (r: usize)
        ensures
            r == self@.width,
    {
        self.width
    }

    pub fn height(&self) -> (r: usize)
        ensures
            r == self@.height,
    {
        self.height
    }

    /// The glyph in column `col` of row `row`.
    pub fn cell(&self, row: usize, col: usize) -> (c: char)
        requires
            row < self@.height,
            col < self@.width,
        ensures
            c == self@.cells[row * self@.width + col],
    {
        proof {
            use_type_invariant(self);
            lemma_cell_in_grid(row as int, col as int, self.width as int, self.height as int);
            lemma_mul_within(self.width as int, self.height as int, 1000, 1000);
        }
        self.cells[row * self.width + col]
    }
}

proof fn lemma_cell_in_grid(row: int, col: int, width: int, height: int)
    requires
        0 <= row < height,
        0 <= col < width,
    ensures
        0 <= row * width + col < width * height,
{
    assert(0 <= row * width + col < width * height) by (nonlinear_arith)
        requires
            0 <= row < height,
            0 <= col < width,
    ;
}

/// Every sample that is drawn lands inside the buffer, at a depth in front of
/// the camera, with a glyph on the ramp.
pub proof fn lemma_projection_in_bounds(
    p: TorusParams,
    a: (int, int),
    b: (int, int),
    t: (int, int),
    f: (int, int),
)
    ensures
        project(p, a, b, t, f) is Some ==> {
            let h = project(p, a, b, t, f).unwrap();
            &&& 0 <= h.row < p.height
            &&& 0 <= h.col < p.width
            &&& h.depth >= DEPTH_EPSILON
            &&& 0 <= h.glyph < RAMP_LEN
        },
{
}

/// The image is a function of the torus's parameters (the view distance
/// among them), the two turning angles and the sweep alone: equal inputs give
/// equal images.
pub proof fn lemma_image_deterministic(
    p: TorusParams,
    q: TorusParams,
    a: (int, int),
    b: (int, int),
    thetas: Seq<(int, int)>,
    phis: Seq<(int, int)>,
)
    requires
        p == q,
    ensures
        torus_image(p, a, b, thetas, phis) == torus_image(q, a, b, thetas, phis),
{
}

/// With the torus unturned, ring angles φ and π − φ (cosine negated, sine
/// kept) land in one row, at one depth and with one glyph, in columns placed
/// symmetrically about the vertical centre line; where only one of them is
/// drawn, the other's mirrored column lies outside the buffer.
pub proof fn lemma_unturned_mirror(p: TorusParams, t: (int, int), c: int, s: int)
    ensures
        ({
            let id = (ONE as int, 0int);
            let h1 = project(p, id, id, t, (c, s));
            let h2 = project(p, id, id, t, (-c, s));
            let mid = 2 * (p.width / 2);
            &&& (h1 is Some && h2 is Some) ==> {
                &&& h1.unwrap().row == h2.unwrap().row
                &&& h1.unwrap().depth == h2.unwrap().depth
                &&& h1.unwrap().glyph == h2.unwrap().glyph
                &&& h1.unwrap().col + h2.unwrap().col == mid
            }
            &&& (h1 is Some && h2 is None) ==> !(0 <= mid - h1.unwrap().col < p.width)
            &&& (h1 is None && h2 is Some) ==> !(0 <= mid - h2.unwrap().col < p.width)
        }),
{
    let one = ONE as int;
    let k3 = one * one * one;
    let (ct, st) = t;
    let cx = p.outer_radius * one + p.inner_radius * ct;
    let xm = one * c * one + 0 * 0 * s;
    let xm2 = one * (-c) * one + 0 * 0 * s;
    assert(xm2 == -xm);
    let xn = cx * xm - p.inner_radius * st * one * 0 * one;
    let xn2 = cx * xm2 - p.inner_radius * st * one * 0 * one;
    assert(cx * xm2 == -(cx * xm)) by (nonlinear_arith)
        requires
            xm2 == -xm,
    ;
    assert(xn2 == -xn);
    lemma_div_trunc_neg(xn, k3);
    let x = div_trunc(xn, k3);
    let ps = p.projection_scale;
    assert(ps * (-x) == -(ps * x)) by (nonlinear_arith);
    let zn = p.view_distance * k3 + one * cx * s + p.inner_radius * st * 0 * one;
    let z = div_trunc(zn, one * one);
    if z >= DEPTH_EPSILON {
        lemma_div_trunc_neg(ps * x, z * one);
    }
}

/// The torus of the donut panel and its camera.
pub struct Donut {
    theta_step: u64,
    phi_step: u64,
    inner_radius: i64,
    outer_radius: i64,
    projection_scale: i64,
    view_distance: i64,
    width: usize,
    height: usize,
}

impl View for Donut {
    type V = TorusParams;

    closed spec fn view(&self) -> TorusParams {
        TorusParams {
            theta_step: self.theta_step as int,
            phi_step: self.phi_step as int,
            inner_radius: self.inner_radius as int,
            outer_radius: self.outer_radius as int,
            projection_scale: self.projection_scale as int,
            view_distance: self.view_distance as int,
            width: self.width as int,
            height: self.height as int,
        }
    }
}

impl Donut {
    #[verifier::type_invariant]
    spec fn inv(self) -> bool {
        self@.valid()
    }

    /// A torus with the given sweep steps (microradians), radii and view
    /// distance (whole units), drawn into a `width` by `height` buffer. The
    /// projection scale is fixed here, from these values.
    pub fn new(
        theta_step: u64,
        phi_step: u64,
        inner_radius: i64,
        outer_radius: i64,
        view_distance: i64,
        width: usize,
        height: usize,
    ) -> (r: Donut)
        requires
            1 <= theta_step <= TURN_MICRO,
            1 <= phi_step <= TURN_MICRO,
            0 <= inner_radius <= RADIUS_MAX,
            0 <= outer_radius <= RADIUS_MAX,
            1 <= inner_radius + outer_radius,
            -VIEW_DISTANCE_MAX <= view_distance <= VIEW_DISTANCE_MAX,
            1 <= width <= SIZE_MAX,
            1 <= height <= SIZE_MAX,
        ensures
            r@ == (TorusParams {
                theta_step: theta_step as int,
                phi_step: phi_step as int,
                inner_radius: inner_radius as int,
                outer_radius: outer_radius as int,
                projection_scale: projection_scale_for(
                    width as int,
                    view_distance as int,
                    inner_radius as int,
                    outer_radius as int,
                ),
                view_distance: view_distance as int,
                width: width as int,
                height: height as int,
            }),
    {
        let w = width as i64;
        proof {
            lemma_mul_within(w as int, view_distance as int, SIZE_MAX as int, VIEW_DISTANCE_MAX as int);
        }
        let num = w * view_distance * 3 * ONE;
        let den = 8 * (inner_radius + outer_radius);
        let scale = div_trunc_i64(num, den);
        proof {
            lemma_div_trunc_shrinks(num as int, den as int);
        }
        Donut {
            theta_step,
            phi_step,
            inner_radius,
            outer_radius,
            projection_scale: scale,
            view_distance,
            width,
            height,
        }
    }

    /// The exec counterpart of `project` on this torus.
    #[verifier::rlimit(50)]
    fn project_sample(&self, a: &Trig, b: &Trig, t: &Trig, f: &Trig) -> (r: Option<
        (usize, usize, i64, usize),
    >)
        ensures
            match r {
                None => project(self@, a@, b@, t@, f@) is None,
                Some(h) => project(self@, a@, b@, t@, f@) == Some(
                    Hit { row: h.0 as int, col: h.1 as int, depth: h.2 as int, glyph: h.3 as int },
                ),
            },
    {
        proof {
            use_type_invariant(self);
        }
        let k: i64 = ONE;
        let (ca, sa) = (a.cos(), a.sin());
        let (cb, sb) = (b.cos(), b.sin());
        let (ct, st) = (t.cos(), t.sin());
        let (cp, sp) = (f.cos(), f.sin());
        let r1 = self.inner_radius;
        let r2 = self.outer_radius;
        proof {
            lemma_mul_within(r1 as int, ct as int, 1000, 1024);
            lemma_mul_within(r1 as int, st as int, 1000, 1024);
            lemma_mul_within(cb as int, cp as int, 1024, 1024);
            lemma_mul_within(sa as int, sb as int, 1024, 1024);
            lemma_mul_within((sa * sb) as int, sp as int, 1_048_576, 1024);
            lemma_mul_within(sb as int, cp as int, 1024, 1024);
            lemma_mul_within(sa as int, cb as int, 1024, 1024);
            lemma_mul_within((sa * cb) as int, sp as int, 1_048_576, 1024);
        }
        let cx = r2 * k + r1 * ct;
        let cy = r1 * st;
        let xm = cb * cp * k + sa * sb * sp;
        let ym = sb * cp * k - sa * cb * sp;
        proof {
            lemma_mul_within(cx as int, xm as int, 2_048_000, 2_147_483_648);
            lemma_mul_within(cx as int, ym as int, 2_048_000, 2_147_483_648);
            lemma_mul_within(cy as int, ca as int, 1_024_000, 1024);
            lemma_mul_within((cy * ca) as int, sb as int, 1_048_576_000, 1024);
            lemma_mul_within((cy * ca) as int, cb as int, 1_048_576_000, 1024);
            lemma_mul_within(ca as int, cx as int, 1024, 2_048_000);
            lemma_mul_within((ca * cx) as int, sp as int, 2_097_152_000, 1024);
            lemma_mul_within(cy as int, sa as int, 1_024_000, 1024);
            lemma_mul_within(
                self.view_distance as int,
                (k * k * k) as int,
                VIEW_DISTANCE_MAX as int,
                1_073_741_824,
            );
        }
        let xn = cx * xm - cy * ca * sb * k;
        let yn = cx * ym + cy * ca * cb * k;
        let zn = self.view_distance * (k * k * k) + ca * cx * sp + cy * sa * k;
        proof {
            lemma_mul_within(cp as int, ct as int, 1024, 1024);
            lemma_mul_within((cp * ct) as int, sb as int, 1_048_576, 1024);
            lemma_mul_within(ca as int, ct as int, 1024, 1024);
            lemma_mul_within((ca * ct) as int, sp as int, 1_048_576, 1024);
            lemma_mul_within(sa as int, st as int, 1024, 1024);
            lemma_mul_within(cb as int, ca as int, 1024, 1024);
            lemma_mul_within((cb * ca) as int, st as int, 1_048_576, 1024);
            lemma_mul_within(cb as int, ct as int, 1024, 1024);
            lemma_mul_within((cb * ct) as int, sa as int, 1_048_576, 1024);
            lemma_mul_within((cb * ct * sa) as int, sp as int, 1_073_741_824, 1024);
        }
        let ln = cp * ct * sb * k - ca * ct * sp * k - sa * st * k * k + cb * ca * st * k - cb * ct
            * sa * sp;
        proof {
            lemma_div_trunc_bound(xn as int, 1_073_741_824, 5_120_000);
            lemma_div_trunc_bound(yn as int, 1_073_741_824, 5_120_000);
            lemma_div_trunc_bound(zn as int, 1_048_576, 13_312_000);
            lemma_div_trunc_bound(ln as int, 1_073_741_824, 5120);
        }
        let x = div_trunc_i64(xn, k * k * k);
        let y = div_trunc_i64(yn, k * k * k);
        let z = div_trunc_i64(zn, k * k);
        let l = div_trunc_i64(ln, k * k * k);
        if ln <= 0 || z < DEPTH_EPSILON {
            return None;
        }
        let ps = self.projection_scale;
        proof {
            lemma_mul_within(ps as int, x as int, SCALE_MAX as int, 5_120_000);
            lemma_mul_within(ps as int, y as int, SCALE_MAX as int, 5_120_000);
            lemma_div_trunc_shrinks((ps * x) as int, (z * k) as int);
            lemma_div_trunc_shrinks((ps * y) as int, (z * k) as int);
        }
        let col = (self.width / 2) as i64 + div_trunc_i64(ps * x, z * k);
        let row = (self.height / 2) as i64 - div_trunc_i64(ps * y, z * k);
        if 0 <= col && col < self.width as i64 && 0 <= row && row < self.height as i64 {
            Some((row as usize, col as usize, z, glyph_index(l)))
        } else {
            None
        }
    }

    /// Rasterizes the torus turned by pitch `a` and yaw `b`. `thetas` and
    /// `phis` hold the cosine and sine of each tube and ring angle of the
    /// sweep, in sweep order.
    pub fn compute_donut(&self, a: &Trig, b: &Trig, thetas: &Vec<Trig>, phis: &Vec<Trig>) -> (r:
        SceneBuffer)
        ensures
            r@ == (Scene {
                width: self@.width,
                height: self@.height,
                cells: torus_image(self@, a@, b@, trig_values(thetas@), trig_values(phis@)),
            }),
    {
        proof {
            use_type_invariant(self);
            lemma_mul_within(self.width as int, self.height as int, 1000, 1000);
        }
        let p = Ghost(self@);
        let ts = Ghost(trig_values(thetas@));
        let fs = Ghost(trig_values(phis@));
        let n: usize = self.width * self.height;
        let mut glyphs: Vec<char> = Vec::new();
        let mut depth: Vec<i64> = Vec::new();
        let mut k: usize = 0;
        while k < n
            invariant
                k <= n,
                n == p@.width * p@.height,
                glyphs@.len() == k,
                depth@.len() == k,
                forall|c: int| 0 <= c < k ==> glyphs@[c] == ' ' && depth@[c] == 0,
            decreases n - k,
        {
            glyphs.push(' ');
            depth.push(0);
            k = k + 1;
        }
        assert(glyphs@ =~= blank(p@).glyphs);
        let mut i: usize = 0;
        while i < thetas.len()
            invariant
                p@ == self@,
                ts@ == trig_values(thetas@),
                fs@ == trig_values(phis@),
                i <= thetas.len(),
                n == p@.width * p@.height,
                glyphs@.len() == n,
                depth@.len() == n,
                glyphs@ == rasterize(p@, a@, b@, ts@, fs@, i as nat).glyphs,
                forall|c: int|
                    0 <= c < n ==> #[trigger] depth@[c] as int == rasterize(
                        p@,
                        a@,
                        b@,
                        ts@,
                        fs@,
                        i as nat,
                    ).depth[c],
                rasterize(p@, a@, b@, ts@, fs@, i as nat).glyphs.len() == n,
                rasterize(p@, a@, b@, ts@, fs@, i as nat).depth.len() == n,
            decreases thetas.len() - i,
        {
            let t = &thetas[i];
            proof {
                assert(trig_values(thetas@)[i as int] == thetas@[i as int]@);
            }
            let ghost start = rasterize(p@, a@, b@, ts@, fs@, i as nat);
            let mut j: usize = 0;
            while j < phis.len()
                invariant
                    p@ == self@,
                    ts@ == trig_values(thetas@),
                    fs@ == trig_values(phis@),
                    i < thetas.len(),
                    j <= phis.len(),
                    t@ == ts@[i as int],
                    n == p@.width * p@.height,
                    glyphs@.len() == n,
                    depth@.len() == n,
                    glyphs@ == sweep_ring(p@, a@, b@, ts@[i as int], fs@, start, j as nat).glyphs,
                    forall|c: int|
                        0 <= c < n ==> #[trigger] depth@[c] as int == sweep_ring(
                            p@,
                            a@,
                            b@,
                            ts@[i as int],
                            fs@,
                            start,
                            j as nat,
                        ).depth[c],
                    sweep_ring(p@, a@, b@, ts@[i as int], fs@, start, j as nat).glyphs.len() == n,
                    sweep_ring(p@, a@, b@, ts@[i as int], fs@, start, j as nat).depth.len() == n,
                decreases phis.len() - j,
            {
                let ghost before = sweep_ring(p@, a@, b@, ts@[i as int], fs@, start, j as nat);
                proof {
                    assert(trig_values(phis@)[j as int] == phis@[j as int]@);
                }
                let hit = self.project_sample(a, b, t, &phis[j]);
                match hit {
                    None => {},
                    Some(h) => {
                        let (row, col, z, g) = h;
                        proof {
                            lemma_cell_in_grid(row as int, col as int, p@.width, p@.height);
                        }
                        let c = row * self.width + col;
                        let d = depth[c];
                        if d == 0 || z < d {
                            glyphs.set(c, ramp_glyph(g));
                            depth.set(c, z);
                            assert(glyphs@ =~= before.glyphs.update(c as int, ramp()[g as int]));
                        }
                    },
                }
                proof {
                    let after = sweep_ring(p@, a@, b@, ts@[i as int], fs@, start, (j + 1) as nat);
                    assert(glyphs@ =~= after.glyphs);
                }
                j = j + 1;
            }
            i = i + 1;
        }
        SceneBuffer { width: self.width, height: self.height, cells: glyphs }
    }

    /// The tube angles of the sweep, in microradians: every multiple of the
    /// tube step below a full turn, in increasing order.
    pub fn theta_angles(&self) -> (r: Vec<u64>)
        ensures
            r@.len() == sweep_len(self@.theta_step),
            forall|k: int| 0 <= k < r@.len() ==> #[trigger] r@[k] == k * self@.theta_step,
    {
        proof {
            use_type_invariant(self);
        }
        sweep_angles(self.theta_step)
    }

    /// The ring angles of the sweep, in microradians, as for `theta_angles`.
    pub fn phi_angles(&self) -> (r: Vec<u64>)
        ensures
            r@.len() == sweep_len(self@.phi_step),
            forall|k: int| 0 <= k < r@.len() ==> #[trigger] r@[k] == k * self@.phi_step,
    {
        proof {
            use_type_invariant(self);
        }
        sweep_angles(self.phi_step)
    }

    pub fn view_distance(&self) -> (r: i64)
        ensures
            r == self@.view_distance,
    {
        self.view_distance
    }

    /// Moves the camera one unit away, saturating at the bound.
    pub fn increase_view_distance(&mut self)
        ensures
            final(self)@ == view_distance_up(old(self)@),
        no_unwind
    {
        proof {
            use_type_invariant(&*self);
        }
        if self.view_distance < VIEW_DISTANCE_MAX {
            self.view_distance = self.view_distance + 1;
        }
    }

    /// Moves the camera one unit closer, saturating at the bound.
    pub fn decrease_view_distance(&mut self)
        ensures
            final(self)@ == view_distance_down(old(self)@),
        no_unwind
    {
        proof {
            use_type_invariant(&*self);
        }
        if self.view_distance > -VIEW_DISTANCE_MAX {
            self.view_distance = self.view_distance - 1;
        }
    }
}

impl Default for Donut {
    /// Sweep steps of 0.07 and 0.02 radians, radii 1 and 2, the camera 5 units
    /// away, a 100 by 100 buffer.
    fn default() -> (r: Donut)
        ensures
            r@ == (TorusParams {
                theta_step: 70_000,
                phi_step: 20_000,
                inner_radius: 1,
                outer_radius: 2,
                projection_scale: 64_000,
                view_distance: 5,
                width: 100,
                height: 100,
            }),
    {
        let r = Donut::new(70_000, 20_000, 1, 2, 5, 100, 100);
        proof {
            lemma_div_by_multiple(64_000, 24);
            assert(div_trunc(1_536_000int, 24int) == 64_000);
        }
        r
    }
}

} // verus!
