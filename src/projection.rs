use vstd::prelude::*;

use crate::decimal::{Decimal, Ratio, pow10, lemma_pow10_positive, lemma_pow10_bound, pow10_u64};
use crate::scan::{CtScan, RotationDirection};

verus! {

/// Width and height of the detector, in pixels.
pub const DETECTOR_PIXELS: i128 = 500;

/// Upper bound on the numerators and denominators that projections are built from.
pub const RATIO_BOUND: i128 = 0x10_0000_0000_0000_0000_0000_0000;

/// Affine map from a point on the detector plane, relative to its centre and in
/// physical units, to texture coordinates: `u = scale_x * x + offset_x`,
/// `v = scale_y * y + offset_y`.
#[derive(Clone, Copy, Debug, PartialEq, Eq, Structural)]
pub struct TextureTransform {
    pub scale_x: Ratio,
    pub scale_y: Ratio,
    pub offset_x: Ratio,
    pub offset_y: Ratio,
}

/// How the world is seen from one projection. Angles are in degrees.
///
/// The world is moved into the sensor's frame by the translation
/// `(-r cos a, -r sin a, 0)`, where `a` is `world_angle` and `r` is
/// `translate_radius`, then turned about the vertical axis by
/// `detector_angle`; `texture_transform` then takes the detector plane to the
/// texture.
#[derive(Clone, Copy, Debug, PartialEq, Eq, Structural)]
pub struct Projection {
    pub world_angle: Ratio,
    pub translate_radius: Ratio,
    pub detector_angle: Ratio,
    pub texture_transform: TextureTransform,
    pub sdd: Ratio,
}

/// A ratio whose numerator and denominator are small enough to build from.
pub open spec fn bounded(r: Ratio) -> bool {
    &&& 0 < r.den <= RATIO_BOUND
    &&& -RATIO_BOUND <= r.num <= RATIO_BOUND
}

/// `a - b`.
pub open spec fn difference(a: Ratio, b: Ratio) -> Ratio {
    Ratio { num: (a.num * b.den - b.num * a.den) as i128, den: (a.den * b.den) as i128 }
}

/// Three quarters of a turn less `angle`: the turn that makes a detector
/// plane, placed at `angle`, face the canonical direction.
pub open spec fn detector_angle_of(angle: Ratio) -> Ratio {
    Ratio { num: (270 * angle.den - angle.num) as i128, den: angle.den }
}

/// The map of a detector of the given physical extent onto the unit square:
/// scaled by `0.5 / extent`, flipped vertically, and moved by one half.
pub open spec fn texture_transform_of(extent: (Ratio, Ratio)) -> TextureTransform {
    TextureTransform {
        scale_x: Ratio { num: extent.0.den, den: (2 * extent.0.num) as i128 },
        scale_y: Ratio { num: (-extent.1.den) as i128, den: (2 * extent.1.num) as i128 },
        offset_x: Ratio { num: 1, den: 2 },
        offset_y: Ratio { num: 1, den: 2 },
    }
}

pub open spec fn projection_of(
    world_angle: Ratio,
    sod: Decimal,
    sdd: Decimal,
    detector_dimensions: (Ratio, Ratio),
) -> Projection {
    Projection {
        world_angle,
        translate_radius: difference(sdd.ratio(), sod.ratio()),
        detector_angle: detector_angle_of(world_angle),
        texture_transform: texture_transform_of(detector_dimensions),
        sdd: sdd.ratio(),
    }
}

/// The angle of projection `i` of `n`, taken evenly over `sweep` degrees in
/// the given direction, starting at zero: `d * i * sweep / n`.
pub open spec fn projection_angle(
    direction: RotationDirection,
    sweep: Decimal,
    n: nat,
    i: nat,
) -> Ratio {
    Ratio {
        num: (direction.sign() * i * sweep.mantissa) as i128,
        den: (n * pow10(sweep.scale as nat)) as i128,
    }
}

/// The physical extent of the detector, `DETECTOR_PIXELS` pixels of the given size.
pub open spec fn detector_extent(pixel_size: Decimal) -> Ratio {
    Ratio {
        num: (DETECTOR_PIXELS * pixel_size.mantissa) as i128,
        den: pow10(pixel_size.scale as nat) as i128,
    }
}

/// Projection `i` of a scan.
pub open spec fn scan_projection(scan: CtScan, i: nat) -> Projection {
    let extent = detector_extent(scan.pixel_size);
    projection_of(
        projection_angle(scan.direction, scan.swept_angle, scan.projection_files@.len(), i),
        scan.sod,
        scan.sdd,
        (extent, extent),
    )
}

proof fn lemma_projection_angle_bounded(
    direction: RotationDirection,
    sweep: Decimal,
    n: nat,
    i: nat,
)
    requires
        sweep.wf(),
        1 <= n <= crate::scan::MAX_PROJECTIONS,
        i < n,
    ensures
        bounded(projection_angle(direction, sweep, n, i)),
        projection_angle(direction, sweep, n, i).num == direction.sign() * i * sweep.mantissa,
        projection_angle(direction, sweep, n, i).den == n * pow10(sweep.scale as nat),
{
    lemma_pow10_positive(sweep.scale as nat);
    lemma_pow10_bound(sweep.scale as nat);
    let p = pow10(sweep.scale as nat) as int;
    let m = sweep.mantissa as int;
    let s = direction.sign();
    assert(0 < n * p <= 0xffff_ffff * 1_000_000_000_000_000_000) by (nonlinear_arith)
        requires
            1 <= n <= 0xffff_ffff,
            1 <= p <= 1_000_000_000_000_000_000,
    ;
    assert(-0xffff_ffff * 1_000_000_000_000_000_000 <= s * i * m <= 0xffff_ffff
        * 1_000_000_000_000_000_000) by (nonlinear_arith)
        requires
            s == 1 || s == -1,
            0 <= i <= 0xffff_ffff,
            -1_000_000_000_000_000_000 < m < 1_000_000_000_000_000_000,
    ;
}

/// The angle of projection `i` of `n` over a sweep, in degrees.
pub fn angle_of(direction: RotationDirection, sweep: Decimal, n: usize, i: usize) -> (r: Ratio)
    requires
        sweep.wf(),
        1 <= n <= crate::scan::MAX_PROJECTIONS,
        i < n,
    ensures
        r == projection_angle(direction, sweep, n as nat, i as nat),
        bounded(r),
{
    proof {
        lemma_projection_angle_bounded(direction, sweep, n as nat, i as nat);
        lemma_pow10_bound(sweep.scale as nat);
    }
    let d = direction.dir() as i128;
    let p = pow10_u64(sweep.scale) as i128;
    let num = d * (i as i128) * (sweep.mantissa as i128);
    let den = (n as i128) * p;
    Ratio { num, den }
}

impl Projection {
    /// The transforms of the projection taken at `world_angle` degrees, with
    /// the given source distances and a detector of the given physical extent.
    pub fn new(
        world_angle: Ratio,
        sod: Decimal,
        sdd: Decimal,
        detector_dimensions: (Ratio, Ratio),
    ) -> (r: Projection)
        requires
            bounded(world_angle),
            sod.wf(),
            sdd.wf(),
            bounded(detector_dimensions.0),
            bounded(detector_dimensions.1),
            detector_dimensions.0.num > 0,
            detector_dimensions.1.num > 0,
        ensures
            r == projection_of(world_angle, sod, sdd, detector_dimensions),
    {
        let sod_r = sod.to_ratio();
        let sdd_r = sdd.to_ratio();
        proof {
            lemma_pow10_bound(sod.scale as nat);
            lemma_pow10_bound(sdd.scale as nat);
            let (a, b, c, d) = (sdd_r.num as int, sdd_r.den as int, sod_r.num as int, sod_r.den as int);
            assert(-1_000_000_000_000_000_000_000_000_000_000_000_000 <= a * d <= 1_000_000_000_000_000_000_000_000_000_000_000_000) by (nonlinear_arith)
                requires
                    -1_000_000_000_000_000_000 <= a <= 1_000_000_000_000_000_000,
                    0 < d <= 1_000_000_000_000_000_000,
            ;
            assert(-1_000_000_000_000_000_000_000_000_000_000_000_000 <= c * b <= 1_000_000_000_000_000_000_000_000_000_000_000_000) by (nonlinear_arith)
                requires
                    -1_000_000_000_000_000_000 <= c <= 1_000_000_000_000_000_000,
                    0 < b <= 1_000_000_000_000_000_000,
            ;
            assert(0 < b * d <= 1_000_000_000_000_000_000_000_000_000_000_000_000) by (nonlinear_arith)
                requires
                    0 < b <= 1_000_000_000_000_000_000,
                    0 < d <= 1_000_000_000_000_000_000,
            ;
        }
        let translate_radius = Ratio {
            num: sdd_r.num * sod_r.den - sod_r.num * sdd_r.den,
            den: sdd_r.den * sod_r.den,
        };
        let detector_angle = Ratio {
            num: 270 * world_angle.den - world_angle.num,
            den: world_angle.den,
        };
        let texture_transform = TextureTransform {
            scale_x: Ratio { num: detector_dimensions.0.den, den: 2 * detector_dimensions.0.num },
            scale_y: Ratio {
                num: -detector_dimensions.1.den,
                den: 2 * detector_dimensions.1.num,
            },
            offset_x: Ratio { num: 1, den: 2 },
            offset_y: Ratio { num: 1, den: 2 },
        };
        Projection { world_angle, translate_radius, detector_angle, texture_transform, sdd: sdd_r }
    }
}

/// The physical extent of the detector for a pixel size.
pub fn detector_extent_of(pixel_size: Decimal) -> (r: Ratio)
    requires
        pixel_size.wf(),
        pixel_size.is_positive(),
    ensures
        r == detector_extent(pixel_size),
        bounded(r),
        r.num > 0,
{
    proof {
        lemma_pow10_positive(pixel_size.scale as nat);
        lemma_pow10_bound(pixel_size.scale as nat);
    }
    Ratio {
        num: DETECTOR_PIXELS * (pixel_size.mantissa as i128),
        den: pow10_u64(pixel_size.scale) as i128,
    }
}

/// The transforms of every projection of a scan, in acquisition order.
pub fn projections_of(scan: &CtScan) -> (r: Vec<Projection>)
    requires
        scan.wf(),
    ensures
        r@.len() == scan.projection_files@.len(),
        forall|i: int| 0 <= i < r@.len() ==> #[trigger] r@[i] == scan_projection(*scan, i as nat),
{
    let n = scan.projection_files.len();
    let extent = detector_extent_of(scan.pixel_size);
    let mut r: Vec<Projection> = Vec::with_capacity(n);
    let mut i: usize = 0;
    while i < n
        invariant
            i <= n,
            n == scan.projection_files@.len(),
            scan.wf(),
            extent == detector_extent(scan.pixel_size),
            bounded(extent),
            extent.num > 0,
            r@.len() == i,
            forall|j: int| 0 <= j < i ==> #[trigger] r@[j] == scan_projection(*scan, j as nat),
        decreases n - i,
    {
        let angle = angle_of(scan.direction, scan.swept_angle, n, i);
        let p = Projection::new(angle, scan.sod, scan.sdd, (extent, extent));
        r.push(p);
        i = i + 1;
    }
    r
}

/// The size of a number, without its sign.
pub open spec fn magnitude(x: int) -> int {
    if x < 0 {
        -x
    } else {
        x
    }
}

proof fn lemma_magnitude_of_signed(s: int, k: int, m: int)
    requires
        s == 1 || s == -1,
        k >= 0,
    ensures
        magnitude(s * k * m) == k * magnitude(m),
{
    let am = magnitude(m);
    assert(k * am >= 0) by (nonlinear_arith)
        requires
            k >= 0,
            am >= 0,
    ;
    if (s == 1 && m >= 0) || (s == -1 && m < 0) {
        assert(s * k * m == k * am) by (nonlinear_arith)
            requires
                (s == 1 && am == m) || (s == -1 && am == -m),
        ;
    } else {
        assert(s * k * m == -(k * am)) by (nonlinear_arith)
            requires
                (s == 1 && am == -m) || (s == -1 && am == m),
        ;
    }
}

/// Projection angles are spread evenly over the sweep, in its direction: the
/// first is zero, all share one denominator, each next one adds
/// `d * sweep / n`, and, for a sweep other than zero, their size grows
/// strictly with the index.
pub proof fn lemma_angles_evenly_spaced(
    direction: RotationDirection,
    sweep: Decimal,
    n: nat,
    i: nat,
    j: nat,
)
    requires
        sweep.wf(),
        1 <= n <= crate::scan::MAX_PROJECTIONS,
        i < j < n,
    ensures
        projection_angle(direction, sweep, n, 0).num == 0,
        projection_angle(direction, sweep, n, i).den == projection_angle(direction, sweep, n, j).den,
        projection_angle(direction, sweep, n, i).den == n * pow10(sweep.scale as nat) > 0,
        projection_angle(direction, sweep, n, i + 1).num - projection_angle(
            direction,
            sweep,
            n,
            i,
        ).num == direction.sign() * sweep.mantissa,
        sweep.mantissa != 0 ==> magnitude(projection_angle(direction, sweep, n, i).num as int) < magnitude(
            projection_angle(direction, sweep, n, j).num as int,
        ),
{
    lemma_projection_angle_bounded(direction, sweep, n, 0);
    lemma_projection_angle_bounded(direction, sweep, n, i);
    lemma_projection_angle_bounded(direction, sweep, n, i + 1);
    lemma_projection_angle_bounded(direction, sweep, n, j);
    let s = direction.sign();
    let m = sweep.mantissa as int;
    assert(s * (i + 1) * m - s * i * m == s * m) by (nonlinear_arith);
    assert(s * 0 * m == 0) by (nonlinear_arith);
    if m != 0 {
        let am = magnitude(m);
        assert(i * am < j * am) by (nonlinear_arith)
            requires
                0 <= i < j,
                am > 0,
        ;
        lemma_magnitude_of_signed(s, i as int, m);
        lemma_magnitude_of_signed(s, j as int, m);
        assert(magnitude(s * i * m) == i * am);
        assert(magnitude(s * j * m) == j * am);
    }
}

/// The coordinate of a detector corner on one axis, `sign * 250 * pixel_size`
/// (half of the extent), as a numerator and a denominator.
pub open spec fn corner_coord(pixel_size: Decimal, sign: int) -> (int, int) {
    (sign * 250 * pixel_size.mantissa, pow10(pixel_size.scale as nat) as int)
}

/// `scale * x + offset` for a coordinate given as a numerator and a
/// denominator; the result in the same form.
pub open spec fn apply_axis(scale: Ratio, offset: Ratio, x: (int, int)) -> (int, int) {
    (
        scale.num * x.0 * offset.den + offset.num * scale.den * x.1,
        scale.den * x.1 * offset.den,
    )
}

/// A ratio, numerator and denominator, lies in `[0, 1]`.
pub open spec fn in_unit_interval(r: (int, int)) -> bool {
    r.1 > 0 && 0 <= r.0 <= r.1
}

/// The corners of the detector, `(+-250 p, +-250 p)` for pixel size `p`, land
/// in the unit square of the texture, and the vertical axis is turned over:
/// the upper corner has the smaller texture coordinate.
pub proof fn lemma_corners_in_texture(pixel_size: Decimal, sx: int, sy: int)
    requires
        pixel_size.wf(),
        pixel_size.is_positive(),
        sx == 1 || sx == -1,
        sy == 1 || sy == -1,
    ensures
        ({
            let extent = detector_extent(pixel_size);
            let t = texture_transform_of((extent, extent));
            let u = apply_axis(t.scale_x, t.offset_x, corner_coord(pixel_size, sx));
            let v = apply_axis(t.scale_y, t.offset_y, corner_coord(pixel_size, sy));
            let top = apply_axis(t.scale_y, t.offset_y, corner_coord(pixel_size, 1));
            let bottom = apply_axis(t.scale_y, t.offset_y, corner_coord(pixel_size, -1));
            &&& in_unit_interval(u)
            &&& in_unit_interval(v)
            &&& top.1 == bottom.1
            &&& top.0 < bottom.0
        }),
{
    lemma_corner_axis(pixel_size, sx);
    lemma_corner_axis(pixel_size, sy);
    lemma_corner_axis(pixel_size, 1);
    lemma_corner_axis(pixel_size, -1);
    let q = pow10(pixel_size.scale as nat) * pixel_size.mantissa;
    assert(0 <= (500 * sx + 1000) * q <= 2000 * q) by (nonlinear_arith)
        requires
            q > 0,
            -1 <= sx <= 1,
    ;
    assert(0 <= (1000 - 500 * sy) * q <= 2000 * q) by (nonlinear_arith)
        requires
            q > 0,
            -1 <= sy <= 1,
    ;
    assert((1000 - 500 * 1) * q < (1000 - 500 * -1) * q) by (nonlinear_arith)
        requires
            q > 0,
    ;
}

proof fn lemma_corner_axis(pixel_size: Decimal, sign: int)
    requires
        pixel_size.wf(),
        pixel_size.is_positive(),
        sign == 1 || sign == -1,
    ensures
        ({
            let extent = detector_extent(pixel_size);
            let t = texture_transform_of((extent, extent));
            let q = pow10(pixel_size.scale as nat) * pixel_size.mantissa;
            let x = apply_axis(t.scale_x, t.offset_x, corner_coord(pixel_size, sign));
            let y = apply_axis(t.scale_y, t.offset_y, corner_coord(pixel_size, sign));
            &&& q > 0
            &&& x.0 == (500 * sign + 1000) * q
            &&& y.0 == (1000 - 500 * sign) * q
            &&& x.1 == 2000 * q
            &&& y.1 == 2000 * q
        }),
{
    lemma_pow10_positive(pixel_size.scale as nat);
    lemma_pow10_bound(pixel_size.scale as nat);
    let extent = detector_extent(pixel_size);
    let t = texture_transform_of((extent, extent));
    let p = pow10(pixel_size.scale as nat) as int;
    let m = pixel_size.mantissa as int;
    assert(extent.num == 500 * m && extent.den == p);
    assert(t.scale_x.num == p && t.scale_x.den == 1000 * m);
    assert(t.scale_y.num == -p && t.scale_y.den == 1000 * m);
    assert(p * m > 0) by (nonlinear_arith)
        requires
            p > 0,
            m > 0,
    ;
    assert(p * (sign * 250 * m) * 2 + 1 * (1000 * m) * p == (500 * sign + 1000) * (p * m))
        by (nonlinear_arith);
    assert(-p * (sign * 250 * m) * 2 + 1 * (1000 * m) * p == (1000 - 500 * sign) * (p * m))
        by (nonlinear_arith);
    assert((1000 * m) * p * 2 == 2000 * (p * m)) by (nonlinear_arith);
}

/// Loading one description twice gives the same projection transforms: they
/// depend on the descriptor's text and on the number of its projections alone.
pub proof fn lemma_transforms_deterministic(
    a: CtScan,
    b: CtScan,
    direction: Seq<char>,
    sod: Seq<char>,
    sdd: Seq<char>,
    swept_angle: Seq<char>,
    pixel_size: Seq<char>,
)
    requires
        a.describes(direction, sod, sdd, swept_angle, pixel_size),
        b.describes(direction, sod, sdd, swept_angle, pixel_size),
        a.projection_files@.len() == b.projection_files@.len(),
    ensures
        forall|i: nat| #[trigger] scan_projection(a, i) == scan_projection(b, i),
{
    assert(a.direction == b.direction);
}

} // verus!
