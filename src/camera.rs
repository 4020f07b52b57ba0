use vstd::prelude::*;

verus! {

/// Width of the image's aspect ratio (16:9).
pub const ASPECT_WIDTH: i64 = 16;

/// Height of the image's aspect ratio (16:9).
pub const ASPECT_HEIGHT: i64 = 9;

/// Height of the viewport in world units.
pub const VIEWPORT_HEIGHT: i64 = 2;

/// Distance from the eye to the viewport along the negative depth axis.
pub const FOCAL_LENGTH: i64 = 1;

/// Camera lengths are held as whole multiples of `1 / CAMERA_SCALE`. Twice the
/// aspect height, so that the viewport width and its half are whole multiples.
pub const CAMERA_SCALE: i64 = 2 * ASPECT_HEIGHT;

/// Bound on the components of a camera's vectors, in camera units.
pub const CAMERA_LIMIT: i64 = 0x1000;

/// Bound on the numerator and the denominator of an image-plane coordinate.
pub const COORD_LIMIT: i64 = 0x1_0000_0000_0000;

/// A rational number `num / den`.
#[derive(Clone, Copy, Debug, PartialEq, Eq, Structural)]
pub struct Frac {
    pub num: i64,
    pub den: i64,
}

impl Frac {
    /// A positive denominator, and both parts within `COORD_LIMIT`.
    pub open spec fn wf(self) -> bool {
        0 < self.den <= COORD_LIMIT && -COORD_LIMIT <= self.num <= COORD_LIMIT
    }

    pub fn new(num: i64, den: i64) -> (r: Frac)
        ensures
            r.num == num,
            r.den == den,
    {
        Frac { num, den }
    }
}

/// A vector whose components are whole multiples of `1 / CAMERA_SCALE`.
#[derive(Clone, Copy, Debug, PartialEq, Eq, Structural)]
pub struct Grid3 {
    pub x: i64,
    pub y: i64,
    pub z: i64,
}

impl Grid3 {
    pub fn new(x: i64, y: i64, z: i64) -> (r: Grid3)
        ensures
            r == (Grid3 { x, y, z }),
    {
        Grid3 { x, y, z }
    }

    /// Every component within `CAMERA_LIMIT`.
    pub open spec fn bounded(self) -> bool {
        -CAMERA_LIMIT <= self.x <= CAMERA_LIMIT && -CAMERA_LIMIT <= self.y <= CAMERA_LIMIT
            && -CAMERA_LIMIT <= self.z <= CAMERA_LIMIT
    }
}

/// A vector with rational components `(x / den, y / den, z / den)`.
#[derive(Clone, Copy, Debug, PartialEq, Eq, Structural)]
pub struct RatVec3 {
    pub x: i128,
    pub y: i128,
    pub z: i128,
    pub den: i128,
}

/// A half-line `origin + t * direction`. The direction need not be of unit length.
#[derive(Clone, Copy, Debug, PartialEq, Eq, Structural)]
pub struct Ray {
    origin: RatVec3,
    direction: RatVec3,
}

impl Ray {
    pub closed spec fn origin_spec(self) -> RatVec3 {
        self.origin
    }

    pub closed spec fn direction_spec(self) -> RatVec3 {
        self.direction
    }

    pub fn new(origin: RatVec3, direction: RatVec3) -> (r: Ray)
        ensures
            r.origin_spec() == origin,
            r.direction_spec() == direction,
    {
        Ray { origin, direction }
    }

    pub fn origin(&self) -> (r: &RatVec3)
        ensures
            *r == self.origin_spec(),
    {
        &self.origin
    }

    pub fn direction(&self) -> (r: &RatVec3)
        ensures
            *r == self.direction_spec(),
    {
        &self.direction
    }
}

/// A pinhole camera: the eye at `origin`, and a viewport spanned by `horizontal`
/// and `vertical` from its `lower_left_corner`. All in camera units.
#[derive(Clone, Copy, Debug, PartialEq, Eq, Structural)]
pub struct Camera {
    pub origin: Grid3,
    pub lower_left_corner: Grid3,
    pub horizontal: Grid3,
    pub vertical: Grid3,
}

/// One component of `lower_left_corner + u * horizontal + v * vertical - origin`,
/// written over the denominator `CAMERA_SCALE * u.den * v.den`.
pub open spec fn direction_component(corner: int, origin: int, h: int, vt: int, u: Frac, v: Frac) -> int {
    (corner - origin) * u.den * v.den + u.num * h * v.den + v.num * vt * u.den
}

impl Camera {
    /// Every vector of the camera is `bounded`.
    pub open spec fn wf(self) -> bool {
        self.origin.bounded() && self.lower_left_corner.bounded() && self.horizontal.bounded()
            && self.vertical.bounded()
    }

    /// The direction of the ray through the image-plane point `(u, v)`.
    pub open spec fn ray_direction(self, u: Frac, v: Frac) -> RatVec3 {
        RatVec3 {
            x: direction_component(
                self.lower_left_corner.x as int,
                self.origin.x as int,
                self.horizontal.x as int,
                self.vertical.x as int,
                u,
                v,
            ) as i128,
            y: direction_component(
                self.lower_left_corner.y as int,
                self.origin.y as int,
                self.horizontal.y as int,
                self.vertical.y as int,
                u,
                v,
            ) as i128,
            z: direction_component(
                self.lower_left_corner.z as int,
                self.origin.z as int,
                self.horizontal.z as int,
                self.vertical.z as int,
                u,
                v,
            ) as i128,
            den: (CAMERA_SCALE * u.den * v.den) as i128,
        }
    }

    /// The fixed camera: aspect ratio 16:9, viewport height 2, focal length 1, the
    /// eye at the origin looking down the negative depth axis.
    pub fn new() -> (r: Camera)
        ensures
            r.wf(),
            r.origin == (Grid3 { x: 0, y: 0, z: 0 }),
            r.horizontal.x * ASPECT_HEIGHT == ASPECT_WIDTH * VIEWPORT_HEIGHT * CAMERA_SCALE,
            r.horizontal.y == 0 && r.horizontal.z == 0,
            r.vertical.x == 0 && r.vertical.y == VIEWPORT_HEIGHT * CAMERA_SCALE && r.vertical.z == 0,
            2 * r.lower_left_corner.x == 2 * r.origin.x - r.horizontal.x - r.vertical.x,
            2 * r.lower_left_corner.y == 2 * r.origin.y - r.horizontal.y - r.vertical.y,
            2 * r.lower_left_corner.z == 2 * r.origin.z - r.horizontal.z - r.vertical.z - 2
                * FOCAL_LENGTH * CAMERA_SCALE,
    {
        let viewport_width = ASPECT_WIDTH * VIEWPORT_HEIGHT * CAMERA_SCALE / ASPECT_HEIGHT;
        assert(viewport_width * ASPECT_HEIGHT == ASPECT_WIDTH * VIEWPORT_HEIGHT * CAMERA_SCALE);
        let orig = Grid3::new(0, 0, 0);
        let h = Grid3::new(viewport_width, 0, 0);
        let v = Grid3::new(0, VIEWPORT_HEIGHT * CAMERA_SCALE, 0);
        let llc = Grid3::new(
            orig.x - h.x / 2 - v.x / 2,
            orig.y - h.y / 2 - v.y / 2,
            orig.z - h.z / 2 - v.z / 2 - FOCAL_LENGTH * CAMERA_SCALE,
        );
        Camera { origin: orig, lower_left_corner: llc, horizontal: h, vertical: v }
    }

    /// The ray from the eye through the image-plane point `(u, v)`: towards
    /// `lower_left_corner + u * horizontal + v * vertical - origin`. Points outside
    /// `[0, 1]` lie beyond the viewport's edges.
    pub fn get_ray(&self, u: Frac, v: Frac) -> (r: Ray)
        requires
            self.wf(),
            u.wf(),
            v.wf(),
        ensures
            r.origin_spec() == (RatVec3 {
                x: self.origin.x as i128,
                y: self.origin.y as i128,
                z: self.origin.z as i128,
                den: CAMERA_SCALE as i128,
            }),
            r.direction_spec() == self.ray_direction(u, v),
    {
        let origin = RatVec3 {
            x: self.origin.x as i128,
            y: self.origin.y as i128,
            z: self.origin.z as i128,
            den: CAMERA_SCALE as i128,
        };
        let direction = RatVec3 {
            x: component(self.lower_left_corner.x, self.origin.x, self.horizontal.x, self.vertical.x, u, v),
            y: component(self.lower_left_corner.y, self.origin.y, self.horizontal.y, self.vertical.y, u, v),
            z: component(self.lower_left_corner.z, self.origin.z, self.horizontal.z, self.vertical.z, u, v),
            den: common_denominator(u, v),
        };
        Ray::new(origin, direction)
    }
}

fn common_denominator(u: Frac, v: Frac) -> (r: i128)
    requires
        u.wf(),
        v.wf(),
    ensures
        r == CAMERA_SCALE * u.den * v.den,
{
    let (ud, vd) = (u.den as i128, v.den as i128);
    assert(0 < ud * vd <= COORD_LIMIT * COORD_LIMIT) by (nonlinear_arith)
        requires
            0 < ud <= COORD_LIMIT,
            0 < vd <= COORD_LIMIT,
    ;
    let s = CAMERA_SCALE as i128;
    assert(s * (ud * vd) == s * ud * vd) by (nonlinear_arith);
    s * (ud * vd)
}

fn component(corner: i64, origin: i64, h: i64, vt: i64, u: Frac, v: Frac) -> (r: i128)
    requires
        u.wf(),
        v.wf(),
        -CAMERA_LIMIT <= corner <= CAMERA_LIMIT,
        -CAMERA_LIMIT <= origin <= CAMERA_LIMIT,
        -CAMERA_LIMIT <= h <= CAMERA_LIMIT,
        -CAMERA_LIMIT <= vt <= CAMERA_LIMIT,
    ensures
        r == direction_component(corner as int, origin as int, h as int, vt as int, u, v),
{
    let (ud, vd, un, vn) = (u.den as i128, v.den as i128, u.num as i128, v.num as i128);
    let a = corner as i128 - origin as i128;
    let (h, vt) = (h as i128, vt as i128);
    proof {
        let lim = COORD_LIMIT as int;
        let cl = CAMERA_LIMIT as int;
        bound_product3(a, ud, vd, 2 * cl, lim, lim);
        bound_product3(un, h, vd, lim, cl, lim);
        bound_product3(vn, vt, ud, lim, cl, lim);
        assert(2 * cl * lim * lim == 0x2000_0000_0000_0000_0000_0000_0000);
        assert(lim * cl * lim == 0x1000_0000_0000_0000_0000_0000_0000);
    }
    let t1 = a * ud * vd;
    let t2 = un * h * vd;
    let t3 = vn * vt * ud;
    t1 + t2 + t3
}

proof fn bound_product3(a: i128, b: i128, c: i128, la: int, lb: int, lc: int)
    requires
        -la <= a <= la,
        -lb <= b <= lb,
        -lc <= c <= lc,
    ensures
        -(la * lb) <= a * b <= la * lb,
        -(la * lb * lc) <= a * b * c <= la * lb * lc,
{
    assert(-(la * lb) <= a * b <= la * lb) by (nonlinear_arith)
        requires
            -la <= a <= la,
            -lb <= b <= lb,
    ;
    assert(-(la * lb * lc) <= (a * b) * c <= la * lb * lc) by (nonlinear_arith)
        requires
            -(la * lb) <= a * b <= la * lb,
            -lc <= c <= lc,
    ;
}

} // verus!
