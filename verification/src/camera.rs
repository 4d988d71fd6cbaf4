//! The orbit camera's two angles and the rule that keeps them in range.
//!
//! An angle is held as the bit pattern of a 64-bit IEEE-754 number. Of the
//! numbers that are not negative the patterns rise with the numbers, a set
//! top bit marks a negative number, and a pattern above that of infinity,
//! the top bit left aside, is no number at all. So every question the rule
//! asks of an angle is a comparison of patterns.

use vstd::prelude::*;

verus! {

/// The top bit: set in the pattern of a negative number and of negative zero.
pub const SIGN: u64 = 0x8000_0000_0000_0000;

/// The pattern of positive infinity.
pub const INFINITY: u64 = 0x7FF0_0000_0000_0000;

/// The pattern of the machine epsilon, two to the power of -52.
pub const EPSILON: u64 = 0x3CB0_0000_0000_0000;

/// The pattern of the number nearest to pi.
pub const PI: u64 = 0x4009_21FB_5444_2D18;

/// The pattern of the number nearest to two pi.
pub const TWO_PI: u64 = 0x4019_21FB_5444_2D18;

/// The pattern of the polar angle a new camera starts with: pi / 3.
pub const INITIAL_THETA: u64 = 0x3FF0_C152_382D_7365;

/// The pattern of the azimuth a new camera starts with: pi / 6.
pub const INITIAL_PHI: u64 = 0x3FE0_C152_382D_7365;

/// The pattern of the number a drag is divided by before it is added to an
/// angle: 200.
pub const DRAG_DIVISOR: u64 = 0x4069_0000_0000_0000;

/// The pattern of the orbit's radius: 5.
pub const RADIUS: u64 = 0x4014_0000_0000_0000;

/// The pattern, in 32 bits, of the vertical field of view in degrees: 45.
pub const FOVY: u32 = 0x4234_0000;

/// The pattern, in 32 bits, of the distance of the near plane: 0.1.
pub const ZNEAR: u32 = 0x3DCC_CCCD;

/// The pattern, in 32 bits, of the distance of the far plane: 100.
pub const ZFAR: u32 = 0x42C8_0000;

/// The pattern, in 32 bits, of the number zero.
pub const AXIS_ZERO: u32 = 0x0000_0000;

/// The pattern, in 32 bits, of the number one.
pub const AXIS_ONE: u32 = 0x3F80_0000;

/// Whether the pattern is that of no number.
pub open spec fn is_nan(bits: u64) -> bool {
    if bits >= SIGN {
        bits - SIGN > INFINITY
    } else {
        bits > INFINITY
    }
}

/// Whether the pattern is that of a number below zero.
pub open spec fn is_negative(bits: u64) -> bool {
    bits > SIGN && !is_nan(bits)
}

/// Whether the pattern is that of a number strictly between zero and pi.
pub open spec fn is_polar(bits: u64) -> bool {
    0 < bits < PI
}

/// Whether the pattern is that of a number from zero, included, to two pi,
/// excluded. Negative zero is zero.
pub open spec fn is_azimuth(bits: u64) -> bool {
    bits < TWO_PI || bits == SIGN
}

/// A polar angle brought into range: epsilon where it is zero, negative or
/// no number; the last number below pi where it is pi or more; itself
/// otherwise.
pub open spec fn clamp_polar(bits: u64) -> u64 {
    if bits == 0 || bits >= SIGN || is_nan(bits) {
        EPSILON
    } else if bits >= PI {
        (PI - 1) as u64
    } else {
        bits
    }
}

/// An azimuth brought into range: epsilon where it is negative or no number;
/// the last number below two pi where it is two pi or more; itself otherwise.
pub open spec fn clamp_azimuth(bits: u64) -> u64 {
    if is_negative(bits) || is_nan(bits) {
        EPSILON
    } else if bits == SIGN {
        bits
    } else if bits >= TWO_PI {
        (TWO_PI - 1) as u64
    } else {
        bits
    }
}

/// The two angles of the orbit.
#[derive(Clone, Copy, Debug, PartialEq, Eq, Structural)]
pub struct CameraState {
    /// The polar angle, measured from the axis that points up.
    pub theta: u64,
    /// The azimuth, measured round that axis.
    pub phi: u64,
}

impl CameraState {
    /// The polar angle lies strictly between zero and pi, the azimuth from
    /// zero up to two pi.
    pub open spec fn well_formed(&self) -> bool {
        is_polar(self.theta) && is_azimuth(self.phi)
    }
}

/// What the camera looks at and how it projects. None of it ever changes.
#[derive(Clone, Copy, Debug, PartialEq, Eq)]
pub struct CameraParameters {
    /// The distance of the eye from the target, in 64 bits.
    pub radius: u64,
    /// The point the camera looks at.
    pub target: [u32; 3],
    /// The direction that is up in the picture.
    pub up: [u32; 3],
    /// The vertical field of view in degrees.
    pub fovy: u32,
    /// The distance of the near plane.
    pub znear: u32,
    /// The distance of the far plane.
    pub zfar: u32,
}

impl CameraParameters {
    /// An orbit of radius 5 round the origin with the third axis up, seen
    /// through 45 degrees between the distances 0.1 and 100.
    pub open spec fn fixed() -> CameraParameters {
        CameraParameters {
            radius: RADIUS,
            target: [AXIS_ZERO, AXIS_ZERO, AXIS_ZERO],
            up: [AXIS_ZERO, AXIS_ZERO, AXIS_ONE],
            fovy: FOVY,
            znear: ZNEAR,
            zfar: ZFAR,
        }
    }
}

/// The extent of the drawable area that the aspect ratio is taken from: the
/// ratio is the height over the width.
#[derive(Clone, Copy, Debug, PartialEq, Eq, Structural)]
pub struct AspectState {
    pub width: u32,
    pub height: u32,
}

/// The camera's place on its orbit and the extent it projects for.
#[derive(Clone, Copy, Debug)]
pub struct Camera {
    state: CameraState,
    aspect: AspectState,
}

impl Camera {
    #[verifier::type_invariant]
    spec fn inv(&self) -> bool {
        self.state.well_formed()
    }

    /// The two angles.
    pub closed spec fn angles(&self) -> CameraState {
        self.state
    }

    /// The extent the aspect ratio is taken from.
    pub closed spec fn aspect(&self) -> AspectState {
        self.aspect
    }

    /// A camera at the polar angle pi / 3 and the azimuth pi / 6, with the
    /// aspect ratio one.
    pub fn new() -> (camera: Camera)
        ensures
            camera.angles() == (CameraState { theta: INITIAL_THETA, phi: INITIAL_PHI }),
            camera.angles().well_formed(),
            camera.aspect() == (AspectState { width: 1, height: 1 }),
    {
        Camera {
            state: CameraState { theta: INITIAL_THETA, phi: INITIAL_PHI },
            aspect: AspectState { width: 1, height: 1 },
        }
    }

    /// What the camera looks at and how it projects.
    pub fn parameters(&self) -> (parameters: CameraParameters)
        ensures
            parameters == CameraParameters::fixed(),
    {
        let target: [u32; 3] = [AXIS_ZERO, AXIS_ZERO, AXIS_ZERO];
        let up: [u32; 3] = [AXIS_ZERO, AXIS_ZERO, AXIS_ONE];
        assert(target =~= CameraParameters::fixed().target);
        assert(up =~= CameraParameters::fixed().up);
        CameraParameters { radius: RADIUS, target, up, fovy: FOVY, znear: ZNEAR, zfar: ZFAR }
    }

    /// The extent the aspect ratio is taken from.
    pub fn aspect_state(&self) -> (aspect: AspectState)
        ensures
            aspect == self.aspect(),
    {
        self.aspect
    }

    /// Takes the extent of the drawable area. The angles stay.
    pub fn resize(&mut self, width: u32, height: u32)
        ensures
            final(self).aspect() == (AspectState { width, height }),
            final(self).angles() == old(self).angles(),
    {
        proof {
            use_type_invariant(&*self);
        }
        self.aspect = AspectState { width, height };
    }

    /// The two angles, both in range.
    pub fn state(&self) -> (state: CameraState)
        ensures
            state == self.angles(),
            state.well_formed(),
    {
        proof {
            use_type_invariant(self);
        }
        self.state
    }

    /// Moves the camera to the given azimuth and polar angle, each brought
    /// into range first. Whatever the patterns are, the polar angle ends
    /// strictly between zero and pi and the azimuth from zero up to two pi.
    pub fn moving(&mut self, phi: u64, theta: u64)
        ensures
            final(self).angles().phi == clamp_azimuth(phi),
            final(self).angles().theta == clamp_polar(theta),
            final(self).angles().well_formed(),
            final(self).aspect() == old(self).aspect(),
    {
        self.state = CameraState { theta: polar_in_range(theta), phi: azimuth_in_range(phi) };
    }
}

/// Tells whether the pattern is that of no number.
pub fn not_a_number(bits: u64) -> (nan: bool)
    ensures
        nan == is_nan(bits),
{
    if bits >= SIGN {
        bits - SIGN > INFINITY
    } else {
        bits > INFINITY
    }
}

/// Brings a polar angle into range.
pub fn polar_in_range(bits: u64) -> (clamped: u64)
    ensures
        clamped == clamp_polar(bits),
        is_polar(clamped),
{
    if bits == 0 || bits >= SIGN || not_a_number(bits) {
        EPSILON
    } else if bits >= PI {
        PI - 1
    } else {
        bits
    }
}

/// Brings an azimuth into range.
pub fn azimuth_in_range(bits: u64) -> (clamped: u64)
    ensures
        clamped == clamp_azimuth(bits),
        is_azimuth(clamped),
{
    if not_a_number(bits) || bits > SIGN {
        EPSILON
    } else if bits == SIGN {
        bits
    } else if bits >= TWO_PI {
        TWO_PI - 1
    } else {
        bits
    }
}

/// An angle that is in range is left as it is, so bringing an angle into
/// range twice is the same as doing it once.
pub proof fn lemma_clamp_keeps_what_is_in_range(bits: u64)
    ensures
        is_polar(bits) ==> clamp_polar(bits) == bits,
        is_azimuth(bits) ==> clamp_azimuth(bits) == bits,
        clamp_polar(clamp_polar(bits)) == clamp_polar(bits),
        clamp_azimuth(clamp_azimuth(bits)) == clamp_azimuth(bits),
{
}

/// Whatever the pattern, the angle it is brought to is in range, is a
/// number, and is not negative.
pub proof fn lemma_clamp_is_in_range(bits: u64)
    ensures
        is_polar(clamp_polar(bits)),
        is_azimuth(clamp_azimuth(bits)),
        !is_nan(clamp_polar(bits)) && !is_negative(clamp_polar(bits)),
        !is_nan(clamp_azimuth(bits)) && !is_negative(clamp_azimuth(bits)),
{
}

} // verus!
