//! The three matrices of the 3D pass, described in whole numbers.
//!
//! The library fixes what each matrix is made from; the host turns the
//! description into numbers for the device.

use vstd::prelude::*;

use crate::gpu::ViewportRect;

verus! {

/// Vertical field of view of the camera, in degrees.
pub const FIELD_OF_VIEW_DEGREES: u32 = 45;

/// Distance of the near clipping plane, in tenths of a unit.
pub const NEAR_PLANE_TENTHS: u32 = 1;

/// Distance of the far clipping plane, in tenths of a unit.
pub const FAR_PLANE_TENTHS: u32 = 1000;

/// Turning rate about the vertical axis, in tenths of the rotation.
pub const YAW_RATE_TENTHS: u8 = 10;

/// Turning rate about the horizontal axis, in tenths of the rotation.
pub const PITCH_RATE_TENTHS: u8 = 7;

/// A point or a direction in whole units.
#[derive(Clone, Copy, Debug, PartialEq, Eq, Structural)]
pub struct Point3 {
    pub x: i32,
    pub y: i32,
    pub z: i32,
}

/// A coordinate axis.
#[derive(Clone, Copy, Debug, PartialEq, Eq, Structural)]
pub enum Axis {
    X,
    Y,
    Z,
}

/// A perspective projection. The aspect ratio is `aspect_width / aspect_height`.
#[derive(Clone, Copy, Debug, PartialEq, Eq, Structural)]
pub struct Perspective {
    pub fov_degrees: u32,
    pub aspect_width: i32,
    pub aspect_height: i32,
    pub near_tenths: u32,
    pub far_tenths: u32,
}

/// A camera placed at `eye` that looks at `target`, with `up` pointing upwards.
#[derive(Clone, Copy, Debug, PartialEq, Eq, Structural)]
pub struct LookAt {
    pub eye: Point3,
    pub target: Point3,
    pub up: Point3,
}

/// A turn about one axis. With the rotation in hundredths of a radian, the
/// angle of the turn is `rotation * rate_tenths` thousandths of a radian.
#[derive(Clone, Copy, Debug, PartialEq, Eq, Structural)]
pub struct Turn {
    pub axis: Axis,
    pub rotation: u64,
    pub rate_tenths: u8,
}

/// The placement of the model: `first` is applied to the identity, then
/// `second` to the result.
#[derive(Clone, Copy, Debug, PartialEq, Eq, Structural)]
pub struct Spin {
    pub first: Turn,
    pub second: Turn,
}

/// A matrix that the vertex stage reads.
#[derive(Clone, Copy, Debug, PartialEq, Eq, Structural)]
pub enum Matrix {
    Projection(Perspective),
    View(LookAt),
    Model(Spin),
}

impl Matrix {
    /// The name under which the vertex stage declares the matrix.
    pub open spec fn name(self) -> Seq<char> {
        match self {
            Matrix::Projection(_) => "u_projection"@,
            Matrix::View(_) => "u_view"@,
            Matrix::Model(_) => "u_model"@,
        }
    }

    /// The name of the uniform that the matrix is uploaded to.
    pub fn uniform_name(&self) -> (name: &'static str)
        ensures
            name@ == self.name(),
    {
        match self {
            Matrix::Projection(_) => "u_projection",
            Matrix::View(_) => "u_view",
            Matrix::Model(_) => "u_model",
        }
    }
}

impl Turn {
    /// The angle of the turn, in thousandths of a radian.
    pub open spec fn milliradians(self) -> int {
        self.rotation * self.rate_tenths
    }
}

impl Perspective {
    /// The projection for a rectangle: its aspect ratio, the fixed field of
    /// view and the fixed clipping planes.
    pub open spec fn of(rect: ViewportRect) -> Perspective {
        Perspective {
            fov_degrees: FIELD_OF_VIEW_DEGREES,
            aspect_width: rect.width,
            aspect_height: rect.height,
            near_tenths: NEAR_PLANE_TENTHS,
            far_tenths: FAR_PLANE_TENTHS,
        }
    }

    /// Builds the projection for a rectangle. A rectangle without height has
    /// no aspect ratio, so none can be passed.
    pub fn new(rect: ViewportRect) -> (p: Perspective)
        requires
            rect.is_drawable(),
        ensures
            p == Perspective::of(rect),
            p.aspect_height > 0,
    {
        Perspective {
            fov_degrees: FIELD_OF_VIEW_DEGREES,
            aspect_width: rect.width,
            aspect_height: rect.height,
            near_tenths: NEAR_PLANE_TENTHS,
            far_tenths: FAR_PLANE_TENTHS,
        }
    }
}

impl LookAt {
    /// The fixed camera: at (2, 2, 2), looking at the origin, the Y axis up.
    pub open spec fn fixed() -> LookAt {
        LookAt {
            eye: Point3 { x: 2, y: 2, z: 2 },
            target: Point3 { x: 0, y: 0, z: 0 },
            up: Point3 { x: 0, y: 1, z: 0 },
        }
    }

    /// Builds the fixed camera.
    pub fn new() -> (v: LookAt)
        ensures
            v == LookAt::fixed(),
    {
        LookAt {
            eye: Point3 { x: 2, y: 2, z: 2 },
            target: Point3 { x: 0, y: 0, z: 0 },
            up: Point3 { x: 0, y: 1, z: 0 },
        }
    }
}

impl Spin {
    /// The placement for a rotation: a turn about Y at the full rate, then a
    /// turn about X at seven tenths of it.
    pub open spec fn of(rotation: u64) -> Spin {
        Spin {
            first: Turn { axis: Axis::Y, rotation, rate_tenths: YAW_RATE_TENTHS },
            second: Turn { axis: Axis::X, rotation, rate_tenths: PITCH_RATE_TENTHS },
        }
    }

    /// Builds the placement for a rotation given in hundredths of a radian.
    pub fn new(rotation: u64) -> (m: Spin)
        ensures
            m == Spin::of(rotation),
    {
        Spin {
            first: Turn { axis: Axis::Y, rotation, rate_tenths: YAW_RATE_TENTHS },
            second: Turn { axis: Axis::X, rotation, rate_tenths: PITCH_RATE_TENTHS },
        }
    }
}

/// The model turns about Y first and about X second; the first angle is the
/// rotation itself and the second is seven tenths of the first.
pub proof fn lemma_spin_composition(rotation: u64)
    ensures
        Spin::of(rotation).first.axis == Axis::Y,
        Spin::of(rotation).second.axis == Axis::X,
        Spin::of(rotation).first.milliradians() == 10 * rotation,
        10 * Spin::of(rotation).second.milliradians() == 7 * Spin::of(
            rotation,
        ).first.milliradians(),
{
}

} // verus!
