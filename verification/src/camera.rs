//! Camera state: the two camera variants, the parameters a camera accepts and
//! the floor under every dolly.
//!
//! A camera's matrices, its orbit and its pan are arithmetic and belong to the
//! host. What is settled here is which parameters of a projection are
//! accepted, what a camera holds when it is created, and how near to its
//! target a dolly may bring it.

use vstd::prelude::*;
use crate::scalar::Scalar;
use crate::vector::{Quat, Vec3};

verus! {

/// The encoding of `0.1`, the least radius of an orbital camera after a dolly.
pub const MIN_RADIUS_BITS: u32 = 0x3dcc_cccd;

/// The encoding of `1`, the least eye distance and the least orthographic
/// scale of a look-at camera after a dolly.
pub const MIN_EXTENT_BITS: u32 = 0x3f80_0000;

/// The encoding of `0.1`: an orbital camera pans by its radius times this
/// for one unit of pan.
pub const ORBITAL_PAN_SCALE_BITS: u32 = 0x3dcc_cccd;

/// The encoding of `0.001`: a look-at camera pans by its extent times this
/// for one unit of pan.
pub const LOOK_AT_PAN_SCALE_BITS: u32 = 0x3a83_126f;

/// The encoding of 45 degrees in radians, the default vertical field of view.
pub const DEFAULT_FOV_BITS: u32 = 0x3f49_0fdb;

/// The encoding of `0.1`, the default near plane.
pub const DEFAULT_NEAR_BITS: u32 = 0x3dcc_cccd;

/// The encoding of `100`, the default far plane.
pub const DEFAULT_FAR_BITS: u32 = 0x42c8_0000;

/// The encoding of `10`, the default radius, eye distance and orthographic
/// scale.
pub const DEFAULT_EXTENT_BITS: u32 = 0x4120_0000;

/// How a camera projects the scene onto the screen.
#[derive(Clone, Copy, Debug, PartialEq, Eq, Structural)]
pub enum ProjectionType {
    Perspective,
    Orthographic,
}

/// Why a set of camera parameters was refused.
#[derive(Clone, Copy, Debug, PartialEq, Eq, Structural)]
pub enum CameraError {
    /// The near plane is not in front of the eye: `near > 0` does not hold.
    NearNotPositive,
    /// The far plane is not beyond the near plane: `far > near` does not hold.
    FarNotBeyondNear,
    /// The field of view is infinite or NaN.
    FovNotFinite,
    /// The aspect ratio is infinite or NaN.
    AspectNotFinite,
}

impl CameraError {
    /// A sentence that describes the error.
    pub fn message(&self) -> (text: &'static str)
        ensures
            text@ == match *self {
                CameraError::NearNotPositive => "near plane must be greater than zero"@,
                CameraError::FarNotBeyondNear => "far plane must be greater than the near plane"@,
                CameraError::FovNotFinite => "field of view must be finite"@,
                CameraError::AspectNotFinite => "aspect ratio must be finite"@,
            },
    {
        match self {
            CameraError::NearNotPositive => "near plane must be greater than zero",
            CameraError::FarNotBeyondNear => "far plane must be greater than the near plane",
            CameraError::FovNotFinite => "field of view must be finite",
            CameraError::AspectNotFinite => "aspect ratio must be finite",
        }
    }
}

/// The first reason to refuse the parameters of a projection, if there is
/// one. The near plane is examined first, then the far plane, the field of
/// view and the aspect ratio.
pub open spec fn projection_fault(fov: Scalar, aspect: Scalar, near: Scalar, far: Scalar) -> Option<
    CameraError,
> {
    if !near.spec_gt(Scalar::spec_zero()) {
        Some(CameraError::NearNotPositive)
    } else if !far.spec_gt(near) {
        Some(CameraError::FarNotBeyondNear)
    } else if !fov.spec_is_finite() {
        Some(CameraError::FovNotFinite)
    } else if !aspect.spec_is_finite() {
        Some(CameraError::AspectNotFinite)
    } else {
        None
    }
}

/// The parameters of a projection are accepted: `near > 0`, `far > near`, and
/// both the field of view and the aspect ratio are finite. Nothing more is
/// asked of them: an aspect ratio of zero is finite and passes.
pub open spec fn valid_projection(fov: Scalar, aspect: Scalar, near: Scalar, far: Scalar) -> bool {
    &&& near.spec_gt(Scalar::spec_zero())
    &&& far.spec_gt(near)
    &&& fov.spec_is_finite()
    &&& aspect.spec_is_finite()
}

/// Accepts the parameters of a projection exactly when they are valid, and
/// names the first fault otherwise.
pub fn check_projection(fov: Scalar, aspect: Scalar, near: Scalar, far: Scalar) -> (r: Result<
    (),
    CameraError,
>)
    ensures
        r is Ok <==> valid_projection(fov, aspect, near, far),
        r is Ok <==> projection_fault(fov, aspect, near, far) is None,
        r is Err ==> projection_fault(fov, aspect, near, far) == Some(r->Err_0),
{
    if !near.gt(Scalar::zero()) {
        return Err(CameraError::NearNotPositive);
    }
    if !far.gt(near) {
        return Err(CameraError::FarNotBeyondNear);
    }
    if !fov.is_finite() {
        return Err(CameraError::FovNotFinite);
    }
    if !aspect.is_finite() {
        return Err(CameraError::AspectNotFinite);
    }
    Ok(())
}

/// A camera that circles a centre: the eye sits at
/// `center + rotation · (0, 0, radius)` and looks at the centre.
#[derive(Clone, Copy, Debug, PartialEq, Eq, Structural)]
pub struct OrbitalCamera {
    pub center: Vec3,
    pub rotation: Quat,
    pub radius: Scalar,
    pub fov: Scalar,
    pub aspect: Scalar,
    pub near: Scalar,
    pub far: Scalar,
}

impl Default for OrbitalCamera {
    /// The camera at radius 10 around the origin, not rotated, with a field of
    /// view of 45 degrees, a square image and the planes at 0.1 and 100.
    fn default() -> (camera: OrbitalCamera)
        ensures
            camera == OrbitalCamera::spec_default(),
            camera.wf(),
    {
        OrbitalCamera {
            center: Vec3::origin(),
            rotation: Quat::identity(),
            radius: Scalar::from_bits(DEFAULT_EXTENT_BITS),
            fov: Scalar::from_bits(DEFAULT_FOV_BITS),
            aspect: Scalar::one(),
            near: Scalar::from_bits(DEFAULT_NEAR_BITS),
            far: Scalar::from_bits(DEFAULT_FAR_BITS),
        }
    }
}

impl OrbitalCamera {
    /// The least radius that a dolly leaves.
    pub open spec fn spec_min_radius() -> Scalar {
        Scalar { bits: MIN_RADIUS_BITS }
    }

    /// The least radius that a dolly leaves: 0.1.
    #[verifier::when_used_as_spec(spec_min_radius)]
    pub fn min_radius() -> (floor: Scalar)
        ensures
            floor == OrbitalCamera::spec_min_radius(),
    {
        Scalar::from_bits(MIN_RADIUS_BITS)
    }

    /// The share of the radius by which one unit of pan moves the centre, so
    /// that a pan covers the same stretch of the screen at every radius.
    pub fn pan_scale() -> (scale: Scalar)
        ensures
            scale == (Scalar { bits: ORBITAL_PAN_SCALE_BITS }),
    {
        Scalar::from_bits(ORBITAL_PAN_SCALE_BITS)
    }

    /// The default camera.
    pub open spec fn spec_default() -> OrbitalCamera {
        OrbitalCamera {
            center: Vec3::spec_origin(),
            rotation: Quat::spec_identity(),
            radius: Scalar { bits: DEFAULT_EXTENT_BITS },
            fov: Scalar { bits: DEFAULT_FOV_BITS },
            aspect: Scalar::spec_one(),
            near: Scalar { bits: DEFAULT_NEAR_BITS },
            far: Scalar { bits: DEFAULT_FAR_BITS },
        }
    }

    /// The eye is off the centre and the projection's parameters are
    /// accepted.
    pub open spec fn wf(&self) -> bool {
        &&& self.radius.spec_gt(Scalar::spec_zero())
        &&& valid_projection(self.fov, self.aspect, self.near, self.far)
    }

    /// The default camera with the given projection, if the projection is
    /// valid; the first fault of the parameters otherwise.
    pub fn new(fov: Scalar, aspect: Scalar, near: Scalar, far: Scalar) -> (r: Result<
        OrbitalCamera,
        CameraError,
    >)
        ensures
            match projection_fault(fov, aspect, near, far) {
                Some(fault) => r == Err::<OrbitalCamera, CameraError>(fault),
                None => r == Ok::<OrbitalCamera, CameraError>(
                    OrbitalCamera { fov, aspect, near, far, ..OrbitalCamera::spec_default() },
                ) && r->Ok_0.wf(),
            },
    {
        match check_projection(fov, aspect, near, far) {
            Err(fault) => Err(fault),
            Ok(()) => Ok(
                OrbitalCamera {
                    center: Vec3::origin(),
                    rotation: Quat::identity(),
                    radius: Scalar::from_bits(DEFAULT_EXTENT_BITS),
                    fov,
                    aspect,
                    near,
                    far,
                },
            ),
        }
    }

    /// The point the camera looks at.
    pub fn target(&self) -> (target: Vec3)
        ensures
            target == self.center,
    {
        self.center
    }

    pub fn fov(&self) -> (fov: Scalar)
        ensures
            fov == self.fov,
    {
        self.fov
    }

    pub fn near(&self) -> (near: Scalar)
        ensures
            near == self.near,
    {
        self.near
    }

    pub fn far(&self) -> (far: Scalar)
        ensures
            far == self.far,
    {
        self.far
    }

    /// Sets the aspect ratio, and nothing else, if the ratio is finite. A
    /// ratio that is infinite or NaN is refused and the camera stays as it
    /// is.
    pub fn set_aspect(&mut self, aspect: Scalar) -> (r: Result<(), CameraError>)
        ensures
            aspect.spec_is_finite() ==> r is Ok && *final(self) == (OrbitalCamera {
                aspect,
                ..*old(self)
            }),
            !aspect.spec_is_finite() ==> r == Err::<(), CameraError>(CameraError::AspectNotFinite)
                && *final(self) == *old(self),
            old(self).wf() ==> final(self).wf(),
    {
        if !aspect.is_finite() {
            return Err(CameraError::AspectNotFinite);
        }
        self.aspect = aspect;
        Ok(())
    }

    /// Checks the camera's projection as it is now: ok exactly when it is
    /// valid, the first fault otherwise.
    pub fn validate(&self) -> (r: Result<(), CameraError>)
        ensures
            r is Ok <==> valid_projection(self.fov, self.aspect, self.near, self.far),
            r is Err ==> projection_fault(self.fov, self.aspect, self.near, self.far) == Some(
                r->Err_0,
            ),
    {
        check_projection(self.fov, self.aspect, self.near, self.far)
    }

    /// Pans: moves the centre, and with it the eye, to a new place. The
    /// rotation and the radius stay as they are, so the eye keeps its offset
    /// from the centre.
    pub fn pan_to(&mut self, center: Vec3)
        ensures
            *final(self) == (OrbitalCamera { center, ..*old(self) }),
            old(self).wf() ==> final(self).wf(),
    {
        self.center = center;
    }

    /// Orbits: turns the camera about its centre. The centre and the radius
    /// stay as they are.
    pub fn orbit_to(&mut self, rotation: Quat)
        ensures
            *final(self) == (OrbitalCamera { rotation, ..*old(self) }),
            old(self).wf() ==> final(self).wf(),
    {
        self.rotation = rotation;
    }

    /// Aims the camera anew: at `center`, turned by `rotation`, from the
    /// distance `radius`. The projection stays as it is.
    pub fn aim(&mut self, center: Vec3, rotation: Quat, radius: Scalar)
        ensures
            *final(self) == (OrbitalCamera { center, rotation, radius, ..*old(self) }),
            old(self).wf() && radius.spec_gt(Scalar::spec_zero()) ==> final(self).wf(),
    {
        self.center = center;
        self.rotation = rotation;
        self.radius = radius;
    }

    /// The camera after a dolly to the requested radius.
    pub open spec fn spec_dolly_to(self, requested: Scalar) -> OrbitalCamera {
        OrbitalCamera { radius: requested.spec_max(OrbitalCamera::spec_min_radius()), ..self }
    }

    /// Moves the eye to the requested radius, but no nearer to the centre
    /// than the least radius; a request that is NaN moves it to the least
    /// radius. Nothing else changes.
    pub fn dolly_to(&mut self, requested: Scalar)
        ensures
            *final(self) == old(self).spec_dolly_to(requested),
            final(self).radius.spec_ge(OrbitalCamera::spec_min_radius()),
            requested.spec_ge(OrbitalCamera::spec_min_radius()) ==> final(self).radius == requested,
            valid_projection(old(self).fov, old(self).aspect, old(self).near, old(self).far)
                ==> final(self).wf(),
    {
        self.radius = requested.max(OrbitalCamera::min_radius());
    }
}

/// A camera given by the eye's position, the point it looks at and an up
/// direction.
#[derive(Clone, Copy, Debug, PartialEq, Eq, Structural)]
pub struct LookAtCamera {
    pub position: Vec3,
    pub target: Vec3,
    pub up: Vec3,
    pub projection_type: ProjectionType,
    /// The vertical field of view, used by the perspective projection.
    pub fov: Scalar,
    /// The height of the view volume, used by the orthographic projection.
    pub ortho_scale: Scalar,
    pub aspect: Scalar,
    pub near: Scalar,
    pub far: Scalar,
}

impl Default for LookAtCamera {
    /// The perspective camera at `(0, 0, 10)` that looks at the origin with
    /// `+Y` up, with a field of view of 45 degrees, a square image and the
    /// planes at 0.1 and 100.
    fn default() -> (camera: LookAtCamera)
        ensures
            camera == LookAtCamera::spec_default(),
            camera.wf(),
    {
        LookAtCamera {
            position: Vec3::new(
                Scalar::zero(),
                Scalar::zero(),
                Scalar::from_bits(DEFAULT_EXTENT_BITS),
            ),
            target: Vec3::origin(),
            up: Vec3::unit_y(),
            projection_type: ProjectionType::Perspective,
            fov: Scalar::from_bits(DEFAULT_FOV_BITS),
            ortho_scale: Scalar::from_bits(DEFAULT_EXTENT_BITS),
            aspect: Scalar::one(),
            near: Scalar::from_bits(DEFAULT_NEAR_BITS),
            far: Scalar::from_bits(DEFAULT_FAR_BITS),
        }
    }
}

impl LookAtCamera {
    /// The least eye distance and the least orthographic scale that a dolly
    /// leaves.
    pub open spec fn spec_min_extent() -> Scalar {
        Scalar { bits: MIN_EXTENT_BITS }
    }

    /// The least eye distance and orthographic scale that a dolly leaves: 1.
    #[verifier::when_used_as_spec(spec_min_extent)]
    pub fn min_extent() -> (floor: Scalar)
        ensures
            floor == LookAtCamera::spec_min_extent(),
    {
        Scalar::from_bits(MIN_EXTENT_BITS)
    }

    /// The share of the extent by which one unit of pan moves the eye and
    /// the target, so that a pan covers the same stretch of the screen at
    /// every zoom.
    pub fn pan_scale() -> (scale: Scalar)
        ensures
            scale == (Scalar { bits: LOOK_AT_PAN_SCALE_BITS }),
    {
        Scalar::from_bits(LOOK_AT_PAN_SCALE_BITS)
    }

    /// The default camera.
    pub open spec fn spec_default() -> LookAtCamera {
        LookAtCamera {
            position: Vec3 {
                x: Scalar::spec_zero(),
                y: Scalar::spec_zero(),
                z: Scalar { bits: DEFAULT_EXTENT_BITS },
            },
            target: Vec3::spec_origin(),
            up: Vec3::spec_unit_y(),
            projection_type: ProjectionType::Perspective,
            fov: Scalar { bits: DEFAULT_FOV_BITS },
            ortho_scale: Scalar { bits: DEFAULT_EXTENT_BITS },
            aspect: Scalar::spec_one(),
            near: Scalar { bits: DEFAULT_NEAR_BITS },
            far: Scalar { bits: DEFAULT_FAR_BITS },
        }
    }

    /// The projection's parameters are accepted.
    pub open spec fn wf(&self) -> bool {
        valid_projection(self.fov, self.aspect, self.near, self.far)
    }

    /// The default camera with the given kind of projection and parameters,
    /// if the parameters are valid; their first fault otherwise.
    pub fn new(
        projection_type: ProjectionType,
        fov: Scalar,
        aspect: Scalar,
        near: Scalar,
        far: Scalar,
    ) -> (r: Result<LookAtCamera, CameraError>)
        ensures
            match projection_fault(fov, aspect, near, far) {
                Some(fault) => r == Err::<LookAtCamera, CameraError>(fault),
                None => r == Ok::<LookAtCamera, CameraError>(
                    LookAtCamera {
                        projection_type,
                        fov,
                        aspect,
                        near,
                        far,
                        ..LookAtCamera::spec_default()
                    },
                ) && r->Ok_0.wf(),
            },
    {
        match check_projection(fov, aspect, near, far) {
            Err(fault) => Err(fault),
            Ok(()) => {
                let base = LookAtCamera::default();
                Ok(
                    LookAtCamera {
                        position: base.position,
                        target: base.target,
                        up: base.up,
                        projection_type,
                        fov,
                        ortho_scale: base.ortho_scale,
                        aspect,
                        near,
                        far,
                    },
                )
            },
        }
    }

    pub fn position(&self) -> (position: Vec3)
        ensures
            position == self.position,
    {
        self.position
    }

    pub fn target(&self) -> (target: Vec3)
        ensures
            target == self.target,
    {
        self.target
    }

    pub fn up(&self) -> (up: Vec3)
        ensures
            up == self.up,
    {
        self.up
    }

    pub fn fov(&self) -> (fov: Scalar)
        ensures
            fov == self.fov,
    {
        self.fov
    }

    pub fn near(&self) -> (near: Scalar)
        ensures
            near == self.near,
    {
        self.near
    }

    pub fn far(&self) -> (far: Scalar)
        ensures
            far == self.far,
    {
        self.far
    }

    /// Sets the aspect ratio, and nothing else, if the ratio is finite. A
    /// ratio that is infinite or NaN is refused and the camera stays as it
    /// is.
    pub fn set_aspect(&mut self, aspect: Scalar) -> (r: Result<(), CameraError>)
        ensures
            aspect.spec_is_finite() ==> r is Ok && *final(self) == (LookAtCamera {
                aspect,
                ..*old(self)
            }),
            !aspect.spec_is_finite() ==> r == Err::<(), CameraError>(CameraError::AspectNotFinite)
                && *final(self) == *old(self),
            old(self).wf() ==> final(self).wf(),
    {
        if !aspect.is_finite() {
            return Err(CameraError::AspectNotFinite);
        }
        self.aspect = aspect;
        Ok(())
    }

    /// Places the eye at `eye`, looking at `target`, with `up` as the up
    /// direction. Nothing else changes.
    pub fn look_at(&mut self, eye: Vec3, target: Vec3, up: Vec3)
        ensures
            *final(self) == (LookAtCamera { position: eye, target, up, ..*old(self) }),
    {
        self.position = eye;
        self.target = target;
        self.up = up;
    }

    /// Checks the camera's projection as it is now: ok exactly when it is
    /// valid, the first fault otherwise.
    pub fn validate(&self) -> (r: Result<(), CameraError>)
        ensures
            r is Ok <==> valid_projection(self.fov, self.aspect, self.near, self.far),
            r is Err ==> projection_fault(self.fov, self.aspect, self.near, self.far) == Some(
                r->Err_0,
            ),
    {
        check_projection(self.fov, self.aspect, self.near, self.far)
    }

    /// The length that sets the pace of pan and dolly: under a perspective
    /// projection the distance from the eye to the target, which the caller
    /// supplies, under an orthographic one the scale of the view volume.
    pub fn extent(&self, eye_distance: Scalar) -> (extent: Scalar)
        ensures
            extent == match self.projection_type {
                ProjectionType::Perspective => eye_distance,
                ProjectionType::Orthographic => self.ortho_scale,
            },
    {
        match self.projection_type {
            ProjectionType::Perspective => eye_distance,
            ProjectionType::Orthographic => self.ortho_scale,
        }
    }

    /// The camera after a dolly to the requested extent: an orthographic
    /// camera takes the extent as its scale, a perspective camera stays as it
    /// is until the eye has been moved.
    pub open spec fn spec_dolly_to(self, requested: Scalar) -> LookAtCamera {
        match self.projection_type {
            ProjectionType::Perspective => self,
            ProjectionType::Orthographic => LookAtCamera {
                ortho_scale: requested.spec_max(LookAtCamera::spec_min_extent()),
                ..self
            },
        }
    }

    /// Dollies to the requested extent, but not below the least extent; a
    /// request that is NaN counts as the least extent.
    ///
    /// An orthographic camera takes the bounded extent as its scale and the
    /// result is `None`. A perspective camera is left unchanged and the result
    /// is the distance from the target at which the eye is to be placed along
    /// the line of sight.
    pub fn dolly_to(&mut self, requested: Scalar) -> (eye_distance: Option<Scalar>)
        ensures
            *final(self) == old(self).spec_dolly_to(requested),
            eye_distance == match old(self).projection_type {
                ProjectionType::Perspective => Some(
                    requested.spec_max(LookAtCamera::spec_min_extent()),
                ),
                ProjectionType::Orthographic => None,
            },
            old(self).projection_type == ProjectionType::Orthographic
                ==> final(self).ortho_scale.spec_ge(LookAtCamera::spec_min_extent()),
            eye_distance is Some ==> eye_distance->0.spec_ge(LookAtCamera::spec_min_extent()),
            old(self).wf() ==> final(self).wf(),
    {
        let bounded = requested.max(LookAtCamera::min_extent());
        match self.projection_type {
            ProjectionType::Perspective => Some(bounded),
            ProjectionType::Orthographic => {
                self.ortho_scale = bounded;
                None
            },
        }
    }
}

/// However many dollies an orbital camera makes, and whatever they request,
/// its radius is at or above the least radius after each of them.
pub proof fn lemma_dolly_keeps_floor(camera: OrbitalCamera, requests: Seq<Scalar>)
    requires
        requests.len() > 0,
    ensures
        after_dollies(camera, requests).radius.spec_ge(OrbitalCamera::spec_min_radius()),
        !after_dollies(camera, requests).radius.spec_is_nan(),
        after_dollies(camera, requests).radius.spec_gt(Scalar::spec_zero()),
{
    crate::scalar::lemma_max_bounds(requests.last(), OrbitalCamera::spec_min_radius());
}

/// The camera after one dolly for each request, in order.
pub open spec fn after_dollies(camera: OrbitalCamera, requests: Seq<Scalar>) -> OrbitalCamera
    decreases requests.len(),
{
    if requests.len() == 0 {
        camera
    } else {
        after_dollies(camera, requests.drop_last()).spec_dolly_to(requests.last())
    }
}

/// However many dollies an orthographic look-at camera makes, and whatever
/// they request, its scale is at or above the least extent after each of them.
pub proof fn lemma_zoom_keeps_floor(camera: LookAtCamera, requests: Seq<Scalar>)
    requires
        camera.projection_type == ProjectionType::Orthographic,
    ensures
        after_zooms(camera, requests).projection_type == ProjectionType::Orthographic,
        requests.len() > 0 ==> after_zooms(camera, requests).ortho_scale.spec_ge(
            LookAtCamera::spec_min_extent(),
        ),
    decreases requests.len(),
{
    if requests.len() > 0 {
        crate::scalar::lemma_max_bounds(requests.last(), LookAtCamera::spec_min_extent());
        lemma_zoom_keeps_floor(camera, requests.drop_last());
    }
}

/// The look-at camera after one dolly for each request, in order.
pub open spec fn after_zooms(camera: LookAtCamera, requests: Seq<Scalar>) -> LookAtCamera
    decreases requests.len(),
{
    if requests.len() == 0 {
        camera
    } else {
        after_zooms(camera, requests.drop_last()).spec_dolly_to(requests.last())
    }
}

} // verus!
