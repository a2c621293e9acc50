//! The camera pose and its uniform block.
//!
//! The pose is eye, target and up vectors with the perspective scalars
//! (aspect, field of view, near and far planes), all held as
//! single-precision bit patterns.  The host's camera controller mutates
//! the pose and derives the view-projection matrix from it each frame;
//! the matrix then travels through `CameraUniform` into the camera
//! uniform buffer.

use vstd::prelude::*;
use crate::bits::Vec3Bits;
use crate::mat4::{spec_identity_words, words_to_bytes, Mat4};

verus! {

/// A camera pose: eye, target and up vectors plus the perspective
/// scalars, all single-precision bit patterns.
#[derive(Clone, Copy, PartialEq, Eq, Structural, Debug)]
pub struct Camera {
    pub eye: Vec3Bits,
    pub target: Vec3Bits,
    pub up: Vec3Bits,
    pub aspect: u32,
    pub fovy: u32,
    pub znear: u32,
    pub zfar: u32,
}

impl Camera {
    /// Builds a pose from its components.
    pub fn new(
        eye: Vec3Bits,
        target: Vec3Bits,
        up: Vec3Bits,
        aspect: u32,
        fovy: u32,
        znear: u32,
        zfar: u32,
    ) -> (c: Camera)
        ensures
            c == (Camera { eye, target, up, aspect, fovy, znear, zfar }),
    {
        Camera { eye, target, up, aspect, fovy, znear, zfar }
    }

    /// Stores a new aspect ratio, as computed by the host from the
    /// window's pixel dimensions.
    pub fn set_aspect(&mut self, aspect: u32)
        ensures
            *final(self) == (Camera { aspect, ..*old(self) }),
    {
        self.aspect = aspect;
    }
}

/// The camera's uniform block: one view-projection matrix.
pub struct CameraUniform {
    pub view_proj: Mat4,
}

impl CameraUniform {
    /// A fresh camera uniform holds the identity matrix.
    pub fn new() -> (u: CameraUniform)
        ensures
            u.view_proj.wf(),
            u.view_proj.words@ == spec_identity_words(),
    {
        CameraUniform { view_proj: Mat4::identity() }
    }

    /// Replaces the stored view-projection matrix.
    pub fn update_view_proj(&mut self, view_proj: Mat4)
        requires
            view_proj.wf(),
        ensures
            final(self).view_proj == view_proj,
    {
        self.view_proj = view_proj;
    }

    /// Encodes the matrix for upload to the camera uniform buffer.
    pub fn to_bytes(&self) -> (b: Vec<u8>)
        requires
            self.view_proj.wf(),
        ensures
            b@ == words_to_bytes(self.view_proj.words@),
            b@.len() == 64,
    {
        self.view_proj.to_bytes()
    }
}

} // verus!
