//! The shader's uniforms, and the record of what the device holds of them.

use crate::float::{float_eq, is_nan, same_number, ONE};
use crate::transformation::Transformation;
use vstd::prelude::*;

verus! {

/// The three global parameters of the quad shader.
#[derive(Clone, Copy, Debug, PartialEq, Eq, Structural)]
pub enum Uniform {
    /// The transformation matrix.
    Transform,
    /// The scale factor.
    Scale,
    /// The height of the target surface.
    ScreenHeight,
}

impl Uniform {
    /// The name under which the shader declares the uniform.
    pub fn name(self) -> (name: &'static str)
        ensures
            name@ == (match self {
                Uniform::Transform => "u_Transform"@,
                Uniform::Scale => "u_Scale"@,
                Uniform::ScreenHeight => "u_ScreenHeight"@,
            }),
    {
        match self {
            Uniform::Transform => "u_Transform",
            Uniform::Scale => "u_Scale",
            Uniform::ScreenHeight => "u_ScreenHeight",
        }
    }
}

/// A value for each uniform.
#[derive(Clone, Copy, Debug, PartialEq, Eq)]
pub struct Uniforms {
    /// The transformation matrix.
    pub transform: Transformation,
    /// The scale factor, as the bits of a single-precision number.
    pub scale: u32,
    /// The height of the target surface in pixels.
    pub target_height: u32,
}

/// The uniforms that have to be uploaded before a frame is drawn: for each
/// one either the value to upload or nothing.
#[derive(Clone, Copy, Debug, PartialEq, Eq)]
pub struct UniformChanges {
    /// The matrix to upload, if any.
    pub transform: Option<Transformation>,
    /// The scale factor to upload, if any.
    pub scale: Option<u32>,
    /// The target height to upload, if any.
    pub target_height: Option<u32>,
}

impl UniformChanges {
    /// Nothing to upload.
    pub open spec fn none() -> UniformChanges {
        UniformChanges { transform: None, scale: None, target_height: None }
    }
}

impl Uniforms {
    /// What a freshly set up device holds: the identity matrix, a scale of
    /// one and a target height of zero.
    pub open spec fn initial() -> Uniforms {
        Uniforms { transform: Transformation::spec_identity(), scale: ONE, target_height: 0 }
    }

    /// The uploads needed to draw with `wanted` on a device that holds
    /// `self`: each field on its own, and only where the wanted value is not
    /// equal to the held one. Numbers are compared as numbers, without any
    /// tolerance.
    pub open spec fn changes_to(self, wanted: Uniforms) -> UniformChanges {
        UniformChanges {
            transform: if wanted.transform.same(self.transform) {
                None
            } else {
                Some(wanted.transform)
            },
            scale: if same_number(wanted.scale, self.scale) {
                None
            } else {
                Some(wanted.scale)
            },
            target_height: if wanted.target_height == self.target_height {
                None
            } else {
                Some(wanted.target_height)
            },
        }
    }

    /// What the device holds once `changes` have been uploaded.
    pub open spec fn with(self, changes: UniformChanges) -> Uniforms {
        Uniforms {
            transform: match changes.transform {
                Some(transform) => transform,
                None => self.transform,
            },
            scale: match changes.scale {
                Some(scale) => scale,
                None => self.scale,
            },
            target_height: match changes.target_height {
                Some(target_height) => target_height,
                None => self.target_height,
            },
        }
    }

    /// The values of a freshly set up device.
    pub fn new() -> (uniforms: Uniforms)
        ensures
            uniforms == Uniforms::initial(),
    {
        Uniforms { transform: Transformation::identity(), scale: ONE, target_height: 0 }
    }

    /// Brings the record up to a frame's values and returns what has to be
    /// uploaded for it: the fields that differ from the record, and no
    /// others. Fields that are equal keep the recorded value.
    pub fn update(&mut self, wanted: Uniforms) -> (changes: UniformChanges)
        ensures
            changes == old(self).changes_to(wanted),
            *final(self) == old(self).with(changes),
    {
        let mut changes = UniformChanges { transform: None, scale: None, target_height: None };
        if !wanted.transform.equals(&self.transform) {
            changes.transform = Some(wanted.transform);
            self.transform = wanted.transform;
        }
        if !float_eq(wanted.scale, self.scale) {
            changes.scale = Some(wanted.scale);
            self.scale = wanted.scale;
        }
        if wanted.target_height != self.target_height {
            changes.target_height = Some(wanted.target_height);
            self.target_height = wanted.target_height;
        }
        changes
    }
}

/// Drawing a second frame with the values of the first uploads nothing,
/// provided that the matrix and the scale hold no NaN (a NaN differs from
/// itself, so it is uploaded every time).
pub proof fn lemma_repeated_frame_uploads_nothing(held: Uniforms, wanted: Uniforms)
    requires
        !wanted.transform.has_nan(),
        !is_nan(wanted.scale),
    ensures
        held.with(held.changes_to(wanted)).changes_to(wanted) == UniformChanges::none(),
{
}

/// Skipping the upload of equal values loses nothing: once the uploads of a
/// frame are performed, the device holds for every uniform the value that
/// the frame wants, or one that is equal to it as a number.
pub proof fn lemma_uploads_reach_wanted(held: Uniforms, wanted: Uniforms)
    ensures
        ({
            let after = held.with(held.changes_to(wanted));
            &&& after.transform == wanted.transform || wanted.transform.same(after.transform)
            &&& after.scale == wanted.scale || same_number(wanted.scale, after.scale)
            &&& after.target_height == wanted.target_height
        }),
{
}

/// A frame that differs from what the device holds in its scale alone
/// uploads the scale and nothing else, and likewise for each of the other
/// two uniforms.
pub proof fn lemma_only_changed_fields_upload(held: Uniforms, wanted: Uniforms)
    ensures
        wanted.transform.same(held.transform) <==> held.changes_to(wanted).transform is None,
        same_number(wanted.scale, held.scale) <==> held.changes_to(wanted).scale is None,
        wanted.target_height == held.target_height <==> held.changes_to(
            wanted,
        ).target_height is None,
        wanted.transform.same(held.transform) && wanted.target_height == held.target_height
            && !same_number(wanted.scale, held.scale) ==> held.changes_to(wanted) == (
        UniformChanges { transform: None, scale: Some(wanted.scale), target_height: None }),
{
}

} // verus!
