//! Avatars: the facial expression an animation reports and a renderer
//! draws, in the native record it crosses in, and the description bytes
//! the runtime copies out.

#![allow(non_snake_case)]

use vstd::prelude::*;

use crate::error::{CnaError, InputError};
use crate::kinds::NativeEnumValue;
use crate::values::{AvatarEye, AvatarEyebrow, AvatarMouth};

verus! {

/// XNA `AvatarExpression`: the mouth, the two eyes and the two eyebrows.
#[derive(Clone, Copy, Debug, PartialEq, Eq, Structural)]
pub struct AvatarExpression {
    pub mouth: AvatarMouth,
    pub left_eye: AvatarEye,
    pub right_eye: AvatarEye,
    pub left_eyebrow: AvatarEyebrow,
    pub right_eyebrow: AvatarEyebrow,
}

impl AvatarExpression {
    /// XNA `new AvatarExpression()`: every feature neutral.
    pub fn new() -> (r: Self)
        ensures
            r == (AvatarExpression {
                mouth: AvatarMouth::Neutral,
                left_eye: AvatarEye::Neutral,
                right_eye: AvatarEye::Neutral,
                left_eyebrow: AvatarEyebrow::Neutral,
                right_eyebrow: AvatarEyebrow::Neutral,
            }),
    {
        AvatarExpression {
            mouth: AvatarMouth::Neutral,
            left_eye: AvatarEye::Neutral,
            right_eye: AvatarEye::Neutral,
            left_eyebrow: AvatarEyebrow::Neutral,
            right_eyebrow: AvatarEyebrow::Neutral,
        }
    }

    /// XNA `AvatarExpression.Mouth`.
    pub fn Mouth(&self) -> (r: AvatarMouth)
        ensures
            r == self.mouth,
    {
        self.mouth
    }

    /// XNA `AvatarExpression.Mouth` assignment.
    pub fn SetMouth(&mut self, value: AvatarMouth)
        ensures
            *final(self) == (AvatarExpression { mouth: value, ..*old(self) }),
    {
        self.mouth = value;
    }

    /// XNA `AvatarExpression.LeftEye`.
    pub fn LeftEye(&self) -> (r: AvatarEye)
        ensures
            r == self.left_eye,
    {
        self.left_eye
    }

    /// XNA `AvatarExpression.LeftEye` assignment.
    pub fn SetLeftEye(&mut self, value: AvatarEye)
        ensures
            *final(self) == (AvatarExpression { left_eye: value, ..*old(self) }),
    {
        self.left_eye = value;
    }

    /// XNA `AvatarExpression.RightEye`.
    pub fn RightEye(&self) -> (r: AvatarEye)
        ensures
            r == self.right_eye,
    {
        self.right_eye
    }

    /// XNA `AvatarExpression.RightEye` assignment.
    pub fn SetRightEye(&mut self, value: AvatarEye)
        ensures
            *final(self) == (AvatarExpression { right_eye: value, ..*old(self) }),
    {
        self.right_eye = value;
    }

    /// XNA `AvatarExpression.LeftEyebrow`.
    pub fn LeftEyebrow(&self) -> (r: AvatarEyebrow)
        ensures
            r == self.left_eyebrow,
    {
        self.left_eyebrow
    }

    /// XNA `AvatarExpression.LeftEyebrow` assignment.
    pub fn SetLeftEyebrow(&mut self, value: AvatarEyebrow)
        ensures
            *final(self) == (AvatarExpression { left_eyebrow: value, ..*old(self) }),
    {
        self.left_eyebrow = value;
    }

    /// XNA `AvatarExpression.RightEyebrow`.
    pub fn RightEyebrow(&self) -> (r: AvatarEyebrow)
        ensures
            r == self.right_eyebrow,
    {
        self.right_eyebrow
    }

    /// XNA `AvatarExpression.RightEyebrow` assignment.
    pub fn SetRightEyebrow(&mut self, value: AvatarEyebrow)
        ensures
            *final(self) == (AvatarExpression { right_eyebrow: value, ..*old(self) }),
    {
        self.right_eyebrow = value;
    }
}

/// The native record of an expression.
#[derive(Clone, Copy, Debug, PartialEq, Eq, Structural)]
pub struct NativeAvatarExpression {
    pub mouth: u32,
    pub left_eye: u32,
    pub right_eye: u32,
    pub left_eyebrow: u32,
    pub right_eyebrow: u32,
}

/// The native record of an expression.
pub open spec fn spec_expression_to_native(value: AvatarExpression) -> NativeAvatarExpression {
    NativeAvatarExpression {
        mouth: value.mouth.spec_native(),
        left_eye: value.left_eye.spec_native(),
        right_eye: value.right_eye.spec_native(),
        left_eyebrow: value.left_eyebrow.spec_native(),
        right_eyebrow: value.right_eyebrow.spec_native(),
    }
}

/// Whether every number of a native record names a feature.
pub open spec fn native_expression_known(value: NativeAvatarExpression) -> bool {
    &&& AvatarMouth::spec_from_native(value.mouth) is Some
    &&& AvatarEye::spec_from_native(value.left_eye) is Some
    &&& AvatarEye::spec_from_native(value.right_eye) is Some
    &&& AvatarEyebrow::spec_from_native(value.left_eyebrow) is Some
    &&& AvatarEyebrow::spec_from_native(value.right_eyebrow) is Some
}

/// The native record of an expression, as a renderer draws it.
pub fn expression_to_native(value: AvatarExpression) -> (r: NativeAvatarExpression)
    ensures
        r == spec_expression_to_native(value),
{
    NativeAvatarExpression {
        mouth: value.mouth.native_value(),
        left_eye: value.left_eye.native_value(),
        right_eye: value.right_eye.native_value(),
        left_eyebrow: value.left_eyebrow.native_value(),
        right_eyebrow: value.right_eyebrow.native_value(),
    }
}

/// The expression a native record describes; refused when any number
/// names no feature XNA declares.
pub fn native_expression(value: &NativeAvatarExpression) -> (r: Result<AvatarExpression, CnaError>)
    ensures
        !native_expression_known(*value) ==> r == Err::<AvatarExpression, CnaError>(
            CnaError::InvalidInput(InputError::UnknownAvatarExpression),
        ),
        native_expression_known(*value) ==> r == Ok::<AvatarExpression, CnaError>(AvatarExpression {
            mouth: AvatarMouth::spec_from_native(value.mouth)->0,
            left_eye: AvatarEye::spec_from_native(value.left_eye)->0,
            right_eye: AvatarEye::spec_from_native(value.right_eye)->0,
            left_eyebrow: AvatarEyebrow::spec_from_native(value.left_eyebrow)->0,
            right_eyebrow: AvatarEyebrow::spec_from_native(value.right_eyebrow)->0,
        }),
{
    let mut expression = AvatarExpression::new();
    match AvatarMouth::from_native_value(value.mouth) {
        Some(mouth) => expression.SetMouth(mouth),
        None => return Err(CnaError::InvalidInput(InputError::UnknownAvatarExpression)),
    }
    match AvatarEye::from_native_value(value.left_eye) {
        Some(eye) => expression.SetLeftEye(eye),
        None => return Err(CnaError::InvalidInput(InputError::UnknownAvatarExpression)),
    }
    match AvatarEye::from_native_value(value.right_eye) {
        Some(eye) => expression.SetRightEye(eye),
        None => return Err(CnaError::InvalidInput(InputError::UnknownAvatarExpression)),
    }
    match AvatarEyebrow::from_native_value(value.left_eyebrow) {
        Some(eyebrow) => expression.SetLeftEyebrow(eyebrow),
        None => return Err(CnaError::InvalidInput(InputError::UnknownAvatarExpression)),
    }
    match AvatarEyebrow::from_native_value(value.right_eyebrow) {
        Some(eyebrow) => expression.SetRightEyebrow(eyebrow),
        None => return Err(CnaError::InvalidInput(InputError::UnknownAvatarExpression)),
    }
    Ok(expression)
}

/// Each field of an expression's native record carries the native number
/// of the feature of the same name.
pub proof fn law_expression_native_fields(value: AvatarExpression)
    ensures
        spec_expression_to_native(value).mouth == value.mouth.spec_native(),
        spec_expression_to_native(value).left_eye == value.left_eye.spec_native(),
        spec_expression_to_native(value).right_eye == value.right_eye.spec_native(),
        spec_expression_to_native(value).left_eyebrow == value.left_eyebrow.spec_native(),
        spec_expression_to_native(value).right_eyebrow == value.right_eyebrow.spec_native(),
{
}

/// An expression handed to the runtime and read back is the same
/// expression.
pub proof fn law_expression_round_trip(value: AvatarExpression)
    ensures
        native_expression_known(spec_expression_to_native(value)),
        AvatarMouth::spec_from_native(spec_expression_to_native(value).mouth) == Some(value.mouth),
        AvatarEye::spec_from_native(spec_expression_to_native(value).left_eye) == Some(value.left_eye),
        AvatarEye::spec_from_native(spec_expression_to_native(value).right_eye) == Some(value.right_eye),
        AvatarEyebrow::spec_from_native(spec_expression_to_native(value).left_eyebrow) == Some(value.left_eyebrow),
        AvatarEyebrow::spec_from_native(spec_expression_to_native(value).right_eyebrow) == Some(value.right_eyebrow),
{
    value.mouth.lemma_native_round_trip();
    value.left_eye.lemma_native_round_trip();
    value.right_eye.lemma_native_round_trip();
    value.left_eyebrow.lemma_native_round_trip();
    value.right_eyebrow.lemma_native_round_trip();
}

/// The buffer an avatar description of `bytes` bytes needs.
pub fn description_capacity(bytes: u64) -> (r: Result<usize, CnaError>)
    ensures
        bytes <= usize::MAX ==> r == Ok::<usize, CnaError>(bytes as usize),
        bytes > usize::MAX ==> r == Err::<usize, CnaError>(CnaError::InvalidInput(InputError::AvatarDescriptionTooLarge)),
{
    if bytes > usize::MAX as u64 {
        return Err(CnaError::InvalidInput(InputError::AvatarDescriptionTooLarge));
    }
    Ok(bytes as usize)
}

/// The description a copy produced: the buffer cut to the bytes the
/// runtime says it wrote, never past the buffer.
pub fn finish_description(buffer: Vec<u8>, written: u64) -> (r: Result<Vec<u8>, CnaError>)
    ensures
        written > usize::MAX ==> r == Err::<Vec<u8>, CnaError>(CnaError::InvalidInput(InputError::AvatarDescriptionTooLarge)),
        written <= usize::MAX ==> r is Ok && r->Ok_0@ == buffer@.subrange(
            0,
            if written < buffer@.len() { written as int } else { buffer@.len() as int },
        ),
{
    if written > usize::MAX as u64 {
        return Err(CnaError::InvalidInput(InputError::AvatarDescriptionTooLarge));
    }
    let written_length: usize = written as usize;
    let capacity = buffer.len();
    let keep: usize = if written_length < capacity {
        written_length
    } else {
        capacity
    };
    let mut bytes = buffer;
    bytes.truncate(keep);
    Ok(bytes)
}

/// The byte count a description handed to the runtime carries.
pub fn description_length(data: &Vec<u8>) -> (r: Result<u64, CnaError>)
    ensures
        r == Ok::<u64, CnaError>(data@.len() as u64),
{
    Ok(data.len() as u64)
}

} // verus!
