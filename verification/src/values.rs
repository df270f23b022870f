//! The value identities of XNA's gamer services: ordinal enums and the
//! exception types, none of which has anything native behind it.

#![allow(non_upper_case_globals, non_snake_case)]

use vstd::prelude::*;

use crate::kinds::NativeEnumValue;

verus! {

/// XNA `Microsoft.Xna.Framework.GamerServices.AvatarAnimationPreset`.
#[derive(Clone, Copy, Debug, Eq, Hash, Ord, PartialEq, PartialOrd, Structural)]
pub enum AvatarAnimationPreset {
    Stand0,
    Stand1,
    Stand2,
    Stand3,
    Stand4,
    Stand5,
    Stand6,
    Stand7,
    Clap,
    Wave,
    Celebrate,
    FemaleIdleCheckNails,
    FemaleIdleLookAround,
    FemaleIdleShiftWeight,
    FemaleIdleFixShoe,
    FemaleAngry,
    FemaleConfused,
    FemaleLaugh,
    FemaleCry,
    FemaleShocked,
    FemaleYawn,
    MaleIdleLookAround,
    MaleIdleStretch,
    MaleIdleShiftWeight,
    MaleIdleCheckHand,
    MaleAngry,
    MaleConfused,
    MaleLaugh,
    MaleCry,
    MaleSurprised,
    MaleYawn,
}

impl NativeEnumValue for AvatarAnimationPreset {
    open spec fn spec_native(self) -> u32 {
        match self {
            AvatarAnimationPreset::Stand0 => 0,
            AvatarAnimationPreset::Stand1 => 1,
            AvatarAnimationPreset::Stand2 => 2,
            AvatarAnimationPreset::Stand3 => 3,
            AvatarAnimationPreset::Stand4 => 4,
            AvatarAnimationPreset::Stand5 => 5,
            AvatarAnimationPreset::Stand6 => 6,
            AvatarAnimationPreset::Stand7 => 7,
            AvatarAnimationPreset::Clap => 8,
            AvatarAnimationPreset::Wave => 9,
            AvatarAnimationPreset::Celebrate => 10,
            AvatarAnimationPreset::FemaleIdleCheckNails => 11,
            AvatarAnimationPreset::FemaleIdleLookAround => 12,
            AvatarAnimationPreset::FemaleIdleShiftWeight => 13,
            AvatarAnimationPreset::FemaleIdleFixShoe => 14,
            AvatarAnimationPreset::FemaleAngry => 15,
            AvatarAnimationPreset::FemaleConfused => 16,
            AvatarAnimationPreset::FemaleLaugh => 17,
            AvatarAnimationPreset::FemaleCry => 18,
            AvatarAnimationPreset::FemaleShocked => 19,
            AvatarAnimationPreset::FemaleYawn => 20,
            AvatarAnimationPreset::MaleIdleLookAround => 21,
            AvatarAnimationPreset::MaleIdleStretch => 22,
            AvatarAnimationPreset::MaleIdleShiftWeight => 23,
            AvatarAnimationPreset::MaleIdleCheckHand => 24,
            AvatarAnimationPreset::MaleAngry => 25,
            AvatarAnimationPreset::MaleConfused => 26,
            AvatarAnimationPreset::MaleLaugh => 27,
            AvatarAnimationPreset::MaleCry => 28,
            AvatarAnimationPreset::MaleSurprised => 29,
            AvatarAnimationPreset::MaleYawn => 30,
        }
    }

    open spec fn spec_from_native(value: u32) -> Option<Self> {
        if value == 0 {
            Some(AvatarAnimationPreset::Stand0)
        } else if value == 1 {
            Some(AvatarAnimationPreset::Stand1)
        } else if value == 2 {
            Some(AvatarAnimationPreset::Stand2)
        } else if value == 3 {
            Some(AvatarAnimationPreset::Stand3)
        } else if value == 4 {
            Some(AvatarAnimationPreset::Stand4)
        } else if value == 5 {
            Some(AvatarAnimationPreset::Stand5)
        } else if value == 6 {
            Some(AvatarAnimationPreset::Stand6)
        } else if value == 7 {
            Some(AvatarAnimationPreset::Stand7)
        } else if value == 8 {
            Some(AvatarAnimationPreset::Clap)
        } else if value == 9 {
            Some(AvatarAnimationPreset::Wave)
        } else if value == 10 {
            Some(AvatarAnimationPreset::Celebrate)
        } else if value == 11 {
            Some(AvatarAnimationPreset::FemaleIdleCheckNails)
        } else if value == 12 {
            Some(AvatarAnimationPreset::FemaleIdleLookAround)
        } else if value == 13 {
            Some(AvatarAnimationPreset::FemaleIdleShiftWeight)
        } else if value == 14 {
            Some(AvatarAnimationPreset::FemaleIdleFixShoe)
        } else if value == 15 {
            Some(AvatarAnimationPreset::FemaleAngry)
        } else if value == 16 {
            Some(AvatarAnimationPreset::FemaleConfused)
        } else if value == 17 {
            Some(AvatarAnimationPreset::FemaleLaugh)
        } else if value == 18 {
            Some(AvatarAnimationPreset::FemaleCry)
        } else if value == 19 {
            Some(AvatarAnimationPreset::FemaleShocked)
        } else if value == 20 {
            Some(AvatarAnimationPreset::FemaleYawn)
        } else if value == 21 {
            Some(AvatarAnimationPreset::MaleIdleLookAround)
        } else if value == 22 {
            Some(AvatarAnimationPreset::MaleIdleStretch)
        } else if value == 23 {
            Some(AvatarAnimationPreset::MaleIdleShiftWeight)
        } else if value == 24 {
            Some(AvatarAnimationPreset::MaleIdleCheckHand)
        } else if value == 25 {
            Some(AvatarAnimationPreset::MaleAngry)
        } else if value == 26 {
            Some(AvatarAnimationPreset::MaleConfused)
        } else if value == 27 {
            Some(AvatarAnimationPreset::MaleLaugh)
        } else if value == 28 {
            Some(AvatarAnimationPreset::MaleCry)
        } else if value == 29 {
            Some(AvatarAnimationPreset::MaleSurprised)
        } else if value == 30 {
            Some(AvatarAnimationPreset::MaleYawn)
        } else {
            None
        }
    }

    proof fn lemma_native_round_trip(self) {
    }

    proof fn lemma_from_native_inverse(value: u32) {
    }

    fn native_value(self) -> (r: u32) {
        match self {
            AvatarAnimationPreset::Stand0 => 0,
            AvatarAnimationPreset::Stand1 => 1,
            AvatarAnimationPreset::Stand2 => 2,
            AvatarAnimationPreset::Stand3 => 3,
            AvatarAnimationPreset::Stand4 => 4,
            AvatarAnimationPreset::Stand5 => 5,
            AvatarAnimationPreset::Stand6 => 6,
            AvatarAnimationPreset::Stand7 => 7,
            AvatarAnimationPreset::Clap => 8,
            AvatarAnimationPreset::Wave => 9,
            AvatarAnimationPreset::Celebrate => 10,
            AvatarAnimationPreset::FemaleIdleCheckNails => 11,
            AvatarAnimationPreset::FemaleIdleLookAround => 12,
            AvatarAnimationPreset::FemaleIdleShiftWeight => 13,
            AvatarAnimationPreset::FemaleIdleFixShoe => 14,
            AvatarAnimationPreset::FemaleAngry => 15,
            AvatarAnimationPreset::FemaleConfused => 16,
            AvatarAnimationPreset::FemaleLaugh => 17,
            AvatarAnimationPreset::FemaleCry => 18,
            AvatarAnimationPreset::FemaleShocked => 19,
            AvatarAnimationPreset::FemaleYawn => 20,
            AvatarAnimationPreset::MaleIdleLookAround => 21,
            AvatarAnimationPreset::MaleIdleStretch => 22,
            AvatarAnimationPreset::MaleIdleShiftWeight => 23,
            AvatarAnimationPreset::MaleIdleCheckHand => 24,
            AvatarAnimationPreset::MaleAngry => 25,
            AvatarAnimationPreset::MaleConfused => 26,
            AvatarAnimationPreset::MaleLaugh => 27,
            AvatarAnimationPreset::MaleCry => 28,
            AvatarAnimationPreset::MaleSurprised => 29,
            AvatarAnimationPreset::MaleYawn => 30,
        }
    }

    fn from_native_value(value: u32) -> (r: Option<Self>) {
        if value == 0 {
            Some(AvatarAnimationPreset::Stand0)
        } else if value == 1 {
            Some(AvatarAnimationPreset::Stand1)
        } else if value == 2 {
            Some(AvatarAnimationPreset::Stand2)
        } else if value == 3 {
            Some(AvatarAnimationPreset::Stand3)
        } else if value == 4 {
            Some(AvatarAnimationPreset::Stand4)
        } else if value == 5 {
            Some(AvatarAnimationPreset::Stand5)
        } else if value == 6 {
            Some(AvatarAnimationPreset::Stand6)
        } else if value == 7 {
            Some(AvatarAnimationPreset::Stand7)
        } else if value == 8 {
            Some(AvatarAnimationPreset::Clap)
        } else if value == 9 {
            Some(AvatarAnimationPreset::Wave)
        } else if value == 10 {
            Some(AvatarAnimationPreset::Celebrate)
        } else if value == 11 {
            Some(AvatarAnimationPreset::FemaleIdleCheckNails)
        } else if value == 12 {
            Some(AvatarAnimationPreset::FemaleIdleLookAround)
        } else if value == 13 {
            Some(AvatarAnimationPreset::FemaleIdleShiftWeight)
        } else if value == 14 {
            Some(AvatarAnimationPreset::FemaleIdleFixShoe)
        } else if value == 15 {
            Some(AvatarAnimationPreset::FemaleAngry)
        } else if value == 16 {
            Some(AvatarAnimationPreset::FemaleConfused)
        } else if value == 17 {
            Some(AvatarAnimationPreset::FemaleLaugh)
        } else if value == 18 {
            Some(AvatarAnimationPreset::FemaleCry)
        } else if value == 19 {
            Some(AvatarAnimationPreset::FemaleShocked)
        } else if value == 20 {
            Some(AvatarAnimationPreset::FemaleYawn)
        } else if value == 21 {
            Some(AvatarAnimationPreset::MaleIdleLookAround)
        } else if value == 22 {
            Some(AvatarAnimationPreset::MaleIdleStretch)
        } else if value == 23 {
            Some(AvatarAnimationPreset::MaleIdleShiftWeight)
        } else if value == 24 {
            Some(AvatarAnimationPreset::MaleIdleCheckHand)
        } else if value == 25 {
            Some(AvatarAnimationPreset::MaleAngry)
        } else if value == 26 {
            Some(AvatarAnimationPreset::MaleConfused)
        } else if value == 27 {
            Some(AvatarAnimationPreset::MaleLaugh)
        } else if value == 28 {
            Some(AvatarAnimationPreset::MaleCry)
        } else if value == 29 {
            Some(AvatarAnimationPreset::MaleSurprised)
        } else if value == 30 {
            Some(AvatarAnimationPreset::MaleYawn)
        } else {
            None
        }
    }
}

/// XNA `Microsoft.Xna.Framework.GamerServices.AvatarBodyType`.
#[derive(Clone, Copy, Debug, Eq, Hash, Ord, PartialEq, PartialOrd, Structural)]
pub enum AvatarBodyType {
    Female,
    Male,
}

impl NativeEnumValue for AvatarBodyType {
    open spec fn spec_native(self) -> u32 {
        match self {
            AvatarBodyType::Female => 0,
            AvatarBodyType::Male => 1,
        }
    }

    open spec fn spec_from_native(value: u32) -> Option<Self> {
        if value == 0 {
            Some(AvatarBodyType::Female)
        } else if value == 1 {
            Some(AvatarBodyType::Male)
        } else {
            None
        }
    }

    proof fn lemma_native_round_trip(self) {
    }

    proof fn lemma_from_native_inverse(value: u32) {
    }

    fn native_value(self) -> (r: u32) {
        match self {
            AvatarBodyType::Female => 0,
            AvatarBodyType::Male => 1,
        }
    }

    fn from_native_value(value: u32) -> (r: Option<Self>) {
        if value == 0 {
            Some(AvatarBodyType::Female)
        } else if value == 1 {
            Some(AvatarBodyType::Male)
        } else {
            None
        }
    }
}

/// XNA `Microsoft.Xna.Framework.GamerServices.AvatarBone`.
#[derive(Clone, Copy, Debug, Eq, Hash, Ord, PartialEq, PartialOrd, Structural)]
pub enum AvatarBone {
    Root,
    BackLower,
    HipLeft,
    HipRight,
    BackUpper,
    KneeLeft,
    KneeRight,
    AnkleLeft,
    CollarLeft,
    Neck,
    AnkleRight,
    CollarRight,
    Head,
    ShoulderLeft,
    ToeLeft,
    ShoulderRight,
    ToeRight,
    ElbowLeft,
    ElbowRight,
    WristLeft,
    WristRight,
    FingerIndexLeft,
    FingerMiddleLeft,
    FingerRingLeft,
    FingerSmallLeft,
    PropLeft,
    SpecialLeft,
    FingerThumbLeft,
    FingerIndexRight,
    FingerMiddleRight,
    FingerRingRight,
    FingerSmallRight,
    PropRight,
    SpecialRight,
    FingerThumbRight,
    FingerIndex2Left,
    FingerMiddle2Left,
    FingerRing2Left,
    FingerSmall2Left,
    FingerThumb2Left,
    FingerIndex2Right,
    FingerMiddle2Right,
    FingerRing2Right,
    FingerSmall2Right,
    FingerThumb2Right,
    FingerIndex3Left,
    FingerMiddle3Left,
    FingerRing3Left,
    FingerSmall3Left,
    FingerThumb3Left,
    FingerIndex3Right,
    FingerMiddle3Right,
    FingerRing3Right,
    FingerSmall3Right,
    FingerThumb3Right,
}

impl NativeEnumValue for AvatarBone {
    open spec fn spec_native(self) -> u32 {
        match self {
            AvatarBone::Root => 0,
            AvatarBone::BackLower => 1,
            AvatarBone::HipLeft => 2,
            AvatarBone::HipRight => 3,
            AvatarBone::BackUpper => 5,
            AvatarBone::KneeLeft => 6,
            AvatarBone::KneeRight => 8,
            AvatarBone::AnkleLeft => 11,
            AvatarBone::CollarLeft => 12,
            AvatarBone::Neck => 14,
            AvatarBone::AnkleRight => 15,
            AvatarBone::CollarRight => 16,
            AvatarBone::Head => 19,
            AvatarBone::ShoulderLeft => 20,
            AvatarBone::ToeLeft => 21,
            AvatarBone::ShoulderRight => 22,
            AvatarBone::ToeRight => 23,
            AvatarBone::ElbowLeft => 25,
            AvatarBone::ElbowRight => 28,
            AvatarBone::WristLeft => 33,
            AvatarBone::WristRight => 36,
            AvatarBone::FingerIndexLeft => 37,
            AvatarBone::FingerMiddleLeft => 38,
            AvatarBone::FingerRingLeft => 39,
            AvatarBone::FingerSmallLeft => 40,
            AvatarBone::PropLeft => 41,
            AvatarBone::SpecialLeft => 42,
            AvatarBone::FingerThumbLeft => 43,
            AvatarBone::FingerIndexRight => 44,
            AvatarBone::FingerMiddleRight => 45,
            AvatarBone::FingerRingRight => 46,
            AvatarBone::FingerSmallRight => 47,
            AvatarBone::PropRight => 48,
            AvatarBone::SpecialRight => 49,
            AvatarBone::FingerThumbRight => 50,
            AvatarBone::FingerIndex2Left => 51,
            AvatarBone::FingerMiddle2Left => 52,
            AvatarBone::FingerRing2Left => 53,
            AvatarBone::FingerSmall2Left => 54,
            AvatarBone::FingerThumb2Left => 55,
            AvatarBone::FingerIndex2Right => 56,
            AvatarBone::FingerMiddle2Right => 57,
            AvatarBone::FingerRing2Right => 58,
            AvatarBone::FingerSmall2Right => 59,
            AvatarBone::FingerThumb2Right => 60,
            AvatarBone::FingerIndex3Left => 61,
            AvatarBone::FingerMiddle3Left => 62,
            AvatarBone::FingerRing3Left => 63,
            AvatarBone::FingerSmall3Left => 64,
            AvatarBone::FingerThumb3Left => 65,
            AvatarBone::FingerIndex3Right => 66,
            AvatarBone::FingerMiddle3Right => 67,
            AvatarBone::FingerRing3Right => 68,
            AvatarBone::FingerSmall3Right => 69,
            AvatarBone::FingerThumb3Right => 70,
        }
    }

    open spec fn spec_from_native(value: u32) -> Option<Self> {
        if value == 0 {
            Some(AvatarBone::Root)
        } else if value == 1 {
            Some(AvatarBone::BackLower)
        } else if value == 2 {
            Some(AvatarBone::HipLeft)
        } else if value == 3 {
            Some(AvatarBone::HipRight)
        } else if value == 5 {
            Some(AvatarBone::BackUpper)
        } else if value == 6 {
            Some(AvatarBone::KneeLeft)
        } else if value == 8 {
            Some(AvatarBone::KneeRight)
        } else if value == 11 {
            Some(AvatarBone::AnkleLeft)
        } else if value == 12 {
            Some(AvatarBone::CollarLeft)
        } else if value == 14 {
            Some(AvatarBone::Neck)
        } else if value == 15 {
            Some(AvatarBone::AnkleRight)
        } else if value == 16 {
            Some(AvatarBone::CollarRight)
        } else if value == 19 {
            Some(AvatarBone::Head)
        } else if value == 20 {
            Some(AvatarBone::ShoulderLeft)
        } else if value == 21 {
            Some(AvatarBone::ToeLeft)
        } else if value == 22 {
            Some(AvatarBone::ShoulderRight)
        } else if value == 23 {
            Some(AvatarBone::ToeRight)
        } else if value == 25 {
            Some(AvatarBone::ElbowLeft)
        } else if value == 28 {
            Some(AvatarBone::ElbowRight)
        } else if value == 33 {
            Some(AvatarBone::WristLeft)
        } else if value == 36 {
            Some(AvatarBone::WristRight)
        } else if value == 37 {
            Some(AvatarBone::FingerIndexLeft)
        } else if value == 38 {
            Some(AvatarBone::FingerMiddleLeft)
        } else if value == 39 {
            Some(AvatarBone::FingerRingLeft)
        } else if value == 40 {
            Some(AvatarBone::FingerSmallLeft)
        } else if value == 41 {
            Some(AvatarBone::PropLeft)
        } else if value == 42 {
            Some(AvatarBone::SpecialLeft)
        } else if value == 43 {
            Some(AvatarBone::FingerThumbLeft)
        } else if value == 44 {
            Some(AvatarBone::FingerIndexRight)
        } else if value == 45 {
            Some(AvatarBone::FingerMiddleRight)
        } else if value == 46 {
            Some(AvatarBone::FingerRingRight)
        } else if value == 47 {
            Some(AvatarBone::FingerSmallRight)
        } else if value == 48 {
            Some(AvatarBone::PropRight)
        } else if value == 49 {
            Some(AvatarBone::SpecialRight)
        } else if value == 50 {
            Some(AvatarBone::FingerThumbRight)
        } else if value == 51 {
            Some(AvatarBone::FingerIndex2Left)
        } else if value == 52 {
            Some(AvatarBone::FingerMiddle2Left)
        } else if value == 53 {
            Some(AvatarBone::FingerRing2Left)
        } else if value == 54 {
            Some(AvatarBone::FingerSmall2Left)
        } else if value == 55 {
            Some(AvatarBone::FingerThumb2Left)
        } else if value == 56 {
            Some(AvatarBone::FingerIndex2Right)
        } else if value == 57 {
            Some(AvatarBone::FingerMiddle2Right)
        } else if value == 58 {
            Some(AvatarBone::FingerRing2Right)
        } else if value == 59 {
            Some(AvatarBone::FingerSmall2Right)
        } else if value == 60 {
            Some(AvatarBone::FingerThumb2Right)
        } else if value == 61 {
            Some(AvatarBone::FingerIndex3Left)
        } else if value == 62 {
            Some(AvatarBone::FingerMiddle3Left)
        } else if value == 63 {
            Some(AvatarBone::FingerRing3Left)
        } else if value == 64 {
            Some(AvatarBone::FingerSmall3Left)
        } else if value == 65 {
            Some(AvatarBone::FingerThumb3Left)
        } else if value == 66 {
            Some(AvatarBone::FingerIndex3Right)
        } else if value == 67 {
            Some(AvatarBone::FingerMiddle3Right)
        } else if value == 68 {
            Some(AvatarBone::FingerRing3Right)
        } else if value == 69 {
            Some(AvatarBone::FingerSmall3Right)
        } else if value == 70 {
            Some(AvatarBone::FingerThumb3Right)
        } else {
            None
        }
    }

    proof fn lemma_native_round_trip(self) {
    }

    proof fn lemma_from_native_inverse(value: u32) {
    }

    fn native_value(self) -> (r: u32) {
        match self {
            AvatarBone::Root => 0,
            AvatarBone::BackLower => 1,
            AvatarBone::HipLeft => 2,
            AvatarBone::HipRight => 3,
            AvatarBone::BackUpper => 5,
            AvatarBone::KneeLeft => 6,
            AvatarBone::KneeRight => 8,
            AvatarBone::AnkleLeft => 11,
            AvatarBone::CollarLeft => 12,
            AvatarBone::Neck => 14,
            AvatarBone::AnkleRight => 15,
            AvatarBone::CollarRight => 16,
            AvatarBone::Head => 19,
            AvatarBone::ShoulderLeft => 20,
            AvatarBone::ToeLeft => 21,
            AvatarBone::ShoulderRight => 22,
            AvatarBone::ToeRight => 23,
            AvatarBone::ElbowLeft => 25,
            AvatarBone::ElbowRight => 28,
            AvatarBone::WristLeft => 33,
            AvatarBone::WristRight => 36,
            AvatarBone::FingerIndexLeft => 37,
            AvatarBone::FingerMiddleLeft => 38,
            AvatarBone::FingerRingLeft => 39,
            AvatarBone::FingerSmallLeft => 40,
            AvatarBone::PropLeft => 41,
            AvatarBone::SpecialLeft => 42,
            AvatarBone::FingerThumbLeft => 43,
            AvatarBone::FingerIndexRight => 44,
            AvatarBone::FingerMiddleRight => 45,
            AvatarBone::FingerRingRight => 46,
            AvatarBone::FingerSmallRight => 47,
            AvatarBone::PropRight => 48,
            AvatarBone::SpecialRight => 49,
            AvatarBone::FingerThumbRight => 50,
            AvatarBone::FingerIndex2Left => 51,
            AvatarBone::FingerMiddle2Left => 52,
            AvatarBone::FingerRing2Left => 53,
            AvatarBone::FingerSmall2Left => 54,
            AvatarBone::FingerThumb2Left => 55,
            AvatarBone::FingerIndex2Right => 56,
            AvatarBone::FingerMiddle2Right => 57,
            AvatarBone::FingerRing2Right => 58,
            AvatarBone::FingerSmall2Right => 59,
            AvatarBone::FingerThumb2Right => 60,
            AvatarBone::FingerIndex3Left => 61,
            AvatarBone::FingerMiddle3Left => 62,
            AvatarBone::FingerRing3Left => 63,
            AvatarBone::FingerSmall3Left => 64,
            AvatarBone::FingerThumb3Left => 65,
            AvatarBone::FingerIndex3Right => 66,
            AvatarBone::FingerMiddle3Right => 67,
            AvatarBone::FingerRing3Right => 68,
            AvatarBone::FingerSmall3Right => 69,
            AvatarBone::FingerThumb3Right => 70,
        }
    }

    fn from_native_value(value: u32) -> (r: Option<Self>) {
        if value == 0 {
            Some(AvatarBone::Root)
        } else if value == 1 {
            Some(AvatarBone::BackLower)
        } else if value == 2 {
            Some(AvatarBone::HipLeft)
        } else if value == 3 {
            Some(AvatarBone::HipRight)
        } else if value == 5 {
            Some(AvatarBone::BackUpper)
        } else if value == 6 {
            Some(AvatarBone::KneeLeft)
        } else if value == 8 {
            Some(AvatarBone::KneeRight)
        } else if value == 11 {
            Some(AvatarBone::AnkleLeft)
        } else if value == 12 {
            Some(AvatarBone::CollarLeft)
        } else if value == 14 {
            Some(AvatarBone::Neck)
        } else if value == 15 {
            Some(AvatarBone::AnkleRight)
        } else if value == 16 {
            Some(AvatarBone::CollarRight)
        } else if value == 19 {
            Some(AvatarBone::Head)
        } else if value == 20 {
            Some(AvatarBone::ShoulderLeft)
        } else if value == 21 {
            Some(AvatarBone::ToeLeft)
        } else if value == 22 {
            Some(AvatarBone::ShoulderRight)
        } else if value == 23 {
            Some(AvatarBone::ToeRight)
        } else if value == 25 {
            Some(AvatarBone::ElbowLeft)
        } else if value == 28 {
            Some(AvatarBone::ElbowRight)
        } else if value == 33 {
            Some(AvatarBone::WristLeft)
        } else if value == 36 {
            Some(AvatarBone::WristRight)
        } else if value == 37 {
            Some(AvatarBone::FingerIndexLeft)
        } else if value == 38 {
            Some(AvatarBone::FingerMiddleLeft)
        } else if value == 39 {
            Some(AvatarBone::FingerRingLeft)
        } else if value == 40 {
            Some(AvatarBone::FingerSmallLeft)
        } else if value == 41 {
            Some(AvatarBone::PropLeft)
        } else if value == 42 {
            Some(AvatarBone::SpecialLeft)
        } else if value == 43 {
            Some(AvatarBone::FingerThumbLeft)
        } else if value == 44 {
            Some(AvatarBone::FingerIndexRight)
        } else if value == 45 {
            Some(AvatarBone::FingerMiddleRight)
        } else if value == 46 {
            Some(AvatarBone::FingerRingRight)
        } else if value == 47 {
            Some(AvatarBone::FingerSmallRight)
        } else if value == 48 {
            Some(AvatarBone::PropRight)
        } else if value == 49 {
            Some(AvatarBone::SpecialRight)
        } else if value == 50 {
            Some(AvatarBone::FingerThumbRight)
        } else if value == 51 {
            Some(AvatarBone::FingerIndex2Left)
        } else if value == 52 {
            Some(AvatarBone::FingerMiddle2Left)
        } else if value == 53 {
            Some(AvatarBone::FingerRing2Left)
        } else if value == 54 {
            Some(AvatarBone::FingerSmall2Left)
        } else if value == 55 {
            Some(AvatarBone::FingerThumb2Left)
        } else if value == 56 {
            Some(AvatarBone::FingerIndex2Right)
        } else if value == 57 {
            Some(AvatarBone::FingerMiddle2Right)
        } else if value == 58 {
            Some(AvatarBone::FingerRing2Right)
        } else if value == 59 {
            Some(AvatarBone::FingerSmall2Right)
        } else if value == 60 {
            Some(AvatarBone::FingerThumb2Right)
        } else if value == 61 {
            Some(AvatarBone::FingerIndex3Left)
        } else if value == 62 {
            Some(AvatarBone::FingerMiddle3Left)
        } else if value == 63 {
            Some(AvatarBone::FingerRing3Left)
        } else if value == 64 {
            Some(AvatarBone::FingerSmall3Left)
        } else if value == 65 {
            Some(AvatarBone::FingerThumb3Left)
        } else if value == 66 {
            Some(AvatarBone::FingerIndex3Right)
        } else if value == 67 {
            Some(AvatarBone::FingerMiddle3Right)
        } else if value == 68 {
            Some(AvatarBone::FingerRing3Right)
        } else if value == 69 {
            Some(AvatarBone::FingerSmall3Right)
        } else if value == 70 {
            Some(AvatarBone::FingerThumb3Right)
        } else {
            None
        }
    }
}

/// XNA `Microsoft.Xna.Framework.GamerServices.AvatarEye`.
#[derive(Clone, Copy, Debug, Eq, Hash, Ord, PartialEq, PartialOrd, Structural)]
pub enum AvatarEye {
    Neutral,
    Sad,
    Angry,
    Confused,
    Laughing,
    Shocked,
    Happy,
    Yawning,
    Sleeping,
    LookUp,
    LookDown,
    LookLeft,
    LookRight,
    Blink,
}

impl NativeEnumValue for AvatarEye {
    open spec fn spec_native(self) -> u32 {
        match self {
            AvatarEye::Neutral => 0,
            AvatarEye::Sad => 1,
            AvatarEye::Angry => 2,
            AvatarEye::Confused => 3,
            AvatarEye::Laughing => 4,
            AvatarEye::Shocked => 5,
            AvatarEye::Happy => 6,
            AvatarEye::Yawning => 7,
            AvatarEye::Sleeping => 8,
            AvatarEye::LookUp => 9,
            AvatarEye::LookDown => 10,
            AvatarEye::LookLeft => 11,
            AvatarEye::LookRight => 12,
            AvatarEye::Blink => 13,
        }
    }

    open spec fn spec_from_native(value: u32) -> Option<Self> {
        if value == 0 {
            Some(AvatarEye::Neutral)
        } else if value == 1 {
            Some(AvatarEye::Sad)
        } else if value == 2 {
            Some(AvatarEye::Angry)
        } else if value == 3 {
            Some(AvatarEye::Confused)
        } else if value == 4 {
            Some(AvatarEye::Laughing)
        } else if value == 5 {
            Some(AvatarEye::Shocked)
        } else if value == 6 {
            Some(AvatarEye::Happy)
        } else if value == 7 {
            Some(AvatarEye::Yawning)
        } else if value == 8 {
            Some(AvatarEye::Sleeping)
        } else if value == 9 {
            Some(AvatarEye::LookUp)
        } else if value == 10 {
            Some(AvatarEye::LookDown)
        } else if value == 11 {
            Some(AvatarEye::LookLeft)
        } else if value == 12 {
            Some(AvatarEye::LookRight)
        } else if value == 13 {
            Some(AvatarEye::Blink)
        } else {
            None
        }
    }

    proof fn lemma_native_round_trip(self) {
    }

    proof fn lemma_from_native_inverse(value: u32) {
    }

    fn native_value(self) -> (r: u32) {
        match self {
            AvatarEye::Neutral => 0,
            AvatarEye::Sad => 1,
            AvatarEye::Angry => 2,
            AvatarEye::Confused => 3,
            AvatarEye::Laughing => 4,
            AvatarEye::Shocked => 5,
            AvatarEye::Happy => 6,
            AvatarEye::Yawning => 7,
            AvatarEye::Sleeping => 8,
            AvatarEye::LookUp => 9,
            AvatarEye::LookDown => 10,
            AvatarEye::LookLeft => 11,
            AvatarEye::LookRight => 12,
            AvatarEye::Blink => 13,
        }
    }

    fn from_native_value(value: u32) -> (r: Option<Self>) {
        if value == 0 {
            Some(AvatarEye::Neutral)
        } else if value == 1 {
            Some(AvatarEye::Sad)
        } else if value == 2 {
            Some(AvatarEye::Angry)
        } else if value == 3 {
            Some(AvatarEye::Confused)
        } else if value == 4 {
            Some(AvatarEye::Laughing)
        } else if value == 5 {
            Some(AvatarEye::Shocked)
        } else if value == 6 {
            Some(AvatarEye::Happy)
        } else if value == 7 {
            Some(AvatarEye::Yawning)
        } else if value == 8 {
            Some(AvatarEye::Sleeping)
        } else if value == 9 {
            Some(AvatarEye::LookUp)
        } else if value == 10 {
            Some(AvatarEye::LookDown)
        } else if value == 11 {
            Some(AvatarEye::LookLeft)
        } else if value == 12 {
            Some(AvatarEye::LookRight)
        } else if value == 13 {
            Some(AvatarEye::Blink)
        } else {
            None
        }
    }
}

/// XNA `Microsoft.Xna.Framework.GamerServices.AvatarEyebrow`.
#[derive(Clone, Copy, Debug, Eq, Hash, Ord, PartialEq, PartialOrd, Structural)]
pub enum AvatarEyebrow {
    Neutral,
    Sad,
    Angry,
    Confused,
    Raised,
}

impl NativeEnumValue for AvatarEyebrow {
    open spec fn spec_native(self) -> u32 {
        match self {
            AvatarEyebrow::Neutral => 0,
            AvatarEyebrow::Sad => 1,
            AvatarEyebrow::Angry => 2,
            AvatarEyebrow::Confused => 3,
            AvatarEyebrow::Raised => 4,
        }
    }

    open spec fn spec_from_native(value: u32) -> Option<Self> {
        if value == 0 {
            Some(AvatarEyebrow::Neutral)
        } else if value == 1 {
            Some(AvatarEyebrow::Sad)
        } else if value == 2 {
            Some(AvatarEyebrow::Angry)
        } else if value == 3 {
            Some(AvatarEyebrow::Confused)
        } else if value == 4 {
            Some(AvatarEyebrow::Raised)
        } else {
            None
        }
    }

    proof fn lemma_native_round_trip(self) {
    }

    proof fn lemma_from_native_inverse(value: u32) {
    }

    fn native_value(self) -> (r: u32) {
        match self {
            AvatarEyebrow::Neutral => 0,
            AvatarEyebrow::Sad => 1,
            AvatarEyebrow::Angry => 2,
            AvatarEyebrow::Confused => 3,
            AvatarEyebrow::Raised => 4,
        }
    }

    fn from_native_value(value: u32) -> (r: Option<Self>) {
        if value == 0 {
            Some(AvatarEyebrow::Neutral)
        } else if value == 1 {
            Some(AvatarEyebrow::Sad)
        } else if value == 2 {
            Some(AvatarEyebrow::Angry)
        } else if value == 3 {
            Some(AvatarEyebrow::Confused)
        } else if value == 4 {
            Some(AvatarEyebrow::Raised)
        } else {
            None
        }
    }
}

/// XNA `Microsoft.Xna.Framework.GamerServices.AvatarMouth`.
#[derive(Clone, Copy, Debug, Eq, Hash, Ord, PartialEq, PartialOrd, Structural)]
pub enum AvatarMouth {
    Neutral,
    Sad,
    Angry,
    Confused,
    Laughing,
    Shocked,
    Happy,
    PhoneticO,
    PhoneticAi,
    PhoneticEe,
    PhoneticFv,
    PhoneticW,
    PhoneticL,
    PhoneticDth,
}

impl NativeEnumValue for AvatarMouth {
    open spec fn spec_native(self) -> u32 {
        match self {
            AvatarMouth::Neutral => 0,
            AvatarMouth::Sad => 1,
            AvatarMouth::Angry => 2,
            AvatarMouth::Confused => 3,
            AvatarMouth::Laughing => 4,
            AvatarMouth::Shocked => 5,
            AvatarMouth::Happy => 6,
            AvatarMouth::PhoneticO => 7,
            AvatarMouth::PhoneticAi => 8,
            AvatarMouth::PhoneticEe => 9,
            AvatarMouth::PhoneticFv => 10,
            AvatarMouth::PhoneticW => 11,
            AvatarMouth::PhoneticL => 12,
            AvatarMouth::PhoneticDth => 13,
        }
    }

    open spec fn spec_from_native(value: u32) -> Option<Self> {
        if value == 0 {
            Some(AvatarMouth::Neutral)
        } else if value == 1 {
            Some(AvatarMouth::Sad)
        } else if value == 2 {
            Some(AvatarMouth::Angry)
        } else if value == 3 {
            Some(AvatarMouth::Confused)
        } else if value == 4 {
            Some(AvatarMouth::Laughing)
        } else if value == 5 {
            Some(AvatarMouth::Shocked)
        } else if value == 6 {
            Some(AvatarMouth::Happy)
        } else if value == 7 {
            Some(AvatarMouth::PhoneticO)
        } else if value == 8 {
            Some(AvatarMouth::PhoneticAi)
        } else if value == 9 {
            Some(AvatarMouth::PhoneticEe)
        } else if value == 10 {
            Some(AvatarMouth::PhoneticFv)
        } else if value == 11 {
            Some(AvatarMouth::PhoneticW)
        } else if value == 12 {
            Some(AvatarMouth::PhoneticL)
        } else if value == 13 {
            Some(AvatarMouth::PhoneticDth)
        } else {
            None
        }
    }

    proof fn lemma_native_round_trip(self) {
    }

    proof fn lemma_from_native_inverse(value: u32) {
    }

    fn native_value(self) -> (r: u32) {
        match self {
            AvatarMouth::Neutral => 0,
            AvatarMouth::Sad => 1,
            AvatarMouth::Angry => 2,
            AvatarMouth::Confused => 3,
            AvatarMouth::Laughing => 4,
            AvatarMouth::Shocked => 5,
            AvatarMouth::Happy => 6,
            AvatarMouth::PhoneticO => 7,
            AvatarMouth::PhoneticAi => 8,
            AvatarMouth::PhoneticEe => 9,
            AvatarMouth::PhoneticFv => 10,
            AvatarMouth::PhoneticW => 11,
            AvatarMouth::PhoneticL => 12,
            AvatarMouth::PhoneticDth => 13,
        }
    }

    fn from_native_value(value: u32) -> (r: Option<Self>) {
        if value == 0 {
            Some(AvatarMouth::Neutral)
        } else if value == 1 {
            Some(AvatarMouth::Sad)
        } else if value == 2 {
            Some(AvatarMouth::Angry)
        } else if value == 3 {
            Some(AvatarMouth::Confused)
        } else if value == 4 {
            Some(AvatarMouth::Laughing)
        } else if value == 5 {
            Some(AvatarMouth::Shocked)
        } else if value == 6 {
            Some(AvatarMouth::Happy)
        } else if value == 7 {
            Some(AvatarMouth::PhoneticO)
        } else if value == 8 {
            Some(AvatarMouth::PhoneticAi)
        } else if value == 9 {
            Some(AvatarMouth::PhoneticEe)
        } else if value == 10 {
            Some(AvatarMouth::PhoneticFv)
        } else if value == 11 {
            Some(AvatarMouth::PhoneticW)
        } else if value == 12 {
            Some(AvatarMouth::PhoneticL)
        } else if value == 13 {
            Some(AvatarMouth::PhoneticDth)
        } else {
            None
        }
    }
}

/// XNA `Microsoft.Xna.Framework.GamerServices.AvatarRendererState`.
#[derive(Clone, Copy, Debug, Eq, Hash, Ord, PartialEq, PartialOrd, Structural)]
pub enum AvatarRendererState {
    Loading,
    Ready,
    Unavailable,
}

impl NativeEnumValue for AvatarRendererState {
    open spec fn spec_native(self) -> u32 {
        match self {
            AvatarRendererState::Loading => 0,
            AvatarRendererState::Ready => 1,
            AvatarRendererState::Unavailable => 2,
        }
    }

    open spec fn spec_from_native(value: u32) -> Option<Self> {
        if value == 0 {
            Some(AvatarRendererState::Loading)
        } else if value == 1 {
            Some(AvatarRendererState::Ready)
        } else if value == 2 {
            Some(AvatarRendererState::Unavailable)
        } else {
            None
        }
    }

    proof fn lemma_native_round_trip(self) {
    }

    proof fn lemma_from_native_inverse(value: u32) {
    }

    fn native_value(self) -> (r: u32) {
        match self {
            AvatarRendererState::Loading => 0,
            AvatarRendererState::Ready => 1,
            AvatarRendererState::Unavailable => 2,
        }
    }

    fn from_native_value(value: u32) -> (r: Option<Self>) {
        if value == 0 {
            Some(AvatarRendererState::Loading)
        } else if value == 1 {
            Some(AvatarRendererState::Ready)
        } else if value == 2 {
            Some(AvatarRendererState::Unavailable)
        } else {
            None
        }
    }
}

/// XNA `Microsoft.Xna.Framework.GamerServices.ControllerSensitivity`.
#[derive(Clone, Copy, Debug, Eq, Hash, Ord, PartialEq, PartialOrd, Structural)]
pub enum ControllerSensitivity {
    Low,
    Medium,
    High,
}

impl NativeEnumValue for ControllerSensitivity {
    open spec fn spec_native(self) -> u32 {
        match self {
            ControllerSensitivity::Low => 0,
            ControllerSensitivity::Medium => 1,
            ControllerSensitivity::High => 2,
        }
    }

    open spec fn spec_from_native(value: u32) -> Option<Self> {
        if value == 0 {
            Some(ControllerSensitivity::Low)
        } else if value == 1 {
            Some(ControllerSensitivity::Medium)
        } else if value == 2 {
            Some(ControllerSensitivity::High)
        } else {
            None
        }
    }

    proof fn lemma_native_round_trip(self) {
    }

    proof fn lemma_from_native_inverse(value: u32) {
    }

    fn native_value(self) -> (r: u32) {
        match self {
            ControllerSensitivity::Low => 0,
            ControllerSensitivity::Medium => 1,
            ControllerSensitivity::High => 2,
        }
    }

    fn from_native_value(value: u32) -> (r: Option<Self>) {
        if value == 0 {
            Some(ControllerSensitivity::Low)
        } else if value == 1 {
            Some(ControllerSensitivity::Medium)
        } else if value == 2 {
            Some(ControllerSensitivity::High)
        } else {
            None
        }
    }
}

/// XNA `Microsoft.Xna.Framework.GamerServices.GameDifficulty`.
#[derive(Clone, Copy, Debug, Eq, Hash, Ord, PartialEq, PartialOrd, Structural)]
pub enum GameDifficulty {
    Easy,
    Normal,
    Hard,
}

impl NativeEnumValue for GameDifficulty {
    open spec fn spec_native(self) -> u32 {
        match self {
            GameDifficulty::Easy => 0,
            GameDifficulty::Normal => 1,
            GameDifficulty::Hard => 2,
        }
    }

    open spec fn spec_from_native(value: u32) -> Option<Self> {
        if value == 0 {
            Some(GameDifficulty::Easy)
        } else if value == 1 {
            Some(GameDifficulty::Normal)
        } else if value == 2 {
            Some(GameDifficulty::Hard)
        } else {
            None
        }
    }

    proof fn lemma_native_round_trip(self) {
    }

    proof fn lemma_from_native_inverse(value: u32) {
    }

    fn native_value(self) -> (r: u32) {
        match self {
            GameDifficulty::Easy => 0,
            GameDifficulty::Normal => 1,
            GameDifficulty::Hard => 2,
        }
    }

    fn from_native_value(value: u32) -> (r: Option<Self>) {
        if value == 0 {
            Some(GameDifficulty::Easy)
        } else if value == 1 {
            Some(GameDifficulty::Normal)
        } else if value == 2 {
            Some(GameDifficulty::Hard)
        } else {
            None
        }
    }
}

/// XNA `Microsoft.Xna.Framework.GamerServices.GamerPresenceMode`.
#[derive(Clone, Copy, Debug, Eq, Hash, Ord, PartialEq, PartialOrd, Structural)]
pub enum GamerPresenceMode {
    NoPresence,
    SinglePlayer,
    Multiplayer,
    LocalCoOp,
    LocalVersus,
    OnlineCoOp,
    OnlineVersus,
    VersusComputer,
    Stage,
    Level,
    CoOpStage,
    CoOpLevel,
    ArcadeMode,
    CampaignMode,
    ChallengeMode,
    ExplorationMode,
    PracticeMode,
    PuzzleMode,
    ScenarioMode,
    StoryMode,
    SurvivalMode,
    TutorialMode,
    DifficultyEasy,
    DifficultyMedium,
    DifficultyHard,
    DifficultyExtreme,
    Score,
    VersusScore,
    Winning,
    Losing,
    ScoreIsTied,
    Outnumbered,
    OnARoll,
    InCombat,
    BattlingBoss,
    TimeAttack,
    TryingForRecord,
    FreePlay,
    WastingTime,
    StuckOnAHardBit,
    NearlyFinished,
    LookingForGames,
    WaitingForPlayers,
    WaitingInLobby,
    SettingUpMatch,
    PlayingWithFriends,
    AtMenu,
    StartingGame,
    Paused,
    GameOver,
    WonTheGame,
    ConfiguringSettings,
    CustomizingPlayer,
    EditingLevel,
    InGameStore,
    WatchingCutscene,
    WatchingCredits,
    PlayingMinigame,
    FoundSecret,
    CornflowerBlue,
}

impl NativeEnumValue for GamerPresenceMode {
    open spec fn spec_native(self) -> u32 {
        match self {
            GamerPresenceMode::NoPresence => 0,
            GamerPresenceMode::SinglePlayer => 1,
            GamerPresenceMode::Multiplayer => 2,
            GamerPresenceMode::LocalCoOp => 3,
            GamerPresenceMode::LocalVersus => 4,
            GamerPresenceMode::OnlineCoOp => 5,
            GamerPresenceMode::OnlineVersus => 6,
            GamerPresenceMode::VersusComputer => 7,
            GamerPresenceMode::Stage => 8,
            GamerPresenceMode::Level => 9,
            GamerPresenceMode::CoOpStage => 10,
            GamerPresenceMode::CoOpLevel => 11,
            GamerPresenceMode::ArcadeMode => 12,
            GamerPresenceMode::CampaignMode => 13,
            GamerPresenceMode::ChallengeMode => 14,
            GamerPresenceMode::ExplorationMode => 15,
            GamerPresenceMode::PracticeMode => 16,
            GamerPresenceMode::PuzzleMode => 17,
            GamerPresenceMode::ScenarioMode => 18,
            GamerPresenceMode::StoryMode => 19,
            GamerPresenceMode::SurvivalMode => 20,
            GamerPresenceMode::TutorialMode => 21,
            GamerPresenceMode::DifficultyEasy => 22,
            GamerPresenceMode::DifficultyMedium => 23,
            GamerPresenceMode::DifficultyHard => 24,
            GamerPresenceMode::DifficultyExtreme => 25,
            GamerPresenceMode::Score => 26,
            GamerPresenceMode::VersusScore => 27,
            GamerPresenceMode::Winning => 28,
            GamerPresenceMode::Losing => 29,
            GamerPresenceMode::ScoreIsTied => 30,
            GamerPresenceMode::Outnumbered => 31,
            GamerPresenceMode::OnARoll => 32,
            GamerPresenceMode::InCombat => 33,
            GamerPresenceMode::BattlingBoss => 34,
            GamerPresenceMode::TimeAttack => 35,
            GamerPresenceMode::TryingForRecord => 36,
            GamerPresenceMode::FreePlay => 37,
            GamerPresenceMode::WastingTime => 38,
            GamerPresenceMode::StuckOnAHardBit => 39,
            GamerPresenceMode::NearlyFinished => 40,
            GamerPresenceMode::LookingForGames => 41,
            GamerPresenceMode::WaitingForPlayers => 42,
            GamerPresenceMode::WaitingInLobby => 43,
            GamerPresenceMode::SettingUpMatch => 44,
            GamerPresenceMode::PlayingWithFriends => 45,
            GamerPresenceMode::AtMenu => 46,
            GamerPresenceMode::StartingGame => 47,
            GamerPresenceMode::Paused => 48,
            GamerPresenceMode::GameOver => 49,
            GamerPresenceMode::WonTheGame => 50,
            GamerPresenceMode::ConfiguringSettings => 51,
            GamerPresenceMode::CustomizingPlayer => 52,
            GamerPresenceMode::EditingLevel => 53,
            GamerPresenceMode::InGameStore => 54,
            GamerPresenceMode::WatchingCutscene => 55,
            GamerPresenceMode::WatchingCredits => 56,
            GamerPresenceMode::PlayingMinigame => 57,
            GamerPresenceMode::FoundSecret => 58,
            GamerPresenceMode::CornflowerBlue => 59,
        }
    }

    open spec fn spec_from_native(value: u32) -> Option<Self> {
        if value == 0 {
            Some(GamerPresenceMode::NoPresence)
        } else if value == 1 {
            Some(GamerPresenceMode::SinglePlayer)
        } else if value == 2 {
            Some(GamerPresenceMode::Multiplayer)
        } else if value == 3 {
            Some(GamerPresenceMode::LocalCoOp)
        } else if value == 4 {
            Some(GamerPresenceMode::LocalVersus)
        } else if value == 5 {
            Some(GamerPresenceMode::OnlineCoOp)
        } else if value == 6 {
            Some(GamerPresenceMode::OnlineVersus)
        } else if value == 7 {
            Some(GamerPresenceMode::VersusComputer)
        } else if value == 8 {
            Some(GamerPresenceMode::Stage)
        } else if value == 9 {
            Some(GamerPresenceMode::Level)
        } else if value == 10 {
            Some(GamerPresenceMode::CoOpStage)
        } else if value == 11 {
            Some(GamerPresenceMode::CoOpLevel)
        } else if value == 12 {
            Some(GamerPresenceMode::ArcadeMode)
        } else if value == 13 {
            Some(GamerPresenceMode::CampaignMode)
        } else if value == 14 {
            Some(GamerPresenceMode::ChallengeMode)
        } else if value == 15 {
            Some(GamerPresenceMode::ExplorationMode)
        } else if value == 16 {
            Some(GamerPresenceMode::PracticeMode)
        } else if value == 17 {
            Some(GamerPresenceMode::PuzzleMode)
        } else if value == 18 {
            Some(GamerPresenceMode::ScenarioMode)
        } else if value == 19 {
            Some(GamerPresenceMode::StoryMode)
        } else if value == 20 {
            Some(GamerPresenceMode::SurvivalMode)
        } else if value == 21 {
            Some(GamerPresenceMode::TutorialMode)
        } else if value == 22 {
            Some(GamerPresenceMode::DifficultyEasy)
        } else if value == 23 {
            Some(GamerPresenceMode::DifficultyMedium)
        } else if value == 24 {
            Some(GamerPresenceMode::DifficultyHard)
        } else if value == 25 {
            Some(GamerPresenceMode::DifficultyExtreme)
        } else if value == 26 {
            Some(GamerPresenceMode::Score)
        } else if value == 27 {
            Some(GamerPresenceMode::VersusScore)
        } else if value == 28 {
            Some(GamerPresenceMode::Winning)
        } else if value == 29 {
            Some(GamerPresenceMode::Losing)
        } else if value == 30 {
            Some(GamerPresenceMode::ScoreIsTied)
        } else if value == 31 {
            Some(GamerPresenceMode::Outnumbered)
        } else if value == 32 {
            Some(GamerPresenceMode::OnARoll)
        } else if value == 33 {
            Some(GamerPresenceMode::InCombat)
        } else if value == 34 {
            Some(GamerPresenceMode::BattlingBoss)
        } else if value == 35 {
            Some(GamerPresenceMode::TimeAttack)
        } else if value == 36 {
            Some(GamerPresenceMode::TryingForRecord)
        } else if value == 37 {
            Some(GamerPresenceMode::FreePlay)
        } else if value == 38 {
            Some(GamerPresenceMode::WastingTime)
        } else if value == 39 {
            Some(GamerPresenceMode::StuckOnAHardBit)
        } else if value == 40 {
            Some(GamerPresenceMode::NearlyFinished)
        } else if value == 41 {
            Some(GamerPresenceMode::LookingForGames)
        } else if value == 42 {
            Some(GamerPresenceMode::WaitingForPlayers)
        } else if value == 43 {
            Some(GamerPresenceMode::WaitingInLobby)
        } else if value == 44 {
            Some(GamerPresenceMode::SettingUpMatch)
        } else if value == 45 {
            Some(GamerPresenceMode::PlayingWithFriends)
        } else if value == 46 {
            Some(GamerPresenceMode::AtMenu)
        } else if value == 47 {
            Some(GamerPresenceMode::StartingGame)
        } else if value == 48 {
            Some(GamerPresenceMode::Paused)
        } else if value == 49 {
            Some(GamerPresenceMode::GameOver)
        } else if value == 50 {
            Some(GamerPresenceMode::WonTheGame)
        } else if value == 51 {
            Some(GamerPresenceMode::ConfiguringSettings)
        } else if value == 52 {
            Some(GamerPresenceMode::CustomizingPlayer)
        } else if value == 53 {
            Some(GamerPresenceMode::EditingLevel)
        } else if value == 54 {
            Some(GamerPresenceMode::InGameStore)
        } else if value == 55 {
            Some(GamerPresenceMode::WatchingCutscene)
        } else if value == 56 {
            Some(GamerPresenceMode::WatchingCredits)
        } else if value == 57 {
            Some(GamerPresenceMode::PlayingMinigame)
        } else if value == 58 {
            Some(GamerPresenceMode::FoundSecret)
        } else if value == 59 {
            Some(GamerPresenceMode::CornflowerBlue)
        } else {
            None
        }
    }

    proof fn lemma_native_round_trip(self) {
    }

    proof fn lemma_from_native_inverse(value: u32) {
    }

    fn native_value(self) -> (r: u32) {
        match self {
            GamerPresenceMode::NoPresence => 0,
            GamerPresenceMode::SinglePlayer => 1,
            GamerPresenceMode::Multiplayer => 2,
            GamerPresenceMode::LocalCoOp => 3,
            GamerPresenceMode::LocalVersus => 4,
            GamerPresenceMode::OnlineCoOp => 5,
            GamerPresenceMode::OnlineVersus => 6,
            GamerPresenceMode::VersusComputer => 7,
            GamerPresenceMode::Stage => 8,
            GamerPresenceMode::Level => 9,
            GamerPresenceMode::CoOpStage => 10,
            GamerPresenceMode::CoOpLevel => 11,
            GamerPresenceMode::ArcadeMode => 12,
            GamerPresenceMode::CampaignMode => 13,
            GamerPresenceMode::ChallengeMode => 14,
            GamerPresenceMode::ExplorationMode => 15,
            GamerPresenceMode::PracticeMode => 16,
            GamerPresenceMode::PuzzleMode => 17,
            GamerPresenceMode::ScenarioMode => 18,
            GamerPresenceMode::StoryMode => 19,
            GamerPresenceMode::SurvivalMode => 20,
            GamerPresenceMode::TutorialMode => 21,
            GamerPresenceMode::DifficultyEasy => 22,
            GamerPresenceMode::DifficultyMedium => 23,
            GamerPresenceMode::DifficultyHard => 24,
            GamerPresenceMode::DifficultyExtreme => 25,
            GamerPresenceMode::Score => 26,
            GamerPresenceMode::VersusScore => 27,
            GamerPresenceMode::Winning => 28,
            GamerPresenceMode::Losing => 29,
            GamerPresenceMode::ScoreIsTied => 30,
            GamerPresenceMode::Outnumbered => 31,
            GamerPresenceMode::OnARoll => 32,
            GamerPresenceMode::InCombat => 33,
            GamerPresenceMode::BattlingBoss => 34,
            GamerPresenceMode::TimeAttack => 35,
            GamerPresenceMode::TryingForRecord => 36,
            GamerPresenceMode::FreePlay => 37,
            GamerPresenceMode::WastingTime => 38,
            GamerPresenceMode::StuckOnAHardBit => 39,
            GamerPresenceMode::NearlyFinished => 40,
            GamerPresenceMode::LookingForGames => 41,
            GamerPresenceMode::WaitingForPlayers => 42,
            GamerPresenceMode::WaitingInLobby => 43,
            GamerPresenceMode::SettingUpMatch => 44,
            GamerPresenceMode::PlayingWithFriends => 45,
            GamerPresenceMode::AtMenu => 46,
            GamerPresenceMode::StartingGame => 47,
            GamerPresenceMode::Paused => 48,
            GamerPresenceMode::GameOver => 49,
            GamerPresenceMode::WonTheGame => 50,
            GamerPresenceMode::ConfiguringSettings => 51,
            GamerPresenceMode::CustomizingPlayer => 52,
            GamerPresenceMode::EditingLevel => 53,
            GamerPresenceMode::InGameStore => 54,
            GamerPresenceMode::WatchingCutscene => 55,
            GamerPresenceMode::WatchingCredits => 56,
            GamerPresenceMode::PlayingMinigame => 57,
            GamerPresenceMode::FoundSecret => 58,
            GamerPresenceMode::CornflowerBlue => 59,
        }
    }

    fn from_native_value(value: u32) -> (r: Option<Self>) {
        if value == 0 {
            Some(GamerPresenceMode::NoPresence)
        } else if value == 1 {
            Some(GamerPresenceMode::SinglePlayer)
        } else if value == 2 {
            Some(GamerPresenceMode::Multiplayer)
        } else if value == 3 {
            Some(GamerPresenceMode::LocalCoOp)
        } else if value == 4 {
            Some(GamerPresenceMode::LocalVersus)
        } else if value == 5 {
            Some(GamerPresenceMode::OnlineCoOp)
        } else if value == 6 {
            Some(GamerPresenceMode::OnlineVersus)
        } else if value == 7 {
            Some(GamerPresenceMode::VersusComputer)
        } else if value == 8 {
            Some(GamerPresenceMode::Stage)
        } else if value == 9 {
            Some(GamerPresenceMode::Level)
        } else if value == 10 {
            Some(GamerPresenceMode::CoOpStage)
        } else if value == 11 {
            Some(GamerPresenceMode::CoOpLevel)
        } else if value == 12 {
            Some(GamerPresenceMode::ArcadeMode)
        } else if value == 13 {
            Some(GamerPresenceMode::CampaignMode)
        } else if value == 14 {
            Some(GamerPresenceMode::ChallengeMode)
        } else if value == 15 {
            Some(GamerPresenceMode::ExplorationMode)
        } else if value == 16 {
            Some(GamerPresenceMode::PracticeMode)
        } else if value == 17 {
            Some(GamerPresenceMode::PuzzleMode)
        } else if value == 18 {
            Some(GamerPresenceMode::ScenarioMode)
        } else if value == 19 {
            Some(GamerPresenceMode::StoryMode)
        } else if value == 20 {
            Some(GamerPresenceMode::SurvivalMode)
        } else if value == 21 {
            Some(GamerPresenceMode::TutorialMode)
        } else if value == 22 {
            Some(GamerPresenceMode::DifficultyEasy)
        } else if value == 23 {
            Some(GamerPresenceMode::DifficultyMedium)
        } else if value == 24 {
            Some(GamerPresenceMode::DifficultyHard)
        } else if value == 25 {
            Some(GamerPresenceMode::DifficultyExtreme)
        } else if value == 26 {
            Some(GamerPresenceMode::Score)
        } else if value == 27 {
            Some(GamerPresenceMode::VersusScore)
        } else if value == 28 {
            Some(GamerPresenceMode::Winning)
        } else if value == 29 {
            Some(GamerPresenceMode::Losing)
        } else if value == 30 {
            Some(GamerPresenceMode::ScoreIsTied)
        } else if value == 31 {
            Some(GamerPresenceMode::Outnumbered)
        } else if value == 32 {
            Some(GamerPresenceMode::OnARoll)
        } else if value == 33 {
            Some(GamerPresenceMode::InCombat)
        } else if value == 34 {
            Some(GamerPresenceMode::BattlingBoss)
        } else if value == 35 {
            Some(GamerPresenceMode::TimeAttack)
        } else if value == 36 {
            Some(GamerPresenceMode::TryingForRecord)
        } else if value == 37 {
            Some(GamerPresenceMode::FreePlay)
        } else if value == 38 {
            Some(GamerPresenceMode::WastingTime)
        } else if value == 39 {
            Some(GamerPresenceMode::StuckOnAHardBit)
        } else if value == 40 {
            Some(GamerPresenceMode::NearlyFinished)
        } else if value == 41 {
            Some(GamerPresenceMode::LookingForGames)
        } else if value == 42 {
            Some(GamerPresenceMode::WaitingForPlayers)
        } else if value == 43 {
            Some(GamerPresenceMode::WaitingInLobby)
        } else if value == 44 {
            Some(GamerPresenceMode::SettingUpMatch)
        } else if value == 45 {
            Some(GamerPresenceMode::PlayingWithFriends)
        } else if value == 46 {
            Some(GamerPresenceMode::AtMenu)
        } else if value == 47 {
            Some(GamerPresenceMode::StartingGame)
        } else if value == 48 {
            Some(GamerPresenceMode::Paused)
        } else if value == 49 {
            Some(GamerPresenceMode::GameOver)
        } else if value == 50 {
            Some(GamerPresenceMode::WonTheGame)
        } else if value == 51 {
            Some(GamerPresenceMode::ConfiguringSettings)
        } else if value == 52 {
            Some(GamerPresenceMode::CustomizingPlayer)
        } else if value == 53 {
            Some(GamerPresenceMode::EditingLevel)
        } else if value == 54 {
            Some(GamerPresenceMode::InGameStore)
        } else if value == 55 {
            Some(GamerPresenceMode::WatchingCutscene)
        } else if value == 56 {
            Some(GamerPresenceMode::WatchingCredits)
        } else if value == 57 {
            Some(GamerPresenceMode::PlayingMinigame)
        } else if value == 58 {
            Some(GamerPresenceMode::FoundSecret)
        } else if value == 59 {
            Some(GamerPresenceMode::CornflowerBlue)
        } else {
            None
        }
    }
}

/// XNA `Microsoft.Xna.Framework.GamerServices.GamerPrivilegeSetting`.
#[derive(Clone, Copy, Debug, Eq, Hash, Ord, PartialEq, PartialOrd, Structural)]
pub enum GamerPrivilegeSetting {
    Blocked,
    FriendsOnly,
    Everyone,
}

impl NativeEnumValue for GamerPrivilegeSetting {
    open spec fn spec_native(self) -> u32 {
        match self {
            GamerPrivilegeSetting::Blocked => 0,
            GamerPrivilegeSetting::FriendsOnly => 1,
            GamerPrivilegeSetting::Everyone => 2,
        }
    }

    open spec fn spec_from_native(value: u32) -> Option<Self> {
        if value == 0 {
            Some(GamerPrivilegeSetting::Blocked)
        } else if value == 1 {
            Some(GamerPrivilegeSetting::FriendsOnly)
        } else if value == 2 {
            Some(GamerPrivilegeSetting::Everyone)
        } else {
            None
        }
    }

    proof fn lemma_native_round_trip(self) {
    }

    proof fn lemma_from_native_inverse(value: u32) {
    }

    fn native_value(self) -> (r: u32) {
        match self {
            GamerPrivilegeSetting::Blocked => 0,
            GamerPrivilegeSetting::FriendsOnly => 1,
            GamerPrivilegeSetting::Everyone => 2,
        }
    }

    fn from_native_value(value: u32) -> (r: Option<Self>) {
        if value == 0 {
            Some(GamerPrivilegeSetting::Blocked)
        } else if value == 1 {
            Some(GamerPrivilegeSetting::FriendsOnly)
        } else if value == 2 {
            Some(GamerPrivilegeSetting::Everyone)
        } else {
            None
        }
    }
}

/// XNA `Microsoft.Xna.Framework.GamerServices.GamerZone`.
#[derive(Clone, Copy, Debug, Eq, Hash, Ord, PartialEq, PartialOrd, Structural)]
pub enum GamerZone {
    Unknown,
    Recreation,
    Pro,
    Family,
    Underground,
}

impl NativeEnumValue for GamerZone {
    open spec fn spec_native(self) -> u32 {
        match self {
            GamerZone::Unknown => 0,
            GamerZone::Recreation => 1,
            GamerZone::Pro => 2,
            GamerZone::Family => 3,
            GamerZone::Underground => 4,
        }
    }

    open spec fn spec_from_native(value: u32) -> Option<Self> {
        if value == 0 {
            Some(GamerZone::Unknown)
        } else if value == 1 {
            Some(GamerZone::Recreation)
        } else if value == 2 {
            Some(GamerZone::Pro)
        } else if value == 3 {
            Some(GamerZone::Family)
        } else if value == 4 {
            Some(GamerZone::Underground)
        } else {
            None
        }
    }

    proof fn lemma_native_round_trip(self) {
    }

    proof fn lemma_from_native_inverse(value: u32) {
    }

    fn native_value(self) -> (r: u32) {
        match self {
            GamerZone::Unknown => 0,
            GamerZone::Recreation => 1,
            GamerZone::Pro => 2,
            GamerZone::Family => 3,
            GamerZone::Underground => 4,
        }
    }

    fn from_native_value(value: u32) -> (r: Option<Self>) {
        if value == 0 {
            Some(GamerZone::Unknown)
        } else if value == 1 {
            Some(GamerZone::Recreation)
        } else if value == 2 {
            Some(GamerZone::Pro)
        } else if value == 3 {
            Some(GamerZone::Family)
        } else if value == 4 {
            Some(GamerZone::Underground)
        } else {
            None
        }
    }
}

/// XNA `Microsoft.Xna.Framework.GamerServices.LeaderboardKey`.
#[derive(Clone, Copy, Debug, Eq, Hash, Ord, PartialEq, PartialOrd, Structural)]
pub enum LeaderboardKey {
    BestScoreLifeTime,
    BestScoreRecent,
    BestTimeLifeTime,
    BestTimeRecent,
}

impl NativeEnumValue for LeaderboardKey {
    open spec fn spec_native(self) -> u32 {
        match self {
            LeaderboardKey::BestScoreLifeTime => 0,
            LeaderboardKey::BestScoreRecent => 1,
            LeaderboardKey::BestTimeLifeTime => 2,
            LeaderboardKey::BestTimeRecent => 3,
        }
    }

    open spec fn spec_from_native(value: u32) -> Option<Self> {
        if value == 0 {
            Some(LeaderboardKey::BestScoreLifeTime)
        } else if value == 1 {
            Some(LeaderboardKey::BestScoreRecent)
        } else if value == 2 {
            Some(LeaderboardKey::BestTimeLifeTime)
        } else if value == 3 {
            Some(LeaderboardKey::BestTimeRecent)
        } else {
            None
        }
    }

    proof fn lemma_native_round_trip(self) {
    }

    proof fn lemma_from_native_inverse(value: u32) {
    }

    fn native_value(self) -> (r: u32) {
        match self {
            LeaderboardKey::BestScoreLifeTime => 0,
            LeaderboardKey::BestScoreRecent => 1,
            LeaderboardKey::BestTimeLifeTime => 2,
            LeaderboardKey::BestTimeRecent => 3,
        }
    }

    fn from_native_value(value: u32) -> (r: Option<Self>) {
        if value == 0 {
            Some(LeaderboardKey::BestScoreLifeTime)
        } else if value == 1 {
            Some(LeaderboardKey::BestScoreRecent)
        } else if value == 2 {
            Some(LeaderboardKey::BestTimeLifeTime)
        } else if value == 3 {
            Some(LeaderboardKey::BestTimeRecent)
        } else {
            None
        }
    }
}

/// XNA `Microsoft.Xna.Framework.GamerServices.LeaderboardOutcome`.
#[derive(Clone, Copy, Debug, Eq, Hash, Ord, PartialEq, PartialOrd, Structural)]
pub enum LeaderboardOutcome {
    NoOutcome,
    Win,
    Loss,
    Tie,
}

impl NativeEnumValue for LeaderboardOutcome {
    open spec fn spec_native(self) -> u32 {
        match self {
            LeaderboardOutcome::NoOutcome => 0,
            LeaderboardOutcome::Win => 1,
            LeaderboardOutcome::Loss => 2,
            LeaderboardOutcome::Tie => 3,
        }
    }

    open spec fn spec_from_native(value: u32) -> Option<Self> {
        if value == 0 {
            Some(LeaderboardOutcome::NoOutcome)
        } else if value == 1 {
            Some(LeaderboardOutcome::Win)
        } else if value == 2 {
            Some(LeaderboardOutcome::Loss)
        } else if value == 3 {
            Some(LeaderboardOutcome::Tie)
        } else {
            None
        }
    }

    proof fn lemma_native_round_trip(self) {
    }

    proof fn lemma_from_native_inverse(value: u32) {
    }

    fn native_value(self) -> (r: u32) {
        match self {
            LeaderboardOutcome::NoOutcome => 0,
            LeaderboardOutcome::Win => 1,
            LeaderboardOutcome::Loss => 2,
            LeaderboardOutcome::Tie => 3,
        }
    }

    fn from_native_value(value: u32) -> (r: Option<Self>) {
        if value == 0 {
            Some(LeaderboardOutcome::NoOutcome)
        } else if value == 1 {
            Some(LeaderboardOutcome::Win)
        } else if value == 2 {
            Some(LeaderboardOutcome::Loss)
        } else if value == 3 {
            Some(LeaderboardOutcome::Tie)
        } else {
            None
        }
    }
}

/// XNA `Microsoft.Xna.Framework.GamerServices.MessageBoxIcon`.
#[derive(Clone, Copy, Debug, Eq, Hash, Ord, PartialEq, PartialOrd, Structural)]
pub enum MessageBoxIcon {
    NoIcon,
    Error,
    Warning,
    Alert,
}

impl NativeEnumValue for MessageBoxIcon {
    open spec fn spec_native(self) -> u32 {
        match self {
            MessageBoxIcon::NoIcon => 0,
            MessageBoxIcon::Error => 1,
            MessageBoxIcon::Warning => 2,
            MessageBoxIcon::Alert => 3,
        }
    }

    open spec fn spec_from_native(value: u32) -> Option<Self> {
        if value == 0 {
            Some(MessageBoxIcon::NoIcon)
        } else if value == 1 {
            Some(MessageBoxIcon::Error)
        } else if value == 2 {
            Some(MessageBoxIcon::Warning)
        } else if value == 3 {
            Some(MessageBoxIcon::Alert)
        } else {
            None
        }
    }

    proof fn lemma_native_round_trip(self) {
    }

    proof fn lemma_from_native_inverse(value: u32) {
    }

    fn native_value(self) -> (r: u32) {
        match self {
            MessageBoxIcon::NoIcon => 0,
            MessageBoxIcon::Error => 1,
            MessageBoxIcon::Warning => 2,
            MessageBoxIcon::Alert => 3,
        }
    }

    fn from_native_value(value: u32) -> (r: Option<Self>) {
        if value == 0 {
            Some(MessageBoxIcon::NoIcon)
        } else if value == 1 {
            Some(MessageBoxIcon::Error)
        } else if value == 2 {
            Some(MessageBoxIcon::Warning)
        } else if value == 3 {
            Some(MessageBoxIcon::Alert)
        } else {
            None
        }
    }
}

/// XNA `Microsoft.Xna.Framework.GamerServices.NotificationPosition`.
#[derive(Clone, Copy, Debug, Eq, Hash, Ord, PartialEq, PartialOrd, Structural)]
pub enum NotificationPosition {
    TopLeft,
    TopCenter,
    TopRight,
    CenterLeft,
    Center,
    CenterRight,
    BottomLeft,
    BottomCenter,
    BottomRight,
}

impl NativeEnumValue for NotificationPosition {
    open spec fn spec_native(self) -> u32 {
        match self {
            NotificationPosition::TopLeft => 0,
            NotificationPosition::TopCenter => 1,
            NotificationPosition::TopRight => 2,
            NotificationPosition::CenterLeft => 3,
            NotificationPosition::Center => 4,
            NotificationPosition::CenterRight => 5,
            NotificationPosition::BottomLeft => 6,
            NotificationPosition::BottomCenter => 7,
            NotificationPosition::BottomRight => 8,
        }
    }

    open spec fn spec_from_native(value: u32) -> Option<Self> {
        if value == 0 {
            Some(NotificationPosition::TopLeft)
        } else if value == 1 {
            Some(NotificationPosition::TopCenter)
        } else if value == 2 {
            Some(NotificationPosition::TopRight)
        } else if value == 3 {
            Some(NotificationPosition::CenterLeft)
        } else if value == 4 {
            Some(NotificationPosition::Center)
        } else if value == 5 {
            Some(NotificationPosition::CenterRight)
        } else if value == 6 {
            Some(NotificationPosition::BottomLeft)
        } else if value == 7 {
            Some(NotificationPosition::BottomCenter)
        } else if value == 8 {
            Some(NotificationPosition::BottomRight)
        } else {
            None
        }
    }

    proof fn lemma_native_round_trip(self) {
    }

    proof fn lemma_from_native_inverse(value: u32) {
    }

    fn native_value(self) -> (r: u32) {
        match self {
            NotificationPosition::TopLeft => 0,
            NotificationPosition::TopCenter => 1,
            NotificationPosition::TopRight => 2,
            NotificationPosition::CenterLeft => 3,
            NotificationPosition::Center => 4,
            NotificationPosition::CenterRight => 5,
            NotificationPosition::BottomLeft => 6,
            NotificationPosition::BottomCenter => 7,
            NotificationPosition::BottomRight => 8,
        }
    }

    fn from_native_value(value: u32) -> (r: Option<Self>) {
        if value == 0 {
            Some(NotificationPosition::TopLeft)
        } else if value == 1 {
            Some(NotificationPosition::TopCenter)
        } else if value == 2 {
            Some(NotificationPosition::TopRight)
        } else if value == 3 {
            Some(NotificationPosition::CenterLeft)
        } else if value == 4 {
            Some(NotificationPosition::Center)
        } else if value == 5 {
            Some(NotificationPosition::CenterRight)
        } else if value == 6 {
            Some(NotificationPosition::BottomLeft)
        } else if value == 7 {
            Some(NotificationPosition::BottomCenter)
        } else if value == 8 {
            Some(NotificationPosition::BottomRight)
        } else {
            None
        }
    }
}

/// XNA `Microsoft.Xna.Framework.GamerServices.RacingCameraAngle`.
#[derive(Clone, Copy, Debug, Eq, Hash, Ord, PartialEq, PartialOrd, Structural)]
pub enum RacingCameraAngle {
    Back,
    Front,
    Inside,
}

impl NativeEnumValue for RacingCameraAngle {
    open spec fn spec_native(self) -> u32 {
        match self {
            RacingCameraAngle::Back => 0,
            RacingCameraAngle::Front => 1,
            RacingCameraAngle::Inside => 2,
        }
    }

    open spec fn spec_from_native(value: u32) -> Option<Self> {
        if value == 0 {
            Some(RacingCameraAngle::Back)
        } else if value == 1 {
            Some(RacingCameraAngle::Front)
        } else if value == 2 {
            Some(RacingCameraAngle::Inside)
        } else {
            None
        }
    }

    proof fn lemma_native_round_trip(self) {
    }

    proof fn lemma_from_native_inverse(value: u32) {
    }

    fn native_value(self) -> (r: u32) {
        match self {
            RacingCameraAngle::Back => 0,
            RacingCameraAngle::Front => 1,
            RacingCameraAngle::Inside => 2,
        }
    }

    fn from_native_value(value: u32) -> (r: Option<Self>) {
        if value == 0 {
            Some(RacingCameraAngle::Back)
        } else if value == 1 {
            Some(RacingCameraAngle::Front)
        } else if value == 2 {
            Some(RacingCameraAngle::Inside)
        } else {
            None
        }
    }
}

/// What an exception holds: its message, the text of the exception that
/// caused it, and the state of the streaming context it was rebuilt from.
pub struct ExceptionView {
    pub message: Seq<char>,
    pub inner_message: Option<Seq<char>>,
    pub streaming_context: Option<i32>,
}

/// An exception that carries only a message.
pub open spec fn exception_with_message(message: Seq<char>) -> ExceptionView {
    ExceptionView { message, inner_message: None, streaming_context: None }
}

/// The displayed text of an exception.
pub open spec fn display_text(e: ExceptionView) -> Seq<char> {
    match e.inner_message {
        Some(inner) => e.message + ": "@ + inner,
        None => e.message,
    }
}

/// Marker for the composed CLR base-class relationship of the two exceptions
/// that derive from `NetworkException`.
pub trait NetworkExceptionBase {
    /// CLR `Exception.Message` of this exception.
    fn Message(&self) -> String;
}

fn display_string(message: &String, inner: &Option<String>) -> (r: String)
    ensures
        r@ == (match inner {
            Some(text) => message@ + ": "@ + text@,
            None => message@,
        }),
{
    let mut text = message.clone();
    match inner {
        Some(inner_text) => {
            text.append(": ");
            text.append(inner_text.as_str());
        },
        None => {},
    }
    text
}

/// XNA `GameUpdateRequiredException`.
#[derive(Clone, Debug, Eq, PartialEq)]
pub struct GameUpdateRequiredException {
    message: String,
    inner_message: Option<String>,
    streaming_context: Option<i32>,
}

impl View for GameUpdateRequiredException {
    type V = ExceptionView;

    closed spec fn view(&self) -> ExceptionView {
        ExceptionView {
            message: self.message@,
            inner_message: match &self.inner_message {
                Some(inner) => Some(inner@),
                None => None,
            },
            streaming_context: self.streaming_context,
        }
    }
}

impl GameUpdateRequiredException {
    /// The exception with XNA's default message.
    pub fn new() -> (r: Self)
        ensures
            r@ == exception_with_message("A required title update is not installed."@),
    {
        GameUpdateRequiredException {
            message: String::from_str("A required title update is not installed."),
            inner_message: None,
            streaming_context: None,
        }
    }

    /// The exception with the caller's message.
    pub fn from_message(message: &str) -> (r: Self)
        ensures
            r@ == exception_with_message(message@),
    {
        GameUpdateRequiredException { message: String::from_str(message), inner_message: None, streaming_context: None }
    }

    /// The exception with the caller's message and the text of the exception
    /// that caused it.
    pub fn from_message_and_inner_exception(message: &str, inner: &str) -> (r: Self)
        ensures
            r@ == (ExceptionView {
                message: message@,
                inner_message: Some(inner@),
                streaming_context: None,
            }),
    {
        GameUpdateRequiredException {
            message: String::from_str(message),
            inner_message: Some(String::from_str(inner)),
            streaming_context: None,
        }
    }

    /// The exception rebuilt from serialized state: its message and the state
    /// of the streaming context it came through.
    pub fn from_info_and_context(message: &str, context_state: i32) -> (r: Self)
        ensures
            r@ == (ExceptionView {
                message: message@,
                inner_message: None,
                streaming_context: Some(context_state),
            }),
    {
        GameUpdateRequiredException {
            message: String::from_str(message),
            inner_message: None,
            streaming_context: Some(context_state),
        }
    }

    /// The text XNA shows for the exception: the message, then `": "` and the
    /// inner exception's text when there is one.
    pub fn to_display_string(&self) -> (r: String)
        ensures
            r@ == display_text(self@),
    {
        display_string(&self.message, &self.inner_message)
    }
}

impl Default for GameUpdateRequiredException {
    fn default() -> (r: Self)
        ensures
            r@ == exception_with_message("A required title update is not installed."@),
    {
        Self::new()
    }
}

/// XNA `GamerPrivilegeException`.
#[derive(Clone, Debug, Eq, PartialEq)]
pub struct GamerPrivilegeException {
    message: String,
    inner_message: Option<String>,
    streaming_context: Option<i32>,
}

impl View for GamerPrivilegeException {
    type V = ExceptionView;

    closed spec fn view(&self) -> ExceptionView {
        ExceptionView {
            message: self.message@,
            inner_message: match &self.inner_message {
                Some(inner) => Some(inner@),
                None => None,
            },
            streaming_context: self.streaming_context,
        }
    }
}

impl GamerPrivilegeException {
    /// The exception with XNA's default message.
    pub fn new() -> (r: Self)
        ensures
            r@ == exception_with_message("The gamer does not have the required privilege."@),
    {
        GamerPrivilegeException {
            message: String::from_str("The gamer does not have the required privilege."),
            inner_message: None,
            streaming_context: None,
        }
    }

    /// The exception with the caller's message.
    pub fn from_message(message: &str) -> (r: Self)
        ensures
            r@ == exception_with_message(message@),
    {
        GamerPrivilegeException { message: String::from_str(message), inner_message: None, streaming_context: None }
    }

    /// The exception with the caller's message and the text of the exception
    /// that caused it.
    pub fn from_message_and_inner_exception(message: &str, inner: &str) -> (r: Self)
        ensures
            r@ == (ExceptionView {
                message: message@,
                inner_message: Some(inner@),
                streaming_context: None,
            }),
    {
        GamerPrivilegeException {
            message: String::from_str(message),
            inner_message: Some(String::from_str(inner)),
            streaming_context: None,
        }
    }

    /// The exception rebuilt from serialized state: its message and the state
    /// of the streaming context it came through.
    pub fn from_info_and_context(message: &str, context_state: i32) -> (r: Self)
        ensures
            r@ == (ExceptionView {
                message: message@,
                inner_message: None,
                streaming_context: Some(context_state),
            }),
    {
        GamerPrivilegeException {
            message: String::from_str(message),
            inner_message: None,
            streaming_context: Some(context_state),
        }
    }

    /// The text XNA shows for the exception: the message, then `": "` and the
    /// inner exception's text when there is one.
    pub fn to_display_string(&self) -> (r: String)
        ensures
            r@ == display_text(self@),
    {
        display_string(&self.message, &self.inner_message)
    }
}

impl Default for GamerPrivilegeException {
    fn default() -> (r: Self)
        ensures
            r@ == exception_with_message("The gamer does not have the required privilege."@),
    {
        Self::new()
    }
}

/// XNA `GamerServicesNotAvailableException`.
#[derive(Clone, Debug, Eq, PartialEq)]
pub struct GamerServicesNotAvailableException {
    message: String,
    inner_message: Option<String>,
    streaming_context: Option<i32>,
}

impl View for GamerServicesNotAvailableException {
    type V = ExceptionView;

    closed spec fn view(&self) -> ExceptionView {
        ExceptionView {
            message: self.message@,
            inner_message: match &self.inner_message {
                Some(inner) => Some(inner@),
                None => None,
            },
            streaming_context: self.streaming_context,
        }
    }
}

impl GamerServicesNotAvailableException {
    /// The exception with XNA's default message.
    pub fn new() -> (r: Self)
        ensures
            r@ == exception_with_message("Gamer services are not available."@),
    {
        GamerServicesNotAvailableException {
            message: String::from_str("Gamer services are not available."),
            inner_message: None,
            streaming_context: None,
        }
    }

    /// The exception with the caller's message.
    pub fn from_message(message: &str) -> (r: Self)
        ensures
            r@ == exception_with_message(message@),
    {
        GamerServicesNotAvailableException { message: String::from_str(message), inner_message: None, streaming_context: None }
    }

    /// The exception with the caller's message and the text of the exception
    /// that caused it.
    pub fn from_message_and_inner_exception(message: &str, inner: &str) -> (r: Self)
        ensures
            r@ == (ExceptionView {
                message: message@,
                inner_message: Some(inner@),
                streaming_context: None,
            }),
    {
        GamerServicesNotAvailableException {
            message: String::from_str(message),
            inner_message: Some(String::from_str(inner)),
            streaming_context: None,
        }
    }

    /// The exception rebuilt from serialized state: its message and the state
    /// of the streaming context it came through.
    pub fn from_info_and_context(message: &str, context_state: i32) -> (r: Self)
        ensures
            r@ == (ExceptionView {
                message: message@,
                inner_message: None,
                streaming_context: Some(context_state),
            }),
    {
        GamerServicesNotAvailableException {
            message: String::from_str(message),
            inner_message: None,
            streaming_context: Some(context_state),
        }
    }

    /// The text XNA shows for the exception: the message, then `": "` and the
    /// inner exception's text when there is one.
    pub fn to_display_string(&self) -> (r: String)
        ensures
            r@ == display_text(self@),
    {
        display_string(&self.message, &self.inner_message)
    }
}

impl Default for GamerServicesNotAvailableException {
    fn default() -> (r: Self)
        ensures
            r@ == exception_with_message("Gamer services are not available."@),
    {
        Self::new()
    }
}

/// XNA `GuideAlreadyVisibleException`.
#[derive(Clone, Debug, Eq, PartialEq)]
pub struct GuideAlreadyVisibleException {
    message: String,
    inner_message: Option<String>,
    streaming_context: Option<i32>,
}

impl View for GuideAlreadyVisibleException {
    type V = ExceptionView;

    closed spec fn view(&self) -> ExceptionView {
        ExceptionView {
            message: self.message@,
            inner_message: match &self.inner_message {
                Some(inner) => Some(inner@),
                None => None,
            },
            streaming_context: self.streaming_context,
        }
    }
}

impl GuideAlreadyVisibleException {
    /// The exception with XNA's default message.
    pub fn new() -> (r: Self)
        ensures
            r@ == exception_with_message("The Guide is already visible."@),
    {
        GuideAlreadyVisibleException {
            message: String::from_str("The Guide is already visible."),
            inner_message: None,
            streaming_context: None,
        }
    }

    /// The exception with the caller's message.
    pub fn from_message(message: &str) -> (r: Self)
        ensures
            r@ == exception_with_message(message@),
    {
        GuideAlreadyVisibleException { message: String::from_str(message), inner_message: None, streaming_context: None }
    }

    /// The exception with the caller's message and the text of the exception
    /// that caused it.
    pub fn from_message_and_inner_exception(message: &str, inner: &str) -> (r: Self)
        ensures
            r@ == (ExceptionView {
                message: message@,
                inner_message: Some(inner@),
                streaming_context: None,
            }),
    {
        GuideAlreadyVisibleException {
            message: String::from_str(message),
            inner_message: Some(String::from_str(inner)),
            streaming_context: None,
        }
    }

    /// The exception rebuilt from serialized state: its message and the state
    /// of the streaming context it came through.
    pub fn from_info_and_context(message: &str, context_state: i32) -> (r: Self)
        ensures
            r@ == (ExceptionView {
                message: message@,
                inner_message: None,
                streaming_context: Some(context_state),
            }),
    {
        GuideAlreadyVisibleException {
            message: String::from_str(message),
            inner_message: None,
            streaming_context: Some(context_state),
        }
    }

    /// The text XNA shows for the exception: the message, then `": "` and the
    /// inner exception's text when there is one.
    pub fn to_display_string(&self) -> (r: String)
        ensures
            r@ == display_text(self@),
    {
        display_string(&self.message, &self.inner_message)
    }
}

impl Default for GuideAlreadyVisibleException {
    fn default() -> (r: Self)
        ensures
            r@ == exception_with_message("The Guide is already visible."@),
    {
        Self::new()
    }
}

/// XNA `NetworkException`.
#[derive(Clone, Debug, Eq, PartialEq)]
pub struct NetworkException {
    message: String,
    inner_message: Option<String>,
    streaming_context: Option<i32>,
}

impl View for NetworkException {
    type V = ExceptionView;

    closed spec fn view(&self) -> ExceptionView {
        ExceptionView {
            message: self.message@,
            inner_message: match &self.inner_message {
                Some(inner) => Some(inner@),
                None => None,
            },
            streaming_context: self.streaming_context,
        }
    }
}

impl NetworkException {
    /// The exception with XNA's default message.
    pub fn new() -> (r: Self)
        ensures
            r@ == exception_with_message("A network error occurred."@),
    {
        NetworkException {
            message: String::from_str("A network error occurred."),
            inner_message: None,
            streaming_context: None,
        }
    }

    /// The exception with the caller's message.
    pub fn from_message(message: &str) -> (r: Self)
        ensures
            r@ == exception_with_message(message@),
    {
        NetworkException { message: String::from_str(message), inner_message: None, streaming_context: None }
    }

    /// The exception with the caller's message and the text of the exception
    /// that caused it.
    pub fn from_message_and_inner_exception(message: &str, inner: &str) -> (r: Self)
        ensures
            r@ == (ExceptionView {
                message: message@,
                inner_message: Some(inner@),
                streaming_context: None,
            }),
    {
        NetworkException {
            message: String::from_str(message),
            inner_message: Some(String::from_str(inner)),
            streaming_context: None,
        }
    }

    /// The exception rebuilt from serialized state: its message and the state
    /// of the streaming context it came through.
    pub fn from_info_and_context(message: &str, context_state: i32) -> (r: Self)
        ensures
            r@ == (ExceptionView {
                message: message@,
                inner_message: None,
                streaming_context: Some(context_state),
            }),
    {
        NetworkException {
            message: String::from_str(message),
            inner_message: None,
            streaming_context: Some(context_state),
        }
    }

    /// The text XNA shows for the exception: the message, then `": "` and the
    /// inner exception's text when there is one.
    pub fn to_display_string(&self) -> (r: String)
        ensures
            r@ == display_text(self@),
    {
        display_string(&self.message, &self.inner_message)
    }
}

impl Default for NetworkException {
    fn default() -> (r: Self)
        ensures
            r@ == exception_with_message("A network error occurred."@),
    {
        Self::new()
    }
}

impl NetworkExceptionBase for NetworkException {
    fn Message(&self) -> (r: String)
        ensures
            r@ == self@.message,
    {
        self.message.clone()
    }
}

/// XNA `NetworkNotAvailableException`.
#[derive(Clone, Debug, Eq, PartialEq)]
pub struct NetworkNotAvailableException {
    message: String,
    inner_message: Option<String>,
    streaming_context: Option<i32>,
}

impl View for NetworkNotAvailableException {
    type V = ExceptionView;

    closed spec fn view(&self) -> ExceptionView {
        ExceptionView {
            message: self.message@,
            inner_message: match &self.inner_message {
                Some(inner) => Some(inner@),
                None => None,
            },
            streaming_context: self.streaming_context,
        }
    }
}

impl NetworkNotAvailableException {
    /// The exception with XNA's default message.
    pub fn new() -> (r: Self)
        ensures
            r@ == exception_with_message("The network is not available."@),
    {
        NetworkNotAvailableException {
            message: String::from_str("The network is not available."),
            inner_message: None,
            streaming_context: None,
        }
    }

    /// The exception with the caller's message.
    pub fn from_message(message: &str) -> (r: Self)
        ensures
            r@ == exception_with_message(message@),
    {
        NetworkNotAvailableException { message: String::from_str(message), inner_message: None, streaming_context: None }
    }

    /// The exception with the caller's message and the text of the exception
    /// that caused it.
    pub fn from_message_and_inner_exception(message: &str, inner: &str) -> (r: Self)
        ensures
            r@ == (ExceptionView {
                message: message@,
                inner_message: Some(inner@),
                streaming_context: None,
            }),
    {
        NetworkNotAvailableException {
            message: String::from_str(message),
            inner_message: Some(String::from_str(inner)),
            streaming_context: None,
        }
    }

    /// The exception rebuilt from serialized state: its message and the state
    /// of the streaming context it came through.
    pub fn from_info_and_context(message: &str, context_state: i32) -> (r: Self)
        ensures
            r@ == (ExceptionView {
                message: message@,
                inner_message: None,
                streaming_context: Some(context_state),
            }),
    {
        NetworkNotAvailableException {
            message: String::from_str(message),
            inner_message: None,
            streaming_context: Some(context_state),
        }
    }

    /// The text XNA shows for the exception: the message, then `": "` and the
    /// inner exception's text when there is one.
    pub fn to_display_string(&self) -> (r: String)
        ensures
            r@ == display_text(self@),
    {
        display_string(&self.message, &self.inner_message)
    }
}

impl Default for NetworkNotAvailableException {
    fn default() -> (r: Self)
        ensures
            r@ == exception_with_message("The network is not available."@),
    {
        Self::new()
    }
}

impl NetworkExceptionBase for NetworkNotAvailableException {
    fn Message(&self) -> (r: String)
        ensures
            r@ == self@.message,
    {
        self.message.clone()
    }
}

/// Each `AvatarAnimationPreset` member is numbered, both ways, by the value XNA declares for it.
pub proof fn law_avatar_animation_preset_native_numbers()
    ensures
        AvatarAnimationPreset::Stand0.spec_native() == 0,
        AvatarAnimationPreset::spec_from_native(0) == Some(AvatarAnimationPreset::Stand0),
        AvatarAnimationPreset::Stand1.spec_native() == 1,
        AvatarAnimationPreset::spec_from_native(1) == Some(AvatarAnimationPreset::Stand1),
        AvatarAnimationPreset::Stand2.spec_native() == 2,
        AvatarAnimationPreset::spec_from_native(2) == Some(AvatarAnimationPreset::Stand2),
        AvatarAnimationPreset::Stand3.spec_native() == 3,
        AvatarAnimationPreset::spec_from_native(3) == Some(AvatarAnimationPreset::Stand3),
        AvatarAnimationPreset::Stand4.spec_native() == 4,
        AvatarAnimationPreset::spec_from_native(4) == Some(AvatarAnimationPreset::Stand4),
        AvatarAnimationPreset::Stand5.spec_native() == 5,
        AvatarAnimationPreset::spec_from_native(5) == Some(AvatarAnimationPreset::Stand5),
        AvatarAnimationPreset::Stand6.spec_native() == 6,
        AvatarAnimationPreset::spec_from_native(6) == Some(AvatarAnimationPreset::Stand6),
        AvatarAnimationPreset::Stand7.spec_native() == 7,
        AvatarAnimationPreset::spec_from_native(7) == Some(AvatarAnimationPreset::Stand7),
        AvatarAnimationPreset::Clap.spec_native() == 8,
        AvatarAnimationPreset::spec_from_native(8) == Some(AvatarAnimationPreset::Clap),
        AvatarAnimationPreset::Wave.spec_native() == 9,
        AvatarAnimationPreset::spec_from_native(9) == Some(AvatarAnimationPreset::Wave),
        AvatarAnimationPreset::Celebrate.spec_native() == 10,
        AvatarAnimationPreset::spec_from_native(10) == Some(AvatarAnimationPreset::Celebrate),
        AvatarAnimationPreset::FemaleIdleCheckNails.spec_native() == 11,
        AvatarAnimationPreset::spec_from_native(11) == Some(AvatarAnimationPreset::FemaleIdleCheckNails),
        AvatarAnimationPreset::FemaleIdleLookAround.spec_native() == 12,
        AvatarAnimationPreset::spec_from_native(12) == Some(AvatarAnimationPreset::FemaleIdleLookAround),
        AvatarAnimationPreset::FemaleIdleShiftWeight.spec_native() == 13,
        AvatarAnimationPreset::spec_from_native(13) == Some(AvatarAnimationPreset::FemaleIdleShiftWeight),
        AvatarAnimationPreset::FemaleIdleFixShoe.spec_native() == 14,
        AvatarAnimationPreset::spec_from_native(14) == Some(AvatarAnimationPreset::FemaleIdleFixShoe),
        AvatarAnimationPreset::FemaleAngry.spec_native() == 15,
        AvatarAnimationPreset::spec_from_native(15) == Some(AvatarAnimationPreset::FemaleAngry),
        AvatarAnimationPreset::FemaleConfused.spec_native() == 16,
        AvatarAnimationPreset::spec_from_native(16) == Some(AvatarAnimationPreset::FemaleConfused),
        AvatarAnimationPreset::FemaleLaugh.spec_native() == 17,
        AvatarAnimationPreset::spec_from_native(17) == Some(AvatarAnimationPreset::FemaleLaugh),
        AvatarAnimationPreset::FemaleCry.spec_native() == 18,
        AvatarAnimationPreset::spec_from_native(18) == Some(AvatarAnimationPreset::FemaleCry),
        AvatarAnimationPreset::FemaleShocked.spec_native() == 19,
        AvatarAnimationPreset::spec_from_native(19) == Some(AvatarAnimationPreset::FemaleShocked),
        AvatarAnimationPreset::FemaleYawn.spec_native() == 20,
        AvatarAnimationPreset::spec_from_native(20) == Some(AvatarAnimationPreset::FemaleYawn),
        AvatarAnimationPreset::MaleIdleLookAround.spec_native() == 21,
        AvatarAnimationPreset::spec_from_native(21) == Some(AvatarAnimationPreset::MaleIdleLookAround),
        AvatarAnimationPreset::MaleIdleStretch.spec_native() == 22,
        AvatarAnimationPreset::spec_from_native(22) == Some(AvatarAnimationPreset::MaleIdleStretch),
        AvatarAnimationPreset::MaleIdleShiftWeight.spec_native() == 23,
        AvatarAnimationPreset::spec_from_native(23) == Some(AvatarAnimationPreset::MaleIdleShiftWeight),
        AvatarAnimationPreset::MaleIdleCheckHand.spec_native() == 24,
        AvatarAnimationPreset::spec_from_native(24) == Some(AvatarAnimationPreset::MaleIdleCheckHand),
        AvatarAnimationPreset::MaleAngry.spec_native() == 25,
        AvatarAnimationPreset::spec_from_native(25) == Some(AvatarAnimationPreset::MaleAngry),
        AvatarAnimationPreset::MaleConfused.spec_native() == 26,
        AvatarAnimationPreset::spec_from_native(26) == Some(AvatarAnimationPreset::MaleConfused),
        AvatarAnimationPreset::MaleLaugh.spec_native() == 27,
        AvatarAnimationPreset::spec_from_native(27) == Some(AvatarAnimationPreset::MaleLaugh),
        AvatarAnimationPreset::MaleCry.spec_native() == 28,
        AvatarAnimationPreset::spec_from_native(28) == Some(AvatarAnimationPreset::MaleCry),
        AvatarAnimationPreset::MaleSurprised.spec_native() == 29,
        AvatarAnimationPreset::spec_from_native(29) == Some(AvatarAnimationPreset::MaleSurprised),
        AvatarAnimationPreset::MaleYawn.spec_native() == 30,
        AvatarAnimationPreset::spec_from_native(30) == Some(AvatarAnimationPreset::MaleYawn),
{
}

/// Each `AvatarBodyType` member is numbered, both ways, by the value XNA declares for it.
pub proof fn law_avatar_body_type_native_numbers()
    ensures
        AvatarBodyType::Female.spec_native() == 0,
        AvatarBodyType::spec_from_native(0) == Some(AvatarBodyType::Female),
        AvatarBodyType::Male.spec_native() == 1,
        AvatarBodyType::spec_from_native(1) == Some(AvatarBodyType::Male),
{
}

/// Each `AvatarBone` member is numbered, both ways, by the value XNA declares for it.
pub proof fn law_avatar_bone_native_numbers()
    ensures
        AvatarBone::Root.spec_native() == 0,
        AvatarBone::spec_from_native(0) == Some(AvatarBone::Root),
        AvatarBone::BackLower.spec_native() == 1,
        AvatarBone::spec_from_native(1) == Some(AvatarBone::BackLower),
        AvatarBone::HipLeft.spec_native() == 2,
        AvatarBone::spec_from_native(2) == Some(AvatarBone::HipLeft),
        AvatarBone::HipRight.spec_native() == 3,
        AvatarBone::spec_from_native(3) == Some(AvatarBone::HipRight),
        AvatarBone::BackUpper.spec_native() == 5,
        AvatarBone::spec_from_native(5) == Some(AvatarBone::BackUpper),
        AvatarBone::KneeLeft.spec_native() == 6,
        AvatarBone::spec_from_native(6) == Some(AvatarBone::KneeLeft),
        AvatarBone::KneeRight.spec_native() == 8,
        AvatarBone::spec_from_native(8) == Some(AvatarBone::KneeRight),
        AvatarBone::AnkleLeft.spec_native() == 11,
        AvatarBone::spec_from_native(11) == Some(AvatarBone::AnkleLeft),
        AvatarBone::CollarLeft.spec_native() == 12,
        AvatarBone::spec_from_native(12) == Some(AvatarBone::CollarLeft),
        AvatarBone::Neck.spec_native() == 14,
        AvatarBone::spec_from_native(14) == Some(AvatarBone::Neck),
        AvatarBone::AnkleRight.spec_native() == 15,
        AvatarBone::spec_from_native(15) == Some(AvatarBone::AnkleRight),
        AvatarBone::CollarRight.spec_native() == 16,
        AvatarBone::spec_from_native(16) == Some(AvatarBone::CollarRight),
        AvatarBone::Head.spec_native() == 19,
        AvatarBone::spec_from_native(19) == Some(AvatarBone::Head),
        AvatarBone::ShoulderLeft.spec_native() == 20,
        AvatarBone::spec_from_native(20) == Some(AvatarBone::ShoulderLeft),
        AvatarBone::ToeLeft.spec_native() == 21,
        AvatarBone::spec_from_native(21) == Some(AvatarBone::ToeLeft),
        AvatarBone::ShoulderRight.spec_native() == 22,
        AvatarBone::spec_from_native(22) == Some(AvatarBone::ShoulderRight),
        AvatarBone::ToeRight.spec_native() == 23,
        AvatarBone::spec_from_native(23) == Some(AvatarBone::ToeRight),
        AvatarBone::ElbowLeft.spec_native() == 25,
        AvatarBone::spec_from_native(25) == Some(AvatarBone::ElbowLeft),
        AvatarBone::ElbowRight.spec_native() == 28,
        AvatarBone::spec_from_native(28) == Some(AvatarBone::ElbowRight),
        AvatarBone::WristLeft.spec_native() == 33,
        AvatarBone::spec_from_native(33) == Some(AvatarBone::WristLeft),
        AvatarBone::WristRight.spec_native() == 36,
        AvatarBone::spec_from_native(36) == Some(AvatarBone::WristRight),
        AvatarBone::FingerIndexLeft.spec_native() == 37,
        AvatarBone::spec_from_native(37) == Some(AvatarBone::FingerIndexLeft),
        AvatarBone::FingerMiddleLeft.spec_native() == 38,
        AvatarBone::spec_from_native(38) == Some(AvatarBone::FingerMiddleLeft),
        AvatarBone::FingerRingLeft.spec_native() == 39,
        AvatarBone::spec_from_native(39) == Some(AvatarBone::FingerRingLeft),
        AvatarBone::FingerSmallLeft.spec_native() == 40,
        AvatarBone::spec_from_native(40) == Some(AvatarBone::FingerSmallLeft),
        AvatarBone::PropLeft.spec_native() == 41,
        AvatarBone::spec_from_native(41) == Some(AvatarBone::PropLeft),
        AvatarBone::SpecialLeft.spec_native() == 42,
        AvatarBone::spec_from_native(42) == Some(AvatarBone::SpecialLeft),
        AvatarBone::FingerThumbLeft.spec_native() == 43,
        AvatarBone::spec_from_native(43) == Some(AvatarBone::FingerThumbLeft),
        AvatarBone::FingerIndexRight.spec_native() == 44,
        AvatarBone::spec_from_native(44) == Some(AvatarBone::FingerIndexRight),
        AvatarBone::FingerMiddleRight.spec_native() == 45,
        AvatarBone::spec_from_native(45) == Some(AvatarBone::FingerMiddleRight),
        AvatarBone::FingerRingRight.spec_native() == 46,
        AvatarBone::spec_from_native(46) == Some(AvatarBone::FingerRingRight),
        AvatarBone::FingerSmallRight.spec_native() == 47,
        AvatarBone::spec_from_native(47) == Some(AvatarBone::FingerSmallRight),
        AvatarBone::PropRight.spec_native() == 48,
        AvatarBone::spec_from_native(48) == Some(AvatarBone::PropRight),
        AvatarBone::SpecialRight.spec_native() == 49,
        AvatarBone::spec_from_native(49) == Some(AvatarBone::SpecialRight),
        AvatarBone::FingerThumbRight.spec_native() == 50,
        AvatarBone::spec_from_native(50) == Some(AvatarBone::FingerThumbRight),
        AvatarBone::FingerIndex2Left.spec_native() == 51,
        AvatarBone::spec_from_native(51) == Some(AvatarBone::FingerIndex2Left),
        AvatarBone::FingerMiddle2Left.spec_native() == 52,
        AvatarBone::spec_from_native(52) == Some(AvatarBone::FingerMiddle2Left),
        AvatarBone::FingerRing2Left.spec_native() == 53,
        AvatarBone::spec_from_native(53) == Some(AvatarBone::FingerRing2Left),
        AvatarBone::FingerSmall2Left.spec_native() == 54,
        AvatarBone::spec_from_native(54) == Some(AvatarBone::FingerSmall2Left),
        AvatarBone::FingerThumb2Left.spec_native() == 55,
        AvatarBone::spec_from_native(55) == Some(AvatarBone::FingerThumb2Left),
        AvatarBone::FingerIndex2Right.spec_native() == 56,
        AvatarBone::spec_from_native(56) == Some(AvatarBone::FingerIndex2Right),
        AvatarBone::FingerMiddle2Right.spec_native() == 57,
        AvatarBone::spec_from_native(57) == Some(AvatarBone::FingerMiddle2Right),
        AvatarBone::FingerRing2Right.spec_native() == 58,
        AvatarBone::spec_from_native(58) == Some(AvatarBone::FingerRing2Right),
        AvatarBone::FingerSmall2Right.spec_native() == 59,
        AvatarBone::spec_from_native(59) == Some(AvatarBone::FingerSmall2Right),
        AvatarBone::FingerThumb2Right.spec_native() == 60,
        AvatarBone::spec_from_native(60) == Some(AvatarBone::FingerThumb2Right),
        AvatarBone::FingerIndex3Left.spec_native() == 61,
        AvatarBone::spec_from_native(61) == Some(AvatarBone::FingerIndex3Left),
        AvatarBone::FingerMiddle3Left.spec_native() == 62,
        AvatarBone::spec_from_native(62) == Some(AvatarBone::FingerMiddle3Left),
        AvatarBone::FingerRing3Left.spec_native() == 63,
        AvatarBone::spec_from_native(63) == Some(AvatarBone::FingerRing3Left),
        AvatarBone::FingerSmall3Left.spec_native() == 64,
        AvatarBone::spec_from_native(64) == Some(AvatarBone::FingerSmall3Left),
        AvatarBone::FingerThumb3Left.spec_native() == 65,
        AvatarBone::spec_from_native(65) == Some(AvatarBone::FingerThumb3Left),
        AvatarBone::FingerIndex3Right.spec_native() == 66,
        AvatarBone::spec_from_native(66) == Some(AvatarBone::FingerIndex3Right),
        AvatarBone::FingerMiddle3Right.spec_native() == 67,
        AvatarBone::spec_from_native(67) == Some(AvatarBone::FingerMiddle3Right),
        AvatarBone::FingerRing3Right.spec_native() == 68,
        AvatarBone::spec_from_native(68) == Some(AvatarBone::FingerRing3Right),
        AvatarBone::FingerSmall3Right.spec_native() == 69,
        AvatarBone::spec_from_native(69) == Some(AvatarBone::FingerSmall3Right),
        AvatarBone::FingerThumb3Right.spec_native() == 70,
        AvatarBone::spec_from_native(70) == Some(AvatarBone::FingerThumb3Right),
{
}

/// Each `AvatarEye` member is numbered, both ways, by the value XNA declares for it.
pub proof fn law_avatar_eye_native_numbers()
    ensures
        AvatarEye::Neutral.spec_native() == 0,
        AvatarEye::spec_from_native(0) == Some(AvatarEye::Neutral),
        AvatarEye::Sad.spec_native() == 1,
        AvatarEye::spec_from_native(1) == Some(AvatarEye::Sad),
        AvatarEye::Angry.spec_native() == 2,
        AvatarEye::spec_from_native(2) == Some(AvatarEye::Angry),
        AvatarEye::Confused.spec_native() == 3,
        AvatarEye::spec_from_native(3) == Some(AvatarEye::Confused),
        AvatarEye::Laughing.spec_native() == 4,
        AvatarEye::spec_from_native(4) == Some(AvatarEye::Laughing),
        AvatarEye::Shocked.spec_native() == 5,
        AvatarEye::spec_from_native(5) == Some(AvatarEye::Shocked),
        AvatarEye::Happy.spec_native() == 6,
        AvatarEye::spec_from_native(6) == Some(AvatarEye::Happy),
        AvatarEye::Yawning.spec_native() == 7,
        AvatarEye::spec_from_native(7) == Some(AvatarEye::Yawning),
        AvatarEye::Sleeping.spec_native() == 8,
        AvatarEye::spec_from_native(8) == Some(AvatarEye::Sleeping),
        AvatarEye::LookUp.spec_native() == 9,
        AvatarEye::spec_from_native(9) == Some(AvatarEye::LookUp),
        AvatarEye::LookDown.spec_native() == 10,
        AvatarEye::spec_from_native(10) == Some(AvatarEye::LookDown),
        AvatarEye::LookLeft.spec_native() == 11,
        AvatarEye::spec_from_native(11) == Some(AvatarEye::LookLeft),
        AvatarEye::LookRight.spec_native() == 12,
        AvatarEye::spec_from_native(12) == Some(AvatarEye::LookRight),
        AvatarEye::Blink.spec_native() == 13,
        AvatarEye::spec_from_native(13) == Some(AvatarEye::Blink),
{
}

/// Each `AvatarEyebrow` member is numbered, both ways, by the value XNA declares for it.
pub proof fn law_avatar_eyebrow_native_numbers()
    ensures
        AvatarEyebrow::Neutral.spec_native() == 0,
        AvatarEyebrow::spec_from_native(0) == Some(AvatarEyebrow::Neutral),
        AvatarEyebrow::Sad.spec_native() == 1,
        AvatarEyebrow::spec_from_native(1) == Some(AvatarEyebrow::Sad),
        AvatarEyebrow::Angry.spec_native() == 2,
        AvatarEyebrow::spec_from_native(2) == Some(AvatarEyebrow::Angry),
        AvatarEyebrow::Confused.spec_native() == 3,
        AvatarEyebrow::spec_from_native(3) == Some(AvatarEyebrow::Confused),
        AvatarEyebrow::Raised.spec_native() == 4,
        AvatarEyebrow::spec_from_native(4) == Some(AvatarEyebrow::Raised),
{
}

/// Each `AvatarMouth` member is numbered, both ways, by the value XNA declares for it.
pub proof fn law_avatar_mouth_native_numbers()
    ensures
        AvatarMouth::Neutral.spec_native() == 0,
        AvatarMouth::spec_from_native(0) == Some(AvatarMouth::Neutral),
        AvatarMouth::Sad.spec_native() == 1,
        AvatarMouth::spec_from_native(1) == Some(AvatarMouth::Sad),
        AvatarMouth::Angry.spec_native() == 2,
        AvatarMouth::spec_from_native(2) == Some(AvatarMouth::Angry),
        AvatarMouth::Confused.spec_native() == 3,
        AvatarMouth::spec_from_native(3) == Some(AvatarMouth::Confused),
        AvatarMouth::Laughing.spec_native() == 4,
        AvatarMouth::spec_from_native(4) == Some(AvatarMouth::Laughing),
        AvatarMouth::Shocked.spec_native() == 5,
        AvatarMouth::spec_from_native(5) == Some(AvatarMouth::Shocked),
        AvatarMouth::Happy.spec_native() == 6,
        AvatarMouth::spec_from_native(6) == Some(AvatarMouth::Happy),
        AvatarMouth::PhoneticO.spec_native() == 7,
        AvatarMouth::spec_from_native(7) == Some(AvatarMouth::PhoneticO),
        AvatarMouth::PhoneticAi.spec_native() == 8,
        AvatarMouth::spec_from_native(8) == Some(AvatarMouth::PhoneticAi),
        AvatarMouth::PhoneticEe.spec_native() == 9,
        AvatarMouth::spec_from_native(9) == Some(AvatarMouth::PhoneticEe),
        AvatarMouth::PhoneticFv.spec_native() == 10,
        AvatarMouth::spec_from_native(10) == Some(AvatarMouth::PhoneticFv),
        AvatarMouth::PhoneticW.spec_native() == 11,
        AvatarMouth::spec_from_native(11) == Some(AvatarMouth::PhoneticW),
        AvatarMouth::PhoneticL.spec_native() == 12,
        AvatarMouth::spec_from_native(12) == Some(AvatarMouth::PhoneticL),
        AvatarMouth::PhoneticDth.spec_native() == 13,
        AvatarMouth::spec_from_native(13) == Some(AvatarMouth::PhoneticDth),
{
}

/// Each `AvatarRendererState` member is numbered, both ways, by the value XNA declares for it.
pub proof fn law_avatar_renderer_state_native_numbers()
    ensures
        AvatarRendererState::Loading.spec_native() == 0,
        AvatarRendererState::spec_from_native(0) == Some(AvatarRendererState::Loading),
        AvatarRendererState::Ready.spec_native() == 1,
        AvatarRendererState::spec_from_native(1) == Some(AvatarRendererState::Ready),
        AvatarRendererState::Unavailable.spec_native() == 2,
        AvatarRendererState::spec_from_native(2) == Some(AvatarRendererState::Unavailable),
{
}

/// Each `ControllerSensitivity` member is numbered, both ways, by the value XNA declares for it.
pub proof fn law_controller_sensitivity_native_numbers()
    ensures
        ControllerSensitivity::Low.spec_native() == 0,
        ControllerSensitivity::spec_from_native(0) == Some(ControllerSensitivity::Low),
        ControllerSensitivity::Medium.spec_native() == 1,
        ControllerSensitivity::spec_from_native(1) == Some(ControllerSensitivity::Medium),
        ControllerSensitivity::High.spec_native() == 2,
        ControllerSensitivity::spec_from_native(2) == Some(ControllerSensitivity::High),
{
}

/// Each `GameDifficulty` member is numbered, both ways, by the value XNA declares for it.
pub proof fn law_game_difficulty_native_numbers()
    ensures
        GameDifficulty::Easy.spec_native() == 0,
        GameDifficulty::spec_from_native(0) == Some(GameDifficulty::Easy),
        GameDifficulty::Normal.spec_native() == 1,
        GameDifficulty::spec_from_native(1) == Some(GameDifficulty::Normal),
        GameDifficulty::Hard.spec_native() == 2,
        GameDifficulty::spec_from_native(2) == Some(GameDifficulty::Hard),
{
}

/// Each `GamerPresenceMode` member is numbered, both ways, by the value XNA declares for it.
pub proof fn law_gamer_presence_mode_native_numbers()
    ensures
        GamerPresenceMode::NoPresence.spec_native() == 0,
        GamerPresenceMode::spec_from_native(0) == Some(GamerPresenceMode::NoPresence),
        GamerPresenceMode::SinglePlayer.spec_native() == 1,
        GamerPresenceMode::spec_from_native(1) == Some(GamerPresenceMode::SinglePlayer),
        GamerPresenceMode::Multiplayer.spec_native() == 2,
        GamerPresenceMode::spec_from_native(2) == Some(GamerPresenceMode::Multiplayer),
        GamerPresenceMode::LocalCoOp.spec_native() == 3,
        GamerPresenceMode::spec_from_native(3) == Some(GamerPresenceMode::LocalCoOp),
        GamerPresenceMode::LocalVersus.spec_native() == 4,
        GamerPresenceMode::spec_from_native(4) == Some(GamerPresenceMode::LocalVersus),
        GamerPresenceMode::OnlineCoOp.spec_native() == 5,
        GamerPresenceMode::spec_from_native(5) == Some(GamerPresenceMode::OnlineCoOp),
        GamerPresenceMode::OnlineVersus.spec_native() == 6,
        GamerPresenceMode::spec_from_native(6) == Some(GamerPresenceMode::OnlineVersus),
        GamerPresenceMode::VersusComputer.spec_native() == 7,
        GamerPresenceMode::spec_from_native(7) == Some(GamerPresenceMode::VersusComputer),
        GamerPresenceMode::Stage.spec_native() == 8,
        GamerPresenceMode::spec_from_native(8) == Some(GamerPresenceMode::Stage),
        GamerPresenceMode::Level.spec_native() == 9,
        GamerPresenceMode::spec_from_native(9) == Some(GamerPresenceMode::Level),
        GamerPresenceMode::CoOpStage.spec_native() == 10,
        GamerPresenceMode::spec_from_native(10) == Some(GamerPresenceMode::CoOpStage),
        GamerPresenceMode::CoOpLevel.spec_native() == 11,
        GamerPresenceMode::spec_from_native(11) == Some(GamerPresenceMode::CoOpLevel),
        GamerPresenceMode::ArcadeMode.spec_native() == 12,
        GamerPresenceMode::spec_from_native(12) == Some(GamerPresenceMode::ArcadeMode),
        GamerPresenceMode::CampaignMode.spec_native() == 13,
        GamerPresenceMode::spec_from_native(13) == Some(GamerPresenceMode::CampaignMode),
        GamerPresenceMode::ChallengeMode.spec_native() == 14,
        GamerPresenceMode::spec_from_native(14) == Some(GamerPresenceMode::ChallengeMode),
        GamerPresenceMode::ExplorationMode.spec_native() == 15,
        GamerPresenceMode::spec_from_native(15) == Some(GamerPresenceMode::ExplorationMode),
        GamerPresenceMode::PracticeMode.spec_native() == 16,
        GamerPresenceMode::spec_from_native(16) == Some(GamerPresenceMode::PracticeMode),
        GamerPresenceMode::PuzzleMode.spec_native() == 17,
        GamerPresenceMode::spec_from_native(17) == Some(GamerPresenceMode::PuzzleMode),
        GamerPresenceMode::ScenarioMode.spec_native() == 18,
        GamerPresenceMode::spec_from_native(18) == Some(GamerPresenceMode::ScenarioMode),
        GamerPresenceMode::StoryMode.spec_native() == 19,
        GamerPresenceMode::spec_from_native(19) == Some(GamerPresenceMode::StoryMode),
        GamerPresenceMode::SurvivalMode.spec_native() == 20,
        GamerPresenceMode::spec_from_native(20) == Some(GamerPresenceMode::SurvivalMode),
        GamerPresenceMode::TutorialMode.spec_native() == 21,
        GamerPresenceMode::spec_from_native(21) == Some(GamerPresenceMode::TutorialMode),
        GamerPresenceMode::DifficultyEasy.spec_native() == 22,
        GamerPresenceMode::spec_from_native(22) == Some(GamerPresenceMode::DifficultyEasy),
        GamerPresenceMode::DifficultyMedium.spec_native() == 23,
        GamerPresenceMode::spec_from_native(23) == Some(GamerPresenceMode::DifficultyMedium),
        GamerPresenceMode::DifficultyHard.spec_native() == 24,
        GamerPresenceMode::spec_from_native(24) == Some(GamerPresenceMode::DifficultyHard),
        GamerPresenceMode::DifficultyExtreme.spec_native() == 25,
        GamerPresenceMode::spec_from_native(25) == Some(GamerPresenceMode::DifficultyExtreme),
        GamerPresenceMode::Score.spec_native() == 26,
        GamerPresenceMode::spec_from_native(26) == Some(GamerPresenceMode::Score),
        GamerPresenceMode::VersusScore.spec_native() == 27,
        GamerPresenceMode::spec_from_native(27) == Some(GamerPresenceMode::VersusScore),
        GamerPresenceMode::Winning.spec_native() == 28,
        GamerPresenceMode::spec_from_native(28) == Some(GamerPresenceMode::Winning),
        GamerPresenceMode::Losing.spec_native() == 29,
        GamerPresenceMode::spec_from_native(29) == Some(GamerPresenceMode::Losing),
        GamerPresenceMode::ScoreIsTied.spec_native() == 30,
        GamerPresenceMode::spec_from_native(30) == Some(GamerPresenceMode::ScoreIsTied),
        GamerPresenceMode::Outnumbered.spec_native() == 31,
        GamerPresenceMode::spec_from_native(31) == Some(GamerPresenceMode::Outnumbered),
        GamerPresenceMode::OnARoll.spec_native() == 32,
        GamerPresenceMode::spec_from_native(32) == Some(GamerPresenceMode::OnARoll),
        GamerPresenceMode::InCombat.spec_native() == 33,
        GamerPresenceMode::spec_from_native(33) == Some(GamerPresenceMode::InCombat),
        GamerPresenceMode::BattlingBoss.spec_native() == 34,
        GamerPresenceMode::spec_from_native(34) == Some(GamerPresenceMode::BattlingBoss),
        GamerPresenceMode::TimeAttack.spec_native() == 35,
        GamerPresenceMode::spec_from_native(35) == Some(GamerPresenceMode::TimeAttack),
        GamerPresenceMode::TryingForRecord.spec_native() == 36,
        GamerPresenceMode::spec_from_native(36) == Some(GamerPresenceMode::TryingForRecord),
        GamerPresenceMode::FreePlay.spec_native() == 37,
        GamerPresenceMode::spec_from_native(37) == Some(GamerPresenceMode::FreePlay),
        GamerPresenceMode::WastingTime.spec_native() == 38,
        GamerPresenceMode::spec_from_native(38) == Some(GamerPresenceMode::WastingTime),
        GamerPresenceMode::StuckOnAHardBit.spec_native() == 39,
        GamerPresenceMode::spec_from_native(39) == Some(GamerPresenceMode::StuckOnAHardBit),
        GamerPresenceMode::NearlyFinished.spec_native() == 40,
        GamerPresenceMode::spec_from_native(40) == Some(GamerPresenceMode::NearlyFinished),
        GamerPresenceMode::LookingForGames.spec_native() == 41,
        GamerPresenceMode::spec_from_native(41) == Some(GamerPresenceMode::LookingForGames),
        GamerPresenceMode::WaitingForPlayers.spec_native() == 42,
        GamerPresenceMode::spec_from_native(42) == Some(GamerPresenceMode::WaitingForPlayers),
        GamerPresenceMode::WaitingInLobby.spec_native() == 43,
        GamerPresenceMode::spec_from_native(43) == Some(GamerPresenceMode::WaitingInLobby),
        GamerPresenceMode::SettingUpMatch.spec_native() == 44,
        GamerPresenceMode::spec_from_native(44) == Some(GamerPresenceMode::SettingUpMatch),
        GamerPresenceMode::PlayingWithFriends.spec_native() == 45,
        GamerPresenceMode::spec_from_native(45) == Some(GamerPresenceMode::PlayingWithFriends),
        GamerPresenceMode::AtMenu.spec_native() == 46,
        GamerPresenceMode::spec_from_native(46) == Some(GamerPresenceMode::AtMenu),
        GamerPresenceMode::StartingGame.spec_native() == 47,
        GamerPresenceMode::spec_from_native(47) == Some(GamerPresenceMode::StartingGame),
        GamerPresenceMode::Paused.spec_native() == 48,
        GamerPresenceMode::spec_from_native(48) == Some(GamerPresenceMode::Paused),
        GamerPresenceMode::GameOver.spec_native() == 49,
        GamerPresenceMode::spec_from_native(49) == Some(GamerPresenceMode::GameOver),
        GamerPresenceMode::WonTheGame.spec_native() == 50,
        GamerPresenceMode::spec_from_native(50) == Some(GamerPresenceMode::WonTheGame),
        GamerPresenceMode::ConfiguringSettings.spec_native() == 51,
        GamerPresenceMode::spec_from_native(51) == Some(GamerPresenceMode::ConfiguringSettings),
        GamerPresenceMode::CustomizingPlayer.spec_native() == 52,
        GamerPresenceMode::spec_from_native(52) == Some(GamerPresenceMode::CustomizingPlayer),
        GamerPresenceMode::EditingLevel.spec_native() == 53,
        GamerPresenceMode::spec_from_native(53) == Some(GamerPresenceMode::EditingLevel),
        GamerPresenceMode::InGameStore.spec_native() == 54,
        GamerPresenceMode::spec_from_native(54) == Some(GamerPresenceMode::InGameStore),
        GamerPresenceMode::WatchingCutscene.spec_native() == 55,
        GamerPresenceMode::spec_from_native(55) == Some(GamerPresenceMode::WatchingCutscene),
        GamerPresenceMode::WatchingCredits.spec_native() == 56,
        GamerPresenceMode::spec_from_native(56) == Some(GamerPresenceMode::WatchingCredits),
        GamerPresenceMode::PlayingMinigame.spec_native() == 57,
        GamerPresenceMode::spec_from_native(57) == Some(GamerPresenceMode::PlayingMinigame),
        GamerPresenceMode::FoundSecret.spec_native() == 58,
        GamerPresenceMode::spec_from_native(58) == Some(GamerPresenceMode::FoundSecret),
        GamerPresenceMode::CornflowerBlue.spec_native() == 59,
        GamerPresenceMode::spec_from_native(59) == Some(GamerPresenceMode::CornflowerBlue),
{
}

/// Each `GamerPrivilegeSetting` member is numbered, both ways, by the value XNA declares for it.
pub proof fn law_gamer_privilege_setting_native_numbers()
    ensures
        GamerPrivilegeSetting::Blocked.spec_native() == 0,
        GamerPrivilegeSetting::spec_from_native(0) == Some(GamerPrivilegeSetting::Blocked),
        GamerPrivilegeSetting::FriendsOnly.spec_native() == 1,
        GamerPrivilegeSetting::spec_from_native(1) == Some(GamerPrivilegeSetting::FriendsOnly),
        GamerPrivilegeSetting::Everyone.spec_native() == 2,
        GamerPrivilegeSetting::spec_from_native(2) == Some(GamerPrivilegeSetting::Everyone),
{
}

/// Each `GamerZone` member is numbered, both ways, by the value XNA declares for it.
pub proof fn law_gamer_zone_native_numbers()
    ensures
        GamerZone::Unknown.spec_native() == 0,
        GamerZone::spec_from_native(0) == Some(GamerZone::Unknown),
        GamerZone::Recreation.spec_native() == 1,
        GamerZone::spec_from_native(1) == Some(GamerZone::Recreation),
        GamerZone::Pro.spec_native() == 2,
        GamerZone::spec_from_native(2) == Some(GamerZone::Pro),
        GamerZone::Family.spec_native() == 3,
        GamerZone::spec_from_native(3) == Some(GamerZone::Family),
        GamerZone::Underground.spec_native() == 4,
        GamerZone::spec_from_native(4) == Some(GamerZone::Underground),
{
}

/// Each `LeaderboardKey` member is numbered, both ways, by the value XNA declares for it.
pub proof fn law_leaderboard_key_native_numbers()
    ensures
        LeaderboardKey::BestScoreLifeTime.spec_native() == 0,
        LeaderboardKey::spec_from_native(0) == Some(LeaderboardKey::BestScoreLifeTime),
        LeaderboardKey::BestScoreRecent.spec_native() == 1,
        LeaderboardKey::spec_from_native(1) == Some(LeaderboardKey::BestScoreRecent),
        LeaderboardKey::BestTimeLifeTime.spec_native() == 2,
        LeaderboardKey::spec_from_native(2) == Some(LeaderboardKey::BestTimeLifeTime),
        LeaderboardKey::BestTimeRecent.spec_native() == 3,
        LeaderboardKey::spec_from_native(3) == Some(LeaderboardKey::BestTimeRecent),
{
}

/// Each `LeaderboardOutcome` member is numbered, both ways, by the value XNA declares for it.
pub proof fn law_leaderboard_outcome_native_numbers()
    ensures
        LeaderboardOutcome::NoOutcome.spec_native() == 0,
        LeaderboardOutcome::spec_from_native(0) == Some(LeaderboardOutcome::NoOutcome),
        LeaderboardOutcome::Win.spec_native() == 1,
        LeaderboardOutcome::spec_from_native(1) == Some(LeaderboardOutcome::Win),
        LeaderboardOutcome::Loss.spec_native() == 2,
        LeaderboardOutcome::spec_from_native(2) == Some(LeaderboardOutcome::Loss),
        LeaderboardOutcome::Tie.spec_native() == 3,
        LeaderboardOutcome::spec_from_native(3) == Some(LeaderboardOutcome::Tie),
{
}

/// Each `MessageBoxIcon` member is numbered, both ways, by the value XNA declares for it.
pub proof fn law_message_box_icon_native_numbers()
    ensures
        MessageBoxIcon::NoIcon.spec_native() == 0,
        MessageBoxIcon::spec_from_native(0) == Some(MessageBoxIcon::NoIcon),
        MessageBoxIcon::Error.spec_native() == 1,
        MessageBoxIcon::spec_from_native(1) == Some(MessageBoxIcon::Error),
        MessageBoxIcon::Warning.spec_native() == 2,
        MessageBoxIcon::spec_from_native(2) == Some(MessageBoxIcon::Warning),
        MessageBoxIcon::Alert.spec_native() == 3,
        MessageBoxIcon::spec_from_native(3) == Some(MessageBoxIcon::Alert),
{
}

/// Each `NotificationPosition` member is numbered, both ways, by the value XNA declares for it.
pub proof fn law_notification_position_native_numbers()
    ensures
        NotificationPosition::TopLeft.spec_native() == 0,
        NotificationPosition::spec_from_native(0) == Some(NotificationPosition::TopLeft),
        NotificationPosition::TopCenter.spec_native() == 1,
        NotificationPosition::spec_from_native(1) == Some(NotificationPosition::TopCenter),
        NotificationPosition::TopRight.spec_native() == 2,
        NotificationPosition::spec_from_native(2) == Some(NotificationPosition::TopRight),
        NotificationPosition::CenterLeft.spec_native() == 3,
        NotificationPosition::spec_from_native(3) == Some(NotificationPosition::CenterLeft),
        NotificationPosition::Center.spec_native() == 4,
        NotificationPosition::spec_from_native(4) == Some(NotificationPosition::Center),
        NotificationPosition::CenterRight.spec_native() == 5,
        NotificationPosition::spec_from_native(5) == Some(NotificationPosition::CenterRight),
        NotificationPosition::BottomLeft.spec_native() == 6,
        NotificationPosition::spec_from_native(6) == Some(NotificationPosition::BottomLeft),
        NotificationPosition::BottomCenter.spec_native() == 7,
        NotificationPosition::spec_from_native(7) == Some(NotificationPosition::BottomCenter),
        NotificationPosition::BottomRight.spec_native() == 8,
        NotificationPosition::spec_from_native(8) == Some(NotificationPosition::BottomRight),
{
}

/// Each `RacingCameraAngle` member is numbered, both ways, by the value XNA declares for it.
pub proof fn law_racing_camera_angle_native_numbers()
    ensures
        RacingCameraAngle::Back.spec_native() == 0,
        RacingCameraAngle::spec_from_native(0) == Some(RacingCameraAngle::Back),
        RacingCameraAngle::Front.spec_native() == 1,
        RacingCameraAngle::spec_from_native(1) == Some(RacingCameraAngle::Front),
        RacingCameraAngle::Inside.spec_native() == 2,
        RacingCameraAngle::spec_from_native(2) == Some(RacingCameraAngle::Inside),
{
}

} // verus!
