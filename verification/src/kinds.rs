//! The value identities of the graphics family: ordinal enums that cross the
//! native boundary as plain numbers, and the open flag sets XNA declares.

#![allow(non_upper_case_globals, non_snake_case)]

use vstd::prelude::*;

use crate::error::{CnaError, InputError};

verus! {

/// An enum that crosses the native boundary as a plain number.
///
/// The numbering is a bijection between the members and the values that name
/// one: `spec_from_native` inverts `spec_native`, and every other value names
/// no member.
pub trait NativeEnumValue: Sized + Copy {
    /// The number the native runtime uses for this member.
    spec fn spec_native(self) -> u32;

    /// The member a native number names, if any.
    spec fn spec_from_native(value: u32) -> Option<Self>;

    /// Decoding the number of a member gives that member back.
    proof fn lemma_native_round_trip(self)
        ensures
            Self::spec_from_native(self.spec_native()) == Some(self),
    ;

    /// A member that a number decodes to is numbered by that number.
    proof fn lemma_from_native_inverse(value: u32)
        ensures
            Self::spec_from_native(value) matches Some(e) ==> e.spec_native() == value,
    ;

    /// The number the native runtime uses for this member.
    fn native_value(self) -> (r: u32)
        ensures
            r == self.spec_native(),
    ;

    /// The member a native number names, or `None` for one this enum has no
    /// member for.
    fn from_native_value(value: u32) -> (r: Option<Self>)
        ensures
            r == Self::spec_from_native(value),
    ;
}

/// The member a native number names; `error` when it names none.
pub fn decode_native<E: NativeEnumValue>(value: u32, error: InputError) -> (r: Result<E, CnaError>)
    ensures
        r == match E::spec_from_native(value) {
            Some(e) => Ok::<E, CnaError>(e),
            None => Err(CnaError::InvalidInput(error)),
        },
{
    match E::from_native_value(value) {
        Some(e) => Ok(e),
        None => Err(CnaError::InvalidInput(error)),
    }
}

/// XNA `Blend` identity, numbered as the native runtime numbers it.
#[derive(Clone, Copy, Debug, Eq, Hash, PartialEq, Structural)]
pub enum Blend {
    One,
    Zero,
    SourceColor,
    InverseSourceColor,
    SourceAlpha,
    InverseSourceAlpha,
    DestinationColor,
    InverseDestinationColor,
    DestinationAlpha,
    InverseDestinationAlpha,
    BlendFactor,
    InverseBlendFactor,
    SourceAlphaSaturation,
}

impl NativeEnumValue for Blend {
    open spec fn spec_native(self) -> u32 {
        match self {
            Blend::One => 0,
            Blend::Zero => 1,
            Blend::SourceColor => 2,
            Blend::InverseSourceColor => 3,
            Blend::SourceAlpha => 4,
            Blend::InverseSourceAlpha => 5,
            Blend::DestinationColor => 6,
            Blend::InverseDestinationColor => 7,
            Blend::DestinationAlpha => 8,
            Blend::InverseDestinationAlpha => 9,
            Blend::BlendFactor => 10,
            Blend::InverseBlendFactor => 11,
            Blend::SourceAlphaSaturation => 12,
        }
    }

    open spec fn spec_from_native(value: u32) -> Option<Self> {
        if value == 0 {
            Some(Blend::One)
        } else if value == 1 {
            Some(Blend::Zero)
        } else if value == 2 {
            Some(Blend::SourceColor)
        } else if value == 3 {
            Some(Blend::InverseSourceColor)
        } else if value == 4 {
            Some(Blend::SourceAlpha)
        } else if value == 5 {
            Some(Blend::InverseSourceAlpha)
        } else if value == 6 {
            Some(Blend::DestinationColor)
        } else if value == 7 {
            Some(Blend::InverseDestinationColor)
        } else if value == 8 {
            Some(Blend::DestinationAlpha)
        } else if value == 9 {
            Some(Blend::InverseDestinationAlpha)
        } else if value == 10 {
            Some(Blend::BlendFactor)
        } else if value == 11 {
            Some(Blend::InverseBlendFactor)
        } else if value == 12 {
            Some(Blend::SourceAlphaSaturation)
        } else {
            None
        }
    }

    proof fn lemma_native_round_trip(self) {
    }

    proof fn lemma_from_native_inverse(value: u32) {
    }

    fn native_value(self) -> (r: u32) {
        match self {
            Blend::One => 0,
            Blend::Zero => 1,
            Blend::SourceColor => 2,
            Blend::InverseSourceColor => 3,
            Blend::SourceAlpha => 4,
            Blend::InverseSourceAlpha => 5,
            Blend::DestinationColor => 6,
            Blend::InverseDestinationColor => 7,
            Blend::DestinationAlpha => 8,
            Blend::InverseDestinationAlpha => 9,
            Blend::BlendFactor => 10,
            Blend::InverseBlendFactor => 11,
            Blend::SourceAlphaSaturation => 12,
        }
    }

    fn from_native_value(value: u32) -> (r: Option<Self>) {
        if value == 0 {
            Some(Blend::One)
        } else if value == 1 {
            Some(Blend::Zero)
        } else if value == 2 {
            Some(Blend::SourceColor)
        } else if value == 3 {
            Some(Blend::InverseSourceColor)
        } else if value == 4 {
            Some(Blend::SourceAlpha)
        } else if value == 5 {
            Some(Blend::InverseSourceAlpha)
        } else if value == 6 {
            Some(Blend::DestinationColor)
        } else if value == 7 {
            Some(Blend::InverseDestinationColor)
        } else if value == 8 {
            Some(Blend::DestinationAlpha)
        } else if value == 9 {
            Some(Blend::InverseDestinationAlpha)
        } else if value == 10 {
            Some(Blend::BlendFactor)
        } else if value == 11 {
            Some(Blend::InverseBlendFactor)
        } else if value == 12 {
            Some(Blend::SourceAlphaSaturation)
        } else {
            None
        }
    }
}

/// XNA `BlendFunction` identity, numbered as the native runtime numbers it.
#[derive(Clone, Copy, Debug, Eq, Hash, PartialEq, Structural)]
pub enum BlendFunction {
    Add,
    Subtract,
    ReverseSubtract,
    Min,
    Max,
}

impl NativeEnumValue for BlendFunction {
    open spec fn spec_native(self) -> u32 {
        match self {
            BlendFunction::Add => 0,
            BlendFunction::Subtract => 1,
            BlendFunction::ReverseSubtract => 2,
            BlendFunction::Min => 3,
            BlendFunction::Max => 4,
        }
    }

    open spec fn spec_from_native(value: u32) -> Option<Self> {
        if value == 0 {
            Some(BlendFunction::Add)
        } else if value == 1 {
            Some(BlendFunction::Subtract)
        } else if value == 2 {
            Some(BlendFunction::ReverseSubtract)
        } else if value == 3 {
            Some(BlendFunction::Min)
        } else if value == 4 {
            Some(BlendFunction::Max)
        } else {
            None
        }
    }

    proof fn lemma_native_round_trip(self) {
    }

    proof fn lemma_from_native_inverse(value: u32) {
    }

    fn native_value(self) -> (r: u32) {
        match self {
            BlendFunction::Add => 0,
            BlendFunction::Subtract => 1,
            BlendFunction::ReverseSubtract => 2,
            BlendFunction::Min => 3,
            BlendFunction::Max => 4,
        }
    }

    fn from_native_value(value: u32) -> (r: Option<Self>) {
        if value == 0 {
            Some(BlendFunction::Add)
        } else if value == 1 {
            Some(BlendFunction::Subtract)
        } else if value == 2 {
            Some(BlendFunction::ReverseSubtract)
        } else if value == 3 {
            Some(BlendFunction::Min)
        } else if value == 4 {
            Some(BlendFunction::Max)
        } else {
            None
        }
    }
}

/// XNA `CompareFunction` identity, numbered as the native runtime numbers it.
#[derive(Clone, Copy, Debug, Eq, Hash, PartialEq, Structural)]
pub enum CompareFunction {
    Always,
    Never,
    Less,
    LessEqual,
    Equal,
    GreaterEqual,
    Greater,
    NotEqual,
}

impl NativeEnumValue for CompareFunction {
    open spec fn spec_native(self) -> u32 {
        match self {
            CompareFunction::Always => 0,
            CompareFunction::Never => 1,
            CompareFunction::Less => 2,
            CompareFunction::LessEqual => 3,
            CompareFunction::Equal => 4,
            CompareFunction::GreaterEqual => 5,
            CompareFunction::Greater => 6,
            CompareFunction::NotEqual => 7,
        }
    }

    open spec fn spec_from_native(value: u32) -> Option<Self> {
        if value == 0 {
            Some(CompareFunction::Always)
        } else if value == 1 {
            Some(CompareFunction::Never)
        } else if value == 2 {
            Some(CompareFunction::Less)
        } else if value == 3 {
            Some(CompareFunction::LessEqual)
        } else if value == 4 {
            Some(CompareFunction::Equal)
        } else if value == 5 {
            Some(CompareFunction::GreaterEqual)
        } else if value == 6 {
            Some(CompareFunction::Greater)
        } else if value == 7 {
            Some(CompareFunction::NotEqual)
        } else {
            None
        }
    }

    proof fn lemma_native_round_trip(self) {
    }

    proof fn lemma_from_native_inverse(value: u32) {
    }

    fn native_value(self) -> (r: u32) {
        match self {
            CompareFunction::Always => 0,
            CompareFunction::Never => 1,
            CompareFunction::Less => 2,
            CompareFunction::LessEqual => 3,
            CompareFunction::Equal => 4,
            CompareFunction::GreaterEqual => 5,
            CompareFunction::Greater => 6,
            CompareFunction::NotEqual => 7,
        }
    }

    fn from_native_value(value: u32) -> (r: Option<Self>) {
        if value == 0 {
            Some(CompareFunction::Always)
        } else if value == 1 {
            Some(CompareFunction::Never)
        } else if value == 2 {
            Some(CompareFunction::Less)
        } else if value == 3 {
            Some(CompareFunction::LessEqual)
        } else if value == 4 {
            Some(CompareFunction::Equal)
        } else if value == 5 {
            Some(CompareFunction::GreaterEqual)
        } else if value == 6 {
            Some(CompareFunction::Greater)
        } else if value == 7 {
            Some(CompareFunction::NotEqual)
        } else {
            None
        }
    }
}

/// XNA `StencilOperation` identity, numbered as the native runtime numbers it.
#[derive(Clone, Copy, Debug, Eq, Hash, PartialEq, Structural)]
pub enum StencilOperation {
    Keep,
    Zero,
    Replace,
    Increment,
    Decrement,
    IncrementSaturation,
    DecrementSaturation,
    Invert,
}

impl NativeEnumValue for StencilOperation {
    open spec fn spec_native(self) -> u32 {
        match self {
            StencilOperation::Keep => 0,
            StencilOperation::Zero => 1,
            StencilOperation::Replace => 2,
            StencilOperation::Increment => 3,
            StencilOperation::Decrement => 4,
            StencilOperation::IncrementSaturation => 5,
            StencilOperation::DecrementSaturation => 6,
            StencilOperation::Invert => 7,
        }
    }

    open spec fn spec_from_native(value: u32) -> Option<Self> {
        if value == 0 {
            Some(StencilOperation::Keep)
        } else if value == 1 {
            Some(StencilOperation::Zero)
        } else if value == 2 {
            Some(StencilOperation::Replace)
        } else if value == 3 {
            Some(StencilOperation::Increment)
        } else if value == 4 {
            Some(StencilOperation::Decrement)
        } else if value == 5 {
            Some(StencilOperation::IncrementSaturation)
        } else if value == 6 {
            Some(StencilOperation::DecrementSaturation)
        } else if value == 7 {
            Some(StencilOperation::Invert)
        } else {
            None
        }
    }

    proof fn lemma_native_round_trip(self) {
    }

    proof fn lemma_from_native_inverse(value: u32) {
    }

    fn native_value(self) -> (r: u32) {
        match self {
            StencilOperation::Keep => 0,
            StencilOperation::Zero => 1,
            StencilOperation::Replace => 2,
            StencilOperation::Increment => 3,
            StencilOperation::Decrement => 4,
            StencilOperation::IncrementSaturation => 5,
            StencilOperation::DecrementSaturation => 6,
            StencilOperation::Invert => 7,
        }
    }

    fn from_native_value(value: u32) -> (r: Option<Self>) {
        if value == 0 {
            Some(StencilOperation::Keep)
        } else if value == 1 {
            Some(StencilOperation::Zero)
        } else if value == 2 {
            Some(StencilOperation::Replace)
        } else if value == 3 {
            Some(StencilOperation::Increment)
        } else if value == 4 {
            Some(StencilOperation::Decrement)
        } else if value == 5 {
            Some(StencilOperation::IncrementSaturation)
        } else if value == 6 {
            Some(StencilOperation::DecrementSaturation)
        } else if value == 7 {
            Some(StencilOperation::Invert)
        } else {
            None
        }
    }
}

/// XNA `CullMode` identity, numbered as the native runtime numbers it.
#[derive(Clone, Copy, Debug, Eq, Hash, PartialEq, Structural)]
pub enum CullMode {
    CullNone,
    CullClockwiseFace,
    CullCounterClockwiseFace,
}

impl NativeEnumValue for CullMode {
    open spec fn spec_native(self) -> u32 {
        match self {
            CullMode::CullNone => 0,
            CullMode::CullClockwiseFace => 1,
            CullMode::CullCounterClockwiseFace => 2,
        }
    }

    open spec fn spec_from_native(value: u32) -> Option<Self> {
        if value == 0 {
            Some(CullMode::CullNone)
        } else if value == 1 {
            Some(CullMode::CullClockwiseFace)
        } else if value == 2 {
            Some(CullMode::CullCounterClockwiseFace)
        } else {
            None
        }
    }

    proof fn lemma_native_round_trip(self) {
    }

    proof fn lemma_from_native_inverse(value: u32) {
    }

    fn native_value(self) -> (r: u32) {
        match self {
            CullMode::CullNone => 0,
            CullMode::CullClockwiseFace => 1,
            CullMode::CullCounterClockwiseFace => 2,
        }
    }

    fn from_native_value(value: u32) -> (r: Option<Self>) {
        if value == 0 {
            Some(CullMode::CullNone)
        } else if value == 1 {
            Some(CullMode::CullClockwiseFace)
        } else if value == 2 {
            Some(CullMode::CullCounterClockwiseFace)
        } else {
            None
        }
    }
}

/// XNA `FillMode` identity, numbered as the native runtime numbers it.
#[derive(Clone, Copy, Debug, Eq, Hash, PartialEq, Structural)]
pub enum FillMode {
    Solid,
    WireFrame,
}

impl NativeEnumValue for FillMode {
    open spec fn spec_native(self) -> u32 {
        match self {
            FillMode::Solid => 0,
            FillMode::WireFrame => 1,
        }
    }

    open spec fn spec_from_native(value: u32) -> Option<Self> {
        if value == 0 {
            Some(FillMode::Solid)
        } else if value == 1 {
            Some(FillMode::WireFrame)
        } else {
            None
        }
    }

    proof fn lemma_native_round_trip(self) {
    }

    proof fn lemma_from_native_inverse(value: u32) {
    }

    fn native_value(self) -> (r: u32) {
        match self {
            FillMode::Solid => 0,
            FillMode::WireFrame => 1,
        }
    }

    fn from_native_value(value: u32) -> (r: Option<Self>) {
        if value == 0 {
            Some(FillMode::Solid)
        } else if value == 1 {
            Some(FillMode::WireFrame)
        } else {
            None
        }
    }
}

/// XNA `DepthFormat` identity, numbered as the native runtime numbers it.
#[derive(Clone, Copy, Debug, Eq, Hash, PartialEq, Structural)]
pub enum DepthFormat {
    NoDepth,
    Depth16,
    Depth24,
    Depth24Stencil8,
}

impl NativeEnumValue for DepthFormat {
    open spec fn spec_native(self) -> u32 {
        match self {
            DepthFormat::NoDepth => 0,
            DepthFormat::Depth16 => 1,
            DepthFormat::Depth24 => 2,
            DepthFormat::Depth24Stencil8 => 3,
        }
    }

    open spec fn spec_from_native(value: u32) -> Option<Self> {
        if value == 0 {
            Some(DepthFormat::NoDepth)
        } else if value == 1 {
            Some(DepthFormat::Depth16)
        } else if value == 2 {
            Some(DepthFormat::Depth24)
        } else if value == 3 {
            Some(DepthFormat::Depth24Stencil8)
        } else {
            None
        }
    }

    proof fn lemma_native_round_trip(self) {
    }

    proof fn lemma_from_native_inverse(value: u32) {
    }

    fn native_value(self) -> (r: u32) {
        match self {
            DepthFormat::NoDepth => 0,
            DepthFormat::Depth16 => 1,
            DepthFormat::Depth24 => 2,
            DepthFormat::Depth24Stencil8 => 3,
        }
    }

    fn from_native_value(value: u32) -> (r: Option<Self>) {
        if value == 0 {
            Some(DepthFormat::NoDepth)
        } else if value == 1 {
            Some(DepthFormat::Depth16)
        } else if value == 2 {
            Some(DepthFormat::Depth24)
        } else if value == 3 {
            Some(DepthFormat::Depth24Stencil8)
        } else {
            None
        }
    }
}

/// XNA `GraphicsDeviceStatus` identity, numbered as the native runtime numbers it.
#[derive(Clone, Copy, Debug, Eq, Hash, PartialEq, Structural)]
pub enum GraphicsDeviceStatus {
    Normal,
    Lost,
    NotReset,
}

impl NativeEnumValue for GraphicsDeviceStatus {
    open spec fn spec_native(self) -> u32 {
        match self {
            GraphicsDeviceStatus::Normal => 0,
            GraphicsDeviceStatus::Lost => 1,
            GraphicsDeviceStatus::NotReset => 2,
        }
    }

    open spec fn spec_from_native(value: u32) -> Option<Self> {
        if value == 0 {
            Some(GraphicsDeviceStatus::Normal)
        } else if value == 1 {
            Some(GraphicsDeviceStatus::Lost)
        } else if value == 2 {
            Some(GraphicsDeviceStatus::NotReset)
        } else {
            None
        }
    }

    proof fn lemma_native_round_trip(self) {
    }

    proof fn lemma_from_native_inverse(value: u32) {
    }

    fn native_value(self) -> (r: u32) {
        match self {
            GraphicsDeviceStatus::Normal => 0,
            GraphicsDeviceStatus::Lost => 1,
            GraphicsDeviceStatus::NotReset => 2,
        }
    }

    fn from_native_value(value: u32) -> (r: Option<Self>) {
        if value == 0 {
            Some(GraphicsDeviceStatus::Normal)
        } else if value == 1 {
            Some(GraphicsDeviceStatus::Lost)
        } else if value == 2 {
            Some(GraphicsDeviceStatus::NotReset)
        } else {
            None
        }
    }
}

/// XNA `GraphicsProfile` identity, numbered as the native runtime numbers it.
#[derive(Clone, Copy, Debug, Eq, Hash, PartialEq, Structural)]
pub enum GraphicsProfile {
    Reach,
    HiDef,
}

impl NativeEnumValue for GraphicsProfile {
    open spec fn spec_native(self) -> u32 {
        match self {
            GraphicsProfile::Reach => 0,
            GraphicsProfile::HiDef => 1,
        }
    }

    open spec fn spec_from_native(value: u32) -> Option<Self> {
        if value == 0 {
            Some(GraphicsProfile::Reach)
        } else if value == 1 {
            Some(GraphicsProfile::HiDef)
        } else {
            None
        }
    }

    proof fn lemma_native_round_trip(self) {
    }

    proof fn lemma_from_native_inverse(value: u32) {
    }

    fn native_value(self) -> (r: u32) {
        match self {
            GraphicsProfile::Reach => 0,
            GraphicsProfile::HiDef => 1,
        }
    }

    fn from_native_value(value: u32) -> (r: Option<Self>) {
        if value == 0 {
            Some(GraphicsProfile::Reach)
        } else if value == 1 {
            Some(GraphicsProfile::HiDef)
        } else {
            None
        }
    }
}

/// XNA `PresentInterval` identity, numbered as the native runtime numbers it.
#[derive(Clone, Copy, Debug, Eq, Hash, PartialEq, Structural)]
pub enum PresentInterval {
    Default,
    One,
    Two,
    Immediate,
}

impl NativeEnumValue for PresentInterval {
    open spec fn spec_native(self) -> u32 {
        match self {
            PresentInterval::Default => 0,
            PresentInterval::One => 1,
            PresentInterval::Two => 2,
            PresentInterval::Immediate => 3,
        }
    }

    open spec fn spec_from_native(value: u32) -> Option<Self> {
        if value == 0 {
            Some(PresentInterval::Default)
        } else if value == 1 {
            Some(PresentInterval::One)
        } else if value == 2 {
            Some(PresentInterval::Two)
        } else if value == 3 {
            Some(PresentInterval::Immediate)
        } else {
            None
        }
    }

    proof fn lemma_native_round_trip(self) {
    }

    proof fn lemma_from_native_inverse(value: u32) {
    }

    fn native_value(self) -> (r: u32) {
        match self {
            PresentInterval::Default => 0,
            PresentInterval::One => 1,
            PresentInterval::Two => 2,
            PresentInterval::Immediate => 3,
        }
    }

    fn from_native_value(value: u32) -> (r: Option<Self>) {
        if value == 0 {
            Some(PresentInterval::Default)
        } else if value == 1 {
            Some(PresentInterval::One)
        } else if value == 2 {
            Some(PresentInterval::Two)
        } else if value == 3 {
            Some(PresentInterval::Immediate)
        } else {
            None
        }
    }
}

/// XNA `RenderTargetUsage` identity, numbered as the native runtime numbers it.
#[derive(Clone, Copy, Debug, Eq, Hash, PartialEq, Structural)]
pub enum RenderTargetUsage {
    DiscardContents,
    PreserveContents,
    PlatformContents,
}

impl NativeEnumValue for RenderTargetUsage {
    open spec fn spec_native(self) -> u32 {
        match self {
            RenderTargetUsage::DiscardContents => 0,
            RenderTargetUsage::PreserveContents => 1,
            RenderTargetUsage::PlatformContents => 2,
        }
    }

    open spec fn spec_from_native(value: u32) -> Option<Self> {
        if value == 0 {
            Some(RenderTargetUsage::DiscardContents)
        } else if value == 1 {
            Some(RenderTargetUsage::PreserveContents)
        } else if value == 2 {
            Some(RenderTargetUsage::PlatformContents)
        } else {
            None
        }
    }

    proof fn lemma_native_round_trip(self) {
    }

    proof fn lemma_from_native_inverse(value: u32) {
    }

    fn native_value(self) -> (r: u32) {
        match self {
            RenderTargetUsage::DiscardContents => 0,
            RenderTargetUsage::PreserveContents => 1,
            RenderTargetUsage::PlatformContents => 2,
        }
    }

    fn from_native_value(value: u32) -> (r: Option<Self>) {
        if value == 0 {
            Some(RenderTargetUsage::DiscardContents)
        } else if value == 1 {
            Some(RenderTargetUsage::PreserveContents)
        } else if value == 2 {
            Some(RenderTargetUsage::PlatformContents)
        } else {
            None
        }
    }
}

/// XNA `CubeMapFace` identity, numbered as the native runtime numbers it.
#[derive(Clone, Copy, Debug, Eq, Hash, PartialEq, Structural)]
pub enum CubeMapFace {
    PositiveX,
    NegativeX,
    PositiveY,
    NegativeY,
    PositiveZ,
    NegativeZ,
}

impl NativeEnumValue for CubeMapFace {
    open spec fn spec_native(self) -> u32 {
        match self {
            CubeMapFace::PositiveX => 0,
            CubeMapFace::NegativeX => 1,
            CubeMapFace::PositiveY => 2,
            CubeMapFace::NegativeY => 3,
            CubeMapFace::PositiveZ => 4,
            CubeMapFace::NegativeZ => 5,
        }
    }

    open spec fn spec_from_native(value: u32) -> Option<Self> {
        if value == 0 {
            Some(CubeMapFace::PositiveX)
        } else if value == 1 {
            Some(CubeMapFace::NegativeX)
        } else if value == 2 {
            Some(CubeMapFace::PositiveY)
        } else if value == 3 {
            Some(CubeMapFace::NegativeY)
        } else if value == 4 {
            Some(CubeMapFace::PositiveZ)
        } else if value == 5 {
            Some(CubeMapFace::NegativeZ)
        } else {
            None
        }
    }

    proof fn lemma_native_round_trip(self) {
    }

    proof fn lemma_from_native_inverse(value: u32) {
    }

    fn native_value(self) -> (r: u32) {
        match self {
            CubeMapFace::PositiveX => 0,
            CubeMapFace::NegativeX => 1,
            CubeMapFace::PositiveY => 2,
            CubeMapFace::NegativeY => 3,
            CubeMapFace::PositiveZ => 4,
            CubeMapFace::NegativeZ => 5,
        }
    }

    fn from_native_value(value: u32) -> (r: Option<Self>) {
        if value == 0 {
            Some(CubeMapFace::PositiveX)
        } else if value == 1 {
            Some(CubeMapFace::NegativeX)
        } else if value == 2 {
            Some(CubeMapFace::PositiveY)
        } else if value == 3 {
            Some(CubeMapFace::NegativeY)
        } else if value == 4 {
            Some(CubeMapFace::PositiveZ)
        } else if value == 5 {
            Some(CubeMapFace::NegativeZ)
        } else {
            None
        }
    }
}

/// XNA `IndexElementSize` identity, numbered as the native runtime numbers it.
#[derive(Clone, Copy, Debug, Eq, Hash, PartialEq, Structural)]
pub enum IndexElementSize {
    SixteenBits,
    ThirtyTwoBits,
}

impl NativeEnumValue for IndexElementSize {
    open spec fn spec_native(self) -> u32 {
        match self {
            IndexElementSize::SixteenBits => 0,
            IndexElementSize::ThirtyTwoBits => 1,
        }
    }

    open spec fn spec_from_native(value: u32) -> Option<Self> {
        if value == 0 {
            Some(IndexElementSize::SixteenBits)
        } else if value == 1 {
            Some(IndexElementSize::ThirtyTwoBits)
        } else {
            None
        }
    }

    proof fn lemma_native_round_trip(self) {
    }

    proof fn lemma_from_native_inverse(value: u32) {
    }

    fn native_value(self) -> (r: u32) {
        match self {
            IndexElementSize::SixteenBits => 0,
            IndexElementSize::ThirtyTwoBits => 1,
        }
    }

    fn from_native_value(value: u32) -> (r: Option<Self>) {
        if value == 0 {
            Some(IndexElementSize::SixteenBits)
        } else if value == 1 {
            Some(IndexElementSize::ThirtyTwoBits)
        } else {
            None
        }
    }
}

/// XNA `PrimitiveType` identity, numbered as the native runtime numbers it.
#[derive(Clone, Copy, Debug, Eq, Hash, PartialEq, Structural)]
pub enum PrimitiveType {
    TriangleList,
    TriangleStrip,
    LineList,
    LineStrip,
}

impl NativeEnumValue for PrimitiveType {
    open spec fn spec_native(self) -> u32 {
        match self {
            PrimitiveType::TriangleList => 0,
            PrimitiveType::TriangleStrip => 1,
            PrimitiveType::LineList => 2,
            PrimitiveType::LineStrip => 3,
        }
    }

    open spec fn spec_from_native(value: u32) -> Option<Self> {
        if value == 0 {
            Some(PrimitiveType::TriangleList)
        } else if value == 1 {
            Some(PrimitiveType::TriangleStrip)
        } else if value == 2 {
            Some(PrimitiveType::LineList)
        } else if value == 3 {
            Some(PrimitiveType::LineStrip)
        } else {
            None
        }
    }

    proof fn lemma_native_round_trip(self) {
    }

    proof fn lemma_from_native_inverse(value: u32) {
    }

    fn native_value(self) -> (r: u32) {
        match self {
            PrimitiveType::TriangleList => 0,
            PrimitiveType::TriangleStrip => 1,
            PrimitiveType::LineList => 2,
            PrimitiveType::LineStrip => 3,
        }
    }

    fn from_native_value(value: u32) -> (r: Option<Self>) {
        if value == 0 {
            Some(PrimitiveType::TriangleList)
        } else if value == 1 {
            Some(PrimitiveType::TriangleStrip)
        } else if value == 2 {
            Some(PrimitiveType::LineList)
        } else if value == 3 {
            Some(PrimitiveType::LineStrip)
        } else {
            None
        }
    }
}

/// XNA `VertexElementFormat` identity, numbered as the native runtime numbers it.
#[derive(Clone, Copy, Debug, Eq, Hash, PartialEq, Structural)]
pub enum VertexElementFormat {
    Single,
    Vector2,
    Vector3,
    Vector4,
    Color,
    Byte4,
    Short2,
    Short4,
    NormalizedShort2,
    NormalizedShort4,
    HalfVector2,
    HalfVector4,
}

impl NativeEnumValue for VertexElementFormat {
    open spec fn spec_native(self) -> u32 {
        match self {
            VertexElementFormat::Single => 0,
            VertexElementFormat::Vector2 => 1,
            VertexElementFormat::Vector3 => 2,
            VertexElementFormat::Vector4 => 3,
            VertexElementFormat::Color => 4,
            VertexElementFormat::Byte4 => 5,
            VertexElementFormat::Short2 => 6,
            VertexElementFormat::Short4 => 7,
            VertexElementFormat::NormalizedShort2 => 8,
            VertexElementFormat::NormalizedShort4 => 9,
            VertexElementFormat::HalfVector2 => 10,
            VertexElementFormat::HalfVector4 => 11,
        }
    }

    open spec fn spec_from_native(value: u32) -> Option<Self> {
        if value == 0 {
            Some(VertexElementFormat::Single)
        } else if value == 1 {
            Some(VertexElementFormat::Vector2)
        } else if value == 2 {
            Some(VertexElementFormat::Vector3)
        } else if value == 3 {
            Some(VertexElementFormat::Vector4)
        } else if value == 4 {
            Some(VertexElementFormat::Color)
        } else if value == 5 {
            Some(VertexElementFormat::Byte4)
        } else if value == 6 {
            Some(VertexElementFormat::Short2)
        } else if value == 7 {
            Some(VertexElementFormat::Short4)
        } else if value == 8 {
            Some(VertexElementFormat::NormalizedShort2)
        } else if value == 9 {
            Some(VertexElementFormat::NormalizedShort4)
        } else if value == 10 {
            Some(VertexElementFormat::HalfVector2)
        } else if value == 11 {
            Some(VertexElementFormat::HalfVector4)
        } else {
            None
        }
    }

    proof fn lemma_native_round_trip(self) {
    }

    proof fn lemma_from_native_inverse(value: u32) {
    }

    fn native_value(self) -> (r: u32) {
        match self {
            VertexElementFormat::Single => 0,
            VertexElementFormat::Vector2 => 1,
            VertexElementFormat::Vector3 => 2,
            VertexElementFormat::Vector4 => 3,
            VertexElementFormat::Color => 4,
            VertexElementFormat::Byte4 => 5,
            VertexElementFormat::Short2 => 6,
            VertexElementFormat::Short4 => 7,
            VertexElementFormat::NormalizedShort2 => 8,
            VertexElementFormat::NormalizedShort4 => 9,
            VertexElementFormat::HalfVector2 => 10,
            VertexElementFormat::HalfVector4 => 11,
        }
    }

    fn from_native_value(value: u32) -> (r: Option<Self>) {
        if value == 0 {
            Some(VertexElementFormat::Single)
        } else if value == 1 {
            Some(VertexElementFormat::Vector2)
        } else if value == 2 {
            Some(VertexElementFormat::Vector3)
        } else if value == 3 {
            Some(VertexElementFormat::Vector4)
        } else if value == 4 {
            Some(VertexElementFormat::Color)
        } else if value == 5 {
            Some(VertexElementFormat::Byte4)
        } else if value == 6 {
            Some(VertexElementFormat::Short2)
        } else if value == 7 {
            Some(VertexElementFormat::Short4)
        } else if value == 8 {
            Some(VertexElementFormat::NormalizedShort2)
        } else if value == 9 {
            Some(VertexElementFormat::NormalizedShort4)
        } else if value == 10 {
            Some(VertexElementFormat::HalfVector2)
        } else if value == 11 {
            Some(VertexElementFormat::HalfVector4)
        } else {
            None
        }
    }
}

/// XNA `VertexElementUsage` identity, numbered as the native runtime numbers it.
#[derive(Clone, Copy, Debug, Eq, Hash, PartialEq, Structural)]
pub enum VertexElementUsage {
    Position,
    Color,
    TextureCoordinate,
    Normal,
    Binormal,
    Tangent,
    BlendIndices,
    BlendWeight,
    Depth,
    Fog,
    PointSize,
    Sample,
    TessellateFactor,
}

impl NativeEnumValue for VertexElementUsage {
    open spec fn spec_native(self) -> u32 {
        match self {
            VertexElementUsage::Position => 0,
            VertexElementUsage::Color => 1,
            VertexElementUsage::TextureCoordinate => 2,
            VertexElementUsage::Normal => 3,
            VertexElementUsage::Binormal => 4,
            VertexElementUsage::Tangent => 5,
            VertexElementUsage::BlendIndices => 6,
            VertexElementUsage::BlendWeight => 7,
            VertexElementUsage::Depth => 8,
            VertexElementUsage::Fog => 9,
            VertexElementUsage::PointSize => 10,
            VertexElementUsage::Sample => 11,
            VertexElementUsage::TessellateFactor => 12,
        }
    }

    open spec fn spec_from_native(value: u32) -> Option<Self> {
        if value == 0 {
            Some(VertexElementUsage::Position)
        } else if value == 1 {
            Some(VertexElementUsage::Color)
        } else if value == 2 {
            Some(VertexElementUsage::TextureCoordinate)
        } else if value == 3 {
            Some(VertexElementUsage::Normal)
        } else if value == 4 {
            Some(VertexElementUsage::Binormal)
        } else if value == 5 {
            Some(VertexElementUsage::Tangent)
        } else if value == 6 {
            Some(VertexElementUsage::BlendIndices)
        } else if value == 7 {
            Some(VertexElementUsage::BlendWeight)
        } else if value == 8 {
            Some(VertexElementUsage::Depth)
        } else if value == 9 {
            Some(VertexElementUsage::Fog)
        } else if value == 10 {
            Some(VertexElementUsage::PointSize)
        } else if value == 11 {
            Some(VertexElementUsage::Sample)
        } else if value == 12 {
            Some(VertexElementUsage::TessellateFactor)
        } else {
            None
        }
    }

    proof fn lemma_native_round_trip(self) {
    }

    proof fn lemma_from_native_inverse(value: u32) {
    }

    fn native_value(self) -> (r: u32) {
        match self {
            VertexElementUsage::Position => 0,
            VertexElementUsage::Color => 1,
            VertexElementUsage::TextureCoordinate => 2,
            VertexElementUsage::Normal => 3,
            VertexElementUsage::Binormal => 4,
            VertexElementUsage::Tangent => 5,
            VertexElementUsage::BlendIndices => 6,
            VertexElementUsage::BlendWeight => 7,
            VertexElementUsage::Depth => 8,
            VertexElementUsage::Fog => 9,
            VertexElementUsage::PointSize => 10,
            VertexElementUsage::Sample => 11,
            VertexElementUsage::TessellateFactor => 12,
        }
    }

    fn from_native_value(value: u32) -> (r: Option<Self>) {
        if value == 0 {
            Some(VertexElementUsage::Position)
        } else if value == 1 {
            Some(VertexElementUsage::Color)
        } else if value == 2 {
            Some(VertexElementUsage::TextureCoordinate)
        } else if value == 3 {
            Some(VertexElementUsage::Normal)
        } else if value == 4 {
            Some(VertexElementUsage::Binormal)
        } else if value == 5 {
            Some(VertexElementUsage::Tangent)
        } else if value == 6 {
            Some(VertexElementUsage::BlendIndices)
        } else if value == 7 {
            Some(VertexElementUsage::BlendWeight)
        } else if value == 8 {
            Some(VertexElementUsage::Depth)
        } else if value == 9 {
            Some(VertexElementUsage::Fog)
        } else if value == 10 {
            Some(VertexElementUsage::PointSize)
        } else if value == 11 {
            Some(VertexElementUsage::Sample)
        } else if value == 12 {
            Some(VertexElementUsage::TessellateFactor)
        } else {
            None
        }
    }
}

/// XNA `TextureAddressMode` identity, numbered as the native runtime numbers it.
#[derive(Clone, Copy, Debug, Eq, Hash, PartialEq, Structural)]
pub enum TextureAddressMode {
    Wrap,
    Clamp,
    Mirror,
}

impl NativeEnumValue for TextureAddressMode {
    open spec fn spec_native(self) -> u32 {
        match self {
            TextureAddressMode::Wrap => 0,
            TextureAddressMode::Clamp => 1,
            TextureAddressMode::Mirror => 2,
        }
    }

    open spec fn spec_from_native(value: u32) -> Option<Self> {
        if value == 0 {
            Some(TextureAddressMode::Wrap)
        } else if value == 1 {
            Some(TextureAddressMode::Clamp)
        } else if value == 2 {
            Some(TextureAddressMode::Mirror)
        } else {
            None
        }
    }

    proof fn lemma_native_round_trip(self) {
    }

    proof fn lemma_from_native_inverse(value: u32) {
    }

    fn native_value(self) -> (r: u32) {
        match self {
            TextureAddressMode::Wrap => 0,
            TextureAddressMode::Clamp => 1,
            TextureAddressMode::Mirror => 2,
        }
    }

    fn from_native_value(value: u32) -> (r: Option<Self>) {
        if value == 0 {
            Some(TextureAddressMode::Wrap)
        } else if value == 1 {
            Some(TextureAddressMode::Clamp)
        } else if value == 2 {
            Some(TextureAddressMode::Mirror)
        } else {
            None
        }
    }
}

/// XNA `TextureFilter` identity, numbered as the native runtime numbers it.
#[derive(Clone, Copy, Debug, Eq, Hash, PartialEq, Structural)]
pub enum TextureFilter {
    Linear,
    Point,
    Anisotropic,
    LinearMipPoint,
    PointMipLinear,
    MinLinearMagPointMipLinear,
    MinLinearMagPointMipPoint,
    MinPointMagLinearMipLinear,
    MinPointMagLinearMipPoint,
}

impl NativeEnumValue for TextureFilter {
    open spec fn spec_native(self) -> u32 {
        match self {
            TextureFilter::Linear => 0,
            TextureFilter::Point => 1,
            TextureFilter::Anisotropic => 2,
            TextureFilter::LinearMipPoint => 3,
            TextureFilter::PointMipLinear => 4,
            TextureFilter::MinLinearMagPointMipLinear => 5,
            TextureFilter::MinLinearMagPointMipPoint => 6,
            TextureFilter::MinPointMagLinearMipLinear => 7,
            TextureFilter::MinPointMagLinearMipPoint => 8,
        }
    }

    open spec fn spec_from_native(value: u32) -> Option<Self> {
        if value == 0 {
            Some(TextureFilter::Linear)
        } else if value == 1 {
            Some(TextureFilter::Point)
        } else if value == 2 {
            Some(TextureFilter::Anisotropic)
        } else if value == 3 {
            Some(TextureFilter::LinearMipPoint)
        } else if value == 4 {
            Some(TextureFilter::PointMipLinear)
        } else if value == 5 {
            Some(TextureFilter::MinLinearMagPointMipLinear)
        } else if value == 6 {
            Some(TextureFilter::MinLinearMagPointMipPoint)
        } else if value == 7 {
            Some(TextureFilter::MinPointMagLinearMipLinear)
        } else if value == 8 {
            Some(TextureFilter::MinPointMagLinearMipPoint)
        } else {
            None
        }
    }

    proof fn lemma_native_round_trip(self) {
    }

    proof fn lemma_from_native_inverse(value: u32) {
    }

    fn native_value(self) -> (r: u32) {
        match self {
            TextureFilter::Linear => 0,
            TextureFilter::Point => 1,
            TextureFilter::Anisotropic => 2,
            TextureFilter::LinearMipPoint => 3,
            TextureFilter::PointMipLinear => 4,
            TextureFilter::MinLinearMagPointMipLinear => 5,
            TextureFilter::MinLinearMagPointMipPoint => 6,
            TextureFilter::MinPointMagLinearMipLinear => 7,
            TextureFilter::MinPointMagLinearMipPoint => 8,
        }
    }

    fn from_native_value(value: u32) -> (r: Option<Self>) {
        if value == 0 {
            Some(TextureFilter::Linear)
        } else if value == 1 {
            Some(TextureFilter::Point)
        } else if value == 2 {
            Some(TextureFilter::Anisotropic)
        } else if value == 3 {
            Some(TextureFilter::LinearMipPoint)
        } else if value == 4 {
            Some(TextureFilter::PointMipLinear)
        } else if value == 5 {
            Some(TextureFilter::MinLinearMagPointMipLinear)
        } else if value == 6 {
            Some(TextureFilter::MinLinearMagPointMipPoint)
        } else if value == 7 {
            Some(TextureFilter::MinPointMagLinearMipLinear)
        } else if value == 8 {
            Some(TextureFilter::MinPointMagLinearMipPoint)
        } else {
            None
        }
    }
}

/// Exact XNA 4.0 `SpriteBatch` ordering modes.
#[derive(Clone, Copy, Debug, Eq, Hash, PartialEq, Structural)]
pub enum SpriteSortMode {
    Deferred,
    Immediate,
    Texture,
    BackToFront,
    FrontToBack,
}

impl NativeEnumValue for SpriteSortMode {
    open spec fn spec_native(self) -> u32 {
        match self {
            SpriteSortMode::Deferred => 0,
            SpriteSortMode::Immediate => 1,
            SpriteSortMode::Texture => 2,
            SpriteSortMode::BackToFront => 3,
            SpriteSortMode::FrontToBack => 4,
        }
    }

    open spec fn spec_from_native(value: u32) -> Option<Self> {
        if value == 0 {
            Some(SpriteSortMode::Deferred)
        } else if value == 1 {
            Some(SpriteSortMode::Immediate)
        } else if value == 2 {
            Some(SpriteSortMode::Texture)
        } else if value == 3 {
            Some(SpriteSortMode::BackToFront)
        } else if value == 4 {
            Some(SpriteSortMode::FrontToBack)
        } else {
            None
        }
    }

    proof fn lemma_native_round_trip(self) {
    }

    proof fn lemma_from_native_inverse(value: u32) {
    }

    fn native_value(self) -> (r: u32) {
        match self {
            SpriteSortMode::Deferred => 0,
            SpriteSortMode::Immediate => 1,
            SpriteSortMode::Texture => 2,
            SpriteSortMode::BackToFront => 3,
            SpriteSortMode::FrontToBack => 4,
        }
    }

    fn from_native_value(value: u32) -> (r: Option<Self>) {
        if value == 0 {
            Some(SpriteSortMode::Deferred)
        } else if value == 1 {
            Some(SpriteSortMode::Immediate)
        } else if value == 2 {
            Some(SpriteSortMode::Texture)
        } else if value == 3 {
            Some(SpriteSortMode::BackToFront)
        } else if value == 4 {
            Some(SpriteSortMode::FrontToBack)
        } else {
            None
        }
    }
}

/// Exact XNA 4.0 surface-format identities.
#[derive(Clone, Copy, Debug, Eq, Hash, PartialEq, Structural)]
pub enum SurfaceFormat {
    Color,
    Bgr565,
    Bgra5551,
    Bgra4444,
    Dxt1,
    Dxt3,
    Dxt5,
    NormalizedByte2,
    NormalizedByte4,
    Rgba1010102,
    Rg32,
    Rgba64,
    Alpha8,
    Single,
    Vector2,
    Vector4,
    HalfSingle,
    HalfVector2,
    HalfVector4,
    HdrBlendable,
}

impl NativeEnumValue for SurfaceFormat {
    open spec fn spec_native(self) -> u32 {
        match self {
            SurfaceFormat::Color => 0,
            SurfaceFormat::Bgr565 => 1,
            SurfaceFormat::Bgra5551 => 2,
            SurfaceFormat::Bgra4444 => 3,
            SurfaceFormat::Dxt1 => 4,
            SurfaceFormat::Dxt3 => 5,
            SurfaceFormat::Dxt5 => 6,
            SurfaceFormat::NormalizedByte2 => 7,
            SurfaceFormat::NormalizedByte4 => 8,
            SurfaceFormat::Rgba1010102 => 9,
            SurfaceFormat::Rg32 => 10,
            SurfaceFormat::Rgba64 => 11,
            SurfaceFormat::Alpha8 => 12,
            SurfaceFormat::Single => 13,
            SurfaceFormat::Vector2 => 14,
            SurfaceFormat::Vector4 => 15,
            SurfaceFormat::HalfSingle => 16,
            SurfaceFormat::HalfVector2 => 17,
            SurfaceFormat::HalfVector4 => 18,
            SurfaceFormat::HdrBlendable => 19,
        }
    }

    open spec fn spec_from_native(value: u32) -> Option<Self> {
        if value == 0 {
            Some(SurfaceFormat::Color)
        } else if value == 1 {
            Some(SurfaceFormat::Bgr565)
        } else if value == 2 {
            Some(SurfaceFormat::Bgra5551)
        } else if value == 3 {
            Some(SurfaceFormat::Bgra4444)
        } else if value == 4 {
            Some(SurfaceFormat::Dxt1)
        } else if value == 5 {
            Some(SurfaceFormat::Dxt3)
        } else if value == 6 {
            Some(SurfaceFormat::Dxt5)
        } else if value == 7 {
            Some(SurfaceFormat::NormalizedByte2)
        } else if value == 8 {
            Some(SurfaceFormat::NormalizedByte4)
        } else if value == 9 {
            Some(SurfaceFormat::Rgba1010102)
        } else if value == 10 {
            Some(SurfaceFormat::Rg32)
        } else if value == 11 {
            Some(SurfaceFormat::Rgba64)
        } else if value == 12 {
            Some(SurfaceFormat::Alpha8)
        } else if value == 13 {
            Some(SurfaceFormat::Single)
        } else if value == 14 {
            Some(SurfaceFormat::Vector2)
        } else if value == 15 {
            Some(SurfaceFormat::Vector4)
        } else if value == 16 {
            Some(SurfaceFormat::HalfSingle)
        } else if value == 17 {
            Some(SurfaceFormat::HalfVector2)
        } else if value == 18 {
            Some(SurfaceFormat::HalfVector4)
        } else if value == 19 {
            Some(SurfaceFormat::HdrBlendable)
        } else {
            None
        }
    }

    proof fn lemma_native_round_trip(self) {
    }

    proof fn lemma_from_native_inverse(value: u32) {
    }

    fn native_value(self) -> (r: u32) {
        match self {
            SurfaceFormat::Color => 0,
            SurfaceFormat::Bgr565 => 1,
            SurfaceFormat::Bgra5551 => 2,
            SurfaceFormat::Bgra4444 => 3,
            SurfaceFormat::Dxt1 => 4,
            SurfaceFormat::Dxt3 => 5,
            SurfaceFormat::Dxt5 => 6,
            SurfaceFormat::NormalizedByte2 => 7,
            SurfaceFormat::NormalizedByte4 => 8,
            SurfaceFormat::Rgba1010102 => 9,
            SurfaceFormat::Rg32 => 10,
            SurfaceFormat::Rgba64 => 11,
            SurfaceFormat::Alpha8 => 12,
            SurfaceFormat::Single => 13,
            SurfaceFormat::Vector2 => 14,
            SurfaceFormat::Vector4 => 15,
            SurfaceFormat::HalfSingle => 16,
            SurfaceFormat::HalfVector2 => 17,
            SurfaceFormat::HalfVector4 => 18,
            SurfaceFormat::HdrBlendable => 19,
        }
    }

    fn from_native_value(value: u32) -> (r: Option<Self>) {
        if value == 0 {
            Some(SurfaceFormat::Color)
        } else if value == 1 {
            Some(SurfaceFormat::Bgr565)
        } else if value == 2 {
            Some(SurfaceFormat::Bgra5551)
        } else if value == 3 {
            Some(SurfaceFormat::Bgra4444)
        } else if value == 4 {
            Some(SurfaceFormat::Dxt1)
        } else if value == 5 {
            Some(SurfaceFormat::Dxt3)
        } else if value == 6 {
            Some(SurfaceFormat::Dxt5)
        } else if value == 7 {
            Some(SurfaceFormat::NormalizedByte2)
        } else if value == 8 {
            Some(SurfaceFormat::NormalizedByte4)
        } else if value == 9 {
            Some(SurfaceFormat::Rgba1010102)
        } else if value == 10 {
            Some(SurfaceFormat::Rg32)
        } else if value == 11 {
            Some(SurfaceFormat::Rgba64)
        } else if value == 12 {
            Some(SurfaceFormat::Alpha8)
        } else if value == 13 {
            Some(SurfaceFormat::Single)
        } else if value == 14 {
            Some(SurfaceFormat::Vector2)
        } else if value == 15 {
            Some(SurfaceFormat::Vector4)
        } else if value == 16 {
            Some(SurfaceFormat::HalfSingle)
        } else if value == 17 {
            Some(SurfaceFormat::HalfVector2)
        } else if value == 18 {
            Some(SurfaceFormat::HalfVector4)
        } else if value == 19 {
            Some(SurfaceFormat::HdrBlendable)
        } else {
            None
        }
    }
}

/// Open flags representation of XNA's `ColorWriteChannels`.
#[derive(Clone, Copy, Debug, Default, Eq, Hash, PartialEq, Structural)]
pub struct ColorWriteChannels(i32);

impl View for ColorWriteChannels {
    type V = i32;

    closed spec fn view(&self) -> i32 {
        self.0
    }
}

impl ColorWriteChannels {
    pub fn NoChannels() -> (r: Self)
        ensures
            r@ == 0,
    {
        ColorWriteChannels(0)
    }

    pub fn Red() -> (r: Self)
        ensures
            r@ == 1,
    {
        ColorWriteChannels(1)
    }

    pub fn Green() -> (r: Self)
        ensures
            r@ == 2,
    {
        ColorWriteChannels(2)
    }

    pub fn Blue() -> (r: Self)
        ensures
            r@ == 4,
    {
        ColorWriteChannels(4)
    }

    pub fn Alpha() -> (r: Self)
        ensures
            r@ == 8,
    {
        ColorWriteChannels(8)
    }

    pub fn All() -> (r: Self)
        ensures
            r@ == 15,
            r == Self::spec_all(),
    {
        ColorWriteChannels(15)
    }

    /// Every channel, as a value of the model.
    pub closed spec fn spec_all() -> Self {
        ColorWriteChannels(15)
    }

    /// The flags a native word carries, as a value of the model.
    pub closed spec fn spec_from_bits(value: u32) -> Self {
        ColorWriteChannels(value as i32)
    }

    /// What the two model values hold.
    pub proof fn lemma_spec_values(value: u32)
        ensures
            Self::spec_all()@ == 15,
            Self::spec_from_bits(value)@ == value as i32,
    {
    }

    /// The flags read back from the native word they were written as are
    /// the same flags.
    pub proof fn lemma_bits_round_trip(self)
        ensures
            Self::spec_from_bits(self@ as u32) == self,
    {
        let x: i32 = self.0;
        assert(((x as u32) as i32) == x) by (bit_vector);
    }

    /// The flags as the unsigned word the native runtime takes.
    pub fn bits(self) -> (r: u32)
        ensures
            r == self@ as u32,
    {
        self.0 as u32
    }

    /// The flags a native word carries, every bit kept.
    pub fn from_bits(value: u32) -> (r: Self)
        ensures
            r@ == value as i32,
            r == Self::spec_from_bits(value),
    {
        ColorWriteChannels(value as i32)
    }
}

impl core::ops::BitOr for ColorWriteChannels {
    type Output = Self;

    fn bitor(self, rhs: Self) -> (r: Self)
        ensures
            r@ == self@ | rhs@,
    {
        ColorWriteChannels(self.0 | rhs.0)
    }
}

impl vstd::std_specs::ops::BitOrSpecImpl for ColorWriteChannels {
    open spec fn obeys_bitor_spec() -> bool {
        true
    }

    open spec fn bitor_req(self, rhs: Self) -> bool {
        true
    }

    closed spec fn bitor_spec(self, rhs: Self) -> Self {
        ColorWriteChannels(self.0 | rhs.0)
    }
}

impl core::ops::BitAnd for ColorWriteChannels {
    type Output = Self;

    fn bitand(self, rhs: Self) -> (r: Self)
        ensures
            r@ == self@ & rhs@,
    {
        ColorWriteChannels(self.0 & rhs.0)
    }
}

impl vstd::std_specs::ops::BitAndSpecImpl for ColorWriteChannels {
    open spec fn obeys_bitand_spec() -> bool {
        true
    }

    open spec fn bitand_req(self, rhs: Self) -> bool {
        true
    }

    closed spec fn bitand_spec(self, rhs: Self) -> Self {
        ColorWriteChannels(self.0 & rhs.0)
    }
}

impl core::ops::BitOrAssign for ColorWriteChannels {
    fn bitor_assign(&mut self, rhs: Self) {
        self.0 = self.0 | rhs.0;
    }
}

/// Open flags representation of XNA's `ClearOptions`.
#[derive(Clone, Copy, Debug, Default, Eq, Hash, PartialEq, Structural)]
pub struct ClearOptions(i32);

impl View for ClearOptions {
    type V = i32;

    closed spec fn view(&self) -> i32 {
        self.0
    }
}

impl ClearOptions {
    pub fn Target() -> (r: Self)
        ensures
            r@ == 1,
    {
        ClearOptions(1)
    }

    pub fn DepthBuffer() -> (r: Self)
        ensures
            r@ == 2,
    {
        ClearOptions(2)
    }

    pub fn Stencil() -> (r: Self)
        ensures
            r@ == 4,
    {
        ClearOptions(4)
    }

    /// The flags as the unsigned word the native runtime takes.
    pub fn bits(self) -> (r: u32)
        ensures
            r == self@ as u32,
    {
        self.0 as u32
    }

    /// The flags a native word carries, every bit kept.
    pub fn from_bits(value: u32) -> (r: Self)
        ensures
            r@ == value as i32,
    {
        ClearOptions(value as i32)
    }
}

impl core::ops::BitOr for ClearOptions {
    type Output = Self;

    fn bitor(self, rhs: Self) -> (r: Self)
        ensures
            r@ == self@ | rhs@,
    {
        ClearOptions(self.0 | rhs.0)
    }
}

impl vstd::std_specs::ops::BitOrSpecImpl for ClearOptions {
    open spec fn obeys_bitor_spec() -> bool {
        true
    }

    open spec fn bitor_req(self, rhs: Self) -> bool {
        true
    }

    closed spec fn bitor_spec(self, rhs: Self) -> Self {
        ClearOptions(self.0 | rhs.0)
    }
}

impl core::ops::BitAnd for ClearOptions {
    type Output = Self;

    fn bitand(self, rhs: Self) -> (r: Self)
        ensures
            r@ == self@ & rhs@,
    {
        ClearOptions(self.0 & rhs.0)
    }
}

impl vstd::std_specs::ops::BitAndSpecImpl for ClearOptions {
    open spec fn obeys_bitand_spec() -> bool {
        true
    }

    open spec fn bitand_req(self, rhs: Self) -> bool {
        true
    }

    closed spec fn bitand_spec(self, rhs: Self) -> Self {
        ClearOptions(self.0 & rhs.0)
    }
}

impl core::ops::BitOrAssign for ClearOptions {
    fn bitor_assign(&mut self, rhs: Self) {
        self.0 = self.0 | rhs.0;
    }
}

/// Open flags representation of XNA's `BufferUsage`.
#[derive(Clone, Copy, Debug, Default, Eq, Hash, PartialEq, Structural)]
pub struct BufferUsage(i32);

impl View for BufferUsage {
    type V = i32;

    closed spec fn view(&self) -> i32 {
        self.0
    }
}

impl BufferUsage {
    pub fn NoFlags() -> (r: Self)
        ensures
            r@ == 0,
    {
        BufferUsage(0)
    }

    pub fn WriteOnly() -> (r: Self)
        ensures
            r@ == 1,
    {
        BufferUsage(1)
    }

    /// The flags as the unsigned word the native runtime takes.
    pub fn bits(self) -> (r: u32)
        ensures
            r == self@ as u32,
    {
        self.0 as u32
    }

    /// The flags a native word carries, every bit kept.
    pub fn from_bits(value: u32) -> (r: Self)
        ensures
            r@ == value as i32,
    {
        BufferUsage(value as i32)
    }
}

impl core::ops::BitOr for BufferUsage {
    type Output = Self;

    fn bitor(self, rhs: Self) -> (r: Self)
        ensures
            r@ == self@ | rhs@,
    {
        BufferUsage(self.0 | rhs.0)
    }
}

impl vstd::std_specs::ops::BitOrSpecImpl for BufferUsage {
    open spec fn obeys_bitor_spec() -> bool {
        true
    }

    open spec fn bitor_req(self, rhs: Self) -> bool {
        true
    }

    closed spec fn bitor_spec(self, rhs: Self) -> Self {
        BufferUsage(self.0 | rhs.0)
    }
}

impl core::ops::BitAnd for BufferUsage {
    type Output = Self;

    fn bitand(self, rhs: Self) -> (r: Self)
        ensures
            r@ == self@ & rhs@,
    {
        BufferUsage(self.0 & rhs.0)
    }
}

impl vstd::std_specs::ops::BitAndSpecImpl for BufferUsage {
    open spec fn obeys_bitand_spec() -> bool {
        true
    }

    open spec fn bitand_req(self, rhs: Self) -> bool {
        true
    }

    closed spec fn bitand_spec(self, rhs: Self) -> Self {
        BufferUsage(self.0 & rhs.0)
    }
}

impl core::ops::BitOrAssign for BufferUsage {
    fn bitor_assign(&mut self, rhs: Self) {
        self.0 = self.0 | rhs.0;
    }
}

/// Open flags representation of XNA's `SetDataOptions`.
#[derive(Clone, Copy, Debug, Default, Eq, Hash, PartialEq, Structural)]
pub struct SetDataOptions(i32);

impl View for SetDataOptions {
    type V = i32;

    closed spec fn view(&self) -> i32 {
        self.0
    }
}

impl SetDataOptions {
    pub fn NoOptions() -> (r: Self)
        ensures
            r@ == 0,
    {
        SetDataOptions(0)
    }

    pub fn Discard() -> (r: Self)
        ensures
            r@ == 1,
    {
        SetDataOptions(1)
    }

    pub fn NoOverwrite() -> (r: Self)
        ensures
            r@ == 2,
    {
        SetDataOptions(2)
    }

    /// The flags as the unsigned word the native runtime takes.
    pub fn bits(self) -> (r: u32)
        ensures
            r == self@ as u32,
    {
        self.0 as u32
    }

    /// The flags a native word carries, every bit kept.
    pub fn from_bits(value: u32) -> (r: Self)
        ensures
            r@ == value as i32,
    {
        SetDataOptions(value as i32)
    }
}

impl core::ops::BitOr for SetDataOptions {
    type Output = Self;

    fn bitor(self, rhs: Self) -> (r: Self)
        ensures
            r@ == self@ | rhs@,
    {
        SetDataOptions(self.0 | rhs.0)
    }
}

impl vstd::std_specs::ops::BitOrSpecImpl for SetDataOptions {
    open spec fn obeys_bitor_spec() -> bool {
        true
    }

    open spec fn bitor_req(self, rhs: Self) -> bool {
        true
    }

    closed spec fn bitor_spec(self, rhs: Self) -> Self {
        SetDataOptions(self.0 | rhs.0)
    }
}

impl core::ops::BitAnd for SetDataOptions {
    type Output = Self;

    fn bitand(self, rhs: Self) -> (r: Self)
        ensures
            r@ == self@ & rhs@,
    {
        SetDataOptions(self.0 & rhs.0)
    }
}

impl vstd::std_specs::ops::BitAndSpecImpl for SetDataOptions {
    open spec fn obeys_bitand_spec() -> bool {
        true
    }

    open spec fn bitand_req(self, rhs: Self) -> bool {
        true
    }

    closed spec fn bitand_spec(self, rhs: Self) -> Self {
        SetDataOptions(self.0 & rhs.0)
    }
}

impl core::ops::BitOrAssign for SetDataOptions {
    fn bitor_assign(&mut self, rhs: Self) {
        self.0 = self.0 | rhs.0;
    }
}

/// Exact XNA 4.0 sprite-flip flags.
#[derive(Clone, Copy, Debug, Default, Eq, Hash, PartialEq, Structural)]
pub struct SpriteEffects(i32);

impl View for SpriteEffects {
    type V = i32;

    closed spec fn view(&self) -> i32 {
        self.0
    }
}

impl SpriteEffects {
    pub fn NoEffects() -> (r: Self)
        ensures
            r@ == 0,
    {
        SpriteEffects(0)
    }

    pub fn FlipHorizontally() -> (r: Self)
        ensures
            r@ == 1,
    {
        SpriteEffects(1)
    }

    pub fn FlipVertically() -> (r: Self)
        ensures
            r@ == 2,
    {
        SpriteEffects(2)
    }

    /// The flags as the unsigned word the native runtime takes.
    pub fn bits(self) -> (r: u32)
        ensures
            r == self@ as u32,
    {
        self.0 as u32
    }

    /// The flags a native word carries, every bit kept.
    pub fn from_bits(value: u32) -> (r: Self)
        ensures
            r@ == value as i32,
    {
        SpriteEffects(value as i32)
    }
}

impl core::ops::BitOr for SpriteEffects {
    type Output = Self;

    fn bitor(self, rhs: Self) -> (r: Self)
        ensures
            r@ == self@ | rhs@,
    {
        SpriteEffects(self.0 | rhs.0)
    }
}

impl vstd::std_specs::ops::BitOrSpecImpl for SpriteEffects {
    open spec fn obeys_bitor_spec() -> bool {
        true
    }

    open spec fn bitor_req(self, rhs: Self) -> bool {
        true
    }

    closed spec fn bitor_spec(self, rhs: Self) -> Self {
        SpriteEffects(self.0 | rhs.0)
    }
}

impl core::ops::BitAnd for SpriteEffects {
    type Output = Self;

    fn bitand(self, rhs: Self) -> (r: Self)
        ensures
            r@ == self@ & rhs@,
    {
        SpriteEffects(self.0 & rhs.0)
    }
}

impl vstd::std_specs::ops::BitAndSpecImpl for SpriteEffects {
    open spec fn obeys_bitand_spec() -> bool {
        true
    }

    open spec fn bitand_req(self, rhs: Self) -> bool {
        true
    }

    closed spec fn bitand_spec(self, rhs: Self) -> Self {
        SpriteEffects(self.0 & rhs.0)
    }
}

impl core::ops::BitOrAssign for SpriteEffects {
    fn bitor_assign(&mut self, rhs: Self) {
        self.0 = self.0 | rhs.0;
    }
}

/// Two members with the same native number are the same member.
pub proof fn lemma_native_injective<E: NativeEnumValue>(a: E, b: E)
    requires
        a.spec_native() == b.spec_native(),
    ensures
        a == b,
{
    a.lemma_native_round_trip();
    b.lemma_native_round_trip();
}

/// Each `Blend` member is numbered, both ways, by the value XNA declares for it.
pub proof fn law_blend_native_numbers()
    ensures
        Blend::One.spec_native() == 0,
        Blend::spec_from_native(0) == Some(Blend::One),
        Blend::Zero.spec_native() == 1,
        Blend::spec_from_native(1) == Some(Blend::Zero),
        Blend::SourceColor.spec_native() == 2,
        Blend::spec_from_native(2) == Some(Blend::SourceColor),
        Blend::InverseSourceColor.spec_native() == 3,
        Blend::spec_from_native(3) == Some(Blend::InverseSourceColor),
        Blend::SourceAlpha.spec_native() == 4,
        Blend::spec_from_native(4) == Some(Blend::SourceAlpha),
        Blend::InverseSourceAlpha.spec_native() == 5,
        Blend::spec_from_native(5) == Some(Blend::InverseSourceAlpha),
        Blend::DestinationColor.spec_native() == 6,
        Blend::spec_from_native(6) == Some(Blend::DestinationColor),
        Blend::InverseDestinationColor.spec_native() == 7,
        Blend::spec_from_native(7) == Some(Blend::InverseDestinationColor),
        Blend::DestinationAlpha.spec_native() == 8,
        Blend::spec_from_native(8) == Some(Blend::DestinationAlpha),
        Blend::InverseDestinationAlpha.spec_native() == 9,
        Blend::spec_from_native(9) == Some(Blend::InverseDestinationAlpha),
        Blend::BlendFactor.spec_native() == 10,
        Blend::spec_from_native(10) == Some(Blend::BlendFactor),
        Blend::InverseBlendFactor.spec_native() == 11,
        Blend::spec_from_native(11) == Some(Blend::InverseBlendFactor),
        Blend::SourceAlphaSaturation.spec_native() == 12,
        Blend::spec_from_native(12) == Some(Blend::SourceAlphaSaturation),
{
}

/// Each `BlendFunction` member is numbered, both ways, by the value XNA declares for it.
pub proof fn law_blend_function_native_numbers()
    ensures
        BlendFunction::Add.spec_native() == 0,
        BlendFunction::spec_from_native(0) == Some(BlendFunction::Add),
        BlendFunction::Subtract.spec_native() == 1,
        BlendFunction::spec_from_native(1) == Some(BlendFunction::Subtract),
        BlendFunction::ReverseSubtract.spec_native() == 2,
        BlendFunction::spec_from_native(2) == Some(BlendFunction::ReverseSubtract),
        BlendFunction::Min.spec_native() == 3,
        BlendFunction::spec_from_native(3) == Some(BlendFunction::Min),
        BlendFunction::Max.spec_native() == 4,
        BlendFunction::spec_from_native(4) == Some(BlendFunction::Max),
{
}

/// Each `CompareFunction` member is numbered, both ways, by the value XNA declares for it.
pub proof fn law_compare_function_native_numbers()
    ensures
        CompareFunction::Always.spec_native() == 0,
        CompareFunction::spec_from_native(0) == Some(CompareFunction::Always),
        CompareFunction::Never.spec_native() == 1,
        CompareFunction::spec_from_native(1) == Some(CompareFunction::Never),
        CompareFunction::Less.spec_native() == 2,
        CompareFunction::spec_from_native(2) == Some(CompareFunction::Less),
        CompareFunction::LessEqual.spec_native() == 3,
        CompareFunction::spec_from_native(3) == Some(CompareFunction::LessEqual),
        CompareFunction::Equal.spec_native() == 4,
        CompareFunction::spec_from_native(4) == Some(CompareFunction::Equal),
        CompareFunction::GreaterEqual.spec_native() == 5,
        CompareFunction::spec_from_native(5) == Some(CompareFunction::GreaterEqual),
        CompareFunction::Greater.spec_native() == 6,
        CompareFunction::spec_from_native(6) == Some(CompareFunction::Greater),
        CompareFunction::NotEqual.spec_native() == 7,
        CompareFunction::spec_from_native(7) == Some(CompareFunction::NotEqual),
{
}

/// Each `StencilOperation` member is numbered, both ways, by the value XNA declares for it.
pub proof fn law_stencil_operation_native_numbers()
    ensures
        StencilOperation::Keep.spec_native() == 0,
        StencilOperation::spec_from_native(0) == Some(StencilOperation::Keep),
        StencilOperation::Zero.spec_native() == 1,
        StencilOperation::spec_from_native(1) == Some(StencilOperation::Zero),
        StencilOperation::Replace.spec_native() == 2,
        StencilOperation::spec_from_native(2) == Some(StencilOperation::Replace),
        StencilOperation::Increment.spec_native() == 3,
        StencilOperation::spec_from_native(3) == Some(StencilOperation::Increment),
        StencilOperation::Decrement.spec_native() == 4,
        StencilOperation::spec_from_native(4) == Some(StencilOperation::Decrement),
        StencilOperation::IncrementSaturation.spec_native() == 5,
        StencilOperation::spec_from_native(5) == Some(StencilOperation::IncrementSaturation),
        StencilOperation::DecrementSaturation.spec_native() == 6,
        StencilOperation::spec_from_native(6) == Some(StencilOperation::DecrementSaturation),
        StencilOperation::Invert.spec_native() == 7,
        StencilOperation::spec_from_native(7) == Some(StencilOperation::Invert),
{
}

/// Each `CullMode` member is numbered, both ways, by the value XNA declares for it.
pub proof fn law_cull_mode_native_numbers()
    ensures
        CullMode::CullNone.spec_native() == 0,
        CullMode::spec_from_native(0) == Some(CullMode::CullNone),
        CullMode::CullClockwiseFace.spec_native() == 1,
        CullMode::spec_from_native(1) == Some(CullMode::CullClockwiseFace),
        CullMode::CullCounterClockwiseFace.spec_native() == 2,
        CullMode::spec_from_native(2) == Some(CullMode::CullCounterClockwiseFace),
{
}

/// Each `FillMode` member is numbered, both ways, by the value XNA declares for it.
pub proof fn law_fill_mode_native_numbers()
    ensures
        FillMode::Solid.spec_native() == 0,
        FillMode::spec_from_native(0) == Some(FillMode::Solid),
        FillMode::WireFrame.spec_native() == 1,
        FillMode::spec_from_native(1) == Some(FillMode::WireFrame),
{
}

/// Each `DepthFormat` member is numbered, both ways, by the value XNA declares for it.
pub proof fn law_depth_format_native_numbers()
    ensures
        DepthFormat::NoDepth.spec_native() == 0,
        DepthFormat::spec_from_native(0) == Some(DepthFormat::NoDepth),
        DepthFormat::Depth16.spec_native() == 1,
        DepthFormat::spec_from_native(1) == Some(DepthFormat::Depth16),
        DepthFormat::Depth24.spec_native() == 2,
        DepthFormat::spec_from_native(2) == Some(DepthFormat::Depth24),
        DepthFormat::Depth24Stencil8.spec_native() == 3,
        DepthFormat::spec_from_native(3) == Some(DepthFormat::Depth24Stencil8),
{
}

/// Each `GraphicsDeviceStatus` member is numbered, both ways, by the value XNA declares for it.
pub proof fn law_graphics_device_status_native_numbers()
    ensures
        GraphicsDeviceStatus::Normal.spec_native() == 0,
        GraphicsDeviceStatus::spec_from_native(0) == Some(GraphicsDeviceStatus::Normal),
        GraphicsDeviceStatus::Lost.spec_native() == 1,
        GraphicsDeviceStatus::spec_from_native(1) == Some(GraphicsDeviceStatus::Lost),
        GraphicsDeviceStatus::NotReset.spec_native() == 2,
        GraphicsDeviceStatus::spec_from_native(2) == Some(GraphicsDeviceStatus::NotReset),
{
}

/// Each `GraphicsProfile` member is numbered, both ways, by the value XNA declares for it.
pub proof fn law_graphics_profile_native_numbers()
    ensures
        GraphicsProfile::Reach.spec_native() == 0,
        GraphicsProfile::spec_from_native(0) == Some(GraphicsProfile::Reach),
        GraphicsProfile::HiDef.spec_native() == 1,
        GraphicsProfile::spec_from_native(1) == Some(GraphicsProfile::HiDef),
{
}

/// Each `PresentInterval` member is numbered, both ways, by the value XNA declares for it.
pub proof fn law_present_interval_native_numbers()
    ensures
        PresentInterval::Default.spec_native() == 0,
        PresentInterval::spec_from_native(0) == Some(PresentInterval::Default),
        PresentInterval::One.spec_native() == 1,
        PresentInterval::spec_from_native(1) == Some(PresentInterval::One),
        PresentInterval::Two.spec_native() == 2,
        PresentInterval::spec_from_native(2) == Some(PresentInterval::Two),
        PresentInterval::Immediate.spec_native() == 3,
        PresentInterval::spec_from_native(3) == Some(PresentInterval::Immediate),
{
}

/// Each `RenderTargetUsage` member is numbered, both ways, by the value XNA declares for it.
pub proof fn law_render_target_usage_native_numbers()
    ensures
        RenderTargetUsage::DiscardContents.spec_native() == 0,
        RenderTargetUsage::spec_from_native(0) == Some(RenderTargetUsage::DiscardContents),
        RenderTargetUsage::PreserveContents.spec_native() == 1,
        RenderTargetUsage::spec_from_native(1) == Some(RenderTargetUsage::PreserveContents),
        RenderTargetUsage::PlatformContents.spec_native() == 2,
        RenderTargetUsage::spec_from_native(2) == Some(RenderTargetUsage::PlatformContents),
{
}

/// Each `CubeMapFace` member is numbered, both ways, by the value XNA declares for it.
pub proof fn law_cube_map_face_native_numbers()
    ensures
        CubeMapFace::PositiveX.spec_native() == 0,
        CubeMapFace::spec_from_native(0) == Some(CubeMapFace::PositiveX),
        CubeMapFace::NegativeX.spec_native() == 1,
        CubeMapFace::spec_from_native(1) == Some(CubeMapFace::NegativeX),
        CubeMapFace::PositiveY.spec_native() == 2,
        CubeMapFace::spec_from_native(2) == Some(CubeMapFace::PositiveY),
        CubeMapFace::NegativeY.spec_native() == 3,
        CubeMapFace::spec_from_native(3) == Some(CubeMapFace::NegativeY),
        CubeMapFace::PositiveZ.spec_native() == 4,
        CubeMapFace::spec_from_native(4) == Some(CubeMapFace::PositiveZ),
        CubeMapFace::NegativeZ.spec_native() == 5,
        CubeMapFace::spec_from_native(5) == Some(CubeMapFace::NegativeZ),
{
}

/// Each `IndexElementSize` member is numbered, both ways, by the value XNA declares for it.
pub proof fn law_index_element_size_native_numbers()
    ensures
        IndexElementSize::SixteenBits.spec_native() == 0,
        IndexElementSize::spec_from_native(0) == Some(IndexElementSize::SixteenBits),
        IndexElementSize::ThirtyTwoBits.spec_native() == 1,
        IndexElementSize::spec_from_native(1) == Some(IndexElementSize::ThirtyTwoBits),
{
}

/// Each `PrimitiveType` member is numbered, both ways, by the value XNA declares for it.
pub proof fn law_primitive_type_native_numbers()
    ensures
        PrimitiveType::TriangleList.spec_native() == 0,
        PrimitiveType::spec_from_native(0) == Some(PrimitiveType::TriangleList),
        PrimitiveType::TriangleStrip.spec_native() == 1,
        PrimitiveType::spec_from_native(1) == Some(PrimitiveType::TriangleStrip),
        PrimitiveType::LineList.spec_native() == 2,
        PrimitiveType::spec_from_native(2) == Some(PrimitiveType::LineList),
        PrimitiveType::LineStrip.spec_native() == 3,
        PrimitiveType::spec_from_native(3) == Some(PrimitiveType::LineStrip),
{
}

/// Each `VertexElementFormat` member is numbered, both ways, by the value XNA declares for it.
pub proof fn law_vertex_element_format_native_numbers()
    ensures
        VertexElementFormat::Single.spec_native() == 0,
        VertexElementFormat::spec_from_native(0) == Some(VertexElementFormat::Single),
        VertexElementFormat::Vector2.spec_native() == 1,
        VertexElementFormat::spec_from_native(1) == Some(VertexElementFormat::Vector2),
        VertexElementFormat::Vector3.spec_native() == 2,
        VertexElementFormat::spec_from_native(2) == Some(VertexElementFormat::Vector3),
        VertexElementFormat::Vector4.spec_native() == 3,
        VertexElementFormat::spec_from_native(3) == Some(VertexElementFormat::Vector4),
        VertexElementFormat::Color.spec_native() == 4,
        VertexElementFormat::spec_from_native(4) == Some(VertexElementFormat::Color),
        VertexElementFormat::Byte4.spec_native() == 5,
        VertexElementFormat::spec_from_native(5) == Some(VertexElementFormat::Byte4),
        VertexElementFormat::Short2.spec_native() == 6,
        VertexElementFormat::spec_from_native(6) == Some(VertexElementFormat::Short2),
        VertexElementFormat::Short4.spec_native() == 7,
        VertexElementFormat::spec_from_native(7) == Some(VertexElementFormat::Short4),
        VertexElementFormat::NormalizedShort2.spec_native() == 8,
        VertexElementFormat::spec_from_native(8) == Some(VertexElementFormat::NormalizedShort2),
        VertexElementFormat::NormalizedShort4.spec_native() == 9,
        VertexElementFormat::spec_from_native(9) == Some(VertexElementFormat::NormalizedShort4),
        VertexElementFormat::HalfVector2.spec_native() == 10,
        VertexElementFormat::spec_from_native(10) == Some(VertexElementFormat::HalfVector2),
        VertexElementFormat::HalfVector4.spec_native() == 11,
        VertexElementFormat::spec_from_native(11) == Some(VertexElementFormat::HalfVector4),
{
}

/// Each `VertexElementUsage` member is numbered, both ways, by the value XNA declares for it.
pub proof fn law_vertex_element_usage_native_numbers()
    ensures
        VertexElementUsage::Position.spec_native() == 0,
        VertexElementUsage::spec_from_native(0) == Some(VertexElementUsage::Position),
        VertexElementUsage::Color.spec_native() == 1,
        VertexElementUsage::spec_from_native(1) == Some(VertexElementUsage::Color),
        VertexElementUsage::TextureCoordinate.spec_native() == 2,
        VertexElementUsage::spec_from_native(2) == Some(VertexElementUsage::TextureCoordinate),
        VertexElementUsage::Normal.spec_native() == 3,
        VertexElementUsage::spec_from_native(3) == Some(VertexElementUsage::Normal),
        VertexElementUsage::Binormal.spec_native() == 4,
        VertexElementUsage::spec_from_native(4) == Some(VertexElementUsage::Binormal),
        VertexElementUsage::Tangent.spec_native() == 5,
        VertexElementUsage::spec_from_native(5) == Some(VertexElementUsage::Tangent),
        VertexElementUsage::BlendIndices.spec_native() == 6,
        VertexElementUsage::spec_from_native(6) == Some(VertexElementUsage::BlendIndices),
        VertexElementUsage::BlendWeight.spec_native() == 7,
        VertexElementUsage::spec_from_native(7) == Some(VertexElementUsage::BlendWeight),
        VertexElementUsage::Depth.spec_native() == 8,
        VertexElementUsage::spec_from_native(8) == Some(VertexElementUsage::Depth),
        VertexElementUsage::Fog.spec_native() == 9,
        VertexElementUsage::spec_from_native(9) == Some(VertexElementUsage::Fog),
        VertexElementUsage::PointSize.spec_native() == 10,
        VertexElementUsage::spec_from_native(10) == Some(VertexElementUsage::PointSize),
        VertexElementUsage::Sample.spec_native() == 11,
        VertexElementUsage::spec_from_native(11) == Some(VertexElementUsage::Sample),
        VertexElementUsage::TessellateFactor.spec_native() == 12,
        VertexElementUsage::spec_from_native(12) == Some(VertexElementUsage::TessellateFactor),
{
}

/// Each `TextureAddressMode` member is numbered, both ways, by the value XNA declares for it.
pub proof fn law_texture_address_mode_native_numbers()
    ensures
        TextureAddressMode::Wrap.spec_native() == 0,
        TextureAddressMode::spec_from_native(0) == Some(TextureAddressMode::Wrap),
        TextureAddressMode::Clamp.spec_native() == 1,
        TextureAddressMode::spec_from_native(1) == Some(TextureAddressMode::Clamp),
        TextureAddressMode::Mirror.spec_native() == 2,
        TextureAddressMode::spec_from_native(2) == Some(TextureAddressMode::Mirror),
{
}

/// Each `TextureFilter` member is numbered, both ways, by the value XNA declares for it.
pub proof fn law_texture_filter_native_numbers()
    ensures
        TextureFilter::Linear.spec_native() == 0,
        TextureFilter::spec_from_native(0) == Some(TextureFilter::Linear),
        TextureFilter::Point.spec_native() == 1,
        TextureFilter::spec_from_native(1) == Some(TextureFilter::Point),
        TextureFilter::Anisotropic.spec_native() == 2,
        TextureFilter::spec_from_native(2) == Some(TextureFilter::Anisotropic),
        TextureFilter::LinearMipPoint.spec_native() == 3,
        TextureFilter::spec_from_native(3) == Some(TextureFilter::LinearMipPoint),
        TextureFilter::PointMipLinear.spec_native() == 4,
        TextureFilter::spec_from_native(4) == Some(TextureFilter::PointMipLinear),
        TextureFilter::MinLinearMagPointMipLinear.spec_native() == 5,
        TextureFilter::spec_from_native(5) == Some(TextureFilter::MinLinearMagPointMipLinear),
        TextureFilter::MinLinearMagPointMipPoint.spec_native() == 6,
        TextureFilter::spec_from_native(6) == Some(TextureFilter::MinLinearMagPointMipPoint),
        TextureFilter::MinPointMagLinearMipLinear.spec_native() == 7,
        TextureFilter::spec_from_native(7) == Some(TextureFilter::MinPointMagLinearMipLinear),
        TextureFilter::MinPointMagLinearMipPoint.spec_native() == 8,
        TextureFilter::spec_from_native(8) == Some(TextureFilter::MinPointMagLinearMipPoint),
{
}

/// Each `SpriteSortMode` member is numbered, both ways, by the value XNA declares for it.
pub proof fn law_sprite_sort_mode_native_numbers()
    ensures
        SpriteSortMode::Deferred.spec_native() == 0,
        SpriteSortMode::spec_from_native(0) == Some(SpriteSortMode::Deferred),
        SpriteSortMode::Immediate.spec_native() == 1,
        SpriteSortMode::spec_from_native(1) == Some(SpriteSortMode::Immediate),
        SpriteSortMode::Texture.spec_native() == 2,
        SpriteSortMode::spec_from_native(2) == Some(SpriteSortMode::Texture),
        SpriteSortMode::BackToFront.spec_native() == 3,
        SpriteSortMode::spec_from_native(3) == Some(SpriteSortMode::BackToFront),
        SpriteSortMode::FrontToBack.spec_native() == 4,
        SpriteSortMode::spec_from_native(4) == Some(SpriteSortMode::FrontToBack),
{
}

/// Each `SurfaceFormat` member is numbered, both ways, by the value XNA declares for it.
pub proof fn law_surface_format_native_numbers()
    ensures
        SurfaceFormat::Color.spec_native() == 0,
        SurfaceFormat::spec_from_native(0) == Some(SurfaceFormat::Color),
        SurfaceFormat::Bgr565.spec_native() == 1,
        SurfaceFormat::spec_from_native(1) == Some(SurfaceFormat::Bgr565),
        SurfaceFormat::Bgra5551.spec_native() == 2,
        SurfaceFormat::spec_from_native(2) == Some(SurfaceFormat::Bgra5551),
        SurfaceFormat::Bgra4444.spec_native() == 3,
        SurfaceFormat::spec_from_native(3) == Some(SurfaceFormat::Bgra4444),
        SurfaceFormat::Dxt1.spec_native() == 4,
        SurfaceFormat::spec_from_native(4) == Some(SurfaceFormat::Dxt1),
        SurfaceFormat::Dxt3.spec_native() == 5,
        SurfaceFormat::spec_from_native(5) == Some(SurfaceFormat::Dxt3),
        SurfaceFormat::Dxt5.spec_native() == 6,
        SurfaceFormat::spec_from_native(6) == Some(SurfaceFormat::Dxt5),
        SurfaceFormat::NormalizedByte2.spec_native() == 7,
        SurfaceFormat::spec_from_native(7) == Some(SurfaceFormat::NormalizedByte2),
        SurfaceFormat::NormalizedByte4.spec_native() == 8,
        SurfaceFormat::spec_from_native(8) == Some(SurfaceFormat::NormalizedByte4),
        SurfaceFormat::Rgba1010102.spec_native() == 9,
        SurfaceFormat::spec_from_native(9) == Some(SurfaceFormat::Rgba1010102),
        SurfaceFormat::Rg32.spec_native() == 10,
        SurfaceFormat::spec_from_native(10) == Some(SurfaceFormat::Rg32),
        SurfaceFormat::Rgba64.spec_native() == 11,
        SurfaceFormat::spec_from_native(11) == Some(SurfaceFormat::Rgba64),
        SurfaceFormat::Alpha8.spec_native() == 12,
        SurfaceFormat::spec_from_native(12) == Some(SurfaceFormat::Alpha8),
        SurfaceFormat::Single.spec_native() == 13,
        SurfaceFormat::spec_from_native(13) == Some(SurfaceFormat::Single),
        SurfaceFormat::Vector2.spec_native() == 14,
        SurfaceFormat::spec_from_native(14) == Some(SurfaceFormat::Vector2),
        SurfaceFormat::Vector4.spec_native() == 15,
        SurfaceFormat::spec_from_native(15) == Some(SurfaceFormat::Vector4),
        SurfaceFormat::HalfSingle.spec_native() == 16,
        SurfaceFormat::spec_from_native(16) == Some(SurfaceFormat::HalfSingle),
        SurfaceFormat::HalfVector2.spec_native() == 17,
        SurfaceFormat::spec_from_native(17) == Some(SurfaceFormat::HalfVector2),
        SurfaceFormat::HalfVector4.spec_native() == 18,
        SurfaceFormat::spec_from_native(18) == Some(SurfaceFormat::HalfVector4),
        SurfaceFormat::HdrBlendable.spec_native() == 19,
        SurfaceFormat::spec_from_native(19) == Some(SurfaceFormat::HdrBlendable),
{
}

} // verus!
