//! XNA's four graphics-state descriptors: their defaults and stock presets,
//! the rule that a descriptor freezes once stock, bound or disposed, the one
//! device a descriptor may bind to, and the native form each crosses to the
//! runtime in.

#![allow(non_snake_case, non_upper_case_globals)]

use vstd::prelude::*;

use crate::error::{CnaError, InputError, NativeFault};
use crate::kinds::{
    Blend, BlendFunction, ColorWriteChannels, CompareFunction, CullMode, FillMode, NativeEnumValue,
    StencilOperation, TextureAddressMode, TextureFilter,
};
use crate::value::Color;

verus! {

/// The native runtime's number for `BlendFunction.Max`.
pub const NATIVE_BLEND_FUNCTION_MAX: u32 = 3;

/// The native runtime's number for `BlendFunction.Min`.
pub const NATIVE_BLEND_FUNCTION_MIN: u32 = 4;

/// The native runtime's boolean false.
pub const NATIVE_FALSE: u8 = 0;

/// The native number of a blend function. The runtime numbers `Min` and
/// `Max` in the opposite order to XNA.
pub open spec fn spec_native_blend_function(value: BlendFunction) -> u32 {
    match value {
        BlendFunction::Min => NATIVE_BLEND_FUNCTION_MIN,
        BlendFunction::Max => NATIVE_BLEND_FUNCTION_MAX,
        _ => value.spec_native(),
    }
}

/// The blend function a native number names.
pub open spec fn spec_blend_function_from_native(value: u32) -> Option<BlendFunction> {
    if value == 0 {
        Some(BlendFunction::Add)
    } else if value == 1 {
        Some(BlendFunction::Subtract)
    } else if value == 2 {
        Some(BlendFunction::ReverseSubtract)
    } else if value == NATIVE_BLEND_FUNCTION_MIN {
        Some(BlendFunction::Min)
    } else if value == NATIVE_BLEND_FUNCTION_MAX {
        Some(BlendFunction::Max)
    } else {
        None
    }
}

/// The native number of a blend function.
pub fn native_blend_function(value: BlendFunction) -> (r: u32)
    ensures
        r == spec_native_blend_function(value),
{
    match value {
        BlendFunction::Min => NATIVE_BLEND_FUNCTION_MIN,
        BlendFunction::Max => NATIVE_BLEND_FUNCTION_MAX,
        _ => value.native_value(),
    }
}

/// The blend function a native number names, or `None`.
pub fn blend_function_from_native(value: u32) -> (r: Option<BlendFunction>)
    ensures
        r == spec_blend_function_from_native(value),
{
    if value == 0 {
        Some(BlendFunction::Add)
    } else if value == 1 {
        Some(BlendFunction::Subtract)
    } else if value == 2 {
        Some(BlendFunction::ReverseSubtract)
    } else if value == NATIVE_BLEND_FUNCTION_MIN {
        Some(BlendFunction::Min)
    } else if value == NATIVE_BLEND_FUNCTION_MAX {
        Some(BlendFunction::Max)
    } else {
        None
    }
}

/// Decoding the native number of a blend function gives it back.
pub proof fn law_blend_function_round_trip(value: BlendFunction)
    ensures
        spec_blend_function_from_native(spec_native_blend_function(value)) == Some(value),
{
}

/// The bookkeeping every state descriptor shares: the one device it is
/// bound to, whether it is disposed, whether it is a stock preset, the
/// preset's name, and the name a caller gave it.
pub struct StateResource {
    device: Option<u64>,
    disposed: bool,
    stock: bool,
    stock_name: &'static str,
    name: Option<String>,
}

/// What a descriptor's bookkeeping holds, as plain values.
pub struct StateResourceView {
    pub device: Option<u64>,
    pub disposed: bool,
    pub stock: bool,
    pub stock_name: Seq<char>,
    pub name: Option<Seq<char>>,
}

impl StateResourceView {
    /// A descriptor may change only while it is neither stock, bound, nor
    /// disposed.
    pub open spec fn is_mutable(self) -> bool {
        !self.stock && self.device is None && !self.disposed
    }

    /// The verdict on binding to `device`.
    pub open spec fn bind_outcome(self, device: u64) -> Result<(), CnaError> {
        if self.disposed {
            Err(CnaError::InvalidInput(InputError::GraphicsStateDisposed))
        } else {
            match self.device {
                Some(current) => if current == device {
                    Ok(())
                } else {
                    Err(CnaError::InvalidInput(InputError::GraphicsStateBoundElsewhere))
                },
                None => Ok(()),
            }
        }
    }

    /// The bookkeeping after binding to `device`.
    pub open spec fn after_bind(self, device: u64) -> StateResourceView {
        if !self.disposed && self.device is None {
            StateResourceView { device: Some(device), ..self }
        } else {
            self
        }
    }

    /// The bookkeeping after a dispose.
    pub open spec fn after_dispose(self) -> StateResourceView {
        StateResourceView { disposed: true, ..self }
    }

    /// The bookkeeping after a rename.
    pub open spec fn after_rename(self, name: Seq<char>) -> StateResourceView {
        StateResourceView { name: Some(name), ..self }
    }

    /// The name XNA reports: the caller's, or else the preset's.
    pub open spec fn reported_name(self) -> Seq<char> {
        match self.name {
            Some(name) => name,
            None => self.stock_name,
        }
    }
}

/// A descriptor binds to one device only: the first bind succeeds and
/// freezes it, binding again to that device changes nothing, binding to
/// another device is refused, and a disposed descriptor binds to nothing.
pub proof fn law_state_binds_to_one_device(view: StateResourceView, first: u64, second: u64)
    requires
        !view.disposed,
        view.device is None,
    ensures
        view.bind_outcome(first) is Ok,
        !view.after_bind(first).is_mutable(),
        view.after_bind(first).bind_outcome(first) is Ok,
        view.after_bind(first).after_bind(first) == view.after_bind(first),
        first != second ==> view.after_bind(first).bind_outcome(second) == Err::<(), CnaError>(
            CnaError::InvalidInput(InputError::GraphicsStateBoundElsewhere),
        ),
        view.after_dispose().bind_outcome(second) == Err::<(), CnaError>(CnaError::InvalidInput(InputError::GraphicsStateDisposed)),
{
}

/// The bookkeeping of a freshly made descriptor.
pub open spec fn fresh_resource(stock: bool, stock_name: Seq<char>) -> StateResourceView {
    StateResourceView { device: None, disposed: false, stock, stock_name, name: None }
}

impl View for StateResource {
    type V = StateResourceView;

    closed spec fn view(&self) -> StateResourceView {
        StateResourceView {
            device: self.device,
            disposed: self.disposed,
            stock: self.stock,
            stock_name: self.stock_name@,
            name: match &self.name {
                Some(name) => Some(name@),
                None => None,
            },
        }
    }
}

impl StateResource {
    /// Fresh bookkeeping: unbound, live and unnamed.
    pub fn new(stock: bool, stock_name: &'static str) -> (r: Self)
        ensures
            r@ == fresh_resource(stock, stock_name@),
    {
        StateResource { device: None, disposed: false, stock, stock_name, name: None }
    }

    /// Binds to `device` the first time; later binds must name the same
    /// device. A disposed descriptor binds to nothing.
    pub fn bind(&mut self, device: u64) -> (r: Result<(), CnaError>)
        ensures
            r == old(self)@.bind_outcome(device),
            final(self)@ == old(self)@.after_bind(device),
    {
        if self.disposed {
            return Err(CnaError::InvalidInput(InputError::GraphicsStateDisposed));
        }
        match self.device {
            Some(current) => if current == device {
                Ok(())
            } else {
                Err(CnaError::InvalidInput(InputError::GraphicsStateBoundElsewhere))
            },
            None => {
                self.device = Some(device);
                Ok(())
            },
        }
    }

    /// The device the descriptor is bound to, if any.
    pub fn device(&self) -> (r: Option<u64>)
        ensures
            r == self@.device,
    {
        self.device
    }

    /// Whether an assignment is allowed now.
    pub fn is_mutable(&self) -> (r: bool)
        ensures
            r == self@.is_mutable(),
    {
        !self.stock && self.device.is_none() && !self.disposed
    }

    /// XNA `GraphicsResource.IsDisposed`.
    pub fn is_disposed(&self) -> (r: bool)
        ensures
            r == self@.disposed,
    {
        self.disposed
    }

    /// Disposes; answers whether the disposing event fires, which it does
    /// only on the first explicit dispose.
    pub fn dispose(&mut self, disposing: bool) -> (r: bool)
        ensures
            r == (disposing && !old(self)@.disposed),
            final(self)@ == old(self)@.after_dispose(),
    {
        let first: bool = !self.disposed;
        self.disposed = true;
        first && disposing
    }

    /// Disposes without any event.
    pub fn dispose_without_event(&mut self)
        ensures
            final(self)@ == old(self)@.after_dispose(),
    {
        self.disposed = true;
    }

    /// XNA `GraphicsResource.Name`: the caller's name, or the preset's.
    pub fn name(&self) -> (r: String)
        ensures
            r@ == self@.reported_name(),
    {
        match &self.name {
            Some(name) => name.clone(),
            None => String::from_str(self.stock_name),
        }
    }

    /// XNA `GraphicsResource.Name` assignment.
    pub fn set_name(&mut self, value: &str)
        ensures
            final(self)@ == old(self)@.after_rename(value@),
    {
        self.name = Some(String::from_str(value));
    }
}

/// The native form of a blend state.
#[derive(Clone, Copy, Debug, PartialEq, Eq, Structural)]
pub struct NativeBlendState {
    pub alpha_blend_function: u32,
    pub alpha_destination_blend: u32,
    pub alpha_source_blend: u32,
    pub color_blend_function: u32,
    pub color_destination_blend: u32,
    pub color_source_blend: u32,
    pub color_write_channels: u32,
    pub color_write_channels1: u32,
    pub color_write_channels2: u32,
    pub color_write_channels3: u32,
    pub blend_factor: Color,
    pub multi_sample_mask: i32,
}

/// The native form of a depth/stencil state; booleans are native bytes.
#[derive(Clone, Copy, Debug, PartialEq, Eq, Structural)]
pub struct NativeDepthStencilState {
    pub depth_buffer_enable: u8,
    pub depth_buffer_write_enable: u8,
    pub stencil_enable: u8,
    pub two_sided_stencil_mode: u8,
    pub depth_buffer_function: u32,
    pub stencil_function: u32,
    pub stencil_mask: i32,
    pub stencil_write_mask: i32,
    pub reference_stencil: i32,
    pub stencil_fail: u32,
    pub stencil_depth_buffer_fail: u32,
    pub stencil_pass: u32,
    pub counter_clockwise_stencil_function: u32,
    pub counter_clockwise_stencil_fail: u32,
    pub counter_clockwise_stencil_depth_buffer_fail: u32,
    pub counter_clockwise_stencil_pass: u32,
}

/// The native form of a rasterizer state; the biases are `f32` bit patterns.
#[derive(Clone, Copy, Debug, PartialEq, Eq, Structural)]
pub struct NativeRasterizerState {
    pub cull_mode: u32,
    pub fill_mode: u32,
    pub depth_bias: u32,
    pub slope_scale_depth_bias: u32,
    pub multi_sample_anti_alias: u8,
    pub scissor_test_enable: u8,
}

/// The native form of a sampler state; the bias is an `f32` bit pattern.
#[derive(Clone, Copy, Debug, PartialEq, Eq, Structural)]
pub struct NativeSamplerState {
    pub address_u: u32,
    pub address_v: u32,
    pub address_w: u32,
    pub filter: u32,
    pub max_anisotropy: i32,
    pub max_mip_level: i32,
    pub mip_map_level_of_detail_bias: u32,
}

/// A native byte as a boolean: anything but false is true.
pub open spec fn spec_native_bool(value: u8) -> bool {
    value != NATIVE_FALSE
}

fn native_bool(value: u8) -> (r: bool)
    ensures
        r == spec_native_bool(value),
{
    value != NATIVE_FALSE
}

fn bool_byte(value: bool) -> (r: u8)
    ensures
        r == (if value { 1u8 } else { 0u8 }),
{
    if value {
        1
    } else {
        0
    }
}

/// Complete managed XNA blend-state descriptor.
pub struct BlendState {
    resource: StateResource,
    alpha_blend_function: BlendFunction,
    alpha_destination_blend: Blend,
    alpha_source_blend: Blend,
    color_blend_function: BlendFunction,
    color_destination_blend: Blend,
    color_source_blend: Blend,
    color_write_channels: ColorWriteChannels,
    color_write_channels1: ColorWriteChannels,
    color_write_channels2: ColorWriteChannels,
    color_write_channels3: ColorWriteChannels,
    blend_factor: Color,
    multi_sample_mask: i32,
}
/// What a `BlendState` describes, as plain values.
pub struct BlendStateView {
    pub resource: StateResourceView,
    pub alpha_blend_function: BlendFunction,
    pub alpha_destination_blend: Blend,
    pub alpha_source_blend: Blend,
    pub color_blend_function: BlendFunction,
    pub color_destination_blend: Blend,
    pub color_source_blend: Blend,
    pub color_write_channels: ColorWriteChannels,
    pub color_write_channels1: ColorWriteChannels,
    pub color_write_channels2: ColorWriteChannels,
    pub color_write_channels3: ColorWriteChannels,
    pub blend_factor: Color,
    pub multi_sample_mask: i32,
}

impl View for BlendState {
    type V = BlendStateView;

    closed spec fn view(&self) -> BlendStateView {
        BlendStateView {
            resource: self.resource@,
            alpha_blend_function: self.alpha_blend_function,
            alpha_destination_blend: self.alpha_destination_blend,
            alpha_source_blend: self.alpha_source_blend,
            color_blend_function: self.color_blend_function,
            color_destination_blend: self.color_destination_blend,
            color_source_blend: self.color_source_blend,
            color_write_channels: self.color_write_channels,
            color_write_channels1: self.color_write_channels1,
            color_write_channels2: self.color_write_channels2,
            color_write_channels3: self.color_write_channels3,
            blend_factor: self.blend_factor,
            multi_sample_mask: self.multi_sample_mask,
        }
    }
}

/// The native form of a blend descriptor's settings.
pub open spec fn spec_blend_native(v: BlendStateView) -> NativeBlendState {
    NativeBlendState {
        alpha_blend_function: spec_native_blend_function(v.alpha_blend_function),
        alpha_destination_blend: v.alpha_destination_blend.spec_native(),
        alpha_source_blend: v.alpha_source_blend.spec_native(),
        color_blend_function: spec_native_blend_function(v.color_blend_function),
        color_destination_blend: v.color_destination_blend.spec_native(),
        color_source_blend: v.color_source_blend.spec_native(),
        color_write_channels: v.color_write_channels@ as u32,
        color_write_channels1: v.color_write_channels1@ as u32,
        color_write_channels2: v.color_write_channels2@ as u32,
        color_write_channels3: v.color_write_channels3@ as u32,
        blend_factor: v.blend_factor,
        multi_sample_mask: v.multi_sample_mask,
    }
}

/// The settings a native blend record describes, bound to the device
/// that reported it; `None` when a number names no member.
pub open spec fn spec_blend_from_native(value: NativeBlendState, device: u64) -> Option<BlendStateView> {
    if spec_blend_function_from_native(value.alpha_blend_function) is Some
        && Blend::spec_from_native(value.alpha_destination_blend) is Some
        && Blend::spec_from_native(value.alpha_source_blend) is Some
        && spec_blend_function_from_native(value.color_blend_function) is Some
        && Blend::spec_from_native(value.color_destination_blend) is Some
        && Blend::spec_from_native(value.color_source_blend) is Some {
        Some(
            BlendStateView {
                resource: fresh_resource(false, ""@).after_bind(device),
                alpha_blend_function: spec_blend_function_from_native(value.alpha_blend_function)->0,
                alpha_destination_blend: Blend::spec_from_native(value.alpha_destination_blend)->0,
                alpha_source_blend: Blend::spec_from_native(value.alpha_source_blend)->0,
                color_blend_function: spec_blend_function_from_native(value.color_blend_function)->0,
                color_destination_blend: Blend::spec_from_native(value.color_destination_blend)->0,
                color_source_blend: Blend::spec_from_native(value.color_source_blend)->0,
                color_write_channels: ColorWriteChannels::spec_from_bits(value.color_write_channels),
                color_write_channels1: ColorWriteChannels::spec_from_bits(value.color_write_channels1),
                color_write_channels2: ColorWriteChannels::spec_from_bits(value.color_write_channels2),
                color_write_channels3: ColorWriteChannels::spec_from_bits(value.color_write_channels3),
                blend_factor: value.blend_factor,
                multi_sample_mask: value.multi_sample_mask,
            },
        )
    } else {
        None
    }
}

impl BlendState {
    /// A blend descriptor with XNA's defaults around the four blends given.
    pub open spec fn spec_preset(
        stock: bool,
        stock_name: Seq<char>,
        color_source: Blend,
        alpha_source: Blend,
        color_destination: Blend,
        alpha_destination: Blend,
    ) -> BlendStateView {
        BlendStateView {
            resource: fresh_resource(stock, stock_name),
            alpha_blend_function: BlendFunction::Add,
            alpha_destination_blend: alpha_destination,
            alpha_source_blend: alpha_source,
            color_blend_function: BlendFunction::Add,
            color_destination_blend: color_destination,
            color_source_blend: color_source,
            color_write_channels: ColorWriteChannels::spec_all(),
            color_write_channels1: ColorWriteChannels::spec_all(),
            color_write_channels2: ColorWriteChannels::spec_all(),
            color_write_channels3: ColorWriteChannels::spec_all(),
            blend_factor: Color { r: 255, g: 255, b: 255, a: 255 },
            multi_sample_mask: -1i32,
        }
    }

    fn preset(
        stock: bool,
        stock_name: &'static str,
        color_source: Blend,
        alpha_source: Blend,
        color_destination: Blend,
        alpha_destination: Blend,
    ) -> (r: Self)
        ensures
            r@ == Self::spec_preset(stock, stock_name@, color_source, alpha_source, color_destination, alpha_destination),
    {
        BlendState {
            resource: StateResource::new(stock, stock_name),
            alpha_blend_function: BlendFunction::Add,
            alpha_destination_blend: alpha_destination,
            alpha_source_blend: alpha_source,
            color_blend_function: BlendFunction::Add,
            color_destination_blend: color_destination,
            color_source_blend: color_source,
            color_write_channels: ColorWriteChannels::All(),
            color_write_channels1: ColorWriteChannels::All(),
            color_write_channels2: ColorWriteChannels::All(),
            color_write_channels3: ColorWriteChannels::All(),
            blend_factor: Color::White(),
            multi_sample_mask: -1,
        }
    }

    /// XNA `BlendState.Opaque`.
    pub fn Opaque() -> (r: Self)
        ensures
            r@ == Self::spec_preset(true, "BlendState.Opaque"@, Blend::One, Blend::One, Blend::Zero, Blend::Zero),
    {
        Self::preset(true, "BlendState.Opaque", Blend::One, Blend::One, Blend::Zero, Blend::Zero)
    }

    /// XNA `BlendState.AlphaBlend`.
    pub fn AlphaBlend() -> (r: Self)
        ensures
            r@ == Self::spec_preset(
                true,
                "BlendState.AlphaBlend"@,
                Blend::One,
                Blend::One,
                Blend::InverseSourceAlpha,
                Blend::InverseSourceAlpha,
            ),
    {
        Self::preset(
            true,
            "BlendState.AlphaBlend",
            Blend::One,
            Blend::One,
            Blend::InverseSourceAlpha,
            Blend::InverseSourceAlpha,
        )
    }

    /// XNA `BlendState.Additive`.
    pub fn Additive() -> (r: Self)
        ensures
            r@ == Self::spec_preset(
                true,
                "BlendState.Additive"@,
                Blend::SourceAlpha,
                Blend::SourceAlpha,
                Blend::One,
                Blend::One,
            ),
    {
        Self::preset(true, "BlendState.Additive", Blend::SourceAlpha, Blend::SourceAlpha, Blend::One, Blend::One)
    }

    /// XNA `BlendState.NonPremultiplied`.
    pub fn NonPremultiplied() -> (r: Self)
        ensures
            r@ == Self::spec_preset(
                true,
                "BlendState.NonPremultiplied"@,
                Blend::SourceAlpha,
                Blend::SourceAlpha,
                Blend::InverseSourceAlpha,
                Blend::InverseSourceAlpha,
            ),
    {
        Self::preset(
            true,
            "BlendState.NonPremultiplied",
            Blend::SourceAlpha,
            Blend::SourceAlpha,
            Blend::InverseSourceAlpha,
            Blend::InverseSourceAlpha,
        )
    }

    /// XNA `new BlendState()`: opaque blending, mutable until bound.
    pub fn new() -> (r: Self)
        ensures
            r@ == Self::spec_preset(false, ""@, Blend::One, Blend::One, Blend::Zero, Blend::Zero),
    {
        Self::preset(false, "", Blend::One, Blend::One, Blend::Zero, Blend::Zero)
    }

    /// The descriptor a native blend state describes, already bound to the
    /// device that reported it; `None` when a number names no member.
    pub fn from_native(value: NativeBlendState, device: u64) -> (r: Option<Self>)
        ensures
            r is Some <==> spec_blend_from_native(value, device) is Some,
            r matches Some(s) ==> s@ == spec_blend_from_native(value, device)->0,
    {
        let alpha_blend_function = blend_function_from_native(value.alpha_blend_function)?;
        let alpha_destination_blend = Blend::from_native_value(value.alpha_destination_blend)?;
        let alpha_source_blend = Blend::from_native_value(value.alpha_source_blend)?;
        let color_blend_function = blend_function_from_native(value.color_blend_function)?;
        let color_destination_blend = Blend::from_native_value(value.color_destination_blend)?;
        let color_source_blend = Blend::from_native_value(value.color_source_blend)?;
        let mut result = BlendState {
            resource: StateResource::new(false, ""),
            alpha_blend_function,
            alpha_destination_blend,
            alpha_source_blend,
            color_blend_function,
            color_destination_blend,
            color_source_blend,
            color_write_channels: ColorWriteChannels::from_bits(value.color_write_channels),
            color_write_channels1: ColorWriteChannels::from_bits(value.color_write_channels1),
            color_write_channels2: ColorWriteChannels::from_bits(value.color_write_channels2),
            color_write_channels3: ColorWriteChannels::from_bits(value.color_write_channels3),
            blend_factor: value.blend_factor,
            multi_sample_mask: value.multi_sample_mask,
        };
        let _ = result.resource.bind(device);
        Some(result)
    }

    /// The native form of the descriptor.
    pub fn native(&self) -> (r: NativeBlendState)
        ensures
            r == spec_blend_native(self@),
    {
        NativeBlendState {
            alpha_blend_function: native_blend_function(self.alpha_blend_function),
            alpha_destination_blend: self.alpha_destination_blend.native_value(),
            alpha_source_blend: self.alpha_source_blend.native_value(),
            color_blend_function: native_blend_function(self.color_blend_function),
            color_destination_blend: self.color_destination_blend.native_value(),
            color_source_blend: self.color_source_blend.native_value(),
            color_write_channels: self.color_write_channels.bits(),
            color_write_channels1: self.color_write_channels1.bits(),
            color_write_channels2: self.color_write_channels2.bits(),
            color_write_channels3: self.color_write_channels3.bits(),
            blend_factor: self.blend_factor,
            multi_sample_mask: self.multi_sample_mask,
        }
    }

    /// XNA `BlendState.AlphaBlendFunction`.
    pub fn AlphaBlendFunction(&self) -> (r: BlendFunction)
        ensures
            r == self@.alpha_blend_function,
    {
        self.alpha_blend_function
    }

    /// XNA `BlendState.AlphaBlendFunction` assignment, allowed only on a descriptor that is
    /// neither stock, bound to a device, nor disposed.
    pub fn SetAlphaBlendFunction(&mut self, value: BlendFunction)
        requires
            old(self)@.resource.is_mutable(),
        ensures
            final(self)@ == (BlendStateView { alpha_blend_function: value, ..old(self)@ }),
    {
        self.alpha_blend_function = value;
    }

    /// XNA `BlendState.AlphaDestinationBlend`.
    pub fn AlphaDestinationBlend(&self) -> (r: Blend)
        ensures
            r == self@.alpha_destination_blend,
    {
        self.alpha_destination_blend
    }

    /// XNA `BlendState.AlphaDestinationBlend` assignment, allowed only on a descriptor that is
    /// neither stock, bound to a device, nor disposed.
    pub fn SetAlphaDestinationBlend(&mut self, value: Blend)
        requires
            old(self)@.resource.is_mutable(),
        ensures
            final(self)@ == (BlendStateView { alpha_destination_blend: value, ..old(self)@ }),
    {
        self.alpha_destination_blend = value;
    }

    /// XNA `BlendState.AlphaSourceBlend`.
    pub fn AlphaSourceBlend(&self) -> (r: Blend)
        ensures
            r == self@.alpha_source_blend,
    {
        self.alpha_source_blend
    }

    /// XNA `BlendState.AlphaSourceBlend` assignment, allowed only on a descriptor that is
    /// neither stock, bound to a device, nor disposed.
    pub fn SetAlphaSourceBlend(&mut self, value: Blend)
        requires
            old(self)@.resource.is_mutable(),
        ensures
            final(self)@ == (BlendStateView { alpha_source_blend: value, ..old(self)@ }),
    {
        self.alpha_source_blend = value;
    }

    /// XNA `BlendState.ColorBlendFunction`.
    pub fn ColorBlendFunction(&self) -> (r: BlendFunction)
        ensures
            r == self@.color_blend_function,
    {
        self.color_blend_function
    }

    /// XNA `BlendState.ColorBlendFunction` assignment, allowed only on a descriptor that is
    /// neither stock, bound to a device, nor disposed.
    pub fn SetColorBlendFunction(&mut self, value: BlendFunction)
        requires
            old(self)@.resource.is_mutable(),
        ensures
            final(self)@ == (BlendStateView { color_blend_function: value, ..old(self)@ }),
    {
        self.color_blend_function = value;
    }

    /// XNA `BlendState.ColorDestinationBlend`.
    pub fn ColorDestinationBlend(&self) -> (r: Blend)
        ensures
            r == self@.color_destination_blend,
    {
        self.color_destination_blend
    }

    /// XNA `BlendState.ColorDestinationBlend` assignment, allowed only on a descriptor that is
    /// neither stock, bound to a device, nor disposed.
    pub fn SetColorDestinationBlend(&mut self, value: Blend)
        requires
            old(self)@.resource.is_mutable(),
        ensures
            final(self)@ == (BlendStateView { color_destination_blend: value, ..old(self)@ }),
    {
        self.color_destination_blend = value;
    }

    /// XNA `BlendState.ColorSourceBlend`.
    pub fn ColorSourceBlend(&self) -> (r: Blend)
        ensures
            r == self@.color_source_blend,
    {
        self.color_source_blend
    }

    /// XNA `BlendState.ColorSourceBlend` assignment, allowed only on a descriptor that is
    /// neither stock, bound to a device, nor disposed.
    pub fn SetColorSourceBlend(&mut self, value: Blend)
        requires
            old(self)@.resource.is_mutable(),
        ensures
            final(self)@ == (BlendStateView { color_source_blend: value, ..old(self)@ }),
    {
        self.color_source_blend = value;
    }

    /// XNA `BlendState.ColorWriteChannels`.
    pub fn ColorWriteChannels(&self) -> (r: ColorWriteChannels)
        ensures
            r == self@.color_write_channels,
    {
        self.color_write_channels
    }

    /// XNA `BlendState.ColorWriteChannels` assignment, allowed only on a descriptor that is
    /// neither stock, bound to a device, nor disposed.
    pub fn SetColorWriteChannels(&mut self, value: ColorWriteChannels)
        requires
            old(self)@.resource.is_mutable(),
        ensures
            final(self)@ == (BlendStateView { color_write_channels: value, ..old(self)@ }),
    {
        self.color_write_channels = value;
    }

    /// XNA `BlendState.ColorWriteChannels1`.
    pub fn ColorWriteChannels1(&self) -> (r: ColorWriteChannels)
        ensures
            r == self@.color_write_channels1,
    {
        self.color_write_channels1
    }

    /// XNA `BlendState.ColorWriteChannels1` assignment, allowed only on a descriptor that is
    /// neither stock, bound to a device, nor disposed.
    pub fn SetColorWriteChannels1(&mut self, value: ColorWriteChannels)
        requires
            old(self)@.resource.is_mutable(),
        ensures
            final(self)@ == (BlendStateView { color_write_channels1: value, ..old(self)@ }),
    {
        self.color_write_channels1 = value;
    }

    /// XNA `BlendState.ColorWriteChannels2`.
    pub fn ColorWriteChannels2(&self) -> (r: ColorWriteChannels)
        ensures
            r == self@.color_write_channels2,
    {
        self.color_write_channels2
    }

    /// XNA `BlendState.ColorWriteChannels2` assignment, allowed only on a descriptor that is
    /// neither stock, bound to a device, nor disposed.
    pub fn SetColorWriteChannels2(&mut self, value: ColorWriteChannels)
        requires
            old(self)@.resource.is_mutable(),
        ensures
            final(self)@ == (BlendStateView { color_write_channels2: value, ..old(self)@ }),
    {
        self.color_write_channels2 = value;
    }

    /// XNA `BlendState.ColorWriteChannels3`.
    pub fn ColorWriteChannels3(&self) -> (r: ColorWriteChannels)
        ensures
            r == self@.color_write_channels3,
    {
        self.color_write_channels3
    }

    /// XNA `BlendState.ColorWriteChannels3` assignment, allowed only on a descriptor that is
    /// neither stock, bound to a device, nor disposed.
    pub fn SetColorWriteChannels3(&mut self, value: ColorWriteChannels)
        requires
            old(self)@.resource.is_mutable(),
        ensures
            final(self)@ == (BlendStateView { color_write_channels3: value, ..old(self)@ }),
    {
        self.color_write_channels3 = value;
    }

    /// XNA `BlendState.BlendFactor`.
    pub fn BlendFactor(&self) -> (r: Color)
        ensures
            r == self@.blend_factor,
    {
        self.blend_factor
    }

    /// XNA `BlendState.BlendFactor` assignment, allowed only on a descriptor that is
    /// neither stock, bound to a device, nor disposed.
    pub fn SetBlendFactor(&mut self, value: Color)
        requires
            old(self)@.resource.is_mutable(),
        ensures
            final(self)@ == (BlendStateView { blend_factor: value, ..old(self)@ }),
    {
        self.blend_factor = value;
    }

    /// XNA `BlendState.MultiSampleMask`.
    pub fn MultiSampleMask(&self) -> (r: i32)
        ensures
            r == self@.multi_sample_mask,
    {
        self.multi_sample_mask
    }

    /// XNA `BlendState.MultiSampleMask` assignment, allowed only on a descriptor that is
    /// neither stock, bound to a device, nor disposed.
    pub fn SetMultiSampleMask(&mut self, value: i32)
        requires
            old(self)@.resource.is_mutable(),
        ensures
            final(self)@ == (BlendStateView { multi_sample_mask: value, ..old(self)@ }),
    {
        self.multi_sample_mask = value;
    }
    /// XNA `BlendState.Dispose`: answers whether the disposing event fires,
    /// which it does once, on the first explicit dispose.
    pub fn Dispose(&mut self, disposing: bool) -> (r: bool)
        ensures
            r == (disposing && !old(self)@.resource.disposed),
            final(self)@ == (BlendStateView { resource: old(self)@.resource.after_dispose(), ..old(self)@ }),
    {
        self.resource.dispose(disposing)
    }

    /// Marks the descriptor disposed without any event, as dropping it does.
    pub fn dispose_without_event(&mut self)
        ensures
            final(self)@ == (BlendStateView { resource: old(self)@.resource.after_dispose(), ..old(self)@ }),
    {
        self.resource.dispose_without_event();
    }

    /// Binds the descriptor to its first device, or checks it is that device.
    pub fn bind(&mut self, device: u64) -> (r: Result<(), CnaError>)
        ensures
            r == old(self)@.resource.bind_outcome(device),
            final(self)@ == (BlendStateView { resource: old(self)@.resource.after_bind(device), ..old(self)@ }),
    {
        self.resource.bind(device)
    }

    /// The descriptor's resource bookkeeping.
    pub fn resource(&self) -> (r: &StateResource)
        ensures
            r@ == self@.resource,
    {
        &self.resource
    }

    /// XNA `GraphicsResource.Name` assignment.
    pub fn SetName(&mut self, value: &str)
        ensures
            final(self)@ == (BlendStateView { resource: old(self)@.resource.after_rename(value@), ..old(self)@ }),
    {
        self.resource.set_name(value);
    }
}

/// Complete managed XNA depth/stencil-state descriptor.
pub struct DepthStencilState {
    resource: StateResource,
    depth_buffer_enable: bool,
    depth_buffer_write_enable: bool,
    depth_buffer_function: CompareFunction,
    stencil_enable: bool,
    stencil_function: CompareFunction,
    stencil_mask: i32,
    stencil_write_mask: i32,
    reference_stencil: i32,
    stencil_fail: StencilOperation,
    stencil_depth_buffer_fail: StencilOperation,
    stencil_pass: StencilOperation,
    two_sided_stencil_mode: bool,
    counter_clockwise_stencil_function: CompareFunction,
    counter_clockwise_stencil_fail: StencilOperation,
    counter_clockwise_stencil_depth_buffer_fail: StencilOperation,
    counter_clockwise_stencil_pass: StencilOperation,
}
/// What a `DepthStencilState` describes, as plain values.
pub struct DepthStencilStateView {
    pub resource: StateResourceView,
    pub depth_buffer_enable: bool,
    pub depth_buffer_write_enable: bool,
    pub depth_buffer_function: CompareFunction,
    pub stencil_enable: bool,
    pub stencil_function: CompareFunction,
    pub stencil_mask: i32,
    pub stencil_write_mask: i32,
    pub reference_stencil: i32,
    pub stencil_fail: StencilOperation,
    pub stencil_depth_buffer_fail: StencilOperation,
    pub stencil_pass: StencilOperation,
    pub two_sided_stencil_mode: bool,
    pub counter_clockwise_stencil_function: CompareFunction,
    pub counter_clockwise_stencil_fail: StencilOperation,
    pub counter_clockwise_stencil_depth_buffer_fail: StencilOperation,
    pub counter_clockwise_stencil_pass: StencilOperation,
}

impl View for DepthStencilState {
    type V = DepthStencilStateView;

    closed spec fn view(&self) -> DepthStencilStateView {
        DepthStencilStateView {
            resource: self.resource@,
            depth_buffer_enable: self.depth_buffer_enable,
            depth_buffer_write_enable: self.depth_buffer_write_enable,
            depth_buffer_function: self.depth_buffer_function,
            stencil_enable: self.stencil_enable,
            stencil_function: self.stencil_function,
            stencil_mask: self.stencil_mask,
            stencil_write_mask: self.stencil_write_mask,
            reference_stencil: self.reference_stencil,
            stencil_fail: self.stencil_fail,
            stencil_depth_buffer_fail: self.stencil_depth_buffer_fail,
            stencil_pass: self.stencil_pass,
            two_sided_stencil_mode: self.two_sided_stencil_mode,
            counter_clockwise_stencil_function: self.counter_clockwise_stencil_function,
            counter_clockwise_stencil_fail: self.counter_clockwise_stencil_fail,
            counter_clockwise_stencil_depth_buffer_fail: self.counter_clockwise_stencil_depth_buffer_fail,
            counter_clockwise_stencil_pass: self.counter_clockwise_stencil_pass,
        }
    }
}

/// The native form of a depth-stencil descriptor's settings.
pub open spec fn spec_depth_stencil_native(v: DepthStencilStateView) -> NativeDepthStencilState {
    NativeDepthStencilState {
        depth_buffer_enable: if v.depth_buffer_enable { 1u8 } else { 0u8 },
        depth_buffer_write_enable: if v.depth_buffer_write_enable { 1u8 } else { 0u8 },
        stencil_enable: if v.stencil_enable { 1u8 } else { 0u8 },
        two_sided_stencil_mode: if v.two_sided_stencil_mode { 1u8 } else { 0u8 },
        depth_buffer_function: v.depth_buffer_function.spec_native(),
        stencil_function: v.stencil_function.spec_native(),
        stencil_mask: v.stencil_mask,
        stencil_write_mask: v.stencil_write_mask,
        reference_stencil: v.reference_stencil,
        stencil_fail: v.stencil_fail.spec_native(),
        stencil_depth_buffer_fail: v.stencil_depth_buffer_fail.spec_native(),
        stencil_pass: v.stencil_pass.spec_native(),
        counter_clockwise_stencil_function: v.counter_clockwise_stencil_function.spec_native(),
        counter_clockwise_stencil_fail: v.counter_clockwise_stencil_fail.spec_native(),
        counter_clockwise_stencil_depth_buffer_fail: v.counter_clockwise_stencil_depth_buffer_fail.spec_native(),
        counter_clockwise_stencil_pass: v.counter_clockwise_stencil_pass.spec_native(),
    }
}

/// The settings a native depth-stencil record describes, bound to the device
/// that reported it; `None` when a number names no member.
pub open spec fn spec_depth_stencil_from_native(value: NativeDepthStencilState, device: u64) -> Option<DepthStencilStateView> {
    if CompareFunction::spec_from_native(value.depth_buffer_function) is Some
        && CompareFunction::spec_from_native(value.stencil_function) is Some
        && StencilOperation::spec_from_native(value.stencil_fail) is Some
        && StencilOperation::spec_from_native(value.stencil_depth_buffer_fail) is Some
        && StencilOperation::spec_from_native(value.stencil_pass) is Some
        && CompareFunction::spec_from_native(value.counter_clockwise_stencil_function) is Some
        && StencilOperation::spec_from_native(value.counter_clockwise_stencil_fail) is Some
        && StencilOperation::spec_from_native(value.counter_clockwise_stencil_depth_buffer_fail) is Some
        && StencilOperation::spec_from_native(value.counter_clockwise_stencil_pass) is Some {
        Some(
            DepthStencilStateView {
                resource: fresh_resource(false, ""@).after_bind(device),
                depth_buffer_enable: spec_native_bool(value.depth_buffer_enable),
                depth_buffer_write_enable: spec_native_bool(value.depth_buffer_write_enable),
                depth_buffer_function: CompareFunction::spec_from_native(value.depth_buffer_function)->0,
                stencil_enable: spec_native_bool(value.stencil_enable),
                stencil_function: CompareFunction::spec_from_native(value.stencil_function)->0,
                stencil_mask: value.stencil_mask,
                stencil_write_mask: value.stencil_write_mask,
                reference_stencil: value.reference_stencil,
                stencil_fail: StencilOperation::spec_from_native(value.stencil_fail)->0,
                stencil_depth_buffer_fail: StencilOperation::spec_from_native(value.stencil_depth_buffer_fail)->0,
                stencil_pass: StencilOperation::spec_from_native(value.stencil_pass)->0,
                two_sided_stencil_mode: spec_native_bool(value.two_sided_stencil_mode),
                counter_clockwise_stencil_function: CompareFunction::spec_from_native(
                    value.counter_clockwise_stencil_function,
                )->0,
                counter_clockwise_stencil_fail: StencilOperation::spec_from_native(value.counter_clockwise_stencil_fail)->0,
                counter_clockwise_stencil_depth_buffer_fail: StencilOperation::spec_from_native(
                    value.counter_clockwise_stencil_depth_buffer_fail,
                )->0,
                counter_clockwise_stencil_pass: StencilOperation::spec_from_native(value.counter_clockwise_stencil_pass)->0,
            },
        )
    } else {
        None
    }
}

impl DepthStencilState {
    /// A depth/stencil descriptor with XNA's defaults around the two depth
    /// switches given.
    pub open spec fn spec_preset(stock: bool, stock_name: Seq<char>, depth_enable: bool, depth_write: bool) -> DepthStencilStateView {
        DepthStencilStateView {
            resource: fresh_resource(stock, stock_name),
            depth_buffer_enable: depth_enable,
            depth_buffer_write_enable: depth_write,
            depth_buffer_function: CompareFunction::LessEqual,
            stencil_enable: false,
            stencil_function: CompareFunction::Always,
            stencil_mask: i32::MAX,
            stencil_write_mask: i32::MAX,
            reference_stencil: 0,
            stencil_fail: StencilOperation::Keep,
            stencil_depth_buffer_fail: StencilOperation::Keep,
            stencil_pass: StencilOperation::Keep,
            two_sided_stencil_mode: false,
            counter_clockwise_stencil_function: CompareFunction::Always,
            counter_clockwise_stencil_fail: StencilOperation::Keep,
            counter_clockwise_stencil_depth_buffer_fail: StencilOperation::Keep,
            counter_clockwise_stencil_pass: StencilOperation::Keep,
        }
    }

    fn preset(stock: bool, stock_name: &'static str, depth_enable: bool, depth_write: bool) -> (r: Self)
        ensures
            r@ == Self::spec_preset(stock, stock_name@, depth_enable, depth_write),
    {
        DepthStencilState {
            resource: StateResource::new(stock, stock_name),
            depth_buffer_enable: depth_enable,
            depth_buffer_write_enable: depth_write,
            depth_buffer_function: CompareFunction::LessEqual,
            stencil_enable: false,
            stencil_function: CompareFunction::Always,
            stencil_mask: i32::MAX,
            stencil_write_mask: i32::MAX,
            reference_stencil: 0,
            stencil_fail: StencilOperation::Keep,
            stencil_depth_buffer_fail: StencilOperation::Keep,
            stencil_pass: StencilOperation::Keep,
            two_sided_stencil_mode: false,
            counter_clockwise_stencil_function: CompareFunction::Always,
            counter_clockwise_stencil_fail: StencilOperation::Keep,
            counter_clockwise_stencil_depth_buffer_fail: StencilOperation::Keep,
            counter_clockwise_stencil_pass: StencilOperation::Keep,
        }
    }

    /// XNA `DepthStencilState.None`: no depth test and no depth writes.
    pub fn NoDepth() -> (r: Self)
        ensures
            r@ == Self::spec_preset(true, "DepthStencilState.None"@, false, false),
    {
        Self::preset(true, "DepthStencilState.None", false, false)
    }

    /// XNA `DepthStencilState.Default`.
    pub fn Default() -> (r: Self)
        ensures
            r@ == Self::spec_preset(true, "DepthStencilState.Default"@, true, true),
    {
        Self::preset(true, "DepthStencilState.Default", true, true)
    }

    /// XNA `DepthStencilState.DepthRead`.
    pub fn DepthRead() -> (r: Self)
        ensures
            r@ == Self::spec_preset(true, "DepthStencilState.DepthRead"@, true, false),
    {
        Self::preset(true, "DepthStencilState.DepthRead", true, false)
    }

    /// XNA `new DepthStencilState()`.
    pub fn new() -> (r: Self)
        ensures
            r@ == Self::spec_preset(false, ""@, true, true),
    {
        Self::preset(false, "", true, true)
    }

    /// The descriptor a native depth/stencil state describes, already bound
    /// to the device that reported it; `None` when a number names no member.
    pub fn from_native(value: NativeDepthStencilState, device: u64) -> (r: Option<Self>)
        ensures
            r is Some <==> spec_depth_stencil_from_native(value, device) is Some,
            r matches Some(s) ==> s@ == spec_depth_stencil_from_native(value, device)->0,
    {
        let depth_buffer_function = CompareFunction::from_native_value(value.depth_buffer_function)?;
        let stencil_function = CompareFunction::from_native_value(value.stencil_function)?;
        let stencil_fail = StencilOperation::from_native_value(value.stencil_fail)?;
        let stencil_depth_buffer_fail = StencilOperation::from_native_value(value.stencil_depth_buffer_fail)?;
        let stencil_pass = StencilOperation::from_native_value(value.stencil_pass)?;
        let counter_clockwise_stencil_function = CompareFunction::from_native_value(
            value.counter_clockwise_stencil_function,
        )?;
        let counter_clockwise_stencil_fail = StencilOperation::from_native_value(value.counter_clockwise_stencil_fail)?;
        let counter_clockwise_stencil_depth_buffer_fail = StencilOperation::from_native_value(
            value.counter_clockwise_stencil_depth_buffer_fail,
        )?;
        let counter_clockwise_stencil_pass = StencilOperation::from_native_value(value.counter_clockwise_stencil_pass)?;
        let mut result = DepthStencilState {
            resource: StateResource::new(false, ""),
            depth_buffer_enable: native_bool(value.depth_buffer_enable),
            depth_buffer_write_enable: native_bool(value.depth_buffer_write_enable),
            depth_buffer_function,
            stencil_enable: native_bool(value.stencil_enable),
            stencil_function,
            stencil_mask: value.stencil_mask,
            stencil_write_mask: value.stencil_write_mask,
            reference_stencil: value.reference_stencil,
            stencil_fail,
            stencil_depth_buffer_fail,
            stencil_pass,
            two_sided_stencil_mode: native_bool(value.two_sided_stencil_mode),
            counter_clockwise_stencil_function,
            counter_clockwise_stencil_fail,
            counter_clockwise_stencil_depth_buffer_fail,
            counter_clockwise_stencil_pass,
        };
        let _ = result.resource.bind(device);
        Some(result)
    }

    /// The native form of the descriptor.
    pub fn native(&self) -> (r: NativeDepthStencilState)
        ensures
            r == spec_depth_stencil_native(self@),
    {
        NativeDepthStencilState {
            depth_buffer_enable: bool_byte(self.depth_buffer_enable),
            depth_buffer_write_enable: bool_byte(self.depth_buffer_write_enable),
            stencil_enable: bool_byte(self.stencil_enable),
            two_sided_stencil_mode: bool_byte(self.two_sided_stencil_mode),
            depth_buffer_function: self.depth_buffer_function.native_value(),
            stencil_function: self.stencil_function.native_value(),
            stencil_mask: self.stencil_mask,
            stencil_write_mask: self.stencil_write_mask,
            reference_stencil: self.reference_stencil,
            stencil_fail: self.stencil_fail.native_value(),
            stencil_depth_buffer_fail: self.stencil_depth_buffer_fail.native_value(),
            stencil_pass: self.stencil_pass.native_value(),
            counter_clockwise_stencil_function: self.counter_clockwise_stencil_function.native_value(),
            counter_clockwise_stencil_fail: self.counter_clockwise_stencil_fail.native_value(),
            counter_clockwise_stencil_depth_buffer_fail: self.counter_clockwise_stencil_depth_buffer_fail.native_value(),
            counter_clockwise_stencil_pass: self.counter_clockwise_stencil_pass.native_value(),
        }
    }

    /// XNA `DepthStencilState.DepthBufferEnable`.
    pub fn DepthBufferEnable(&self) -> (r: bool)
        ensures
            r == self@.depth_buffer_enable,
    {
        self.depth_buffer_enable
    }

    /// XNA `DepthStencilState.DepthBufferEnable` assignment, allowed only on a descriptor that is
    /// neither stock, bound to a device, nor disposed.
    pub fn SetDepthBufferEnable(&mut self, value: bool)
        requires
            old(self)@.resource.is_mutable(),
        ensures
            final(self)@ == (DepthStencilStateView { depth_buffer_enable: value, ..old(self)@ }),
    {
        self.depth_buffer_enable = value;
    }

    /// XNA `DepthStencilState.DepthBufferWriteEnable`.
    pub fn DepthBufferWriteEnable(&self) -> (r: bool)
        ensures
            r == self@.depth_buffer_write_enable,
    {
        self.depth_buffer_write_enable
    }

    /// XNA `DepthStencilState.DepthBufferWriteEnable` assignment, allowed only on a descriptor that is
    /// neither stock, bound to a device, nor disposed.
    pub fn SetDepthBufferWriteEnable(&mut self, value: bool)
        requires
            old(self)@.resource.is_mutable(),
        ensures
            final(self)@ == (DepthStencilStateView { depth_buffer_write_enable: value, ..old(self)@ }),
    {
        self.depth_buffer_write_enable = value;
    }

    /// XNA `DepthStencilState.DepthBufferFunction`.
    pub fn DepthBufferFunction(&self) -> (r: CompareFunction)
        ensures
            r == self@.depth_buffer_function,
    {
        self.depth_buffer_function
    }

    /// XNA `DepthStencilState.DepthBufferFunction` assignment, allowed only on a descriptor that is
    /// neither stock, bound to a device, nor disposed.
    pub fn SetDepthBufferFunction(&mut self, value: CompareFunction)
        requires
            old(self)@.resource.is_mutable(),
        ensures
            final(self)@ == (DepthStencilStateView { depth_buffer_function: value, ..old(self)@ }),
    {
        self.depth_buffer_function = value;
    }

    /// XNA `DepthStencilState.StencilEnable`.
    pub fn StencilEnable(&self) -> (r: bool)
        ensures
            r == self@.stencil_enable,
    {
        self.stencil_enable
    }

    /// XNA `DepthStencilState.StencilEnable` assignment, allowed only on a descriptor that is
    /// neither stock, bound to a device, nor disposed.
    pub fn SetStencilEnable(&mut self, value: bool)
        requires
            old(self)@.resource.is_mutable(),
        ensures
            final(self)@ == (DepthStencilStateView { stencil_enable: value, ..old(self)@ }),
    {
        self.stencil_enable = value;
    }

    /// XNA `DepthStencilState.StencilFunction`.
    pub fn StencilFunction(&self) -> (r: CompareFunction)
        ensures
            r == self@.stencil_function,
    {
        self.stencil_function
    }

    /// XNA `DepthStencilState.StencilFunction` assignment, allowed only on a descriptor that is
    /// neither stock, bound to a device, nor disposed.
    pub fn SetStencilFunction(&mut self, value: CompareFunction)
        requires
            old(self)@.resource.is_mutable(),
        ensures
            final(self)@ == (DepthStencilStateView { stencil_function: value, ..old(self)@ }),
    {
        self.stencil_function = value;
    }

    /// XNA `DepthStencilState.StencilMask`.
    pub fn StencilMask(&self) -> (r: i32)
        ensures
            r == self@.stencil_mask,
    {
        self.stencil_mask
    }

    /// XNA `DepthStencilState.StencilMask` assignment, allowed only on a descriptor that is
    /// neither stock, bound to a device, nor disposed.
    pub fn SetStencilMask(&mut self, value: i32)
        requires
            old(self)@.resource.is_mutable(),
        ensures
            final(self)@ == (DepthStencilStateView { stencil_mask: value, ..old(self)@ }),
    {
        self.stencil_mask = value;
    }

    /// XNA `DepthStencilState.StencilWriteMask`.
    pub fn StencilWriteMask(&self) -> (r: i32)
        ensures
            r == self@.stencil_write_mask,
    {
        self.stencil_write_mask
    }

    /// XNA `DepthStencilState.StencilWriteMask` assignment, allowed only on a descriptor that is
    /// neither stock, bound to a device, nor disposed.
    pub fn SetStencilWriteMask(&mut self, value: i32)
        requires
            old(self)@.resource.is_mutable(),
        ensures
            final(self)@ == (DepthStencilStateView { stencil_write_mask: value, ..old(self)@ }),
    {
        self.stencil_write_mask = value;
    }

    /// XNA `DepthStencilState.ReferenceStencil`.
    pub fn ReferenceStencil(&self) -> (r: i32)
        ensures
            r == self@.reference_stencil,
    {
        self.reference_stencil
    }

    /// XNA `DepthStencilState.ReferenceStencil` assignment, allowed only on a descriptor that is
    /// neither stock, bound to a device, nor disposed.
    pub fn SetReferenceStencil(&mut self, value: i32)
        requires
            old(self)@.resource.is_mutable(),
        ensures
            final(self)@ == (DepthStencilStateView { reference_stencil: value, ..old(self)@ }),
    {
        self.reference_stencil = value;
    }

    /// XNA `DepthStencilState.StencilFail`.
    pub fn StencilFail(&self) -> (r: StencilOperation)
        ensures
            r == self@.stencil_fail,
    {
        self.stencil_fail
    }

    /// XNA `DepthStencilState.StencilFail` assignment, allowed only on a descriptor that is
    /// neither stock, bound to a device, nor disposed.
    pub fn SetStencilFail(&mut self, value: StencilOperation)
        requires
            old(self)@.resource.is_mutable(),
        ensures
            final(self)@ == (DepthStencilStateView { stencil_fail: value, ..old(self)@ }),
    {
        self.stencil_fail = value;
    }

    /// XNA `DepthStencilState.StencilDepthBufferFail`.
    pub fn StencilDepthBufferFail(&self) -> (r: StencilOperation)
        ensures
            r == self@.stencil_depth_buffer_fail,
    {
        self.stencil_depth_buffer_fail
    }

    /// XNA `DepthStencilState.StencilDepthBufferFail` assignment, allowed only on a descriptor that is
    /// neither stock, bound to a device, nor disposed.
    pub fn SetStencilDepthBufferFail(&mut self, value: StencilOperation)
        requires
            old(self)@.resource.is_mutable(),
        ensures
            final(self)@ == (DepthStencilStateView { stencil_depth_buffer_fail: value, ..old(self)@ }),
    {
        self.stencil_depth_buffer_fail = value;
    }

    /// XNA `DepthStencilState.StencilPass`.
    pub fn StencilPass(&self) -> (r: StencilOperation)
        ensures
            r == self@.stencil_pass,
    {
        self.stencil_pass
    }

    /// XNA `DepthStencilState.StencilPass` assignment, allowed only on a descriptor that is
    /// neither stock, bound to a device, nor disposed.
    pub fn SetStencilPass(&mut self, value: StencilOperation)
        requires
            old(self)@.resource.is_mutable(),
        ensures
            final(self)@ == (DepthStencilStateView { stencil_pass: value, ..old(self)@ }),
    {
        self.stencil_pass = value;
    }

    /// XNA `DepthStencilState.TwoSidedStencilMode`.
    pub fn TwoSidedStencilMode(&self) -> (r: bool)
        ensures
            r == self@.two_sided_stencil_mode,
    {
        self.two_sided_stencil_mode
    }

    /// XNA `DepthStencilState.TwoSidedStencilMode` assignment, allowed only on a descriptor that is
    /// neither stock, bound to a device, nor disposed.
    pub fn SetTwoSidedStencilMode(&mut self, value: bool)
        requires
            old(self)@.resource.is_mutable(),
        ensures
            final(self)@ == (DepthStencilStateView { two_sided_stencil_mode: value, ..old(self)@ }),
    {
        self.two_sided_stencil_mode = value;
    }

    /// XNA `DepthStencilState.CounterClockwiseStencilFunction`.
    pub fn CounterClockwiseStencilFunction(&self) -> (r: CompareFunction)
        ensures
            r == self@.counter_clockwise_stencil_function,
    {
        self.counter_clockwise_stencil_function
    }

    /// XNA `DepthStencilState.CounterClockwiseStencilFunction` assignment, allowed only on a descriptor that is
    /// neither stock, bound to a device, nor disposed.
    pub fn SetCounterClockwiseStencilFunction(&mut self, value: CompareFunction)
        requires
            old(self)@.resource.is_mutable(),
        ensures
            final(self)@ == (DepthStencilStateView { counter_clockwise_stencil_function: value, ..old(self)@ }),
    {
        self.counter_clockwise_stencil_function = value;
    }

    /// XNA `DepthStencilState.CounterClockwiseStencilFail`.
    pub fn CounterClockwiseStencilFail(&self) -> (r: StencilOperation)
        ensures
            r == self@.counter_clockwise_stencil_fail,
    {
        self.counter_clockwise_stencil_fail
    }

    /// XNA `DepthStencilState.CounterClockwiseStencilFail` assignment, allowed only on a descriptor that is
    /// neither stock, bound to a device, nor disposed.
    pub fn SetCounterClockwiseStencilFail(&mut self, value: StencilOperation)
        requires
            old(self)@.resource.is_mutable(),
        ensures
            final(self)@ == (DepthStencilStateView { counter_clockwise_stencil_fail: value, ..old(self)@ }),
    {
        self.counter_clockwise_stencil_fail = value;
    }

    /// XNA `DepthStencilState.CounterClockwiseStencilDepthBufferFail`.
    pub fn CounterClockwiseStencilDepthBufferFail(&self) -> (r: StencilOperation)
        ensures
            r == self@.counter_clockwise_stencil_depth_buffer_fail,
    {
        self.counter_clockwise_stencil_depth_buffer_fail
    }

    /// XNA `DepthStencilState.CounterClockwiseStencilDepthBufferFail` assignment, allowed only on a descriptor that is
    /// neither stock, bound to a device, nor disposed.
    pub fn SetCounterClockwiseStencilDepthBufferFail(&mut self, value: StencilOperation)
        requires
            old(self)@.resource.is_mutable(),
        ensures
            final(self)@ == (DepthStencilStateView { counter_clockwise_stencil_depth_buffer_fail: value, ..old(self)@ }),
    {
        self.counter_clockwise_stencil_depth_buffer_fail = value;
    }

    /// XNA `DepthStencilState.CounterClockwiseStencilPass`.
    pub fn CounterClockwiseStencilPass(&self) -> (r: StencilOperation)
        ensures
            r == self@.counter_clockwise_stencil_pass,
    {
        self.counter_clockwise_stencil_pass
    }

    /// XNA `DepthStencilState.CounterClockwiseStencilPass` assignment, allowed only on a descriptor that is
    /// neither stock, bound to a device, nor disposed.
    pub fn SetCounterClockwiseStencilPass(&mut self, value: StencilOperation)
        requires
            old(self)@.resource.is_mutable(),
        ensures
            final(self)@ == (DepthStencilStateView { counter_clockwise_stencil_pass: value, ..old(self)@ }),
    {
        self.counter_clockwise_stencil_pass = value;
    }
    /// XNA `DepthStencilState.Dispose`: answers whether the disposing event fires,
    /// which it does once, on the first explicit dispose.
    pub fn Dispose(&mut self, disposing: bool) -> (r: bool)
        ensures
            r == (disposing && !old(self)@.resource.disposed),
            final(self)@ == (DepthStencilStateView { resource: old(self)@.resource.after_dispose(), ..old(self)@ }),
    {
        self.resource.dispose(disposing)
    }

    /// Marks the descriptor disposed without any event, as dropping it does.
    pub fn dispose_without_event(&mut self)
        ensures
            final(self)@ == (DepthStencilStateView { resource: old(self)@.resource.after_dispose(), ..old(self)@ }),
    {
        self.resource.dispose_without_event();
    }

    /// Binds the descriptor to its first device, or checks it is that device.
    pub fn bind(&mut self, device: u64) -> (r: Result<(), CnaError>)
        ensures
            r == old(self)@.resource.bind_outcome(device),
            final(self)@ == (DepthStencilStateView { resource: old(self)@.resource.after_bind(device), ..old(self)@ }),
    {
        self.resource.bind(device)
    }

    /// The descriptor's resource bookkeeping.
    pub fn resource(&self) -> (r: &StateResource)
        ensures
            r@ == self@.resource,
    {
        &self.resource
    }

    /// XNA `GraphicsResource.Name` assignment.
    pub fn SetName(&mut self, value: &str)
        ensures
            final(self)@ == (DepthStencilStateView { resource: old(self)@.resource.after_rename(value@), ..old(self)@ }),
    {
        self.resource.set_name(value);
    }
}

/// Complete managed XNA rasterizer-state descriptor. The two depth biases are
/// held as the bit patterns of their `f32` values.
pub struct RasterizerState {
    resource: StateResource,
    cull_mode: CullMode,
    fill_mode: FillMode,
    depth_bias: u32,
    slope_scale_depth_bias: u32,
    multi_sample_anti_alias: bool,
    scissor_test_enable: bool,
}
/// What a `RasterizerState` describes, as plain values.
pub struct RasterizerStateView {
    pub resource: StateResourceView,
    pub cull_mode: CullMode,
    pub fill_mode: FillMode,
    pub depth_bias: u32,
    pub slope_scale_depth_bias: u32,
    pub multi_sample_anti_alias: bool,
    pub scissor_test_enable: bool,
}

impl View for RasterizerState {
    type V = RasterizerStateView;

    closed spec fn view(&self) -> RasterizerStateView {
        RasterizerStateView {
            resource: self.resource@,
            cull_mode: self.cull_mode,
            fill_mode: self.fill_mode,
            depth_bias: self.depth_bias,
            slope_scale_depth_bias: self.slope_scale_depth_bias,
            multi_sample_anti_alias: self.multi_sample_anti_alias,
            scissor_test_enable: self.scissor_test_enable,
        }
    }
}

/// The native form of a rasterizer descriptor's settings.
pub open spec fn spec_rasterizer_native(v: RasterizerStateView) -> NativeRasterizerState {
    NativeRasterizerState {
        cull_mode: v.cull_mode.spec_native(),
        fill_mode: v.fill_mode.spec_native(),
        depth_bias: v.depth_bias,
        slope_scale_depth_bias: v.slope_scale_depth_bias,
        multi_sample_anti_alias: if v.multi_sample_anti_alias { 1u8 } else { 0u8 },
        scissor_test_enable: if v.scissor_test_enable { 1u8 } else { 0u8 },
    }
}

/// The settings a native rasterizer record describes, bound to the device
/// that reported it; `None` when a number names no member.
pub open spec fn spec_rasterizer_from_native(value: NativeRasterizerState, device: u64) -> Option<RasterizerStateView> {
    if CullMode::spec_from_native(value.cull_mode) is Some
        && FillMode::spec_from_native(value.fill_mode) is Some {
        Some(
            RasterizerStateView {
                resource: fresh_resource(false, ""@).after_bind(device),
                cull_mode: CullMode::spec_from_native(value.cull_mode)->0,
                fill_mode: FillMode::spec_from_native(value.fill_mode)->0,
                depth_bias: value.depth_bias,
                slope_scale_depth_bias: value.slope_scale_depth_bias,
                multi_sample_anti_alias: spec_native_bool(value.multi_sample_anti_alias),
                scissor_test_enable: spec_native_bool(value.scissor_test_enable),
            },
        )
    } else {
        None
    }
}

impl RasterizerState {
    /// A rasterizer descriptor with XNA's defaults around the cull mode
    /// given: solid fill, zero biases, multisampling on, no scissor test.
    pub open spec fn spec_preset(stock: bool, stock_name: Seq<char>, cull_mode: CullMode) -> RasterizerStateView {
        RasterizerStateView {
            resource: fresh_resource(stock, stock_name),
            cull_mode,
            fill_mode: FillMode::Solid,
            depth_bias: 0,
            slope_scale_depth_bias: 0,
            multi_sample_anti_alias: true,
            scissor_test_enable: false,
        }
    }

    fn preset(stock: bool, stock_name: &'static str, cull_mode: CullMode) -> (r: Self)
        ensures
            r@ == Self::spec_preset(stock, stock_name@, cull_mode),
    {
        RasterizerState {
            resource: StateResource::new(stock, stock_name),
            cull_mode,
            fill_mode: FillMode::Solid,
            depth_bias: 0,
            slope_scale_depth_bias: 0,
            multi_sample_anti_alias: true,
            scissor_test_enable: false,
        }
    }

    /// XNA `RasterizerState.CullNone`.
    pub fn CullNone() -> (r: Self)
        ensures
            r@ == Self::spec_preset(true, "RasterizerState.CullNone"@, CullMode::CullNone),
    {
        Self::preset(true, "RasterizerState.CullNone", CullMode::CullNone)
    }

    /// XNA `RasterizerState.CullClockwise`.
    pub fn CullClockwise() -> (r: Self)
        ensures
            r@ == Self::spec_preset(true, "RasterizerState.CullClockwise"@, CullMode::CullClockwiseFace),
    {
        Self::preset(true, "RasterizerState.CullClockwise", CullMode::CullClockwiseFace)
    }

    /// XNA `RasterizerState.CullCounterClockwise`.
    pub fn CullCounterClockwise() -> (r: Self)
        ensures
            r@ == Self::spec_preset(true, "RasterizerState.CullCounterClockwise"@, CullMode::CullCounterClockwiseFace),
    {
        Self::preset(true, "RasterizerState.CullCounterClockwise", CullMode::CullCounterClockwiseFace)
    }

    /// XNA `new RasterizerState()`: counter-clockwise culling.
    pub fn new() -> (r: Self)
        ensures
            r@ == Self::spec_preset(false, ""@, CullMode::CullCounterClockwiseFace),
    {
        Self::preset(false, "", CullMode::CullCounterClockwiseFace)
    }

    /// The descriptor a native rasterizer state describes, already bound to
    /// the device that reported it; `None` when a number names no member.
    pub fn from_native(value: NativeRasterizerState, device: u64) -> (r: Option<Self>)
        ensures
            r is Some <==> spec_rasterizer_from_native(value, device) is Some,
            r matches Some(s) ==> s@ == spec_rasterizer_from_native(value, device)->0,
    {
        let cull_mode = CullMode::from_native_value(value.cull_mode)?;
        let fill_mode = FillMode::from_native_value(value.fill_mode)?;
        let mut result = RasterizerState {
            resource: StateResource::new(false, ""),
            cull_mode,
            fill_mode,
            depth_bias: value.depth_bias,
            slope_scale_depth_bias: value.slope_scale_depth_bias,
            multi_sample_anti_alias: native_bool(value.multi_sample_anti_alias),
            scissor_test_enable: native_bool(value.scissor_test_enable),
        };
        let _ = result.resource.bind(device);
        Some(result)
    }

    /// The native form of the descriptor.
    pub fn native(&self) -> (r: NativeRasterizerState)
        ensures
            r == spec_rasterizer_native(self@),
    {
        NativeRasterizerState {
            cull_mode: self.cull_mode.native_value(),
            fill_mode: self.fill_mode.native_value(),
            depth_bias: self.depth_bias,
            slope_scale_depth_bias: self.slope_scale_depth_bias,
            multi_sample_anti_alias: bool_byte(self.multi_sample_anti_alias),
            scissor_test_enable: bool_byte(self.scissor_test_enable),
        }
    }

    /// XNA `RasterizerState.CullMode`.
    pub fn CullMode(&self) -> (r: CullMode)
        ensures
            r == self@.cull_mode,
    {
        self.cull_mode
    }

    /// XNA `RasterizerState.CullMode` assignment, allowed only on a descriptor that is
    /// neither stock, bound to a device, nor disposed.
    pub fn SetCullMode(&mut self, value: CullMode)
        requires
            old(self)@.resource.is_mutable(),
        ensures
            final(self)@ == (RasterizerStateView { cull_mode: value, ..old(self)@ }),
    {
        self.cull_mode = value;
    }

    /// XNA `RasterizerState.FillMode`.
    pub fn FillMode(&self) -> (r: FillMode)
        ensures
            r == self@.fill_mode,
    {
        self.fill_mode
    }

    /// XNA `RasterizerState.FillMode` assignment, allowed only on a descriptor that is
    /// neither stock, bound to a device, nor disposed.
    pub fn SetFillMode(&mut self, value: FillMode)
        requires
            old(self)@.resource.is_mutable(),
        ensures
            final(self)@ == (RasterizerStateView { fill_mode: value, ..old(self)@ }),
    {
        self.fill_mode = value;
    }

    /// The bit pattern of XNA's `RasterizerState.DepthBias`, a 32-bit float.
    pub fn DepthBiasBits(&self) -> (r: u32)
        ensures
            r == self@.depth_bias,
    {
        self.depth_bias
    }

    /// Assigns the bit pattern of XNA's `RasterizerState.DepthBias`, allowed only on a descriptor that is
    /// neither stock, bound to a device, nor disposed.
    pub fn SetDepthBiasBits(&mut self, value: u32)
        requires
            old(self)@.resource.is_mutable(),
        ensures
            final(self)@ == (RasterizerStateView { depth_bias: value, ..old(self)@ }),
    {
        self.depth_bias = value;
    }

    /// The bit pattern of XNA's `RasterizerState.SlopeScaleDepthBias`, a 32-bit float.
    pub fn SlopeScaleDepthBiasBits(&self) -> (r: u32)
        ensures
            r == self@.slope_scale_depth_bias,
    {
        self.slope_scale_depth_bias
    }

    /// Assigns the bit pattern of XNA's `RasterizerState.SlopeScaleDepthBias`, allowed only on a descriptor that is
    /// neither stock, bound to a device, nor disposed.
    pub fn SetSlopeScaleDepthBiasBits(&mut self, value: u32)
        requires
            old(self)@.resource.is_mutable(),
        ensures
            final(self)@ == (RasterizerStateView { slope_scale_depth_bias: value, ..old(self)@ }),
    {
        self.slope_scale_depth_bias = value;
    }

    /// XNA `RasterizerState.MultiSampleAntiAlias`.
    pub fn MultiSampleAntiAlias(&self) -> (r: bool)
        ensures
            r == self@.multi_sample_anti_alias,
    {
        self.multi_sample_anti_alias
    }

    /// XNA `RasterizerState.MultiSampleAntiAlias` assignment, allowed only on a descriptor that is
    /// neither stock, bound to a device, nor disposed.
    pub fn SetMultiSampleAntiAlias(&mut self, value: bool)
        requires
            old(self)@.resource.is_mutable(),
        ensures
            final(self)@ == (RasterizerStateView { multi_sample_anti_alias: value, ..old(self)@ }),
    {
        self.multi_sample_anti_alias = value;
    }

    /// XNA `RasterizerState.ScissorTestEnable`.
    pub fn ScissorTestEnable(&self) -> (r: bool)
        ensures
            r == self@.scissor_test_enable,
    {
        self.scissor_test_enable
    }

    /// XNA `RasterizerState.ScissorTestEnable` assignment, allowed only on a descriptor that is
    /// neither stock, bound to a device, nor disposed.
    pub fn SetScissorTestEnable(&mut self, value: bool)
        requires
            old(self)@.resource.is_mutable(),
        ensures
            final(self)@ == (RasterizerStateView { scissor_test_enable: value, ..old(self)@ }),
    {
        self.scissor_test_enable = value;
    }
    /// XNA `RasterizerState.Dispose`: answers whether the disposing event fires,
    /// which it does once, on the first explicit dispose.
    pub fn Dispose(&mut self, disposing: bool) -> (r: bool)
        ensures
            r == (disposing && !old(self)@.resource.disposed),
            final(self)@ == (RasterizerStateView { resource: old(self)@.resource.after_dispose(), ..old(self)@ }),
    {
        self.resource.dispose(disposing)
    }

    /// Marks the descriptor disposed without any event, as dropping it does.
    pub fn dispose_without_event(&mut self)
        ensures
            final(self)@ == (RasterizerStateView { resource: old(self)@.resource.after_dispose(), ..old(self)@ }),
    {
        self.resource.dispose_without_event();
    }

    /// Binds the descriptor to its first device, or checks it is that device.
    pub fn bind(&mut self, device: u64) -> (r: Result<(), CnaError>)
        ensures
            r == old(self)@.resource.bind_outcome(device),
            final(self)@ == (RasterizerStateView { resource: old(self)@.resource.after_bind(device), ..old(self)@ }),
    {
        self.resource.bind(device)
    }

    /// The descriptor's resource bookkeeping.
    pub fn resource(&self) -> (r: &StateResource)
        ensures
            r@ == self@.resource,
    {
        &self.resource
    }

    /// XNA `GraphicsResource.Name` assignment.
    pub fn SetName(&mut self, value: &str)
        ensures
            final(self)@ == (RasterizerStateView { resource: old(self)@.resource.after_rename(value@), ..old(self)@ }),
    {
        self.resource.set_name(value);
    }
}

/// Complete managed XNA sampler-state descriptor. The mip-map bias is held as
/// the bit pattern of its `f32` value.
pub struct SamplerState {
    resource: StateResource,
    address_u: TextureAddressMode,
    address_v: TextureAddressMode,
    address_w: TextureAddressMode,
    filter: TextureFilter,
    max_anisotropy: i32,
    max_mip_level: i32,
    mip_map_level_of_detail_bias: u32,
}
/// What a `SamplerState` describes, as plain values.
pub struct SamplerStateView {
    pub resource: StateResourceView,
    pub address_u: TextureAddressMode,
    pub address_v: TextureAddressMode,
    pub address_w: TextureAddressMode,
    pub filter: TextureFilter,
    pub max_anisotropy: i32,
    pub max_mip_level: i32,
    pub mip_map_level_of_detail_bias: u32,
}

impl View for SamplerState {
    type V = SamplerStateView;

    closed spec fn view(&self) -> SamplerStateView {
        SamplerStateView {
            resource: self.resource@,
            address_u: self.address_u,
            address_v: self.address_v,
            address_w: self.address_w,
            filter: self.filter,
            max_anisotropy: self.max_anisotropy,
            max_mip_level: self.max_mip_level,
            mip_map_level_of_detail_bias: self.mip_map_level_of_detail_bias,
        }
    }
}

/// The native form of a sampler descriptor's settings.
pub open spec fn spec_sampler_native(v: SamplerStateView) -> NativeSamplerState {
    NativeSamplerState {
        address_u: v.address_u.spec_native(),
        address_v: v.address_v.spec_native(),
        address_w: v.address_w.spec_native(),
        filter: v.filter.spec_native(),
        max_anisotropy: v.max_anisotropy,
        max_mip_level: v.max_mip_level,
        mip_map_level_of_detail_bias: v.mip_map_level_of_detail_bias,
    }
}

/// The settings a native sampler record describes, bound to the device
/// that reported it; `None` when a number names no member.
pub open spec fn spec_sampler_from_native(value: NativeSamplerState, device: u64) -> Option<SamplerStateView> {
    if TextureAddressMode::spec_from_native(value.address_u) is Some
        && TextureAddressMode::spec_from_native(value.address_v) is Some
        && TextureAddressMode::spec_from_native(value.address_w) is Some
        && TextureFilter::spec_from_native(value.filter) is Some {
        Some(
            SamplerStateView {
                resource: fresh_resource(false, ""@).after_bind(device),
                address_u: TextureAddressMode::spec_from_native(value.address_u)->0,
                address_v: TextureAddressMode::spec_from_native(value.address_v)->0,
                address_w: TextureAddressMode::spec_from_native(value.address_w)->0,
                filter: TextureFilter::spec_from_native(value.filter)->0,
                max_anisotropy: value.max_anisotropy,
                max_mip_level: value.max_mip_level,
                mip_map_level_of_detail_bias: value.mip_map_level_of_detail_bias,
            },
        )
    } else {
        None
    }
}

impl SamplerState {
    /// A sampler descriptor with XNA's defaults around the filter and the
    /// one address mode given to all three axes.
    pub open spec fn spec_preset(stock: bool, stock_name: Seq<char>, filter: TextureFilter, address: TextureAddressMode) -> SamplerStateView {
        SamplerStateView {
            resource: fresh_resource(stock, stock_name),
            address_u: address,
            address_v: address,
            address_w: address,
            filter,
            max_anisotropy: 4,
            max_mip_level: 0,
            mip_map_level_of_detail_bias: 0,
        }
    }

    fn preset(stock: bool, stock_name: &'static str, filter: TextureFilter, address: TextureAddressMode) -> (r: Self)
        ensures
            r@ == Self::spec_preset(stock, stock_name@, filter, address),
    {
        SamplerState {
            resource: StateResource::new(stock, stock_name),
            address_u: address,
            address_v: address,
            address_w: address,
            filter,
            max_anisotropy: 4,
            max_mip_level: 0,
            mip_map_level_of_detail_bias: 0,
        }
    }

    /// XNA `SamplerState.PointWrap`.
    pub fn PointWrap() -> (r: Self)
        ensures
            r@ == Self::spec_preset(true, "SamplerState.PointWrap"@, TextureFilter::Point, TextureAddressMode::Wrap),
    {
        Self::preset(true, "SamplerState.PointWrap", TextureFilter::Point, TextureAddressMode::Wrap)
    }

    /// XNA `SamplerState.PointClamp`.
    pub fn PointClamp() -> (r: Self)
        ensures
            r@ == Self::spec_preset(true, "SamplerState.PointClamp"@, TextureFilter::Point, TextureAddressMode::Clamp),
    {
        Self::preset(true, "SamplerState.PointClamp", TextureFilter::Point, TextureAddressMode::Clamp)
    }

    /// XNA `SamplerState.LinearWrap`.
    pub fn LinearWrap() -> (r: Self)
        ensures
            r@ == Self::spec_preset(true, "SamplerState.LinearWrap"@, TextureFilter::Linear, TextureAddressMode::Wrap),
    {
        Self::preset(true, "SamplerState.LinearWrap", TextureFilter::Linear, TextureAddressMode::Wrap)
    }

    /// XNA `SamplerState.LinearClamp`.
    pub fn LinearClamp() -> (r: Self)
        ensures
            r@ == Self::spec_preset(true, "SamplerState.LinearClamp"@, TextureFilter::Linear, TextureAddressMode::Clamp),
    {
        Self::preset(true, "SamplerState.LinearClamp", TextureFilter::Linear, TextureAddressMode::Clamp)
    }

    /// XNA `SamplerState.AnisotropicWrap`.
    pub fn AnisotropicWrap() -> (r: Self)
        ensures
            r@ == Self::spec_preset(true, "SamplerState.AnisotropicWrap"@, TextureFilter::Anisotropic, TextureAddressMode::Wrap),
    {
        Self::preset(true, "SamplerState.AnisotropicWrap", TextureFilter::Anisotropic, TextureAddressMode::Wrap)
    }

    /// XNA `SamplerState.AnisotropicClamp`.
    pub fn AnisotropicClamp() -> (r: Self)
        ensures
            r@ == Self::spec_preset(true, "SamplerState.AnisotropicClamp"@, TextureFilter::Anisotropic, TextureAddressMode::Clamp),
    {
        Self::preset(true, "SamplerState.AnisotropicClamp", TextureFilter::Anisotropic, TextureAddressMode::Clamp)
    }

    /// XNA `new SamplerState()`: linear filtering, wrapping.
    pub fn new() -> (r: Self)
        ensures
            r@ == Self::spec_preset(false, ""@, TextureFilter::Linear, TextureAddressMode::Wrap),
    {
        Self::preset(false, "", TextureFilter::Linear, TextureAddressMode::Wrap)
    }

    /// The descriptor a native sampler state describes, already bound to the
    /// device that reported it; `None` when a number names no member.
    pub fn from_native(value: NativeSamplerState, device: u64) -> (r: Option<Self>)
        ensures
            r is Some <==> spec_sampler_from_native(value, device) is Some,
            r matches Some(s) ==> s@ == spec_sampler_from_native(value, device)->0,
    {
        let address_u = TextureAddressMode::from_native_value(value.address_u)?;
        let address_v = TextureAddressMode::from_native_value(value.address_v)?;
        let address_w = TextureAddressMode::from_native_value(value.address_w)?;
        let filter = TextureFilter::from_native_value(value.filter)?;
        let mut result = SamplerState {
            resource: StateResource::new(false, ""),
            address_u,
            address_v,
            address_w,
            filter,
            max_anisotropy: value.max_anisotropy,
            max_mip_level: value.max_mip_level,
            mip_map_level_of_detail_bias: value.mip_map_level_of_detail_bias,
        };
        let _ = result.resource.bind(device);
        Some(result)
    }

    /// The native form of the descriptor.
    pub fn native(&self) -> (r: NativeSamplerState)
        ensures
            r == spec_sampler_native(self@),
    {
        NativeSamplerState {
            address_u: self.address_u.native_value(),
            address_v: self.address_v.native_value(),
            address_w: self.address_w.native_value(),
            filter: self.filter.native_value(),
            max_anisotropy: self.max_anisotropy,
            max_mip_level: self.max_mip_level,
            mip_map_level_of_detail_bias: self.mip_map_level_of_detail_bias,
        }
    }

    /// XNA `SamplerState.AddressU`.
    pub fn AddressU(&self) -> (r: TextureAddressMode)
        ensures
            r == self@.address_u,
    {
        self.address_u
    }

    /// XNA `SamplerState.AddressU` assignment, allowed only on a descriptor that is
    /// neither stock, bound to a device, nor disposed.
    pub fn SetAddressU(&mut self, value: TextureAddressMode)
        requires
            old(self)@.resource.is_mutable(),
        ensures
            final(self)@ == (SamplerStateView { address_u: value, ..old(self)@ }),
    {
        self.address_u = value;
    }

    /// XNA `SamplerState.AddressV`.
    pub fn AddressV(&self) -> (r: TextureAddressMode)
        ensures
            r == self@.address_v,
    {
        self.address_v
    }

    /// XNA `SamplerState.AddressV` assignment, allowed only on a descriptor that is
    /// neither stock, bound to a device, nor disposed.
    pub fn SetAddressV(&mut self, value: TextureAddressMode)
        requires
            old(self)@.resource.is_mutable(),
        ensures
            final(self)@ == (SamplerStateView { address_v: value, ..old(self)@ }),
    {
        self.address_v = value;
    }

    /// XNA `SamplerState.AddressW`.
    pub fn AddressW(&self) -> (r: TextureAddressMode)
        ensures
            r == self@.address_w,
    {
        self.address_w
    }

    /// XNA `SamplerState.AddressW` assignment, allowed only on a descriptor that is
    /// neither stock, bound to a device, nor disposed.
    pub fn SetAddressW(&mut self, value: TextureAddressMode)
        requires
            old(self)@.resource.is_mutable(),
        ensures
            final(self)@ == (SamplerStateView { address_w: value, ..old(self)@ }),
    {
        self.address_w = value;
    }

    /// XNA `SamplerState.Filter`.
    pub fn Filter(&self) -> (r: TextureFilter)
        ensures
            r == self@.filter,
    {
        self.filter
    }

    /// XNA `SamplerState.Filter` assignment, allowed only on a descriptor that is
    /// neither stock, bound to a device, nor disposed.
    pub fn SetFilter(&mut self, value: TextureFilter)
        requires
            old(self)@.resource.is_mutable(),
        ensures
            final(self)@ == (SamplerStateView { filter: value, ..old(self)@ }),
    {
        self.filter = value;
    }

    /// XNA `SamplerState.MaxAnisotropy`.
    pub fn MaxAnisotropy(&self) -> (r: i32)
        ensures
            r == self@.max_anisotropy,
    {
        self.max_anisotropy
    }

    /// XNA `SamplerState.MaxAnisotropy` assignment, allowed only on a descriptor that is
    /// neither stock, bound to a device, nor disposed.
    pub fn SetMaxAnisotropy(&mut self, value: i32)
        requires
            old(self)@.resource.is_mutable(),
        ensures
            final(self)@ == (SamplerStateView { max_anisotropy: value, ..old(self)@ }),
    {
        self.max_anisotropy = value;
    }

    /// XNA `SamplerState.MaxMipLevel`.
    pub fn MaxMipLevel(&self) -> (r: i32)
        ensures
            r == self@.max_mip_level,
    {
        self.max_mip_level
    }

    /// XNA `SamplerState.MaxMipLevel` assignment, allowed only on a descriptor that is
    /// neither stock, bound to a device, nor disposed.
    pub fn SetMaxMipLevel(&mut self, value: i32)
        requires
            old(self)@.resource.is_mutable(),
        ensures
            final(self)@ == (SamplerStateView { max_mip_level: value, ..old(self)@ }),
    {
        self.max_mip_level = value;
    }

    /// The bit pattern of XNA's `SamplerState.MipMapLevelOfDetailBias`, a 32-bit float.
    pub fn MipMapLevelOfDetailBiasBits(&self) -> (r: u32)
        ensures
            r == self@.mip_map_level_of_detail_bias,
    {
        self.mip_map_level_of_detail_bias
    }

    /// Assigns the bit pattern of XNA's `SamplerState.MipMapLevelOfDetailBias`, allowed only on a descriptor that is
    /// neither stock, bound to a device, nor disposed.
    pub fn SetMipMapLevelOfDetailBiasBits(&mut self, value: u32)
        requires
            old(self)@.resource.is_mutable(),
        ensures
            final(self)@ == (SamplerStateView { mip_map_level_of_detail_bias: value, ..old(self)@ }),
    {
        self.mip_map_level_of_detail_bias = value;
    }
    /// XNA `SamplerState.Dispose`: answers whether the disposing event fires,
    /// which it does once, on the first explicit dispose.
    pub fn Dispose(&mut self, disposing: bool) -> (r: bool)
        ensures
            r == (disposing && !old(self)@.resource.disposed),
            final(self)@ == (SamplerStateView { resource: old(self)@.resource.after_dispose(), ..old(self)@ }),
    {
        self.resource.dispose(disposing)
    }

    /// Marks the descriptor disposed without any event, as dropping it does.
    pub fn dispose_without_event(&mut self)
        ensures
            final(self)@ == (SamplerStateView { resource: old(self)@.resource.after_dispose(), ..old(self)@ }),
    {
        self.resource.dispose_without_event();
    }

    /// Binds the descriptor to its first device, or checks it is that device.
    pub fn bind(&mut self, device: u64) -> (r: Result<(), CnaError>)
        ensures
            r == old(self)@.resource.bind_outcome(device),
            final(self)@ == (SamplerStateView { resource: old(self)@.resource.after_bind(device), ..old(self)@ }),
    {
        self.resource.bind(device)
    }

    /// The descriptor's resource bookkeeping.
    pub fn resource(&self) -> (r: &StateResource)
        ensures
            r@ == self@.resource,
    {
        &self.resource
    }

    /// XNA `GraphicsResource.Name` assignment.
    pub fn SetName(&mut self, value: &str)
        ensures
            final(self)@ == (SamplerStateView { resource: old(self)@.resource.after_rename(value@), ..old(self)@ }),
    {
        self.resource.set_name(value);
    }
}

/// Reading a blend descriptor's native form back gives the same settings,
/// bound to the device that reports them.
pub proof fn law_blend_state_native_round_trip(v: BlendStateView, device: u64)
    ensures
        spec_blend_from_native(spec_blend_native(v), device) == Some(BlendStateView {
            resource: fresh_resource(false, ""@).after_bind(device),
            ..v
        }),
{
    law_blend_function_round_trip(v.alpha_blend_function);
    law_blend_function_round_trip(v.color_blend_function);
    v.alpha_destination_blend.lemma_native_round_trip();
    v.alpha_source_blend.lemma_native_round_trip();
    v.color_destination_blend.lemma_native_round_trip();
    v.color_source_blend.lemma_native_round_trip();
    v.color_write_channels.lemma_bits_round_trip();
    v.color_write_channels1.lemma_bits_round_trip();
    v.color_write_channels2.lemma_bits_round_trip();
    v.color_write_channels3.lemma_bits_round_trip();
}

/// Reading a depth-stencil descriptor's native form back gives the same
/// settings, bound to the device that reports them.
pub proof fn law_depth_stencil_state_native_round_trip(v: DepthStencilStateView, device: u64)
    ensures
        spec_depth_stencil_from_native(spec_depth_stencil_native(v), device) == Some(DepthStencilStateView {
            resource: fresh_resource(false, ""@).after_bind(device),
            ..v
        }),
{
    v.depth_buffer_function.lemma_native_round_trip();
    v.stencil_function.lemma_native_round_trip();
    v.stencil_fail.lemma_native_round_trip();
    v.stencil_depth_buffer_fail.lemma_native_round_trip();
    v.stencil_pass.lemma_native_round_trip();
    v.counter_clockwise_stencil_function.lemma_native_round_trip();
    v.counter_clockwise_stencil_fail.lemma_native_round_trip();
    v.counter_clockwise_stencil_depth_buffer_fail.lemma_native_round_trip();
    v.counter_clockwise_stencil_pass.lemma_native_round_trip();
}

/// Reading a rasterizer descriptor's native form back gives the same
/// settings, bound to the device that reports them.
pub proof fn law_rasterizer_state_native_round_trip(v: RasterizerStateView, device: u64)
    ensures
        spec_rasterizer_from_native(spec_rasterizer_native(v), device) == Some(RasterizerStateView {
            resource: fresh_resource(false, ""@).after_bind(device),
            ..v
        }),
{
    v.cull_mode.lemma_native_round_trip();
    v.fill_mode.lemma_native_round_trip();
}

/// Reading a sampler descriptor's native form back gives the same settings,
/// bound to the device that reports them.
pub proof fn law_sampler_state_native_round_trip(v: SamplerStateView, device: u64)
    ensures
        spec_sampler_from_native(spec_sampler_native(v), device) == Some(SamplerStateView {
            resource: fresh_resource(false, ""@).after_bind(device),
            ..v
        }),
{
    v.address_u.lemma_native_round_trip();
    v.address_v.lemma_native_round_trip();
    v.address_w.lemma_native_round_trip();
    v.filter.lemma_native_round_trip();
}

/// XNA `GraphicsDevice.BlendState` read from the runtime: the descriptor its
/// record describes, bound to the device; a record naming no member is an
/// inconsistent answer.
pub fn device_blend_state(value: NativeBlendState, device: u64) -> (r: Result<BlendState, CnaError>)
    ensures
        r is Ok <==> spec_blend_from_native(value, device) is Some,
        r is Err ==> r->Err_0 == CnaError::Native(NativeFault::InvalidBlendState),
        r matches Ok(s) ==> s@ == spec_blend_from_native(value, device)->0,
{
    match BlendState::from_native(value, device) {
        Some(state) => Ok(state),
        None => Err(CnaError::Native(NativeFault::InvalidBlendState)),
    }
}

/// XNA `GraphicsDevice.DepthStencilState` read from the runtime: the descriptor its
/// record describes, bound to the device; a record naming no member is an
/// inconsistent answer.
pub fn device_depth_stencil_state(value: NativeDepthStencilState, device: u64) -> (r: Result<DepthStencilState, CnaError>)
    ensures
        r is Ok <==> spec_depth_stencil_from_native(value, device) is Some,
        r is Err ==> r->Err_0 == CnaError::Native(NativeFault::InvalidDepthStencilState),
        r matches Ok(s) ==> s@ == spec_depth_stencil_from_native(value, device)->0,
{
    match DepthStencilState::from_native(value, device) {
        Some(state) => Ok(state),
        None => Err(CnaError::Native(NativeFault::InvalidDepthStencilState)),
    }
}

/// XNA `GraphicsDevice.RasterizerState` read from the runtime: the descriptor its
/// record describes, bound to the device; a record naming no member is an
/// inconsistent answer.
pub fn device_rasterizer_state(value: NativeRasterizerState, device: u64) -> (r: Result<RasterizerState, CnaError>)
    ensures
        r is Ok <==> spec_rasterizer_from_native(value, device) is Some,
        r is Err ==> r->Err_0 == CnaError::Native(NativeFault::InvalidRasterizerState),
        r matches Ok(s) ==> s@ == spec_rasterizer_from_native(value, device)->0,
{
    match RasterizerState::from_native(value, device) {
        Some(state) => Ok(state),
        None => Err(CnaError::Native(NativeFault::InvalidRasterizerState)),
    }
}

/// XNA `GraphicsDevice.SamplerState` read from the runtime: the descriptor its
/// record describes, bound to the device; a record naming no member is an
/// inconsistent answer.
pub fn device_sampler_state(value: NativeSamplerState, device: u64) -> (r: Result<SamplerState, CnaError>)
    ensures
        r is Ok <==> spec_sampler_from_native(value, device) is Some,
        r is Err ==> r->Err_0 == CnaError::Native(NativeFault::InvalidSamplerState),
        r matches Ok(s) ==> s@ == spec_sampler_from_native(value, device)->0,
{
    match SamplerState::from_native(value, device) {
        Some(state) => Ok(state),
        None => Err(CnaError::Native(NativeFault::InvalidSamplerState)),
    }
}

/// The runtime numbers blend functions as XNA does, except `Min` and `Max`,
/// which take the runtime's own two numbers; decoding gives each back.
pub proof fn law_native_blend_function_numbers()
    ensures
        spec_native_blend_function(BlendFunction::Add) == 0,
        spec_native_blend_function(BlendFunction::Subtract) == 1,
        spec_native_blend_function(BlendFunction::ReverseSubtract) == 2,
        spec_native_blend_function(BlendFunction::Min) == NATIVE_BLEND_FUNCTION_MIN,
        spec_native_blend_function(BlendFunction::Max) == NATIVE_BLEND_FUNCTION_MAX,
        spec_blend_function_from_native(0) == Some(BlendFunction::Add),
        spec_blend_function_from_native(1) == Some(BlendFunction::Subtract),
        spec_blend_function_from_native(2) == Some(BlendFunction::ReverseSubtract),
        spec_blend_function_from_native(NATIVE_BLEND_FUNCTION_MIN) == Some(BlendFunction::Min),
        spec_blend_function_from_native(NATIVE_BLEND_FUNCTION_MAX) == Some(BlendFunction::Max),
{
}

/// Each field of a blend descriptor's native record carries the native
/// number (or value) of the setting of the same name.
pub proof fn law_blend_native_fields(v: BlendStateView)
    ensures
        spec_blend_native(v).alpha_blend_function == spec_native_blend_function(v.alpha_blend_function),
        spec_blend_native(v).alpha_destination_blend == v.alpha_destination_blend.spec_native(),
        spec_blend_native(v).alpha_source_blend == v.alpha_source_blend.spec_native(),
        spec_blend_native(v).color_blend_function == spec_native_blend_function(v.color_blend_function),
        spec_blend_native(v).color_destination_blend == v.color_destination_blend.spec_native(),
        spec_blend_native(v).color_source_blend == v.color_source_blend.spec_native(),
        spec_blend_native(v).color_write_channels == v.color_write_channels@ as u32,
        spec_blend_native(v).color_write_channels1 == v.color_write_channels1@ as u32,
        spec_blend_native(v).color_write_channels2 == v.color_write_channels2@ as u32,
        spec_blend_native(v).color_write_channels3 == v.color_write_channels3@ as u32,
        spec_blend_native(v).blend_factor == v.blend_factor,
        spec_blend_native(v).multi_sample_mask == v.multi_sample_mask,
{
}

/// Each setting a native blend record is read as comes from the record's
/// field of the same name.
pub proof fn law_blend_decoded_fields(value: NativeBlendState, device: u64)
    ensures
        spec_blend_from_native(value, device) matches Some(v) ==> {
            &&& spec_native_blend_function(v.alpha_blend_function) == value.alpha_blend_function
            &&& v.alpha_destination_blend.spec_native() == value.alpha_destination_blend
            &&& v.alpha_source_blend.spec_native() == value.alpha_source_blend
            &&& spec_native_blend_function(v.color_blend_function) == value.color_blend_function
            &&& v.color_destination_blend.spec_native() == value.color_destination_blend
            &&& v.color_source_blend.spec_native() == value.color_source_blend
            &&& v.color_write_channels@ as u32 == value.color_write_channels
            &&& v.color_write_channels1@ as u32 == value.color_write_channels1
            &&& v.color_write_channels2@ as u32 == value.color_write_channels2
            &&& v.color_write_channels3@ as u32 == value.color_write_channels3
            &&& v.blend_factor == value.blend_factor
            &&& v.multi_sample_mask == value.multi_sample_mask
        },
{
    if let Some(v) = spec_blend_from_native(value, device) {
        Blend::lemma_from_native_inverse(value.alpha_destination_blend);
        Blend::lemma_from_native_inverse(value.alpha_source_blend);
        Blend::lemma_from_native_inverse(value.color_destination_blend);
        Blend::lemma_from_native_inverse(value.color_source_blend);
        ColorWriteChannels::lemma_spec_values(value.color_write_channels);
        ColorWriteChannels::lemma_spec_values(value.color_write_channels1);
        ColorWriteChannels::lemma_spec_values(value.color_write_channels2);
        ColorWriteChannels::lemma_spec_values(value.color_write_channels3);
        let (w0, w1, w2, w3) = (
            value.color_write_channels,
            value.color_write_channels1,
            value.color_write_channels2,
            value.color_write_channels3,
        );
        assert(((w0 as i32) as u32) == w0) by (bit_vector);
        assert(((w1 as i32) as u32) == w1) by (bit_vector);
        assert(((w2 as i32) as u32) == w2) by (bit_vector);
        assert(((w3 as i32) as u32) == w3) by (bit_vector);
    }
}

/// Each field of a depth-stencil descriptor's native record carries the
/// native number (or value, or byte) of the setting of the same name.
pub proof fn law_depth_stencil_native_fields(v: DepthStencilStateView)
    ensures
        spec_depth_stencil_native(v).depth_buffer_enable == (if v.depth_buffer_enable { 1u8 } else { 0u8 }),
        spec_depth_stencil_native(v).depth_buffer_write_enable == (if v.depth_buffer_write_enable { 1u8 } else { 0u8 }),
        spec_depth_stencil_native(v).stencil_enable == (if v.stencil_enable { 1u8 } else { 0u8 }),
        spec_depth_stencil_native(v).two_sided_stencil_mode == (if v.two_sided_stencil_mode { 1u8 } else { 0u8 }),
        spec_depth_stencil_native(v).depth_buffer_function == v.depth_buffer_function.spec_native(),
        spec_depth_stencil_native(v).stencil_function == v.stencil_function.spec_native(),
        spec_depth_stencil_native(v).stencil_mask == v.stencil_mask,
        spec_depth_stencil_native(v).stencil_write_mask == v.stencil_write_mask,
        spec_depth_stencil_native(v).reference_stencil == v.reference_stencil,
        spec_depth_stencil_native(v).stencil_fail == v.stencil_fail.spec_native(),
        spec_depth_stencil_native(v).stencil_depth_buffer_fail == v.stencil_depth_buffer_fail.spec_native(),
        spec_depth_stencil_native(v).stencil_pass == v.stencil_pass.spec_native(),
        spec_depth_stencil_native(v).counter_clockwise_stencil_function == v.counter_clockwise_stencil_function.spec_native(),
        spec_depth_stencil_native(v).counter_clockwise_stencil_fail == v.counter_clockwise_stencil_fail.spec_native(),
        spec_depth_stencil_native(v).counter_clockwise_stencil_depth_buffer_fail
            == v.counter_clockwise_stencil_depth_buffer_fail.spec_native(),
        spec_depth_stencil_native(v).counter_clockwise_stencil_pass == v.counter_clockwise_stencil_pass.spec_native(),
{
}

/// Each setting a native depth-stencil record is read as comes from the
/// record's field of the same name.
pub proof fn law_depth_stencil_decoded_fields(value: NativeDepthStencilState, device: u64)
    ensures
        spec_depth_stencil_from_native(value, device) matches Some(v) ==> {
            &&& v.depth_buffer_enable == (value.depth_buffer_enable != 0)
            &&& v.depth_buffer_write_enable == (value.depth_buffer_write_enable != 0)
            &&& v.stencil_enable == (value.stencil_enable != 0)
            &&& v.two_sided_stencil_mode == (value.two_sided_stencil_mode != 0)
            &&& v.depth_buffer_function.spec_native() == value.depth_buffer_function
            &&& v.stencil_function.spec_native() == value.stencil_function
            &&& v.stencil_mask == value.stencil_mask
            &&& v.stencil_write_mask == value.stencil_write_mask
            &&& v.reference_stencil == value.reference_stencil
            &&& v.stencil_fail.spec_native() == value.stencil_fail
            &&& v.stencil_depth_buffer_fail.spec_native() == value.stencil_depth_buffer_fail
            &&& v.stencil_pass.spec_native() == value.stencil_pass
            &&& v.counter_clockwise_stencil_function.spec_native() == value.counter_clockwise_stencil_function
            &&& v.counter_clockwise_stencil_fail.spec_native() == value.counter_clockwise_stencil_fail
            &&& v.counter_clockwise_stencil_depth_buffer_fail.spec_native() == value.counter_clockwise_stencil_depth_buffer_fail
            &&& v.counter_clockwise_stencil_pass.spec_native() == value.counter_clockwise_stencil_pass
        },
{
    if let Some(v) = spec_depth_stencil_from_native(value, device) {
        CompareFunction::lemma_from_native_inverse(value.depth_buffer_function);
        CompareFunction::lemma_from_native_inverse(value.stencil_function);
        CompareFunction::lemma_from_native_inverse(value.counter_clockwise_stencil_function);
        StencilOperation::lemma_from_native_inverse(value.stencil_fail);
        StencilOperation::lemma_from_native_inverse(value.stencil_depth_buffer_fail);
        StencilOperation::lemma_from_native_inverse(value.stencil_pass);
        StencilOperation::lemma_from_native_inverse(value.counter_clockwise_stencil_fail);
        StencilOperation::lemma_from_native_inverse(value.counter_clockwise_stencil_depth_buffer_fail);
        StencilOperation::lemma_from_native_inverse(value.counter_clockwise_stencil_pass);
    }
}

/// Each field of a rasterizer descriptor's native record carries the
/// native number (or bits, or byte) of the setting of the same name.
pub proof fn law_rasterizer_native_fields(v: RasterizerStateView)
    ensures
        spec_rasterizer_native(v).cull_mode == v.cull_mode.spec_native(),
        spec_rasterizer_native(v).fill_mode == v.fill_mode.spec_native(),
        spec_rasterizer_native(v).depth_bias == v.depth_bias,
        spec_rasterizer_native(v).slope_scale_depth_bias == v.slope_scale_depth_bias,
        spec_rasterizer_native(v).multi_sample_anti_alias == (if v.multi_sample_anti_alias { 1u8 } else { 0u8 }),
        spec_rasterizer_native(v).scissor_test_enable == (if v.scissor_test_enable { 1u8 } else { 0u8 }),
{
}

/// Each setting a native rasterizer record is read as comes from the
/// record's field of the same name.
pub proof fn law_rasterizer_decoded_fields(value: NativeRasterizerState, device: u64)
    ensures
        spec_rasterizer_from_native(value, device) matches Some(v) ==> {
            &&& v.cull_mode.spec_native() == value.cull_mode
            &&& v.fill_mode.spec_native() == value.fill_mode
            &&& v.depth_bias == value.depth_bias
            &&& v.slope_scale_depth_bias == value.slope_scale_depth_bias
            &&& v.multi_sample_anti_alias == (value.multi_sample_anti_alias != 0)
            &&& v.scissor_test_enable == (value.scissor_test_enable != 0)
        },
{
    CullMode::lemma_from_native_inverse(value.cull_mode);
    FillMode::lemma_from_native_inverse(value.fill_mode);
}

/// Each field of a sampler descriptor's native record carries the native
/// number (or value, or bits) of the setting of the same name.
pub proof fn law_sampler_native_fields(v: SamplerStateView)
    ensures
        spec_sampler_native(v).address_u == v.address_u.spec_native(),
        spec_sampler_native(v).address_v == v.address_v.spec_native(),
        spec_sampler_native(v).address_w == v.address_w.spec_native(),
        spec_sampler_native(v).filter == v.filter.spec_native(),
        spec_sampler_native(v).max_anisotropy == v.max_anisotropy,
        spec_sampler_native(v).max_mip_level == v.max_mip_level,
        spec_sampler_native(v).mip_map_level_of_detail_bias == v.mip_map_level_of_detail_bias,
{
}

/// Each setting a native sampler record is read as comes from the record's
/// field of the same name.
pub proof fn law_sampler_decoded_fields(value: NativeSamplerState, device: u64)
    ensures
        spec_sampler_from_native(value, device) matches Some(v) ==> {
            &&& v.address_u.spec_native() == value.address_u
            &&& v.address_v.spec_native() == value.address_v
            &&& v.address_w.spec_native() == value.address_w
            &&& v.filter.spec_native() == value.filter
            &&& v.max_anisotropy == value.max_anisotropy
            &&& v.max_mip_level == value.max_mip_level
            &&& v.mip_map_level_of_detail_bias == value.mip_map_level_of_detail_bias
        },
{
    TextureAddressMode::lemma_from_native_inverse(value.address_u);
    TextureAddressMode::lemma_from_native_inverse(value.address_v);
    TextureAddressMode::lemma_from_native_inverse(value.address_w);
    TextureFilter::lemma_from_native_inverse(value.filter);
}

} // verus!
